use std::collections::HashMap;
use std::time::Duration;
use std::time::Instant;
use vstd::prelude::*;

verus! {

/// Each instance of a raft server should get a unique ID.
pub type ServerId = u8;

pub type CandidateId = ServerId;

pub type Term = u64;

pub type LogIndex = u64;

/// One entry of the replicated log: a key/value write tagged with the term in
/// which the leader received it.
#[derive(Clone, Debug)]
pub struct LogEntry {
    term: Term,
    key: String,
    value: String,
}

impl LogEntry {
    /// The term of this entry.
    pub closed spec fn term_spec(&self) -> Term {
        self.term
    }

    /// The key of this entry, as characters.
    pub closed spec fn key_spec(&self) -> Seq<char> {
        self.key@
    }

    /// The value of this entry, as characters.
    pub closed spec fn value_spec(&self) -> Seq<char> {
        self.value@
    }
}

/// Builds a log entry from the fields read off the wire. A key or a value that
/// could not be read (`None`) becomes the empty string.
pub fn to_log_entry(term: Term, key: Option<String>, value: Option<String>) -> (e: LogEntry)
    ensures
        e.term_spec() == term,
        e.key_spec() == (match key {
            Some(s) => s@,
            None => Seq::<char>::empty(),
        }),
        e.value_spec() == (match value {
            Some(s) => s@,
            None => Seq::<char>::empty(),
        }),
{
    LogEntry {
        term: term,
        key: match key {
            Some(s) => s,
            None => String::new(),
        },
        value: match value {
            Some(s) => s,
            None => String::new(),
        },
    }
}


/// Builds the log entries of a request from the fields read off the wire, one
/// entry per `(term, key, value)` triple, in order, as `to_log_entry` does.
pub fn to_log_entries(wire: &Vec<(Term, Option<String>, Option<String>)>) -> (entries: Vec<LogEntry>)
    ensures
        entries@.len() == wire@.len(),
        forall|i: int|
            #![trigger entries@[i]]
            0 <= i < wire@.len() ==> {
                &&& entries@[i].term_spec() == wire@[i].0
                &&& entries@[i].key_spec() == (match wire@[i].1 {
                    Some(s) => s@,
                    None => Seq::<char>::empty(),
                })
                &&& entries@[i].value_spec() == (match wire@[i].2 {
                    Some(s) => s@,
                    None => Seq::<char>::empty(),
                })
            },
{
    let mut entries: Vec<LogEntry> = Vec::with_capacity(wire.len());
    let mut i: usize = 0;
    while i < wire.len()
        invariant
            i <= wire@.len(),
            entries@.len() == i,
            forall|j: int|
                #![trigger entries@[j]]
                0 <= j < i ==> {
                    &&& entries@[j].term_spec() == wire@[j].0
                    &&& entries@[j].key_spec() == (match wire@[j].1 {
                        Some(s) => s@,
                        None => Seq::<char>::empty(),
                    })
                    &&& entries@[j].value_spec() == (match wire@[j].2 {
                        Some(s) => s@,
                        None => Seq::<char>::empty(),
                    })
                },
        decreases wire@.len() - i,
    {
        let (term, key, value) = &wire[i];
        let key_copy: Option<String> = match key {
            Some(s) => Some(s.clone()),
            None => None,
        };
        let value_copy: Option<String> = match value {
            Some(s) => Some(s.clone()),
            None => None,
        };
        entries.push(to_log_entry(*term, key_copy, value_copy));
        i = i + 1;
    }
    entries
}

/// The role a raft server currently plays.
#[derive(Clone, Copy, Debug, PartialEq, Eq)]
pub enum ServerState {
    Follower,
    Candidate,
    Leader,
}

#[derive(Clone, Debug)]
pub struct Configuration {
    /// Host / IP and port to bind this server on.
    pub addr: String,
    /// How long a follower waits for a heartbeat before it starts an election.
    pub follower_timeout: Duration,
}

#[verifier::external_type_specification]
#[verifier::external_body]
pub struct ExInstant(Instant);

/// Calls `std::time::Instant::now`. It reads the clock, so its value is not
/// stated. `Instant::now` is documented as monotonic (never less than an instant
/// measured before it), and `Instant::duration_since` as saturating to zero when
/// its argument is the later instant; so when the caller passes an instant
/// `not_before` it measured earlier, the time from the reading back to
/// `not_before` is zero.
#[verifier::external_body]
#[allow(unused_variables)]
fn now_instant(not_before: Option<Instant>) -> (now: Instant)
    ensures
        not_before matches Some(earlier) ==> as_nanos_spec(duration_since_spec(earlier, now)) == 0,
{
    Instant::now()
}

/// Gives `<std::time::Instant as Clone>::clone`, which the derived `Clone` of
/// `RaftServer` calls, to Verus; nothing is stated of the copy it returns.
pub assume_specification[ <Instant as Clone>::clone ](i: &Instant) -> Instant;

/// Gives `<std::time::Duration as Clone>::clone`, which the derived `Clone` of
/// `Configuration` calls, to Verus; nothing is stated of the copy it returns.
pub assume_specification[ <Duration as Clone>::clone ](d: &Duration) -> Duration;

#[derive(Clone, Debug)]
pub struct RaftServer {
    /// The state of this raft instance, initialized as ServerState::Follower
    state: ServerState,
    /// The `Instant` that the last heartbeat was recieved at.
    last_heartbeat: Instant,
    /// Configuration for the raft cluster
    config: Configuration,
    /// Latest term the server has seen, initialized to 0 and increases monotonically.
    current_term: Term,
    /// Candidate that recieved the vote in the current term (or None if not voted).
    voted_for: Option<CandidateId>,
    log: Vec<LogEntry>,
    /// Index of the highest log entry that is known to be committed.
    commit_index: LogIndex,
    /// Index of the highest log entry applied to the state machine.
    last_applied: LogIndex,
    /// For each server, the index of the next LogEntry to send that server.
    next_index: Option<HashMap<ServerId, LogIndex>>,
    /// For each server, the index of the highest known replicated log entry.
    match_index: Option<HashMap<ServerId, LogIndex>>,
}

/// What a raft server holds, apart from the time of its last heartbeat.
#[verifier::ext_equal]
pub struct RaftServerView {
    pub state: ServerState,
    pub addr: Seq<char>,
    pub follower_timeout: Duration,
    pub current_term: Term,
    pub voted_for: Option<CandidateId>,
    pub log: Seq<LogEntry>,
    pub commit_index: LogIndex,
    pub last_applied: LogIndex,
    pub next_index: Option<Map<ServerId, LogIndex>>,
    pub match_index: Option<Map<ServerId, LogIndex>>,
}

/// The indices of the leader bookkeeping, by server.
pub open spec fn index_map_view(m: Option<HashMap<ServerId, LogIndex>>) -> Option<Map<ServerId, LogIndex>> {
    match m {
        Some(h) => Some(h@),
        None => None,
    }
}

impl View for RaftServer {
    type V = RaftServerView;

    closed spec fn view(&self) -> RaftServerView {
        RaftServerView {
            state: self.state,
            addr: self.config.addr@,
            follower_timeout: self.config.follower_timeout,
            current_term: self.current_term,
            voted_for: self.voted_for,
            log: self.log@,
            commit_index: self.commit_index,
            last_applied: self.last_applied,
            next_index: index_map_view(self.next_index),
            match_index: index_map_view(self.match_index),
        }
    }
}

impl RaftServer {
    /// The instant at which the last heartbeat was received.
    pub closed spec fn heartbeat_spec(&self) -> Instant {
        self.last_heartbeat
    }
}

/// A freshly created server: a follower in term 0 that has voted for nobody,
/// with an empty log and no leader bookkeeping.
pub open spec fn initial_server(config: Configuration) -> RaftServerView {
    RaftServerView {
        state: ServerState::Follower,
        addr: config.addr@,
        follower_timeout: config.follower_timeout,
        current_term: 0,
        voted_for: None,
        log: Seq::empty(),
        commit_index: 0,
        last_applied: 0,
        next_index: None,
        match_index: None,
    }
}

/// The state of a server once it has seen a request of term `term`: a newer term
/// becomes its current term, and the vote it cast in the older term is void.
pub open spec fn observe_term(s: RaftServerView, term: Term) -> RaftServerView {
    if term > s.current_term {
        RaftServerView { current_term: term, voted_for: None, ..s }
    } else {
        s
    }
}

/// Whether an `AppendEntries` request is refused: its term is older than ours, or
/// our log disagrees with the leader's at `prev_log_index`, or our log does not
/// reach `prev_log_index` (which only counts for a nonzero index).
pub open spec fn append_rejected(
    s: RaftServerView,
    term: Term,
    prev_log_index: LogIndex,
    prev_log_term: Term,
) -> bool {
    ||| term < s.current_term
    ||| (prev_log_index < s.log.len() && s.log[prev_log_index as int].term_spec() != prev_log_term)
    ||| (prev_log_index != 0 && prev_log_index >= s.log.len())
}

/// The position at which the leader's entries are written into the log.
pub open spec fn append_start(prev_log_index: LogIndex) -> int {
    if prev_log_index == 0 {
        0
    } else {
        prev_log_index + 1
    }
}

/// The index of the last entry of a log of `len` entries (0 for an empty log).
pub open spec fn last_log_index(len: int) -> int {
    if len == 0 {
        0
    } else {
        len - 1
    }
}

/// The commit index after an accepted `AppendEntries`: the smaller of the
/// leader's commit index and our last index, when the leader's is larger than
/// ours; otherwise ours unchanged.
pub open spec fn next_commit_index(commit_index: LogIndex, leader_commit: LogIndex, log_len: int) -> int {
    if leader_commit > commit_index {
        if leader_commit <= last_log_index(log_len) {
            leader_commit as int
        } else {
            last_log_index(log_len)
        }
    } else {
        commit_index as int
    }
}

/// The state of a server after it handles an `AppendEntries` request: it first
/// takes note of the request's term, then, unless it refuses the request,
/// writes the leader's entries from `append_start(prev_log_index)` on and moves
/// its commit index.
pub open spec fn append_entries_next(
    s: RaftServerView,
    term: Term,
    prev_log_index: LogIndex,
    prev_log_term: Term,
    entries: Seq<LogEntry>,
    leader_commit: LogIndex,
) -> RaftServerView {
    let seen = observe_term(s, term);
    if append_rejected(seen, term, prev_log_index, prev_log_term) {
        seen
    } else {
        let log = seen.log.subrange(0, append_start(prev_log_index)) + entries;
        RaftServerView {
            log: log,
            commit_index: next_commit_index(seen.commit_index, leader_commit, log.len() as int) as LogIndex,
            ..seen
        }
    }
}

/// Whether a `RequestVote` request is granted, judged once the server has taken
/// note of the request's term: the term is not older than ours, we have voted
/// for nobody or for this candidate already, and our log holds an entry at
/// `last_log_index` whose term is `last_log_term`.
pub open spec fn grants_vote(
    s: RaftServerView,
    term: Term,
    candidate_id: CandidateId,
    last_log_index: LogIndex,
    last_log_term: Term,
) -> bool {
    let seen = observe_term(s, term);
    &&& term >= seen.current_term
    &&& (seen.voted_for is None || seen.voted_for == Some(candidate_id))
    &&& last_log_index < seen.log.len()
    &&& seen.log[last_log_index as int].term_spec() == last_log_term
}

/// The state of a server after it handles a `RequestVote` request.
pub open spec fn request_vote_next(
    s: RaftServerView,
    term: Term,
    candidate_id: CandidateId,
    last_log_index: LogIndex,
    last_log_term: Term,
) -> RaftServerView {
    let seen = observe_term(s, term);
    if grants_vote(s, term, candidate_id, last_log_index, last_log_term) {
        RaftServerView { voted_for: Some(candidate_id), ..seen }
    } else {
        seen
    }
}

impl RaftServer {
    /// Initializes a RaftServer in the default Follower state, whose last
    /// heartbeat is the clock reading `now`.
    pub fn new_at(config: Configuration, now: Instant) -> (server: RaftServer)
        ensures
            server@ == initial_server(config),
            server.heartbeat_spec() == now,
    {
        RaftServer {
            state: ServerState::Follower,
            last_heartbeat: now,
            config: config,
            current_term: 0,
            voted_for: None,
            log: Vec::new(),
            commit_index: 0,
            last_applied: 0,
            // Leader specifics init'd to None due to new creation.
            next_index: None,
            match_index: None,
        }
    }

    /// Initializes a RaftServer in the default Follower state, whose last
    /// heartbeat is the time of its creation.
    pub fn new(config: Configuration) -> (server: RaftServer)
        ensures
            server@ == initial_server(config),
    {
        let now = now_instant(None);
        RaftServer::new_at(config, now)
    }

    /// Handles an `AppendEntries` request from the leader `leader_id` that
    /// arrived at the clock reading `now`. Any such request counts as a
    /// heartbeat. On success the leader's entries are moved out of `entries`
    /// into the log. The reply carries the current term, after the request's
    /// term has been taken note of.
    pub fn append_entries_at(
        &mut self,
        now: Instant,
        term: Term,
        leader_id: ServerId,
        prev_log_index: LogIndex,
        prev_log_term: Term,
        entries: &mut Vec<LogEntry>,
        leader_commit: LogIndex,
    ) -> (r: (Term, bool))
        ensures
            final(self)@ == append_entries_next(
                old(self)@,
                term,
                prev_log_index,
                prev_log_term,
                old(entries)@,
                leader_commit,
            ),
            final(self).heartbeat_spec() == now,
            r == (
                observe_term(old(self)@, term).current_term,
                !append_rejected(observe_term(old(self)@, term), term, prev_log_index, prev_log_term),
            ),
            r.1 ==> final(entries)@ == Seq::<LogEntry>::empty(),
            !r.1 ==> final(entries)@ == old(entries)@,
    {
        // Naive impl - any append entries counts as a heartbeat.
        self.last_heartbeat = now;

        if term < self.current_term {
            return (self.current_term, false);
        }
        if term > self.current_term {
            self.current_term = term;
            self.voted_for = None;
        }
        let ghost seen = self@;
        assert(seen == observe_term(old(self)@, term));

        let len: u64 = self.log.len() as u64;
        if prev_log_index < len && self.log[prev_log_index as usize].term != prev_log_term {
            return (self.current_term, false);
        } else if prev_log_index != 0 && prev_log_index >= len {
            return (self.current_term, false);
        }

        let new_index: u64 = if prev_log_index == 0 {
            0
        } else {
            prev_log_index + 1
        };

        // new_index should be the next item in the log
        // This means it should be equal to the length - otherwise we need to discard all further entries.
        if len == new_index {
            self.log.append(entries);
        } else {
            // Discard all items from new_index after
            self.log.truncate(new_index as usize);
            self.log.append(entries);
        }

        if leader_commit > self.commit_index {
            let n: u64 = self.log.len() as u64;
            let last_index: u64 = if n == 0 {
                0
            } else {
                n - 1
            };
            self.commit_index = if leader_commit <= last_index {
                leader_commit
            } else {
                last_index
            };
        }
        proof {
            assert(self@ =~= append_entries_next(
                old(self)@,
                term,
                prev_log_index,
                prev_log_term,
                old(entries)@,
                leader_commit,
            ));
        }
        (self.current_term, true)
    }

    /// Handles an `AppendEntries` request from the leader `leader_id`, taking the
    /// time of its arrival from the clock as the new heartbeat.
    pub fn append_entries(
        &mut self,
        term: Term,
        leader_id: ServerId,
        prev_log_index: LogIndex,
        prev_log_term: Term,
        entries: &mut Vec<LogEntry>,
        leader_commit: LogIndex,
    ) -> (r: (Term, bool))
        ensures
            final(self)@ == append_entries_next(
                old(self)@,
                term,
                prev_log_index,
                prev_log_term,
                old(entries)@,
                leader_commit,
            ),
            r == (
                observe_term(old(self)@, term).current_term,
                !append_rejected(observe_term(old(self)@, term), term, prev_log_index, prev_log_term),
            ),
            r.1 ==> final(entries)@ == Seq::<LogEntry>::empty(),
            !r.1 ==> final(entries)@ == old(entries)@,
            as_nanos_spec(duration_since_spec(old(self).heartbeat_spec(), final(self).heartbeat_spec())) == 0,
    {
        let now = now_instant(Some(self.last_heartbeat));
        self.append_entries_at(now, term, leader_id, prev_log_index, prev_log_term, entries, leader_commit)
    }

    /// Handles a `RequestVote` request from `candidate_id`. The reply carries the
    /// current term, after the request's term has been taken note of.
    pub fn request_vote(
        &mut self,
        term: Term,
        candidate_id: CandidateId,
        last_log_index: LogIndex,
        last_log_term: Term,
    ) -> (r: (Term, bool))
        ensures
            final(self)@ == request_vote_next(old(self)@, term, candidate_id, last_log_index, last_log_term),
            final(self).heartbeat_spec() == old(self).heartbeat_spec(),
            r == (
                observe_term(old(self)@, term).current_term,
                grants_vote(old(self)@, term, candidate_id, last_log_index, last_log_term),
            ),
    {
        // Do not vote as the term is less than ours.
        if term < self.current_term {
            return (self.current_term, false);
        }
        if term > self.current_term {
            self.current_term = term;
            self.voted_for = None;
        }
        assert(self@ == observe_term(old(self)@, term));

        // Do not vote as we have already voted for someone else.
        match self.voted_for {
            Some(v) => {
                if v != candidate_id {
                    return (self.current_term, false);
                }
            },
            None => {},
        }

        if last_log_index < self.log.len() as u64 && self.log[last_log_index as usize].term == last_log_term {
            // The candidate is at least as up to date as we are, so we can vote for them
            self.voted_for = Some(candidate_id);
            proof {
                assert(self@ =~= request_vote_next(old(self)@, term, candidate_id, last_log_index, last_log_term));
            }
            return (self.current_term, true);
        }

        (self.current_term, false)
    }
}

/// What `std::time::Instant::duration_since` returns for `now` and `earlier`: the
/// time elapsed from `earlier` to `now` (zero when `earlier` is the later one).
pub uninterp spec fn duration_since_spec(now: Instant, earlier: Instant) -> Duration;

/// What `std::time::Duration::as_nanos` returns for `d`: its length in
/// nanoseconds.
pub uninterp spec fn as_nanos_spec(d: Duration) -> u128;

/// Calls `std::time::Instant::duration_since`. The result is a function of the
/// two instants, named `duration_since_spec`; what it is is not stated.
#[verifier::external_body]
fn elapsed_between(now: Instant, earlier: Instant) -> (d: Duration)
    ensures
        d == duration_since_spec(now, earlier),
{
    now.duration_since(earlier)
}

/// Calls `std::time::Duration::as_nanos`. The result is a function of the
/// duration, named `as_nanos_spec`; the duration is opaque here, so its value is
/// not stated.
#[verifier::external_body]
fn duration_nanos(d: Duration) -> (r: u128)
    ensures
        r == as_nanos_spec(d),
{
    d.as_nanos()
}

/// What a periodic look at a server's heartbeat finds.
#[derive(Clone, Copy, Debug, PartialEq, Eq)]
pub enum HeartbeatCheck {
    /// A follower has heard nothing from a leader for longer than its timeout:
    /// it should start an election.
    TimedOut,
    /// A follower has heard from a leader within its timeout.
    StillFollowing,
    /// The server is not a follower; it plays the role given.
    NotFollower(ServerState),
}

/// What a server in `state` finds when `elapsed_nanos` nanoseconds have passed
/// since its last heartbeat and its timeout is `timeout_nanos`.
pub open spec fn heartbeat_outcome(state: ServerState, elapsed_nanos: u128, timeout_nanos: u128) -> HeartbeatCheck {
    match state {
        ServerState::Follower => if elapsed_nanos > timeout_nanos {
            HeartbeatCheck::TimedOut
        } else {
            HeartbeatCheck::StillFollowing
        },
        other => HeartbeatCheck::NotFollower(other),
    }
}

/// Decides what a server in `state` should do when `elapsed_nanos` nanoseconds
/// have passed since its last heartbeat and its timeout is `timeout_nanos`.
pub fn heartbeat_decision(state: ServerState, elapsed_nanos: u128, timeout_nanos: u128) -> (c: HeartbeatCheck)
    ensures
        c == heartbeat_outcome(state, elapsed_nanos, timeout_nanos),
{
    match state {
        ServerState::Follower => {
            if elapsed_nanos > timeout_nanos {
                HeartbeatCheck::TimedOut
            } else {
                HeartbeatCheck::StillFollowing
            }
        },
        other => HeartbeatCheck::NotFollower(other),
    }
}

impl RaftServer {
    /// Decides whether this server, `elapsed_nanos` nanoseconds after its last
    /// heartbeat, has waited longer than its configured follower timeout.
    pub fn heartbeat_check_after(&self, elapsed_nanos: u128) -> (c: HeartbeatCheck)
        ensures
            c == heartbeat_outcome(self@.state, elapsed_nanos, as_nanos_spec(self@.follower_timeout)),
    {
        let timeout: u128 = duration_nanos(self.config.follower_timeout);
        heartbeat_decision(self.state, elapsed_nanos, timeout)
    }

    /// Looks at the clock and decides whether this follower has gone without a
    /// heartbeat for longer than its configured follower timeout.
    pub fn check_heartbeat(&self) -> (c: HeartbeatCheck)
        ensures
            exists|now: Instant|
                c == heartbeat_outcome(
                    self@.state,
                    as_nanos_spec(#[trigger] duration_since_spec(now, self.heartbeat_spec())),
                    as_nanos_spec(self@.follower_timeout),
                ) && as_nanos_spec(duration_since_spec(self.heartbeat_spec(), now)) == 0,
    {
        let now = now_instant(Some(self.last_heartbeat));
        let elapsed = elapsed_between(now, self.last_heartbeat);
        let nanos = duration_nanos(elapsed);
        let c = self.heartbeat_check_after(nanos);
        assert(c == heartbeat_outcome(
            self@.state,
            as_nanos_spec(duration_since_spec(now, self.heartbeat_spec())),
            as_nanos_spec(self@.follower_timeout),
        ));
        c
    }

    /// The role this server plays.
    pub fn state(&self) -> (r: ServerState)
        ensures
            r == self@.state,
    {
        self.state
    }

    /// The configuration this server was created with.
    pub fn config(&self) -> (r: &Configuration)
        ensures
            r.addr@ == self@.addr,
            r.follower_timeout == self@.follower_timeout,
    {
        &self.config
    }

    /// Latest term the server has seen.
    pub fn current_term(&self) -> (r: Term)
        ensures
            r == self@.current_term,
    {
        self.current_term
    }

    /// The candidate this server voted for, if any.
    pub fn voted_for(&self) -> (r: Option<CandidateId>)
        ensures
            r == self@.voted_for,
    {
        self.voted_for
    }

    /// The replicated log.
    pub fn log(&self) -> (r: &Vec<LogEntry>)
        ensures
            r@ == self@.log,
    {
        &self.log
    }

    /// Index of the highest log entry that is known to be committed.
    pub fn commit_index(&self) -> (r: LogIndex)
        ensures
            r == self@.commit_index,
    {
        self.commit_index
    }

    /// Index of the highest log entry applied to the state machine.
    pub fn last_applied(&self) -> (r: LogIndex)
        ensures
            r == self@.last_applied,
    {
        self.last_applied
    }

    /// The time at which the last heartbeat was received.
    pub fn last_heartbeat(&self) -> (r: Instant)
        ensures
            r == self.heartbeat_spec(),
    {
        self.last_heartbeat
    }
}

/// Starts a server. It changes nothing and succeeds.
pub fn start(server: &mut RaftServer) -> (r: Result<(), String>)
    ensures
        r is Ok,
        final(server)@ == old(server)@,
        final(server).heartbeat_spec() == old(server).heartbeat_spec(),
{
    Ok(())
}

impl LogEntry {
    /// The term in which the leader received this entry.
    pub fn term(&self) -> (r: Term)
        ensures
            r == self.term_spec(),
    {
        self.term
    }

    /// The key this entry writes.
    pub fn key(&self) -> (r: &str)
        ensures
            r@ == self.key_spec(),
    {
        self.key.as_str()
    }

    /// The value this entry writes.
    pub fn value(&self) -> (r: &str)
        ensures
            r@ == self.value_spec(),
    {
        self.value.as_str()
    }
}

} // verus!
