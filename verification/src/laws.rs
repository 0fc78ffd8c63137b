//! Properties of the server's request handlers that span several requests.

use crate::server::{
    CandidateId, LogEntry, LogIndex, RaftServerView, Term, append_entries_next, append_rejected,
    append_start, grants_vote, heartbeat_outcome, last_log_index, observe_term,
    request_vote_next, HeartbeatCheck, ServerState,
};
use vstd::prelude::*;

verus! {

/// Handling the same `AppendEntries` request a second time leaves the server in
/// the state that the first handling left it in, so a leader may resend a
/// request whose reply it lost.
pub proof fn lemma_append_entries_idempotent(
    s: RaftServerView,
    term: Term,
    prev_log_index: LogIndex,
    prev_log_term: Term,
    entries: Seq<LogEntry>,
    leader_commit: LogIndex,
)
    ensures
        ({
            let once = append_entries_next(s, term, prev_log_index, prev_log_term, entries, leader_commit);
            append_entries_next(once, term, prev_log_index, prev_log_term, entries, leader_commit) == once
        }),
{
    let once = append_entries_next(s, term, prev_log_index, prev_log_term, entries, leader_commit);
    if !append_rejected(observe_term(s, term), term, prev_log_index, prev_log_term) {
        let start = append_start(prev_log_index);
        assert(once.log.subrange(0, start) =~= s.log.subrange(0, start));
        if !append_rejected(observe_term(once, term), term, prev_log_index, prev_log_term) {
            let twice = append_entries_next(once, term, prev_log_index, prev_log_term, entries, leader_commit);
            assert(twice.log =~= once.log);
            assert(twice =~= once);
        }
    }
}

/// A request that was accepted is accepted again when it is resent, unless it
/// rewrites the log from its very start (`prev_log_index` 0) with a first entry
/// whose term differs from `prev_log_term`.
pub proof fn lemma_append_entries_retry_accepted(
    s: RaftServerView,
    term: Term,
    prev_log_index: LogIndex,
    prev_log_term: Term,
    entries: Seq<LogEntry>,
    leader_commit: LogIndex,
)
    requires
        !append_rejected(observe_term(s, term), term, prev_log_index, prev_log_term),
        prev_log_index != 0 || entries.len() == 0 || entries[0].term_spec() == prev_log_term,
    ensures
        !append_rejected(
            observe_term(append_entries_next(s, term, prev_log_index, prev_log_term, entries, leader_commit), term),
            term,
            prev_log_index,
            prev_log_term,
        ),
{
    let once = append_entries_next(s, term, prev_log_index, prev_log_term, entries, leader_commit);
    let start = append_start(prev_log_index);
    if prev_log_index != 0 {
        assert(once.log[prev_log_index as int] == s.log[prev_log_index as int]);
    } else if entries.len() != 0 {
        assert(once.log[0] == entries[0]);
    }
}

/// After an accepted `AppendEntries`, the log agrees with the leader's: the
/// entries before the write position are those the server had, the entry at a
/// nonzero `prev_log_index` has the term `prev_log_term`, and the leader's
/// entries follow, with nothing after them.
pub proof fn lemma_log_matches_leader_after_append(
    s: RaftServerView,
    term: Term,
    prev_log_index: LogIndex,
    prev_log_term: Term,
    entries: Seq<LogEntry>,
    leader_commit: LogIndex,
)
    requires
        !append_rejected(observe_term(s, term), term, prev_log_index, prev_log_term),
    ensures
        ({
            let after = append_entries_next(s, term, prev_log_index, prev_log_term, entries, leader_commit);
            let start = append_start(prev_log_index);
            &&& start <= s.log.len()
            &&& after.log.len() == start + entries.len()
            &&& after.log.subrange(0, start) == s.log.subrange(0, start)
            &&& after.log.subrange(start, after.log.len() as int) == entries
            &&& prev_log_index != 0 ==> after.log[prev_log_index as int].term_spec() == prev_log_term
        }),
{
    let after = append_entries_next(s, term, prev_log_index, prev_log_term, entries, leader_commit);
    let start = append_start(prev_log_index);
    assert(after.log.subrange(0, start) =~= s.log.subrange(0, start));
    assert(after.log.subrange(start, after.log.len() as int) =~= entries);
}

/// When an accepted `AppendEntries` moves the commit index, the new commit index
/// is at most the leader's and points at an entry of the new log (or is 0 when
/// the log is empty).
pub proof fn lemma_commit_index_bounded(
    s: RaftServerView,
    term: Term,
    prev_log_index: LogIndex,
    prev_log_term: Term,
    entries: Seq<LogEntry>,
    leader_commit: LogIndex,
)
    ensures
        ({
            let after = append_entries_next(s, term, prev_log_index, prev_log_term, entries, leader_commit);
            after.commit_index != s.commit_index ==> {
                &&& after.commit_index <= leader_commit
                &&& after.commit_index <= last_log_index(after.log.len() as int)
            }
        }),
{
}

/// The current term is the latest term the server has seen: after either
/// request handler it is the larger of the old current term and the request's
/// term, so it never decreases.
pub proof fn lemma_current_term_is_latest_seen(
    s: RaftServerView,
    term: Term,
    id: CandidateId,
    index: LogIndex,
    index_term: Term,
    entries: Seq<LogEntry>,
    leader_commit: LogIndex,
)
    ensures
        ({
            let latest = if term > s.current_term {
                term
            } else {
                s.current_term
            };
            &&& append_entries_next(s, term, index, index_term, entries, leader_commit).current_term == latest
            &&& request_vote_next(s, term, id, index, index_term).current_term == latest
        }),
{
}

/// A vote belongs to a term: a request of a newer term voids it, and otherwise
/// neither handler moves or withdraws a vote once cast; `AppendEntries` never
/// casts one.
pub proof fn lemma_vote_is_kept_within_term(
    s: RaftServerView,
    term: Term,
    id: CandidateId,
    index: LogIndex,
    index_term: Term,
    entries: Seq<LogEntry>,
    leader_commit: LogIndex,
)
    ensures
        append_entries_next(s, term, index, index_term, entries, leader_commit).voted_for == (if term
            > s.current_term {
            None
        } else {
            s.voted_for
        }),
        term <= s.current_term && s.voted_for is Some ==> request_vote_next(
            s,
            term,
            id,
            index,
            index_term,
        ).voted_for == s.voted_for,
{
}

/// A server votes for one candidate at most in a term: once it has granted its
/// vote to `first`, it refuses every other candidate whose request is not of a
/// newer term, and stays unchanged.
pub proof fn lemma_one_vote_per_term(
    s: RaftServerView,
    term1: Term,
    first: CandidateId,
    index1: LogIndex,
    index_term1: Term,
    term2: Term,
    second: CandidateId,
    index2: LogIndex,
    index_term2: Term,
)
    requires
        grants_vote(s, term1, first, index1, index_term1),
        second != first,
        term2 <= request_vote_next(s, term1, first, index1, index_term1).current_term,
    ensures
        ({
            let after = request_vote_next(s, term1, first, index1, index_term1);
            &&& after.voted_for == Some(first)
            &&& !grants_vote(after, term2, second, index2, index_term2)
            &&& request_vote_next(after, term2, second, index2, index_term2) == after
        }),
{
}

/// After an accepted `AppendEntries`, the log holds the entries up to the write
/// position followed by all of the leader's entries, and the commit index is the
/// smaller of the leader's commit index and the index of the last entry of that
/// new log (0 for an empty log) when the leader's is larger than ours; otherwise
/// it is ours unchanged.
pub proof fn lemma_commit_index_follows_leader(
    s: RaftServerView,
    term: Term,
    prev_log_index: LogIndex,
    prev_log_term: Term,
    entries: Seq<LogEntry>,
    leader_commit: LogIndex,
)
    requires
        !append_rejected(observe_term(s, term), term, prev_log_index, prev_log_term),
    ensures
        ({
            let after = append_entries_next(s, term, prev_log_index, prev_log_term, entries, leader_commit);
            let n = after.log.len();
            &&& n == (if prev_log_index == 0 {
                0
            } else {
                prev_log_index + 1
            }) + entries.len()
            &&& leader_commit > s.commit_index && n == 0 ==> after.commit_index == 0
            &&& leader_commit > s.commit_index && n > 0 && leader_commit <= n - 1 ==> after.commit_index
                == leader_commit
            &&& leader_commit > s.commit_index && n > 0 && leader_commit > n - 1 ==> after.commit_index
                == n - 1
            &&& leader_commit <= s.commit_index ==> after.commit_index == s.commit_index
        }),
{
}

/// A vote is granted exactly when the request's term is not older than ours, we
/// have not voted for another candidate in that term, and our log holds an entry
/// at `last_log_index` whose term is `last_log_term`. When our log has no such
/// entry the request is refused: the log is kept and the vote is what it was, or
/// void when the request's term is newer.
pub proof fn lemma_vote_needs_matching_entry(
    s: RaftServerView,
    term: Term,
    candidate_id: CandidateId,
    last_log_index: LogIndex,
    last_log_term: Term,
)
    ensures
        grants_vote(s, term, candidate_id, last_log_index, last_log_term) <==> {
            &&& term >= s.current_term
            &&& (term > s.current_term || s.voted_for is None || s.voted_for == Some(candidate_id))
            &&& last_log_index < s.log.len()
            &&& s.log[last_log_index as int].term_spec() == last_log_term
        },
        !(last_log_index < s.log.len() && s.log[last_log_index as int].term_spec() == last_log_term) ==> {
            let after = request_vote_next(s, term, candidate_id, last_log_index, last_log_term);
            &&& !grants_vote(s, term, candidate_id, last_log_index, last_log_term)
            &&& after.log == s.log
            &&& after.voted_for == (if term > s.current_term {
                None
            } else {
                s.voted_for
            })
        },
{
}

/// A follower times out exactly when the time since its last heartbeat exceeds
/// its timeout; a server in another role is never reported as a follower.
pub proof fn lemma_follower_times_out_after_timeout(state: ServerState, elapsed_nanos: u128, timeout_nanos: u128)
    ensures
        (heartbeat_outcome(state, elapsed_nanos, timeout_nanos) == HeartbeatCheck::TimedOut) <==> (state
            == ServerState::Follower && elapsed_nanos > timeout_nanos),
        (heartbeat_outcome(state, elapsed_nanos, timeout_nanos) == HeartbeatCheck::StillFollowing) <==> (
        state == ServerState::Follower && elapsed_nanos <= timeout_nanos),
        state != ServerState::Follower ==> heartbeat_outcome(state, elapsed_nanos, timeout_nanos)
            == HeartbeatCheck::NotFollower(state),
{
}

} // verus!
