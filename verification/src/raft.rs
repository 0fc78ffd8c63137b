//! The bare state of a raft server: the fields it keeps, with a constructor and
//! accessors, without heartbeats or request handlers. Terms are 32-bit here.

use std::collections::HashMap;
use vstd::prelude::*;

verus! {

/// Each instance of a raft server should get a unique ID.
pub type ServerId = u8;

pub type CandidateId = ServerId;

pub type Term = u32;

pub type LogIndex = u64;

struct LogEntry {
    term: Term,
    key: String,
    value: String,
}

/// The role a raft server currently plays.
#[derive(Clone, Copy, Debug, PartialEq, Eq)]
pub enum ServerState {
    Follower,
    Candidate,
    Leader,
}

pub struct Configuration {
    pub host: String,
    pub port: u16,
}

pub struct RaftServer {
    /// The state of this raft instance, initialized as ServerState::Follower
    state: ServerState,
    /// Configuration for the raft cluster
    config: Configuration,
    /// Latest term the server has seen, initialized to 0 and increases monotonically.
    current_term: Term,
    /// Candidate that recieved the vote in the current term (or None if not voted).
    voted_for: Option<CandidateId>,
    log: Vec<LogEntry>,
    /// Index of the highest log entry that is known to be committed.
    commit_index: LogIndex,
    /// Index of the highest log entry applied to the state machine.
    last_applied: LogIndex,
    /// For each server, the index of the next LogEntry to send that server.
    next_index: Option<HashMap<ServerId, LogIndex>>,
    /// For each server, the index of the highest known replicated log entry.
    match_index: Option<HashMap<ServerId, LogIndex>>,
}

impl RaftServer {
    /// The role this server plays.
    pub closed spec fn state_spec(&self) -> ServerState {
        self.state
    }

    /// The configuration of the cluster.
    pub closed spec fn config_spec(&self) -> Configuration {
        self.config
    }

    /// Latest term the server has seen.
    pub closed spec fn current_term_spec(&self) -> Term {
        self.current_term
    }

    /// The candidate this server voted for, if any.
    pub closed spec fn voted_for_spec(&self) -> Option<CandidateId> {
        self.voted_for
    }

    /// The number of entries in the log.
    pub closed spec fn log_len_spec(&self) -> nat {
        self.log@.len()
    }

    /// Index of the highest log entry that is known to be committed.
    pub closed spec fn commit_index_spec(&self) -> LogIndex {
        self.commit_index
    }

    /// Index of the highest log entry applied to the state machine.
    pub closed spec fn last_applied_spec(&self) -> LogIndex {
        self.last_applied
    }

    /// Whether the leader bookkeeping (`next_index`, `match_index`) is unset.
    pub closed spec fn no_leader_state_spec(&self) -> bool {
        self.next_index is None && self.match_index is None
    }

    /// Initializes a RaftServer in the default Follower state
    pub fn new(config: Configuration) -> (server: RaftServer)
        ensures
            server.state_spec() == ServerState::Follower,
            server.config_spec() == config,
            server.current_term_spec() == 0,
            server.voted_for_spec() is None,
            server.log_len_spec() == 0,
            server.commit_index_spec() == 0,
            server.last_applied_spec() == 0,
            server.no_leader_state_spec(),
    {
        RaftServer {
            state: ServerState::Follower,
            config: config,
            current_term: 0,
            voted_for: None,
            log: Vec::new(),
            commit_index: 0,
            last_applied: 0,
            // Leader specifics init'd to None due to new creation.
            next_index: None,
            match_index: None,
        }
    }

    /// Starts the RaftServer based on the configuration set in ::new(). It
    /// succeeds.
    pub fn start() -> (r: Result<(), String>)
        ensures
            r is Ok,
    {
        Ok(())
    }

    /// The role this server plays.
    pub fn state(&self) -> (r: ServerState)
        ensures
            r == self.state_spec(),
    {
        self.state
    }

    /// The configuration of the cluster.
    pub fn config(&self) -> (r: &Configuration)
        ensures
            *r == self.config_spec(),
    {
        &self.config
    }

    /// Latest term the server has seen.
    pub fn current_term(&self) -> (r: Term)
        ensures
            r == self.current_term_spec(),
    {
        self.current_term
    }

    /// The candidate this server voted for, if any.
    pub fn voted_for(&self) -> (r: Option<CandidateId>)
        ensures
            r == self.voted_for_spec(),
    {
        self.voted_for
    }

    /// The number of entries in the log.
    pub fn log_len(&self) -> (r: usize)
        ensures
            r == self.log_len_spec(),
    {
        self.log.len()
    }

    /// Index of the highest log entry that is known to be committed.
    pub fn commit_index(&self) -> (r: LogIndex)
        ensures
            r == self.commit_index_spec(),
    {
        self.commit_index
    }

    /// Index of the highest log entry applied to the state machine.
    pub fn last_applied(&self) -> (r: LogIndex)
        ensures
            r == self.last_applied_spec(),
    {
        self.last_applied
    }
}

} // verus!
