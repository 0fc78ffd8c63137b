//! A Raft consensus server: the state that one member of a cluster keeps, and the
//! rules by which it answers `AppendEntries` and `RequestVote` requests.

pub mod laws;
pub mod raft;
pub mod raft_proto;
pub mod server;
