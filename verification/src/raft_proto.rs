use vstd::prelude::*;

verus! {

/// Names the raft wire protocol, for a transport to be bound to. It carries no
/// data and does no framing itself.
pub struct RaftProto;

} // verus!
