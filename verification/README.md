# raft

A basic implementation of the Raft consensus protocol, with the state of one
server and its request handlers verified in Verus.

- `src/server.rs`: the server state (`RaftServer`), its model (`RaftServerView`),
  and the `AppendEntries` / `RequestVote` handlers, with contracts over spec
  functions (`append_entries_next`, `request_vote_next`, ...). The follower
  timeout decision (`heartbeat_check_after`, `check_heartbeat`) is here too.
- `src/laws.rs`: proof functions for properties across requests: idempotence of
  `AppendEntries`, log matching, the commit-index bound, the current term as the
  latest term seen, and one vote per term.
- `src/raft.rs`: the bare server state with 32-bit terms.
- `src/raft_proto.rs`: the protocol marker type.
- `app/`: the command line, the thread-safe `Raft` handle with its heartbeat
  monitor thread, and the client.
- `tests/`: tests of the library on concrete values.

For more details on Raft see [this paper](https://raft.github.io/raft.pdf).
