use raft::server::{to_log_entry, Configuration, LogEntry, RaftServer};
use std::time::Duration;

fn config() -> Configuration {
    Configuration { addr: "localhost:1".to_string(), follower_timeout: Duration::from_millis(250) }
}

fn entry(term: u64, key: &str) -> LogEntry {
    to_log_entry(term, Some(key.to_string()), Some(key.to_string()))
}

fn terms(s: &RaftServer) -> Vec<u64> {
    s.log().iter().map(|e| e.term()).collect()
}

fn seeded(log_terms: &[u64]) -> RaftServer {
    let mut s = RaftServer::new(config());
    let mut entries: Vec<LogEntry> = log_terms.iter().map(|t| entry(*t, "seed")).collect();
    assert!(s.append_entries(0, 1, 0, 0, &mut entries, 0).1);
    s
}

#[test]
fn resent_append_entries_leaves_same_state() {
    let mut s = seeded(&[1, 1, 2]);
    let mut first = vec![entry(3, "a"), entry(3, "b")];
    let mut again = vec![entry(3, "a"), entry(3, "b")];
    assert_eq!(s.append_entries(3, 1, 1, 1, &mut first, 2), (3, true));
    let after_once = (terms(&s), s.commit_index());
    assert_eq!(s.append_entries(3, 1, 1, 1, &mut again, 2), (3, true));
    assert_eq!((terms(&s), s.commit_index()), after_once);
    assert_eq!(terms(&s), vec![1, 1, 3, 3]);
}

#[test]
fn resent_rewrite_from_start_is_refused_but_state_kept() {
    let mut s = seeded(&[1]);
    let mut first = vec![entry(2, "a")];
    let mut again = vec![entry(2, "a")];
    assert_eq!(s.append_entries(2, 1, 0, 1, &mut first, 0), (2, true));
    assert_eq!(terms(&s), vec![2]);
    assert_eq!(s.append_entries(2, 1, 0, 1, &mut again, 0), (2, false));
    assert_eq!(terms(&s), vec![2]);
}

#[test]
fn log_matches_leader_after_append() {
    let mut s = seeded(&[1, 2, 2, 2]);
    let mut entries = vec![entry(4, "x"), entry(4, "y")];
    assert!(s.append_entries(4, 1, 1, 2, &mut entries, 0).1);
    assert_eq!(terms(&s), vec![1, 2, 4, 4]);
    assert_eq!(s.log()[1].term(), 2);
    assert_eq!(s.log()[3].key(), "y");
}

#[test]
fn commit_index_stays_within_leader_and_log() {
    let mut s = seeded(&[1, 1]);
    let mut none: Vec<LogEntry> = Vec::new();
    assert!(s.append_entries(1, 1, 1, 1, &mut none, 100).1);
    assert_eq!(s.commit_index(), 1);
    assert!(s.append_entries(1, 1, 0, 1, &mut none, 0).1);
    assert_eq!(s.commit_index(), 1);
}

#[test]
fn current_term_is_latest_seen() {
    let mut s = seeded(&[1]);
    let mut entries = vec![entry(9, "z")];
    assert_eq!(s.append_entries(9, 1, 0, 1, &mut entries, 9), (9, true));
    assert_eq!(s.current_term(), 9);
    // An older term is refused and does not lower ours.
    assert_eq!(s.request_vote(4, 4, 0, 9), (9, false));
    assert_eq!(s.current_term(), 9);
    // A newer term is adopted even when the request is refused.
    let mut more = vec![entry(12, "w")];
    assert_eq!(s.append_entries(12, 1, 7, 1, &mut more, 0), (12, false));
    assert_eq!(s.current_term(), 12);
    assert_eq!(s.request_vote(15, 4, 5, 9), (15, false));
    assert_eq!(s.current_term(), 15);
}

#[test]
fn newer_term_voids_vote() {
    let mut s = seeded(&[1]);
    assert!(s.request_vote(1, 5, 0, 1).1);
    let mut entries = vec![entry(2, "q")];
    assert!(s.append_entries(2, 1, 0, 1, &mut entries, 0).1);
    assert_eq!(s.current_term(), 2);
    // The append was of a newer term, so the vote of term 1 is void.
    assert_eq!(s.voted_for(), None);
    assert!(s.request_vote(2, 6, 0, 2).1);
    assert_eq!(s.voted_for(), Some(6));
    assert!(!s.request_vote(2, 5, 0, 2).1);
    assert_eq!(s.voted_for(), Some(6));
}

#[test]
fn vote_is_kept_within_term() {
    let mut s = seeded(&[1]);
    assert!(s.request_vote(0, 5, 0, 1).1);
    let mut entries = vec![entry(1, "q")];
    assert!(s.append_entries(0, 1, 0, 1, &mut entries, 0).1);
    assert_eq!(s.voted_for(), Some(5));
    assert!(!s.request_vote(0, 6, 0, 1).1);
    assert_eq!(s.voted_for(), Some(5));
}
