use miner::difficulty::check_difficulty;
use miner::hashing::sha256d;
use miner::session::BATCH_SIZE;
use miner::session::MineStatus;
use miner::session::MiningSession;
use miner::session::SessionPhase;
use miner::session::StartError;

// A difficulty of 255 leading zero bits is unreachable in any test-sized
// search, so a session at this difficulty keeps running until stopped.
const HOPELESS: u32 = 255;

fn candidate(header: &[u8], nonce: u64) -> Vec<u8> {
    let mut c = header.to_vec();
    c.extend_from_slice(nonce.to_string().as_bytes());
    c
}

#[test]
fn stats_before_any_start_are_zero() {
    let s = MiningSession::new();
    let st = s.stats();
    assert_eq!(st.total_hashes, 0);
    assert_eq!(st.current_difficulty, 0);
    assert!(!st.is_mining);
    assert_eq!(s.phase, SessionPhase::Idle);
}

#[test]
fn difficulty_zero_found_at_nonce_zero() {
    let mut s = MiningSession::new();
    s.start(b"abc".to_vec(), 0).unwrap();
    let r = s.mine(BATCH_SIZE);
    assert_eq!(r.status, MineStatus::Found);
    assert_eq!(r.nonce, 0);
    assert_eq!(r.iterations, 0);
    assert_eq!(r.block_header, b"abc".to_vec());
    assert_eq!(r.digest, sha256d(&candidate(b"abc", 0)));
    assert_eq!(s.phase, SessionPhase::Found);
    assert!(!s.stats().is_mining);
}

#[test]
fn low_difficulty_search_finds_first_solution() {
    let mut s = MiningSession::new();
    s.start(b"abc".to_vec(), 8).unwrap();
    let r = s.mine(1000);
    assert_eq!(r.status, MineStatus::Found);
    assert_eq!(r.iterations, r.nonce);
    let digest = sha256d(&candidate(b"abc", r.nonce));
    assert_eq!(r.digest, digest);
    assert!(check_difficulty(&digest, 8));
    // every earlier nonce fails
    for n in 0..r.nonce {
        assert!(!check_difficulty(&sha256d(&candidate(b"abc", n)), 8));
    }
    assert_eq!(s.stats().total_hashes, r.nonce);
}

#[test]
fn stop_before_first_batch_boundary_cancels() {
    let mut s = MiningSession::new();
    s.start(b"00000000000000000000000000000000".to_vec(), 32).unwrap();
    s.stop();
    // the request is visible in the stats at once
    assert!(!s.stats().is_mining);
    let r = s.step_batch(BATCH_SIZE).expect("a cleared flag ends the batch");
    assert_eq!(r.status, MineStatus::Cancelled);
    assert!(r.iterations < 10000);
    assert_eq!(r.iterations, 0);
    assert_eq!(s.phase, SessionPhase::Cancelled);
}

#[test]
fn cancellation_latency_is_at_most_one_batch() {
    let mut s = MiningSession::new();
    s.start(b"abc".to_vec(), HOPELESS).unwrap();
    assert!(s.step_batch(50).is_none());
    s.stop();
    let r = s.step_batch(50).expect("the next batch observes the flag");
    assert_eq!(r.status, MineStatus::Cancelled);
    // observed within one iteration of the batch after the request
    assert_eq!(r.nonce, 50);
    assert_eq!(r.digest, sha256d(&candidate(b"abc", 50)));
}

#[test]
fn total_hashes_is_monotonic_while_running() {
    let mut s = MiningSession::new();
    s.start(b"abc".to_vec(), HOPELESS).unwrap();
    let mut last = s.stats().total_hashes;
    for _ in 0..3 {
        assert!(s.step_batch(1000).is_none());
        let st = s.stats();
        assert!(st.total_hashes >= last);
        assert!(st.is_mining);
        assert_eq!(st.current_difficulty, HOPELESS);
        last = st.total_hashes;
    }
    assert_eq!(last, 3000);
    // cancellation does not roll the counter back
    s.stop();
    let r = s.step_batch(1000).unwrap();
    assert_eq!(r.status, MineStatus::Cancelled);
    assert_eq!(s.stats().total_hashes, 3000);
    assert!(!s.stats().is_mining);
}

#[test]
fn start_while_running_is_rejected() {
    let mut s = MiningSession::new();
    s.start(b"abc".to_vec(), HOPELESS).unwrap();
    assert!(s.step_batch(100).is_none());
    assert_eq!(s.start(b"other".to_vec(), 1), Err(StartError::AlreadyRunning));
    // the running search is untouched
    assert_eq!(s.stats().current_difficulty, HOPELESS);
    assert_eq!(s.stats().total_hashes, 100);
}

#[test]
fn restart_after_terminal_state_resets_counters() {
    let mut s = MiningSession::new();
    s.start(b"abc".to_vec(), HOPELESS).unwrap();
    assert!(s.step_batch(500).is_none());
    s.stop();
    s.step_batch(500).unwrap();
    assert_eq!(s.phase, SessionPhase::Cancelled);
    s.start(b"def".to_vec(), 0).unwrap();
    let st = s.stats();
    assert_eq!(st.total_hashes, 0);
    assert_eq!(st.current_difficulty, 0);
    assert!(st.is_mining);
    let r = s.mine(BATCH_SIZE);
    assert_eq!(r.status, MineStatus::Found);
    assert_eq!(r.block_header, b"def".to_vec());
}
