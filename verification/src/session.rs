//! The mining session: one run of the nonce search from `start` to a
//! terminal state, as an explicit state machine.
//!
//! The search runs in batches: `step_batch` hashes up to one batch of
//! candidates and then returns control, so the owner of the session can
//! publish statistics and observe a cancellation request between batches.
//! `stop` clears the active flag; the next batch observes it within one
//! iteration, so cancellation latency is bounded by one batch.  `mine`
//! drives batches to a terminal state for a caller that wants the whole
//! search at once.

use vstd::prelude::*;

use crate::difficulty::meets_difficulty_spec;
use crate::difficulty::check_difficulty;
use crate::encoding::dec_rep;
use crate::encoding::u64_to_dec;
use crate::hashing::double_sha256_of;
use crate::hashing::sha256d;

verus! {

/// Iterations between statistics updates and cancellation checks.
pub const BATCH_SIZE: u64 = 10000;

/// The states of a session: `Idle` before any search, `Running` during one,
/// and three terminal states.
#[derive(Clone, Copy, Debug, PartialEq, Eq, Structural)]
pub enum SessionPhase {
    Idle,
    Running,
    Found,
    Cancelled,
    Exhausted,
}

/// How a search ended.
#[derive(Clone, Copy, Debug, PartialEq, Eq, Structural)]
pub enum MineStatus {
    Found,
    Cancelled,
    Exhausted,
}

/// Starting is rejected while a search is already running.
#[derive(Clone, Copy, Debug, PartialEq, Eq, Structural)]
pub enum StartError {
    AlreadyRunning,
}

/// A snapshot of the session's counters, cheap to take at any time.
#[derive(Clone, Copy, Debug, PartialEq, Eq, Structural)]
pub struct MiningStats {
    pub total_hashes: u64,
    pub current_difficulty: u32,
    pub is_mining: bool,
}

/// What a finished search reports: the header searched, the last nonce
/// considered, its digest, and how many candidates were hashed before the
/// search ended.
#[derive(Debug)]
pub struct MineResult {
    pub block_header: Vec<u8>,
    pub nonce: u64,
    pub digest: Vec<u8>,
    pub iterations: u64,
    pub status: MineStatus,
}

/// The terminal phase a result status corresponds to.
pub open spec fn phase_of(st: MineStatus) -> SessionPhase {
    match st {
        MineStatus::Found => SessionPhase::Found,
        MineStatus::Cancelled => SessionPhase::Cancelled,
        MineStatus::Exhausted => SessionPhase::Exhausted,
    }
}

/// The candidate input for a nonce: the header followed by the decimal text
/// of the nonce.
pub open spec fn candidate_spec(header: Seq<u8>, nonce: u64) -> Seq<u8> {
    header + dec_rep(nonce as nat)
}

/// The digest a nonce produces for a header.
pub open spec fn digest_of(header: Seq<u8>, nonce: u64) -> Seq<u8> {
    double_sha256_of(candidate_spec(header, nonce))
}

/// Whether a nonce solves the search for a header at a difficulty.
pub open spec fn found_at(header: Seq<u8>, difficulty: u32, nonce: u64) -> bool {
    meets_difficulty_spec(digest_of(header, nonce), difficulty)
}

/// No nonce in `[lo, hi)` solves the search.
pub open spec fn no_hit_between(header: Seq<u8>, difficulty: u32, lo: int, hi: int) -> bool {
    forall|n: u64| lo <= n < hi ==> !#[trigger] found_at(header, difficulty, n)
}

/// Build the candidate bytes for one nonce.
pub fn build_candidate(header: &[u8], nonce: u64) -> (r: Vec<u8>)
    ensures
        r@ == candidate_spec(header@, nonce),
{
    let mut out = vstd::slice::slice_to_vec(header);
    let mut digits = u64_to_dec(nonce);
    out.append(&mut digits);
    out
}

/// One mining session.  The owner drives it; observers see it only through
/// `stats` and `stop`.
pub struct MiningSession {
    pub phase: SessionPhase,
    pub header: Vec<u8>,
    pub difficulty: u32,
    pub next_nonce: u64,
    pub total_hashes: u64,
    pub active: bool,
    pub is_mining: bool,
}

impl MiningSession {
    /// Well-formedness: the mining bit is set only while the search runs;
    /// while it runs, every hash performed has been counted, every nonce
    /// below the next one has been tried without success, and the nonce
    /// space is not yet exhausted.
    pub open spec fn wf(self) -> bool {
        &&& (self.is_mining ==> self.phase is Running)
        &&& (self.phase is Running ==> self.total_hashes == self.next_nonce)
        &&& (self.phase is Running ==> no_hit_between(
            self.header@,
            self.difficulty,
            0,
            self.next_nonce as int,
        ))
        &&& (self.phase is Running ==> self.next_nonce < u64::MAX)
    }

    /// The snapshot `stats` returns.
    pub open spec fn stats_spec(self) -> MiningStats {
        MiningStats {
            total_hashes: self.total_hashes,
            current_difficulty: self.difficulty,
            is_mining: self.is_mining,
        }
    }

    /// A fresh session: idle, all counters zero.
    pub fn new() -> (s: Self)
        ensures
            s.wf(),
            s.phase is Idle,
            s.header@ == Seq::<u8>::empty(),
            s.difficulty == 0,
            s.next_nonce == 0,
            s.total_hashes == 0,
            !s.active,
            !s.is_mining,
    {
        MiningSession {
            phase: SessionPhase::Idle,
            header: Vec::new(),
            difficulty: 0,
            next_nonce: 0,
            total_hashes: 0,
            active: false,
            is_mining: false,
        }
    }

    /// Begin a search.  Rejected while one is already running; otherwise the
    /// counters reset, the difficulty is recorded, and the session enters
    /// `Running` with the active flag and the mining bit set.
    pub fn start(&mut self, header: Vec<u8>, difficulty: u32) -> (r: Result<(), StartError>)
        requires
            old(self).wf(),
        ensures
            final(self).wf(),
            old(self).phase is Running ==> r is Err && *final(self) == *old(self),
            !(old(self).phase is Running) ==> r is Ok,
            !(old(self).phase is Running) ==> final(self).phase is Running,
            !(old(self).phase is Running) ==> final(self).header@ == header@,
            !(old(self).phase is Running) ==> final(self).difficulty == difficulty,
            !(old(self).phase is Running) ==> final(self).next_nonce == 0,
            !(old(self).phase is Running) ==> final(self).total_hashes == 0,
            !(old(self).phase is Running) ==> final(self).active,
            !(old(self).phase is Running) ==> final(self).is_mining,
    {
        if self.phase == SessionPhase::Running {
            return Err(StartError::AlreadyRunning);
        }
        self.phase = SessionPhase::Running;
        self.header = header;
        self.difficulty = difficulty;
        self.next_nonce = 0;
        self.total_hashes = 0;
        self.active = true;
        self.is_mining = true;
        Ok(())
    }

    /// Request cancellation: clear the active flag, and report the session
    /// as no longer mining at once, before the search loop has observed the
    /// flag.  Nothing else changes.
    pub fn stop(&mut self)
        requires
            old(self).wf(),
        ensures
            final(self).wf(),
            !final(self).active,
            !final(self).is_mining,
            final(self).phase == old(self).phase,
            final(self).header@ == old(self).header@,
            final(self).difficulty == old(self).difficulty,
            final(self).next_nonce == old(self).next_nonce,
            final(self).total_hashes == old(self).total_hashes,
    {
        self.active = false;
        self.is_mining = false;
    }

    /// Take a snapshot of the counters.
    pub fn stats(&self) -> (st: MiningStats)
        ensures
            st == self.stats_spec(),
    {
        MiningStats {
            total_hashes: self.total_hashes,
            current_difficulty: self.difficulty,
            is_mining: self.is_mining,
        }
    }

    /// Run up to one batch of the search.
    ///
    /// `None` means the batch completed without a solution and the session
    /// still runs: the nonce advanced by the whole batch and every hash was
    /// counted.  `Some` carries the terminal result: the first solving nonce
    /// (`Found`), the point where a cancellation request was observed
    /// (`Cancelled`, within one iteration of the request), or the end of the
    /// nonce space (`Exhausted`).
    pub fn step_batch(&mut self, batch_size: u64) -> (r: Option<MineResult>)
        requires
            old(self).wf(),
            old(self).phase is Running,
            1 <= batch_size,
        ensures
            final(self).wf(),
            final(self).header@ == old(self).header@,
            final(self).difficulty == old(self).difficulty,
            final(self).active == old(self).active,
            final(self).total_hashes >= old(self).total_hashes,
            !old(self).active ==> !(final(self).phase is Running),
            !old(self).active ==> final(self).phase is Found || final(self).phase is Cancelled,
            r is None ==> final(self).phase is Running,
            r is None ==> old(self).active,
            r is None ==> final(self).next_nonce == old(self).next_nonce + batch_size,
            r is None ==> final(self).total_hashes == old(self).total_hashes + batch_size,
            r is None ==> final(self).is_mining == old(self).is_mining,
            r is Some ==> !(final(self).phase is Running) && !final(self).is_mining,
            match r {
                Option::Some(res) => {
                    &&& res.block_header@ == old(self).header@
                    &&& final(self).phase == phase_of(res.status)
                    &&& match res.status {
                        MineStatus::Found => {
                            &&& found_at(old(self).header@, old(self).difficulty, res.nonce)
                            &&& no_hit_between(
                                old(self).header@,
                                old(self).difficulty,
                                0,
                                res.nonce as int,
                            )
                            &&& res.iterations == res.nonce
                            &&& res.digest@ == digest_of(old(self).header@, res.nonce)
                            &&& old(self).next_nonce <= res.nonce
                            &&& res.nonce < old(self).next_nonce + batch_size
                            &&& final(self).total_hashes == res.nonce
                        },
                        MineStatus::Cancelled => {
                            &&& !old(self).active
                            &&& res.nonce == old(self).next_nonce
                            &&& res.iterations == res.nonce
                            &&& !found_at(old(self).header@, old(self).difficulty, res.nonce)
                            &&& res.digest@ == digest_of(old(self).header@, res.nonce)
                            &&& final(self).total_hashes == old(self).total_hashes
                        },
                        MineStatus::Exhausted => {
                            &&& no_hit_between(
                                old(self).header@,
                                old(self).difficulty,
                                0,
                                u64::MAX as int,
                            )
                            &&& res.nonce == 0
                            &&& res.iterations == u64::MAX
                            &&& res.digest@ == Seq::<u8>::empty()
                            &&& final(self).total_hashes == u64::MAX
                        },
                    }
                },
                Option::None => true,
            },
    {
        let ghost init = *self;
        let mut i: u64 = 0;
        while i < batch_size
            invariant
                init == *old(self),
                init.wf(),
                init.phase is Running,
                1 <= batch_size,
                0 <= i <= batch_size,
                self.phase is Running,
                self.header@ == init.header@,
                self.difficulty == init.difficulty,
                self.active == init.active,
                self.is_mining == init.is_mining,
                self.total_hashes == init.total_hashes,
                self.next_nonce == init.next_nonce + i,
                self.next_nonce < u64::MAX,
                no_hit_between(init.header@, init.difficulty, 0, self.next_nonce as int),
                init.active || i == 0,
            decreases batch_size - i,
        {
            let n = self.next_nonce;
            let candidate = build_candidate(self.header.as_slice(), n);
            let digest = sha256d(candidate.as_slice());
            if check_difficulty(digest.as_slice(), self.difficulty) {
                self.phase = SessionPhase::Found;
                self.is_mining = false;
                self.total_hashes = n;
                let block_header = vstd::slice::slice_to_vec(self.header.as_slice());
                return Some(MineResult {
                    block_header,
                    nonce: n,
                    digest,
                    iterations: n,
                    status: MineStatus::Found,
                });
            }
            if !self.active {
                self.phase = SessionPhase::Cancelled;
                self.is_mining = false;
                let block_header = vstd::slice::slice_to_vec(self.header.as_slice());
                return Some(MineResult {
                    block_header,
                    nonce: n,
                    digest,
                    iterations: n,
                    status: MineStatus::Cancelled,
                });
            }
            self.next_nonce = n + 1;
            if self.next_nonce == u64::MAX {
                self.phase = SessionPhase::Exhausted;
                self.is_mining = false;
                self.total_hashes = u64::MAX;
                let block_header = vstd::slice::slice_to_vec(self.header.as_slice());
                return Some(MineResult {
                    block_header,
                    nonce: 0,
                    digest: Vec::new(),
                    iterations: u64::MAX,
                    status: MineStatus::Exhausted,
                });
            }
            i = i + 1;
        }
        self.total_hashes = self.total_hashes + batch_size;
        None
    }

    /// Drive the search to its terminal state, one batch at a time.
    ///
    /// With the active flag set and no concurrent observer, this ends only
    /// in `Found` or `Exhausted`; with the flag already cleared it ends in
    /// the first iteration.
    pub fn mine(&mut self, batch_size: u64) -> (r: MineResult)
        requires
            old(self).wf(),
            old(self).phase is Running,
            1 <= batch_size,
        ensures
            final(self).wf(),
            !(final(self).phase is Running),
            !final(self).is_mining,
            final(self).header@ == old(self).header@,
            final(self).difficulty == old(self).difficulty,
            final(self).active == old(self).active,
            final(self).total_hashes >= old(self).total_hashes,
            r.block_header@ == old(self).header@,
            final(self).phase == phase_of(r.status),
            old(self).active ==> !(r.status is Cancelled),
            !old(self).active ==> r.status is Found || r.status is Cancelled,
            r.status is Found ==> found_at(old(self).header@, old(self).difficulty, r.nonce),
            r.status is Found ==> no_hit_between(
                old(self).header@,
                old(self).difficulty,
                0,
                r.nonce as int,
            ),
            r.status is Found ==> r.iterations == r.nonce && r.digest@ == digest_of(
                old(self).header@,
                r.nonce,
            ) && final(self).total_hashes == r.nonce && old(self).next_nonce <= r.nonce,
            r.status is Cancelled ==> !old(self).active && r.nonce == old(self).next_nonce
                && r.iterations == r.nonce && r.digest@ == digest_of(old(self).header@, r.nonce)
                && !found_at(old(self).header@, old(self).difficulty, r.nonce)
                && final(self).total_hashes == old(self).total_hashes,
            r.status is Exhausted ==> no_hit_between(
                old(self).header@,
                old(self).difficulty,
                0,
                u64::MAX as int,
            ) && r.nonce == 0 && r.iterations == u64::MAX,
    {
        let ghost init = *self;
        loop
            invariant
                init == *old(self),
                init.wf(),
                init.phase is Running,
                1 <= batch_size,
                self.wf(),
                self.phase is Running,
                self.header@ == init.header@,
                self.difficulty == init.difficulty,
                self.active == init.active,
                self.total_hashes >= init.total_hashes,
                self.next_nonce >= init.next_nonce,
                !init.active ==> self.next_nonce == init.next_nonce && self.total_hashes
                    == init.total_hashes,
            decreases u64::MAX - self.next_nonce,
        {
            let step = self.step_batch(batch_size);
            match step {
                Some(res) => {
                    return res;
                },
                None => {},
            }
        }
    }
}

/// A session in a terminal state never reports itself as mining: once the
/// search has ended (or `stop` has been requested), `stats` shows
/// `is_mining` false.
pub proof fn lemma_terminal_never_mining(s: MiningSession)
    requires
        s.wf(),
        !(s.phase is Running),
    ensures
        !s.stats_spec().is_mining,
{
}

} // verus!
