//! Warmup: best-effort filling of the pool in rounds of parallel launches before
//! traffic is served.

use vstd::prelude::*;

verus! {

/// Rounds of launches tried before warmup settles for what it has.
pub const MAX_WARMUP_ROUNDS: usize = 10;

/// Why warmup gave up.
#[derive(Debug, Clone, Copy, PartialEq, Eq, Structural)]
pub enum WarmupError {
    /// The first round brought up no instance at all.
    WarmupImpossible,
}

/// What the warmup driver does next.
#[derive(Debug, Clone, Copy, PartialEq, Eq, Structural)]
pub enum WarmupStep {
    /// Start this many launches in parallel, then report how many succeeded.
    Launch(usize),
    /// Warmup is over with this many instances up (possibly fewer than the target).
    Finished(usize),
    /// Warmup is over and failed.
    Failed(WarmupError),
}

/// Progress of a warmup towards `target` instances.
pub struct Warmup {
    target: usize,
    spawned: usize,
    rounds: usize,
}

pub ghost struct WarmupView {
    pub target: nat,
    pub spawned: nat,
    pub rounds: nat,
}

/// The decision taken in a given state.
pub open spec fn next_step_of(v: WarmupView) -> WarmupStep {
    if v.rounds > 0 && v.spawned == 0 {
        WarmupStep::Failed(WarmupError::WarmupImpossible)
    } else if v.spawned >= v.target || v.rounds >= MAX_WARMUP_ROUNDS {
        WarmupStep::Finished(v.spawned as usize)
    } else {
        WarmupStep::Launch((v.target - v.spawned) as usize)
    }
}

impl View for Warmup {
    type V = WarmupView;

    closed spec fn view(&self) -> WarmupView {
        WarmupView {
            target: self.target as nat,
            spawned: self.spawned as nat,
            rounds: self.rounds as nat,
        }
    }
}

impl Warmup {
    pub open spec fn wf(&self) -> bool {
        &&& 0 < self@.target <= usize::MAX
        &&& self@.spawned <= self@.target
        &&& self@.rounds <= MAX_WARMUP_ROUNDS
    }

    /// A warmup that will try to bring up `target` instances.
    pub fn new(target: usize) -> (r: Self)
        requires
            target > 0,
        ensures
            r.wf(),
            r@ == (WarmupView { target: target as nat, spawned: 0, rounds: 0 }),
    {
        Warmup { target, spawned: 0, rounds: 0 }
    }

    /// Instances brought up so far.
    pub fn spawned(&self) -> (r: usize)
        ensures
            r == self@.spawned,
    {
        self.spawned
    }

    /// Rounds run so far.
    pub fn rounds(&self) -> (r: usize)
        ensures
            r == self@.rounds,
    {
        self.rounds
    }

    /// Fails fast when the first round brought up nothing; stops once the
    /// target is met or the rounds are spent; otherwise launches what is missing.
    pub fn next_step(&self) -> (r: WarmupStep)
        requires
            self.wf(),
        ensures
            r == next_step_of(self@),
    {
        if self.rounds > 0 && self.spawned == 0 {
            WarmupStep::Failed(WarmupError::WarmupImpossible)
        } else if self.spawned >= self.target || self.rounds >= MAX_WARMUP_ROUNDS {
            WarmupStep::Finished(self.spawned)
        } else {
            WarmupStep::Launch(self.target - self.spawned)
        }
    }

    /// Records a round of launches of which `successes` came up.
    pub fn record_round(&mut self, successes: usize)
        requires
            old(self).wf(),
            next_step_of(old(self)@) is Launch,
            successes <= old(self)@.target - old(self)@.spawned,
        ensures
            final(self).wf(),
            final(self)@ == (WarmupView {
                spawned: (old(self)@.spawned + successes) as nat,
                rounds: old(self)@.rounds + 1,
                ..old(self)@
            }),
    {
        self.spawned = self.spawned + successes;
        self.rounds = self.rounds + 1;
    }
}

/// Warmup ends within its round budget, and it fails only when no instance
/// came up at all.
pub proof fn lemma_warmup_bounded(v: WarmupView)
    ensures
        v.rounds >= MAX_WARMUP_ROUNDS ==> !(next_step_of(v) is Launch),
        next_step_of(v) is Failed ==> v.spawned == 0,
{
}

} // verus!
