use vstd::prelude::*;

verus! {

/// How a point of the plane fared under the escape-time iteration.
#[derive(Clone, Copy, Debug, PartialEq, Eq, Structural)]
pub enum IterationResult {
    /// The squared magnitude stayed at or below the threshold for every step.
    Bounded,
    /// The squared magnitude first exceeded the threshold at this step (from 1).
    EscapedAt(u16),
}

impl IterationResult {
    /// A result that a run with iteration cap `cap` can report.
    pub open spec fn valid_for(self, cap: nat) -> bool {
        match self {
            IterationResult::Bounded => true,
            IterationResult::EscapedAt(n) => 1 <= n && n <= cap,
        }
    }
}

/// The abstract state of one escape-time run: the cap, how many steps of
/// `z <- z * z + c` have been taken, and whether the last one took the squared
/// magnitude of `z` past the threshold.
pub struct RunState {
    pub cap: nat,
    pub steps: nat,
    pub escaped: bool,
}

/// What a run has decided so far: the first step past the threshold, or
/// `Bounded` once all `cap` steps stayed within it; `None` while undecided.
pub open spec fn run_outcome(s: RunState) -> Option<IterationResult> {
    if s.escaped {
        Some(IterationResult::EscapedAt(s.steps as u16))
    } else if s.steps >= s.cap {
        Some(IterationResult::Bounded)
    } else {
        None
    }
}

/// The escape decision of one point. The caller takes the steps of the
/// recurrence itself and reports after each one whether the squared magnitude
/// exceeded the threshold; the run says when to stop and what was found.
pub struct EscapeRun {
    cap: u16,
    steps: u16,
    escaped: bool,
}

impl EscapeRun {
    pub closed spec fn view(&self) -> RunState {
        RunState { cap: self.cap as nat, steps: self.steps as nat, escaped: self.escaped }
    }

    /// Steps stay within the cap, and an escape is seen at a step.
    pub closed spec fn wf(&self) -> bool {
        self.steps <= self.cap && (self.escaped ==> self.steps >= 1)
    }

    /// Whether no more steps are to be taken.
    pub open spec fn decided(&self) -> bool {
        run_outcome(self.view()) is Some
    }

    /// A run with no step taken yet.
    pub fn new(cap: u16) -> (r: EscapeRun)
        ensures
            r.wf(),
            r.view() == (RunState { cap: cap as nat, steps: 0, escaped: false }),
    {
        EscapeRun { cap, steps: 0, escaped: false }
    }

    /// The number (from 1) of the step to take next, or `None` once decided.
    pub fn next_step(&self) -> (r: Option<u16>)
        requires
            self.wf(),
        ensures
            r == (if self.decided() {
                None
            } else {
                Some((self.view().steps + 1) as u16)
            }),
    {
        if self.escaped || self.steps >= self.cap {
            None
        } else {
            Some(self.steps + 1)
        }
    }

    /// Records the step just taken: `exceeded` tells whether its squared
    /// magnitude went past the threshold.
    pub fn record(&mut self, exceeded: bool)
        requires
            old(self).wf(),
            !old(self).decided(),
        ensures
            final(self).wf(),
            final(self).view() == (RunState {
                cap: old(self).view().cap,
                steps: old(self).view().steps + 1,
                escaped: exceeded,
            }),
    {
        self.steps = self.steps + 1;
        self.escaped = exceeded;
    }

    /// The decision so far.
    pub fn outcome(&self) -> (r: Option<IterationResult>)
        requires
            self.wf(),
        ensures
            r == run_outcome(self.view()),
            r matches Some(res) ==> res.valid_for(self.view().cap),
    {
        if self.escaped {
            Some(IterationResult::EscapedAt(self.steps))
        } else if self.steps >= self.cap {
            Some(IterationResult::Bounded)
        } else {
            None
        }
    }
}

/// None of the first `k` recorded steps went past the threshold.
pub open spec fn stays_within(exceeded: Seq<bool>, k: int) -> bool {
    forall|i: int| 0 <= i < k ==> !exceeded[i]
}

/// Step `n` (from 1) is the first recorded step past the threshold.
pub open spec fn first_exceeded_at(exceeded: Seq<bool>, n: int) -> bool {
    1 <= n <= exceeded.len() && exceeded[n - 1] && stays_within(exceeded, n - 1)
}

/// Classifies a recorded orbit: `exceeded[i]` tells whether the squared
/// magnitude after step `i + 1` went past the threshold. The result is the
/// first such step within the cap, `Bounded` when the first `cap` steps all
/// stayed within it, and `None` when the record ends before either is known.
pub fn classify_orbit(exceeded: &Vec<bool>, cap: u16) -> (r: Option<IterationResult>)
    ensures
        r == Some(IterationResult::Bounded) <==> (exceeded.len() >= cap && stays_within(
            exceeded@,
            cap as int,
        )),
        forall|n: u16|
            r == Some(IterationResult::EscapedAt(n)) <==> (n <= cap && first_exceeded_at(
                exceeded@,
                n as int,
            )),
        r is None <==> (exceeded.len() < cap && stays_within(exceeded@, exceeded.len() as int)),
{
    let mut run = EscapeRun::new(cap);
    let mut i: usize = 0;
    while i < exceeded.len() && run.next_step().is_some()
        invariant
            run.wf(),
            0 <= i <= exceeded.len(),
            run.view().cap == cap,
            run.view().steps == i,
            run.view().escaped <==> (i >= 1 && exceeded@[i - 1]),
            stays_within(exceeded@, i - 1),
        decreases exceeded.len() - i,
    {
        run.record(exceeded[i]);
        i = i + 1;
    }
    run.outcome()
}

/// With a cap of zero no step is taken and the point is bounded.
pub proof fn lemma_zero_cap_is_bounded()
    ensures
        run_outcome(RunState { cap: 0, steps: 0, escaped: false }) == Some(
            IterationResult::Bounded,
        ),
{
}

/// An orbit whose first step already goes past the threshold escapes at step
/// 1 under any cap of at least 1.
pub proof fn lemma_first_step_escape(exceeded: Seq<bool>, cap: u16)
    requires
        cap >= 1,
        exceeded.len() >= 1,
        exceeded[0],
    ensures
        first_exceeded_at(exceeded, 1),
        forall|n: u16| n <= cap && first_exceeded_at(exceeded, n as int) ==> n == 1,
{
}

/// An orbit that never goes past the threshold in its first `cap` steps is
/// bounded, and escapes at no step.
pub proof fn lemma_never_exceeding_is_bounded(exceeded: Seq<bool>, cap: u16)
    requires
        exceeded.len() >= cap,
        forall|i: int| 0 <= i < exceeded.len() ==> !exceeded[i],
    ensures
        stays_within(exceeded, cap as int),
        forall|n: u16| n <= cap ==> !first_exceeded_at(exceeded, n as int),
{
}

} // verus!
