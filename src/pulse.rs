use std::collections::VecDeque;
use vstd::prelude::*;
use crate::planner::Step;

verus! {

/// The level to hold on the relay output for one tick.
#[derive(Clone, Copy, Debug, PartialEq, Eq, Structural)]
pub enum Level {
    Active,
    Inactive,
}

pub open spec fn repeated(level: Level, n: nat) -> Seq<Level> {
    Seq::new(n, |i: int| level)
}

/// The levels one step lowers to: a press is `active` ticks active followed by
/// `active` ticks inactive; a rest is `rest` ticks inactive.
pub open spec fn step_levels(step: Step, active: nat, rest: nat) -> Seq<Level> {
    match step {
        Step::Press => repeated(Level::Active, active) + repeated(Level::Inactive, active),
        Step::Rest => repeated(Level::Inactive, rest),
    }
}

/// The levels a sequence of steps lowers to, in order.
pub open spec fn lowered(steps: Seq<Step>, active: nat, rest: nat) -> Seq<Level>
    decreases steps.len(),
{
    if steps.len() == 0 {
        Seq::empty()
    } else {
        lowered(steps.drop_last(), active, rest) + step_levels(steps.last(), active, rest)
    }
}

/// Lowering a single step gives exactly that step's levels.
pub proof fn lemma_lowered_single(step: Step, active: nat, rest: nat)
    ensures
        lowered(seq![step], active, rest) == step_levels(step, active, rest),
{
    assert(seq![step].drop_last() =~= Seq::<Step>::empty());
    assert(lowered(Seq::<Step>::empty(), active, rest) + step_levels(step, active, rest)
        =~= step_levels(step, active, rest));
}

/// Lowering distributes over concatenation of plans.
pub proof fn lemma_lowered_concat(a: Seq<Step>, b: Seq<Step>, active: nat, rest: nat)
    ensures
        lowered(a + b, active, rest) == lowered(a, active, rest) + lowered(b, active, rest),
    decreases b.len(),
{
    if b.len() == 0 {
        assert(a + b =~= a);
        assert(lowered(a, active, rest) + lowered(b, active, rest) =~= lowered(a, active, rest));
    } else {
        lemma_lowered_concat(a, b.drop_last(), active, rest);
        assert((a + b).drop_last() =~= a + b.drop_last());
        assert((a + b).last() == b.last());
        assert(lowered(a + b, active, rest) =~= lowered(a, active, rest) + lowered(b, active, rest));
    }
}

/// Whether the output pin is driven high for `level`, given the relay's
/// polarity.
pub open spec fn drives_high(level: Level, active_low: bool) -> bool {
    match level {
        Level::Active => !active_low,
        Level::Inactive => active_low,
    }
}

/// Maps a level to the physical pin state: `true` for high.
pub fn pin_high(level: Level, active_low: bool) -> (r: bool)
    ensures
        r == drives_high(level, active_low),
{
    match level {
        Level::Active => !active_low,
        Level::Inactive => active_low,
    }
}

/// First-in-first-out queue of levels for the relay output, one applied per
/// tick.
pub struct PulseQueue {
    events: VecDeque<Level>,
}

impl View for PulseQueue {
    type V = Seq<Level>;

    closed spec fn view(&self) -> Seq<Level> {
        self.events@
    }
}

impl PulseQueue {
    pub fn new() -> (r: PulseQueue)
        ensures
            r@ == Seq::<Level>::empty(),
    {
        PulseQueue { events: VecDeque::new() }
    }

    pub fn len(&self) -> (r: usize)
        ensures
            r == self@.len(),
    {
        self.events.len()
    }

    /// Appends `n` copies of `level`.
    pub fn push_repeated(&mut self, level: Level, n: u64)
        ensures
            final(self)@ == old(self)@ + repeated(level, n as nat),
    {
        let mut i: u64 = 0;
        while i < n
            invariant
                i <= n,
                self@ == old(self)@ + repeated(level, i as nat),
            decreases n - i,
        {
            self.events.push_back(level);
            i = i + 1;
            assert(self@ =~= old(self)@ + repeated(level, i as nat));
        }
    }

    /// Appends the levels of one step.
    pub fn push_step(&mut self, step: Step, active: u64, rest: u64)
        ensures
            final(self)@ == old(self)@ + step_levels(step, active as nat, rest as nat),
    {
        match step {
            Step::Press => {
                self.push_repeated(Level::Active, active);
                self.push_repeated(Level::Inactive, active);
                assert(self@ =~= old(self)@ + step_levels(step, active as nat, rest as nat));
            },
            Step::Rest => {
                self.push_repeated(Level::Inactive, rest);
            },
        }
    }

    /// Appends the levels of a whole plan, step by step in order.
    pub fn enqueue(&mut self, steps: &Vec<Step>, active: u64, rest: u64)
        ensures
            final(self)@ == old(self)@ + lowered(steps@, active as nat, rest as nat),
    {
        let mut i: usize = 0;
        while i < steps.len()
            invariant
                i <= steps@.len(),
                self@ == old(self)@ + lowered(steps@.subrange(0, i as int), active as nat, rest as nat),
            decreases steps@.len() - i,
        {
            let ghost before = self@;
            self.push_step(steps[i], active, rest);
            i = i + 1;
            proof {
                let done = steps@.subrange(0, i as int);
                assert(done.drop_last() =~= steps@.subrange(0, i - 1));
                assert(done.last() == steps@[i - 1]);
                assert(self@ =~= old(self)@ + lowered(done, active as nat, rest as nat));
            }
        }
        assert(steps@.subrange(0, steps@.len() as int) =~= steps@);
    }

    /// Takes the level for this tick, if any is queued.
    pub fn next_level(&mut self) -> (r: Option<Level>)
        ensures
            old(self)@.len() == 0 ==> r is None && final(self)@ == old(self)@,
            old(self)@.len() > 0 ==> r == Some(old(self)@[0]) && final(self)@ == old(self)@.drop_first(),
    {
        let r = self.events.pop_front();
        proof {
            if old(self)@.len() > 0 {
                assert(self@ =~= old(self)@.drop_first());
            }
        }
        r
    }
}

} // verus!
