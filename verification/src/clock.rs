//! The generation counter and the rule by which it advances.

use vstd::prelude::*;

verus! {

/// The generation that follows `current` when the caller asks for at least `minimum`:
/// the larger of `minimum` and `current + 1`.
pub open spec fn next_generation(current: int, minimum: int) -> int {
    if minimum > current + 1 {
        minimum
    } else {
        current + 1
    }
}

/// The generation reached from `start` after one advance per entry of `minimums`,
/// taken in order.
pub open spec fn generation_after(start: int, minimums: Seq<int>) -> int
    decreases minimums.len(),
{
    if minimums.len() == 0 {
        start
    } else {
        next_generation(generation_after(start, minimums.drop_last()), minimums.last())
    }
}

/// Owner of the generation counter. The counter starts at 0 and only ever grows.
pub struct GenerationClock {
    counter: u32,
}

impl View for GenerationClock {
    type V = int;

    closed spec fn view(&self) -> int {
        self.counter as int
    }
}

impl GenerationClock {
    /// A clock at generation 0.
    pub fn new() -> (clock: Self)
        ensures
            clock@ == 0,
    {
        GenerationClock { counter: 0 }
    }

    /// The current generation.
    pub fn current(&self) -> (generation: u32)
        ensures
            generation == self@,
    {
        self.counter
    }

    /// Moves the counter to the larger of `minimum` and the successor of the current
    /// generation, and returns the new value.
    ///
    /// The counter has no successor at `u32::MAX`, so the clock must be below it.
    pub fn advance(&mut self, minimum: u32) -> (generation: u32)
        requires
            old(self)@ < u32::MAX,
        ensures
            final(self)@ == next_generation(old(self)@, minimum as int),
            generation == final(self)@,
    {
        let successor: u32 = self.counter + 1;
        if minimum > successor {
            self.counter = minimum;
        } else {
            self.counter = successor;
        }
        self.counter
    }
}

/// One advance strictly increases the generation and reaches at least the requested
/// minimum, whatever that minimum is; it lands on the minimum exactly when the
/// minimum lies beyond the successor.
pub proof fn lemma_advance_strictly_increases(current: int, minimum: int)
    ensures
        next_generation(current, minimum) > current,
        next_generation(current, minimum) >= minimum,
        next_generation(current, minimum) == minimum || next_generation(current, minimum)
            == current + 1,
{
}

/// Along any sequence of advances the generation grows by at least one per advance:
/// a shorter run of the same requests always ends strictly below a longer one.
pub proof fn lemma_advances_strictly_increase(start: int, minimums: Seq<int>, i: int, j: int)
    requires
        0 <= i < j <= minimums.len(),
    ensures
        generation_after(start, minimums.take(i)) + (j - i) <= generation_after(
            start,
            minimums.take(j),
        ),
    decreases j - i,
{
    let shorter = minimums.take(j - 1);
    let longer = minimums.take(j);
    assert(longer.drop_last() =~= shorter);
    assert(generation_after(start, longer) == next_generation(
        generation_after(start, shorter),
        longer.last(),
    ));
    if i < j - 1 {
        lemma_advances_strictly_increase(start, minimums, i, j - 1);
    }
}

} // verus!
