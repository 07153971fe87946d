//! Rising-edge detection on a stream of button readings.

use vstd::prelude::*;

verus! {

/// Whether a reading `value` that follows a reading `previous` is a rising edge.
pub open spec fn is_rising_edge(previous: bool, value: bool) -> bool {
    value && !previous
}

/// The pulses a detector that last saw `previous` answers to `readings`, one
/// per reading.
pub open spec fn edges(previous: bool, readings: Seq<bool>) -> Seq<bool> {
    Seq::new(
        readings.len(),
        |i: int|
            is_rising_edge(
                if i == 0 {
                    previous
                } else {
                    readings[i - 1]
                },
                readings[i],
            ),
    )
}

/// Turns a held button into one pulse per press. There is no timing in it: a
/// single released reading arms it again.
#[derive(Clone, Copy, Debug)]
pub struct EdgeDetector {
    previous: bool,
}

impl EdgeDetector {
    /// The reading of the last call of [`EdgeDetector::test`].
    pub closed spec fn spec_previous(&self) -> bool {
        self.previous
    }

    /// A detector that has seen the button released.
    pub fn new() -> (detector: Self)
        ensures
            !detector.previous(),
    {
        EdgeDetector { previous: false }
    }

    #[verifier::when_used_as_spec(spec_previous)]
    pub fn previous(&self) -> (previous: bool)
        ensures
            previous == self.spec_previous(),
    {
        self.previous
    }

    /// Records `value` and tells whether it is a rising edge, that is whether
    /// it is pressed while the reading before it was released.
    pub fn test(&mut self, value: bool) -> (edge: bool)
        ensures
            edge == is_rising_edge(old(self).previous(), value),
            final(self).previous() == value,
    {
        let edge = value && !self.previous;
        self.previous = value;
        edge
    }
}

/// A pulse is answered only to a pressed reading that follows a released one,
/// so no two readings in a row are both answered with a pulse.
pub proof fn lemma_edges_are_strict(previous: bool, readings: Seq<bool>, i: int)
    requires
        0 <= i < readings.len(),
    ensures
        edges(previous, readings).len() == readings.len(),
        edges(previous, readings)[i] ==> readings[i],
        edges(previous, readings)[i] && i > 0 ==> !readings[i - 1] && !edges(
            previous,
            readings,
        )[i - 1],
        edges(previous, readings)[i] && i == 0 ==> !previous,
        i + 1 < readings.len() && edges(previous, readings)[i] ==> !edges(previous, readings)[i
            + 1],
{
}

/// Of two pressed readings in a row the second is never an edge, and the
/// first is one exactly if the reading before it was released.
pub proof fn lemma_held_press_pulses_once(previous: bool)
    ensures
        is_rising_edge(previous, true) == !previous,
        !is_rising_edge(true, true),
{
}

} // verus!
