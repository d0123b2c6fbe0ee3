//! The shape of a windowed-sinc filter: how many taps it has, where its
//! centre lies, and which taps a spectral inversion negates. The taps
//! themselves are the host's to compute.

use vstd::prelude::*;

verus! {

/// The shape of a filter of order `m`.
#[derive(Debug, Copy, Clone, PartialEq, Eq, Structural)]
pub struct Shape {
    /// The order: four divided by the normalised bandwidth, rounded down.
    pub m: usize,
    /// The number of taps.
    pub len: usize,
    /// The index of the centre tap, which is the filter's delay in samples.
    pub latency: usize,
}

impl Shape {
    /// A filter of order `m` has `m + 1` taps, centred at `m / 2`.
    pub open spec fn spec_new(m: usize) -> Shape {
        Shape { m, len: (m + 1) as usize, latency: m / 2 }
    }

    pub fn new(m: usize) -> (shape: Shape)
        requires
            m < usize::MAX,
        ensures
            shape == Self::spec_new(m),
            shape.latency < shape.len,
    {
        Shape { m, len: m + 1, latency: m / 2 }
    }

    /// Whether a spectral inversion negates the tap at `index`: it negates
    /// every other tap, starting with the first.
    pub open spec fn spec_negates(index: usize) -> bool {
        index % 2 == 0
    }

    pub fn negates(index: usize) -> (yes: bool)
        ensures
            yes == Self::spec_negates(index),
    {
        index % 2 == 0
    }
}

/// The centre tap is one of the taps, and with an even order it has as
/// many taps before it as after it.
pub proof fn lemma_latency_is_the_centre(m: usize)
    requires
        m < usize::MAX,
    ensures
        Shape::spec_new(m).latency < Shape::spec_new(m).len,
        m % 2 == 0 ==> Shape::spec_new(m).len - 1 - Shape::spec_new(m).latency == Shape::spec_new(
            m,
        ).latency,
{
}

} // verus!
