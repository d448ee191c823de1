use vstd::prelude::*;

verus! {

/// Why a sampling run was refused before it started.
#[derive(Debug, Clone, Copy, PartialEq, Eq, Structural)]
pub enum SamplerError {
    /// The distribution name selects no known target density.
    UnknownDistribution,
    /// A run must draw at least one sample: the acceptance rate divides by
    /// the number of samples.
    NoSamples,
}

} // verus!
