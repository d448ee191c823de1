//! Hamiltonian Monte Carlo sampling of two-dimensional test densities.
//!
//! The verified part of the sampler: choosing the target density by name,
//! checking a run's arguments, and the bookkeeping of one Markov chain (which
//! position is kept after each proposal, how many proposals were accepted, and
//! when the run is complete). The arithmetic of energies, gradients and the
//! leapfrog integrator works on floating-point values and is supplied by the
//! caller through the chain's step interface.
use vstd::prelude::*;

pub mod chain;
pub mod error;
pub mod target;

use vstd::string::StringSliceAdditionalSpecFns;
use crate::chain::{Chain, Outcome};
use crate::error::SamplerError;
use crate::target::{dist_of_name, DistType};

verus! {

/// Sets up a run of `n_samples` iterations from `start` on the density named
/// `dist_name`. An unknown name is refused first, then a run of no samples.
pub fn start_run<P: Copy>(start: P, n_samples: usize, dist_name: &str) -> (r: Result<
    (DistType, Chain<P>),
    SamplerError,
>)
    ensures
        dist_of_name(dist_name.spec_bytes()) is None ==> r == Err::<(DistType, Chain<P>), SamplerError>(
            SamplerError::UnknownDistribution,
        ),
        dist_of_name(dist_name.spec_bytes()) is Some && n_samples == 0 ==> r == Err::<
            (DistType, Chain<P>),
            SamplerError,
        >(SamplerError::NoSamples),
        dist_of_name(dist_name.spec_bytes()) is Some && n_samples > 0 ==> (r matches Ok(
            (t, c),
        ) && dist_of_name(dist_name.spec_bytes()) == Some(t) && c.wf() && c.start() == start && c.outcomes() == Seq::<Outcome<P>>::empty()
            && c.n_samples() == n_samples),
{
    let dist = match DistType::from_str(dist_name) {
        Ok(d) => d,
        Err(e) => return Err(e),
    };
    match Chain::new(start, n_samples) {
        Ok(c) => Ok((dist, c)),
        Err(e) => Err(e),
    }
}

} // verus!
