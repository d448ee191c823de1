//! The target densities the sampler can draw from.
use vstd::prelude::*;
use vstd::string::StringSliceAdditionalSpecFns;
use crate::error::SamplerError;

verus! {

/// The target density, selected by name.
#[derive(Debug, Clone, Copy, PartialEq, Eq, Structural)]
pub enum DistType {
    /// An equal-weight mixture of two Gaussian modes at (2.5, 2.5) and (-2.5, -2.5).
    Bimodal,
    /// The curved Rosenbrock ridge `(1 - x)^2 + 10 (y - x^2)^2`.
    Banana,
}

/// The UTF-8 bytes of the name `banana`.
pub open spec fn banana_name() -> Seq<u8> {
    seq![98u8, 97u8, 110u8, 97u8, 110u8, 97u8]
}

/// The UTF-8 bytes of the name `bimodal`.
pub open spec fn bimodal_name() -> Seq<u8> {
    seq![98u8, 105u8, 109u8, 111u8, 100u8, 97u8, 108u8]
}

/// The density that a name selects, if any.
pub open spec fn dist_of_name(name: Seq<u8>) -> Option<DistType> {
    if name == banana_name() {
        Some(DistType::Banana)
    } else if name == bimodal_name() {
        Some(DistType::Bimodal)
    } else {
        None
    }
}

impl DistType {
    /// Selects the density named `banana` or `bimodal`; any other name is refused.
    pub fn from_str(name: &str) -> (r: Result<DistType, SamplerError>)
        ensures
            dist_of_name(name.spec_bytes()) matches Some(d) ==> r == Ok::<DistType, SamplerError>(d),
            dist_of_name(name.spec_bytes()) is None ==> r == Err::<DistType, SamplerError>(SamplerError::UnknownDistribution),
    {
        let b = name.as_bytes();
        if b.len() == 6 && b[0] == 98u8 && b[1] == 97u8 && b[2] == 110u8 && b[3] == 97u8
            && b[4] == 110u8 && b[5] == 97u8 {
            assert(b@ =~= banana_name());
            Ok(DistType::Banana)
        } else if b.len() == 7 && b[0] == 98u8 && b[1] == 105u8 && b[2] == 109u8 && b[3] == 111u8
            && b[4] == 100u8 && b[5] == 97u8 && b[6] == 108u8 {
            assert(b@ =~= bimodal_name());
            Ok(DistType::Bimodal)
        } else {
            assert(b@ != banana_name() && b@ != bimodal_name()) by {
                if b@ == banana_name() {
                    assert(b@[0] == 98u8 && b@[5] == 97u8);
                }
                if b@ == bimodal_name() {
                    assert(b@[6] == 108u8);
                }
            }
            Err(SamplerError::UnknownDistribution)
        }
    }
}

} // verus!
