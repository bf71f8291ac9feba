//! Error model of the navigation filter and the shape rule of its update step.
use vstd::prelude::*;

verus! {

/// The ways an estimation step can fail.
#[derive(Debug, Clone, Copy, PartialEq, Eq, Structural)]
pub enum NavError {
    /// A pulsar catalog entry could not be read.
    ParseError,
    /// The innovation covariance of an update has no inverse.
    SingularCovariance,
    /// The pulsar, measurement and variance lists differ in length.
    InvalidDimensions,
}

/// True when one measurement and one variance are given for each pulsar.
pub open spec fn dimensions_agree(n_pulsars: nat, n_measurements: nat, n_variances: nat) -> bool {
    n_pulsars == n_measurements && n_measurements == n_variances
}

/// Checks the shape of an update batch: every pulsar needs exactly one delay
/// measurement and one variance. A batch of zero pulsars is well formed.
pub fn check_dimensions(n_pulsars: usize, n_measurements: usize, n_variances: usize) -> (r: Result<
    (),
    NavError,
>)
    ensures
        r is Ok <==> dimensions_agree(n_pulsars as nat, n_measurements as nat, n_variances as nat),
        r is Err ==> r == Err::<(), NavError>(NavError::InvalidDimensions),
{
    if n_pulsars == n_measurements && n_measurements == n_variances {
        Ok(())
    } else {
        Err(NavError::InvalidDimensions)
    }
}

} // verus!
