//! Input rules of the Maxwellian-averaged cross-section (MACS) computation.

use vstd::prelude::*;

verus! {

/// Which precondition of the MACS computation an input breaks.
#[derive(Debug, Clone, Copy, PartialEq, Eq, Structural)]
pub enum ValidationError {
    /// The energy and cross-section series have different lengths.
    LengthMismatch,
    /// Both series are empty.
    EmptyInput,
    /// The temperature is zero or negative.
    NonPositiveTemperature,
}

/// The outcome of validating a MACS input, checked in this order: equal
/// lengths, then a non-empty series, then a positive temperature.
pub open spec fn macs_input_verdict(
    n_energies: nat,
    n_cross_sections: nat,
    temperature_positive: bool,
) -> Result<(), ValidationError> {
    if n_energies != n_cross_sections {
        Err(ValidationError::LengthMismatch)
    } else if n_energies == 0 {
        Err(ValidationError::EmptyInput)
    } else if !temperature_positive {
        Err(ValidationError::NonPositiveTemperature)
    } else {
        Ok(())
    }
}

/// Validates the shape of a MACS input: `n_energies` energies,
/// `n_cross_sections` cross sections, and whether the temperature is above zero.
pub fn check_macs_inputs(
    n_energies: usize,
    n_cross_sections: usize,
    temperature_positive: bool,
) -> (r: Result<(), ValidationError>)
    ensures
        r == macs_input_verdict(n_energies as nat, n_cross_sections as nat, temperature_positive),
        r is Ok <==> (n_energies == n_cross_sections && n_energies > 0 && temperature_positive),
{
    if n_energies != n_cross_sections {
        Err(ValidationError::LengthMismatch)
    } else if n_energies == 0 {
        Err(ValidationError::EmptyInput)
    } else if !temperature_positive {
        Err(ValidationError::NonPositiveTemperature)
    } else {
        Ok(())
    }
}

} // verus!
