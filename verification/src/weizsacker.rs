//! The integer-valued parts of the Weizsäcker semi-empirical mass
//! formula: the pairing-term selector and the range guard on the counts
//! that the closed-form evaluation converts to the floating-point domain.

use vstd::prelude::*;

verus! {

/// The pairing term selector of the Weizsäcker formula: +1 for an
/// even-even nuclide (both the mass number A and the proton count Z are
/// even), -1 for an odd-odd nuclide, and 0 otherwise. The three cases
/// cover every (A, Z) pair.
pub open spec fn spec_pairing_delta(protons: int, mass_number: int) -> int {
    if mass_number % 2 == 0 && protons % 2 == 0 {
        1
    } else if mass_number % 2 == 1 && protons % 2 == 1 {
        -1
    } else {
        0
    }
}

/// The pairing term delta of the Weizsäcker formula for a nuclide with
/// the given proton count Z and mass number A.
pub fn pairing_delta(protons: usize, mass_number: usize) -> (delta: i8)
    ensures
        delta as int == spec_pairing_delta(protons as int, mass_number as int),
{
    if mass_number % 2 == 0 && protons % 2 == 0 {
        1
    } else if mass_number % 2 == 1 && protons % 2 == 1 {
        -1
    } else {
        0
    }
}

/// Whether a proton count and a mass number are small enough for the
/// closed-form formula evaluation, whose conversion to the
/// floating-point domain is exact only up to the 32-bit unsigned range.
/// Counts outside it are a fatal precondition failure of the formula,
/// not a resolution error.
pub fn fits_formula_domain(protons: usize, mass_number: usize) -> (ok: bool)
    ensures
        ok == (protons <= u32::MAX && mass_number <= u32::MAX),
{
    protons <= u32::MAX as usize && mass_number <= u32::MAX as usize
}

} // verus!
