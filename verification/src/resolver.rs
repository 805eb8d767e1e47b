//! Reconciling a partial nuclide specification into a canonical nuclide.
//!
//! A nuclide may be given by any two of neutron count (N), proton count
//! (Z) and mass number (A = Z + N), or by a chemical identifier such as
//! `"U-235"`. The resolver enforces that exactly enough information is
//! supplied: mixing the symbolic and numeric forms, supplying all three
//! counts, or supplying fewer than two is refused with a classified
//! error, and a subtractive count that would be negative is refused too.

use vstd::prelude::*;
use crate::lookup::{count_outside_table, has_count_outside_table, lookup_by_symbol, symbol_lookup};

verus! {

/// A canonical, resolved nuclide: a proton count and a neutron count.
#[derive(Clone, Copy, Debug, PartialEq, Eq, Structural)]
pub struct Nuclide {
    pub protons: usize,
    pub neutrons: usize,
}

/// A raw, possibly partial nuclide specification.
#[derive(Clone, Debug)]
pub struct NuclideInput {
    pub neutrons: Option<usize>,
    pub protons: Option<usize>,
    pub nucleons: Option<usize>,
    pub chemical: Option<String>,
}

/// Why a `NuclideInput` could not be resolved. Every variant is a
/// permanent defect of the input, never a transient condition.
#[derive(Clone, Copy, Debug, PartialEq, Eq, Structural)]
pub enum ResolutionError {
    /// Fewer than two independent numeric quantities were supplied.
    NotEnoughData,
    /// Symbolic and numeric input were mixed, or all three numeric
    /// quantities were supplied.
    TooMuchData,
    /// The chemical identifier did not resolve against the reference data.
    NoNuclide,
    /// A derived subtractive count would be negative: a component count
    /// cannot exceed the whole.
    BadCounts,
}

impl Nuclide {
    /// The mass number A of a nuclide: the total nucleon count Z + N.
    pub open spec fn spec_mass_number(self) -> int {
        self.protons + self.neutrons
    }

    /// The mass number A = Z + N.
    pub fn mass_number(&self) -> (a: usize)
        requires
            self.protons + self.neutrons <= usize::MAX,
        ensures
            a == self.spec_mass_number(),
    {
        self.protons + self.neutrons
    }
}

/// The whole resolution decision procedure, evaluated in order: symbolic
/// and numeric input must not be mixed; a chemical identifier alone is
/// answered by the external reference table, except that an identifier
/// whose counted suffix lies outside the table's range can match nothing
/// and is refused without consulting it; otherwise exactly two of
/// {N, Z, A} must be present, the third is derived, and a derived count
/// may not be negative.
pub open spec fn spec_resolve(input: NuclideInput) -> Result<Nuclide, ResolutionError> {
    if input.chemical is Some {
        if input.neutrons is Some || input.protons is Some || input.nucleons is Some {
            Err(ResolutionError::TooMuchData)
        } else if count_outside_table((input.chemical->0)@) {
            Err(ResolutionError::NoNuclide)
        } else {
            match symbol_lookup((input.chemical->0)@) {
                Some(counts) => Ok(Nuclide { protons: counts.0, neutrons: counts.1 }),
                None => Err(ResolutionError::NoNuclide),
            }
        }
    } else {
        match (input.neutrons, input.protons, input.nucleons) {
            (None, None, None) => Err(ResolutionError::NotEnoughData),
            (None, None, Some(_)) => Err(ResolutionError::NotEnoughData),
            (None, Some(_), None) => Err(ResolutionError::NotEnoughData),
            (Some(_), None, None) => Err(ResolutionError::NotEnoughData),
            (Some(_), Some(_), Some(_)) => Err(ResolutionError::TooMuchData),
            (None, Some(z), Some(a)) => if a >= z {
                Ok(Nuclide { protons: z, neutrons: (a - z) as usize })
            } else {
                Err(ResolutionError::BadCounts)
            },
            (Some(n), None, Some(a)) => if a >= n {
                Ok(Nuclide { protons: (a - n) as usize, neutrons: n })
            } else {
                Err(ResolutionError::BadCounts)
            },
            (Some(n), Some(z), None) => Ok(Nuclide { protons: z, neutrons: n }),
        }
    }
}

/// Resolve a partial nuclide specification into a canonical nuclide, or
/// fail with the classified error that `spec_resolve` assigns to it.
pub fn resolve(input: &NuclideInput) -> (r: Result<Nuclide, ResolutionError>)
    ensures
        r == spec_resolve(*input),
{
    if input.chemical.is_some() {
        if input.neutrons.is_some() || input.protons.is_some() || input.nucleons.is_some() {
            return Err(ResolutionError::TooMuchData);
        }
        let identifier = input.chemical.as_ref().unwrap();
        if has_count_outside_table(identifier.as_str()) {
            return Err(ResolutionError::NoNuclide);
        }
        match lookup_by_symbol(identifier.as_str()) {
            Some(counts) => Ok(Nuclide { protons: counts.0, neutrons: counts.1 }),
            None => Err(ResolutionError::NoNuclide),
        }
    } else {
        match (input.neutrons, input.protons, input.nucleons) {
            (None, None, None) => Err(ResolutionError::NotEnoughData),
            (None, None, Some(_)) => Err(ResolutionError::NotEnoughData),
            (None, Some(_), None) => Err(ResolutionError::NotEnoughData),
            (Some(_), None, None) => Err(ResolutionError::NotEnoughData),
            (Some(_), Some(_), Some(_)) => Err(ResolutionError::TooMuchData),
            (None, Some(z), Some(a)) => if a >= z {
                Ok(Nuclide { protons: z, neutrons: a - z })
            } else {
                Err(ResolutionError::BadCounts)
            },
            (Some(n), None, Some(a)) => if a >= n {
                Ok(Nuclide { protons: a - n, neutrons: n })
            } else {
                Err(ResolutionError::BadCounts)
            },
            (Some(n), Some(z), None) => Ok(Nuclide { protons: z, neutrons: n }),
        }
    }
}

/// When the proton count Z and the mass number A are given, A is at
/// least Z, and nothing else is given, resolution succeeds and the
/// neutron count of the result is exactly the difference A - Z.
pub proof fn lemma_resolve_protons_nucleons(input: NuclideInput)
    requires
        input.chemical is None,
        input.neutrons is None,
        input.protons is Some,
        input.nucleons is Some,
        input.protons->0 <= input.nucleons->0,
    ensures
        spec_resolve(input) == Ok::<Nuclide, ResolutionError>(
            Nuclide {
                protons: input.protons->0,
                neutrons: (input.nucleons->0 - input.protons->0) as usize,
            },
        ),
        spec_resolve(input)->Ok_0.spec_mass_number() == input.nucleons->0,
{
}

/// When the neutron count N and the mass number A are given, A is at
/// least N, and nothing else is given, resolution succeeds and the
/// proton count of the result is exactly the difference A - N.
pub proof fn lemma_resolve_neutrons_nucleons(input: NuclideInput)
    requires
        input.chemical is None,
        input.neutrons is Some,
        input.protons is None,
        input.nucleons is Some,
        input.neutrons->0 <= input.nucleons->0,
    ensures
        spec_resolve(input) == Ok::<Nuclide, ResolutionError>(
            Nuclide {
                protons: (input.nucleons->0 - input.neutrons->0) as usize,
                neutrons: input.neutrons->0,
            },
        ),
        spec_resolve(input)->Ok_0.spec_mass_number() == input.nucleons->0,
{
}

/// When the neutron count N and the proton count Z are given and nothing
/// else is, resolution always succeeds — an absent mass number is never
/// an error — and the mass number of the result is derived as N + Z.
pub proof fn lemma_resolve_neutrons_protons(input: NuclideInput)
    requires
        input.chemical is None,
        input.neutrons is Some,
        input.protons is Some,
        input.nucleons is None,
    ensures
        spec_resolve(input) == Ok::<Nuclide, ResolutionError>(
            Nuclide { protons: input.protons->0, neutrons: input.neutrons->0 },
        ),
        spec_resolve(input)->Ok_0.spec_mass_number() == input.neutrons->0 + input.protons->0,
{
}

/// A chemical identifier together with any numeric quantity is refused
/// as over-specification, however few numeric quantities are given and
/// whatever the identifier is.
pub proof fn lemma_symbolic_excludes_numeric(input: NuclideInput)
    requires
        input.chemical is Some,
        input.neutrons is Some || input.protons is Some || input.nucleons is Some,
    ensures
        spec_resolve(input) == Err::<Nuclide, ResolutionError>(ResolutionError::TooMuchData),
{
}

} // verus!
