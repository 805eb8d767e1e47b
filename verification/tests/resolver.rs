use vueko::resolver::{resolve, Nuclide, NuclideInput, ResolutionError};

fn numeric_input(
    neutrons: Option<usize>,
    protons: Option<usize>,
    nucleons: Option<usize>,
) -> NuclideInput {
    NuclideInput { neutrons, protons, nucleons, chemical: None }
}

#[test]
fn protons_and_nucleons_derive_neutrons() {
    let r = resolve(&numeric_input(None, Some(92), Some(235)));
    assert_eq!(r, Ok(Nuclide { protons: 92, neutrons: 143 }));
}

#[test]
fn neutrons_and_nucleons_derive_protons() {
    let r = resolve(&numeric_input(Some(143), None, Some(235)));
    assert_eq!(r, Ok(Nuclide { protons: 92, neutrons: 143 }));
}

#[test]
fn carbon_fourteen_counts_derive_neutrons() {
    let r = resolve(&numeric_input(None, Some(6), Some(14)));
    assert_eq!(r, Ok(Nuclide { protons: 6, neutrons: 8 }));
}

#[test]
fn absent_mass_number_is_never_an_error() {
    let r = resolve(&numeric_input(Some(10), Some(5), None));
    let nuclide = r.unwrap();
    assert_eq!(nuclide, Nuclide { protons: 5, neutrons: 10 });
    assert_eq!(nuclide.mass_number(), 15);
}

#[test]
fn all_three_counts_are_too_much() {
    let r = resolve(&numeric_input(Some(5), Some(5), Some(10)));
    assert_eq!(r, Err(ResolutionError::TooMuchData));
}

#[test]
fn chemical_mixed_with_numeric_is_too_much() {
    let input = NuclideInput {
        neutrons: None,
        protons: Some(2),
        nucleons: None,
        chemical: Some(String::from("He-3")),
    };
    assert_eq!(resolve(&input), Err(ResolutionError::TooMuchData));
}

#[test]
fn nucleons_alone_are_not_enough() {
    let r = resolve(&numeric_input(None, None, Some(4)));
    assert_eq!(r, Err(ResolutionError::NotEnoughData));
}

#[test]
fn neutrons_alone_are_not_enough() {
    let r = resolve(&numeric_input(Some(7), None, None));
    assert_eq!(r, Err(ResolutionError::NotEnoughData));
}

#[test]
fn protons_alone_are_not_enough() {
    let r = resolve(&numeric_input(None, Some(3), None));
    assert_eq!(r, Err(ResolutionError::NotEnoughData));
}

#[test]
fn nothing_given_is_not_enough() {
    let r = resolve(&numeric_input(None, None, None));
    assert_eq!(r, Err(ResolutionError::NotEnoughData));
}

#[test]
fn protons_exceeding_nucleons_are_bad_counts() {
    let r = resolve(&numeric_input(None, Some(10), Some(5)));
    assert_eq!(r, Err(ResolutionError::BadCounts));
}

#[test]
fn neutrons_exceeding_nucleons_are_bad_counts() {
    let r = resolve(&numeric_input(Some(12), None, Some(5)));
    assert_eq!(r, Err(ResolutionError::BadCounts));
}

#[test]
fn chemical_identifier_resolves_against_reference_data() {
    let input = NuclideInput {
        neutrons: None,
        protons: None,
        nucleons: None,
        chemical: Some(String::from("He-3")),
    };
    assert_eq!(resolve(&input), Ok(Nuclide { protons: 2, neutrons: 1 }));
}

#[test]
fn uranium_identifier_resolves_against_reference_data() {
    let input = NuclideInput {
        neutrons: None,
        protons: None,
        nucleons: None,
        chemical: Some(String::from("U-235")),
    };
    assert_eq!(resolve(&input), Ok(Nuclide { protons: 92, neutrons: 143 }));
}

#[test]
fn unknown_identifier_is_no_nuclide() {
    let input = NuclideInput {
        neutrons: None,
        protons: None,
        nucleons: None,
        chemical: Some(String::from("Xx-999")),
    };
    assert_eq!(resolve(&input), Err(ResolutionError::NoNuclide));
}

#[test]
fn malformed_identifier_is_no_nuclide() {
    let input = NuclideInput {
        neutrons: None,
        protons: None,
        nucleons: None,
        chemical: Some(String::from("helium three")),
    };
    assert_eq!(resolve(&input), Err(ResolutionError::NoNuclide));
}
