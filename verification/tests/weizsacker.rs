use vueko::weizsacker::{fits_formula_domain, pairing_delta};

#[test]
fn even_even_nuclide_selects_positive_pairing() {
    // Lead-208: Z = 82 and A = 208 are both even.
    assert_eq!(pairing_delta(82, 208), 1);
}

#[test]
fn carbon_fourteen_is_even_even() {
    assert_eq!(pairing_delta(6, 14), 1);
}

#[test]
fn odd_mass_number_selects_zero_pairing() {
    // Helium-3: A = 3 is odd, Z = 2 is even.
    assert_eq!(pairing_delta(2, 3), 0);
}

#[test]
fn odd_protons_with_even_mass_select_zero_pairing() {
    // A hypothetical count pair with Z odd and A even has even N,
    // so it is still a mixed-parity nuclide.
    assert_eq!(pairing_delta(3, 8), 0);
}

#[test]
fn odd_odd_nuclide_selects_negative_pairing() {
    // Lithium-7: Z = 3 and A = 7 are both odd.
    assert_eq!(pairing_delta(3, 7), -1);
}

#[test]
fn pairing_is_deterministic() {
    let first = pairing_delta(82, 208);
    let second = pairing_delta(82, 208);
    assert_eq!(first, second);
}

#[test]
fn small_counts_fit_the_formula_domain() {
    assert!(fits_formula_domain(92, 235));
}

#[test]
fn counts_beyond_the_unsigned_32_bit_range_do_not_fit() {
    assert!(!fits_formula_domain(92, (u32::MAX as usize) + 1));
    assert!(!fits_formula_domain((u32::MAX as usize) + 1, 10));
}
