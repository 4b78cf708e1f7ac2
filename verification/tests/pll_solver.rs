//! Tests of the PLL solver and the parts-per-million helper.

use stm32wl5x::clock_constants::PllConstants;
use stm32wl5x::pll::solve_pll_for_targets;
use stm32wl5x::pll::Pll;
use stm32wl5x::pll::HSI_FREQUENCY_MHZ;

/// Constants with a deliberately narrowed search space, still containing
/// the classic `M = 2`, `N = 12` solution.
fn narrow_constants() -> PllConstants {
    PllConstants {
        vco_in_min_khz: 2_660,
        vco_in_max_khz: 16_000,
        m_min: 1,
        m_max: 4,
        n_min: 8,
        n_max: 32,
        p_min: 2,
        p_max: 8,
        q_min: 2,
        q_max: 8,
        r_min: 2,
        r_max: 8,
        p_max_mhz: 62,
        qr_max_mhz: 48,
    }
}

#[test]
fn ppm_error_sanity() {
    let ppm0 = Pll::ppm_error(48_000, 48_000);
    assert_eq!(ppm0, 0);

    // 48.001 MHz against 48 MHz: roughly 20.8 ppm deviation.
    let ppm_small = Pll::ppm_error(48_001, 48_000);
    assert!(ppm_small > 0 && ppm_small < 100);
}

#[test]
fn find_48mhz_sysclk_and_q48_from_hsi16() {
    let constants = narrow_constants();
    let src_mhz = HSI_FREQUENCY_MHZ;

    let best = solve_pll_for_targets(
        &constants,
        src_mhz,
        None,
        Some(48),
        Some(48),
        50,
    );

    let sol = best.expect("should find a solution for 48/48 from HSI16");

    assert_eq!(sol.m, 2);
    assert_eq!(sol.n, 12);
    assert_eq!(sol.q, Some(2));
    assert_eq!(sol.r, Some(2));
    assert_eq!(sol.actual_q_mhz, Some(48));
    assert_eq!(sol.actual_r_mhz, Some(48));
}

#[test]
fn reject_q_over_spec() {
    let constants = narrow_constants();
    let src_mhz = HSI_FREQUENCY_MHZ;

    let best = solve_pll_for_targets(&constants, src_mhz, None, Some(60), None, 1000);

    assert!(best.is_none(), "Q target above 48 MHz must be rejected");
}

#[test]
fn full_range_finds_the_canonical_48mhz_solution() {
    let constants = PllConstants::stm32wl55();

    let sol = solve_pll_for_targets(&constants, 16, None, Some(48), Some(48), 50)
        .expect("48/48 from a 16 MHz source must be solvable");

    assert_eq!(sol.m, 2);
    assert_eq!(sol.n, 12);
    assert_eq!(sol.p, None);
    assert_eq!(sol.q, Some(2));
    assert_eq!(sol.r, Some(2));
    assert_eq!(sol.actual_p_mhz, None);
    assert_eq!(sol.actual_q_mhz, Some(48));
    assert_eq!(sol.actual_r_mhz, Some(48));
}

#[test]
fn solver_is_deterministic_across_calls() {
    let constants = PllConstants::stm32wl55();

    let first = solve_pll_for_targets(&constants, 16, Some(24), Some(48), Some(48), 100)
        .expect("targets within range must be solvable");
    let second = solve_pll_for_targets(&constants, 16, Some(24), Some(48), Some(48), 100)
        .expect("targets within range must be solvable");

    assert_eq!(first.m, second.m);
    assert_eq!(first.n, second.n);
    assert_eq!(first.p, second.p);
    assert_eq!(first.q, second.q);
    assert_eq!(first.r, second.r);
    assert_eq!(first.actual_p_mhz, second.actual_p_mhz);
    assert_eq!(first.actual_q_mhz, second.actual_q_mhz);
    assert_eq!(first.actual_r_mhz, second.actual_r_mhz);
}

#[test]
fn no_requested_outputs_yields_first_admissible_pair() {
    let constants = PllConstants::stm32wl55();

    // A 16 MHz source pre-divided by one sits exactly on the upper VCO
    // bound, which the window excludes; the first admissible pair is then
    // M = 2 with the smallest multiplier.
    let sol = solve_pll_for_targets(&constants, 16, None, None, None, 0)
        .expect("with no requested outputs any admissible pair solves");

    assert_eq!(sol.m, 2);
    assert_eq!(sol.n, 6);
    assert_eq!(sol.p, None);
    assert_eq!(sol.q, None);
    assert_eq!(sol.r, None);
}

#[test]
fn source_outside_vco_window_has_no_solution() {
    let constants = PllConstants::stm32wl55();

    // 2 MHz pre-divided by any allowed M stays below the 2.66 MHz floor.
    let best = solve_pll_for_targets(&constants, 2, None, None, Some(24), 100_000);

    assert!(best.is_none());
}

#[test]
fn boundary_singleton_ranges_are_searched_inclusively() {
    // Every range collapsed to its end points: the solver must still
    // consider M = 4, N = 24, R = 2.
    let constants = PllConstants {
        vco_in_min_khz: 2_660,
        vco_in_max_khz: 16_000,
        m_min: 4,
        m_max: 4,
        n_min: 24,
        n_max: 24,
        p_min: 2,
        p_max: 2,
        q_min: 2,
        q_max: 2,
        r_min: 2,
        r_max: 2,
        p_max_mhz: 62,
        qr_max_mhz: 48,
    };

    let sol = solve_pll_for_targets(&constants, 16, None, None, Some(48), 0)
        .expect("the single boundary candidate must be considered");

    assert_eq!(sol.m, 4);
    assert_eq!(sol.n, 24);
    assert_eq!(sol.r, Some(2));
    assert_eq!(sol.actual_r_mhz, Some(48));
}

#[test]
fn solution_at_upper_end_of_multiplier_range() {
    // Only N = 12 hits 48 MHz exactly from 16 MHz through M = 2 and a
    // divider of 2; with the range capped at 12 the solver must use its
    // inclusive upper end.
    let constants = PllConstants {
        vco_in_min_khz: 2_660,
        vco_in_max_khz: 16_000,
        m_min: 1,
        m_max: 2,
        n_min: 6,
        n_max: 12,
        p_min: 2,
        p_max: 8,
        q_min: 2,
        q_max: 8,
        r_min: 2,
        r_max: 8,
        p_max_mhz: 62,
        qr_max_mhz: 48,
    };

    let sol = solve_pll_for_targets(&constants, 16, None, None, Some(48), 0)
        .expect("the boundary multiplier must be considered");

    assert_eq!(sol.m, 2);
    assert_eq!(sol.n, 12);
    assert_eq!(sol.r, Some(2));
}

#[test]
fn ppm_error_saturates_on_huge_errors() {
    // An error of four-billion-to-one exceeds what fits in 32 bits.
    let ppm = Pll::ppm_error(u32::MAX, 1);
    assert_eq!(ppm, u32::MAX);
}

#[test]
fn ppm_error_is_symmetric_in_sign() {
    let above = Pll::ppm_error(48_048, 48_000);
    let below = Pll::ppm_error(47_952, 48_000);
    assert_eq!(above, 1_000);
    assert_eq!(below, 1_000);
}
