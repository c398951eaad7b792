//! Tests for the era arithmetic applied to explicit clock readings.

use vara_contract_utils::consts::ONE_ERA_IN_BLOCKS;
use vara_contract_utils::era::active_era_at;
use vara_contract_utils::era::elapsed_between;
use vara_contract_utils::era::eras_passed_between;
use vara_contract_utils::era::units_left_in_era;
use vara_contract_utils::funcs::panicking;

#[test]
fn elapsed_counts_from_the_reference() {
    assert_eq!(elapsed_between(100, 40), 60);
    assert_eq!(elapsed_between(40, 40), 0);
}

#[test]
fn elapsed_clamps_a_future_reference_to_zero() {
    assert_eq!(elapsed_between(40, 100), 0);
}

#[test]
fn eras_passed_counts_full_eras_only() {
    let init = 21_804_388u64;
    assert_eq!(
        eras_passed_between(init + 3 * ONE_ERA_IN_BLOCKS + 7, init, ONE_ERA_IN_BLOCKS),
        3
    );
    assert_eq!(
        eras_passed_between(init + ONE_ERA_IN_BLOCKS - 1, init, ONE_ERA_IN_BLOCKS),
        0
    );
}

#[test]
fn units_left_before_the_first_era_is_the_elapsed_count() {
    let init = 500u64;
    assert_eq!(units_left_in_era(init + 100, init, ONE_ERA_IN_BLOCKS), 100);
}

#[test]
fn units_left_mid_era_is_the_rest_of_the_era() {
    let init = 500u64;
    assert_eq!(
        units_left_in_era(init + ONE_ERA_IN_BLOCKS + 500, init, ONE_ERA_IN_BLOCKS),
        ONE_ERA_IN_BLOCKS - 500
    );
}

#[test]
fn units_left_at_an_era_boundary_is_a_whole_era() {
    let init = 500u64;
    assert_eq!(
        units_left_in_era(init + 2 * ONE_ERA_IN_BLOCKS, init, ONE_ERA_IN_BLOCKS),
        ONE_ERA_IN_BLOCKS
    );
}

#[test]
fn active_era_adds_the_eras_passed_to_the_reference_era() {
    let init = 27_161_113u64;
    assert_eq!(
        active_era_at(init + 2 * ONE_ERA_IN_BLOCKS + 5, init, 1669, ONE_ERA_IN_BLOCKS),
        1671
    );
}

#[test]
fn active_era_saturates_at_the_largest_representable_era() {
    assert_eq!(active_era_at(u64::MAX, 0, u64::MAX, 1), u64::MAX);
}

#[test]
fn panicking_hands_back_the_success_value() {
    let v: u32 = panicking(|| Ok::<u32, ()>(7));
    assert_eq!(v, 7);
}

#[test]
fn utils_panicking_hands_back_the_success_value() {
    let v: i64 = vara_contract_utils::utils::panicking(|| Ok::<i64, String>(-3));
    assert_eq!(v, -3);
}
