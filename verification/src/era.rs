//! Era arithmetic over an explicit clock reading.
//!
//! The functions here take the current block height or timestamp as an
//! argument and state exactly what they compute; the modules `funcs` and
//! `utils` apply them to the value read from the chain.

use vstd::prelude::*;

verus! {

/// How many units (blocks or milliseconds) have passed since `since`,
/// clamped to zero when the reading lies before the reference point.
pub open spec fn spec_elapsed(now: int, since: int) -> int {
    if now >= since {
        now - since
    } else {
        0
    }
}

/// How many full eras of length `era_len` fit into the elapsed units.
pub open spec fn spec_eras_passed(now: int, since: int, era_len: int) -> int
    recommends
        era_len > 0,
{
    spec_elapsed(now, since) / era_len
}

/// How many units are left until the next era boundary: once at least one
/// full era has passed, the remainder of the current era; before that, the
/// elapsed units themselves.
pub open spec fn spec_units_left(now: int, since: int, era_len: int) -> int
    recommends
        era_len > 0,
{
    if spec_eras_passed(now, since, era_len) >= 1 {
        era_len - spec_elapsed(now, since) % era_len
    } else {
        spec_elapsed(now, since)
    }
}

/// The active era estimated from a clock reading: the era registered at the
/// reference point plus the full eras that have passed since, saturating at
/// the largest representable era.
pub open spec fn spec_active_era(now: int, since: int, registered: int, era_len: int) -> int
    recommends
        era_len > 0,
{
    if registered + spec_eras_passed(now, since, era_len) > u64::MAX {
        u64::MAX as int
    } else {
        registered + spec_eras_passed(now, since, era_len)
    }
}

/// Units passed since the reference point `since`, given the reading `now`.
pub fn elapsed_between(now: u64, since: u64) -> (r: u64)
    ensures
        r == spec_elapsed(now as int, since as int),
{
    now.saturating_sub(since)
}

/// Full eras of length `era_len` passed since `since`, given the reading `now`.
pub fn eras_passed_between(now: u64, since: u64, era_len: u64) -> (r: u64)
    requires
        era_len > 0,
    ensures
        r == spec_eras_passed(now as int, since as int, era_len as int),
{
    let elapsed = elapsed_between(now, since);
    elapsed / era_len
}

/// Units left until the next era boundary, given the reading `now`.
pub fn units_left_in_era(now: u64, since: u64, era_len: u64) -> (r: u64)
    requires
        era_len > 0,
    ensures
        r == spec_units_left(now as int, since as int, era_len as int),
        r <= era_len,
{
    let eras_passed = eras_passed_between(now, since, era_len);
    let elapsed = elapsed_between(now, since);

    if eras_passed >= 1 {
        let into_current_era = elapsed % era_len;
        era_len.saturating_sub(into_current_era)
    } else {
        proof {
            let x = elapsed as int;
            let d = era_len as int;
            assert(x / d == 0);
            vstd::arithmetic::div_mod::lemma_fundamental_div_mod(x, d);
            vstd::arithmetic::div_mod::lemma_mod_bound(x, d);
            assert(x == d * (x / d) + x % d);
            assert(x < d);
        }
        elapsed
    }
}

/// Active era estimated from the reading `now`: `registered` plus the full
/// eras passed since `since`, saturating at `u64::MAX`.
pub fn active_era_at(now: u64, since: u64, registered: u64, era_len: u64) -> (r: u64)
    requires
        era_len > 0,
    ensures
        r == spec_active_era(now as int, since as int, registered as int, era_len as int),
{
    let eras_passed = eras_passed_between(now, since, era_len);
    registered.saturating_add(eras_passed)
}

} // verus!
