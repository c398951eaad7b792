//! An earlier revision of the era helpers, kept alongside `funcs`: the same
//! arithmetic against its own, older reference points. The exact statements
//! of the arithmetic applied to the clock reading live in `era`.

use vstd::prelude::*;
use crate::chain;
use crate::era;

verus! {

/// Total number of blocks required to complete the unbonding process under
/// this revision's schedule: 230_400 blocks of about 3 seconds, that is
/// 8 days.
pub const TOTAL_BLOCKS_TO_UNBOND: u64 = 230_400;

/// Number of blocks that make up a single era: 14_400 blocks of about
/// 3 seconds each correspond to 12 hours per era.
pub const ONE_ERA_IN_BLOCKS: u64 = 14_400;

/// Last active era registered on the testnet under this revision, used as a
/// reference point.
pub const LAST_TESTNET_ACTIVE_ERA_REGISTERED: u64 = 1326;

/// Block number at which `LAST_TESTNET_ACTIVE_ERA_REGISTERED` started on the
/// testnet; it may be a few seconds later than the actual start of the era.
pub const LAST_TESTNET_ACTIVE_ERA_INIT_BLOCK: u64 = 18_925_403;

/// Last active era registered on the mainnet under this revision, used as a
/// reference point.
pub const LAST_MAINNET_ACTIVE_ERA_REGISTERED: u64 = 1469;

/// Block number at which `LAST_MAINNET_ACTIVE_ERA_REGISTERED` started on the
/// mainnet; it may be a few seconds later than the actual start of the era.
pub const LAST_MAINNET_ACTIVE_ERA_INIT_BLOCK: u64 = 24_302_610;

/// One whole token on the Vara network (1 token = 10^12 units).
pub const ONE_TOKEN: u128 = 1_000_000_000_000;

/// Runs a closure and hands back the success value.
///
/// The closure must be known never to return an error: on the chain the
/// failing case halts the calling task outright, and a halt cannot stand in
/// a verified function, so that case is excluded here.
pub fn panicking<T, E, F: FnOnce() -> Result<T, E>>(f: F) -> (v: T)
    requires
        f.requires(()),
        forall|r: Result<T, E>| f.ensures((), r) ==> r is Ok,
    ensures
        f.ensures((), Ok(v)),
{
    match f() {
        Ok(v) => v,
        Err(_) => vstd::pervasive::unreached(),
    }
}

/// Estimates the current active era on the testnet from the local block
/// height: the reference era plus the full eras passed since its first block.
pub fn testnet_active_era() -> (r: u64)
    ensures
        r >= LAST_TESTNET_ACTIVE_ERA_REGISTERED,
{
    let block_height = chain::block_height() as u64;

    era::active_era_at(
        block_height,
        LAST_TESTNET_ACTIVE_ERA_INIT_BLOCK,
        LAST_TESTNET_ACTIVE_ERA_REGISTERED,
        ONE_ERA_IN_BLOCKS,
    )
}

/// Estimates the current active era on the mainnet from the local block
/// height: the reference era plus the full eras passed since its first block.
pub fn mainnet_active_era() -> (r: u64)
    ensures
        r >= LAST_MAINNET_ACTIVE_ERA_REGISTERED,
{
    let block_height = chain::block_height() as u64;

    era::active_era_at(
        block_height,
        LAST_MAINNET_ACTIVE_ERA_INIT_BLOCK,
        LAST_MAINNET_ACTIVE_ERA_REGISTERED,
        ONE_ERA_IN_BLOCKS,
    )
}

/// How many blocks remain until the next era begins on the testnet: the rest
/// of the current era once one has passed, else the blocks passed so far.
pub fn blocks_left_for_next_testnet_era() -> (r: u64)
    ensures
        r <= ONE_ERA_IN_BLOCKS,
{
    let block_height = chain::block_height() as u64;

    era::units_left_in_era(block_height, LAST_TESTNET_ACTIVE_ERA_INIT_BLOCK, ONE_ERA_IN_BLOCKS)
}

/// How many blocks remain until the next era begins on the mainnet: the rest
/// of the current era once one has passed, else the blocks passed so far.
pub fn blocks_left_for_next_mainnet_era() -> (r: u64)
    ensures
        r <= ONE_ERA_IN_BLOCKS,
{
    let block_height = chain::block_height() as u64;

    era::units_left_in_era(block_height, LAST_MAINNET_ACTIVE_ERA_INIT_BLOCK, ONE_ERA_IN_BLOCKS)
}

/// How many full eras have passed since the era that started at
/// `era_init_block`, judged by the current block height.
pub fn eras_passed_since_init_block(era_init_block: u64) -> u64 {
    let block_height = chain::block_height() as u64;

    era::eras_passed_between(block_height, era_init_block, ONE_ERA_IN_BLOCKS)
}

/// How many blocks have passed since `era_init_block`, clamped to zero when
/// the reference block lies in the future.
pub fn blocks_passed_since_init_block(era_init_block: u64) -> u64 {
    let block_height = chain::block_height() as u64;

    era::elapsed_between(block_height, era_init_block)
}

} // verus!
