//! Free-function helpers: creating a message builder, running fallible
//! closures, and era estimates computed from the chain's current block height
//! or timestamp against the reference points in `consts`.
//!
//! The functions that read the chain's clock cannot pin their result down (it
//! depends on the chain's state); the exact arithmetic they apply to the
//! reading is stated and proved in `era`.

use vstd::prelude::*;
use crate::builders::message::MessageBuilder;
use crate::builders::message::empty_view;
use crate::chain;
use crate::era;
use crate::consts::ONE_ERA_IN_BLOCKS;
use crate::consts::ONE_ERA_IN_MILLISECONDS;
use crate::consts::LAST_TESTNET_ACTIVE_ERA_REGISTERED;
use crate::consts::LAST_TESTNET_ACTIVE_ERA_INIT_BLOCK;
use crate::consts::LAST_MAINNET_ACTIVE_ERA_REGISTERED;
use crate::consts::LAST_MAINNET_ACTIVE_ERA_INIT_BLOCK;
use crate::consts::LAST_MAINNET_ACTIVE_ERA_INIT_TIMESTAMP;

verus! {

/// Creates a new message builder with nothing configured.
pub fn new_message() -> (r: MessageBuilder)
    ensures
        r@ == empty_view(),
{
    MessageBuilder::new()
}

/// Runs a closure and hands back the success value.
///
/// The closure must be known never to return an error: on the chain the
/// failing case halts the calling task outright, and a halt cannot stand in
/// a verified function, so that case is excluded here.
pub fn panicking<T, E, F: FnOnce() -> Result<T, E>>(f: F) -> (v: T)
    requires
        f.requires(()),
        forall|r: Result<T, E>| f.ensures((), r) ==> r is Ok,
    ensures
        f.ensures((), Ok(v)),
{
    match f() {
        Ok(v) => v,
        Err(_) => vstd::pervasive::unreached(),
    }
}

/// Estimates the current active era on the testnet from the local block
/// height: the reference era plus the full eras passed since its first block.
pub fn testnet_active_era_since_last_block_registered() -> (r: u64)
    ensures
        r >= LAST_TESTNET_ACTIVE_ERA_REGISTERED,
{
    let block_height = chain::block_height() as u64;

    era::active_era_at(
        block_height,
        LAST_TESTNET_ACTIVE_ERA_INIT_BLOCK,
        LAST_TESTNET_ACTIVE_ERA_REGISTERED,
        ONE_ERA_IN_BLOCKS,
    )
}

/// Estimates the current active era on the mainnet from the local block
/// height: the reference era plus the full eras passed since its first block.
pub fn mainnet_active_era_since_last_timestamp_registered() -> (r: u64)
    ensures
        r >= LAST_MAINNET_ACTIVE_ERA_REGISTERED,
{
    let block_height = chain::block_height() as u64;

    era::active_era_at(
        block_height,
        LAST_MAINNET_ACTIVE_ERA_INIT_BLOCK,
        LAST_MAINNET_ACTIVE_ERA_REGISTERED,
        ONE_ERA_IN_BLOCKS,
    )
}

/// How many blocks remain until the next era begins on the testnet: the rest
/// of the current era once one has passed, else the blocks passed so far.
pub fn blocks_left_for_next_testnet_era() -> (r: u64)
    ensures
        r <= ONE_ERA_IN_BLOCKS,
{
    let block_height = chain::block_height() as u64;

    era::units_left_in_era(block_height, LAST_TESTNET_ACTIVE_ERA_INIT_BLOCK, ONE_ERA_IN_BLOCKS)
}

/// How many blocks remain until the next era begins on the mainnet: the rest
/// of the current era once one has passed, else the blocks passed so far.
pub fn blocks_left_for_next_mainnet_era() -> (r: u64)
    ensures
        r <= ONE_ERA_IN_BLOCKS,
{
    let block_height = chain::block_height() as u64;

    era::units_left_in_era(block_height, LAST_MAINNET_ACTIVE_ERA_INIT_BLOCK, ONE_ERA_IN_BLOCKS)
}

/// How many milliseconds remain until the next era begins on the mainnet,
/// computed from the block timestamp rather than the block height.
pub fn ms_left_for_next_mainnet_era() -> (r: u64)
    ensures
        r <= ONE_ERA_IN_MILLISECONDS,
{
    let timestamp = chain::block_timestamp();

    era::units_left_in_era(
        timestamp,
        LAST_MAINNET_ACTIVE_ERA_INIT_TIMESTAMP,
        ONE_ERA_IN_MILLISECONDS,
    )
}

/// How many full eras have passed since the era that started at
/// `era_init_block`, judged by the current block height.
pub fn eras_passed_since_init_block(era_init_block: u64) -> u64 {
    let block_height = chain::block_height() as u64;

    era::eras_passed_between(block_height, era_init_block, ONE_ERA_IN_BLOCKS)
}

/// How many full eras have passed since the era that started at
/// `era_init_timestamp`, judged by the current block timestamp.
pub fn eras_passed_since_init_timestamp(era_init_timestamp: u64) -> u64 {
    let timestamp = chain::block_timestamp();

    era::eras_passed_between(timestamp, era_init_timestamp, ONE_ERA_IN_MILLISECONDS)
}

/// How many blocks have passed since `era_init_block`, clamped to zero when
/// the reference block lies in the future.
pub fn blocks_passed_since_init_block(era_init_block: u64) -> u64 {
    let block_height = chain::block_height() as u64;

    era::elapsed_between(block_height, era_init_block)
}

/// How many milliseconds have passed since `era_init_timestamp`, clamped to
/// zero when the reference timestamp lies in the future.
pub fn ms_passed_since_init_timestamp(era_init_timestamp: u64) -> u64 {
    let timestamp = chain::block_timestamp();

    era::elapsed_between(timestamp, era_init_timestamp)
}

} // verus!
