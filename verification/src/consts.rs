//! Reference constants for era and unbonding arithmetic on the Vara network.

use vstd::prelude::*;

verus! {

/// Total number of blocks required to complete the unbonding process.
///
/// Each block takes about 3 seconds to produce, so
/// 201_600 blocks correspond to 604_800 seconds, that is 7 days.
pub const TOTAL_BLOCKS_TO_UNBOND: u64 = 201_600;

/// Unbonding duration in milliseconds.
pub const TOTAL_MILISECONDS_TO_UBOND: u64 = 604_800_000;

/// Number of blocks that make up a single era: 14_400 blocks of about
/// 3 seconds each correspond to 12 hours per era.
pub const ONE_ERA_IN_BLOCKS: u64 = 14_400;

/// Milliseconds of one era.
pub const ONE_ERA_IN_MILLISECONDS: u64 = 43_200_000;

/// Last active era registered on the testnet, used as a reference point
/// for estimating the current era from the block height.
pub const LAST_TESTNET_ACTIVE_ERA_REGISTERED: u64 = 1526;

/// Block number at which `LAST_TESTNET_ACTIVE_ERA_REGISTERED` started on the
/// testnet; it may be a few seconds later than the actual start of the era.
pub const LAST_TESTNET_ACTIVE_ERA_INIT_BLOCK: u64 = 21_804_388;

/// Timestamp at which `LAST_TESTNET_ACTIVE_ERA_REGISTERED` started on the
/// testnet; it may be a few seconds later than the actual start of the era.
pub const LAST_TESTNET_ACTIVE_ERA_INIT_TIMESTAMP: u64 = 1_761_246_986_000;

/// Last active era registered on the mainnet, used as a reference point.
pub const LAST_MAINNET_ACTIVE_ERA_REGISTERED: u64 = 1669;

/// Block number at which `LAST_MAINNET_ACTIVE_ERA_REGISTERED` started on the
/// mainnet; it may be a few seconds later than the actual start of the era.
pub const LAST_MAINNET_ACTIVE_ERA_INIT_BLOCK: u64 = 27_161_113;

/// Timestamp at which `LAST_MAINNET_ACTIVE_ERA_REGISTERED` started on the
/// mainnet; it may be a few seconds later than the actual start of the era.
pub const LAST_MAINNET_ACTIVE_ERA_INIT_TIMESTAMP: u64 = 1_761_264_579_001;

/// One whole token on the Vara network (1 token = 10^12 units).
pub const ONE_TOKEN: u128 = 1_000_000_000_000;

} // verus!
