//! Fixed protocol parameters.
//!
//! None of these is runtime-configurable: every verifier checks a proposed
//! transaction against exactly these values.

use vstd::prelude::*;

verus! {

/// One unit of the native asset, in its smallest denomination (shannons).
pub const CKB_UNITS: u64 = 100_000_000;

/// Collateral pledged by the user when a peg position is opened, released to
/// the user's pegged-token cell when minting succeeds.
pub const PLEDGE: u64 = 1_000_000_000_000;

/// Fixed capacity reserve of a pegged-token cell.
pub const XT_CELL_CAPACITY: u64 = 20_000_000_000;

/// Byte length of a pegged-token amount: one little-endian `u128`.
pub const UDT_LEN: usize = 16;

/// Numerator of the fixed signer fee rate taken from every minted lot.
pub const SIGNER_FEE_RATE_NUM: u128 = 1;

/// Denominator of the fixed signer fee rate.
pub const SIGNER_FEE_RATE_DEN: u128 = 100;

/// Percentage of the collateral offered to the bidder when an auction opens.
pub const AUCTION_INIT_PERCENT: u64 = 20;

/// Auction horizon in seconds: at or past this elapsed time the bidder
/// receives the full collateral.
pub const AUCTION_MAX_TIME: u64 = 172_800;

/// Exact elapsed-seconds requirement carried by the input of a
/// signer-timeout liquidation: any other magnitude is rejected.
pub const SIGNER_TIMEOUT_SECONDS: u64 = 86_400;

/// Flag bit of a `since` value selecting a relative (rather than absolute)
/// timelock.
pub const LOCK_TYPE_FLAG: u64 = 0x8000_0000_0000_0000;

/// Bits of a `since` value holding the metric of its magnitude.
pub const METRIC_TYPE_FLAG_MASK: u64 = 0x6000_0000_0000_0000;

/// Metric tag meaning the magnitude is an elapsed-time requirement.
pub const SINCE_TYPE_TIMESTAMP: u64 = 0x4000_0000_0000_0000;

/// Reserved bits of a `since` value; all must be zero.
pub const REMAIN_FLAGS_BITS: u64 = 0x1f00_0000_0000_0000;

/// Magnitude bits of a `since` value.
pub const VALUE_MASK: u64 = 0x00ff_ffff_ffff_ffff;

/// All flag and reserved bits of a `since` value: the complement of
/// `VALUE_MASK`.
pub const SINCE_FLAGS_MASK: u64 = 0xff00_0000_0000_0000;

} // verus!
