//! The rejection taxonomy: one signal per cause.
//!
//! Every error is terminal for the proposed transaction — a verifier
//! short-circuits at the first failing check and nothing is partially
//! applied.

use vstd::prelude::*;

verus! {

/// Why a proposed transition was rejected.
#[derive(Clone, Copy, Debug, PartialEq, Eq, Structural)]
pub enum Error {
    /// A cell index named by the fixed transaction layout does not exist.
    IndexOutOfBound,
    /// A required item (such as a type script) is absent.
    ItemMissing,
    /// A buffer is shorter than its declared layout.
    LengthNotEnough,
    /// A byte field does not decode as its declared shape.
    Encoding,
    /// Wrong relative/metric flags, nonzero reserved bits, or wrong
    /// magnitude in the input's `since` value.
    InputSinceInvalid,
    /// A capacity does not match the amount the transition owes.
    CapacityInvalid,
    /// The bidder's pegged-token funding does not cover the lot.
    FundingNotEnough,
    /// A mint output differs from the owed fee split or script binding.
    InvalidMintOutput,
    /// The auction bidder output is malformed or underpaid.
    InvalidAuctionBidderCell,
    /// The trigger or signer repayment output is malformed.
    InvalidTriggerOrSignerCell,
    /// The redeemer's pegged-token output of an auction is malformed.
    InvalidAuctionXTCell,
    /// Outputs exist past the fixed auction layout.
    InvalidOutputsNum,
    /// A field the transition must carry over changed (mint edge).
    InvalidDataChange,
    /// A field the transition must carry over changed (liquidation edge).
    InvariantDataMutated,
    /// The external proof is malformed or its inclusion check failed.
    InvalidWitness,
    /// The external proof funds a different address than the recorded one.
    WrongFundingAddr,
    /// A transaction input carries pegged tokens it must not, or one that
    /// must carry them does not match the position.
    InvalidInputs,
    /// Wrong count of pegged-token records among inputs or outputs.
    InvalidXTInInputOrOutput,
}

} // verus!
