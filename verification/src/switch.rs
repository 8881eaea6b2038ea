//! Dispatch over the peg lifecycle's transition edges.
//!
//! The host inspects the declared status transition of the consumed and
//! produced peg records and names the edge it claims to take; the edges are
//! statically enumerable, each carrying exactly the typed inputs its
//! verifier needs, and dispatch is a total match over them.

use vstd::prelude::*;

use crate::cell::TxView;
use crate::config::XT_CELL_CAPACITY;
use crate::error::Error;
use crate::record::ToCKBCellDataTuple;
use crate::spv::WitnessView;
use crate::{auction_signertimeout, liquidation_signertimeout, mint_xt};

verus! {

/// One lifecycle edge, with the typed inputs its verifier consumes.
pub enum Transition {
    /// Collateral release against pegged-token issuance.
    MintXT { tx: TxView, witness: WitnessView },
    /// Dutch-auction liquidation after the signer failed to act.
    AuctionSignerTimeout { tx: TxView },
    /// The status flip that opens a signer-timeout liquidation.
    LiquidationSignerTimeout { since: u64, cap_input: u64, cap_output: u64 },
}

/// What each edge demands of the host: the record slots its verifier
/// reads, and — for the auction — a peg input holding at least the
/// token-cell reserve.
pub open spec fn spec_transition_wf(data_tuple: ToCKBCellDataTuple, t: Transition) -> bool {
    match t {
        Transition::MintXT { .. } => data_tuple.0 is Some && data_tuple.1 is Some,
        Transition::AuctionSignerTimeout { tx } => {
            &&& data_tuple.0 is Some
            &&& tx.inputs@.len() >= 1
            &&& tx.inputs@[0].cell.capacity >= XT_CELL_CAPACITY
        },
        Transition::LiquidationSignerTimeout { .. } => data_tuple.0 is Some && data_tuple.1
            is Some,
    }
}

/// Verify one proposed lifecycle step: a total match over the declared
/// edges, each judged by its own verifier.
pub fn verify_transition(data_tuple: &ToCKBCellDataTuple, transition: Transition) -> (r: Result<
    (),
    Error,
>)
    requires
        spec_transition_wf(*data_tuple, transition),
    ensures
        r == (match transition {
            Transition::MintXT { tx, witness } => mint_xt::spec_verify(
                data_tuple.0.unwrap(),
                data_tuple.1.unwrap(),
                tx,
                witness,
            ),
            Transition::AuctionSignerTimeout { tx } => auction_signertimeout::spec_verify(
                data_tuple.0.unwrap(),
                tx,
            ),
            Transition::LiquidationSignerTimeout { since, cap_input, cap_output } =>
                liquidation_signertimeout::spec_verify(
                data_tuple.0.unwrap(),
                data_tuple.1.unwrap(),
                since,
                cap_input,
                cap_output,
            ),
        }),
{
    match transition {
        Transition::MintXT { tx, witness } => mint_xt::verify(data_tuple, &tx, witness),
        Transition::AuctionSignerTimeout { tx } => auction_signertimeout::verify(data_tuple, &tx),
        Transition::LiquidationSignerTimeout { since, cap_input, cap_output } =>
            liquidation_signertimeout::verify(data_tuple, since, cap_input, cap_output),
    }
}

} // verus!
