//! Signer-timeout auction verifier: Dutch-auction liquidation of a
//! position whose signer failed to act.
//!
//! A bidder supplies pegged tokens redeemable by the original redeemer and
//! receives a share of the collateral that grows linearly with the elapsed
//! time declared by the input's timelock. The remaining collateral repays
//! the liquidation trigger and the signer, and the outputs must follow a
//! fixed positional layout: bidder, trigger (if owed), signer (if owed),
//! the redeemer's pegged-token cell, and nothing after it.

use vstd::prelude::*;
use vstd::pervasive::unreached;

use crate::cell::{cell_is_xt, is_xt_typescript, spec_cell_is_xt, spec_is_xt_typescript, CellView,
    InputView, TxView};
use crate::codec::{bytes_eq, read_udt_amount, saturating_add_u128, spec_read_udt_amount};
use crate::config::XT_CELL_CAPACITY;
use crate::error::Error;
use crate::pricing::{auction_shares, spec_to_bidder, spec_to_signer, spec_to_trigger};
use crate::record::{spec_lot_amount, ToCKBCellDataTuple, ToCKBCellDataView};
use crate::since::{decode_since, spec_decode_since};

verus! {

/// The bidder-funding scan from input `i` on: every input from the second
/// onward must carry the position's pegged tokens with well-formed amount
/// data, under the bidder's own ownership predicate — the second input's —
/// so no foreign tokens are mixed in; the scan yields the amounts' exact
/// mathematical sum, or the first failure in input order.
pub open spec fn spec_funding_scan(inputs: Seq<InputView>, lock_hash: Seq<u8>, i: int) -> Result<
    int,
    Error,
>
    decreases inputs.len() - i,
    when 0 <= i
{
    if i >= inputs.len() {
        Ok(0)
    } else if !spec_cell_is_xt(inputs[i].cell, lock_hash)
        || inputs[i].cell.lock@ != inputs[1].cell.lock@ {
        Err(Error::InvalidInputs)
    } else {
        match spec_read_udt_amount(inputs[i].cell.data@) {
            Err(e) => Err(e),
            Ok(v) => match spec_funding_scan(inputs, lock_hash, i + 1) {
                Err(e) => Err(e),
                Ok(rest) => Ok(v + rest),
            },
        }
    }
}

/// The funding check: the scanned bidder funding must reach the lot's
/// pegged amount.
pub open spec fn spec_verify_inputs(
    inputs: Seq<InputView>,
    lock_hash: Seq<u8>,
    lot_amount: u128,
) -> Result<(), Error> {
    match spec_funding_scan(inputs, lock_hash, 1) {
        Err(e) => Err(e),
        Ok(total) => {
            if total < lot_amount {
                Err(Error::FundingNotEnough)
            } else {
                Ok(())
            }
        },
    }
}

/// Scan the bidder's funding inputs, saturating the running sum at the
/// largest representable amount — enough to decide the funding check
/// exactly.
fn funding_sum(tx: &TxView, lock_hash: &Vec<u8>) -> (r: Result<u128, Error>)
    ensures
        match (r, spec_funding_scan(tx.inputs@, lock_hash@, 1)) {
            (Ok(s), Ok(total)) => s == (if total > u128::MAX {
                u128::MAX as int
            } else {
                total
            }),
            (Err(e1), Err(e2)) => e1 == e2,
            _ => false,
        },
{
    let n = tx.inputs.len();
    let mut i: usize = n;
    let mut state: Result<u128, Error> = Ok(0);
    if n <= 1 {
        return Ok(0);
    }
    while i > 1
        invariant
            n == tx.inputs@.len(),
            1 <= i <= n,
            match (state, spec_funding_scan(tx.inputs@, lock_hash@, i as int)) {
                (Ok(s), Ok(total)) => s == (if total > u128::MAX {
                    u128::MAX as int
                } else {
                    total
                }),
                (Err(e1), Err(e2)) => e1 == e2,
                _ => false,
            },
        decreases i,
    {
        i -= 1;
        let c = &tx.inputs[i].cell;
        if !cell_is_xt(c, lock_hash) || !bytes_eq(&c.lock, &tx.inputs[1].cell.lock) {
            state = Err(Error::InvalidInputs);
        } else {
            match read_udt_amount(&c.data) {
                Err(e) => {
                    state = Err(e);
                },
                Ok(v) => {
                    match state {
                        Err(_) => {},
                        Ok(s) => {
                            state = Ok(saturating_add_u128(s, v));
                        },
                    }
                },
            }
        }
    }
    state
}

/// Check the bidder's funding inputs against the lot's pegged amount.
pub fn verify_inputs(tx: &TxView, lock_hash: &Vec<u8>, lot_amount: u128) -> (r: Result<(), Error>)
    ensures
        r == spec_verify_inputs(tx.inputs@, lock_hash@, lot_amount),
{
    match funding_sum(tx, lock_hash) {
        Err(e) => Err(e),
        Ok(s) => {
            if s < lot_amount {
                Err(Error::FundingNotEnough)
            } else {
                Ok(())
            }
        },
    }
}

/// The fixed positional output layout of an auction, checks in order:
/// the bidder output carries the second input's ownership predicate and
/// strictly more capacity than the bidder's share (it also absorbs the
/// pegged-token change); a trigger repayment output when owed; a signer
/// repayment output when owed; the redeemer's pegged-token cell holding
/// exactly the lot at exactly the token-cell reserve; and no output after
/// it.
pub open spec fn spec_verify_outputs(
    input_data: ToCKBCellDataView,
    auction_time: u64,
    lot_amount: u128,
    tx: TxView,
) -> Result<(), Error> {
    let lock_hash = tx.inputs@[0].cell.lock_hash@;
    let collateral = (tx.inputs@[0].cell.capacity - XT_CELL_CAPACITY) as u64;
    if tx.outputs@.len() < 1 {
        Err(Error::IndexOutOfBound)
    } else if tx.inputs@.len() < 2 {
        Err(Error::IndexOutOfBound)
    } else if tx.outputs@[0].lock_hash@ != tx.inputs@[1].cell.lock_hash@ {
        Err(Error::InvalidAuctionBidderCell)
    } else {
        let to_bidder = spec_to_bidder(collateral, auction_time);
        let to_trigger = spec_to_trigger(collateral, auction_time);
        let to_signer = spec_to_signer(collateral, auction_time);
        let trigger_slots: int = if to_trigger > 0 {
            1
        } else {
            0
        };
        let signer_slots: int = if to_signer > 0 {
            1
        } else {
            0
        };
        let xt_idx = 1 + trigger_slots + signer_slots;
        if tx.outputs@[0].capacity <= to_bidder {
            Err(Error::InvalidAuctionBidderCell)
        } else if to_trigger > 0 && tx.outputs@.len() < 2 {
            Err(Error::IndexOutOfBound)
        } else if to_trigger > 0 && (tx.outputs@[1].capacity != to_trigger || tx.outputs@[1].lock@
            != input_data.liquidation_trigger_lockscript@) {
            Err(Error::InvalidTriggerOrSignerCell)
        } else if to_signer > 0 && tx.outputs@.len() < 1 + trigger_slots + 1 {
            Err(Error::IndexOutOfBound)
        } else if to_signer > 0 && (tx.outputs@[1 + trigger_slots].capacity != to_signer
            || tx.outputs@[1 + trigger_slots].lock@ != input_data.signer_lockscript@) {
            Err(Error::InvalidTriggerOrSignerCell)
        } else if tx.outputs@.len() < xt_idx + 1 {
            Err(Error::IndexOutOfBound)
        } else if tx.outputs@[xt_idx].lock@ != input_data.redeemer_lockscript@ {
            Err(Error::InvalidAuctionXTCell)
        } else {
            match tx.outputs@[xt_idx].type_script {
                None => Err(Error::InvalidAuctionXTCell),
                Some(script) => {
                    if !spec_is_xt_typescript(script, lock_hash) {
                        Err(Error::InvalidAuctionXTCell)
                    } else {
                        match spec_read_udt_amount(tx.outputs@[xt_idx].data@) {
                            Err(e) => Err(e),
                            Ok(v) => {
                                if v != lot_amount {
                                    Err(Error::InvalidAuctionXTCell)
                                } else if tx.outputs@[xt_idx].capacity != XT_CELL_CAPACITY {
                                    Err(Error::InvalidAuctionXTCell)
                                } else if tx.outputs@.len() > xt_idx + 1 {
                                    Err(Error::InvalidOutputsNum)
                                } else {
                                    Ok(())
                                }
                            },
                        }
                    }
                },
            }
        }
    }
}

/// Check the fixed positional output layout of an auction.
fn verify_outputs(
    input_data: &ToCKBCellDataView,
    auction_time: u64,
    lot_amount: u128,
    tx: &TxView,
) -> (r: Result<(), Error>)
    requires
        tx.inputs@.len() >= 1,
        tx.inputs@[0].cell.capacity >= XT_CELL_CAPACITY,
    ensures
        r == spec_verify_outputs(*input_data, auction_time, lot_amount, *tx),
{
    if tx.outputs.len() < 1 {
        return Err(Error::IndexOutOfBound);
    }
    if tx.inputs.len() < 2 {
        return Err(Error::IndexOutOfBound);
    }
    let lock_hash = &tx.inputs[0].cell.lock_hash;
    if !bytes_eq(&tx.outputs[0].lock_hash, &tx.inputs[1].cell.lock_hash) {
        return Err(Error::InvalidAuctionBidderCell);
    }
    let collateral = tx.inputs[0].cell.capacity - XT_CELL_CAPACITY;
    let (to_bidder, to_trigger, to_signer) = auction_shares(collateral, auction_time);
    if tx.outputs[0].capacity <= to_bidder {
        return Err(Error::InvalidAuctionBidderCell);
    }
    let mut output_index: usize = 0;
    if to_trigger > 0 {
        output_index += 1;
        if tx.outputs.len() < output_index + 1 {
            return Err(Error::IndexOutOfBound);
        }
        if tx.outputs[output_index].capacity != to_trigger
            || !bytes_eq(&tx.outputs[output_index].lock, &input_data.liquidation_trigger_lockscript) {
            return Err(Error::InvalidTriggerOrSignerCell);
        }
    }
    if to_signer > 0 {
        output_index += 1;
        if tx.outputs.len() < output_index + 1 {
            return Err(Error::IndexOutOfBound);
        }
        if tx.outputs[output_index].capacity != to_signer
            || !bytes_eq(&tx.outputs[output_index].lock, &input_data.signer_lockscript) {
            return Err(Error::InvalidTriggerOrSignerCell);
        }
    }
    output_index += 1;
    if tx.outputs.len() < output_index + 1 {
        return Err(Error::IndexOutOfBound);
    }
    let xt_cell = &tx.outputs[output_index];
    if !bytes_eq(&xt_cell.lock, &input_data.redeemer_lockscript) {
        return Err(Error::InvalidAuctionXTCell);
    }
    let script = match &xt_cell.type_script {
        None => {
            return Err(Error::InvalidAuctionXTCell);
        },
        Some(script) => script,
    };
    if !is_xt_typescript(script, lock_hash) {
        return Err(Error::InvalidAuctionXTCell);
    }
    let to_redeemer_amount = match read_udt_amount(&xt_cell.data) {
        Err(e) => {
            return Err(e);
        },
        Ok(v) => v,
    };
    if to_redeemer_amount != lot_amount {
        return Err(Error::InvalidAuctionXTCell);
    }
    if xt_cell.capacity != XT_CELL_CAPACITY {
        return Err(Error::InvalidAuctionXTCell);
    }
    if tx.outputs.len() > output_index + 1 {
        return Err(Error::InvalidOutputsNum);
    }
    Ok(())
}

/// The whole decision of the auction edge, checks in order: the lot size
/// must read, the timelock must decode, the bidder's funding must cover
/// the lot, and the outputs must follow the fixed layout.
pub open spec fn spec_verify(input_data: ToCKBCellDataView, tx: TxView) -> Result<(), Error> {
    match spec_lot_amount(input_data.kind, input_data.lot_size) {
        Err(e) => Err(e),
        Ok(lot_amount) => match spec_decode_since(tx.inputs@[0].since) {
            Err(e) => Err(e),
            Ok(auction_time) => match spec_verify_inputs(
                tx.inputs@,
                tx.inputs@[0].cell.lock_hash@,
                lot_amount,
            ) {
                Err(e) => Err(e),
                Ok(_) => spec_verify_outputs(input_data, auction_time, lot_amount, tx),
            },
        },
    }
}

/// Verify a signer-timeout auction transition. The consumed peg record is
/// the first input and the position closes: no output record slot is read.
/// The host guarantees that the peg input exists and holds at least the
/// token-cell reserve.
pub fn verify(data_tuple: &ToCKBCellDataTuple, tx: &TxView) -> (r: Result<(), Error>)
    requires
        data_tuple.0 is Some,
        tx.inputs@.len() >= 1,
        tx.inputs@[0].cell.capacity >= XT_CELL_CAPACITY,
    ensures
        r == spec_verify(data_tuple.0.unwrap(), *tx),
{
    let input_data = match &data_tuple.0 {
        Some(d) => d,
        None => unreached(),
    };
    let lot_amount = match input_data.lot_amount() {
        Err(e) => {
            return Err(e);
        },
        Ok(v) => v,
    };
    let auction_time = match decode_since(tx.inputs[0].since) {
        Err(e) => {
            return Err(e);
        },
        Ok(t) => t,
    };
    let lock_hash = &tx.inputs[0].cell.lock_hash;
    match verify_inputs(tx, lock_hash, lot_amount) {
        Err(e) => {
            return Err(e);
        },
        Ok(_) => (),
    }
    verify_outputs(input_data, auction_time, lot_amount, tx)
}

/// Bidder funding below the lot's pegged amount is rejected as
/// underfunding, whatever the transaction's outputs hold: nothing about
/// the outputs is assumed here, and the funding decision never reads them.
pub proof fn lemma_auction_underfunding_rejected(input_data: ToCKBCellDataView, tx: TxView)
    requires
        spec_lot_amount(input_data.kind, input_data.lot_size) matches Ok(lot_amount)
            && (spec_funding_scan(tx.inputs@, tx.inputs@[0].cell.lock_hash@, 1) matches Ok(total)
            && total < lot_amount),
        spec_decode_since(tx.inputs@[0].since) is Ok,
    ensures
        spec_verify(input_data, tx) == Err::<(), Error>(Error::FundingNotEnough),
{
}

} // verus!
