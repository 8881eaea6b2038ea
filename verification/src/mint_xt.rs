//! Mint verifier: collateral release against pegged-token issuance.
//!
//! The position's collateral drops by exactly the pledge plus the
//! pegged-token cell reserve; an external SPV proof must show funds moved to
//! the recorded lock address; the record's invariant fields must be carried
//! over with the witness-derived extra data bound in; and exactly two
//! pegged-token outputs must split the lot's amount between user and signer
//! at the fixed fee rate.

use vstd::prelude::*;
use vstd::pervasive::unreached;

use crate::cell::{is_xt_typescript, spec_cell_is_xt, spec_is_xt_typescript, CellView, TxView};
use crate::codec::{bytes_eq, read_udt_amount, spec_read_udt_amount};
use crate::config::{PLEDGE, XT_CELL_CAPACITY};
use crate::error::Error;
use crate::pricing::{fee_split, spec_signer_share, spec_user_share};
use crate::record::{
    spec_lot_amount, spec_x_extra_eq, ToCKBCellDataTuple, ToCKBCellDataView, XExtraView,
};
use crate::spv::{spec_verify_external_proof, verify_external_proof, WitnessView};

verus! {

/// The capacity obligations of a mint, checks in order: the position
/// releases exactly the pledge plus the token-cell reserve, the user's
/// pegged-token cell carries exactly the pledge, and the signer's exactly
/// the reserve.
pub open spec fn spec_verify_capacity(tx: TxView) -> Result<(), Error> {
    if tx.outputs@.len() < 1 {
        Err(Error::IndexOutOfBound)
    } else if tx.inputs@.len() < 1 {
        Err(Error::IndexOutOfBound)
    } else if tx.inputs@[0].cell.capacity != tx.outputs@[0].capacity + PLEDGE + XT_CELL_CAPACITY {
        Err(Error::CapacityInvalid)
    } else if tx.outputs@.len() < 2 {
        Err(Error::IndexOutOfBound)
    } else if tx.outputs@[1].capacity != PLEDGE {
        Err(Error::CapacityInvalid)
    } else if tx.outputs@.len() < 3 {
        Err(Error::IndexOutOfBound)
    } else if tx.outputs@[2].capacity != XT_CELL_CAPACITY {
        Err(Error::CapacityInvalid)
    } else {
        Ok(())
    }
}

/// Check the capacity obligations of a mint.
pub fn verify_capacity(tx: &TxView) -> (r: Result<(), Error>)
    ensures
        r == spec_verify_capacity(*tx),
{
    if tx.outputs.len() < 1 {
        return Err(Error::IndexOutOfBound);
    }
    if tx.inputs.len() < 1 {
        return Err(Error::IndexOutOfBound);
    }
    let cap_in = tx.inputs[0].cell.capacity;
    let cap_out = tx.outputs[0].capacity;
    if (cap_in as u128) != (cap_out as u128) + (PLEDGE as u128) + (XT_CELL_CAPACITY as u128) {
        return Err(Error::CapacityInvalid);
    }
    if tx.outputs.len() < 2 {
        return Err(Error::IndexOutOfBound);
    }
    if tx.outputs[1].capacity != PLEDGE {
        return Err(Error::CapacityInvalid);
    }
    if tx.outputs.len() < 3 {
        return Err(Error::IndexOutOfBound);
    }
    if tx.outputs[2].capacity != XT_CELL_CAPACITY {
        return Err(Error::CapacityInvalid);
    }
    Ok(())
}

/// Every field the mint edge must carry over is byte-identical between the
/// records, and the output's extra data equals exactly what the proof
/// yielded.
pub open spec fn spec_mint_data_unchanged(
    a: ToCKBCellDataView,
    b: ToCKBCellDataView,
    x_extra: XExtraView,
) -> bool {
    &&& a.signer_lockscript@ == b.signer_lockscript@
    &&& a.user_lockscript@ == b.user_lockscript@
    &&& a.lot_size == b.lot_size
    &&& a.x_lock_address@ == b.x_lock_address@
    &&& spec_x_extra_eq(b.x_extra, x_extra)
}

/// Check the record's invariant fields and the witness-derived extra data.
fn verify_data(
    input_data: &ToCKBCellDataView,
    output_data: &ToCKBCellDataView,
    x_extra: &XExtraView,
) -> (r: Result<(), Error>)
    ensures
        r == (if spec_mint_data_unchanged(*input_data, *output_data, *x_extra) {
            Ok::<(), Error>(())
        } else {
            Err::<(), Error>(Error::InvalidDataChange)
        }),
{
    if !bytes_eq(&input_data.signer_lockscript, &output_data.signer_lockscript)
        || !bytes_eq(&input_data.user_lockscript, &output_data.user_lockscript)
        || input_data.get_raw_lot_size() != output_data.get_raw_lot_size()
        || !bytes_eq(&input_data.x_lock_address, &output_data.x_lock_address)
        || !crate::record::x_extra_eq(&output_data.x_extra, x_extra) {
        return Err(Error::InvalidDataChange);
    }
    Ok(())
}

/// How many transaction inputs carry the position's pegged tokens.
pub open spec fn spec_count_xt_inputs(
    inputs: Seq<crate::cell::InputView>,
    lock_hash: Seq<u8>,
) -> int
    decreases inputs.len(),
{
    if inputs.len() == 0 {
        0
    } else {
        spec_count_xt_inputs(inputs.drop_last(), lock_hash) + if spec_cell_is_xt(
            inputs.last().cell,
            lock_hash,
        ) {
            1int
        } else {
            0int
        }
    }
}

/// How many transaction outputs carry the position's pegged tokens.
pub open spec fn spec_count_xt_outputs(outputs: Seq<CellView>, lock_hash: Seq<u8>) -> int
    decreases outputs.len(),
{
    if outputs.len() == 0 {
        0
    } else {
        spec_count_xt_outputs(outputs.drop_last(), lock_hash) + if spec_cell_is_xt(
            outputs.last(),
            lock_hash,
        ) {
            1int
        } else {
            0int
        }
    }
}

/// Count the inputs carrying the position's pegged tokens.
fn count_xt_inputs(tx: &TxView, lock_hash: &Vec<u8>) -> (r: usize)
    ensures
        r == spec_count_xt_inputs(tx.inputs@, lock_hash@),
{
    let n = tx.inputs.len();
    let mut cnt: usize = 0;
    let mut i: usize = 0;
    while i < n
        invariant
            n == tx.inputs@.len(),
            i <= n,
            cnt <= i,
            cnt == spec_count_xt_inputs(tx.inputs@.subrange(0, i as int), lock_hash@),
        decreases n - i,
    {
        if crate::cell::cell_is_xt(&tx.inputs[i].cell, lock_hash) {
            cnt += 1;
        }
        i += 1;
        proof {
            assert(tx.inputs@.subrange(0, i as int).drop_last() =~= tx.inputs@.subrange(
                0,
                i - 1,
            ));
        }
    }
    proof {
        assert(tx.inputs@.subrange(0, n as int) =~= tx.inputs@);
    }
    cnt
}

/// Count the outputs carrying the position's pegged tokens.
fn count_xt_outputs(tx: &TxView, lock_hash: &Vec<u8>) -> (r: usize)
    ensures
        r == spec_count_xt_outputs(tx.outputs@, lock_hash@),
{
    let n = tx.outputs.len();
    let mut cnt: usize = 0;
    let mut i: usize = 0;
    while i < n
        invariant
            n == tx.outputs@.len(),
            i <= n,
            cnt <= i,
            cnt == spec_count_xt_outputs(tx.outputs@.subrange(0, i as int), lock_hash@),
        decreases n - i,
    {
        if crate::cell::cell_is_xt(&tx.outputs[i], lock_hash) {
            cnt += 1;
        }
        i += 1;
        proof {
            assert(tx.outputs@.subrange(0, i as int).drop_last() =~= tx.outputs@.subrange(
                0,
                i - 1,
            ));
        }
    }
    proof {
        assert(tx.outputs@.subrange(0, n as int) =~= tx.outputs@);
    }
    cnt
}

/// One pegged-token mint output is exactly as owed: pegged-token type
/// script bound to the position, the owed amount, and the owed ownership
/// predicate — checks in that order.
pub open spec fn spec_check_mint_output(
    cell: CellView,
    lock_hash: Seq<u8>,
    lockscript: Seq<u8>,
    amount: int,
) -> Result<(), Error> {
    match cell.type_script {
        None => Err(Error::InvalidMintOutput),
        Some(script) => {
            if !spec_is_xt_typescript(script, lock_hash) {
                Err(Error::InvalidMintOutput)
            } else {
                match spec_read_udt_amount(cell.data@) {
                    Err(e) => Err(e),
                    Ok(v) => {
                        if v != amount {
                            Err(Error::InvalidMintOutput)
                        } else if cell.lock@ != lockscript {
                            Err(Error::InvalidMintOutput)
                        } else {
                            Ok(())
                        }
                    },
                }
            }
        },
    }
}

/// Check one pegged-token mint output against what it owes.
fn check_mint_output(
    cell: &CellView,
    lock_hash: &Vec<u8>,
    lockscript: &Vec<u8>,
    amount: u128,
) -> (r: Result<(), Error>)
    ensures
        r == spec_check_mint_output(*cell, lock_hash@, lockscript@, amount as int),
{
    let script = match &cell.type_script {
        None => {
            return Err(Error::InvalidMintOutput);
        },
        Some(script) => script,
    };
    if !is_xt_typescript(script, lock_hash) {
        return Err(Error::InvalidMintOutput);
    }
    let value = match read_udt_amount(&cell.data) {
        Err(e) => {
            return Err(e);
        },
        Ok(v) => v,
    };
    if value != amount {
        return Err(Error::InvalidMintOutput);
    }
    if !bytes_eq(&cell.lock, lockscript) {
        return Err(Error::InvalidMintOutput);
    }
    Ok(())
}

/// The issuance obligations of a mint, checks in order: no pegged-token
/// input, exactly two pegged-token outputs, and the lot's amount split
/// between the user's output and the signer's output at the fixed fee rate,
/// at the fixed positions.
pub open spec fn spec_verify_xt_issue(data: ToCKBCellDataView, tx: TxView) -> Result<(), Error> {
    if tx.inputs@.len() < 1 {
        Err(Error::IndexOutOfBound)
    } else {
        let lock_hash = tx.inputs@[0].cell.lock_hash@;
        if spec_count_xt_inputs(tx.inputs@, lock_hash) != 0 {
            Err(Error::InvalidXTInInputOrOutput)
        } else if spec_count_xt_outputs(tx.outputs@, lock_hash) != 2 {
            Err(Error::InvalidXTInInputOrOutput)
        } else {
            match spec_lot_amount(data.kind, data.lot_size) {
                Err(e) => Err(e),
                Ok(amount) => {
                    if tx.outputs@.len() < 2 {
                        Err(Error::IndexOutOfBound)
                    } else {
                        match spec_check_mint_output(
                            tx.outputs@[1],
                            lock_hash,
                            data.user_lockscript@,
                            spec_user_share(amount),
                        ) {
                            Err(e) => Err(e),
                            Ok(_) => {
                                if tx.outputs@.len() < 3 {
                                    Err(Error::IndexOutOfBound)
                                } else {
                                    match spec_check_mint_output(
                                        tx.outputs@[2],
                                        lock_hash,
                                        data.signer_lockscript@,
                                        spec_signer_share(amount),
                                    ) {
                                        Err(e) => Err(e),
                                        Ok(_) => Ok(()),
                                    }
                                }
                            },
                        }
                    }
                },
            }
        }
    }
}

/// Check the issuance obligations of a mint.
fn verify_xt_issue(data: &ToCKBCellDataView, tx: &TxView) -> (r: Result<(), Error>)
    ensures
        r == spec_verify_xt_issue(*data, *tx),
{
    if tx.inputs.len() < 1 {
        return Err(Error::IndexOutOfBound);
    }
    let lock_hash = &tx.inputs[0].cell.lock_hash;
    if count_xt_inputs(tx, lock_hash) != 0 {
        return Err(Error::InvalidXTInInputOrOutput);
    }
    if count_xt_outputs(tx, lock_hash) != 2 {
        return Err(Error::InvalidXTInInputOrOutput);
    }
    let amount = match data.lot_amount() {
        Err(e) => {
            return Err(e);
        },
        Ok(v) => v,
    };
    let (user_share, signer_share) = fee_split(amount);
    if tx.outputs.len() < 2 {
        return Err(Error::IndexOutOfBound);
    }
    match check_mint_output(&tx.outputs[1], lock_hash, &data.user_lockscript, user_share) {
        Err(e) => {
            return Err(e);
        },
        Ok(_) => (),
    }
    if tx.outputs.len() < 3 {
        return Err(Error::IndexOutOfBound);
    }
    match check_mint_output(&tx.outputs[2], lock_hash, &data.signer_lockscript, signer_share) {
        Err(e) => {
            return Err(e);
        },
        Ok(_) => (),
    }
    Ok(())
}

/// The whole decision of the mint edge, checks in order: capacities, the
/// external proof, the record's invariant data, and the issuance layout.
pub open spec fn spec_verify(
    input: ToCKBCellDataView,
    output: ToCKBCellDataView,
    tx: TxView,
    witness: WitnessView,
) -> Result<(), Error> {
    match spec_verify_capacity(tx) {
        Err(e) => Err(e),
        Ok(_) => match spec_verify_external_proof(input, witness) {
            Err(e) => Err(e),
            Ok(x_extra) => {
                if !spec_mint_data_unchanged(input, output, x_extra) {
                    Err(Error::InvalidDataChange)
                } else {
                    spec_verify_xt_issue(input, tx)
                }
            },
        },
    }
}

/// Verify a mint transition: the peg record pair, the transaction's cells,
/// and the chain-tagged witness. Both record slots must be present: minting
/// never closes the position.
pub fn verify(data_tuple: &ToCKBCellDataTuple, tx: &TxView, witness: WitnessView) -> (r: Result<
    (),
    Error,
>)
    requires
        data_tuple.0 is Some,
        data_tuple.1 is Some,
    ensures
        r == spec_verify(data_tuple.0.unwrap(), data_tuple.1.unwrap(), *tx, witness),
{
    let input_data = match &data_tuple.0 {
        Some(d) => d,
        None => unreached(),
    };
    let output_data = match &data_tuple.1 {
        Some(d) => d,
        None => unreached(),
    };
    match verify_capacity(tx) {
        Err(e) => {
            return Err(e);
        },
        Ok(_) => (),
    }
    let x_extra = match verify_external_proof(input_data, witness) {
        Err(e) => {
            return Err(e);
        },
        Ok(x) => x,
    };
    match verify_data(input_data, output_data, &x_extra) {
        Err(e) => {
            return Err(e);
        },
        Ok(_) => (),
    }
    verify_xt_issue(input_data, tx)
}

/// Mutating any field the mint edge must carry over — or binding extra data
/// other than what the proof yielded — is rejected with the data-change
/// error, once capacities and the proof pass.
pub proof fn lemma_mint_rejects_mutated_data(
    input: ToCKBCellDataView,
    output: ToCKBCellDataView,
    tx: TxView,
    witness: WitnessView,
    x_extra: XExtraView,
)
    requires
        spec_verify_capacity(tx) is Ok,
        spec_verify_external_proof(input, witness) == Ok::<XExtraView, Error>(x_extra),
        !spec_mint_data_unchanged(input, output, x_extra),
    ensures
        spec_verify(input, output, tx, witness) == Err::<(), Error>(Error::InvalidDataChange),
{
}

/// Carrying every such field over unchanged lets the decision fall through
/// to the issuance checks alone.
pub proof fn lemma_mint_accepts_unchanged_data(
    input: ToCKBCellDataView,
    output: ToCKBCellDataView,
    tx: TxView,
    witness: WitnessView,
    x_extra: XExtraView,
)
    requires
        spec_verify_capacity(tx) is Ok,
        spec_verify_external_proof(input, witness) == Ok::<XExtraView, Error>(x_extra),
        spec_mint_data_unchanged(input, output, x_extra),
    ensures
        spec_verify(input, output, tx, witness) == spec_verify_xt_issue(input, tx),
{
}

} // verus!
