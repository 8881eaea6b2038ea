//! Signer-timeout liquidation verifier: a status-flip edge that moves no
//! funds.
//!
//! The consumed input must declare exactly the fixed signer-timeout
//! elapsed-time requirement, the position's collateral must be carried over
//! unchanged, and every invariant field of the record must be byte-identical
//! between input and output.

use vstd::prelude::*;
use vstd::pervasive::unreached;

use crate::codec::bytes_eq;
use crate::config::SIGNER_TIMEOUT_SECONDS;
use crate::error::Error;
use crate::record::{ToCKBCellDataTuple, ToCKBCellDataView};
use crate::since::{decode_since, since_flags_valid, since_value};

verus! {

/// The input's timelock is exactly the signer-timeout requirement: flags
/// acceptable and magnitude equal to the fixed constant.
pub open spec fn spec_since_accepted(since: u64) -> bool {
    since_flags_valid(since) && since_value(since) == SIGNER_TIMEOUT_SECONDS
}

/// Every field the liquidation edge must carry over is byte-identical
/// between the input and output records.
pub open spec fn spec_invariant_fields_unchanged(
    a: ToCKBCellDataView,
    b: ToCKBCellDataView,
) -> bool {
    &&& a.lot_size == b.lot_size
    &&& a.user_lockscript@ == b.user_lockscript@
    &&& a.x_lock_address@ == b.x_lock_address@
    &&& a.signer_lockscript@ == b.signer_lockscript@
    &&& a.x_unlock_address@ == b.x_unlock_address@
    &&& a.redeemer_lockscript@ == b.redeemer_lockscript@
}

/// The whole decision of this edge, checks in order: timelock, capacity,
/// invariant fields.
pub open spec fn spec_verify(
    input: ToCKBCellDataView,
    output: ToCKBCellDataView,
    since: u64,
    cap_input: u64,
    cap_output: u64,
) -> Result<(), Error> {
    if !spec_since_accepted(since) {
        Err(Error::InputSinceInvalid)
    } else if cap_input != cap_output {
        Err(Error::CapacityInvalid)
    } else if !spec_invariant_fields_unchanged(input, output) {
        Err(Error::InvariantDataMutated)
    } else {
        Ok(())
    }
}

/// Check the input's timelock against the fixed signer-timeout requirement.
fn verify_since(since: u64) -> (r: Result<(), Error>)
    ensures
        r == (if spec_since_accepted(since) {
            Ok::<(), Error>(())
        } else {
            Err::<(), Error>(Error::InputSinceInvalid)
        }),
{
    let time = match decode_since(since) {
        Ok(t) => t,
        Err(e) => {
            return Err(e);
        },
    };
    if time != SIGNER_TIMEOUT_SECONDS {
        return Err(Error::InputSinceInvalid);
    }
    Ok(())
}

/// Check that the position's collateral is carried over exactly.
fn verify_capacity(cap_input: u64, cap_output: u64) -> (r: Result<(), Error>)
    ensures
        r == (if cap_input == cap_output {
            Ok::<(), Error>(())
        } else {
            Err::<(), Error>(Error::CapacityInvalid)
        }),
{
    if cap_input != cap_output {
        return Err(Error::CapacityInvalid);
    }
    Ok(())
}

/// Check that every invariant field of the record is unchanged.
pub fn verify_data(input_data: &ToCKBCellDataView, output_data: &ToCKBCellDataView) -> (r: Result<
    (),
    Error,
>)
    ensures
        r == (if spec_invariant_fields_unchanged(*input_data, *output_data) {
            Ok::<(), Error>(())
        } else {
            Err::<(), Error>(Error::InvariantDataMutated)
        }),
{
    if input_data.get_raw_lot_size() != output_data.get_raw_lot_size()
        || !bytes_eq(&input_data.user_lockscript, &output_data.user_lockscript)
        || !bytes_eq(&input_data.x_lock_address, &output_data.x_lock_address)
        || !bytes_eq(&input_data.signer_lockscript, &output_data.signer_lockscript)
        || !bytes_eq(&input_data.x_unlock_address, &output_data.x_unlock_address)
        || !bytes_eq(&input_data.redeemer_lockscript, &output_data.redeemer_lockscript) {
        return Err(Error::InvariantDataMutated);
    }
    Ok(())
}

/// Verify a signer-timeout liquidation transition.
///
/// `since` is the timelock declared by the consumed peg input;
/// `cap_input` and `cap_output` are the capacities of the input and output
/// peg records. Both record slots must be present: this edge never closes
/// the position.
pub fn verify(
    data_tuple: &ToCKBCellDataTuple,
    since: u64,
    cap_input: u64,
    cap_output: u64,
) -> (r: Result<(), Error>)
    requires
        data_tuple.0 is Some,
        data_tuple.1 is Some,
    ensures
        r == spec_verify(data_tuple.0.unwrap(), data_tuple.1.unwrap(), since, cap_input,
            cap_output),
{
    let input_data = match &data_tuple.0 {
        Some(d) => d,
        None => unreached(),
    };
    let output_data = match &data_tuple.1 {
        Some(d) => d,
        None => unreached(),
    };
    match verify_since(since) {
        Ok(_) => (),
        Err(e) => {
            return Err(e);
        },
    }
    match verify_capacity(cap_input, cap_output) {
        Ok(_) => (),
        Err(e) => {
            return Err(e);
        },
    }
    match verify_data(input_data, output_data) {
        Ok(_) => (),
        Err(e) => {
            return Err(e);
        },
    }
    Ok(())
}

/// Mutating any invariant field between this edge's input and output record
/// is rejected with the invariant-mutation error, however the rest of the
/// transaction looks, as long as the earlier checks pass.
pub proof fn lemma_liquidation_rejects_mutated_fields(
    input: ToCKBCellDataView,
    output: ToCKBCellDataView,
    since: u64,
    cap_input: u64,
    cap_output: u64,
)
    requires
        spec_since_accepted(since),
        cap_input == cap_output,
        !spec_invariant_fields_unchanged(input, output),
    ensures
        spec_verify(input, output, since, cap_input, cap_output) == Err::<(), Error>(
            Error::InvariantDataMutated,
        ),
{
}

/// Leaving every invariant field untouched always succeeds, given an exact
/// signer-timeout timelock and an exactly carried-over capacity.
pub proof fn lemma_liquidation_accepts_unchanged_fields(
    input: ToCKBCellDataView,
    output: ToCKBCellDataView,
    since: u64,
    cap_input: u64,
    cap_output: u64,
)
    requires
        spec_since_accepted(since),
        cap_input == cap_output,
        spec_invariant_fields_unchanged(input, output),
    ensures
        spec_verify(input, output, since, cap_input, cap_output) == Ok::<(), Error>(()),
{
}

} // verus!
