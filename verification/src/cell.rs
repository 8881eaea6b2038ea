//! Typed view of the transaction under evaluation.
//!
//! The host hands every verifier the cells of the proposed transaction as
//! plain values: capacities as integers, scripts and hashes as opaque byte
//! strings. Nothing here is fetched from a mutable store — a verifier sees
//! exactly one proposed transaction and judges it.

use vstd::prelude::*;

use crate::codec::bytes_eq;

verus! {

/// A script: an ownership or token-kind predicate attached to a cell.
pub struct Script {
    /// Hash identifying the script's code.
    pub code_hash: Vec<u8>,
    /// How `code_hash` is to be resolved.
    pub hash_type: u8,
    /// The script's arguments.
    pub args: Vec<u8>,
}

/// One cell of the transaction, input or output.
pub struct CellView {
    /// Native-ledger balance held by the cell.
    pub capacity: u64,
    /// Serialized ownership predicate of the cell.
    pub lock: Vec<u8>,
    /// Host-computed hash of the ownership predicate.
    pub lock_hash: Vec<u8>,
    /// Token-kind predicate, if the cell carries one.
    pub type_script: Option<Script>,
    /// The cell's data bytes.
    pub data: Vec<u8>,
}

/// An input cell together with the timelock its spending declares.
pub struct InputView {
    /// The 64-bit `since` value attached to this input.
    pub since: u64,
    /// The consumed cell.
    pub cell: CellView,
}

/// All inputs and outputs of the proposed transaction, in order. The peg
/// record under evaluation is always the first input and, when the position
/// survives the transition, the first output.
pub struct TxView {
    pub inputs: Vec<InputView>,
    pub outputs: Vec<CellView>,
}

/// Code hash of the deployed pegged-token (simple UDT) script: a fixed
/// protocol parameter.
pub open spec fn spec_sudt_code_hash() -> Seq<u8> {
    seq![
        0x5eu8, 0x7a, 0x36, 0xa7, 0x7e, 0x68, 0xee, 0xcc, 0x01, 0x3d, 0xfa, 0x2f, 0xe6, 0xa2,
        0x3f, 0x3b, 0x6c, 0x34, 0x4b, 0x04, 0x00, 0x58, 0x08, 0x69, 0x4a, 0xe6, 0xdd, 0x45,
        0xee, 0xa4, 0xcf, 0xd5,
    ]
}

/// The pegged-token code hash as bytes.
pub fn sudt_code_hash() -> (r: Vec<u8>)
    ensures
        r@ == spec_sudt_code_hash(),
{
    let mut v: Vec<u8> = Vec::new();
    v.push(0x5e);
    v.push(0x7a);
    v.push(0x36);
    v.push(0xa7);
    v.push(0x7e);
    v.push(0x68);
    v.push(0xee);
    v.push(0xcc);
    v.push(0x01);
    v.push(0x3d);
    v.push(0xfa);
    v.push(0x2f);
    v.push(0xe6);
    v.push(0xa2);
    v.push(0x3f);
    v.push(0x3b);
    v.push(0x6c);
    v.push(0x34);
    v.push(0x4b);
    v.push(0x04);
    v.push(0x00);
    v.push(0x58);
    v.push(0x08);
    v.push(0x69);
    v.push(0x4a);
    v.push(0xe6);
    v.push(0xdd);
    v.push(0x45);
    v.push(0xee);
    v.push(0xa4);
    v.push(0xcf);
    v.push(0xd5);
    proof {
        assert(v@ =~= spec_sudt_code_hash());
    }
    v
}

/// A script is the position's pegged-token predicate: the deployed
/// pegged-token code hash, resolved by data, with the peg record's own
/// lock hash as argument.
pub open spec fn spec_is_xt_typescript(script: Script, tockb_lock_hash: Seq<u8>) -> bool {
    &&& script.code_hash@ == spec_sudt_code_hash()
    &&& script.hash_type == 0
    &&& script.args@ == tockb_lock_hash
}

/// Decide whether a script is the position's pegged-token predicate.
pub fn is_xt_typescript(script: &Script, tockb_lock_hash: &Vec<u8>) -> (r: bool)
    ensures
        r == spec_is_xt_typescript(*script, tockb_lock_hash@),
{
    let expected = sudt_code_hash();
    bytes_eq(&script.code_hash, &expected) && script.hash_type == 0
        && bytes_eq(&script.args, tockb_lock_hash)
}

/// A cell carries the position's pegged tokens: it has a type script and
/// that script is the pegged-token predicate.
pub open spec fn spec_cell_is_xt(cell: CellView, tockb_lock_hash: Seq<u8>) -> bool {
    match cell.type_script {
        Some(script) => spec_is_xt_typescript(script, tockb_lock_hash),
        None => false,
    }
}

/// Decide whether a cell carries the position's pegged tokens.
pub fn cell_is_xt(cell: &CellView, tockb_lock_hash: &Vec<u8>) -> (r: bool)
    ensures
        r == spec_cell_is_xt(*cell, tockb_lock_hash@),
{
    match &cell.type_script {
        Some(script) => is_xt_typescript(script, tockb_lock_hash),
        None => false,
    }
}

} // verus!
