//! Ownership predicate of the peg's exclusive-spend records.
//!
//! The lock script guards the cells a peg position owns. Its decision is a
//! scan over the transaction's type scripts: a cell belongs to the peg when
//! its type script's leading bytes equal the lock's argument bytes. The
//! scan itself rejects nothing — consuming a peg cell is gated by the type
//! script's transition verifiers, not here — but the membership predicate
//! is what identifies the peg's own cells.

use vstd::prelude::*;

verus! {

/// Rejections the lock script can report: all are host-level shape
/// failures, since the membership scan itself accepts every well-formed
/// transaction.
#[derive(Clone, Copy, Debug, PartialEq, Eq, Structural)]
pub enum Error {
    /// A cell index past the end of the transaction was read.
    IndexOutOfBound,
    /// A required item is absent.
    ItemMissing,
    /// A buffer is shorter than its declared layout.
    LengthNotEnough,
    /// A byte field does not decode as its declared shape.
    Encoding,
    /// A cell claiming peg membership is malformed.
    InvalidToCKBCell,
}

/// The number of leading type-script bytes that identify a peg cell.
pub const TOCKB_TYPE_PREFIX_LEN: usize = 54;

/// A serialized type script marks a peg cell: it is present, long enough,
/// and its leading bytes equal the lock's argument bytes exactly.
pub open spec fn spec_is_tockb_cell(type_script: Option<Vec<u8>>, args: Seq<u8>) -> bool {
    match type_script {
        None => false,
        Some(script) => {
            &&& script@.len() >= TOCKB_TYPE_PREFIX_LEN
            &&& script@.subrange(0, TOCKB_TYPE_PREFIX_LEN as int) == args
        },
    }
}

/// Decide whether a serialized type script marks a peg cell.
#[allow(non_snake_case)]
pub fn is_toCKB_cell(type_script: &Option<Vec<u8>>, args: &Vec<u8>) -> (r: bool)
    ensures
        r == spec_is_tockb_cell(*type_script, args@),
{
    let script = match type_script {
        None => {
            return false;
        },
        Some(script) => script,
    };
    if script.len() < TOCKB_TYPE_PREFIX_LEN {
        return false;
    }
    let prefix = crate::codec::copy_range(script, 0, TOCKB_TYPE_PREFIX_LEN);
    crate::codec::bytes_eq(&prefix, args)
}

/// How many of one source's type scripts mark peg cells.
pub open spec fn spec_count_tockb_cells(type_scripts: Seq<Option<Vec<u8>>>, args: Seq<u8>) -> int
    decreases type_scripts.len(),
{
    if type_scripts.len() == 0 {
        0
    } else {
        spec_count_tockb_cells(type_scripts.drop_last(), args) + if spec_is_tockb_cell(
            type_scripts.last(),
            args,
        ) {
            1int
        } else {
            0int
        }
    }
}

/// Scan one source's type scripts and count the peg's own cells. The scan
/// rejects nothing: cells that do not match the argument bytes are simply
/// not the peg's own.
#[allow(non_snake_case)]
pub fn count_toCKB_cells(type_scripts: &Vec<Option<Vec<u8>>>, args: &Vec<u8>) -> (r: usize)
    ensures
        r == spec_count_tockb_cells(type_scripts@, args@),
{
    let n = type_scripts.len();
    let mut cnt: usize = 0;
    let mut i: usize = 0;
    while i < n
        invariant
            n == type_scripts@.len(),
            i <= n,
            cnt <= i,
            cnt == spec_count_tockb_cells(type_scripts@.subrange(0, i as int), args@),
        decreases n - i,
    {
        if is_toCKB_cell(&type_scripts[i], args) {
            cnt += 1;
        }
        i += 1;
        proof {
            assert(type_scripts@.subrange(0, i as int).drop_last() =~= type_scripts@.subrange(
                0,
                i - 1,
            ));
        }
    }
    proof {
        assert(type_scripts@.subrange(0, n as int) =~= type_scripts@);
    }
    cnt
}

} // verus!
