//! External proof adapter.
//!
//! A transition that claims funds moved on the external chain must carry an
//! SPV proof. The low-level proof engines — Bitcoin header-chain and Merkle
//! inclusion, Ethereum receipt decoding and receipt-trie inclusion — are
//! external collaborators consumed at a narrow boundary: their verdicts
//! arrive as plain values inside [`WitnessView`]. The binding of a verdict
//! to the record is checked here: a sound Bitcoin report must fund the
//! recorded lock address with at least the lot's pegged amount, and the
//! Ethereum log entry is parsed for the emitting contract address, whose
//! hex spelling must equal the recorded lock address.

use vstd::prelude::*;

use crate::codec::be_bytes_value;
use crate::codec::read_be_value;
use crate::error::Error;
use crate::record::{
    spec_btc_lot_size, BtcExtraView, EthExtraView, ToCKBCellDataView, XChainKind, XExtraView,
};

verus! {

/// What the Bitcoin SPV engine reports for a cryptographically sound
/// proof: which external address the funding transaction pays, how much,
/// and the funding outpoint it extracted. The engine spells the address as
/// peg records do, so the adapter compares it bytewise against the
/// recorded lock address and the amount against the lot.
pub struct BtcProofReport {
    /// The external address the proven transaction funds.
    pub funded_address: Vec<u8>,
    /// The amount the proven transaction moves to that address.
    pub funded_amount: u128,
    /// The funding outpoint, to be bound into the record.
    pub extra: BtcExtraView,
}

/// Verdict of the Bitcoin SPV engine on a mint witness. The engine — a
/// header-chain, Merkle-inclusion and address-extraction check over the
/// raw proof bytes and consensus dependency cells — runs in the host; the
/// adapter here holds its report against the record's own lock address and
/// lot amount.
pub enum BtcProofVerdict {
    /// The inclusion proof and header work check out; the report says what
    /// the transaction funds.
    Sound(BtcProofReport),
    /// The proof bytes do not decode, or the inclusion check failed.
    Unsound,
}

/// An Ethereum mint witness: the raw log entry bytes, plus the verdicts of
/// the external receipt checks that cannot be recomputed here.
pub struct EthProofView {
    /// RLP encoding of the log entry claimed to witness the lock.
    pub log_entry_data: Vec<u8>,
    /// Whether the witness's receipt bytes decode as a receipt (an external
    /// RLP-decoder verdict).
    pub receipt_ok: bool,
    /// Whether the receipt-trie inclusion proof binds the receipt to the
    /// supplied receipts root (an external Merkle-Patricia engine verdict).
    pub inclusion_ok: bool,
}

/// Chain-tagged witness data of a mint transition.
pub enum WitnessView {
    Btc(BtcProofVerdict),
    Eth(EthProofView),
}

/// Where the payload of an RLP list begins, when `data` is one canonically
/// encoded RLP list spanning the whole buffer; `None` otherwise.
pub open spec fn spec_rlp_list_payload_start(data: Seq<u8>) -> Option<int> {
    if data.len() == 0 {
        None
    } else {
        let b0 = data[0];
        if b0 < 0xc0 {
            None
        } else if b0 <= 0xf7 {
            if data.len() == 1 + (b0 - 0xc0) {
                Some(1)
            } else {
                None
            }
        } else {
            let ll = b0 - 0xf7;
            if data.len() < 1 + ll {
                None
            } else {
                let plen = be_bytes_value(data.subrange(1, 1 + ll));
                if data[1] != 0 && plen > 55 && data.len() == 1 + ll + plen {
                    Some(1 + ll)
                } else {
                    None
                }
            }
        }
    }
}

/// The emitting contract address of an RLP-encoded log entry: the first
/// item of the list, which must be a 20-byte string. `None` when the bytes
/// are not such a list.
pub open spec fn spec_log_entry_address(data: Seq<u8>) -> Option<Seq<u8>> {
    match spec_rlp_list_payload_start(data) {
        Some(start) => {
            if data.len() - start >= 21 && data[start] == 0x94 {
                Some(data.subrange(start + 1, start + 21))
            } else {
                None
            }
        },
        None => None,
    }
}

/// Parse the emitting contract address out of an RLP-encoded log entry.
pub fn log_entry_address(data: &Vec<u8>) -> (r: Option<Vec<u8>>)
    ensures
        r matches Some(addr) ==> spec_log_entry_address(data@) == Some(addr@),
        r is None ==> spec_log_entry_address(data@) is None,
{
    let n = data.len();
    if n == 0 {
        return None;
    }
    let b0 = data[0];
    let start: usize;
    if b0 < 0xc0 {
        return None;
    } else if b0 <= 0xf7 {
        let plen = (b0 - 0xc0) as usize;
        if n != 1 + plen {
            return None;
        }
        start = 1;
    } else {
        let ll = (b0 - 0xf7) as usize;
        if n < 1 + ll {
            return None;
        }
        let plen = read_be_value(data, 1, ll);
        if data[1] == 0 || plen <= 55 || ((n - 1 - ll) as u64) != plen {
            return None;
        }
        start = 1 + ll;
    }
    if n - start < 21 || data[start] != 0x94 {
        return None;
    }
    let addr = crate::codec::copy_range(data, start + 1, 20);
    Some(addr)
}

/// The lowercase hexadecimal digit of a nibble.
pub open spec fn spec_hex_digit(n: u8) -> u8 {
    if n < 10 {
        (0x30 + n) as u8
    } else {
        (0x57 + n) as u8
    }
}

/// The lowercase hexadecimal encoding of a byte string: two digits per
/// byte, high nibble first.
pub open spec fn spec_hex_encode(s: Seq<u8>) -> Seq<u8> {
    Seq::new(
        2 * s.len(),
        |i: int|
            if i % 2 == 0 {
                spec_hex_digit((s[i / 2] / 16) as u8)
            } else {
                spec_hex_digit((s[i / 2] % 16) as u8)
            },
    )
}

/// Relies on hex::encode: each byte becomes two lowercase hexadecimal
/// digits, high nibble first.
#[verifier::external_body]
fn hex_encode_bytes(data: &Vec<u8>) -> (r: Vec<u8>)
    ensures
        r@ == spec_hex_encode(data@),
{
    hex::encode(data).into_bytes()
}

/// The decision of the Ethereum proof path: the log entry must parse, the
/// receipt must decode, the emitting address hex-encoded must equal the
/// recorded lock address, and the inclusion proof must hold — in that
/// order.
pub open spec fn spec_eth_proof_decision(
    x_lock_address: Seq<u8>,
    log_entry_data: Seq<u8>,
    receipt_ok: bool,
    inclusion_ok: bool,
) -> Result<(), Error> {
    match spec_log_entry_address(log_entry_data) {
        None => Err(Error::InvalidWitness),
        Some(addr) => {
            if !receipt_ok {
                Err(Error::InvalidWitness)
            } else if spec_hex_encode(addr) != x_lock_address {
                Err(Error::WrongFundingAddr)
            } else if !inclusion_ok {
                Err(Error::InvalidWitness)
            } else {
                Ok(())
            }
        },
    }
}

/// What the adapter returns for a record and a chain-tagged witness: the
/// Bitcoin engine's report held against the record's lock address and lot
/// amount, the Ethereum path's decision, or a witness rejection when the
/// tags disagree.
pub open spec fn spec_verify_external_proof(
    data: ToCKBCellDataView,
    witness: WitnessView,
) -> Result<XExtraView, Error> {
    match (data.kind, witness) {
        (XChainKind::Btc, WitnessView::Btc(verdict)) => match spec_btc_lot_size(data.lot_size) {
            Err(e) => Err(e),
            Ok(lot) => match verdict {
                BtcProofVerdict::Unsound => Err(Error::InvalidWitness),
                BtcProofVerdict::Sound(report) => {
                    if report.funded_address@ != data.x_lock_address@ {
                        Err(Error::WrongFundingAddr)
                    } else if report.funded_amount < lot.spec_sudt_amount() {
                        Err(Error::InvalidWitness)
                    } else {
                        Ok(XExtraView::Btc(report.extra))
                    }
                },
            },
        },
        (XChainKind::Eth, WitnessView::Eth(p)) => match spec_eth_proof_decision(
            data.x_lock_address@,
            p.log_entry_data@,
            p.receipt_ok,
            p.inclusion_ok,
        ) {
            Ok(_) => Ok(XExtraView::Eth(EthExtraView {  })),
            Err(e) => Err(e),
        },
        _ => Err(Error::InvalidWitness),
    }
}

/// Check the Ethereum proof path of a witness against a record.
fn verify_eth_proof(x_lock_address: &Vec<u8>, p: &EthProofView) -> (r: Result<
    EthExtraView,
    Error,
>)
    ensures
        r matches Ok(extra) ==> spec_eth_proof_decision(
            x_lock_address@,
            p.log_entry_data@,
            p.receipt_ok,
            p.inclusion_ok,
        ) is Ok,
        r matches Err(e) ==> spec_eth_proof_decision(
            x_lock_address@,
            p.log_entry_data@,
            p.receipt_ok,
            p.inclusion_ok,
        ) == Err::<(), Error>(e),
{
    let addr = match log_entry_address(&p.log_entry_data) {
        Some(addr) => addr,
        None => {
            return Err(Error::InvalidWitness);
        },
    };
    if !p.receipt_ok {
        return Err(Error::InvalidWitness);
    }
    let addr_hex = hex_encode_bytes(&addr);
    if !crate::codec::bytes_eq(&addr_hex, x_lock_address) {
        return Err(Error::WrongFundingAddr);
    }
    if !p.inclusion_ok {
        return Err(Error::InvalidWitness);
    }
    Ok(EthExtraView {  })
}

/// Bridge a transition verifier to the external SPV engines: normalize
/// proof verification into one fallible call that checks the expected
/// lock address and expected amount and yields the witness-derived extra
/// data on success.
pub fn verify_external_proof(data: &ToCKBCellDataView, witness: WitnessView) -> (r: Result<
    XExtraView,
    Error,
>)
    ensures
        r == spec_verify_external_proof(*data, witness),
{
    match (data.get_xchain_kind(), witness) {
        (XChainKind::Btc, WitnessView::Btc(verdict)) => {
            let lot = match data.get_btc_lot_size() {
                Err(e) => {
                    return Err(e);
                },
                Ok(lot) => lot,
            };
            match verdict {
                BtcProofVerdict::Unsound => Err(Error::InvalidWitness),
                BtcProofVerdict::Sound(report) => {
                    if !crate::codec::bytes_eq(&report.funded_address, &data.x_lock_address) {
                        Err(Error::WrongFundingAddr)
                    } else if report.funded_amount < lot.get_sudt_amount() {
                        Err(Error::InvalidWitness)
                    } else {
                        Ok(XExtraView::Btc(report.extra))
                    }
                },
            }
        },
        (XChainKind::Eth, WitnessView::Eth(p)) => match verify_eth_proof(
            &data.x_lock_address,
            &p,
        ) {
            Ok(extra) => Ok(XExtraView::Eth(extra)),
            Err(e) => Err(e),
        },
        _ => Err(Error::InvalidWitness),
    }
}

} // verus!
