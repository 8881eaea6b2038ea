//! Typed view of a peg record and its chain-specific data.
//!
//! The binary record codec is an external collaborator: a verifier receives
//! the record already projected into these plain fields, and malformed byte
//! layout has been rejected before reaching this crate.

use vstd::prelude::*;

use crate::error::Error;

verus! {

/// Which external chain backs a peg position.
#[derive(Clone, Copy, Debug, PartialEq, Eq, Structural)]
pub enum XChainKind {
    Btc,
    Eth,
}

/// Resolve the chain kind from the discriminant embedded in the pegged-token
/// ownership predicate's arguments. Only two kinds are ever deployed; an
/// unrecognized discriminant is a programming-contract violation and is
/// excluded by precondition rather than reported in-band.
pub fn resolve_kind(discriminant: u8) -> (r: XChainKind)
    requires
        discriminant == 1 || discriminant == 2,
    ensures
        r == (if discriminant == 1 {
            XChainKind::Btc
        } else {
            XChainKind::Eth
        }),
{
    if discriminant == 1 {
        XChainKind::Btc
    } else {
        XChainKind::Eth
    }
}

/// Discrete size classes for a Bitcoin-backed position.
#[derive(Clone, Copy, Debug, PartialEq, Eq, Structural)]
pub enum BtcLotSize {
    /// 0.01 BTC.
    Centi,
    /// 0.1 BTC.
    Deci,
    /// 1 BTC.
    Single,
}

/// Discrete size classes for an Ethereum-backed position.
#[derive(Clone, Copy, Debug, PartialEq, Eq, Structural)]
pub enum EthLotSize {
    /// 0.1 ETH.
    Deci,
    /// 1 ETH.
    Single,
    /// 10 ETH.
    Deca,
}

/// Every lot's pegged amount is at most this (the largest Ethereum lot, in
/// wei).
pub const MAX_LOT_SUDT_AMOUNT: u128 = 10_000_000_000_000_000_000;

impl BtcLotSize {
    /// The pegged-token amount this lot mints, in satoshi.
    pub open spec fn spec_sudt_amount(self) -> u128 {
        match self {
            BtcLotSize::Centi => 1_000_000,
            BtcLotSize::Deci => 10_000_000,
            BtcLotSize::Single => 100_000_000,
        }
    }

    pub fn get_sudt_amount(self) -> (r: u128)
        ensures
            r == self.spec_sudt_amount(),
            r <= MAX_LOT_SUDT_AMOUNT,
    {
        match self {
            BtcLotSize::Centi => 1_000_000,
            BtcLotSize::Deci => 10_000_000,
            BtcLotSize::Single => 100_000_000,
        }
    }
}

impl EthLotSize {
    /// The pegged-token amount this lot mints, in wei.
    pub open spec fn spec_sudt_amount(self) -> u128 {
        match self {
            EthLotSize::Deci => 100_000_000_000_000_000,
            EthLotSize::Single => 1_000_000_000_000_000_000,
            EthLotSize::Deca => 10_000_000_000_000_000_000,
        }
    }

    pub fn get_sudt_amount(self) -> (r: u128)
        ensures
            r == self.spec_sudt_amount(),
            r <= MAX_LOT_SUDT_AMOUNT,
    {
        match self {
            EthLotSize::Deci => 100_000_000_000_000_000,
            EthLotSize::Single => 1_000_000_000_000_000_000,
            EthLotSize::Deca => 10_000_000_000_000_000_000,
        }
    }
}

/// How a raw lot-size byte reads as a Bitcoin size class.
pub open spec fn spec_btc_lot_size(raw: u8) -> Result<BtcLotSize, Error> {
    if raw == 1 {
        Ok(BtcLotSize::Centi)
    } else if raw == 2 {
        Ok(BtcLotSize::Deci)
    } else if raw == 3 {
        Ok(BtcLotSize::Single)
    } else {
        Err(Error::Encoding)
    }
}

/// How a raw lot-size byte reads as an Ethereum size class.
pub open spec fn spec_eth_lot_size(raw: u8) -> Result<EthLotSize, Error> {
    if raw == 1 {
        Ok(EthLotSize::Deci)
    } else if raw == 2 {
        Ok(EthLotSize::Single)
    } else if raw == 3 {
        Ok(EthLotSize::Deca)
    } else {
        Err(Error::Encoding)
    }
}

/// The pegged amount a record's lot size implies, by chain kind; an
/// unassigned lot byte is an encoding rejection.
pub open spec fn spec_lot_amount(kind: XChainKind, raw: u8) -> Result<u128, Error> {
    match kind {
        XChainKind::Btc => match spec_btc_lot_size(raw) {
            Ok(lot) => Ok(lot.spec_sudt_amount()),
            Err(e) => Err(e),
        },
        XChainKind::Eth => match spec_eth_lot_size(raw) {
            Ok(lot) => Ok(lot.spec_sudt_amount()),
            Err(e) => Err(e),
        },
    }
}

/// Witness-derived extra data of a Bitcoin-backed position: the funding
/// outpoint on the external chain.
pub struct BtcExtraView {
    /// Hash of the external transaction that funded the lock address.
    pub lock_tx_hash: Vec<u8>,
    /// Index of the funding output within that transaction.
    pub lock_vout_index: u32,
}

/// Witness-derived extra data of an Ethereum-backed position: an empty
/// marker.
pub struct EthExtraView {}

/// Chain-specific witness-derived data carried by a peg record.
pub enum XExtraView {
    Btc(BtcExtraView),
    Eth(EthExtraView),
}

/// Exact equality of chain-specific extra data.
pub open spec fn spec_x_extra_eq(a: XExtraView, b: XExtraView) -> bool {
    match (a, b) {
        (XExtraView::Btc(x), XExtraView::Btc(y)) => {
            x.lock_tx_hash@ == y.lock_tx_hash@ && x.lock_vout_index == y.lock_vout_index
        },
        (XExtraView::Eth(_), XExtraView::Eth(_)) => true,
        _ => false,
    }
}

/// Decide exact equality of chain-specific extra data.
pub fn x_extra_eq(a: &XExtraView, b: &XExtraView) -> (r: bool)
    ensures
        r == spec_x_extra_eq(*a, *b),
{
    match (a, b) {
        (XExtraView::Btc(x), XExtraView::Btc(y)) => {
            crate::codec::bytes_eq(&x.lock_tx_hash, &y.lock_tx_hash)
                && x.lock_vout_index == y.lock_vout_index
        },
        (XExtraView::Eth(_), XExtraView::Eth(_)) => true,
        _ => false,
    }
}

/// Typed projection of one peg record's bytes.
pub struct ToCKBCellDataView {
    /// Lifecycle state tag; the host selects the verifier from the declared
    /// input/output status pair, and no verifier here mutates it.
    pub status: u8,
    /// Which external chain backs the position.
    pub kind: XChainKind,
    /// Raw discrete size class selecting the pegged amount.
    pub lot_size: u8,
    /// Ownership predicate of the position's user.
    pub user_lockscript: Vec<u8>,
    /// External-chain address the signer must receive funds at.
    pub x_lock_address: Vec<u8>,
    /// Ownership predicate of the designated signer.
    pub signer_lockscript: Vec<u8>,
    /// External-chain address the signer must return funds from.
    pub x_unlock_address: Vec<u8>,
    /// Ownership predicate of the redeemer.
    pub redeemer_lockscript: Vec<u8>,
    /// Ownership predicate of whoever reported the liquidation trigger.
    pub liquidation_trigger_lockscript: Vec<u8>,
    /// Chain-specific witness-derived data.
    pub x_extra: XExtraView,
}

impl ToCKBCellDataView {
    /// The raw lot-size byte.
    pub fn get_raw_lot_size(&self) -> (r: u8)
        ensures
            r == self.lot_size,
    {
        self.lot_size
    }

    /// Which external chain backs the position.
    pub fn get_xchain_kind(&self) -> (r: XChainKind)
        ensures
            r == self.kind,
    {
        self.kind
    }

    /// Read the lot size as a Bitcoin size class.
    pub fn get_btc_lot_size(&self) -> (r: Result<BtcLotSize, Error>)
        ensures
            r == spec_btc_lot_size(self.lot_size),
    {
        if self.lot_size == 1 {
            Ok(BtcLotSize::Centi)
        } else if self.lot_size == 2 {
            Ok(BtcLotSize::Deci)
        } else if self.lot_size == 3 {
            Ok(BtcLotSize::Single)
        } else {
            Err(Error::Encoding)
        }
    }

    /// Read the lot size as an Ethereum size class.
    pub fn get_eth_lot_size(&self) -> (r: Result<EthLotSize, Error>)
        ensures
            r == spec_eth_lot_size(self.lot_size),
    {
        if self.lot_size == 1 {
            Ok(EthLotSize::Deci)
        } else if self.lot_size == 2 {
            Ok(EthLotSize::Single)
        } else if self.lot_size == 3 {
            Ok(EthLotSize::Deca)
        } else {
            Err(Error::Encoding)
        }
    }

    /// The pegged amount this record's lot size implies.
    pub fn lot_amount(&self) -> (r: Result<u128, Error>)
        ensures
            r == spec_lot_amount(self.kind, self.lot_size),
            r matches Ok(v) ==> v <= MAX_LOT_SUDT_AMOUNT,
    {
        match self.kind {
            XChainKind::Btc => match self.get_btc_lot_size() {
                Ok(lot) => Ok(lot.get_sudt_amount()),
                Err(e) => Err(e),
            },
            XChainKind::Eth => match self.get_eth_lot_size() {
                Ok(lot) => Ok(lot.get_sudt_amount()),
                Err(e) => Err(e),
            },
        }
    }
}

/// The input and output peg records of a proposed transition. Either slot
/// may be absent: an absent output means the position closes with this
/// transaction.
pub struct ToCKBCellDataTuple(
    pub Option<ToCKBCellDataView>,
    pub Option<ToCKBCellDataView>,
);

} // verus!
