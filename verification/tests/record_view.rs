//! The record view: chain kinds and lot tables.

use tockb::error::Error;
use tockb::record::{
    resolve_kind, BtcLotSize, EthExtraView, EthLotSize, ToCKBCellDataView, XChainKind, XExtraView,
};

fn record(kind: XChainKind, lot_size: u8) -> ToCKBCellDataView {
    ToCKBCellDataView {
        status: 1,
        kind,
        lot_size,
        user_lockscript: vec![1],
        x_lock_address: vec![2],
        signer_lockscript: vec![3],
        x_unlock_address: vec![4],
        redeemer_lockscript: vec![5],
        liquidation_trigger_lockscript: vec![6],
        x_extra: XExtraView::Eth(EthExtraView {}),
    }
}

#[test]
fn the_two_deployed_kinds_resolve() {
    assert_eq!(resolve_kind(1), XChainKind::Btc);
    assert_eq!(resolve_kind(2), XChainKind::Eth);
}

#[test]
fn btc_lots_map_to_satoshi_amounts() {
    let r = record(XChainKind::Btc, 1);
    assert_eq!(r.get_btc_lot_size(), Ok(BtcLotSize::Centi));
    assert_eq!(r.lot_amount(), Ok(1_000_000));
    assert_eq!(record(XChainKind::Btc, 2).lot_amount(), Ok(10_000_000));
    assert_eq!(record(XChainKind::Btc, 3).lot_amount(), Ok(100_000_000));
}

#[test]
fn eth_lots_map_to_wei_amounts() {
    let r = record(XChainKind::Eth, 2);
    assert_eq!(r.get_eth_lot_size(), Ok(EthLotSize::Single));
    assert_eq!(r.lot_amount(), Ok(1_000_000_000_000_000_000));
    assert_eq!(record(XChainKind::Eth, 1).lot_amount(), Ok(100_000_000_000_000_000));
    assert_eq!(record(XChainKind::Eth, 3).lot_amount(), Ok(10_000_000_000_000_000_000));
}

#[test]
fn unassigned_lot_bytes_are_encoding_rejections() {
    assert_eq!(record(XChainKind::Btc, 0).lot_amount(), Err(Error::Encoding));
    assert_eq!(record(XChainKind::Btc, 4).lot_amount(), Err(Error::Encoding));
    assert_eq!(record(XChainKind::Eth, 0xff).lot_amount(), Err(Error::Encoding));
    assert_eq!(record(XChainKind::Eth, 9).get_eth_lot_size(), Err(Error::Encoding));
}
