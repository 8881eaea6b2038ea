//! Dispatch over the declared lifecycle edges.

use tockb::cell::{CellView, InputView, TxView};
use tockb::config::{LOCK_TYPE_FLAG, SIGNER_TIMEOUT_SECONDS, SINCE_TYPE_TIMESTAMP,
    XT_CELL_CAPACITY};
use tockb::error::Error;
use tockb::record::{EthExtraView, ToCKBCellDataTuple, ToCKBCellDataView, XChainKind, XExtraView};
use tockb::switch::{verify_transition, Transition};

fn record() -> ToCKBCellDataView {
    ToCKBCellDataView {
        status: 2,
        kind: XChainKind::Btc,
        lot_size: 1,
        user_lockscript: vec![1, 1],
        x_lock_address: vec![2, 2],
        signer_lockscript: vec![3, 3],
        x_unlock_address: vec![4, 4],
        redeemer_lockscript: vec![5, 5],
        liquidation_trigger_lockscript: vec![6, 6],
        x_extra: XExtraView::Eth(EthExtraView {}),
    }
}

#[test]
fn dispatch_runs_the_liquidation_edge() {
    let tuple = ToCKBCellDataTuple(Some(record()), Some(record()));
    let since = LOCK_TYPE_FLAG | SINCE_TYPE_TIMESTAMP | SIGNER_TIMEOUT_SECONDS;
    let edge = Transition::LiquidationSignerTimeout { since, cap_input: 100, cap_output: 100 };
    assert_eq!(verify_transition(&tuple, edge), Ok(()));

    let edge = Transition::LiquidationSignerTimeout { since, cap_input: 100, cap_output: 99 };
    assert_eq!(verify_transition(&tuple, edge), Err(Error::CapacityInvalid));
}

#[test]
fn dispatch_runs_the_auction_edge() {
    let tuple = ToCKBCellDataTuple(Some(record()), None);
    // A bare transaction: the peg input alone, no bidder funding.
    let tx = TxView {
        inputs: vec![InputView {
            since: LOCK_TYPE_FLAG | SINCE_TYPE_TIMESTAMP,
            cell: CellView {
                capacity: 1000 + XT_CELL_CAPACITY,
                lock: vec![0xee],
                lock_hash: vec![9; 32],
                type_script: None,
                data: vec![],
            },
        }],
        outputs: vec![],
    };
    let edge = Transition::AuctionSignerTimeout { tx };
    assert_eq!(verify_transition(&tuple, edge), Err(Error::FundingNotEnough));
}

#[test]
fn dispatch_runs_the_mint_edge() {
    let tuple = ToCKBCellDataTuple(Some(record()), Some(record()));
    let tx = TxView { inputs: vec![], outputs: vec![] };
    let witness = tockb::spv::WitnessView::Eth(tockb::spv::EthProofView {
        log_entry_data: vec![],
        receipt_ok: false,
        inclusion_ok: false,
    });
    let edge = Transition::MintXT { tx, witness };
    assert_eq!(verify_transition(&tuple, edge), Err(Error::IndexOutOfBound));
}
