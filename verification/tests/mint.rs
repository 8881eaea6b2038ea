//! The mint edge: collateral release against pegged-token issuance.

use tockb::cell::{sudt_code_hash, CellView, InputView, Script, TxView};
use tockb::config::{PLEDGE, XT_CELL_CAPACITY};
use tockb::error::Error;
use tockb::mint_xt::{verify, verify_capacity};
use tockb::record::{
    BtcExtraView, EthExtraView, ToCKBCellDataTuple, ToCKBCellDataView, XChainKind, XExtraView,
};
use tockb::spv::{BtcProofReport, BtcProofVerdict, WitnessView};

fn peg_lock_hash() -> Vec<u8> {
    vec![9u8; 32]
}

fn xt_script() -> Script {
    Script { code_hash: sudt_code_hash(), hash_type: 0, args: peg_lock_hash() }
}

fn udt_cell(capacity: u64, lock: Vec<u8>, amount: u128) -> CellView {
    CellView {
        capacity,
        lock,
        lock_hash: vec![0xcc; 32],
        type_script: Some(xt_script()),
        data: amount.to_le_bytes().to_vec(),
    }
}

fn btc_extra() -> BtcExtraView {
    BtcExtraView { lock_tx_hash: vec![7u8; 32], lock_vout_index: 1 }
}

fn input_record() -> ToCKBCellDataView {
    ToCKBCellDataView {
        status: 1,
        kind: XChainKind::Btc,
        lot_size: 1,
        user_lockscript: vec![1, 1],
        x_lock_address: vec![2, 2],
        signer_lockscript: vec![3, 3],
        x_unlock_address: vec![4, 4],
        redeemer_lockscript: vec![5, 5],
        liquidation_trigger_lockscript: vec![6, 6],
        x_extra: XExtraView::Eth(EthExtraView {}),
    }
}

fn output_record() -> ToCKBCellDataView {
    let mut r = input_record();
    r.status = 2;
    r.x_extra = XExtraView::Btc(btc_extra());
    r
}

fn mint_tx(user_amount: u128, signer_amount: u128) -> TxView {
    let peg_out_capacity = 500u64;
    let peg_in = CellView {
        capacity: peg_out_capacity + PLEDGE + XT_CELL_CAPACITY,
        lock: vec![0xee],
        lock_hash: peg_lock_hash(),
        type_script: None,
        data: vec![],
    };
    let peg_out = CellView {
        capacity: peg_out_capacity,
        lock: vec![0xee],
        lock_hash: peg_lock_hash(),
        type_script: None,
        data: vec![],
    };
    TxView {
        inputs: vec![InputView { since: 0, cell: peg_in }],
        outputs: vec![
            peg_out,
            udt_cell(PLEDGE, vec![1, 1], user_amount),
            udt_cell(XT_CELL_CAPACITY, vec![3, 3], signer_amount),
        ],
    }
}

fn accepted_witness() -> WitnessView {
    // A sound proof funding the recorded lock address with the full lot.
    WitnessView::Btc(BtcProofVerdict::Sound(BtcProofReport {
        funded_address: vec![2, 2],
        funded_amount: 1_000_000,
        extra: btc_extra(),
    }))
}

#[test]
fn mint_accepts_exact_split() {
    // A BTC lot implying 1,000,000 pegged units, split 990,000/10,000 at
    // the fixed 1% fee.
    let tuple = ToCKBCellDataTuple(Some(input_record()), Some(output_record()));
    let tx = mint_tx(990_000, 10_000);
    assert_eq!(verify(&tuple, &tx, accepted_witness()), Ok(()));
}

#[test]
fn mint_rejects_wrong_rounding_split() {
    let tuple = ToCKBCellDataTuple(Some(input_record()), Some(output_record()));
    let tx = mint_tx(989_000, 11_000);
    assert_eq!(verify(&tuple, &tx, accepted_witness()), Err(Error::InvalidMintOutput));
}

#[test]
fn mint_rejects_swapped_split() {
    let tuple = ToCKBCellDataTuple(Some(input_record()), Some(output_record()));
    let tx = mint_tx(10_000, 990_000);
    assert_eq!(verify(&tuple, &tx, accepted_witness()), Err(Error::InvalidMintOutput));
}

#[test]
fn mint_rejects_wrong_released_capacity() {
    let tuple = ToCKBCellDataTuple(Some(input_record()), Some(output_record()));
    let mut tx = mint_tx(990_000, 10_000);
    tx.inputs[0].cell.capacity += 1;
    assert_eq!(verify(&tuple, &tx, accepted_witness()), Err(Error::CapacityInvalid));
}

#[test]
fn mint_rejects_wrong_pledge_reserve() {
    let tuple = ToCKBCellDataTuple(Some(input_record()), Some(output_record()));
    let mut tx = mint_tx(990_000, 10_000);
    tx.outputs[1].capacity = PLEDGE + 1;
    assert_eq!(verify(&tuple, &tx, accepted_witness()), Err(Error::CapacityInvalid));
    let mut tx = mint_tx(990_000, 10_000);
    tx.outputs[2].capacity = XT_CELL_CAPACITY - 1;
    assert_eq!(verify(&tuple, &tx, accepted_witness()), Err(Error::CapacityInvalid));
}

#[test]
fn mint_rejects_an_unsound_proof() {
    let tuple = ToCKBCellDataTuple(Some(input_record()), Some(output_record()));
    let tx = mint_tx(990_000, 10_000);
    assert_eq!(
        verify(&tuple, &tx, WitnessView::Btc(BtcProofVerdict::Unsound)),
        Err(Error::InvalidWitness)
    );
}

#[test]
fn mint_rejects_a_proof_funding_a_foreign_address() {
    let tuple = ToCKBCellDataTuple(Some(input_record()), Some(output_record()));
    let tx = mint_tx(990_000, 10_000);
    let witness = WitnessView::Btc(BtcProofVerdict::Sound(BtcProofReport {
        funded_address: vec![2, 3],
        funded_amount: 1_000_000,
        extra: btc_extra(),
    }));
    assert_eq!(verify(&tuple, &tx, witness), Err(Error::WrongFundingAddr));
}

#[test]
fn mint_rejects_a_proof_funding_less_than_the_lot() {
    let tuple = ToCKBCellDataTuple(Some(input_record()), Some(output_record()));
    let tx = mint_tx(990_000, 10_000);
    let witness = WitnessView::Btc(BtcProofVerdict::Sound(BtcProofReport {
        funded_address: vec![2, 2],
        funded_amount: 999_999,
        extra: btc_extra(),
    }));
    assert_eq!(verify(&tuple, &tx, witness), Err(Error::InvalidWitness));
}

#[test]
fn mint_accepts_a_proof_funding_more_than_the_lot() {
    let tuple = ToCKBCellDataTuple(Some(input_record()), Some(output_record()));
    let tx = mint_tx(990_000, 10_000);
    let witness = WitnessView::Btc(BtcProofVerdict::Sound(BtcProofReport {
        funded_address: vec![2, 2],
        funded_amount: 1_000_001,
        extra: btc_extra(),
    }));
    assert_eq!(verify(&tuple, &tx, witness), Ok(()));
}

#[test]
fn mint_rejects_witness_of_the_other_chain() {
    let tuple = ToCKBCellDataTuple(Some(input_record()), Some(output_record()));
    let tx = mint_tx(990_000, 10_000);
    let eth_witness = WitnessView::Eth(tockb::spv::EthProofView {
        log_entry_data: vec![],
        receipt_ok: true,
        inclusion_ok: true,
    });
    assert_eq!(verify(&tuple, &tx, eth_witness), Err(Error::InvalidWitness));
}

#[test]
fn mint_rejects_each_mutated_carryover_field() {
    let tx = mint_tx(990_000, 10_000);
    let mutations: Vec<fn(&mut ToCKBCellDataView)> = vec![
        |r| r.signer_lockscript = vec![9],
        |r| r.user_lockscript = vec![9],
        |r| r.lot_size = 2,
        |r| r.x_lock_address = vec![9],
        |r| r.x_extra = XExtraView::Eth(EthExtraView {}),
    ];
    for mutate in mutations {
        let mut output = output_record();
        mutate(&mut output);
        let tuple = ToCKBCellDataTuple(Some(input_record()), Some(output));
        assert_eq!(verify(&tuple, &tx, accepted_witness()), Err(Error::InvalidDataChange));
    }
}

#[test]
fn mint_rejects_wrong_extra_outpoint() {
    let tx = mint_tx(990_000, 10_000);
    let mut output = output_record();
    output.x_extra = XExtraView::Btc(BtcExtraView { lock_tx_hash: vec![8u8; 32], lock_vout_index: 1 });
    let tuple = ToCKBCellDataTuple(Some(input_record()), Some(output));
    assert_eq!(verify(&tuple, &tx, accepted_witness()), Err(Error::InvalidDataChange));
}

#[test]
fn mint_rejects_pegged_tokens_among_inputs() {
    let tuple = ToCKBCellDataTuple(Some(input_record()), Some(output_record()));
    let mut tx = mint_tx(990_000, 10_000);
    tx.inputs.push(InputView { since: 0, cell: udt_cell(10, vec![1, 1], 5) });
    assert_eq!(verify(&tuple, &tx, accepted_witness()), Err(Error::InvalidXTInInputOrOutput));
}

#[test]
fn mint_rejects_extra_pegged_token_output() {
    let tuple = ToCKBCellDataTuple(Some(input_record()), Some(output_record()));
    let mut tx = mint_tx(990_000, 10_000);
    tx.outputs.push(udt_cell(10, vec![1, 1], 5));
    assert_eq!(verify(&tuple, &tx, accepted_witness()), Err(Error::InvalidXTInInputOrOutput));
}

#[test]
fn mint_rejects_user_output_with_foreign_lock() {
    let tuple = ToCKBCellDataTuple(Some(input_record()), Some(output_record()));
    let mut tx = mint_tx(990_000, 10_000);
    tx.outputs[1].lock = vec![0x77];
    assert_eq!(verify(&tuple, &tx, accepted_witness()), Err(Error::InvalidMintOutput));
}

#[test]
fn mint_rejects_malformed_amount_data() {
    let tuple = ToCKBCellDataTuple(Some(input_record()), Some(output_record()));
    let mut tx = mint_tx(990_000, 10_000);
    tx.outputs[1].data = vec![0u8; 8];
    assert_eq!(verify(&tuple, &tx, accepted_witness()), Err(Error::Encoding));
}

#[test]
fn mint_rejects_unassigned_lot_byte() {
    let mut input = input_record();
    let mut output = output_record();
    input.lot_size = 9;
    output.lot_size = 9;
    let tuple = ToCKBCellDataTuple(Some(input), Some(output));
    let tx = mint_tx(990_000, 10_000);
    assert_eq!(verify(&tuple, &tx, accepted_witness()), Err(Error::Encoding));
}

#[test]
fn mint_capacity_check_reports_missing_outputs() {
    let mut tx = mint_tx(990_000, 10_000);
    tx.outputs.truncate(2);
    assert_eq!(verify_capacity(&tx), Err(Error::IndexOutOfBound));
    tx.outputs.truncate(0);
    assert_eq!(verify_capacity(&tx), Err(Error::IndexOutOfBound));
}
