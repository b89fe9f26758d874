//! Tests of the random transaction builder.

use teos_fixtures::get_random_tx;

#[test]
fn random_tx_shape() {
    let tx = get_random_tx();
    assert_eq!(tx.version, 2);
    assert_eq!(tx.lock_time, 0);
    assert_eq!(tx.input.len(), 1);
    assert_eq!(tx.output.len(), 1);
    let input = &tx.input[0];
    assert!(input.previous_output.vout < 200);
    assert!(input.script_sig.is_empty());
    assert!(input.witness.is_empty());
    assert_eq!(input.sequence, 0);
    let output = &tx.output[0];
    assert!(output.value < 21_000_000_000);
    assert_eq!(output.script_pubkey, vec![0x51]);
}

#[test]
fn random_tx_script_matches_builder() {
    let tx = get_random_tx();
    let reference = bitcoin::blockdata::script::Builder::new().push_int(1).into_script();
    assert_eq!(tx.output[0].script_pubkey, reference.to_bytes());
}

#[test]
fn random_txs_differ() {
    let a = get_random_tx();
    let b = get_random_tx();
    assert_ne!(a.input[0].previous_output.txid, b.input[0].previous_output.txid);
}

