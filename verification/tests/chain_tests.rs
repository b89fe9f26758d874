//! Tests of the simulated blockchain against the real bitcoin primitives.

use bitcoin::hashes::hex::FromHex;
use bitcoin::hashes::Hash as BtcHash;
use teos_fixtures::{Blockchain, ErrorKind, Header, Network};

/// The hash of a model header, recomputed independently with the bitcoin
/// crate.
fn btc_header_hash(h: &Header) -> [u8; 32] {
    let raw = bitcoin::blockdata::block::BlockHeader {
        version: h.version,
        prev_blockhash: bitcoin::hash_types::BlockHash::from_inner(h.prev_blockhash),
        merkle_root: bitcoin::hash_types::TxMerkleNode::from_inner(h.merkle_root),
        time: h.time,
        bits: h.bits,
        nonce: h.nonce,
    };
    raw.block_hash().into_inner()
}

#[test]
fn genesis_tip_regtest() {
    let chain = Blockchain::with_network(Network::Regtest);
    assert_eq!(chain.blocks.len(), 1);
    let tip = chain.tip();
    assert_eq!(tip.data.height, 0);
    let real = bitcoin::blockdata::constants::genesis_block(bitcoin::network::constants::Network::Regtest);
    assert_eq!(tip.data.header.version, real.header.version);
    assert_eq!(tip.data.header.prev_blockhash, real.header.prev_blockhash.into_inner());
    assert_eq!(tip.data.header.merkle_root, real.header.merkle_root.into_inner());
    assert_eq!(tip.data.header.time, real.header.time);
    assert_eq!(tip.data.header.bits, real.header.bits);
    assert_eq!(tip.data.header.nonce, real.header.nonce);
    assert_eq!(tip.hash, real.block_hash().into_inner());
}

#[test]
fn default_is_mainnet_genesis() {
    let chain = Blockchain::default();
    assert_eq!(chain.blocks.len(), 1);
    let real = bitcoin::blockdata::constants::genesis_block(bitcoin::network::constants::Network::Bitcoin);
    assert_eq!(chain.tip().hash, real.block_hash().into_inner());
    assert_eq!(chain.blocks[0].txdata.len(), 1);
    let mut known = Vec::from_hex("000000000019d6689c085ae165831e934ff763ae46a2a6c172b3f1b60a8ce26f").unwrap();
    known.reverse();
    assert_eq!(chain.tip().hash.to_vec(), known);
}

#[test]
fn linear_growth() {
    let chain = Blockchain::with_network(Network::Bitcoin).with_height(5);
    assert_eq!(chain.blocks.len(), 6);
    for i in 1..6 {
        assert_eq!(
            chain.blocks[i].header.prev_blockhash,
            btc_header_hash(&chain.blocks[i - 1].header)
        );
        assert_eq!(chain.blocks[i].header.time, chain.blocks[i - 1].header.time + 5);
        assert_eq!(chain.blocks[i].header.version, 0);
        assert_eq!(chain.blocks[i].header.nonce, 0);
        assert!(chain.blocks[i].txdata.is_empty());
    }
    let hash3 = btc_header_hash(&chain.blocks[3].header);
    let found = chain.get_header(&hash3, None).unwrap();
    assert_eq!(found.height, 3);
    assert_eq!(found.header.prev_blockhash, btc_header_hash(&chain.blocks[2].header));
}

#[test]
fn tip_height_is_len_minus_one() {
    let chain = Blockchain::with_network(Network::Testnet).with_height(7);
    assert_eq!(chain.tip().data.height as usize, chain.blocks.len() - 1);
    assert_eq!(chain.get_block_count(), 8);
}

#[test]
fn with_height_and_txs_builds_merkle_roots() {
    let chain = Blockchain::with_network(Network::Bitcoin).with_height_and_txs(3, Some(4));
    assert_eq!(chain.blocks.len(), 4);
    for i in 1..4 {
        let block = &chain.blocks[i];
        assert_eq!(block.txdata.len(), 4);
        assert_eq!(block.header.time, chain.blocks[i - 1].header.time + 1);
        let hashes = block.txdata.iter().map(|t| {
            let raw = to_btc_tx(t);
            raw.txid().as_hash()
        });
        let expected = bitcoin::util::hash::bitcoin_merkle_root(hashes).unwrap();
        assert_eq!(block.header.merkle_root, expected.into_inner());
        assert_eq!(
            block.header.prev_blockhash,
            btc_header_hash(&chain.blocks[i - 1].header)
        );
    }
}

#[test]
fn with_height_and_txs_default_count() {
    let chain = Blockchain::with_network(Network::Bitcoin).with_height_and_txs(2, None);
    assert_eq!(chain.blocks.len(), 3);
    assert_eq!(chain.blocks[1].txdata.len(), 10);
    assert_eq!(chain.blocks[2].txdata.len(), 10);
}

/// A model transaction rebuilt as a bitcoin crate transaction.
fn to_btc_tx(t: &teos_fixtures::Transaction) -> bitcoin::blockdata::transaction::Transaction {
    bitcoin::blockdata::transaction::Transaction {
        version: t.version,
        lock_time: t.lock_time,
        input: t
            .input
            .iter()
            .map(|i| bitcoin::blockdata::transaction::TxIn {
                previous_output: bitcoin::blockdata::transaction::OutPoint::new(
                    bitcoin::hash_types::Txid::from_inner(i.previous_output.txid),
                    i.previous_output.vout,
                ),
                script_sig: i.script_sig.clone().into(),
                sequence: i.sequence,
                witness: bitcoin::blockdata::witness::Witness::from_vec(i.witness.clone()),
            })
            .collect(),
        output: t
            .output
            .iter()
            .map(|o| bitcoin::blockdata::transaction::TxOut {
                value: o.value,
                script_pubkey: o.script_pubkey.clone().into(),
            })
            .collect(),
    }
}

#[test]
fn fork_shares_prefix_and_diverges() {
    let chain = Blockchain::with_network(Network::Bitcoin).with_height(10);
    let fork = chain.fork_at_height(3);
    assert_eq!(fork.blocks.len(), chain.blocks.len());
    for i in 0..4 {
        assert_eq!(
            btc_header_hash(&fork.blocks[i].header),
            btc_header_hash(&chain.blocks[i].header)
        );
    }
    assert_ne!(
        btc_header_hash(&fork.blocks[4].header),
        btc_header_hash(&chain.blocks[4].header)
    );
    assert_ne!(fork.tip().hash, chain.tip().hash);
    for i in 4..11 {
        assert_eq!(fork.blocks[i].header.nonce, chain.blocks[i].header.nonce + 1);
        assert_eq!(
            fork.blocks[i].header.prev_blockhash,
            btc_header_hash(&fork.blocks[i - 1].header)
        );
    }
}

#[test]
fn header_cache_holds_every_height() {
    let chain = Blockchain::with_network(Network::Bitcoin).with_height(6);
    let tip_height = chain.tip().data.height as usize;
    let cache = chain.header_cache(0, tip_height);
    assert_eq!(cache.entries.len(), tip_height + 1);
    for (k, entry) in cache.entries.iter().enumerate() {
        assert_eq!(entry.header.data.height as usize, k);
        assert_eq!(btc_header_hash(&entry.header.data.header), entry.hash);
        assert_eq!(entry.header.hash, entry.hash);
    }
}

#[test]
fn get_header_round_trip() {
    let chain = Blockchain::with_network(Network::Bitcoin).with_height(4);
    for i in 0..5 {
        let hash = chain.at_height(i).hash;
        let data = chain.get_header(&hash, None).unwrap();
        assert_eq!(data.height as usize, i);
        assert_eq!(btc_header_hash(&data.header), hash);
    }
}

#[test]
fn empty_chain_best_block_fails_transient() {
    let mut chain = Blockchain::with_network(Network::Bitcoin);
    let popped = chain.disconnect_tip();
    assert!(popped.is_some());
    assert!(chain.blocks.is_empty());
    let err = chain.get_best_block().unwrap_err();
    assert_eq!(err.kind, ErrorKind::Transient);
    assert_eq!(err.message, "empty chain");
    assert!(chain.disconnect_tip().is_none());
}

#[test]
fn best_block_reports_tip() {
    let chain = Blockchain::with_network(Network::Bitcoin).with_height(2);
    let (hash, height) = chain.get_best_block().unwrap();
    assert_eq!(height, Some(2));
    assert_eq!(hash, chain.tip().hash);
}

#[test]
fn missing_blocks_serve_headers_but_not_bodies() {
    let chain = Blockchain::with_network(Network::Bitcoin)
        .with_height(10)
        .without_blocks(5);
    let hash4 = btc_header_hash(&chain.blocks[4].header);
    let hash5 = btc_header_hash(&chain.blocks[5].header);
    assert!(chain.get_block(&hash4).is_ok());
    let err = chain.get_block(&hash5).unwrap_err();
    assert_eq!(err.kind, ErrorKind::Persistent);
    assert_eq!(err.message, "block not found");
    assert!(chain.get_header(&hash5, None).is_ok());
}

#[test]
fn unknown_hash_fails_transient() {
    let chain = Blockchain::with_network(Network::Bitcoin).with_height(3);
    let unknown = [0xde; 32];
    let err = chain.get_block(&unknown).unwrap_err();
    assert_eq!(err.kind, ErrorKind::Transient);
    assert_eq!(err.message, "block not found");
    let err = chain.get_header(&unknown, None).unwrap_err();
    assert_eq!(err.kind, ErrorKind::Transient);
    assert_eq!(err.message, "header not found");
}

#[test]
fn disabled_headers_fail_persistent() {
    let chain = Blockchain::with_network(Network::Bitcoin)
        .with_height(3)
        .without_headers();
    for i in 0..4 {
        let hash = btc_header_hash(&chain.blocks[i].header);
        let err = chain.get_header(&hash, None).unwrap_err();
        assert_eq!(err.kind, ErrorKind::Persistent);
        assert_eq!(err.message, "header not found");
    }
    let unknown = [0x11; 32];
    let err = chain.get_header(&unknown, None).unwrap_err();
    assert_eq!(err.kind, ErrorKind::Persistent);
}

#[test]
fn malformed_headers_no_longer_match_their_hash() {
    let chain = Blockchain::with_network(Network::Bitcoin)
        .with_height(3)
        .malformed_headers();
    for i in 0..4 {
        let hash = btc_header_hash(&chain.blocks[i].header);
        let data = chain.get_header(&hash, None).unwrap();
        assert_eq!(data.header.time, chain.blocks[i].header.time + 1);
        assert_ne!(btc_header_hash(&data.header), hash);
    }
}

#[test]
fn get_block_returns_the_stored_block() {
    let mut chain = Blockchain::with_network(Network::Bitcoin);
    let txs = vec![teos_fixtures::get_random_tx(), teos_fixtures::get_random_tx()];
    chain.generate_with_txs(txs.clone());
    assert_eq!(chain.blocks.len(), 2);
    assert_eq!(chain.blocks[1].txdata, txs);
    assert_eq!(chain.blocks[1].header.time, chain.blocks[0].header.time + 1);
    let hash1 = btc_header_hash(&chain.blocks[1].header);
    let block = chain.get_block(&hash1).unwrap();
    assert_eq!(block, chain.blocks[1]);
}

#[test]
fn disconnect_tip_returns_last_block() {
    let mut chain = Blockchain::with_network(Network::Bitcoin).with_height(2);
    let before = chain.blocks[2].clone();
    let popped = chain.disconnect_tip().unwrap();
    assert_eq!(popped, before);
    assert_eq!(chain.blocks.len(), 2);
}

#[test]
fn chainwork_is_genesis_work_plus_height() {
    let chain = Blockchain::with_network(Network::Bitcoin).with_height(9);
    let tip = chain.tip();
    let real = bitcoin::blockdata::constants::genesis_block(bitcoin::network::constants::Network::Bitcoin);
    let expected = real.header.work() + bitcoin::util::uint::Uint256::from_u64(9).unwrap();
    let w = tip.data.chainwork;
    assert_eq!([w.w0, w.w1, w.w2, w.w3], expected.0);
}

#[test]
fn synthetic_blocks_use_the_max_compact_target() {
    let chain = Blockchain::with_network(Network::Bitcoin).with_height(2);
    let max = bitcoin::util::uint::Uint256::from_be_bytes([0xff; 32]);
    let expected = bitcoin::blockdata::block::BlockHeader::compact_target_from_u256(&max);
    assert_eq!(chain.blocks[1].header.bits, expected);
    assert_eq!(chain.blocks[2].header.bits, expected);
    assert_eq!(chain.blocks[1].header.bits, 0x2100ffff);
}

#[test]
fn with_height_zero_leaves_the_chain_alone() {
    let chain = Blockchain::with_network(Network::Signet).with_height(0);
    assert_eq!(chain.blocks.len(), 1);
    assert_eq!(chain.tip().data.height, 0);
}

#[test]
fn without_blocks_from_zero_serves_nothing() {
    let chain = Blockchain::with_network(Network::Bitcoin).with_height(2).without_blocks(0);
    for i in 0..3 {
        let hash = btc_header_hash(&chain.blocks[i].header);
        let err = chain.get_block(&hash).unwrap_err();
        assert_eq!(err.kind, ErrorKind::Persistent);
    }
}
