//! The block model: plain-value counterparts of a Bitcoin block header and
//! block, the network identifiers, and the trusted computations the chain
//! leans on (header hash, genesis block, merkle root, compact target).

use vstd::prelude::*;

use bitcoin::blockdata::block::BlockHeader as BtcBlockHeader;
use bitcoin::blockdata::constants::genesis_block;
use bitcoin::hash_types::{BlockHash, TxMerkleNode};
use bitcoin::network::constants::Network as BtcNetwork;
use bitcoin::util::hash::bitcoin_merkle_root;
use bitcoin::util::uint::Uint256;

use crate::tx::{from_btc_tx, clone_tx, Transaction, TransactionV, txid_of};
use crate::work::ChainWork;

verus! {

/// The Bitcoin network a chain belongs to.
#[derive(Clone, Copy, Debug, PartialEq, Eq, Structural)]
pub enum Network {
    Bitcoin,
    Testnet,
    Signet,
    Regtest,
}

/// A block header.
#[derive(Clone, Copy, Debug, PartialEq, Eq)]
pub struct Header {
    pub version: i32,
    pub prev_blockhash: [u8; 32],
    pub merkle_root: [u8; 32],
    pub time: u32,
    pub bits: u32,
    pub nonce: u32,
}

pub ghost struct HeaderV {
    pub version: i32,
    pub prev_blockhash: Seq<u8>,
    pub merkle_root: Seq<u8>,
    pub time: u32,
    pub bits: u32,
    pub nonce: u32,
}

impl View for Header {
    type V = HeaderV;

    open spec fn view(&self) -> HeaderV {
        HeaderV {
            version: self.version,
            prev_blockhash: self.prev_blockhash@,
            merkle_root: self.merkle_root@,
            time: self.time,
            bits: self.bits,
            nonce: self.nonce,
        }
    }
}

/// A block: a header plus an ordered sequence of transactions.
#[derive(Clone, Debug, PartialEq, Eq)]
pub struct Block {
    pub header: Header,
    pub txdata: Vec<Transaction>,
}

pub ghost struct BlockV {
    pub header: HeaderV,
    pub txdata: Seq<TransactionV>,
}

impl View for Block {
    type V = BlockV;

    open spec fn view(&self) -> BlockV {
        BlockV { header: self.header@, txdata: self.txdata@.map_values(|t: Transaction| t@) }
    }
}

/// The all-zero 32-byte value, the merkle root of an empty transaction set.
pub open spec fn zero_hash() -> Seq<u8> {
    Seq::new(32, |i: int| 0u8)
}

/// The hash of a block header, a function of its fields alone.
pub uninterp spec fn hash_of_header(h: HeaderV) -> Seq<u8>;

/// The genesis block of a network.
pub uninterp spec fn genesis_of(network: Network) -> BlockV;

/// The merkle root of a non-empty sequence of transaction ids.
pub uninterp spec fn merkle_of(ids: Seq<Seq<u8>>) -> Seq<u8>;

/// Relies on bitcoin's `BlockHeader::block_hash`: the double-SHA256 of the
/// serialized header, a function of its fields alone.
#[verifier::external_body]
pub(crate) fn block_hash_of(h: &Header) -> (r: [u8; 32])
    ensures
        r@ == hash_of_header(h@),
{
    let raw = BtcBlockHeader {
        version: h.version,
        prev_blockhash: <BlockHash as bitcoin::hashes::Hash>::from_inner(h.prev_blockhash),
        merkle_root: <TxMerkleNode as bitcoin::hashes::Hash>::from_inner(h.merkle_root),
        time: h.time, bits: h.bits, nonce: h.nonce,
    };
    bitcoin::hashes::Hash::into_inner(raw.block_hash())
}

/// Relies on bitcoin's `genesis_block`: each network's genesis block is a
/// fixed constant whose header time is at most 1598918400 (the signet
/// genesis, the newest of the four) and whose transaction list holds the
/// single coinbase transaction.
#[verifier::external_body]
pub(crate) fn genesis(network: Network) -> (b: Block)
    ensures
        b@ == genesis_of(network),
        b@.header.time <= 1598918400,
        b@.txdata.len() == 1,
{
    let g = genesis_block(match network {
        Network::Bitcoin => BtcNetwork::Bitcoin,
        Network::Testnet => BtcNetwork::Testnet,
        Network::Signet => BtcNetwork::Signet,
        Network::Regtest => BtcNetwork::Regtest,
    });
    let header = Header {
        version: g.header.version,
        prev_blockhash: bitcoin::hashes::Hash::into_inner(g.header.prev_blockhash),
        merkle_root: bitcoin::hashes::Hash::into_inner(g.header.merkle_root),
        time: g.header.time, bits: g.header.bits, nonce: g.header.nonce,
    };
    Block { header, txdata: g.txdata.iter().map(|t| from_btc_tx(t)).collect() }
}

/// Relies on bitcoin's `bitcoin_merkle_root`: the root is a function of the
/// leaf hashes alone; it is only defined for a non-empty set of leaves.
#[verifier::external_body]
pub(crate) fn merkle_root_bytes(ids: &Vec<[u8; 32]>) -> (r: [u8; 32])
    requires
        ids@.len() >= 1,
    ensures
        r@ == merkle_of(ids@.map_values(|a: [u8; 32]| a@)),
{
    let leaves = ids.iter().map(|a| <bitcoin::hashes::sha256d::Hash as bitcoin::hashes::Hash>::from_inner(*a));
    bitcoin::hashes::Hash::into_inner(bitcoin_merkle_root(leaves).unwrap())
}

/// Relies on bitcoin's `BlockHeader::compact_target_from_u256`: the compact
/// encoding of the all-ones 256-bit target is `0x2100ffff`.
#[verifier::external_body]
pub(crate) fn max_target_bits() -> (r: u32)
    ensures
        r == 0x2100ffff,
{
    BtcBlockHeader::compact_target_from_u256(&Uint256::from_be_bytes([0xff; 32]))
}

/// Relies on bitcoin's `BlockHeader::work`: the work a header's compact
/// target stands for, a function of the header alone.
#[verifier::external_body]
pub(crate) fn header_work(h: &Header) -> (r: ChainWork)
    ensures
        r@ == work_of(h@),
{
    let raw = BtcBlockHeader {
        version: h.version,
        prev_blockhash: <BlockHash as bitcoin::hashes::Hash>::from_inner(h.prev_blockhash),
        merkle_root: <TxMerkleNode as bitcoin::hashes::Hash>::from_inner(h.merkle_root),
        time: h.time, bits: h.bits, nonce: h.nonce,
    };
    let w = raw.work();
    ChainWork { w0: w.0[0], w1: w.0[1], w2: w.0[2], w3: w.0[3] }
}

/// The work a header stands for, a function of the header alone.
pub uninterp spec fn work_of(h: HeaderV) -> int;

/// A copy of a block whose view is the original's.
pub fn clone_block(b: &Block) -> (r: Block)
    ensures
        r@ == b@,
{
    let mut txdata: Vec<Transaction> = Vec::new();
    let mut i: usize = 0;
    while i < b.txdata.len()
        invariant
            i <= b.txdata@.len(),
            txdata@.len() == i,
            forall|m: int| 0 <= m < i ==> txdata@[m]@ == b.txdata@[m]@,
        decreases b.txdata@.len() - i,
    {
        txdata.push(clone_tx(&b.txdata[i]));
        i += 1;
    }
    let r = Block { header: b.header, txdata };
    proof {
        assert(r@.txdata =~= b@.txdata);
    }
    r
}

} // verus!
