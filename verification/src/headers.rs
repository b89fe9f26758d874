//! Header data as the block-source hands it out: a header with its height
//! and cumulative chainwork, the validated form of it, the two-severity
//! error of the block-source contract, and the pre-populated header cache.

use vstd::prelude::*;

use bitcoin::blockdata::block::BlockHeader as BtcBlockHeader;
use bitcoin::hash_types::{BlockHash, TxMerkleNode};
use bitcoin::util::uint::Uint256;
use lightning_block_sync::poll::Validate;
use lightning_block_sync::BlockHeaderData as LnBlockHeaderData;

use crate::block::{hash_of_header, HeaderV, Header};
use crate::work::ChainWork;

verus! {

broadcast use vstd::string::group_string_axioms;

/// How a caller should treat a block-source failure: retry on a transient
/// one, give this source up on a persistent one.
#[derive(Clone, Copy, Debug, PartialEq, Eq, Structural)]
pub enum ErrorKind {
    Transient,
    Persistent,
}

/// A block-source failure: a severity and a stable message.
#[derive(Clone, Debug)]
pub struct SourceError {
    pub kind: ErrorKind,
    pub message: String,
}

impl SourceError {
    /// A transient failure with the given message.
    pub fn transient(message: &str) -> (r: SourceError)
        ensures
            r.kind == ErrorKind::Transient,
            r.message@ == message@,
    {
        SourceError { kind: ErrorKind::Transient, message: message.to_string() }
    }

    /// A persistent failure with the given message.
    pub fn persistent(message: &str) -> (r: SourceError)
        ensures
            r.kind == ErrorKind::Persistent,
            r.message@ == message@,
    {
        SourceError { kind: ErrorKind::Persistent, message: message.to_string() }
    }
}

/// A header together with its height and cumulative chainwork.
#[derive(Clone, Copy, Debug, PartialEq, Eq)]
pub struct BlockHeaderData {
    pub header: Header,
    pub height: u32,
    pub chainwork: ChainWork,
}

pub ghost struct BlockHeaderDataV {
    pub header: HeaderV,
    pub height: u32,
    pub chainwork: int,
}

impl View for BlockHeaderData {
    type V = BlockHeaderDataV;

    open spec fn view(&self) -> BlockHeaderDataV {
        BlockHeaderDataV { header: self.header@, height: self.height, chainwork: self.chainwork@ }
    }
}

/// Header data that has been validated against a block hash: the header
/// passed its proof-of-work check and hashes to `hash`.
#[derive(Clone, Copy, Debug, PartialEq, Eq)]
pub struct ValidatedHeader {
    pub data: BlockHeaderData,
    pub hash: [u8; 32],
}

pub ghost struct ValidatedHeaderV {
    pub data: BlockHeaderDataV,
    pub hash: Seq<u8>,
}

impl View for ValidatedHeader {
    type V = ValidatedHeaderV;

    open spec fn view(&self) -> ValidatedHeaderV {
        ValidatedHeaderV { data: self.data@, hash: self.hash@ }
    }
}

impl ValidatedHeader {
    /// What validation established: the header hashes to the stored hash
    /// and its proof-of-work check passed.
    pub open spec fn wf(&self) -> bool {
        hash_of_header(self@.data.header) == self@.hash && pow_valid(self@.data.header)
    }
}

/// Whether a header passes the proof-of-work check of the block-source
/// library: its hash, read as a little-endian integer, lies at or below
/// the target its compact `bits` field encodes. A function of the header
/// alone.
pub uninterp spec fn pow_valid(h: HeaderV) -> bool;

/// Relies on lightning_block_sync's `Validate::validate` for header data:
/// it succeeds exactly when the header passes its own proof-of-work check
/// and hashes to the given hash, and returns the data it was handed.
#[verifier::external_body]
pub(crate) fn validate_header_data(d: &BlockHeaderData, hash: &[u8; 32]) -> (r: Option<
    ValidatedHeader,
>)
    ensures
        r is Some <==> (pow_valid(d@.header) && hash_of_header(d@.header) == hash@),
        r is Some ==> r->0@.data == d@ && r->0@.hash == hash@,
{
    let header = BtcBlockHeader {
        version: d.header.version,
        prev_blockhash: <BlockHash as bitcoin::hashes::Hash>::from_inner(d.header.prev_blockhash),
        merkle_root: <TxMerkleNode as bitcoin::hashes::Hash>::from_inner(d.header.merkle_root),
        time: d.header.time, bits: d.header.bits, nonce: d.header.nonce,
    };
    let cw = Uint256([d.chainwork.w0, d.chainwork.w1, d.chainwork.w2, d.chainwork.w3]);
    let raw = LnBlockHeaderData { header, height: d.height, chainwork: cw };
    match raw.validate(<BlockHash as bitcoin::hashes::Hash>::from_inner(*hash)) {
        Ok(_) => Some(ValidatedHeader { data: *d, hash: *hash }),
        Err(_) => None,
    }
}

/// One entry of a header cache: a block hash and the validated header
/// stored under it.
#[derive(Clone, Copy, Debug)]
pub struct CacheEntry {
    pub hash: [u8; 32],
    pub header: ValidatedHeader,
}

pub ghost struct CacheEntryV {
    pub hash: Seq<u8>,
    pub header: ValidatedHeaderV,
}

impl View for CacheEntry {
    type V = CacheEntryV;

    open spec fn view(&self) -> CacheEntryV {
        CacheEntryV { hash: self.hash@, header: self.header@ }
    }
}

/// A mapping from block hash to validated header, kept as entries in
/// ascending height order with pairwise distinct hashes.
#[derive(Clone, Debug)]
pub struct HeaderCache {
    pub entries: Vec<CacheEntry>,
}

impl View for HeaderCache {
    type V = Seq<CacheEntryV>;

    open spec fn view(&self) -> Seq<CacheEntryV> {
        self.entries@.map_values(|e: CacheEntry| e@)
    }
}

} // verus!
