//! The simulated blockchain: a mutable in-memory chain seeded at genesis,
//! with builder-style misbehavior knobs, extension, truncation and forking,
//! queries for validated headers, and the block-source read operations.

use vstd::prelude::*;

use crate::block::{
    block_hash_of, clone_block, genesis, genesis_of, hash_of_header, max_target_bits,
    merkle_root_bytes, work_of, zero_hash, Block, BlockV, HeaderV, Header, Network,
};
use crate::bytes::array32_eq;
use crate::headers::{
    pow_valid, validate_header_data, BlockHeaderData, CacheEntry, ErrorKind, HeaderCache,
    SourceError, ValidatedHeader,
};
use crate::tx::{get_random_tx, txid_bytes, txid_of, Transaction};
use crate::work::pow2_256;

verus! {

broadcast use vstd::string::group_string_axioms;

/// The chainwork the simulation reports at a height: the work of the
/// genesis header plus one unit per height, wrapping modulo 2^256. A
/// deliberate simplification: tests only need a monotone comparator.
pub open spec fn chainwork_at(genesis_header: HeaderV, height: int) -> int {
    (work_of(genesis_header) + height) % pow2_256()
}

/// The least index at or after `k` whose block header hashes to `hash`.
pub open spec fn find_from(blocks: Seq<BlockV>, hash: Seq<u8>, k: int) -> Option<int>
    decreases blocks.len() - k,
{
    if k < 0 || k >= blocks.len() {
        None
    } else if hash_of_header(blocks[k].header) == hash {
        Some(k)
    } else {
        find_from(blocks, hash, k + 1)
    }
}

/// The height of the block whose header hashes to `hash`, scanning from
/// the bottom of the chain.
pub open spec fn find_height(blocks: Seq<BlockV>, hash: Seq<u8>) -> Option<int> {
    find_from(blocks, hash, 0)
}

/// `count` empty blocks appended to `old_blocks`, each linked to its
/// predecessor's hash, with the fixed synthetic header fields and the time
/// advanced by `delta` per block.
pub open spec fn extended_by_empty(
    old_blocks: Seq<BlockV>,
    new_blocks: Seq<BlockV>,
    count: int,
    delta: int,
) -> bool {
    &&& new_blocks.len() == old_blocks.len() + count
    &&& forall|i: int| 0 <= i < old_blocks.len() ==> new_blocks[i] == old_blocks[i]
    &&& forall|i: int|
        old_blocks.len() <= i < new_blocks.len() ==> {
            &&& (#[trigger] new_blocks[i]).header.prev_blockhash == hash_of_header(
                new_blocks[i - 1].header,
            )
            &&& new_blocks[i].header.version == 0
            &&& new_blocks[i].header.merkle_root == zero_hash()
            &&& new_blocks[i].header.time == new_blocks[i - 1].header.time + delta
            &&& new_blocks[i].header.bits == 0x2100ffff
            &&& new_blocks[i].header.nonce == 0
            &&& new_blocks[i].txdata.len() == 0
        }
}

/// The scan that backs `get_header` and `get_block` finds a block at its
/// own height: when no block below `i` shares block `i`'s hash, looking
/// that hash up yields exactly height `i`.
pub proof fn lemma_find_height_of_block(blocks: Seq<BlockV>, i: int)
    requires
        0 <= i < blocks.len(),
        forall|j: int|
            0 <= j < i ==> hash_of_header((#[trigger] blocks[j]).header) != hash_of_header(
                blocks[i].header,
            ),
    ensures
        find_height(blocks, hash_of_header(blocks[i].header)) == Some(i),
{
    lemma_find_from_reaches(blocks, hash_of_header(blocks[i].header), 0, i);
}

/// The scan from `k` returns `Some(i)` when block `i` matches and no
/// block in `[k, i)` does.
proof fn lemma_find_from_reaches(blocks: Seq<BlockV>, hash: Seq<u8>, k: int, i: int)
    requires
        0 <= k <= i < blocks.len(),
        hash_of_header(blocks[i].header) == hash,
        forall|j: int|
            k <= j < i ==> hash_of_header((#[trigger] blocks[j]).header) != hash,
    ensures
        find_from(blocks, hash, k) == Some(i),
    decreases i - k,
{
    if k < i {
        lemma_find_from_reaches(blocks, hash, k + 1, i);
    }
}

/// Growing a chain that holds exactly a network's genesis block by `h`
/// empty blocks gives a chain of length `h + 1` in which every
/// non-genesis block names its predecessor's hash as its previous block
/// hash.
pub proof fn lemma_genesis_growth(c0: BlockchainV, c1: BlockchainV, network: Network, h: int)
    requires
        h >= 0,
        c0.blocks.len() == 1,
        c0.blocks[0] == genesis_of(network),
        extended_by_empty(c0.blocks, c1.blocks, h, h),
    ensures
        c1.blocks.len() == h + 1,
        c1.blocks[0] == genesis_of(network),
        forall|i: int|
            1 <= i <= h ==> (#[trigger] c1.blocks[i]).header.prev_blockhash == hash_of_header(
                c1.blocks[i - 1].header,
            ),
{
}

/// An in-memory simulated blockchain. Index 0 is genesis; the last block is
/// the tip. The knobs make the block-source operations misbehave: a height
/// bound whose block bodies are not served, disabled header lookups, and
/// tampered header lookups.
#[derive(Debug)]
pub struct Blockchain {
    pub blocks: Vec<Block>,
    without_blocks: Option<usize>,
    without_headers: bool,
    malformed_headers: bool,
}

pub ghost struct BlockchainV {
    pub blocks: Seq<BlockV>,
    pub without_blocks: Option<usize>,
    pub without_headers: bool,
    pub malformed_headers: bool,
}

impl View for Blockchain {
    type V = BlockchainV;

    closed spec fn view(&self) -> BlockchainV {
        BlockchainV {
            blocks: self.blocks@.map_values(|b: Block| b@),
            without_blocks: self.without_blocks,
            without_headers: self.without_headers,
            malformed_headers: self.malformed_headers,
        }
    }
}

impl Blockchain {
    /// A chain holding only the genesis block of the given network, with
    /// every misbehavior knob off.
    pub fn with_network(network: Network) -> (r: Blockchain)
        ensures
            r@.blocks.len() == 1,
            r@.blocks[0] == genesis_of(network),
            r@.blocks[0].header.time <= 1598918400,
            r@.without_blocks is None,
            !r@.without_headers,
            !r@.malformed_headers,
    {
        let g = genesis(network);
        let mut blocks: Vec<Block> = Vec::new();
        blocks.push(g);
        let r = Blockchain {
            blocks,
            without_blocks: None,
            without_headers: false,
            malformed_headers: false,
        };
        proof {
            assert(r@.blocks =~= seq![genesis_of(network)]);
        }
        r
    }

    /// A mainnet chain holding only the genesis block.
    pub fn default() -> (r: Blockchain)
        ensures
            r@.blocks.len() == 1,
            r@.blocks[0] == genesis_of(Network::Bitcoin),
            r@.without_blocks is None,
            !r@.without_headers,
            !r@.malformed_headers,
    {
        Blockchain::with_network(Network::Bitcoin)
    }

    /// Extends the chain by `height` empty blocks. Each new block links to
    /// its predecessor and advances the time by `height` — the target
    /// count, not 1 — a deliberate quirk of this fixture that tests rely
    /// on.
    pub fn with_height(self, height: usize) -> (r: Blockchain)
        requires
            self@.blocks.len() >= 1,
            self@.blocks[self@.blocks.len() - 1].header.time + height * height <= u32::MAX,
        ensures
            extended_by_empty(self@.blocks, r@.blocks, height as int, height as int),
            r@.without_blocks == self@.without_blocks,
            r@.without_headers == self@.without_headers,
            r@.malformed_headers == self@.malformed_headers,
    {
        let ghost t0 = self@.blocks[self@.blocks.len() - 1].header.time as int;
        let mut chain = self;
        let bits = max_target_bits();
        let mut i: usize = 0;
        while i < height
            invariant
                i <= height,
                self@.blocks.len() >= 1,
                chain@.blocks.len() >= 1,
                bits == 0x2100ffff,
                extended_by_empty(self@.blocks, chain@.blocks, i as int, height as int),
                chain@.blocks[chain@.blocks.len() - 1].header.time == t0 + i * height,
                t0 + height * height <= u32::MAX,
                chain@.without_blocks == self@.without_blocks,
                chain@.without_headers == self@.without_headers,
                chain@.malformed_headers == self@.malformed_headers,
            decreases height - i,
        {
            proof {
                assert((i + 1) * height <= height * height) by (nonlinear_arith)
                    requires
                        0 <= i,
                        i + 1 <= height,
                ;
                assert(i * height + height == (i + 1) * height) by (nonlinear_arith);
            }
            let last = last_index(&chain.blocks);
            let prev_hash = block_hash_of(&chain.blocks[last].header);
            let time = chain.blocks[last].header.time + height as u32;
            let b = Block {
                header: Header {
                    version: 0,
                    prev_blockhash: prev_hash,
                    merkle_root: [0; 32],
                    time,
                    bits,
                    nonce: 0,
                },
                txdata: Vec::new(),
            };
            proof {
                assert(b@.header.merkle_root =~= zero_hash());
                assert(b@.txdata =~= Seq::<crate::tx::TransactionV>::empty());
            }
            let ghost pre = chain@.blocks;
            chain.blocks.push(b);
            i += 1;
            proof {
                assert(chain@.blocks =~= pre.push(b@));
                assert forall|k: int|
                    self@.blocks.len() <= k < chain@.blocks.len() implies {
                        &&& (#[trigger] chain@.blocks[k]).header.prev_blockhash == hash_of_header(
                            chain@.blocks[k - 1].header,
                        )
                        &&& chain@.blocks[k].header.version == 0
                        &&& chain@.blocks[k].header.merkle_root == zero_hash()
                        &&& chain@.blocks[k].header.time == chain@.blocks[k - 1].header.time
                            + height
                        &&& chain@.blocks[k].header.bits == 0x2100ffff
                        &&& chain@.blocks[k].header.nonce == 0
                        &&& chain@.blocks[k].txdata.len() == 0
                    } by {
                    if k < pre.len() {
                        assert(chain@.blocks[k] == pre[k]);
                        assert(chain@.blocks[k - 1] == pre[k - 1]);
                    } else {
                        assert(chain@.blocks[k] == b@);
                        assert(chain@.blocks[k - 1] == pre[k - 1]);
                    }
                }
            }
        }
        chain
    }

    /// Extends the chain by `height` blocks, each holding `tx_count`
    /// (default 10) random transactions; the time advances by 1 per block.
    #[verifier::rlimit(100)]
    pub fn with_height_and_txs(self, height: usize, tx_count: Option<u8>) -> (r: Blockchain)
        requires
            self@.blocks.len() >= 1,
            self@.blocks[self@.blocks.len() - 1].header.time + height <= u32::MAX,
        ensures
            r@.blocks.len() == self@.blocks.len() + height,
            forall|i: int| 0 <= i < self@.blocks.len() ==> r@.blocks[i] == self@.blocks[i],
            forall|i: int|
                self@.blocks.len() <= i < r@.blocks.len() ==> {
                    &&& (#[trigger] r@.blocks[i]).txdata.len() == (match tx_count {
                        Some(n) => n as int,
                        None => 10,
                    })
                    &&& r@.blocks[i].header.prev_blockhash == hash_of_header(
                        r@.blocks[i - 1].header,
                    )
                    &&& r@.blocks[i].header.time == r@.blocks[i - 1].header.time + 1
                    &&& r@.blocks[i].header.version == 0
                    &&& r@.blocks[i].header.nonce == 0
                    &&& r@.blocks[i].header.bits == 0x2100ffff
                    &&& r@.blocks[i].header.merkle_root == (if r@.blocks[i].txdata.len() == 0 {
                        zero_hash()
                    } else {
                        merkle_of_txs(r@.blocks[i].txdata)
                    })
                },
            r@.without_blocks == self@.without_blocks,
            r@.without_headers == self@.without_headers,
            r@.malformed_headers == self@.malformed_headers,
    {
        let count: u8 = match tx_count {
            Some(x) => x,
            None => 10,
        };
        let ghost t0 = self@.blocks[self@.blocks.len() - 1].header.time as int;
        let mut chain = self;
        let mut i: usize = 0;
        while i < height
            invariant
                i <= height,
                self@.blocks.len() >= 1,
                chain@.blocks.len() == self@.blocks.len() + i,
                chain@.blocks.len() >= 1,
                forall|k: int| 0 <= k < self@.blocks.len() ==> chain@.blocks[k] == self@.blocks[k],
                forall|k: int|
                    self@.blocks.len() <= k < chain@.blocks.len() ==> {
                        &&& (#[trigger] chain@.blocks[k]).txdata.len() == count as int
                        &&& chain@.blocks[k].header.prev_blockhash == hash_of_header(
                            chain@.blocks[k - 1].header,
                        )
                        &&& chain@.blocks[k].header.time == chain@.blocks[k - 1].header.time + 1
                        &&& chain@.blocks[k].header.version == 0
                        &&& chain@.blocks[k].header.nonce == 0
                        &&& chain@.blocks[k].header.bits == 0x2100ffff
                        &&& chain@.blocks[k].header.merkle_root == (if chain@.blocks[k].txdata.len()
                            == 0 {
                            zero_hash()
                        } else {
                            merkle_of_txs(chain@.blocks[k].txdata)
                        })
                    },
                chain@.blocks[chain@.blocks.len() - 1].header.time == t0 + i,
                t0 + height <= u32::MAX,
                chain@.without_blocks == self@.without_blocks,
                chain@.without_headers == self@.without_headers,
                chain@.malformed_headers == self@.malformed_headers,
            decreases height - i,
        {
            let mut txs: Vec<Transaction> = Vec::new();
            let mut j: usize = 0;
            while j < count as usize
                invariant
                    j <= count as usize,
                    txs@.len() == j,
                decreases count as usize - j,
            {
                txs.push(get_random_tx());
                j += 1;
            }
            let ghost pre = chain@;
            chain.generate_with_txs(txs);
            i += 1;
            proof {
                assert forall|k: int|
                    self@.blocks.len() <= k < chain@.blocks.len() implies {
                        &&& (#[trigger] chain@.blocks[k]).txdata.len() == count as int
                        &&& chain@.blocks[k].header.prev_blockhash == hash_of_header(
                            chain@.blocks[k - 1].header,
                        )
                        &&& chain@.blocks[k].header.time == chain@.blocks[k - 1].header.time + 1
                        &&& chain@.blocks[k].header.version == 0
                        &&& chain@.blocks[k].header.nonce == 0
                        &&& chain@.blocks[k].header.bits == 0x2100ffff
                        &&& chain@.blocks[k].header.merkle_root == (if chain@.blocks[k].txdata.len()
                            == 0 {
                            zero_hash()
                        } else {
                            merkle_of_txs(chain@.blocks[k].txdata)
                        })
                    } by {
                    if k < chain@.blocks.len() - 1 {
                        assert(chain@.blocks[k] == pre.blocks[k]);
                        assert(chain@.blocks[k - 1] == pre.blocks[k - 1]);
                    } else {
                        assert(chain@.blocks.last().txdata.len() == count as int);
                        assert(chain@.blocks[k - 1] == pre.blocks[k - 1]);
                    }
                }
            }
        }
        chain
    }

    /// Refuses to serve block bodies at heights at or above `from`;
    /// headers are still served.
    pub fn without_blocks(self, from: usize) -> (r: Blockchain)
        ensures
            r@.blocks == self@.blocks,
            r@.without_blocks == Some(from),
            r@.without_headers == self@.without_headers,
            r@.malformed_headers == self@.malformed_headers,
    {
        Blockchain { without_blocks: Some(from), ..self }
    }

    /// Makes every header lookup fail persistently.
    pub fn without_headers(self) -> (r: Blockchain)
        ensures
            r@.blocks == self@.blocks,
            r@.without_blocks == self@.without_blocks,
            r@.without_headers,
            r@.malformed_headers == self@.malformed_headers,
    {
        Blockchain { without_headers: true, ..self }
    }

    /// Makes every header lookup return a tampered header whose time is
    /// one above the stored one, so it no longer hashes to the queried
    /// hash.
    pub fn malformed_headers(self) -> (r: Blockchain)
        ensures
            r@.blocks == self@.blocks,
            r@.without_blocks == self@.without_blocks,
            r@.without_headers == self@.without_headers,
            r@.malformed_headers,
    {
        Blockchain { malformed_headers: true, ..self }
    }

    /// A new chain sharing blocks `0..=height` with this one, whose later
    /// blocks are relinked with their nonce incremented, so each differs
    /// from the original. The missing-blocks knob is cleared; the header
    /// knobs are inherited.
    pub fn fork_at_height(&self, height: usize) -> (r: Blockchain)
        requires
            height + 1 < self@.blocks.len(),
            forall|i: int|
                height < i < self@.blocks.len() ==> (#[trigger] self@.blocks[i]).header.nonce
                    < u32::MAX,
        ensures
            r@.blocks.len() == self@.blocks.len(),
            forall|i: int| 0 <= i <= height ==> r@.blocks[i] == self@.blocks[i],
            forall|i: int|
                height < i < r@.blocks.len() ==> {
                    &&& (#[trigger] r@.blocks[i]).header.prev_blockhash == hash_of_header(
                        r@.blocks[i - 1].header,
                    )
                    &&& r@.blocks[i].header.nonce == self@.blocks[i].header.nonce + 1
                    &&& r@.blocks[i].header.version == self@.blocks[i].header.version
                    &&& r@.blocks[i].header.merkle_root == self@.blocks[i].header.merkle_root
                    &&& r@.blocks[i].header.time == self@.blocks[i].header.time
                    &&& r@.blocks[i].header.bits == self@.blocks[i].header.bits
                    &&& r@.blocks[i].txdata == self@.blocks[i].txdata
                    &&& r@.blocks[i].header != self@.blocks[i].header
                },
            r@.without_blocks is None,
            r@.without_headers == self@.without_headers,
            r@.malformed_headers == self@.malformed_headers,
    {
        let n = self.blocks.len();
        let mut blocks: Vec<Block> = Vec::new();
        let mut i: usize = 0;
        while i <= height
            invariant
                n == self@.blocks.len(),
                height + 1 < n,
                i <= height + 1,
                blocks@.len() == i,
                forall|k: int| 0 <= k < i ==> blocks@[k]@ == self@.blocks[k],
            decreases height + 1 - i,
        {
            blocks.push(clone_block(&self.blocks[i]));
            i += 1;
        }
        let mut prev_hash = block_hash_of(&self.blocks[height].header);
        proof {
            assert(blocks@[height as int]@ == self@.blocks[height as int]);
        }
        while i < n
            invariant
                n == self@.blocks.len(),
                height + 1 <= i <= n,
                blocks@.len() == i,
                forall|k: int| 0 <= k <= height ==> blocks@[k]@ == self@.blocks[k],
                forall|k: int|
                    height < k < i ==> {
                        &&& (#[trigger] blocks@[k]@).header.prev_blockhash == hash_of_header(
                            blocks@[k - 1]@.header,
                        )
                        &&& blocks@[k]@.header.nonce == self@.blocks[k].header.nonce + 1
                        &&& blocks@[k]@.header.version == self@.blocks[k].header.version
                        &&& blocks@[k]@.header.merkle_root == self@.blocks[k].header.merkle_root
                        &&& blocks@[k]@.header.time == self@.blocks[k].header.time
                        &&& blocks@[k]@.header.bits == self@.blocks[k].header.bits
                        &&& blocks@[k]@.txdata == self@.blocks[k].txdata
                    },
                prev_hash@ == hash_of_header(blocks@[i - 1]@.header),
                forall|k: int|
                    height < k < self@.blocks.len() ==> (#[trigger] self@.blocks[k]).header.nonce
                        < u32::MAX,
            decreases n - i,
        {
            let src = clone_block(&self.blocks[i]);
            proof {
                assert(src@ == self@.blocks[i as int]);
                assert(self@.blocks[i as int].header.nonce < u32::MAX);
            }
            let b = Block {
                header: Header {
                    version: src.header.version,
                    prev_blockhash: prev_hash,
                    merkle_root: src.header.merkle_root,
                    time: src.header.time,
                    bits: src.header.bits,
                    nonce: src.header.nonce + 1,
                },
                txdata: src.txdata,
            };
            prev_hash = block_hash_of(&b.header);
            blocks.push(b);
            i += 1;
        }
        let r = Blockchain {
            blocks,
            without_blocks: None,
            without_headers: self.without_headers,
            malformed_headers: self.malformed_headers,
        };
        proof {
            assert(r@.blocks.len() == self@.blocks.len());
        }
        r
    }

    /// The unvalidated header data at a height: the stored header, the
    /// height itself, and the simulated chainwork.
    fn at_height_unvalidated(&self, height: usize) -> (r: BlockHeaderData)
        requires
            self@.blocks.len() >= 1,
            height < self@.blocks.len(),
            height <= u32::MAX,
        ensures
            r@.header == self@.blocks[height as int].header,
            r@.height == height,
            r@.chainwork == chainwork_at(self@.blocks[0].header, height as int),
    {
        let work = crate::block::header_work(&self.blocks[0].header);
        let chainwork = work.add_u64(height as u64);
        BlockHeaderData { header: self.blocks[height].header, height: height as u32, chainwork }
    }

    /// The validated header at a height. The proof-of-work check is the
    /// block-source library's; the fixture demands that it passes.
    pub fn at_height(&self, height: usize) -> (r: ValidatedHeader)
        requires
            self@.blocks.len() >= 1,
            height < self@.blocks.len(),
            height <= u32::MAX,
            pow_valid(self@.blocks[height as int].header),
        ensures
            r@.data.header == self@.blocks[height as int].header,
            r@.data.height == height,
            r@.data.chainwork == chainwork_at(self@.blocks[0].header, height as int),
            r@.hash == hash_of_header(self@.blocks[height as int].header),
            r.wf(),
    {
        let data = self.at_height_unvalidated(height);
        let hash = block_hash_of(&self.blocks[height].header);
        validate_header_data(&data, &hash).unwrap()
    }

    /// The validated header of the tip; its height is the chain length
    /// minus one.
    pub fn tip(&self) -> (r: ValidatedHeader)
        requires
            self@.blocks.len() >= 1,
            self@.blocks.len() - 1 <= u32::MAX,
            pow_valid(self@.blocks[self@.blocks.len() - 1].header),
        ensures
            r@.data.height == self@.blocks.len() - 1,
            r@.data.header == self@.blocks[self@.blocks.len() - 1].header,
            r@.data.chainwork == chainwork_at(
                self@.blocks[0].header,
                self@.blocks.len() - 1,
            ),
            r@.hash == hash_of_header(self@.blocks[self@.blocks.len() - 1].header),
            r.wf(),
    {
        self.at_height(self.blocks.len() - 1)
    }

    /// Removes and returns the tip, or nothing on an empty chain.
    pub fn disconnect_tip(&mut self) -> (r: Option<Block>)
        ensures
            old(self)@.blocks.len() == 0 ==> r is None && final(self)@ == old(self)@,
            old(self)@.blocks.len() > 0 ==> {
                &&& r is Some
                &&& r->0@ == old(self)@.blocks[old(self)@.blocks.len() - 1]
                &&& final(self)@.blocks == old(self)@.blocks.drop_last()
            },
            final(self)@.without_blocks == old(self)@.without_blocks,
            final(self)@.without_headers == old(self)@.without_headers,
            final(self)@.malformed_headers == old(self)@.malformed_headers,
    {
        let r = self.blocks.pop();
        proof {
            if old(self)@.blocks.len() == 0 {
                assert(self@.blocks =~= old(self)@.blocks);
            } else {
                assert(self@.blocks =~= old(self)@.blocks.drop_last());
            }
        }
        r
    }

    /// Appends one block holding exactly `txs`, linked to the tip, with
    /// the time advanced by 1.
    pub fn generate_with_txs(&mut self, txs: Vec<Transaction>)
        requires
            old(self)@.blocks.len() >= 1,
            old(self)@.blocks[old(self)@.blocks.len() - 1].header.time + 1 <= u32::MAX,
        ensures
            final(self)@.blocks.len() == old(self)@.blocks.len() + 1,
            forall|i: int|
                0 <= i < old(self)@.blocks.len() ==> (#[trigger] final(self)@.blocks[i]) == old(
                    self,
                )@.blocks[i],
            final(self)@.blocks.last().txdata == txs@.map_values(|t: Transaction| t@),
            final(self)@.blocks.last().header.prev_blockhash == hash_of_header(
                old(self)@.blocks[old(self)@.blocks.len() - 1].header,
            ),
            final(self)@.blocks.last().header.time == old(self)@.blocks[old(self)@.blocks.len()
                - 1].header.time + 1,
            final(self)@.blocks.last().header.version == 0,
            final(self)@.blocks.last().header.nonce == 0,
            final(self)@.blocks.last().header.bits == 0x2100ffff,
            final(self)@.blocks.last().header.merkle_root == (if txs@.len() == 0 {
                zero_hash()
            } else {
                merkle_of_txs(txs@.map_values(|t: Transaction| t@))
            }),
            final(self)@.without_blocks == old(self)@.without_blocks,
            final(self)@.without_headers == old(self)@.without_headers,
            final(self)@.malformed_headers == old(self)@.malformed_headers,
    {
        let bits = max_target_bits();
        let last = last_index(&self.blocks);
        let prev_blockhash = block_hash_of(&self.blocks[last].header);
        let time = self.blocks[last].header.time + 1;
        let mut ids: Vec<[u8; 32]> = Vec::new();
        let mut j: usize = 0;
        while j < txs.len()
            invariant
                j <= txs@.len(),
                ids@.len() == j,
                forall|m: int| 0 <= m < j ==> ids@[m]@ == txid_of(txs@[m]@),
            decreases txs@.len() - j,
        {
            ids.push(txid_bytes(&txs[j]));
            j += 1;
        }
        let merkle_root: [u8; 32] = if ids.len() == 0 {
            [0; 32]
        } else {
            merkle_root_bytes(&ids)
        };
        proof {
            if txs@.len() == 0 {
                assert(merkle_root@ =~= zero_hash());
            } else {
                assert(ids@.map_values(|a: [u8; 32]| a@) =~= txs@.map_values(
                    |t: Transaction| t@,
                ).map_values(|t: crate::tx::TransactionV| txid_of(t)));
            }
        }
        let b = Block {
            header: Header {
                version: 0,
                prev_blockhash,
                merkle_root,
                time,
                bits,
                nonce: 0,
            },
            txdata: txs,
        };
        self.blocks.push(b);
    }

    /// A cache mapping block hash to validated header for every height in
    /// `from..=to`. The fixture demands pairwise distinct hashes, as the
    /// real cache would refuse a duplicate insertion.
    pub fn header_cache(&self, from: usize, to: usize) -> (r: HeaderCache)
        requires
            from <= to ==> to < self@.blocks.len(),
            to <= u32::MAX,
            self@.blocks.len() >= 1,
            forall|i: int|
                from <= i <= to ==> pow_valid((#[trigger] self@.blocks[i]).header),
            forall|i: int, j: int|
                from <= i <= to && from <= j <= to && i != j ==> hash_of_header(
                    self@.blocks[i].header,
                ) != hash_of_header(self@.blocks[j].header),
        ensures
            from > to ==> r@.len() == 0,
            from <= to ==> r@.len() == to - from + 1,
            forall|k: int|
                0 <= k < r@.len() ==> {
                    &&& (#[trigger] r@[k]).hash == hash_of_header(
                        self@.blocks[from + k].header,
                    )
                    &&& r@[k].header.hash == r@[k].hash
                    &&& r@[k].header.data.header == self@.blocks[from + k].header
                    &&& r@[k].header.data.height == from + k
                    &&& r@[k].header.data.chainwork == chainwork_at(
                        self@.blocks[0].header,
                        from + k,
                    )
                },
            forall|k1: int, k2: int|
                0 <= k1 < r@.len() && 0 <= k2 < r@.len() && k1 != k2 ==> r@[k1].hash
                    != r@[k2].hash,
    {
        let mut entries: Vec<CacheEntry> = Vec::new();
        if from > to {
            return HeaderCache { entries };
        }
        let n = self.blocks.len();
        let mut i: usize = from;
        while i <= to
            invariant
                n == self@.blocks.len(),
                from <= i <= to + 1,
                to < n,
                to <= u32::MAX,
                n >= 1,
                entries@.len() == i - from,
                forall|m: int|
                    from <= m <= to ==> pow_valid((#[trigger] self@.blocks[m]).header),
                forall|k: int|
                    0 <= k < entries@.len() ==> {
                        &&& (#[trigger] entries@[k]@).hash == hash_of_header(
                            self@.blocks[from + k].header,
                        )
                        &&& entries@[k]@.header.hash == entries@[k]@.hash
                        &&& entries@[k]@.header.data.header == self@.blocks[from + k].header
                        &&& entries@[k]@.header.data.height == from + k
                        &&& entries@[k]@.header.data.chainwork == chainwork_at(
                            self@.blocks[0].header,
                            from + k,
                        )
                    },
            decreases to + 1 - i,
        {
            let value = self.at_height(i);
            let entry = CacheEntry { hash: value.hash, header: value };
            entries.push(entry);
            i += 1;
        }
        HeaderCache { entries }
    }

    /// The number of blocks in the chain. The production interface hands
    /// this out through an awaitable call; the value is synchronous.
    pub fn get_block_count(&self) -> (r: usize)
        ensures
            r == self@.blocks.len(),
    {
        self.blocks.len()
    }

    /// Looks a header up by block hash; the hint is accepted for signature
    /// compatibility and ignored. Fails persistently when headers are
    /// disabled, transiently when no block matches; when headers are
    /// malformed the returned header's time is one above the stored one.
    pub fn get_header(&self, header_hash: &[u8; 32], _height_hint: Option<u32>) -> (r: Result<
        BlockHeaderData,
        SourceError,
    >)
        requires
            self@.blocks.len() <= u32::MAX,
            self@.malformed_headers ==> forall|i: int|
                0 <= i < self@.blocks.len() ==> (#[trigger] self@.blocks[i]).header.time
                    < u32::MAX,
        ensures
            self@.without_headers ==> r is Err && r->Err_0.kind == ErrorKind::Persistent
                && r->Err_0.message@ == "header not found"@,
            !self@.without_headers && find_height(self@.blocks, header_hash@) is None ==> r is Err
                && r->Err_0.kind == ErrorKind::Transient && r->Err_0.message@
                == "header not found"@,
            !self@.without_headers && find_height(self@.blocks, header_hash@) is Some ==> {
                let i = find_height(self@.blocks, header_hash@)->0;
                &&& r is Ok
                &&& r->Ok_0@.height == i
                &&& r->Ok_0@.chainwork == chainwork_at(self@.blocks[0].header, i)
                &&& if self@.malformed_headers {
                    r->Ok_0@.header == HeaderV {
                        time: (self@.blocks[i].header.time + 1) as u32,
                        ..self@.blocks[i].header
                    }
                } else {
                    r->Ok_0@.header == self@.blocks[i].header
                }
            },
    {
        if self.without_headers {
            return Err(SourceError::persistent("header not found"));
        }
        let mut i: usize = 0;
        while i < self.blocks.len()
            invariant
                !self@.without_headers,
                i <= self@.blocks.len(),
                self@.blocks.len() <= u32::MAX,
                self@.malformed_headers ==> forall|m: int|
                    0 <= m < self@.blocks.len() ==> (#[trigger] self@.blocks[m]).header.time
                        < u32::MAX,
                find_from(self@.blocks, header_hash@, 0) == find_from(
                    self@.blocks,
                    header_hash@,
                    i as int,
                ),
            decreases self@.blocks.len() - i,
        {
            let h = block_hash_of(&self.blocks[i].header);
            if array32_eq(&h, header_hash) {
                proof {
                    assert(hash_of_header(self@.blocks[i as int].header) == header_hash@);
                    assert(find_from(self@.blocks, header_hash@, i as int) == Some(i as int));
                }
                let mut data = self.at_height_unvalidated(i);
                if self.malformed_headers {
                    let bumped = data.header.time + 1;
                    data.header.time = bumped;
                }
                return Ok(data);
            }
            proof {
                assert(find_from(self@.blocks, header_hash@, i as int) == find_from(
                    self@.blocks,
                    header_hash@,
                    i + 1,
                ));
            }
            i += 1;
        }
        proof {
            assert(find_from(self@.blocks, header_hash@, i as int) is None);
        }
        Err(SourceError::transient("header not found"))
    }

    /// Looks a block up by hash. An unknown hash fails transiently; a
    /// known block whose height the missing-blocks knob covers fails
    /// persistently; otherwise a copy of the block is returned.
    pub fn get_block(&self, header_hash: &[u8; 32]) -> (r: Result<Block, SourceError>)
        ensures
            find_height(self@.blocks, header_hash@) is None ==> r is Err && r->Err_0.kind
                == ErrorKind::Transient && r->Err_0.message@ == "block not found"@,
            find_height(self@.blocks, header_hash@) is Some ==> {
                let i = find_height(self@.blocks, header_hash@)->0;
                if self@.without_blocks is Some && self@.without_blocks->0 <= i {
                    r is Err && r->Err_0.kind == ErrorKind::Persistent && r->Err_0.message@
                        == "block not found"@
                } else {
                    r is Ok && r->Ok_0@ == self@.blocks[i]
                }
            },
    {
        let mut i: usize = 0;
        while i < self.blocks.len()
            invariant
                i <= self@.blocks.len(),
                find_from(self@.blocks, header_hash@, 0) == find_from(
                    self@.blocks,
                    header_hash@,
                    i as int,
                ),
            decreases self@.blocks.len() - i,
        {
            let h = block_hash_of(&self.blocks[i].header);
            if array32_eq(&h, header_hash) {
                proof {
                    assert(hash_of_header(self@.blocks[i as int].header) == header_hash@);
                    assert(find_from(self@.blocks, header_hash@, i as int) == Some(i as int));
                }
                if let Some(s) = self.without_blocks {
                    if s <= i {
                        return Err(SourceError::persistent("block not found"));
                    }
                }
                return Ok(clone_block(&self.blocks[i]));
            }
            proof {
                assert(find_from(self@.blocks, header_hash@, i as int) == find_from(
                    self@.blocks,
                    header_hash@,
                    i + 1,
                ));
            }
            i += 1;
        }
        proof {
            assert(find_from(self@.blocks, header_hash@, i as int) is None);
        }
        Err(SourceError::transient("block not found"))
    }

    /// The tip's hash and height, or a transient failure on an empty
    /// chain.
    pub fn get_best_block(&self) -> (r: Result<([u8; 32], Option<u32>), SourceError>)
        requires
            self@.blocks.len() <= u32::MAX,
        ensures
            self@.blocks.len() == 0 ==> r is Err && r->Err_0.kind == ErrorKind::Transient
                && r->Err_0.message@ == "empty chain"@,
            self@.blocks.len() > 0 ==> {
                &&& r is Ok
                &&& r->Ok_0.0@ == hash_of_header(self@.blocks[self@.blocks.len() - 1].header)
                &&& r->Ok_0.1 == Some((self@.blocks.len() - 1) as u32)
            },
    {
        if self.blocks.len() == 0 {
            return Err(SourceError::transient("empty chain"));
        }
        let last = last_index(&self.blocks);
        let hash = block_hash_of(&self.blocks[last].header);
        let height = last as u32;
        Ok((hash, Some(height)))
    }
}

/// The index of the last element of a non-empty vector of blocks.
fn last_index(blocks: &Vec<Block>) -> (r: usize)
    requires
        blocks@.len() >= 1,
    ensures
        r == blocks@.len() - 1,
{
    blocks.len() - 1
}

/// The merkle root of a non-empty sequence of transactions' ids.
pub open spec fn merkle_of_txs(txs: Seq<crate::tx::TransactionV>) -> Seq<u8> {
    crate::block::merkle_of(txs.map_values(|t: crate::tx::TransactionV| txid_of(t)))
}

} // verus!
