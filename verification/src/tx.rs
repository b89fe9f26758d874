//! The transaction model: plain-value counterparts of the Bitcoin
//! transaction types, a random transaction builder, and the trusted
//! computations (txid, scripts, randomness) the builder leans on.

use vstd::prelude::*;

use bitcoin::blockdata::script::Builder;
use bitcoin::blockdata::transaction::{OutPoint as BtcOutPoint, TxIn as BtcTxIn, TxOut as BtcTxOut, Transaction as BtcTransaction};
use bitcoin::blockdata::witness::Witness;
use bitcoin::hash_types::Txid;
use rand::Rng;

use crate::bytes::copy_bytes;

verus! {

/// A reference to the output of an earlier transaction.
#[derive(Clone, Copy, Debug, PartialEq, Eq)]
pub struct OutPoint {
    pub txid: [u8; 32],
    pub vout: u32,
}

pub ghost struct OutPointV {
    pub txid: Seq<u8>,
    pub vout: u32,
}

impl View for OutPoint {
    type V = OutPointV;

    open spec fn view(&self) -> OutPointV {
        OutPointV { txid: self.txid@, vout: self.vout }
    }
}

/// A transaction input.
#[derive(Clone, Debug, PartialEq, Eq)]
pub struct TxIn {
    pub previous_output: OutPoint,
    pub script_sig: Vec<u8>,
    pub sequence: u32,
    pub witness: Vec<Vec<u8>>,
}

pub ghost struct TxInV {
    pub previous_output: OutPointV,
    pub script_sig: Seq<u8>,
    pub sequence: u32,
    pub witness: Seq<Seq<u8>>,
}

impl View for TxIn {
    type V = TxInV;

    open spec fn view(&self) -> TxInV {
        TxInV {
            previous_output: self.previous_output@,
            script_sig: self.script_sig@,
            sequence: self.sequence,
            witness: self.witness@.map_values(|w: Vec<u8>| w@),
        }
    }
}

/// A transaction output.
#[derive(Clone, Debug, PartialEq, Eq)]
pub struct TxOut {
    pub value: u64,
    pub script_pubkey: Vec<u8>,
}

pub ghost struct TxOutV {
    pub value: u64,
    pub script_pubkey: Seq<u8>,
}

impl View for TxOut {
    type V = TxOutV;

    open spec fn view(&self) -> TxOutV {
        TxOutV { value: self.value, script_pubkey: self.script_pubkey@ }
    }
}

/// A transaction: ordered inputs and outputs with version and lock time.
#[derive(Clone, Debug, PartialEq, Eq)]
pub struct Transaction {
    pub version: i32,
    pub lock_time: u32,
    pub input: Vec<TxIn>,
    pub output: Vec<TxOut>,
}

pub ghost struct TransactionV {
    pub version: i32,
    pub lock_time: u32,
    pub input: Seq<TxInV>,
    pub output: Seq<TxOutV>,
}

impl View for Transaction {
    type V = TransactionV;

    open spec fn view(&self) -> TransactionV {
        TransactionV {
            version: self.version,
            lock_time: self.lock_time,
            input: self.input@.map_values(|i: TxIn| i@),
            output: self.output@.map_values(|o: TxOut| o@),
        }
    }
}

/// bitcoin's own transaction type, opaque here; the trusted converters
/// below carry values between it and the model.
#[verifier::external_type_specification]
#[verifier::external_body]
pub struct ExBtcTransaction(BtcTransaction);

/// The transaction id, a function of the transaction alone.
pub uninterp spec fn txid_of(t: TransactionV) -> Seq<u8>;

/// Relies on bitcoin's `Transaction::txid`: the id is the double-SHA256 of
/// the serialized transaction, a function of its fields alone.
#[verifier::external_body]
pub(crate) fn txid_bytes(t: &Transaction) -> (r: [u8; 32])
    ensures
        r@ == txid_of(t@),
{
    bitcoin::hashes::Hash::into_inner(to_btc_tx(t).txid())
}

/// Converts the transaction model into bitcoin's transaction type, field by
/// field, for the trusted computations that hash or serialize it.
#[verifier::external_body]
pub(crate) fn to_btc_tx(t: &Transaction) -> BtcTransaction {
    let input = t.input.iter().map(|i| BtcTxIn {
        previous_output: BtcOutPoint::new(<Txid as bitcoin::hashes::Hash>::from_inner(i.previous_output.txid), i.previous_output.vout),
        script_sig: i.script_sig.clone().into(),
        sequence: i.sequence,
        witness: Witness::from_vec(i.witness.clone()),
    }).collect();
    let output = t.output.iter().map(|o| BtcTxOut {
        value: o.value,
        script_pubkey: o.script_pubkey.clone().into(),
    }).collect();
    BtcTransaction { version: t.version, lock_time: t.lock_time, input, output }
}

/// Converts bitcoin's transaction type into the model, field by field.
#[verifier::external_body]
pub(crate) fn from_btc_tx(t: &BtcTransaction) -> Transaction {
    let input = t.input.iter().map(|i| TxIn {
        previous_output: OutPoint { txid: bitcoin::hashes::Hash::into_inner(i.previous_output.txid), vout: i.previous_output.vout },
        script_sig: i.script_sig.to_bytes(),
        sequence: i.sequence,
        witness: i.witness.to_vec(),
    }).collect();
    let output = t.output.iter().map(|o| TxOut {
        value: o.value,
        script_pubkey: o.script_pubkey.to_bytes(),
    }).collect();
    Transaction { version: t.version, lock_time: t.lock_time, input, output }
}

/// Relies on rand's `thread_rng` and `Rng::gen` for a 32-byte array; nothing
/// is promised of the value drawn.
#[verifier::external_body]
pub(crate) fn random_bytes32() -> (r: [u8; 32]) {
    rand::thread_rng().gen::<[u8; 32]>()
}

/// Relies on rand's `Rng::gen_range` over `0..n`: the draw lies below `n`.
/// `gen_range` panics on an empty range, so `n` must be positive.
#[verifier::external_body]
pub(crate) fn random_below(n: u64) -> (r: u64)
    requires
        n > 0,
    ensures
        r < n,
{
    rand::thread_rng().gen_range(0..n)
}

/// Relies on bitcoin's script `Builder::push_int`: pushing the integer 1
/// emits the single opcode `OP_PUSHNUM_1`, byte `0x51`.
#[verifier::external_body]
pub(crate) fn script_pushnum_1() -> (r: Vec<u8>)
    ensures
        r@ == seq![0x51u8],
{
    Builder::new().push_int(1).into_script().to_bytes()
}

/// A syntactically valid transaction with one randomized input and one
/// randomized output, random enough that two draws almost surely differ.
pub fn get_random_tx() -> (t: Transaction)
    ensures
        t@.version == 2,
        t@.lock_time == 0,
        t@.input.len() == 1,
        t@.output.len() == 1,
        t@.input[0].previous_output.vout < 200,
        t@.input[0].script_sig.len() == 0,
        t@.input[0].sequence == 0,
        t@.input[0].witness.len() == 0,
        t@.output[0].value < 21_000_000_000,
        t@.output[0].script_pubkey == seq![0x51u8],
{
    let txid = random_bytes32();
    let vout = random_below(200) as u32;
    let value = random_below(21_000_000_000);
    let input = TxIn {
        previous_output: OutPoint { txid, vout },
        script_sig: Vec::new(),
        sequence: 0,
        witness: Vec::new(),
    };
    let output = TxOut { value, script_pubkey: script_pushnum_1() };
    let t = Transaction { version: 2, lock_time: 0, input: vec![input], output: vec![output] };
    proof {
        assert(t@.input =~= seq![t.input@[0]@]);
        assert(t@.output =~= seq![t.output@[0]@]);
        assert(t@.input[0].witness =~= Seq::<Seq<u8>>::empty());
    }
    t
}

/// A copy of a transaction whose view is the original's.
pub fn clone_tx(t: &Transaction) -> (r: Transaction)
    ensures
        r@ == t@,
{
    let mut input: Vec<TxIn> = Vec::new();
    let mut i: usize = 0;
    while i < t.input.len()
        invariant
            i <= t.input@.len(),
            input@.len() == i,
            forall|m: int| 0 <= m < i ==> input@[m]@ == t.input@[m]@,
        decreases t.input@.len() - i,
    {
        let src = &t.input[i];
        let mut witness: Vec<Vec<u8>> = Vec::new();
        let mut j: usize = 0;
        while j < src.witness.len()
            invariant
                j <= src.witness@.len(),
                witness@.len() == j,
                forall|m: int| 0 <= m < j ==> witness@[m]@ == src.witness@[m]@,
            decreases src.witness@.len() - j,
        {
            witness.push(copy_bytes(&src.witness[j]));
            j += 1;
        }
        proof {
            assert(witness@.map_values(|w: Vec<u8>| w@) =~= src.witness@.map_values(
                |w: Vec<u8>| w@,
            ));
            assert(TxIn {
                previous_output: src.previous_output,
                script_sig: src.script_sig,
                sequence: src.sequence,
                witness: src.witness,
            }@ == src@);
        }
        input.push(TxIn {
            previous_output: src.previous_output,
            script_sig: copy_bytes(&src.script_sig),
            sequence: src.sequence,
            witness,
        });
        i += 1;
    }
    let mut output: Vec<TxOut> = Vec::new();
    let mut k: usize = 0;
    while k < t.output.len()
        invariant
            k <= t.output@.len(),
            output@.len() == k,
            forall|m: int| 0 <= m < k ==> output@[m]@ == t.output@[m]@,
        decreases t.output@.len() - k,
    {
        output.push(TxOut {
            value: t.output[k].value,
            script_pubkey: copy_bytes(&t.output[k].script_pubkey),
        });
        k += 1;
    }
    let r = Transaction { version: t.version, lock_time: t.lock_time, input, output };
    proof {
        assert(r@.input =~= t@.input);
        assert(r@.output =~= t@.output);
    }
    r
}

} // verus!
