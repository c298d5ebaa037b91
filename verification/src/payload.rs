//! The chunk payload: ordered transactions and outgoing receipts,
//! serialized together into one deterministic byte buffer and parsed back.
//! Only the serialized bytes of a transaction or receipt matter to this
//! layer; their semantic content is validated elsewhere.

use crate::codec::copy_bytes;
use crate::codec::lemma_bytes_deep_view;
use crate::codec::parse_record_list;
use crate::codec::read_byte_record_list;
use crate::codec::records_valid;
use crate::codec::ser_byte_record_list;
use crate::codec::ser_u64;
use crate::codec::write_byte_record_list;
use crate::codec::write_u64;
use crate::codec::lemma_parse_record_list_at;
use crate::types::ShardId;
use vstd::prelude::*;

verus! {

/// One signed transaction, held as its serialized bytes.
#[derive(Clone, Debug, PartialEq, Eq)]
pub struct SignedTransaction {
    pub data: Vec<u8>,
}

/// One cross-shard receipt, held as its serialized bytes.
#[derive(Clone, Debug, PartialEq, Eq)]
pub struct Receipt {
    pub data: Vec<u8>,
}

/// The byte views of a transaction sequence, in order.
pub open spec fn tx_views(txs: Seq<SignedTransaction>) -> Seq<Seq<u8>> {
    txs.map_values(|t: SignedTransaction| t.data@)
}

/// The byte views of a receipt sequence, in order.
pub open spec fn receipt_views(rs: Seq<Receipt>) -> Seq<Seq<u8>> {
    rs.map_values(|r: Receipt| r.data@)
}

/// The serialized payload of a chunk: the transaction list, then the
/// receipt list.
pub open spec fn ser_payload(txs: Seq<Seq<u8>>, receipts: Seq<Seq<u8>>) -> Seq<u8> {
    ser_byte_record_list(txs) + ser_byte_record_list(receipts)
}

/// A payload the codec can frame.
pub open spec fn payload_valid(txs: Seq<Seq<u8>>, receipts: Seq<Seq<u8>>) -> bool {
    &&& records_valid(txs)
    &&& records_valid(receipts)
}

/// Parse a whole buffer as a payload; the buffer must be consumed exactly.
pub open spec fn parse_payload(s: Seq<u8>) -> Option<(Seq<Seq<u8>>, Seq<Seq<u8>>)> {
    match parse_record_list(s, 0) {
        None => None,
        Some((txs, p)) => match parse_record_list(s, p) {
            None => None,
            Some((receipts, q)) => {
                if q == s.len() {
                    Some((txs, receipts))
                } else {
                    None
                }
            },
        },
    }
}

/// Parsing a serialized payload gives back exactly the serialized lists.
pub proof fn lemma_parse_payload_roundtrip(txs: Seq<Seq<u8>>, receipts: Seq<Seq<u8>>)
    requires
        payload_valid(txs, receipts),
    ensures
        parse_payload(ser_payload(txs, receipts)) == Some((txs, receipts)),
{
    let s = ser_payload(txs, receipts);
    let l1 = ser_byte_record_list(txs).len() as int;
    let l2 = ser_byte_record_list(receipts).len() as int;
    assert(s.subrange(0, l1) =~= ser_byte_record_list(txs));
    lemma_parse_record_list_at(s, 0, txs);
    assert(s.subrange(l1, l1 + l2) =~= ser_byte_record_list(receipts));
    lemma_parse_record_list_at(s, l1, receipts);
}

/// The transactions and outgoing receipts of one chunk, as carried through
/// the erasure-coded body.
#[derive(Clone, Debug, PartialEq, Eq)]
pub struct TransactionReceipt(pub Vec<SignedTransaction>, pub Vec<Receipt>);

/// A payload the codec can frame.
pub open spec fn transaction_receipt_valid(tr: TransactionReceipt) -> bool {
    payload_valid(tx_views(tr.0@), receipt_views(tr.1@))
}

/// The serialized bytes of a payload value.
pub open spec fn ser_transaction_receipt(tr: TransactionReceipt) -> Seq<u8> {
    ser_payload(tx_views(tr.0@), receipt_views(tr.1@))
}


/// Copy out the serialized bytes of each transaction, in order.
fn tx_bytes_of(txs: &Vec<SignedTransaction>) -> (r: Vec<Vec<u8>>)
    ensures
        r.deep_view() == tx_views(txs@),
{
    let mut out: Vec<Vec<u8>> = Vec::new();
    let mut i: usize = 0;
    while i < txs.len()
        invariant
            i <= txs@.len(),
            out@.len() == i as int,
            forall|k: int| 0 <= k < i ==> (#[trigger] out@[k])@ == txs@[k].data@,
        decreases txs@.len() - i,
    {
        let bytes = copy_bytes(txs[i].data.as_slice());
        out.push(bytes);
        i = i + 1;
    }
    proof {
        assert forall|k: int| 0 <= k < out@.len() implies out.deep_view()[k] == tx_views(txs@)[k]
            by {
            lemma_bytes_deep_view(out@[k]);
        }
        assert(out.deep_view() =~= tx_views(txs@));
    }
    out
}

/// Copy out the serialized bytes of each receipt, in order.
fn receipt_bytes_of(receipts: &Vec<Receipt>) -> (r: Vec<Vec<u8>>)
    ensures
        r.deep_view() == receipt_views(receipts@),
{
    let mut out: Vec<Vec<u8>> = Vec::new();
    let mut i: usize = 0;
    while i < receipts.len()
        invariant
            i <= receipts@.len(),
            out@.len() == i as int,
            forall|k: int| 0 <= k < i ==> (#[trigger] out@[k])@ == receipts@[k].data@,
        decreases receipts@.len() - i,
    {
        let bytes = copy_bytes(receipts[i].data.as_slice());
        out.push(bytes);
        i = i + 1;
    }
    proof {
        assert forall|k: int|
            0 <= k < out@.len() implies out.deep_view()[k] == receipt_views(receipts@)[k] by {
            lemma_bytes_deep_view(out@[k]);
        }
        assert(out.deep_view() =~= receipt_views(receipts@));
    }
    out
}

/// Wrap each byte record as a transaction, in order.
fn txs_of_bytes(records: &Vec<Vec<u8>>) -> (r: Vec<SignedTransaction>)
    ensures
        tx_views(r@) == records.deep_view(),
{
    let mut out: Vec<SignedTransaction> = Vec::new();
    let mut i: usize = 0;
    while i < records.len()
        invariant
            i <= records@.len(),
            out@.len() == i as int,
            forall|k: int| 0 <= k < i ==> (#[trigger] out@[k]).data@ == records@[k]@,
        decreases records@.len() - i,
    {
        let data = copy_bytes(records[i].as_slice());
        out.push(SignedTransaction { data });
        i = i + 1;
    }
    proof {
        assert forall|k: int|
            0 <= k < out@.len() implies tx_views(out@)[k] == records.deep_view()[k] by {
            lemma_bytes_deep_view(records@[k]);
        }
        assert(tx_views(out@) =~= records.deep_view());
    }
    out
}

/// Wrap each byte record as a receipt, in order.
fn receipts_of_bytes(records: &Vec<Vec<u8>>) -> (r: Vec<Receipt>)
    ensures
        receipt_views(r@) == records.deep_view(),
{
    let mut out: Vec<Receipt> = Vec::new();
    let mut i: usize = 0;
    while i < records.len()
        invariant
            i <= records@.len(),
            out@.len() == i as int,
            forall|k: int| 0 <= k < i ==> (#[trigger] out@[k]).data@ == records@[k]@,
        decreases records@.len() - i,
    {
        let data = copy_bytes(records[i].as_slice());
        out.push(Receipt { data });
        i = i + 1;
    }
    proof {
        assert forall|k: int|
            0 <= k < out@.len() implies receipt_views(out@)[k] == records.deep_view()[k] by {
            lemma_bytes_deep_view(records@[k]);
        }
        assert(receipt_views(out@) =~= records.deep_view());
    }
    out
}

/// Serialize a payload into one deterministic byte buffer.
pub fn encode_transaction_receipt(tr: &TransactionReceipt) -> (r: Vec<u8>)
    requires
        transaction_receipt_valid(*tr),
    ensures
        r@ == ser_transaction_receipt(*tr),
{
    encode_payload(&tr.0, &tr.1)
}

/// Serialize the transactions and receipts into one deterministic byte
/// buffer: the body the erasure codec splits into fragments.
pub fn encode_payload(txs: &Vec<SignedTransaction>, receipts: &Vec<Receipt>) -> (r: Vec<u8>)
    requires
        payload_valid(tx_views(txs@), receipt_views(receipts@)),
    ensures
        r@ == ser_payload(tx_views(txs@), receipt_views(receipts@)),
{
    let tx_bytes = tx_bytes_of(txs);
    let receipt_bytes = receipt_bytes_of(receipts);
    let mut out: Vec<u8> = Vec::new();
    write_byte_record_list(&mut out, &tx_bytes);
    write_byte_record_list(&mut out, &receipt_bytes);
    proof {
        assert(out@ =~= ser_payload(tx_views(txs@), receipt_views(receipts@)));
    }
    out
}

/// Parse a whole buffer back into a payload value. `None` exactly when the
/// bytes are not a serialized payload consuming the buffer.
pub fn decode_transaction_receipt(data: &[u8]) -> (r: Option<TransactionReceipt>)
    ensures
        match r {
            Some(tr) => parse_payload(data@) == Some(
                (tx_views(tr.0@), receipt_views(tr.1@)),
            ),
            None => parse_payload(data@) is None,
        },
{
    match read_byte_record_list(data, 0) {
        None => None,
        Some((tx_bytes, p)) => {
            match read_byte_record_list(data, p) {
                None => None,
                Some((receipt_bytes, q)) => {
                    if q != data.len() {
                        return None;
                    }
                    let txs = txs_of_bytes(&tx_bytes);
                    let receipts = receipts_of_bytes(&receipt_bytes);
                    Some(TransactionReceipt(txs, receipts))
                },
            }
        },
    }
}

/// The ordered receipts destined for one shard, as committed to by the
/// outgoing-receipts root: the destination shard id, then the receipt
/// list.
#[derive(Clone, Debug, PartialEq, Eq)]
pub struct ReceiptList(pub ShardId, pub Vec<Receipt>);

/// The bytes a receipt list commits to.
pub open spec fn ser_receipt_list(shard_id: ShardId, receipts: Seq<Seq<u8>>) -> Seq<u8> {
    ser_u64(shard_id) + ser_byte_record_list(receipts)
}

/// Serialize a receipt list into the buffer its commitment leaf hashes.
pub fn encode_receipt_list(rl: &ReceiptList) -> (r: Vec<u8>)
    requires
        records_valid(receipt_views(rl.1@)),
    ensures
        r@ == ser_receipt_list(rl.0, receipt_views(rl.1@)),
{
    let receipt_bytes = receipt_bytes_of(&rl.1);
    let mut out: Vec<u8> = Vec::new();
    write_u64(&mut out, rl.0);
    write_byte_record_list(&mut out, &receipt_bytes);
    proof {
        assert(out@ =~= ser_receipt_list(rl.0, receipt_views(rl.1@)));
    }
    out
}

} // verus!
