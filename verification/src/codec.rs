//! The deterministic byte codec: little-endian integers and
//! length-prefixed byte records, with spec-level parsing and proofs that
//! parsing inverts serialization. Every hash and every wire buffer in the
//! crate is produced through these functions, so that two nodes holding
//! equal values commit to bit-for-bit equal bytes.

use vstd::bytes::*;
use vstd::prelude::*;

verus! {

/// The largest byte-record length and record count the codec can frame:
/// lengths are carried in a 32-bit prefix.
pub open spec fn codec_limit() -> int {
    0x1_0000_0000
}

// ---------------------------------------------------------------------------
// Serialization specs
// ---------------------------------------------------------------------------

pub open spec fn ser_u32(x: u32) -> Seq<u8> {
    spec_u32_to_le_bytes(x)
}

pub open spec fn ser_u64(x: u64) -> Seq<u8> {
    spec_u64_to_le_bytes(x)
}

pub open spec fn ser_u128(x: u128) -> Seq<u8> {
    spec_u128_to_le_bytes(x)
}

/// A byte record: the byte length as a 32-bit prefix, then the bytes.
pub open spec fn ser_byte_record(b: Seq<u8>) -> Seq<u8> {
    ser_u32(b.len() as u32) + b
}

/// The concatenation of byte records, in order.
pub open spec fn ser_byte_records(rs: Seq<Seq<u8>>) -> Seq<u8>
    decreases rs.len(),
{
    if rs.len() == 0 {
        Seq::empty()
    } else {
        ser_byte_record(rs[0]) + ser_byte_records(rs.drop_first())
    }
}

/// A list of byte records: the record count as a 32-bit prefix, then the
/// records.
pub open spec fn ser_byte_record_list(rs: Seq<Seq<u8>>) -> Seq<u8> {
    ser_u32(rs.len() as u32) + ser_byte_records(rs)
}

/// A record the codec can frame.
pub open spec fn record_valid(b: Seq<u8>) -> bool {
    b.len() < codec_limit()
}

/// A record list the codec can frame.
pub open spec fn records_valid(rs: Seq<Seq<u8>>) -> bool {
    &&& rs.len() < codec_limit()
    &&& forall|i: int| 0 <= i < rs.len() ==> record_valid(#[trigger] rs[i])
}

// ---------------------------------------------------------------------------
// Serialization spec lemmas
// ---------------------------------------------------------------------------

pub proof fn lemma_ser_u32_len(x: u32)
    ensures
        ser_u32(x).len() == 4,
        spec_u32_from_le_bytes(ser_u32(x)) == x,
{
    lemma_auto_spec_u32_to_from_le_bytes();
    assert(spec_u32_to_le_bytes(x).len() == 4);
}

/// Serializing one more record appends its bytes at the end.
pub proof fn lemma_ser_byte_records_push(rs: Seq<Seq<u8>>, b: Seq<u8>)
    ensures
        ser_byte_records(rs.push(b)) == ser_byte_records(rs) + ser_byte_record(b),
    decreases rs.len(),
{
    if rs.len() == 0 {
        assert(rs.push(b)[0] == b);
        assert(rs.push(b).drop_first() =~= Seq::<Seq<u8>>::empty());
        assert(ser_byte_records(rs.push(b)) == ser_byte_record(b) + ser_byte_records(
            Seq::<Seq<u8>>::empty(),
        ));
        assert(ser_byte_records(Seq::<Seq<u8>>::empty()) =~= Seq::<u8>::empty());
        assert(ser_byte_records(rs.push(b)) =~= ser_byte_records(rs) + ser_byte_record(b));
    } else {
        assert(rs.push(b).drop_first() =~= rs.drop_first().push(b));
        lemma_ser_byte_records_push(rs.drop_first(), b);
        assert(ser_byte_records(rs.push(b)) =~= ser_byte_records(rs) + ser_byte_record(b));
    }
}

// ---------------------------------------------------------------------------
// Parsing specs
// ---------------------------------------------------------------------------

/// Read a 32-bit little-endian integer at `pos`; the value and the position
/// after it.
pub open spec fn parse_u32(s: Seq<u8>, pos: int) -> Option<(u32, int)> {
    if 0 <= pos && pos + 4 <= s.len() {
        Some((spec_u32_from_le_bytes(s.subrange(pos, pos + 4)), pos + 4))
    } else {
        None
    }
}

/// Read one length-prefixed byte record at `pos`.
pub open spec fn parse_record(s: Seq<u8>, pos: int) -> Option<(Seq<u8>, int)> {
    match parse_u32(s, pos) {
        None => None,
        Some((n, p)) => {
            if p + n <= s.len() {
                Some((s.subrange(p, p + n), p + n))
            } else {
                None
            }
        },
    }
}

/// Read `count` byte records starting at `pos`.
pub open spec fn parse_records(s: Seq<u8>, pos: int, count: nat) -> Option<(Seq<Seq<u8>>, int)>
    decreases count,
{
    if count == 0 {
        Some((Seq::empty(), pos))
    } else {
        match parse_record(s, pos) {
            None => None,
            Some((b, p)) => match parse_records(s, p, (count - 1) as nat) {
                None => None,
                Some((rest, q)) => Some((seq![b] + rest, q)),
            },
        }
    }
}

/// Read a count-prefixed list of byte records at `pos`.
pub open spec fn parse_record_list(s: Seq<u8>, pos: int) -> Option<(Seq<Seq<u8>>, int)> {
    match parse_u32(s, pos) {
        None => None,
        Some((n, p)) => parse_records(s, p, n as nat),
    }
}

// ---------------------------------------------------------------------------
// Round-trip lemmas: parsing inverts serialization
// ---------------------------------------------------------------------------

pub proof fn lemma_parse_u32_at(s: Seq<u8>, pos: int, x: u32)
    requires
        0 <= pos,
        pos + 4 <= s.len(),
        s.subrange(pos, pos + 4) == ser_u32(x),
    ensures
        parse_u32(s, pos) == Some((x, pos + 4)),
{
    lemma_ser_u32_len(x);
}

pub proof fn lemma_parse_record_at(s: Seq<u8>, pos: int, b: Seq<u8>)
    requires
        0 <= pos,
        record_valid(b),
        pos + 4 + b.len() <= s.len(),
        s.subrange(pos, pos + 4 + b.len()) == ser_byte_record(b),
    ensures
        parse_record(s, pos) == Some((b, pos + 4 + b.len())),
{
    lemma_ser_u32_len(b.len() as u32);
    let whole = s.subrange(pos, pos + 4 + b.len());
    assert(s.subrange(pos, pos + 4) =~= whole.subrange(0, 4));
    assert(whole.subrange(0, 4) =~= ser_u32(b.len() as u32));
    lemma_parse_u32_at(s, pos, b.len() as u32);
    let n = b.len() as u32;
    assert(n as int == b.len());
    assert(s.subrange(pos + 4, pos + 4 + b.len()) =~= whole.subrange(4, 4 + b.len() as int));
    assert(whole.subrange(4, 4 + b.len() as int) =~= b);
}

pub proof fn lemma_parse_records_at(s: Seq<u8>, pos: int, rs: Seq<Seq<u8>>)
    requires
        0 <= pos,
        forall|i: int| 0 <= i < rs.len() ==> record_valid(#[trigger] rs[i]),
        pos + ser_byte_records(rs).len() <= s.len(),
        s.subrange(pos, pos + ser_byte_records(rs).len()) == ser_byte_records(rs),
    ensures
        parse_records(s, pos, rs.len()) == Some((rs, pos + ser_byte_records(rs).len())),
    decreases rs.len(),
{
    if rs.len() == 0 {
    } else {
        let b = rs[0];
        lemma_ser_u32_len(b.len() as u32);
        let head_len: int = 4 + b.len() as int;
        let total: int = ser_byte_records(rs).len() as int;
        let whole = s.subrange(pos, pos + total);
        assert(ser_byte_records(rs) == ser_byte_record(b) + ser_byte_records(rs.drop_first()));
        assert(head_len <= total);
        assert(s.subrange(pos, pos + head_len) =~= whole.subrange(0, head_len));
        assert(whole.subrange(0, head_len) =~= ser_byte_record(b));
        lemma_parse_record_at(s, pos, b);
        assert(s.subrange(pos + head_len, pos + total) =~= whole.subrange(head_len, total));
        assert(whole.subrange(head_len, total) =~= ser_byte_records(rs.drop_first()));
        lemma_parse_records_at(s, pos + head_len, rs.drop_first());
        assert(seq![b] + rs.drop_first() =~= rs);
    }
}

pub proof fn lemma_parse_record_list_at(s: Seq<u8>, pos: int, rs: Seq<Seq<u8>>)
    requires
        0 <= pos,
        records_valid(rs),
        pos + ser_byte_record_list(rs).len() <= s.len(),
        s.subrange(pos, pos + ser_byte_record_list(rs).len()) == ser_byte_record_list(rs),
    ensures
        parse_record_list(s, pos) == Some(
            (rs, pos + ser_byte_record_list(rs).len()),
        ),
{
    lemma_ser_u32_len(rs.len() as u32);
    let total: int = ser_byte_record_list(rs).len() as int;
    let whole = s.subrange(pos, pos + total);
    assert(s.subrange(pos, pos + 4) =~= whole.subrange(0, 4));
    assert(whole.subrange(0, 4) =~= ser_u32(rs.len() as u32));
    lemma_parse_u32_at(s, pos, rs.len() as u32);
    assert(s.subrange(pos + 4, pos + total) =~= whole.subrange(4, total));
    assert(whole.subrange(4, total) =~= ser_byte_records(rs));
    lemma_parse_records_at(s, pos + 4, rs);
}

// ---------------------------------------------------------------------------
// Executable writers
// ---------------------------------------------------------------------------

/// The deep view of a byte vector is its view.
pub proof fn lemma_bytes_deep_view(v: Vec<u8>)
    ensures
        v.deep_view() == v@,
{
    assert(v.deep_view() =~= v@);
}

/// Copy bytes into an owned buffer.
pub fn copy_bytes(data: &[u8]) -> (r: Vec<u8>)
    ensures
        r@ == data@,
{
    let mut out: Vec<u8> = Vec::new();
    write_bytes(&mut out, data);
    out
}

/// Append raw bytes.
pub fn write_bytes(out: &mut Vec<u8>, data: &[u8])
    ensures
        final(out)@ == old(out)@ + data@,
{
    let mut i: usize = 0;
    while i < data.len()
        invariant
            i <= data@.len(),
            out@ == old(out)@ + data@.take(i as int),
        decreases data@.len() - i,
    {
        out.push(data[i]);
        i = i + 1;
    }
    proof {
        assert(out@ =~= old(out)@ + data@);
    }
}

pub fn write_u32(out: &mut Vec<u8>, x: u32)
    ensures
        final(out)@ == old(out)@ + ser_u32(x),
{
    let b = u32_to_le_bytes(x);
    write_bytes(out, b.as_slice());
}

pub fn write_u64(out: &mut Vec<u8>, x: u64)
    ensures
        final(out)@ == old(out)@ + ser_u64(x),
{
    let b = u64_to_le_bytes(x);
    write_bytes(out, b.as_slice());
}

pub fn write_u128(out: &mut Vec<u8>, x: u128)
    ensures
        final(out)@ == old(out)@ + ser_u128(x),
{
    let b = u128_to_le_bytes(x);
    write_bytes(out, b.as_slice());
}

/// Append one length-prefixed byte record.
pub fn write_byte_record(out: &mut Vec<u8>, data: &[u8])
    requires
        data@.len() < codec_limit(),
    ensures
        final(out)@ == old(out)@ + ser_byte_record(data@),
{
    write_u32(out, data.len() as u32);
    write_bytes(out, data);
    proof {
        assert(out@ =~= old(out)@ + ser_byte_record(data@));
    }
}

/// Append a count-prefixed list of byte records.
pub fn write_byte_record_list(out: &mut Vec<u8>, records: &Vec<Vec<u8>>)
    requires
        records_valid(records.deep_view()),
    ensures
        final(out)@ == old(out)@ + ser_byte_record_list(records.deep_view()),
{
    let ghost rs = records.deep_view();
    write_u32(out, records.len() as u32);
    let mut i: usize = 0;
    while i < records.len()
        invariant
            i <= records@.len(),
            records.deep_view() == rs,
            records_valid(rs),
            out@ == old(out)@ + ser_u32(rs.len() as u32) + ser_byte_records(
                rs.take(i as int),
            ),
        decreases records@.len() - i,
    {
        proof {
            assert(rs[i as int] == records@[i as int]@);
            lemma_ser_byte_records_push(rs.take(i as int), rs[i as int]);
            assert(rs.take(i as int).push(rs[i as int]) =~= rs.take(i as int + 1));
        }
        write_byte_record(out, records[i].as_slice());
        i = i + 1;
    }
    proof {
        assert(rs.take(rs.len() as int) =~= rs);
        assert(out@ =~= old(out)@ + ser_byte_record_list(rs));
    }
}

// ---------------------------------------------------------------------------
// Executable readers
// ---------------------------------------------------------------------------

/// Read a 32-bit little-endian integer at `pos`.
pub fn read_u32(data: &[u8], pos: usize) -> (r: Option<(u32, usize)>)
    ensures
        match r {
            Some((x, p)) => parse_u32(data@, pos as int) == Some((x, p as int)),
            None => parse_u32(data@, pos as int) is None,
        },
{
    if pos < data.len() && data.len() - pos >= 4 {
        let bytes = vstd::slice::slice_subrange(data, pos, pos + 4);
        let x = u32_from_le_bytes(bytes);
        Some((x, pos + 4))
    } else {
        None
    }
}

/// Read one length-prefixed byte record at `pos`; the bytes are copied out.
pub fn read_byte_record(data: &[u8], pos: usize) -> (r: Option<(Vec<u8>, usize)>)
    ensures
        match r {
            Some((b, p)) => parse_record(data@, pos as int) == Some((b@, p as int)),
            None => parse_record(data@, pos as int) is None,
        },
{
    match read_u32(data, pos) {
        None => None,
        Some((n, p)) => {
            if n as usize <= data.len() - p {
                let end = p + n as usize;
                let bytes = vstd::slice::slice_subrange(data, p, end);
                let mut out: Vec<u8> = Vec::new();
                write_bytes(&mut out, bytes);
                proof {
                    assert(out@ =~= data@.subrange(p as int, p + n));
                }
                Some((out, end))
            } else {
                None
            }
        },
    }
}

/// Read a count-prefixed list of byte records at `pos`.
pub fn read_byte_record_list(data: &[u8], pos: usize) -> (r: Option<(Vec<Vec<u8>>, usize)>)
    ensures
        match r {
            Some((rs, p)) => parse_record_list(data@, pos as int) == Some(
                (rs.deep_view(), p as int),
            ),
            None => parse_record_list(data@, pos as int) is None,
        },
{
    match read_u32(data, pos) {
        None => None,
        Some((n, p0)) => {
            let mut out: Vec<Vec<u8>> = Vec::new();
            let mut p: usize = p0;
            let mut i: u32 = 0;
            proof {
                match parse_records(data@, p0 as int, n as nat) {
                    None => {},
                    Some((rest, q)) => {
                        assert(out.deep_view() + rest =~~= rest);
                    },
                }
            }
            while i < n
                invariant
                    i <= n,
                    out@.len() == i as int,
                    p <= data@.len(),
                    parse_u32(data@, pos as int) == Some((n, p0 as int)),
                    parse_records(data@, p0 as int, n as nat) == (match parse_records(
                        data@,
                        p as int,
                        (n - i) as nat,
                    ) {
                        None => None::<(Seq<Seq<u8>>, int)>,
                        Some((rest, q)) => Some((out.deep_view() + rest, q)),
                    }),
                decreases n - i,
            {
                let ghost p_before = p as int;
                let ghost out_before = out.deep_view();
                match read_byte_record(data, p) {
                    None => {
                        proof {
                            assert(parse_records(data@, p as int, (n - i) as nat) is None);
                            assert(parse_record_list(data@, pos as int) is None);
                        }
                        return None;
                    },
                    Some((b, p2)) => {
                        out.push(b);
                        p = p2;
                        i = i + 1;
                        proof {
                            let (bv, _) = parse_record(data@, p_before).unwrap();
                            assert(out.deep_view() =~~= out_before.push(bv));
                            match parse_records(data@, p2 as int, (n - i) as nat) {
                                None => {},
                                Some((rest, q)) => {
                                    assert(out_before.push(bv) + rest =~~= out_before + (seq![bv]
                                        + rest));
                                },
                            }
                        }
                    },
                }
            }
            proof {
                assert(parse_records(data@, p as int, 0) == Some(
                    (Seq::<Seq<u8>>::empty(), p as int),
                ));
                assert(out.deep_view() + Seq::<Seq<u8>>::empty() =~~= out.deep_view());
                assert(parse_record_list(data@, pos as int) == Some(
                    (out.deep_view(), p as int),
                ));
            }
            Some((out, p))
        },
    }
}

} // verus!
