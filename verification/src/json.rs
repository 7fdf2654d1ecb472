//! Byte-level rendering of the JSON bodies the service sends and the query
//! it issues. Every renderer is specified against a spec-level sequence,
//! so the envelope is well-formed by construction: failed sub-results are
//! rendered as `null`, never as omitted keys or truncated text.

use vstd::prelude::*;
use crate::outcome::CombinedResult;
use crate::record::Record;

verus! {

/// The big-endian decimal digit string of `n`, without leading zeros
/// (`"0"` for zero).
pub open spec fn spec_decimal(n: nat) -> Seq<u8>
    decreases n,
{
    if n < 10 {
        seq![(48 + n) as u8]
    } else {
        spec_decimal(n / 10).push((48 + n % 10) as u8)
    }
}

/// Appends the decimal digit string of `n`.
pub fn push_decimal(v: &mut Vec<u8>, n: u64)
    ensures
        final(v)@ == old(v)@ + spec_decimal(n as nat),
    decreases n,
{
    if n < 10 {
        let d: u8 = 48 + n as u8;
        v.push(d);
        proof {
            assert(spec_decimal(n as nat) =~= seq![d]);
            assert(old(v)@ + seq![d] =~= old(v)@.push(d));
        }
    } else {
        push_decimal(v, n / 10);
        let d: u8 = 48 + (n % 10) as u8;
        v.push(d);
        proof {
            assert(spec_decimal(n as nat) == spec_decimal((n / 10) as nat).push(d));
            assert(old(v)@ + spec_decimal(n as nat) =~= (old(v)@ + spec_decimal(
                (n / 10) as nat,
            )).push(d));
        }
    }
}

/// The lower-case hexadecimal digit for a value below sixteen.
pub open spec fn spec_hex_digit(n: u8) -> u8 {
    if n < 10 {
        (48 + n) as u8
    } else {
        (97 + (n - 10)) as u8
    }
}

fn hex_digit(n: u8) -> (r: u8)
    requires
        n < 16,
    ensures
        r == spec_hex_digit(n),
{
    if n < 10 {
        48 + n
    } else {
        97 + (n - 10)
    }
}

/// How one byte is written inside a JSON string: quote and backslash get a
/// backslash escape, control bytes a `\u00XX` escape, everything else
/// stands as it is.
pub open spec fn spec_escape_byte(b: u8) -> Seq<u8> {
    if b == 34 {
        seq![92, 34]
    } else if b == 92 {
        seq![92, 92]
    } else if b < 0x20 {
        seq![92, 117, 48, 48, spec_hex_digit(b / 16), spec_hex_digit(b % 16)]
    } else {
        seq![b]
    }
}

/// The JSON string escaping of a byte sequence.
pub open spec fn spec_escape(s: Seq<u8>) -> Seq<u8>
    decreases s.len(),
{
    if s.len() == 0 {
        Seq::empty()
    } else {
        spec_escape(s.drop_last()) + spec_escape_byte(s.last())
    }
}

/// Appends the JSON string escaping of `s`.
pub fn push_escaped(v: &mut Vec<u8>, s: &[u8])
    ensures
        final(v)@ == old(v)@ + spec_escape(s@),
{
    let mut i: usize = 0;
    proof {
        assert(v@ =~= old(v)@ + spec_escape(s@.take(0)));
    }
    while i < s.len()
        invariant
            0 <= i <= s@.len(),
            v@ == old(v)@ + spec_escape(s@.take(i as int)),
        decreases s@.len() - i,
    {
        let ghost before = v@;
        let b = s[i];
        if b == 34 {
            v.push(92);
            v.push(34);
        } else if b == 92 {
            v.push(92);
            v.push(92);
        } else if b < 0x20 {
            v.push(92);
            v.push(117);
            v.push(48);
            v.push(48);
            v.push(hex_digit(b / 16));
            v.push(hex_digit(b % 16));
        } else {
            v.push(b);
        }
        proof {
            assert(v@ =~= before + spec_escape_byte(b));
            assert(s@.take(i + 1).drop_last() =~= s@.take(i as int));
            assert(s@.take(i + 1).last() == s@[i as int]);
            assert(spec_escape(s@.take(i + 1)) == spec_escape(s@.take(i as int))
                + spec_escape_byte(b));
            assert(v@ =~= old(v)@ + spec_escape(s@.take(i + 1)));
        }
        i = i + 1;
    }
    proof {
        assert(s@.take(i as int) =~= s@);
    }
}

/// The JSON literal `null`.
pub open spec fn spec_null() -> Seq<u8> {
    seq![110, 117, 108, 108]
}

/// The JSON object a stored record is rendered as: its identifier under
/// `_id`, its payload under `data`, both as escaped JSON strings.
pub open spec fn spec_record_json(r: Record) -> Seq<u8> {
    seq![123, 34, 95, 105, 100, 34, 58, 34] + spec_escape(r.id@) + seq![
        34,
        44,
        34,
        100,
        97,
        116,
        97,
        34,
        58,
        34,
    ] + spec_escape(r.payload@) + seq![34, 125]
}

fn push_record_json(v: &mut Vec<u8>, r: &Record)
    ensures
        final(v)@ == old(v)@ + spec_record_json(*r),
{
    v.push(123);
    v.push(34);
    v.push(95);
    v.push(105);
    v.push(100);
    v.push(34);
    v.push(58);
    v.push(34);
    push_escaped(v, r.id.as_slice());
    v.push(34);
    v.push(44);
    v.push(34);
    v.push(100);
    v.push(97);
    v.push(116);
    v.push(97);
    v.push(34);
    v.push(58);
    v.push(34);
    push_escaped(v, r.payload.as_slice());
    v.push(34);
    v.push(125);
    proof {
        assert(v@ =~= old(v)@ + spec_record_json(*r));
    }
}

/// The comma-separated items of a JSON array of records.
pub open spec fn spec_records_items(rs: Seq<Record>) -> Seq<u8>
    decreases rs.len(),
{
    if rs.len() == 0 {
        Seq::empty()
    } else if rs.len() == 1 {
        spec_record_json(rs[0])
    } else {
        spec_records_items(rs.drop_last()) + seq![44] + spec_record_json(rs.last())
    }
}

/// The JSON array a list of records is rendered as.
pub open spec fn spec_records_json(rs: Seq<Record>) -> Seq<u8> {
    seq![91] + spec_records_items(rs) + seq![93]
}

fn push_records_json(v: &mut Vec<u8>, rs: &Vec<Record>)
    ensures
        final(v)@ == old(v)@ + spec_records_json(rs@),
{
    v.push(91);
    let mut i: usize = 0;
    while i < rs.len()
        invariant
            0 <= i <= rs@.len(),
            v@ == old(v)@ + seq![91] + spec_records_items(rs@.take(i as int)),
        decreases rs@.len() - i,
    {
        let ghost before = v@;
        if i > 0 {
            v.push(44);
        }
        push_record_json(v, &rs[i]);
        proof {
            assert(rs@.take(i + 1).drop_last() =~= rs@.take(i as int));
            assert(rs@.take(i + 1).last() == rs@[i as int]);
            if i == 0 {
                assert(spec_records_items(rs@.take(1)) == spec_record_json(rs@[0]));
                assert(v@ =~= old(v)@ + seq![91] + spec_records_items(rs@.take(i + 1)));
            } else {
                assert(spec_records_items(rs@.take(i + 1)) == spec_records_items(
                    rs@.take(i as int),
                ) + seq![44] + spec_record_json(rs@[i as int]));
                assert(v@ =~= old(v)@ + seq![91] + spec_records_items(rs@.take(i + 1)));
            }
        }
        i = i + 1;
    }
    v.push(93);
    proof {
        assert(rs@.take(i as int) =~= rs@);
        assert(v@ =~= old(v)@ + spec_records_json(rs@));
    }
}

/// The body of a successful or failed insert: the assembly time under
/// `time`, as a millisecond epoch integer.
pub open spec fn spec_insert_body(now: u64) -> Seq<u8> {
    seq![123, 34, 116, 105, 109, 101, 34, 58] + spec_decimal(now as nat) + seq![125]
}

/// Renders the insert response body.
pub fn render_insert_body(now_ms: u64) -> (v: Vec<u8>)
    ensures
        v@ == spec_insert_body(now_ms),
{
    let mut v: Vec<u8> = Vec::new();
    v.push(123);
    v.push(34);
    v.push(116);
    v.push(105);
    v.push(109);
    v.push(101);
    v.push(34);
    v.push(58);
    push_decimal(&mut v, now_ms);
    v.push(125);
    proof {
        assert(v@ =~= spec_insert_body(now_ms));
    }
    v
}

/// The view of an optional record list.
pub open spec fn view_docs(d: Option<Vec<Record>>) -> Option<Seq<Record>> {
    match d {
        Some(v) => Some(v@),
        None => None,
    }
}

/// The view of an optional byte payload.
pub open spec fn view_bytes(d: Option<Vec<u8>>) -> Option<Seq<u8>> {
    match d {
        Some(v) => Some(v@),
        None => None,
    }
}

/// The body of a combined read: the assembly time under `time`, the
/// document-store records under `mongo`, and the search index's own
/// response bytes verbatim under `es`; a side that failed is `null`.
pub open spec fn spec_read_body(
    now: u64,
    docs: Option<Seq<Record>>,
    search: Option<Seq<u8>>,
) -> Seq<u8> {
    seq![123, 34, 116, 105, 109, 101, 34, 58] + spec_decimal(now as nat) + seq![
        44,
        34,
        109,
        111,
        110,
        103,
        111,
        34,
        58,
    ] + (match docs {
        Some(rs) => spec_records_json(rs),
        None => spec_null(),
    }) + seq![44, 34, 101, 115, 34, 58] + (match search {
        Some(raw) => raw,
        None => spec_null(),
    }) + seq![125]
}

fn push_null(v: &mut Vec<u8>)
    ensures
        final(v)@ == old(v)@ + spec_null(),
{
    v.push(110);
    v.push(117);
    v.push(108);
    v.push(108);
    proof {
        assert(v@ =~= old(v)@ + spec_null());
    }
}

/// Renders the combined read response body from the dual-read
/// coordinator's result. The search side's bytes are the backend's own
/// JSON answer and are embedded verbatim.
pub fn render_read_body(r: &CombinedResult<Vec<Record>, Vec<u8>>) -> (v: Vec<u8>)
    ensures
        v@ == spec_read_body(r.time_ms, view_docs(r.doc_value), view_bytes(r.search_value)),
{
    let mut v: Vec<u8> = Vec::new();
    v.push(123);
    v.push(34);
    v.push(116);
    v.push(105);
    v.push(109);
    v.push(101);
    v.push(34);
    v.push(58);
    push_decimal(&mut v, r.time_ms);
    v.push(44);
    v.push(34);
    v.push(109);
    v.push(111);
    v.push(110);
    v.push(103);
    v.push(111);
    v.push(34);
    v.push(58);
    match &r.doc_value {
        Some(rs) => push_records_json(&mut v, rs),
        None => push_null(&mut v),
    }
    v.push(44);
    v.push(34);
    v.push(101);
    v.push(115);
    v.push(34);
    v.push(58);
    match &r.search_value {
        Some(raw) => {
            let mut j: usize = 0;
            let ghost mid = v@;
            while j < raw.len()
                invariant
                    0 <= j <= raw@.len(),
                    v@ == mid + raw@.take(j as int),
                decreases raw@.len() - j,
            {
                v.push(raw[j]);
                proof {
                    assert(raw@.take(j + 1) =~= raw@.take(j as int).push(raw@[j as int]));
                    assert(v@ =~= mid + raw@.take(j + 1));
                }
                j = j + 1;
            }
            proof {
                assert(raw@.take(j as int) =~= raw@);
            }
        },
        None => push_null(&mut v),
    }
    v.push(125);
    proof {
        assert(v@ =~= spec_read_body(
            r.time_ms,
            view_docs(r.doc_value),
            view_bytes(r.search_value),
        ));
    }
    v
}

/// The document body an insert sends to the search index: the payload as
/// an escaped JSON string under `data`, the write time under `time`.
pub open spec fn spec_search_doc(payload: Seq<u8>, now: u64) -> Seq<u8> {
    seq![123, 34, 100, 97, 116, 97, 34, 58, 34] + spec_escape(payload) + seq![
        34,
        44,
        34,
        116,
        105,
        109,
        101,
        34,
        58,
    ] + spec_decimal(now as nat) + seq![125]
}

/// Renders the document body an insert sends to the search index.
pub fn render_search_doc(payload: &[u8], now_ms: u64) -> (v: Vec<u8>)
    ensures
        v@ == spec_search_doc(payload@, now_ms),
{
    let mut v: Vec<u8> = Vec::new();
    v.push(123);
    v.push(34);
    v.push(100);
    v.push(97);
    v.push(116);
    v.push(97);
    v.push(34);
    v.push(58);
    v.push(34);
    push_escaped(&mut v, payload);
    v.push(34);
    v.push(44);
    v.push(34);
    v.push(116);
    v.push(105);
    v.push(109);
    v.push(101);
    v.push(34);
    v.push(58);
    push_decimal(&mut v, now_ms);
    v.push(125);
    proof {
        assert(v@ =~= spec_search_doc(payload@, now_ms));
    }
    v
}

/// The query the read coordinator issues against the search index: an
/// unfiltered search sorted by write time, newest first
/// (`{"sort":[{"time":{"order":"desc"}}]}`).
pub open spec fn spec_search_query() -> Seq<u8> {
    seq![
        123,
        34,
        115,
        111,
        114,
        116,
        34,
        58,
        91,
        123,
        34,
        116,
        105,
        109,
        101,
        34,
        58,
        123,
        34,
        111,
        114,
        100,
        101,
        114,
        34,
        58,
        34,
        100,
        101,
        115,
        99,
        34,
        125,
        125,
        93,
        125,
    ]
}

/// Renders the search query body.
pub fn search_query_body() -> (v: Vec<u8>)
    ensures
        v@ == spec_search_query(),
{
    let mut v: Vec<u8> = Vec::new();
    v.push(123);
    v.push(34);
    v.push(115);
    v.push(111);
    v.push(114);
    v.push(116);
    v.push(34);
    v.push(58);
    v.push(91);
    v.push(123);
    v.push(34);
    v.push(116);
    v.push(105);
    v.push(109);
    v.push(101);
    v.push(34);
    v.push(58);
    v.push(123);
    v.push(34);
    v.push(111);
    v.push(114);
    v.push(100);
    v.push(101);
    v.push(114);
    v.push(34);
    v.push(58);
    v.push(34);
    v.push(100);
    v.push(101);
    v.push(115);
    v.push(99);
    v.push(34);
    v.push(125);
    v.push(125);
    v.push(93);
    v.push(125);
    proof {
        assert(v@ =~= spec_search_query());
    }
    v
}

} // verus!

