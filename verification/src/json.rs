//! Canonical JSON serialization of a completed entry: a fixed field order
//! and a deterministic byte-level escape, so that logically equal records
//! always serialize to identical bytes.

use vstd::prelude::*;
use crate::bytes::ascii_bytes;
use crate::bytes::lit_bytes;
use crate::bytes::push_all;
use crate::entry::Entry;
use crate::entry::EntryModel;

verus! {

/// The lowercase hex digit for a value below sixteen.
pub open spec fn hex_digit(n: u8) -> u8
    recommends
        n < 16,
{
    if n < 10 {
        (48 + n) as u8
    } else {
        (87 + n) as u8
    }
}

/// The JSON escape of one byte of a string value: quote and backslash get a
/// backslash, the control characters with short forms get those, every other
/// control character becomes a four-digit hex escape, and all other bytes
/// stand as they are.
pub open spec fn escape_byte(b: u8) -> Seq<u8> {
    if b == 34 {
        seq![92u8, 34u8]
    } else if b == 92 {
        seq![92u8, 92u8]
    } else if b == 8 {
        seq![92u8, 98u8]
    } else if b == 9 {
        seq![92u8, 116u8]
    } else if b == 10 {
        seq![92u8, 110u8]
    } else if b == 12 {
        seq![92u8, 102u8]
    } else if b == 13 {
        seq![92u8, 114u8]
    } else if b < 32 {
        seq![92u8, 117u8, 48u8, 48u8, hex_digit(b / 16), hex_digit(b % 16)]
    } else {
        seq![b]
    }
}

/// The JSON escape of a whole string value, byte by byte.
pub open spec fn escape(s: Seq<u8>) -> Seq<u8>
    decreases s.len(),
{
    if s.len() == 0 {
        Seq::empty()
    } else {
        escape(s.drop_last()) + escape_byte(s.last())
    }
}

/// Escapes the bytes of a string value for inclusion in a JSON document.
pub fn escape_bytes(s: &Vec<u8>) -> (r: Vec<u8>)
    ensures
        r@ == escape(s@),
{
    let mut out: Vec<u8> = Vec::new();
    let mut i: usize = 0;
    while i < s.len()
        invariant
            i <= s@.len(),
            out@ == escape(s@.subrange(0, i as int)),
        decreases s@.len() - i,
    {
        let ghost prefix = s@.subrange(0, i as int);
        let b = s[i];
        if b == 34 {
            out.push(92);
            out.push(34);
        } else if b == 92 {
            out.push(92);
            out.push(92);
        } else if b == 8 {
            out.push(92);
            out.push(98);
        } else if b == 9 {
            out.push(92);
            out.push(116);
        } else if b == 10 {
            out.push(92);
            out.push(110);
        } else if b == 12 {
            out.push(92);
            out.push(102);
        } else if b == 13 {
            out.push(92);
            out.push(114);
        } else if b < 32 {
            out.push(92);
            out.push(117);
            out.push(48);
            out.push(48);
            let hi = b / 16;
            let lo = b % 16;
            out.push(if hi < 10 { 48 + hi } else { 87 + hi });
            out.push(if lo < 10 { 48 + lo } else { 87 + lo });
        } else {
            out.push(b);
        }
        proof {
            let next = s@.subrange(0, i + 1 as int);
            assert(next.drop_last() =~= prefix);
            assert(next.last() == b);
            assert(out@ =~= escape(prefix) + escape_byte(b));
        }
        i += 1;
    }
    assert(s@.subrange(0, s@.len() as int) =~= s@);
    out
}

/// The canonical serialization of a completed entry: one JSON object with
/// the fields in a fixed order, each value escaped.
pub open spec fn serialize_entry(e: EntryModel) -> Seq<u8> {
    ascii_bytes("{\"video_id\":\""@) + escape(e.video_id) + ascii_bytes("\",\"channel_id\":\""@)
        + escape(e.channel_id) + ascii_bytes("\",\"title\":\""@) + escape(e.title) + ascii_bytes(
        "\",\"author\":\""@,
    ) + escape(e.author) + ascii_bytes("\",\"published\":\""@) + escape(e.published) + ascii_bytes(
        "\"}"@,
    )
}

/// Serializes a completed entry to its canonical JSON bytes.
pub fn entry_json(e: &Entry) -> (r: Vec<u8>)
    ensures
        r@ == serialize_entry(e@),
{
    proof {
        reveal_strlit("{\"video_id\":\"");
        reveal_strlit("\",\"channel_id\":\"");
        reveal_strlit("\",\"title\":\"");
        reveal_strlit("\",\"author\":\"");
        reveal_strlit("\",\"published\":\"");
        reveal_strlit("\"}");
    }
    let mut out = lit_bytes("{\"video_id\":\"");
    let piece = escape_bytes(&e.video_id);
    push_all(&mut out, piece.as_slice());
    let piece = lit_bytes("\",\"channel_id\":\"");
    push_all(&mut out, piece.as_slice());
    let piece = escape_bytes(&e.channel_id);
    push_all(&mut out, piece.as_slice());
    let piece = lit_bytes("\",\"title\":\"");
    push_all(&mut out, piece.as_slice());
    let piece = escape_bytes(&e.title);
    push_all(&mut out, piece.as_slice());
    let piece = lit_bytes("\",\"author\":\"");
    push_all(&mut out, piece.as_slice());
    let piece = escape_bytes(&e.author);
    push_all(&mut out, piece.as_slice());
    let piece = lit_bytes("\",\"published\":\"");
    push_all(&mut out, piece.as_slice());
    let piece = escape_bytes(&e.published);
    push_all(&mut out, piece.as_slice());
    let piece = lit_bytes("\"}");
    push_all(&mut out, piece.as_slice());
    assert(out@ =~= serialize_entry(e@));
    out
}

} // verus!
