//! UTF-16LE strings as they appear in RAIL orders.

use vstd::prelude::*;
use crate::wire::{le_u16, u16_bytes};

verus! {

/// The UTF-16 code units of one Unicode scalar value.
pub open spec fn scalar_units(c: u32) -> Seq<u16> {
    if c < 0x10000 {
        seq![c as u16]
    } else {
        seq![(0xD800 + (c - 0x10000) / 0x400) as u16, (0xDC00 + (c - 0x10000) % 0x400) as u16]
    }
}

/// The UTF-16 code units of a string.
pub open spec fn utf16_units(s: Seq<char>) -> Seq<u16>
    decreases s.len(),
{
    if s.len() == 0 {
        seq![]
    } else {
        scalar_units(s[0] as u32) + utf16_units(s.drop_first())
    }
}

/// Code units laid out little-endian, two bytes each.
pub open spec fn units_bytes(u: Seq<u16>) -> Seq<u8>
    decreases u.len(),
{
    if u.len() == 0 {
        seq![]
    } else {
        u16_bytes(u[0]) + units_bytes(u.drop_first())
    }
}

/// A string in UTF-16LE.
pub open spec fn utf16_le_bytes(s: Seq<char>) -> Seq<u8> {
    units_bytes(utf16_units(s))
}

/// Bytes read pairwise as little-endian code units; an odd last byte is left out.
pub open spec fn bytes_units(b: Seq<u8>) -> Seq<u16> {
    Seq::new((b.len() / 2) as nat, |i: int| le_u16(b, 2 * i))
}

/// The characters that a sequence of code units encodes, or `None` where a surrogate
/// stands unpaired.
pub open spec fn decode_units(u: Seq<u16>) -> Option<Seq<char>>
    decreases u.len(),
{
    if u.len() == 0 {
        Some(seq![])
    } else if u[0] < 0xD800 || u[0] >= 0xE000 {
        match decode_units(u.drop_first()) {
            Some(r) => Some(seq![(u[0] as u32) as char] + r),
            None => None,
        }
    } else if u[0] < 0xDC00 && u.len() >= 2 && 0xDC00 <= u[1] && u[1] < 0xE000 {
        let c = (0x10000 + (u[0] - 0xD800) * 0x400 + (u[1] - 0xDC00)) as u32;
        match decode_units(u.subrange(2, u.len() as int)) {
            Some(r) => Some(seq![c as char] + r),
            None => None,
        }
    } else {
        None
    }
}

/// `s` without its trailing NUL characters.
pub open spec fn trim_nuls(s: Seq<char>) -> Seq<char>
    decreases s.len(),
{
    if s.len() > 0 && s.last() == '\0' {
        trim_nuls(s.drop_last())
    } else {
        s
    }
}

/// Length of a NUL-terminated field read from code unit `i` on: up to and including the
/// first zero code unit, or every whole code unit when there is none.
pub open spec fn field_len_from(b: Seq<u8>, i: nat) -> nat
    decreases b.len() - 2 * i,
{
    if b.len() < 2 * i + 2 {
        2 * (b.len() / 2)
    } else if b[2 * i as int] == 0 && b[2 * i + 1int] == 0 {
        2 * i + 2
    } else {
        field_len_from(b, i + 1)
    }
}

/// Number of bytes that a NUL-terminated UTF-16 field at the start of `b` takes.
pub open spec fn utf16_field_len(b: Seq<u8>) -> nat {
    field_len_from(b, 0)
}

proof fn lemma_field_len_from_bound(b: Seq<u8>, i: nat)
    ensures
        field_len_from(b, i) <= b.len(),
    decreases b.len() - 2 * i,
{
    if b.len() >= 2 * i + 2 && !(b[2 * i as int] == 0 && b[2 * i + 1int] == 0) {
        lemma_field_len_from_bound(b, i + 1);
    }
}

/// A field never runs past the end of the buffer.
pub proof fn lemma_utf16_field_len_bound(b: Seq<u8>)
    ensures
        utf16_field_len(b) <= b.len(),
{
    lemma_field_len_from_bound(b, 0);
}

/// The string held by a NUL-terminated UTF-16 field at the start of `b`, trailing NULs
/// dropped; `None` where its code units are not valid UTF-16.
pub open spec fn utf16_field(b: Seq<u8>) -> Option<Seq<char>> {
    match decode_units(bytes_units(b.take(utf16_field_len(b) as int))) {
        Some(s) => Some(trim_nuls(s)),
        None => None,
    }
}

/// Relies on `ironrdp_pdu::utils::to_utf16_bytes`: each UTF-16 code unit of `s`
/// (`str::encode_utf16`) as two little-endian bytes.
#[verifier::external_body]
pub(crate) fn to_utf16_bytes(s: &str) -> (r: Vec<u8>)
    ensures
        r@ == utf16_le_bytes(s@),
{
    ironrdp_pdu::utils::to_utf16_bytes(s)
}

/// Relies on `ironrdp_pdu::utils::read_string_from_cursor` with the Unicode character set
/// and the terminator search on: it takes the bytes up to and including the first zero
/// code unit (all whole code units if there is none), decodes them with
/// `String::from_utf16`, which fails on an unpaired surrogate, and trims trailing NULs.
/// The `usize` is where the cursor stands afterwards.
#[verifier::external_body]
pub(crate) fn read_utf16_field(src: &[u8]) -> (r: Option<(String, usize)>)
    ensures
        r is Some <==> utf16_field(src@) is Some,
        r matches Some((s, n)) ==> n == utf16_field_len(src@) && utf16_field(src@) == Some(s@),
{
    let mut cursor = ironrdp_pdu::cursor::ReadCursor::new(src);
    let character_set = ironrdp_pdu::utils::CharacterSet::Unicode;
    match ironrdp_pdu::utils::read_string_from_cursor(&mut cursor, character_set, true) {
        Ok(s) => Some((s, cursor.pos())),
        Err(_) => None,
    }
}

} // verus!

verus! {

proof fn lemma_units_bytes_len(u: Seq<u16>)
    ensures
        units_bytes(u).len() == 2 * u.len(),
    decreases u.len(),
{
    if u.len() > 0 {
        lemma_units_bytes_len(u.drop_first());
    }
}

proof fn lemma_units_bytes_at(u: Seq<u16>, i: int)
    requires
        0 <= i < u.len(),
    ensures
        units_bytes(u).subrange(2 * i, 2 * i + 2) == u16_bytes(u[i]),
    decreases u.len(),
{
    lemma_units_bytes_len(u);
    lemma_units_bytes_len(u.drop_first());
    if i == 0 {
        assert(units_bytes(u).subrange(0, 2) =~= u16_bytes(u[0]));
    } else {
        lemma_units_bytes_at(u.drop_first(), i - 1);
        assert(units_bytes(u).subrange(2 * i, 2 * i + 2) =~= units_bytes(u.drop_first()).subrange(
            2 * (i - 1),
            2 * (i - 1) + 2,
        ));
    }
}

proof fn lemma_bytes_units_of_units_bytes(u: Seq<u16>)
    ensures
        bytes_units(units_bytes(u)) == u,
{
    let b = units_bytes(u);
    lemma_units_bytes_len(u);
    assert forall|i: int| 0 <= i < u.len() implies #[trigger] bytes_units(b)[i] == u[i] by {
        lemma_units_bytes_at(u, i);
        crate::wire::lemma_le_u16_of(b, 2 * i, u[i]);
    }
    assert(bytes_units(b) =~= u);
}

proof fn lemma_field_len_without_zero(b: Seq<u8>, i: nat)
    requires
        b.len() % 2 == 0,
        2 * i <= b.len(),
        forall|j: int|
            i <= j < b.len() / 2 ==> !(#[trigger] b[2 * j] == 0 && b[2 * j + 1] == 0),
    ensures
        field_len_from(b, i) == b.len(),
    decreases b.len() - 2 * i,
{
    if b.len() >= 2 * i + 2 {
        assert(!(b[2 * (i as int)] == 0 && b[2 * (i as int) + 1] == 0));
        lemma_field_len_without_zero(b, i + 1);
    }
}

proof fn lemma_scalar_units_nonzero(c: char)
    requires
        c != '\0',
    ensures
        forall|j: int|
            0 <= j < scalar_units(c as u32).len() ==> #[trigger] scalar_units(c as u32)[j] != 0,
{
    vstd::utf8::char_is_scalar(c);
    vstd::utf8::char_u32_cast(c, c as u32);
}

proof fn lemma_units_nonzero(t: Seq<char>)
    requires
        forall|i: int| 0 <= i < t.len() ==> t[i] != '\0',
    ensures
        forall|j: int| 0 <= j < utf16_units(t).len() ==> utf16_units(t)[j] != 0,
    decreases t.len(),
{
    if t.len() > 0 {
        let head = scalar_units(t[0] as u32);
        let tail = utf16_units(t.drop_first());
        lemma_scalar_units_nonzero(t[0]);
        lemma_units_nonzero(t.drop_first());
        assert forall|j: int| 0 <= j < utf16_units(t).len() implies utf16_units(t)[j] != 0 by {
            if j < head.len() {
                assert(utf16_units(t)[j] == head[j]);
            } else {
                assert(utf16_units(t)[j] == tail[j - head.len()]);
            }
        }
    }
}

proof fn lemma_decode_utf16_units(t: Seq<char>)
    ensures
        decode_units(utf16_units(t)) == Some(t),
    decreases t.len(),
{
    if t.len() > 0 {
        let ch = t[0];
        let c = ch as u32;
        let rest = t.drop_first();
        let u = utf16_units(t);
        vstd::utf8::char_is_scalar(ch);
        vstd::utf8::char_u32_cast(ch, c);
        lemma_decode_utf16_units(rest);
        if c < 0x10000 {
            assert(u.drop_first() =~= utf16_units(rest));
            assert((u[0] as u32) == c);
        } else {
            let v = (c - 0x10000) as int;
            vstd::arithmetic::div_mod::lemma_fundamental_div_mod(v, 0x400);
            assert(u.subrange(2, u.len() as int) =~= utf16_units(rest));
            assert((0x10000 + (u[0] - 0xD800) * 0x400 + (u[1] - 0xDC00)) as u32 == c);
        }
        assert(seq![ch] + rest =~= t);
    }
}

/// A string without NUL characters, written in UTF-16LE, reads back whole: the field
/// takes every byte and holds the same characters.
pub proof fn lemma_utf16_round_trip(t: Seq<char>)
    requires
        forall|i: int| 0 <= i < t.len() ==> t[i] != '\0',
    ensures
        utf16_field_len(utf16_le_bytes(t)) == utf16_le_bytes(t).len(),
        utf16_field(utf16_le_bytes(t)) == Some(t),
{
    let u = utf16_units(t);
    let b = units_bytes(u);
    lemma_units_bytes_len(u);
    lemma_bytes_units_of_units_bytes(u);
    lemma_units_nonzero(t);
    assert forall|j: int| 0 <= j < b.len() / 2 implies !(#[trigger] b[2 * j] == 0 && b[2 * j
        + 1] == 0) by {
        assert(bytes_units(b)[j] == le_u16(b, 2 * j));
        assert(u[j] != 0);
    }
    lemma_field_len_without_zero(b, 0);
    assert(b.take(b.len() as int) =~= b);
    lemma_decode_utf16_units(t);
    if t.len() > 0 {
        assert(t.last() != '\0');
    }
}

} // verus!
