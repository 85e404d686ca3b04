//! Properties that tie the codec's functions together.

use vstd::prelude::*;
use crate::error::DecodeError;
use crate::exec::{exec_order_bytes, exec_order_size};
use crate::header::{
    TS_RAIL_ORDER_EXEC_RESULT, TS_RAIL_ORDER_HANDSHAKE, TS_RAIL_ORDER_HANDSHAKE_EX,
    TS_RAIL_ORDER_SYSPARAM,
};
use crate::pdu::{pdu_bytes, pdu_decode, pdu_size, PduView};
use crate::sysparam::{
    byte_field, default_view, high_contrast_bytes, is_byte_param, is_known_param,
    is_rect_param, is_u32_param, rect_field, sysparam_bytes, sysparam_decode, sysparam_size,
    u32_field, with_high_contrast, wf_view, HighContrastView, SysParamView,
    SPI_SET_FILTER_KEYS, SPI_SET_HIGH_CONTRAST,
};
use crate::utf16::{lemma_utf16_round_trip, utf16_le_bytes};
use crate::wire::{le_u16, le_u32, lemma_le_u16_of, lemma_le_u32_of, u16_bytes, u32_bytes};

verus! {

/// The size of a system-parameter order is the length of its encoding.
pub proof fn lemma_sysparam_size_is_encoded_len(v: SysParamView)
    ensures
        sysparam_bytes(v).len() == sysparam_size(v),
{
}

/// The size of a launch request is the length of its encoding.
pub proof fn lemma_exec_order_size_is_encoded_len(o: crate::exec::ExecOrderView)
    ensures
        exec_order_bytes(o).len() == exec_order_size(o),
{
}

/// For every PDU, `size()` is the length of what `encode()` writes.
pub proof fn lemma_size_is_encoded_len(v: PduView)
    ensures
        pdu_bytes(v).len() == pdu_size(v),
{
    match v {
        PduView::SysParam(o) => lemma_sysparam_size_is_encoded_len(o),
        PduView::Exec(o) => lemma_exec_order_size_is_encoded_len(o),
        _ => {},
    }
}

/// A readable header whose order type has no decoder here, in particular any type
/// outside the table, gives `Unknown` after the four header bytes, never an error.
pub proof fn lemma_unknown_order_type(b: Seq<u8>)
    requires
        b.len() >= 4,
        le_u16(b, 0) != TS_RAIL_ORDER_HANDSHAKE,
        le_u16(b, 0) != TS_RAIL_ORDER_HANDSHAKE_EX,
        le_u16(b, 0) != TS_RAIL_ORDER_SYSPARAM,
        le_u16(b, 0) != TS_RAIL_ORDER_EXEC_RESULT,
    ensures
        pdu_decode(b) == Ok::<(PduView, nat), DecodeError>((PduView::Unknown, 4)),
{
}

/// Fewer than four bytes never decode: the result is a buffer underrun.
pub proof fn lemma_short_buffer_underruns(b: Seq<u8>)
    requires
        b.len() < 4,
    ensures
        pdu_decode(b) == Err::<(PduView, nat), DecodeError>(DecodeError::NotEnoughBytes),
{
}

/// A high-contrast order with an empty colour scheme name takes twelve bytes: identifier,
/// flags and length field.
pub proof fn lemma_empty_high_contrast_len(flags: u32, color_scheme_length: u32)
    ensures
        sysparam_bytes(
            with_high_contrast(
                HighContrastView { flags, color_scheme_length, color_scheme: seq![] },
            ),
        ).len() == 12,
{
    let h = HighContrastView { flags, color_scheme_length, color_scheme: seq![] };
    assert(crate::utf16::utf16_units(h.color_scheme) =~= seq![]);
    assert(high_contrast_bytes(h).len() == 8);
}

/// An unknown identifier decodes to the default order and takes its four bytes only,
/// whatever follows.
pub proof fn lemma_unknown_sysparam(b: Seq<u8>)
    requires
        b.len() >= 4,
        !is_known_param(le_u32(b, 0)),
    ensures
        sysparam_decode(b) == Ok::<(SysParamView, nat), DecodeError>((default_view(), 4)),
{
}

} // verus!

verus! {

/// Whether a string holds no NUL character.
pub open spec fn nul_free(s: Seq<char>) -> bool {
    forall|i: int| 0 <= i < s.len() ==> s[i] != '\0'
}

/// An order as the constructors make it, whose colour scheme name holds no NUL, decodes
/// from its own encoding to itself, taking every byte.
pub proof fn lemma_sysparam_round_trip(v: SysParamView)
    requires
        wf_view(v),
        nul_free(v.high_contrast.color_scheme),
    ensures
        sysparam_decode(sysparam_bytes(v)) == Ok::<(SysParamView, nat), DecodeError>(
            (v, sysparam_bytes(v).len()),
        ),
{
    let b = sysparam_bytes(v);
    let p = v.param;
    assert(b.subrange(0, 4) =~= u32_bytes(p));
    lemma_le_u32_of(b, 0, p);
    if is_byte_param(p) {
        assert(b[4] == byte_field(v));
    } else if is_rect_param(p) {
        let r = rect_field(v);
        assert(b.subrange(4, 6) =~= u16_bytes(r.left));
        assert(b.subrange(6, 8) =~= u16_bytes(r.top));
        assert(b.subrange(8, 10) =~= u16_bytes(r.right));
        assert(b.subrange(10, 12) =~= u16_bytes(r.bottom));
        lemma_le_u16_of(b, 4, r.left);
        lemma_le_u16_of(b, 6, r.top);
        lemma_le_u16_of(b, 8, r.right);
        lemma_le_u16_of(b, 10, r.bottom);
    } else if is_u32_param(p) {
        assert(b.subrange(4, 8) =~= u32_bytes(u32_field(v)));
        lemma_le_u32_of(b, 4, u32_field(v));
    } else if p == SPI_SET_HIGH_CONTRAST {
        let h = v.high_contrast;
        assert(b.subrange(4, 8) =~= u32_bytes(h.flags));
        assert(b.subrange(8, 12) =~= u32_bytes(h.color_scheme_length));
        lemma_le_u32_of(b, 4, h.flags);
        lemma_le_u32_of(b, 8, h.color_scheme_length);
        assert(b.skip(12) =~= utf16_le_bytes(h.color_scheme));
        lemma_utf16_round_trip(h.color_scheme);
    } else if p == SPI_SET_FILTER_KEYS {
        let k = v.filter_keys;
        assert(b.subrange(4, 8) =~= u32_bytes(k.flags));
        assert(b.subrange(8, 12) =~= u32_bytes(k.wait_time));
        assert(b.subrange(12, 16) =~= u32_bytes(k.delay_time));
        assert(b.subrange(16, 20) =~= u32_bytes(k.repeat_time));
        assert(b.subrange(20, 24) =~= u32_bytes(k.bounce_time));
        lemma_le_u32_of(b, 4, k.flags);
        lemma_le_u32_of(b, 8, k.wait_time);
        lemma_le_u32_of(b, 12, k.delay_time);
        lemma_le_u32_of(b, 16, k.repeat_time);
        lemma_le_u32_of(b, 20, k.bounce_time);
    }
}

/// The PDUs that both encode and decode here: handshakes of either kind, and
/// system-parameter orders as the constructors make them, with a NUL-free colour scheme
/// name and a payload that its length field can declare.
pub open spec fn round_trippable(v: PduView) -> bool {
    match v {
        PduView::Handshake { .. } => true,
        PduView::HandshakeEx { .. } => true,
        PduView::SysParam(o) => wf_view(o) && nul_free(o.high_contrast.color_scheme)
            && sysparam_bytes(o).len() <= 0xFFFF,
        _ => false,
    }
}

/// Decoding the encoding of a PDU gives the PDU back, and takes every byte.
pub proof fn lemma_round_trip(v: PduView)
    requires
        round_trippable(v),
    ensures
        pdu_decode(pdu_bytes(v)) == Ok::<(PduView, nat), DecodeError>((v, pdu_bytes(v).len())),
{
    let b = pdu_bytes(v);
    match v {
        PduView::Handshake { builder_number } => {
            assert(b.subrange(0, 2) =~= u16_bytes(TS_RAIL_ORDER_HANDSHAKE));
            assert(b.subrange(4, 8) =~= u32_bytes(builder_number));
            lemma_le_u16_of(b, 0, TS_RAIL_ORDER_HANDSHAKE);
            lemma_le_u32_of(b, 4, builder_number);
        },
        PduView::HandshakeEx { builder_number, rail_handshake_flags } => {
            assert(b.subrange(0, 2) =~= u16_bytes(TS_RAIL_ORDER_HANDSHAKE_EX));
            assert(b.subrange(4, 8) =~= u32_bytes(builder_number));
            assert(b.subrange(8, 12) =~= u32_bytes(rail_handshake_flags));
            lemma_le_u16_of(b, 0, TS_RAIL_ORDER_HANDSHAKE_EX);
            lemma_le_u32_of(b, 4, builder_number);
            lemma_le_u32_of(b, 8, rail_handshake_flags);
        },
        PduView::SysParam(o) => {
            assert(b.subrange(0, 2) =~= u16_bytes(TS_RAIL_ORDER_SYSPARAM));
            lemma_le_u16_of(b, 0, TS_RAIL_ORDER_SYSPARAM);
            assert(b.skip(4) =~= sysparam_bytes(o));
            lemma_sysparam_round_trip(o);
        },
        _ => {},
    }
}

} // verus!
