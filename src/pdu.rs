//! The RAIL data PDU: a header whose order type selects the body.

use vstd::prelude::*;
use crate::error::{DecodeError, EncodeError};
use crate::exec::{
    exec_order_bytes, exec_order_fits, exec_order_size, exec_result_decode, ExecOrderView,
    ExecResultView, RailExecOrder, RailExecResult,
};
use crate::header::{
    header_bytes, RailOrderType, RailPDUHeader, TS_RAIL_ORDER_ACTIVATE, TS_RAIL_ORDER_CLIENTSTATUS,
    TS_RAIL_ORDER_CLOAK, TS_RAIL_ORDER_COMPARTMENTINFO, TS_RAIL_ORDER_EXEC,
    TS_RAIL_ORDER_EXEC_RESULT, TS_RAIL_ORDER_GET_APPID_REQ, TS_RAIL_ORDER_GET_APPID_RESP,
    TS_RAIL_ORDER_GET_APPID_RESP_EX, TS_RAIL_ORDER_HANDSHAKE, TS_RAIL_ORDER_HANDSHAKE_EX,
    TS_RAIL_ORDER_LANGBARINFO, TS_RAIL_ORDER_LANGUAGEIMEINFO, TS_RAIL_ORDER_LOCALMOVESIZE,
    TS_RAIL_ORDER_MINMAXINFO, TS_RAIL_ORDER_NOTIFY_EVENT, TS_RAIL_ORDER_POWER_DISPLAY_REQUEST,
    TS_RAIL_ORDER_SNAP_ARRANGE, TS_RAIL_ORDER_SYSCOMMAND, TS_RAIL_ORDER_SYSMENU,
    TS_RAIL_ORDER_SYSPARAM, TS_RAIL_ORDER_TASKBARINFO, TS_RAIL_ORDER_WINDOWMOVE,
    TS_RAIL_ORDER_ZORDER_SYNC,
};
use crate::sysparam::{sysparam_bytes, sysparam_decode, sysparam_size, RailSysParamOrder, SysParamView};
use crate::wire::{le_u16, le_u32, read_u32, u32_bytes, write_bytes, write_u32};

verus! {

/// One message on the channel. Order types without a body of their own here are listed
/// by name; they are never decoded and encode to nothing.
#[derive(Debug)]
pub enum RailDataPdu {
    /// An order type that is not handled.
    Unknown,
    Exec(RailExecOrder),
    Activate,
    SysParam(RailSysParamOrder),
    SysCommand,
    Handshake { builder_number: u32 },
    NotifyEvent,
    WindowMove,
    LocalMoveSize,
    MinMaxInfo,
    ClientStatus { flags: u32 },
    SysMenu,
    LangBarInfo,
    GetAppIdReq,
    GetAppIdResp,
    TaskbarInfo,
    LanguageImeInfo,
    CompartmentInfo,
    HandshakeEx { builder_number: u32, rail_handshake_flags: u32 },
    ZOrderSync,
    Cloak,
    PowerDisplayRequest,
    SnapArrange,
    GetAppIdRespEx,
    ExecResult(RailExecResult),
}

/// A PDU as a mathematical value; the variants without a body are told apart by their
/// order type.
pub ghost enum PduView {
    Unknown,
    Exec(ExecOrderView),
    SysParam(SysParamView),
    Handshake { builder_number: u32 },
    ClientStatus { flags: u32 },
    HandshakeEx { builder_number: u32, rail_handshake_flags: u32 },
    ExecResult(ExecResultView),
    Bodiless(u16),
}

impl View for RailDataPdu {
    type V = PduView;

    open spec fn view(&self) -> PduView {
        match self {
            RailDataPdu::Unknown => PduView::Unknown,
            RailDataPdu::Exec(o) => PduView::Exec(o@),
            RailDataPdu::Activate => PduView::Bodiless(TS_RAIL_ORDER_ACTIVATE),
            RailDataPdu::SysParam(o) => PduView::SysParam(o@),
            RailDataPdu::SysCommand => PduView::Bodiless(TS_RAIL_ORDER_SYSCOMMAND),
            RailDataPdu::Handshake { builder_number } => PduView::Handshake {
                builder_number: *builder_number,
            },
            RailDataPdu::NotifyEvent => PduView::Bodiless(TS_RAIL_ORDER_NOTIFY_EVENT),
            RailDataPdu::WindowMove => PduView::Bodiless(TS_RAIL_ORDER_WINDOWMOVE),
            RailDataPdu::LocalMoveSize => PduView::Bodiless(TS_RAIL_ORDER_LOCALMOVESIZE),
            RailDataPdu::MinMaxInfo => PduView::Bodiless(TS_RAIL_ORDER_MINMAXINFO),
            RailDataPdu::ClientStatus { flags } => PduView::ClientStatus { flags: *flags },
            RailDataPdu::SysMenu => PduView::Bodiless(TS_RAIL_ORDER_SYSMENU),
            RailDataPdu::LangBarInfo => PduView::Bodiless(TS_RAIL_ORDER_LANGBARINFO),
            RailDataPdu::GetAppIdReq => PduView::Bodiless(TS_RAIL_ORDER_GET_APPID_REQ),
            RailDataPdu::GetAppIdResp => PduView::Bodiless(TS_RAIL_ORDER_GET_APPID_RESP),
            RailDataPdu::TaskbarInfo => PduView::Bodiless(TS_RAIL_ORDER_TASKBARINFO),
            RailDataPdu::LanguageImeInfo => PduView::Bodiless(TS_RAIL_ORDER_LANGUAGEIMEINFO),
            RailDataPdu::CompartmentInfo => PduView::Bodiless(TS_RAIL_ORDER_COMPARTMENTINFO),
            RailDataPdu::HandshakeEx { builder_number, rail_handshake_flags } => {
                PduView::HandshakeEx {
                    builder_number: *builder_number,
                    rail_handshake_flags: *rail_handshake_flags,
                }
            },
            RailDataPdu::ZOrderSync => PduView::Bodiless(TS_RAIL_ORDER_ZORDER_SYNC),
            RailDataPdu::Cloak => PduView::Bodiless(TS_RAIL_ORDER_CLOAK),
            RailDataPdu::PowerDisplayRequest => PduView::Bodiless(
                TS_RAIL_ORDER_POWER_DISPLAY_REQUEST,
            ),
            RailDataPdu::SnapArrange => PduView::Bodiless(TS_RAIL_ORDER_SNAP_ARRANGE),
            RailDataPdu::GetAppIdRespEx => PduView::Bodiless(TS_RAIL_ORDER_GET_APPID_RESP_EX),
            RailDataPdu::ExecResult(r) => PduView::ExecResult(r@),
        }
    }
}

/// Whether the PDUs of `s` are, one for one and in order, those of `v`.
pub open spec fn views_are(s: Seq<RailDataPdu>, v: Seq<PduView>) -> bool {
    &&& s.len() == v.len()
    &&& forall|i: int| 0 <= i < s.len() ==> #[trigger] s[i]@ == v[i]
}

/// Whether every length field of the encoding can declare what follows it.
pub open spec fn pdu_fits(v: PduView) -> bool {
    match v {
        PduView::SysParam(o) => sysparam_bytes(o).len() <= 0xFFFF,
        PduView::Exec(o) => exec_order_fits(o) && exec_order_bytes(o).len() <= 0xFFFF,
        _ => true,
    }
}

/// The encoding of a PDU: its header, whose length field declares the payload's size,
/// then the payload. `Unknown`, an inbound launch result and the order types without a
/// body here encode to nothing.
pub open spec fn pdu_bytes(v: PduView) -> Seq<u8> {
    match v {
        PduView::Handshake { builder_number } => header_bytes(TS_RAIL_ORDER_HANDSHAKE, 4)
            + u32_bytes(builder_number),
        PduView::HandshakeEx { builder_number, rail_handshake_flags } => header_bytes(
            TS_RAIL_ORDER_HANDSHAKE_EX,
            8,
        ) + u32_bytes(builder_number) + u32_bytes(rail_handshake_flags),
        PduView::ClientStatus { flags } => header_bytes(TS_RAIL_ORDER_CLIENTSTATUS, 4)
            + u32_bytes(flags),
        PduView::SysParam(o) => header_bytes(
            TS_RAIL_ORDER_SYSPARAM,
            sysparam_bytes(o).len() as u16,
        ) + sysparam_bytes(o),
        PduView::Exec(o) => header_bytes(TS_RAIL_ORDER_EXEC, exec_order_bytes(o).len() as u16)
            + exec_order_bytes(o),
        _ => seq![],
    }
}

/// Encoded size by variant: four bytes of header plus the payload, or zero for the
/// variants that encode to nothing.
pub open spec fn pdu_size(v: PduView) -> nat {
    match v {
        PduView::Handshake { .. } => 4 + 4,
        PduView::HandshakeEx { .. } => 4 + 8,
        PduView::ClientStatus { .. } => 4 + 4,
        PduView::SysParam(o) => 4 + sysparam_size(o),
        PduView::Exec(o) => 4 + exec_order_size(o),
        _ => 0,
    }
}

/// Decoding of a PDU at the start of `b` and the number of bytes it took. Fewer than
/// four bytes fail; an order type that is not handled gives `Unknown` after the header.
pub open spec fn pdu_decode(b: Seq<u8>) -> Result<(PduView, nat), DecodeError> {
    if b.len() < 4 {
        Err(DecodeError::NotEnoughBytes)
    } else {
        let t = le_u16(b, 0);
        let body = b.skip(4);
        if t == TS_RAIL_ORDER_HANDSHAKE {
            if b.len() < 8 {
                Err(DecodeError::NotEnoughBytes)
            } else {
                Ok((PduView::Handshake { builder_number: le_u32(b, 4) }, 8))
            }
        } else if t == TS_RAIL_ORDER_HANDSHAKE_EX {
            if b.len() < 12 {
                Err(DecodeError::NotEnoughBytes)
            } else {
                Ok(
                    (
                        PduView::HandshakeEx {
                            builder_number: le_u32(b, 4),
                            rail_handshake_flags: le_u32(b, 8),
                        },
                        12,
                    ),
                )
            }
        } else if t == TS_RAIL_ORDER_SYSPARAM {
            match sysparam_decode(body) {
                Ok((o, n)) => Ok((PduView::SysParam(o), 4 + n)),
                Err(e) => Err(e),
            }
        } else if t == TS_RAIL_ORDER_EXEC_RESULT {
            match exec_result_decode(body) {
                Ok((r, n)) => Ok((PduView::ExecResult(r), 4 + n)),
                Err(e) => Err(e),
            }
        } else {
            Ok((PduView::Unknown, 4))
        }
    }
}

fn write_header(dst: &mut Vec<u8>, order_type: u16, order_length: u16)
    ensures
        final(dst)@ == old(dst)@ + header_bytes(order_type, order_length),
{
    let header = RailPDUHeader { order_type: RailOrderType(order_type), order_length };
    header.encode(dst);
}

impl RailDataPdu {
    /// Reads a PDU from the start of `src` and says how many bytes it took.
    pub fn decode(src: &[u8]) -> (r: Result<(RailDataPdu, usize), DecodeError>)
        ensures
            match r {
                Ok((p, n)) => pdu_decode(src@) == Ok::<(PduView, nat), DecodeError>(
                    (p@, n as nat),
                ),
                Err(e) => pdu_decode(src@) == Err::<(PduView, nat), DecodeError>(e),
            },
    {
        let header = match RailPDUHeader::decode(src) {
            Ok((h, _)) => h,
            Err(e) => return Err(e),
        };
        let t = header.order_type.0;
        let body = vstd::slice::slice_subrange(src, 4, src.len());
        assert(body@ =~= src@.skip(4));
        if t == TS_RAIL_ORDER_HANDSHAKE {
            if src.len() < 8 {
                return Err(DecodeError::NotEnoughBytes);
            }
            let builder_number = read_u32(src, 4);
            Ok((RailDataPdu::Handshake { builder_number }, 8))
        } else if t == TS_RAIL_ORDER_HANDSHAKE_EX {
            if src.len() < 12 {
                return Err(DecodeError::NotEnoughBytes);
            }
            let builder_number = read_u32(src, 4);
            let rail_handshake_flags = read_u32(src, 8);
            Ok((RailDataPdu::HandshakeEx { builder_number, rail_handshake_flags }, 12))
        } else if t == TS_RAIL_ORDER_SYSPARAM {
            match RailSysParamOrder::decode(body) {
                Ok((o, n)) => Ok((RailDataPdu::SysParam(o), 4 + n)),
                Err(e) => Err(e),
            }
        } else if t == TS_RAIL_ORDER_EXEC_RESULT {
            match RailExecResult::decode(body) {
                Ok((r, n)) => Ok((RailDataPdu::ExecResult(r), 4 + n)),
                Err(e) => Err(e),
            }
        } else {
            Ok((RailDataPdu::Unknown, 4))
        }
    }

    /// Appends the PDU: its header, declaring the payload's exact length, then the
    /// payload. Fails, writing nothing, when a payload is longer than its length field
    /// can declare.
    pub fn encode(&self, dst: &mut Vec<u8>) -> (r: Result<(), EncodeError>)
        ensures
            r is Ok <==> pdu_fits(self@),
            r is Ok ==> final(dst)@ == old(dst)@ + pdu_bytes(self@),
            r is Err ==> final(dst)@ == old(dst)@ && r == Err::<(), EncodeError>(
                EncodeError::TooLong,
            ),
    {
        match self {
            RailDataPdu::Handshake { builder_number } => {
                write_header(dst, TS_RAIL_ORDER_HANDSHAKE, 4);
                write_u32(dst, *builder_number);
                assert(final(dst)@ =~= old(dst)@ + pdu_bytes(self@));
                Ok(())
            },
            RailDataPdu::HandshakeEx { builder_number, rail_handshake_flags } => {
                write_header(dst, TS_RAIL_ORDER_HANDSHAKE_EX, 8);
                write_u32(dst, *builder_number);
                write_u32(dst, *rail_handshake_flags);
                assert(final(dst)@ =~= old(dst)@ + pdu_bytes(self@));
                Ok(())
            },
            RailDataPdu::ClientStatus { flags } => {
                write_header(dst, TS_RAIL_ORDER_CLIENTSTATUS, 4);
                write_u32(dst, *flags);
                assert(final(dst)@ =~= old(dst)@ + pdu_bytes(self@));
                Ok(())
            },
            RailDataPdu::SysParam(order) => {
                let mut body: Vec<u8> = Vec::new();
                order.encode(&mut body);
                assert(body@ =~= sysparam_bytes(order@));
                if body.len() > 0xFFFF {
                    return Err(EncodeError::TooLong);
                }
                write_header(dst, TS_RAIL_ORDER_SYSPARAM, body.len() as u16);
                write_bytes(dst, body.as_slice());
                Ok(())
            },
            RailDataPdu::Exec(order) => {
                let mut body: Vec<u8> = Vec::new();
                match order.encode(&mut body) {
                    Ok(()) => {},
                    Err(e) => return Err(e),
                }
                assert(body@ =~= exec_order_bytes(order@));
                if body.len() > 0xFFFF {
                    return Err(EncodeError::TooLong);
                }
                write_header(dst, TS_RAIL_ORDER_EXEC, body.len() as u16);
                write_bytes(dst, body.as_slice());
                Ok(())
            },
            _ => {
                assert(final(dst)@ =~= old(dst)@ + pdu_bytes(self@));
                Ok(())
            },
        }
    }

    /// Encoded size: header plus payload for the variants that have an encoding, zero for
    /// the others.
    pub fn size(&self) -> (r: usize)
        requires
            pdu_size(self@) <= usize::MAX,
        ensures
            r == pdu_size(self@),
    {
        match self {
            RailDataPdu::Handshake { .. } => RailPDUHeader::FIXED_PART_SIZE + 4,
            RailDataPdu::HandshakeEx { .. } => RailPDUHeader::FIXED_PART_SIZE + 8,
            RailDataPdu::ClientStatus { .. } => RailPDUHeader::FIXED_PART_SIZE + 4,
            RailDataPdu::SysParam(order) => RailPDUHeader::FIXED_PART_SIZE + order.size(),
            RailDataPdu::Exec(order) => RailPDUHeader::FIXED_PART_SIZE + order.size(),
            _ => 0,
        }
    }
}

} // verus!
