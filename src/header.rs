//! The order header that starts every RAIL PDU.

use vstd::prelude::*;
use crate::error::DecodeError;
use crate::wire::{le_u16, read_u16, u16_bytes, write_u16};

verus! {

pub const TS_RAIL_ORDER_EXEC: u16 = 0x0001;
pub const TS_RAIL_ORDER_ACTIVATE: u16 = 0x0002;
pub const TS_RAIL_ORDER_SYSPARAM: u16 = 0x0003;
pub const TS_RAIL_ORDER_SYSCOMMAND: u16 = 0x0004;
pub const TS_RAIL_ORDER_HANDSHAKE: u16 = 0x0005;
pub const TS_RAIL_ORDER_NOTIFY_EVENT: u16 = 0x0006;
pub const TS_RAIL_ORDER_WINDOWMOVE: u16 = 0x0008;
pub const TS_RAIL_ORDER_LOCALMOVESIZE: u16 = 0x0009;
pub const TS_RAIL_ORDER_MINMAXINFO: u16 = 0x000A;
pub const TS_RAIL_ORDER_CLIENTSTATUS: u16 = 0x000B;
pub const TS_RAIL_ORDER_SYSMENU: u16 = 0x000C;
pub const TS_RAIL_ORDER_LANGBARINFO: u16 = 0x000D;
pub const TS_RAIL_ORDER_GET_APPID_REQ: u16 = 0x000E;
pub const TS_RAIL_ORDER_GET_APPID_RESP: u16 = 0x000F;
pub const TS_RAIL_ORDER_TASKBARINFO: u16 = 0x0010;
pub const TS_RAIL_ORDER_LANGUAGEIMEINFO: u16 = 0x0011;
pub const TS_RAIL_ORDER_COMPARTMENTINFO: u16 = 0x0012;
pub const TS_RAIL_ORDER_HANDSHAKE_EX: u16 = 0x0013;
pub const TS_RAIL_ORDER_ZORDER_SYNC: u16 = 0x0014;
pub const TS_RAIL_ORDER_CLOAK: u16 = 0x0015;
pub const TS_RAIL_ORDER_POWER_DISPLAY_REQUEST: u16 = 0x0016;
pub const TS_RAIL_ORDER_SNAP_ARRANGE: u16 = 0x0017;
pub const TS_RAIL_ORDER_GET_APPID_RESP_EX: u16 = 0x0018;
pub const TS_RAIL_ORDER_EXEC_RESULT: u16 = 0x0080;

/// The order type of a RAIL PDU, as the 16-bit tag of its header.
#[derive(Debug, Clone, Copy, PartialEq, Eq, Structural)]
pub struct RailOrderType(pub u16);

/// Order type and declared payload length: the first four bytes of every PDU.
#[derive(Debug, Clone, Copy, PartialEq, Eq, Structural)]
pub struct RailPDUHeader {
    pub order_type: RailOrderType,
    pub order_length: u16,
}

/// Bytes of a header: the tag, then the declared length.
pub open spec fn header_bytes(order_type: u16, order_length: u16) -> Seq<u8> {
    u16_bytes(order_type) + u16_bytes(order_length)
}

impl RailPDUHeader {
    pub const FIXED_PART_SIZE: usize = 4;

    pub open spec fn spec_encode(&self) -> Seq<u8> {
        header_bytes(self.order_type.0, self.order_length)
    }

    /// Appends the tag and the declared length.
    pub fn encode(&self, dst: &mut Vec<u8>)
        ensures
            final(dst)@ == old(dst)@ + self.spec_encode(),
    {
        write_u16(dst, self.order_type.0);
        write_u16(dst, self.order_length);
        assert(final(dst)@ =~= old(dst)@ + self.spec_encode());
    }

    pub fn size(&self) -> (r: usize)
        ensures
            r == self.spec_encode().len(),
    {
        Self::FIXED_PART_SIZE
    }

    /// Reads a header from the start of `src`; every tag is accepted. Fails only when
    /// fewer than four bytes are there. On success four bytes are consumed.
    pub fn decode(src: &[u8]) -> (r: Result<(RailPDUHeader, usize), DecodeError>)
        ensures
            src@.len() < 4 ==> r == Err::<(RailPDUHeader, usize), DecodeError>(
                DecodeError::NotEnoughBytes,
            ),
            src@.len() >= 4 ==> (r matches Ok((h, n)) && n == 4 && h.order_type.0 == le_u16(
                src@,
                0,
            ) && h.order_length == le_u16(src@, 2)),
    {
        if src.len() < 4 {
            return Err(DecodeError::NotEnoughBytes);
        }
        let order_type = read_u16(src, 0);
        let order_length = read_u16(src, 2);
        Ok((RailPDUHeader { order_type: RailOrderType(order_type), order_length }, 4))
    }
}

} // verus!
