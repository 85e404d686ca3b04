//! The client side of the channel: which PDUs answer a server handshake.

use vstd::prelude::*;
use crate::error::DecodeError;
use crate::exec::{ExecOrderView, RailExecOrder};
use crate::pdu::{pdu_decode, views_are, PduView, RailDataPdu};
use crate::sysparam::{
    with_byte, with_high_contrast, with_rect, HighContrastView, RailHighContrast,
    RailSysParamOrder, Rectangle16, SPI_SET_DRAG_FULL_WINDOWS, SPI_SET_KEYBOARD_CUES,
    SPI_SET_KEYBOARD_PREF, SPI_SET_MOUSE_BUTTON_SWAP, SPI_SET_WORK_AREA,
};

verus! {

pub const TS_RAIL_CLIENTSTATUS_ALLOWLOCALMOVESIZE: u32 = 0x00000001;
pub const TS_RAIL_CLIENTSTATUS_AUTORECONNECT: u32 = 0x00000002;
pub const TS_RAIL_CLIENTSTATUS_ZORDER_SYNC: u32 = 0x00000004;
pub const TS_RAIL_CLIENTSTATUS_WINDOW_RESIZE_MARGIN_SUPPORTED: u32 = 0x00000010;
pub const TS_RAIL_CLIENTSTATUS_HIGH_DPI_ICONS_SUPPORTED: u32 = 0x00000020;
pub const TS_RAIL_CLIENTSTATUS_APPBAR_REMOTING_SUPPORTED: u32 = 0x00000040;
pub const TS_RAIL_CLIENTSTATUS_POWER_DISPLAY_REQUEST_SUPPORTED: u32 = 0x00000080;
pub const TS_RAIL_CLIENTSTATUS_GET_APPID_RESPONSE_EX_SUPPORTED: u32 = 0x00000100;
pub const TS_RAIL_CLIENTSTATUS_BIDIRECTIONAL_CLOAK_SUPPORTED: u32 = 0x00000200;

/// The capabilities this client announces.
pub const CLIENT_STATUS_FLAGS: u32 = TS_RAIL_CLIENTSTATUS_ALLOWLOCALMOVESIZE
    | TS_RAIL_CLIENTSTATUS_ZORDER_SYNC | TS_RAIL_CLIENTSTATUS_WINDOW_RESIZE_MARGIN_SUPPORTED
    | TS_RAIL_CLIENTSTATUS_APPBAR_REMOTING_SUPPORTED
    | TS_RAIL_CLIENTSTATUS_POWER_DISPLAY_REQUEST_SUPPORTED
    | TS_RAIL_CLIENTSTATUS_BIDIRECTIONAL_CLOAK_SUPPORTED;

/// The application that the client asks the server to launch.
pub open spec fn default_exec() -> ExecOrderView {
    ExecOrderView {
        flags: 0,
        program: "C:/Windows/notepad.exe"@,
        working_dir: seq![],
        arguments: seq![],
    }
}

/// The work area that the client reports.
pub open spec fn default_work_area() -> Rectangle16 {
    Rectangle16 { left: 0, top: 0, right: 1024, bottom: 768 }
}

/// The system parameters that the client sends after an extended handshake, in order.
pub open spec fn client_system_params() -> Seq<PduView> {
    seq![
        PduView::SysParam(
            with_high_contrast(
                HighContrastView { flags: 0x7E, color_scheme_length: 0, color_scheme: seq![] },
            ),
        ),
        PduView::SysParam(with_byte(SPI_SET_MOUSE_BUTTON_SWAP, 0)),
        PduView::SysParam(with_byte(SPI_SET_KEYBOARD_PREF, 0)),
        PduView::SysParam(with_byte(SPI_SET_DRAG_FULL_WINDOWS, 0)),
        PduView::SysParam(with_byte(SPI_SET_KEYBOARD_CUES, 0)),
        PduView::SysParam(with_rect(SPI_SET_WORK_AREA, default_work_area())),
    ]
}

/// The answer to a received PDU: client status then the launch request after a
/// handshake; client status, the system parameters, then the launch request after an
/// extended handshake; nothing after anything else.
pub open spec fn responses(p: PduView) -> Seq<PduView> {
    match p {
        PduView::Handshake { .. } => seq![
            PduView::ClientStatus { flags: CLIENT_STATUS_FLAGS },
            PduView::Exec(default_exec()),
        ],
        PduView::HandshakeEx { .. } => seq![PduView::ClientStatus { flags: CLIENT_STATUS_FLAGS }]
            + client_system_params() + seq![PduView::Exec(default_exec())],
        _ => seq![],
    }
}

/// The RAIL channel of a client. It holds no state: each answer depends on the received
/// PDU alone.
#[derive(Debug)]
pub struct Rdprail {}

impl Default for Rdprail {
    fn default() -> (r: Self) {
        Self::new()
    }
}

impl Rdprail {
    pub fn new() -> (r: Self) {
        Rdprail {  }
    }

    fn send_client_status(&self) -> (r: RailDataPdu)
        ensures
            r@ == (PduView::ClientStatus { flags: CLIENT_STATUS_FLAGS }),
    {
        let mut flags: u32 = TS_RAIL_CLIENTSTATUS_ALLOWLOCALMOVESIZE;
        flags |= TS_RAIL_CLIENTSTATUS_ZORDER_SYNC;
        flags |= TS_RAIL_CLIENTSTATUS_WINDOW_RESIZE_MARGIN_SUPPORTED;
        flags |= TS_RAIL_CLIENTSTATUS_APPBAR_REMOTING_SUPPORTED;
        flags |= TS_RAIL_CLIENTSTATUS_POWER_DISPLAY_REQUEST_SUPPORTED;
        flags |= TS_RAIL_CLIENTSTATUS_BIDIRECTIONAL_CLOAK_SUPPORTED;
        RailDataPdu::ClientStatus { flags }
    }

    fn send_client_system_param(&self) -> (r: Vec<RailDataPdu>)
        ensures
            views_are(r@, client_system_params()),
    {
        let mut vec: Vec<RailDataPdu> = Vec::new();
        let contrast = RailHighContrast { flags: 0x7E, color_scheme_length: 0, color_scheme: String::new() };
        vec.push(RailDataPdu::SysParam(RailSysParamOrder::new_with_high_contrast(contrast)));
        vec.push(RailDataPdu::SysParam(RailSysParamOrder::new_with_mouse_button_swap(0)));
        vec.push(RailDataPdu::SysParam(RailSysParamOrder::new_with_keyboard_pref(0)));
        vec.push(RailDataPdu::SysParam(RailSysParamOrder::new_with_drag_full_windows(0)));
        vec.push(RailDataPdu::SysParam(RailSysParamOrder::new_with_keyboard_cues(0)));
        let work_area = Rectangle16 { left: 0, top: 0, right: 1024, bottom: 768 };
        vec.push(RailDataPdu::SysParam(RailSysParamOrder::new_with_work_area(work_area)));
        vec
    }

    fn send_client_exec(&self) -> (r: RailDataPdu)
        ensures
            r@ == PduView::Exec(default_exec()),
    {
        RailDataPdu::Exec(
            RailExecOrder {
                flags: 0,
                remote_application_program: "C:/Windows/notepad.exe".to_owned(),
                remote_application_working_dir: String::new(),
                remote_application_arguments: String::new(),
            },
        )
    }

    /// The PDUs that answer `pdu`, in the order they are to be sent.
    pub fn respond(&self, pdu: &RailDataPdu) -> (r: Vec<RailDataPdu>)
        ensures
            views_are(r@, responses(pdu@)),
    {
        let mut out: Vec<RailDataPdu> = Vec::new();
        match pdu {
            RailDataPdu::Handshake { .. } => {
                out.push(self.send_client_status());
                out.push(self.send_client_exec());
            },
            RailDataPdu::HandshakeEx { .. } => {
                out.push(self.send_client_status());
                let mut params = self.send_client_system_param();
                out.append(&mut params);
                out.push(self.send_client_exec());
            },
            _ => {},
        }
        out
    }

    /// Decodes one received payload and answers it. Fails only where the payload does
    /// not decode.
    pub fn process(&mut self, payload: &[u8]) -> (r: Result<Vec<RailDataPdu>, DecodeError>)
        ensures
            match r {
                Ok(out) => pdu_decode(payload@) matches Ok((p, _)) && views_are(
                    out@,
                    responses(p),
                ),
                Err(e) => pdu_decode(payload@) == Err::<(PduView, nat), DecodeError>(e),
            },
    {
        match RailDataPdu::decode(payload) {
            Ok((pdu, _)) => Ok(self.respond(&pdu)),
            Err(e) => Err(e),
        }
    }
}

} // verus!
