use ironrdp_rdprail::error::DecodeError;
use ironrdp_rdprail::pdu::RailDataPdu;
use ironrdp_rdprail::rdprail::CLIENT_STATUS_FLAGS;
use ironrdp_rdprail::sysparam::{
    Rectangle16, SPI_SET_DRAG_FULL_WINDOWS, SPI_SET_HIGH_CONTRAST, SPI_SET_KEYBOARD_CUES,
    SPI_SET_KEYBOARD_PREF, SPI_SET_MOUSE_BUTTON_SWAP, SPI_SET_WORK_AREA,
};
use ironrdp_rdprail::Rdprail;

fn check_status(pdu: &RailDataPdu) {
    match pdu {
        RailDataPdu::ClientStatus { flags } => {
            assert_eq!(*flags, 0x1 | 0x4 | 0x10 | 0x40 | 0x80 | 0x200)
        }
        other => panic!("expected client status, got {:?}", other),
    }
}

fn check_exec(pdu: &RailDataPdu) {
    match pdu {
        RailDataPdu::Exec(order) => {
            assert_eq!(order.flags, 0);
            assert_eq!(order.remote_application_program, "C:/Windows/notepad.exe");
            assert_eq!(order.remote_application_working_dir, "");
            assert_eq!(order.remote_application_arguments, "");
        }
        other => panic!("expected exec, got {:?}", other),
    }
}

fn check_param(pdu: &RailDataPdu, param: u32) {
    match pdu {
        RailDataPdu::SysParam(order) => assert_eq!(order.param, param),
        other => panic!("expected system parameter, got {:?}", other),
    }
}

#[test]
fn capability_flags_value() {
    assert_eq!(CLIENT_STATUS_FLAGS, 0x2D5);
}

#[test]
fn handshake_answer() {
    let rail = Rdprail::new();
    let out = rail.respond(&RailDataPdu::Handshake { builder_number: 12345 });
    assert_eq!(out.len(), 2);
    check_status(&out[0]);
    check_exec(&out[1]);
}

#[test]
fn handshake_ex_answer() {
    let rail = Rdprail::default();
    let out = rail.respond(&RailDataPdu::HandshakeEx { builder_number: 1, rail_handshake_flags: 0 });
    assert_eq!(out.len(), 8);
    check_status(&out[0]);
    check_param(&out[1], SPI_SET_HIGH_CONTRAST);
    if let RailDataPdu::SysParam(order) = &out[1] {
        assert_eq!(order.high_contrast.flags, 0x7E);
        assert_eq!(order.high_contrast.color_scheme, "");
    }
    check_param(&out[2], SPI_SET_MOUSE_BUTTON_SWAP);
    check_param(&out[3], SPI_SET_KEYBOARD_PREF);
    check_param(&out[4], SPI_SET_DRAG_FULL_WINDOWS);
    check_param(&out[5], SPI_SET_KEYBOARD_CUES);
    check_param(&out[6], SPI_SET_WORK_AREA);
    if let RailDataPdu::SysParam(order) = &out[6] {
        assert_eq!(order.work_area, Rectangle16 { left: 0, top: 0, right: 1024, bottom: 768 });
    }
    check_exec(&out[7]);
}

#[test]
fn other_pdus_get_no_answer() {
    let rail = Rdprail::new();
    assert!(rail.respond(&RailDataPdu::Unknown).is_empty());
    assert!(rail.respond(&RailDataPdu::ClientStatus { flags: 1 }).is_empty());
    let order = ironrdp_rdprail::sysparam::RailSysParamOrder::new_with_caret_width(2);
    assert!(rail.respond(&RailDataPdu::SysParam(order)).is_empty());
}

#[test]
fn process_handshake_payload() {
    let mut rail = Rdprail::new();
    let payload = [0x05, 0x00, 0x04, 0x00, 0x39, 0x30, 0x00, 0x00];
    let out = rail.process(&payload).expect("decodes");
    assert_eq!(out.len(), 2);
    check_status(&out[0]);
    check_exec(&out[1]);
}

#[test]
fn process_unknown_payload() {
    let mut rail = Rdprail::new();
    let out = rail.process(&[0x42, 0x00, 0x00, 0x00]).expect("decodes");
    assert!(out.is_empty());
}

#[test]
fn process_short_payload_fails() {
    let mut rail = Rdprail::new();
    assert!(matches!(rail.process(&[0x05]), Err(DecodeError::NotEnoughBytes)));
}
