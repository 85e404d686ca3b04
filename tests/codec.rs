use ironrdp_rdprail::error::{DecodeError, EncodeError};
use ironrdp_rdprail::exec::RailExecOrder;
use ironrdp_rdprail::header::{RailOrderType, RailPDUHeader};
use ironrdp_rdprail::pdu::RailDataPdu;
use ironrdp_rdprail::sysparam::{
    RailHighContrast, RailSysParamOrder, Rectangle16, TsFilterKeys, SPI_SET_HIGH_CONTRAST,
};

fn encode(pdu: &RailDataPdu) -> Vec<u8> {
    let mut out = Vec::new();
    pdu.encode(&mut out).expect("encodes");
    out
}

fn encode_order(order: &RailSysParamOrder) -> Vec<u8> {
    let mut out = Vec::new();
    order.encode(&mut out);
    out
}

fn same_order(a: &RailSysParamOrder, b: &RailSysParamOrder) -> bool {
    a.param == b.param
        && a.params == b.params
        && a.drag_full_windows == b.drag_full_windows
        && a.keyboard_cues == b.keyboard_cues
        && a.keyboard_pref == b.keyboard_pref
        && a.mouse_button_swap == b.mouse_button_swap
        && a.work_area == b.work_area
        && a.display_change == b.display_change
        && a.taskbar_pos == b.taskbar_pos
        && a.high_contrast.flags == b.high_contrast.flags
        && a.high_contrast.color_scheme_length == b.high_contrast.color_scheme_length
        && a.high_contrast.color_scheme == b.high_contrast.color_scheme
        && a.caret_width == b.caret_width
        && a.sticky_keys == b.sticky_keys
        && a.toggle_keys == b.toggle_keys
        && a.filter_keys == b.filter_keys
        && a.set_screen_save_active == b.set_screen_save_active
        && a.set_screen_save_secure == b.set_screen_save_secure
}

fn rect() -> Rectangle16 {
    Rectangle16 { left: 1, top: 2, right: 300, bottom: 40000 }
}

fn sample_orders() -> Vec<RailSysParamOrder> {
    vec![
        RailSysParamOrder::new_with_drag_full_windows(1),
        RailSysParamOrder::new_with_keyboard_cues(1),
        RailSysParamOrder::new_with_keyboard_pref(1),
        RailSysParamOrder::new_with_mouse_button_swap(1),
        RailSysParamOrder::new_with_work_area(rect()),
        RailSysParamOrder::new_with_display_change(rect()),
        RailSysParamOrder::new_with_taskbar_pos(rect()),
        RailSysParamOrder::new_with_high_contrast(RailHighContrast {
            flags: 0x7E,
            color_scheme_length: 10,
            color_scheme: "Black\u{1F600}".to_string(),
        }),
        RailSysParamOrder::new_with_filter_keys(TsFilterKeys {
            flags: 1,
            wait_time: 2,
            delay_time: 3,
            repeat_time: 4,
            bounce_time: 0xFFFF_FFFF,
        }),
        RailSysParamOrder::new_with_sticky_keys(0x1234_5678),
        RailSysParamOrder::new_with_caret_width(3),
        RailSysParamOrder::new_with_toggle_keys(9),
        RailSysParamOrder::new_with_scree_save_active(1),
        RailSysParamOrder::new_with_scree_save_secure(1),
    ]
}

#[test]
fn header_round_trip() {
    let header = RailPDUHeader { order_type: RailOrderType(0x0013), order_length: 8 };
    let mut out = Vec::new();
    header.encode(&mut out);
    assert_eq!(out, vec![0x13, 0x00, 0x08, 0x00]);
    assert_eq!(header.size(), 4);
    assert_eq!(RailPDUHeader::decode(&out), Ok((header, 4)));
}

#[test]
fn header_underrun() {
    assert_eq!(RailPDUHeader::decode(&[1, 2, 3]), Err(DecodeError::NotEnoughBytes));
}

#[test]
fn handshake_exact_bytes() {
    let pdu = RailDataPdu::Handshake { builder_number: 12345 };
    assert_eq!(encode(&pdu), vec![0x05, 0x00, 0x04, 0x00, 0x39, 0x30, 0x00, 0x00]);
}

#[test]
fn handshake_ex_exact_bytes() {
    let pdu = RailDataPdu::HandshakeEx { builder_number: 1, rail_handshake_flags: 2 };
    assert_eq!(
        encode(&pdu),
        vec![0x13, 0x00, 0x08, 0x00, 1, 0, 0, 0, 2, 0, 0, 0]
    );
}

#[test]
fn client_status_exact_bytes() {
    let pdu = RailDataPdu::ClientStatus { flags: 0x2D5 };
    assert_eq!(encode(&pdu), vec![0x0B, 0x00, 0x04, 0x00, 0xD5, 0x02, 0x00, 0x00]);
}

#[test]
fn handshake_round_trip() {
    let bytes = encode(&RailDataPdu::Handshake { builder_number: 0xDEAD_BEEF });
    match RailDataPdu::decode(&bytes) {
        Ok((RailDataPdu::Handshake { builder_number }, n)) => {
            assert_eq!(builder_number, 0xDEAD_BEEF);
            assert_eq!(n, bytes.len());
        }
        other => panic!("unexpected {:?}", other),
    }
}

#[test]
fn handshake_ex_round_trip() {
    let bytes = encode(&RailDataPdu::HandshakeEx { builder_number: 7, rail_handshake_flags: 0x10 });
    match RailDataPdu::decode(&bytes) {
        Ok((RailDataPdu::HandshakeEx { builder_number, rail_handshake_flags }, n)) => {
            assert_eq!(builder_number, 7);
            assert_eq!(rail_handshake_flags, 0x10);
            assert_eq!(n, 12);
        }
        other => panic!("unexpected {:?}", other),
    }
}

#[test]
fn every_sysparam_kind_round_trips() {
    for order in sample_orders() {
        let bytes = encode_order(&order);
        let (decoded, n) = RailSysParamOrder::decode(&bytes).expect("decodes");
        assert!(same_order(&decoded, &order), "{:?} came back as {:?}", order, decoded);
        assert_eq!(n, bytes.len());
    }
}

#[test]
fn every_sysparam_kind_round_trips_in_a_pdu() {
    for order in sample_orders() {
        let param = order.param;
        let bytes = encode(&RailDataPdu::SysParam(order));
        match RailDataPdu::decode(&bytes) {
            Ok((RailDataPdu::SysParam(decoded), n)) => {
                assert_eq!(decoded.param, param);
                assert_eq!(n, bytes.len());
            }
            other => panic!("unexpected {:?}", other),
        }
    }
}

#[test]
fn sysparam_size_matches_encoding() {
    for order in sample_orders() {
        assert_eq!(encode_order(&order).len(), order.size(), "{:?}", order);
    }
    let unknown = RailSysParamOrder::new();
    assert_eq!(encode_order(&unknown).len(), unknown.size());
    assert_eq!(unknown.size(), 4);
}

#[test]
fn pdu_size_matches_encoding() {
    let mut pdus = vec![
        RailDataPdu::Handshake { builder_number: 1 },
        RailDataPdu::HandshakeEx { builder_number: 1, rail_handshake_flags: 0 },
        RailDataPdu::ClientStatus { flags: 3 },
        RailDataPdu::Exec(RailExecOrder {
            flags: 0,
            remote_application_program: "notepad".to_string(),
            remote_application_working_dir: String::new(),
            remote_application_arguments: String::new(),
        }),
        RailDataPdu::Unknown,
        RailDataPdu::Activate,
    ];
    for order in sample_orders() {
        pdus.push(RailDataPdu::SysParam(order));
    }
    for pdu in &pdus {
        assert_eq!(encode(pdu).len(), pdu.size(), "{:?}", pdu);
    }
}

#[test]
fn unknown_and_bodiless_encode_to_nothing() {
    assert!(encode(&RailDataPdu::Unknown).is_empty());
    assert!(encode(&RailDataPdu::Cloak).is_empty());
    assert_eq!(RailDataPdu::Cloak.size(), 0);
}

#[test]
fn unknown_order_type_decodes_to_unknown() {
    let bytes = [0x99, 0x00, 0x04, 0x00, 1, 2, 3, 4];
    match RailDataPdu::decode(&bytes) {
        Ok((RailDataPdu::Unknown, 4)) => {}
        other => panic!("unexpected {:?}", other),
    }
}

#[test]
fn listed_order_type_without_decoder_is_unknown() {
    let bytes = encode(&RailDataPdu::ClientStatus { flags: 1 });
    match RailDataPdu::decode(&bytes) {
        Ok((RailDataPdu::Unknown, 4)) => {}
        other => panic!("unexpected {:?}", other),
    }
    match RailDataPdu::decode(&[0x02, 0x00, 0x00, 0x00]) {
        Ok((RailDataPdu::Unknown, 4)) => {}
        other => panic!("unexpected {:?}", other),
    }
}

#[test]
fn short_buffers_underrun() {
    for len in 0..4 {
        let bytes = vec![0x05u8; len];
        assert!(matches!(RailDataPdu::decode(&bytes), Err(DecodeError::NotEnoughBytes)));
    }
}

#[test]
fn truncated_handshake_underruns() {
    let bytes = [0x05, 0x00, 0x04, 0x00, 0x39, 0x30];
    assert!(matches!(RailDataPdu::decode(&bytes), Err(DecodeError::NotEnoughBytes)));
}

#[test]
fn truncated_sysparam_underruns() {
    let bytes = [0x03, 0x00, 0x08, 0x00, 0x2F, 0x00, 0x00, 0x00, 1, 0];
    assert!(matches!(RailDataPdu::decode(&bytes), Err(DecodeError::NotEnoughBytes)));
}

#[test]
fn empty_high_contrast_is_twelve_bytes() {
    let order = RailSysParamOrder::new_with_high_contrast(RailHighContrast {
        flags: 0x7E,
        color_scheme_length: 0,
        color_scheme: String::new(),
    });
    let bytes = encode_order(&order);
    assert_eq!(bytes.len(), 12);
    assert_eq!(bytes, vec![0x43, 0, 0, 0, 0x7E, 0, 0, 0, 0, 0, 0, 0]);
    assert_eq!(order.size(), 12);
}

#[test]
fn high_contrast_string_is_utf16() {
    let order = RailSysParamOrder::new_with_high_contrast(RailHighContrast {
        flags: 1,
        color_scheme_length: 6,
        color_scheme: "é\u{1F600}".to_string(),
    });
    let bytes = encode_order(&order);
    assert_eq!(
        bytes,
        vec![0x43, 0, 0, 0, 1, 0, 0, 0, 6, 0, 0, 0, 0xE9, 0x00, 0x3D, 0xD8, 0x00, 0xDE]
    );
}

#[test]
fn high_contrast_string_stops_at_terminator() {
    let bytes = [
        0x43, 0, 0, 0, 1, 0, 0, 0, 4, 0, 0, 0, b'A', 0, 0, 0, 0xFF, 0xFF,
    ];
    let (order, n) = RailSysParamOrder::decode(&bytes).expect("decodes");
    assert_eq!(order.param, SPI_SET_HIGH_CONTRAST);
    assert_eq!(order.high_contrast.color_scheme, "A");
    assert_eq!(order.high_contrast.color_scheme_length, 4);
    assert_eq!(n, 16);
}

#[test]
fn unpaired_surrogate_is_invalid() {
    let bytes = [0x43, 0, 0, 0, 1, 0, 0, 0, 2, 0, 0, 0, 0x00, 0xD8];
    assert!(matches!(RailSysParamOrder::decode(&bytes), Err(DecodeError::InvalidString)));
}

#[test]
fn unknown_sysparam_keeps_trailing_bytes() {
    let bytes = [0xFF, 0xFF, 0xFF, 0xFF, 9, 8, 7, 6, 5];
    let (order, n) = RailSysParamOrder::decode(&bytes).expect("decodes");
    assert_eq!(n, 4);
    assert!(same_order(&order, &RailSysParamOrder::new()));
}

#[test]
fn constructors_set_identifier_and_mask() {
    let order = RailSysParamOrder::new_with_taskbar_pos(rect());
    assert_eq!(order.param, 0xF000);
    assert_eq!(order.params, 0x40);
    assert_eq!(order.taskbar_pos, rect());
    assert_eq!(order.display_change, Rectangle16 { left: 0, top: 0, right: 0, bottom: 0 });
    let order = RailSysParamOrder::new_with_keyboard_cues(1);
    assert_eq!(order.param, 0x100B);
    assert_eq!(order.params, 0x02);
}

#[test]
fn rectangle_exact_bytes() {
    let order = RailSysParamOrder::new_with_work_area(Rectangle16 {
        left: 0,
        top: 0,
        right: 1024,
        bottom: 768,
    });
    assert_eq!(
        encode_order(&order),
        vec![0x2F, 0, 0, 0, 0, 0, 0, 0, 0x00, 0x04, 0x00, 0x03]
    );
}

#[test]
fn exec_order_exact_bytes() {
    let order = RailExecOrder {
        flags: 0x0102,
        remote_application_program: "ab".to_string(),
        remote_application_working_dir: "C:/tmp".to_string(),
        remote_application_arguments: "-x".to_string(),
    };
    let mut out = Vec::new();
    assert_eq!(order.encode(&mut out), Ok(()));
    assert_eq!(out, vec![0x02, 0x01, 4, 0, 0, 0, 0, 0, b'a', 0, b'b', 0]);
    assert_eq!(order.size(), 12);
    let bytes = encode(&RailDataPdu::Exec(order));
    assert_eq!(&bytes[..4], &[0x01, 0x00, 12, 0x00]);
}

#[test]
fn exec_order_too_long() {
    let order = RailExecOrder {
        flags: 0,
        remote_application_program: "x".repeat(40000),
        remote_application_working_dir: String::new(),
        remote_application_arguments: String::new(),
    };
    let mut out = vec![1u8];
    assert_eq!(order.encode(&mut out), Err(EncodeError::TooLong));
    assert_eq!(out, vec![1u8]);
    let mut out = Vec::new();
    assert_eq!(RailDataPdu::Exec(order).encode(&mut out), Err(EncodeError::TooLong));
    assert!(out.is_empty());
}

#[test]
fn oversized_sysparam_payload_is_refused() {
    let order = RailSysParamOrder::new_with_high_contrast(RailHighContrast {
        flags: 0,
        color_scheme_length: 0,
        color_scheme: "y".repeat(40000),
    });
    let mut out = Vec::new();
    assert_eq!(RailDataPdu::SysParam(order).encode(&mut out), Err(EncodeError::TooLong));
    assert!(out.is_empty());
}

#[test]
fn exec_result_decodes() {
    let bytes = [
        0x80, 0x00, 0x10, 0x00, // header
        0x01, 0x00, 0x02, 0x00, 0x03, 0x00, 0x00, 0x00, 0x04, 0x00, 0x04, 0x00, // fixed
        b'f', 0x00, 0x00, 0x00, // file name
    ];
    match RailDataPdu::decode(&bytes) {
        Ok((RailDataPdu::ExecResult(r), n)) => {
            assert_eq!((r.flags, r.result, r.raw, r.reserved, r.file_length), (1, 2, 3, 4, 4));
            assert_eq!(r.file, "f");
            assert_eq!(n, bytes.len());
        }
        other => panic!("unexpected {:?}", other),
    }
}

#[test]
fn exec_result_underrun() {
    let bytes = [0x80, 0x00, 0x10, 0x00, 0x01, 0x00];
    assert!(matches!(RailDataPdu::decode(&bytes), Err(DecodeError::NotEnoughBytes)));
}
