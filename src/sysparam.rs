//! System-parameter orders: a payload keyed by a 32-bit SPI identifier.

use vstd::prelude::*;
use crate::error::DecodeError;
use crate::utf16::{lemma_utf16_field_len_bound, read_utf16_field, to_utf16_bytes, utf16_field, utf16_field_len, utf16_le_bytes};
use crate::wire::{
    le_u16, le_u32, read_u16, read_u32, read_u8, u16_bytes, u32_bytes, write_bytes, write_u16,
    write_u32, write_u8,
};

verus! {

pub const SPI_MASK_SET_DRAG_FULL_WINDOWS: u32 = 0x00000001;
pub const SPI_MASK_SET_KEYBOARD_CUES: u32 = 0x00000002;
pub const SPI_MASK_SET_KEYBOARD_PREF: u32 = 0x00000004;
pub const SPI_MASK_SET_MOUSE_BUTTON_SWAP: u32 = 0x00000008;
pub const SPI_MASK_SET_WORK_AREA: u32 = 0x00000010;
pub const SPI_MASK_DISPLAY_CHANGE: u32 = 0x00000020;
pub const SPI_MASK_TASKBAR_POS: u32 = 0x00000040;
pub const SPI_MASK_SET_HIGH_CONTRAST: u32 = 0x00000080;
pub const SPI_MASK_SET_SCREEN_SAVE_ACTIVE: u32 = 0x00000100;
pub const SPI_MASK_SET_SCREEN_SAVE_SECURE: u32 = 0x00000200;
pub const SPI_MASK_SET_CARET_WIDTH: u32 = 0x00000400;
pub const SPI_MASK_SET_STICKY_KEYS: u32 = 0x00000800;
pub const SPI_MASK_SET_TOGGLE_KEYS: u32 = 0x00001000;
pub const SPI_MASK_SET_FILTER_KEYS: u32 = 0x00002000;

pub const SPI_SET_DRAG_FULL_WINDOWS: u32 = 0x00000025;
pub const SPI_SET_KEYBOARD_CUES: u32 = 0x0000100B;
pub const SPI_SET_KEYBOARD_PREF: u32 = 0x00000045;
pub const SPI_SET_MOUSE_BUTTON_SWAP: u32 = 0x00000021;
pub const SPI_SET_WORK_AREA: u32 = 0x0000002F;
pub const SPI_DISPLAY_CHANGE: u32 = 0x0000F001;
pub const SPI_TASKBAR_POS: u32 = 0x0000F000;
pub const SPI_SET_HIGH_CONTRAST: u32 = 0x00000043;
pub const SPI_SET_CARET_WIDTH: u32 = 0x00002007;
pub const SPI_SET_STICKY_KEYS: u32 = 0x0000003B;
pub const SPI_SET_TOGGLE_KEYS: u32 = 0x00000035;
pub const SPI_SET_FILTER_KEYS: u32 = 0x00000033;
pub const SPI_SET_SCREEN_SAVE_ACTIVE: u32 = 0x00000011;
pub const SPI_SET_SCREEN_SAVE_SECURE: u32 = 0x00000077;

/// A rectangle of 16-bit coordinates; nothing ties `right` to `left`.
#[derive(Debug, Clone, Copy, PartialEq, Eq, Structural)]
pub struct Rectangle16 {
    pub left: u16,
    pub top: u16,
    pub right: u16,
    pub bottom: u16,
}

/// The filter-keys accessibility settings.
#[derive(Debug, Clone, Copy, PartialEq, Eq, Structural)]
pub struct TsFilterKeys {
    pub flags: u32,
    pub wait_time: u32,
    pub delay_time: u32,
    pub repeat_time: u32,
    pub bounce_time: u32,
}

/// The high-contrast setting: flags, the declared byte length of the colour scheme name,
/// and the name.
#[derive(Debug)]
pub struct RailHighContrast {
    pub flags: u32,
    pub color_scheme_length: u32,
    pub color_scheme: String,
}

pub ghost struct HighContrastView {
    pub flags: u32,
    pub color_scheme_length: u32,
    pub color_scheme: Seq<char>,
}

impl View for RailHighContrast {
    type V = HighContrastView;

    open spec fn view(&self) -> HighContrastView {
        HighContrastView {
            flags: self.flags,
            color_scheme_length: self.color_scheme_length,
            color_scheme: self.color_scheme@,
        }
    }
}

/// One system parameter. `param` selects the payload field that is meaningful; the
/// others stay zero or empty. `params` holds the mask bit of `param`.
#[derive(Debug)]
pub struct RailSysParamOrder {
    pub param: u32,
    pub params: u32,
    pub drag_full_windows: u8,
    pub keyboard_cues: u8,
    pub keyboard_pref: u8,
    pub mouse_button_swap: u8,
    pub work_area: Rectangle16,
    pub display_change: Rectangle16,
    pub taskbar_pos: Rectangle16,
    pub high_contrast: RailHighContrast,
    pub caret_width: u32,
    pub sticky_keys: u32,
    pub toggle_keys: u32,
    pub filter_keys: TsFilterKeys,
    pub set_screen_save_active: u8,
    pub set_screen_save_secure: u8,
}

pub ghost struct SysParamView {
    pub param: u32,
    pub params: u32,
    pub drag_full_windows: u8,
    pub keyboard_cues: u8,
    pub keyboard_pref: u8,
    pub mouse_button_swap: u8,
    pub work_area: Rectangle16,
    pub display_change: Rectangle16,
    pub taskbar_pos: Rectangle16,
    pub high_contrast: HighContrastView,
    pub caret_width: u32,
    pub sticky_keys: u32,
    pub toggle_keys: u32,
    pub filter_keys: TsFilterKeys,
    pub set_screen_save_active: u8,
    pub set_screen_save_secure: u8,
}

impl View for RailSysParamOrder {
    type V = SysParamView;

    open spec fn view(&self) -> SysParamView {
        SysParamView {
            param: self.param,
            params: self.params,
            drag_full_windows: self.drag_full_windows,
            keyboard_cues: self.keyboard_cues,
            keyboard_pref: self.keyboard_pref,
            mouse_button_swap: self.mouse_button_swap,
            work_area: self.work_area,
            display_change: self.display_change,
            taskbar_pos: self.taskbar_pos,
            high_contrast: self.high_contrast@,
            caret_width: self.caret_width,
            sticky_keys: self.sticky_keys,
            toggle_keys: self.toggle_keys,
            filter_keys: self.filter_keys,
            set_screen_save_active: self.set_screen_save_active,
            set_screen_save_secure: self.set_screen_save_secure,
        }
    }
}

pub open spec fn zero_rect() -> Rectangle16 {
    Rectangle16 { left: 0, top: 0, right: 0, bottom: 0 }
}

pub open spec fn zero_filter_keys() -> TsFilterKeys {
    TsFilterKeys { flags: 0, wait_time: 0, delay_time: 0, repeat_time: 0, bounce_time: 0 }
}

/// The order with every field zero or empty.
pub open spec fn default_view() -> SysParamView {
    SysParamView {
        param: 0,
        params: 0,
        drag_full_windows: 0,
        keyboard_cues: 0,
        keyboard_pref: 0,
        mouse_button_swap: 0,
        work_area: zero_rect(),
        display_change: zero_rect(),
        taskbar_pos: zero_rect(),
        high_contrast: HighContrastView { flags: 0, color_scheme_length: 0, color_scheme: seq![] },
        caret_width: 0,
        sticky_keys: 0,
        toggle_keys: 0,
        filter_keys: zero_filter_keys(),
        set_screen_save_active: 0,
        set_screen_save_secure: 0,
    }
}

/// The mask bit of a known identifier; zero for any other value.
pub open spec fn param_mask(param: u32) -> u32 {
    if param == SPI_SET_DRAG_FULL_WINDOWS {
        SPI_MASK_SET_DRAG_FULL_WINDOWS
    } else if param == SPI_SET_KEYBOARD_CUES {
        SPI_MASK_SET_KEYBOARD_CUES
    } else if param == SPI_SET_KEYBOARD_PREF {
        SPI_MASK_SET_KEYBOARD_PREF
    } else if param == SPI_SET_MOUSE_BUTTON_SWAP {
        SPI_MASK_SET_MOUSE_BUTTON_SWAP
    } else if param == SPI_SET_WORK_AREA {
        SPI_MASK_SET_WORK_AREA
    } else if param == SPI_DISPLAY_CHANGE {
        SPI_MASK_DISPLAY_CHANGE
    } else if param == SPI_TASKBAR_POS {
        SPI_MASK_TASKBAR_POS
    } else if param == SPI_SET_HIGH_CONTRAST {
        SPI_MASK_SET_HIGH_CONTRAST
    } else if param == SPI_SET_SCREEN_SAVE_ACTIVE {
        SPI_MASK_SET_SCREEN_SAVE_ACTIVE
    } else if param == SPI_SET_SCREEN_SAVE_SECURE {
        SPI_MASK_SET_SCREEN_SAVE_SECURE
    } else if param == SPI_SET_CARET_WIDTH {
        SPI_MASK_SET_CARET_WIDTH
    } else if param == SPI_SET_STICKY_KEYS {
        SPI_MASK_SET_STICKY_KEYS
    } else if param == SPI_SET_TOGGLE_KEYS {
        SPI_MASK_SET_TOGGLE_KEYS
    } else if param == SPI_SET_FILTER_KEYS {
        SPI_MASK_SET_FILTER_KEYS
    } else {
        0
    }
}

/// The zero order of a given identifier, its mask bit set.
pub open spec fn tagged_view(param: u32) -> SysParamView {
    SysParamView { param, params: param_mask(param), ..default_view() }
}

pub open spec fn is_byte_param(param: u32) -> bool {
    param == SPI_SET_DRAG_FULL_WINDOWS || param == SPI_SET_KEYBOARD_CUES || param
        == SPI_SET_KEYBOARD_PREF || param == SPI_SET_MOUSE_BUTTON_SWAP || param
        == SPI_SET_SCREEN_SAVE_ACTIVE || param == SPI_SET_SCREEN_SAVE_SECURE
}

pub open spec fn is_rect_param(param: u32) -> bool {
    param == SPI_SET_WORK_AREA || param == SPI_DISPLAY_CHANGE || param == SPI_TASKBAR_POS
}

pub open spec fn is_u32_param(param: u32) -> bool {
    param == SPI_SET_STICKY_KEYS || param == SPI_SET_CARET_WIDTH || param == SPI_SET_TOGGLE_KEYS
}

/// Whether the identifier is one of the fourteen this codec knows.
pub open spec fn is_known_param(param: u32) -> bool {
    is_byte_param(param) || is_rect_param(param) || is_u32_param(param) || param
        == SPI_SET_HIGH_CONTRAST || param == SPI_SET_FILTER_KEYS
}

/// The payload byte of a one-byte identifier.
pub open spec fn byte_field(v: SysParamView) -> u8 {
    if v.param == SPI_SET_DRAG_FULL_WINDOWS {
        v.drag_full_windows
    } else if v.param == SPI_SET_KEYBOARD_CUES {
        v.keyboard_cues
    } else if v.param == SPI_SET_KEYBOARD_PREF {
        v.keyboard_pref
    } else if v.param == SPI_SET_MOUSE_BUTTON_SWAP {
        v.mouse_button_swap
    } else if v.param == SPI_SET_SCREEN_SAVE_ACTIVE {
        v.set_screen_save_active
    } else {
        v.set_screen_save_secure
    }
}

/// The rectangle of a rectangle identifier.
pub open spec fn rect_field(v: SysParamView) -> Rectangle16 {
    if v.param == SPI_SET_WORK_AREA {
        v.work_area
    } else if v.param == SPI_DISPLAY_CHANGE {
        v.display_change
    } else {
        v.taskbar_pos
    }
}

/// The value of a `u32` identifier.
pub open spec fn u32_field(v: SysParamView) -> u32 {
    if v.param == SPI_SET_STICKY_KEYS {
        v.sticky_keys
    } else if v.param == SPI_SET_CARET_WIDTH {
        v.caret_width
    } else {
        v.toggle_keys
    }
}

/// `tagged_view(param)` with its payload byte set to `b`.
pub open spec fn with_byte(param: u32, b: u8) -> SysParamView {
    let v = tagged_view(param);
    if param == SPI_SET_DRAG_FULL_WINDOWS {
        SysParamView { drag_full_windows: b, ..v }
    } else if param == SPI_SET_KEYBOARD_CUES {
        SysParamView { keyboard_cues: b, ..v }
    } else if param == SPI_SET_KEYBOARD_PREF {
        SysParamView { keyboard_pref: b, ..v }
    } else if param == SPI_SET_MOUSE_BUTTON_SWAP {
        SysParamView { mouse_button_swap: b, ..v }
    } else if param == SPI_SET_SCREEN_SAVE_ACTIVE {
        SysParamView { set_screen_save_active: b, ..v }
    } else {
        SysParamView { set_screen_save_secure: b, ..v }
    }
}

/// `tagged_view(param)` with its rectangle set to `r`.
pub open spec fn with_rect(param: u32, r: Rectangle16) -> SysParamView {
    let v = tagged_view(param);
    if param == SPI_SET_WORK_AREA {
        SysParamView { work_area: r, ..v }
    } else if param == SPI_DISPLAY_CHANGE {
        SysParamView { display_change: r, ..v }
    } else {
        SysParamView { taskbar_pos: r, ..v }
    }
}

/// `tagged_view(param)` with its `u32` value set to `x`.
pub open spec fn with_u32(param: u32, x: u32) -> SysParamView {
    let v = tagged_view(param);
    if param == SPI_SET_STICKY_KEYS {
        SysParamView { sticky_keys: x, ..v }
    } else if param == SPI_SET_CARET_WIDTH {
        SysParamView { caret_width: x, ..v }
    } else {
        SysParamView { toggle_keys: x, ..v }
    }
}

pub open spec fn with_high_contrast(h: HighContrastView) -> SysParamView {
    SysParamView { high_contrast: h, ..tagged_view(SPI_SET_HIGH_CONTRAST) }
}

pub open spec fn with_filter_keys(k: TsFilterKeys) -> SysParamView {
    SysParamView { filter_keys: k, ..tagged_view(SPI_SET_FILTER_KEYS) }
}

/// An order as the constructors make it: its identifier's field holds any value, every
/// other field is zero and `params` is the identifier's mask bit.
pub open spec fn wf_view(v: SysParamView) -> bool {
    if is_byte_param(v.param) {
        v == with_byte(v.param, byte_field(v))
    } else if is_rect_param(v.param) {
        v == with_rect(v.param, rect_field(v))
    } else if is_u32_param(v.param) {
        v == with_u32(v.param, u32_field(v))
    } else if v.param == SPI_SET_HIGH_CONTRAST {
        v == with_high_contrast(v.high_contrast)
    } else if v.param == SPI_SET_FILTER_KEYS {
        v == with_filter_keys(v.filter_keys)
    } else {
        v == default_view()
    }
}

pub open spec fn rect_bytes(r: Rectangle16) -> Seq<u8> {
    u16_bytes(r.left) + u16_bytes(r.top) + u16_bytes(r.right) + u16_bytes(r.bottom)
}

pub open spec fn filter_keys_bytes(k: TsFilterKeys) -> Seq<u8> {
    u32_bytes(k.flags) + u32_bytes(k.wait_time) + u32_bytes(k.delay_time) + u32_bytes(
        k.repeat_time,
    ) + u32_bytes(k.bounce_time)
}

pub open spec fn high_contrast_bytes(h: HighContrastView) -> Seq<u8> {
    u32_bytes(h.flags) + u32_bytes(h.color_scheme_length) + utf16_le_bytes(h.color_scheme)
}

/// What follows the identifier on the wire.
pub open spec fn payload_bytes(v: SysParamView) -> Seq<u8> {
    if is_byte_param(v.param) {
        seq![byte_field(v)]
    } else if is_rect_param(v.param) {
        rect_bytes(rect_field(v))
    } else if is_u32_param(v.param) {
        u32_bytes(u32_field(v))
    } else if v.param == SPI_SET_HIGH_CONTRAST {
        high_contrast_bytes(v.high_contrast)
    } else if v.param == SPI_SET_FILTER_KEYS {
        filter_keys_bytes(v.filter_keys)
    } else {
        seq![]
    }
}

/// The encoding of an order: the identifier, then its payload, no padding.
pub open spec fn sysparam_bytes(v: SysParamView) -> Seq<u8> {
    u32_bytes(v.param) + payload_bytes(v)
}

/// Payload size by identifier.
pub open spec fn payload_size(v: SysParamView) -> nat {
    if is_byte_param(v.param) {
        1
    } else if is_rect_param(v.param) {
        8
    } else if is_u32_param(v.param) {
        4
    } else if v.param == SPI_SET_HIGH_CONTRAST {
        8 + utf16_le_bytes(v.high_contrast.color_scheme).len()
    } else if v.param == SPI_SET_FILTER_KEYS {
        20
    } else {
        0
    }
}

pub open spec fn sysparam_size(v: SysParamView) -> nat {
    4 + payload_size(v)
}

/// Decoding of an order at the start of `b`: the order and the number of bytes it took.
/// An unknown identifier gives the default order after four bytes.
pub open spec fn sysparam_decode(b: Seq<u8>) -> Result<(SysParamView, nat), DecodeError> {
    if b.len() < 4 {
        Err(DecodeError::NotEnoughBytes)
    } else {
        let p = le_u32(b, 0);
        if is_byte_param(p) {
            if b.len() < 5 {
                Err(DecodeError::NotEnoughBytes)
            } else {
                Ok((with_byte(p, b[4]), 5))
            }
        } else if is_rect_param(p) {
            if b.len() < 12 {
                Err(DecodeError::NotEnoughBytes)
            } else {
                Ok(
                    (
                        with_rect(
                            p,
                            Rectangle16 {
                                left: le_u16(b, 4),
                                top: le_u16(b, 6),
                                right: le_u16(b, 8),
                                bottom: le_u16(b, 10),
                            },
                        ),
                        12,
                    ),
                )
            }
        } else if is_u32_param(p) {
            if b.len() < 8 {
                Err(DecodeError::NotEnoughBytes)
            } else {
                Ok((with_u32(p, le_u32(b, 4)), 8))
            }
        } else if p == SPI_SET_HIGH_CONTRAST {
            if b.len() < 12 {
                Err(DecodeError::NotEnoughBytes)
            } else {
                let rest = b.skip(12);
                match utf16_field(rest) {
                    Some(s) => Ok(
                        (
                            with_high_contrast(
                                HighContrastView {
                                    flags: le_u32(b, 4),
                                    color_scheme_length: le_u32(b, 8),
                                    color_scheme: s,
                                },
                            ),
                            12 + utf16_field_len(rest),
                        ),
                    ),
                    None => Err(DecodeError::InvalidString),
                }
            }
        } else if p == SPI_SET_FILTER_KEYS {
            if b.len() < 24 {
                Err(DecodeError::NotEnoughBytes)
            } else {
                Ok(
                    (
                        with_filter_keys(
                            TsFilterKeys {
                                flags: le_u32(b, 4),
                                wait_time: le_u32(b, 8),
                                delay_time: le_u32(b, 12),
                                repeat_time: le_u32(b, 16),
                                bounce_time: le_u32(b, 20),
                            },
                        ),
                        24,
                    ),
                )
            }
        } else {
            Ok((default_view(), 4))
        }
    }
}

} // verus!

verus! {

impl Default for RailSysParamOrder {
    fn default() -> (r: RailSysParamOrder)
        ensures
            r@ == default_view(),
    {
        let zero = Rectangle16 { left: 0, top: 0, right: 0, bottom: 0 };
        RailSysParamOrder {
            param: 0,
            params: 0,
            drag_full_windows: 0,
            keyboard_cues: 0,
            keyboard_pref: 0,
            mouse_button_swap: 0,
            work_area: zero,
            display_change: zero,
            taskbar_pos: zero,
            high_contrast: RailHighContrast {
                flags: 0,
                color_scheme_length: 0,
                color_scheme: String::new(),
            },
            caret_width: 0,
            sticky_keys: 0,
            toggle_keys: 0,
            filter_keys: TsFilterKeys {
                flags: 0,
                wait_time: 0,
                delay_time: 0,
                repeat_time: 0,
                bounce_time: 0,
            },
            set_screen_save_active: 0,
            set_screen_save_secure: 0,
        }
    }
}

impl RailSysParamOrder {
    pub const FIXED_PART_SIZE: usize = 1;

    /// The order with every field zero or empty; it encodes as the bare identifier 0.
    pub fn new() -> (r: Self)
        ensures
            r@ == default_view(),
            wf_view(r@),
    {
        RailSysParamOrder::default()
    }

    /// Each constructor below sets `param` to its identifier, `params` to that
    /// identifier's mask bit, and the matching payload field; the rest stays zero.
    /// No value is range-checked.
    pub fn new_with_high_contrast(rail_high_contrast: RailHighContrast) -> (r: Self)
        ensures
            r@ == with_high_contrast(rail_high_contrast@),
            wf_view(r@),
    {
        let mut order = RailSysParamOrder::new();
        order.params = SPI_MASK_SET_HIGH_CONTRAST;
        order.param = SPI_SET_HIGH_CONTRAST;
        order.high_contrast = rail_high_contrast;
        order
    }

    pub fn new_with_mouse_button_swap(mouse_button_swap: u8) -> (r: Self)
        ensures
            r@ == with_byte(SPI_SET_MOUSE_BUTTON_SWAP, mouse_button_swap),
            wf_view(r@),
    {
        let mut order = RailSysParamOrder::new();
        order.params = SPI_MASK_SET_MOUSE_BUTTON_SWAP;
        order.param = SPI_SET_MOUSE_BUTTON_SWAP;
        order.mouse_button_swap = mouse_button_swap;
        order
    }

    pub fn new_with_keyboard_pref(keyboard_pref: u8) -> (r: Self)
        ensures
            r@ == with_byte(SPI_SET_KEYBOARD_PREF, keyboard_pref),
            wf_view(r@),
    {
        let mut order = RailSysParamOrder::new();
        order.params = SPI_MASK_SET_KEYBOARD_PREF;
        order.param = SPI_SET_KEYBOARD_PREF;
        order.keyboard_pref = keyboard_pref;
        order
    }

    pub fn new_with_drag_full_windows(drag_full_windows: u8) -> (r: Self)
        ensures
            r@ == with_byte(SPI_SET_DRAG_FULL_WINDOWS, drag_full_windows),
            wf_view(r@),
    {
        let mut order = RailSysParamOrder::new();
        order.params = SPI_MASK_SET_DRAG_FULL_WINDOWS;
        order.param = SPI_SET_DRAG_FULL_WINDOWS;
        order.drag_full_windows = drag_full_windows;
        order
    }

    pub fn new_with_keyboard_cues(keyboard_cues: u8) -> (r: Self)
        ensures
            r@ == with_byte(SPI_SET_KEYBOARD_CUES, keyboard_cues),
            wf_view(r@),
    {
        let mut order = RailSysParamOrder::new();
        order.params = SPI_MASK_SET_KEYBOARD_CUES;
        order.param = SPI_SET_KEYBOARD_CUES;
        order.keyboard_cues = keyboard_cues;
        order
    }

    pub fn new_with_work_area(work_area: Rectangle16) -> (r: Self)
        ensures
            r@ == with_rect(SPI_SET_WORK_AREA, work_area),
            wf_view(r@),
    {
        let mut order = RailSysParamOrder::new();
        order.params = SPI_MASK_SET_WORK_AREA;
        order.param = SPI_SET_WORK_AREA;
        order.work_area = work_area;
        order
    }

    pub fn new_with_display_change(display_change: Rectangle16) -> (r: Self)
        ensures
            r@ == with_rect(SPI_DISPLAY_CHANGE, display_change),
            wf_view(r@),
    {
        let mut order = RailSysParamOrder::new();
        order.params = SPI_MASK_DISPLAY_CHANGE;
        order.param = SPI_DISPLAY_CHANGE;
        order.display_change = display_change;
        order
    }

    pub fn new_with_taskbar_pos(taskbar_pos: Rectangle16) -> (r: Self)
        ensures
            r@ == with_rect(SPI_TASKBAR_POS, taskbar_pos),
            wf_view(r@),
    {
        let mut order = RailSysParamOrder::new();
        order.params = SPI_MASK_TASKBAR_POS;
        order.param = SPI_TASKBAR_POS;
        order.taskbar_pos = taskbar_pos;
        order
    }

    pub fn new_with_filter_keys(filter_keys: TsFilterKeys) -> (r: Self)
        ensures
            r@ == with_filter_keys(filter_keys),
            wf_view(r@),
    {
        let mut order = RailSysParamOrder::new();
        order.params = SPI_MASK_SET_FILTER_KEYS;
        order.param = SPI_SET_FILTER_KEYS;
        order.filter_keys = filter_keys;
        order
    }

    pub fn new_with_sticky_keys(sticky_keys: u32) -> (r: Self)
        ensures
            r@ == with_u32(SPI_SET_STICKY_KEYS, sticky_keys),
            wf_view(r@),
    {
        let mut order = RailSysParamOrder::new();
        order.params = SPI_MASK_SET_STICKY_KEYS;
        order.param = SPI_SET_STICKY_KEYS;
        order.sticky_keys = sticky_keys;
        order
    }

    pub fn new_with_caret_width(caret_width: u32) -> (r: Self)
        ensures
            r@ == with_u32(SPI_SET_CARET_WIDTH, caret_width),
            wf_view(r@),
    {
        let mut order = RailSysParamOrder::new();
        order.params = SPI_MASK_SET_CARET_WIDTH;
        order.param = SPI_SET_CARET_WIDTH;
        order.caret_width = caret_width;
        order
    }

    pub fn new_with_toggle_keys(toggle_keys: u32) -> (r: Self)
        ensures
            r@ == with_u32(SPI_SET_TOGGLE_KEYS, toggle_keys),
            wf_view(r@),
    {
        let mut order = RailSysParamOrder::new();
        order.params = SPI_MASK_SET_TOGGLE_KEYS;
        order.param = SPI_SET_TOGGLE_KEYS;
        order.toggle_keys = toggle_keys;
        order
    }

    pub fn new_with_scree_save_active(scree_save_active: u8) -> (r: Self)
        ensures
            r@ == with_byte(SPI_SET_SCREEN_SAVE_ACTIVE, scree_save_active),
            wf_view(r@),
    {
        let mut order = RailSysParamOrder::new();
        order.params = SPI_MASK_SET_SCREEN_SAVE_ACTIVE;
        order.param = SPI_SET_SCREEN_SAVE_ACTIVE;
        order.set_screen_save_active = scree_save_active;
        order
    }

    pub fn new_with_scree_save_secure(scree_save_secure: u8) -> (r: Self)
        ensures
            r@ == with_byte(SPI_SET_SCREEN_SAVE_SECURE, scree_save_secure),
            wf_view(r@),
    {
        let mut order = RailSysParamOrder::new();
        order.params = SPI_MASK_SET_SCREEN_SAVE_SECURE;
        order.param = SPI_SET_SCREEN_SAVE_SECURE;
        order.set_screen_save_secure = scree_save_secure;
        order
    }
}

} // verus!

verus! {

fn write_rect(dst: &mut Vec<u8>, r: &Rectangle16)
    ensures
        final(dst)@ == old(dst)@ + rect_bytes(*r),
{
    write_u16(dst, r.left);
    write_u16(dst, r.top);
    write_u16(dst, r.right);
    write_u16(dst, r.bottom);
    assert(final(dst)@ =~= old(dst)@ + rect_bytes(*r));
}

/// The rectangle that follows a four-byte identifier.
fn read_rect(src: &[u8]) -> (r: Rectangle16)
    requires
        12 <= src@.len(),
    ensures
        r == (Rectangle16 {
            left: le_u16(src@, 4),
            top: le_u16(src@, 6),
            right: le_u16(src@, 8),
            bottom: le_u16(src@, 10),
        }),
{
    Rectangle16 {
        left: read_u16(src, 4),
        top: read_u16(src, 6),
        right: read_u16(src, 8),
        bottom: read_u16(src, 10),
    }
}

impl RailSysParamOrder {
    /// Appends the identifier and the payload that the identifier selects; an unknown
    /// identifier is written alone.
    pub fn encode(&self, dst: &mut Vec<u8>)
        ensures
            final(dst)@ == old(dst)@ + sysparam_bytes(self@),
    {
        let p = self.param;
        write_u32(dst, p);
        let ghost start = dst@;
        if p == SPI_SET_DRAG_FULL_WINDOWS {
            write_u8(dst, self.drag_full_windows);
        } else if p == SPI_SET_KEYBOARD_CUES {
            write_u8(dst, self.keyboard_cues);
        } else if p == SPI_SET_KEYBOARD_PREF {
            write_u8(dst, self.keyboard_pref);
        } else if p == SPI_SET_MOUSE_BUTTON_SWAP {
            write_u8(dst, self.mouse_button_swap);
        } else if p == SPI_SET_SCREEN_SAVE_ACTIVE {
            write_u8(dst, self.set_screen_save_active);
        } else if p == SPI_SET_SCREEN_SAVE_SECURE {
            write_u8(dst, self.set_screen_save_secure);
        } else if p == SPI_SET_WORK_AREA {
            write_rect(dst, &self.work_area);
        } else if p == SPI_DISPLAY_CHANGE {
            write_rect(dst, &self.display_change);
        } else if p == SPI_TASKBAR_POS {
            write_rect(dst, &self.taskbar_pos);
        } else if p == SPI_SET_STICKY_KEYS {
            write_u32(dst, self.sticky_keys);
        } else if p == SPI_SET_CARET_WIDTH {
            write_u32(dst, self.caret_width);
        } else if p == SPI_SET_TOGGLE_KEYS {
            write_u32(dst, self.toggle_keys);
        } else if p == SPI_SET_HIGH_CONTRAST {
            write_u32(dst, self.high_contrast.flags);
            write_u32(dst, self.high_contrast.color_scheme_length);
            let bytes = to_utf16_bytes(self.high_contrast.color_scheme.as_str());
            write_bytes(dst, bytes.as_slice());
        } else if p == SPI_SET_FILTER_KEYS {
            write_u32(dst, self.filter_keys.flags);
            write_u32(dst, self.filter_keys.wait_time);
            write_u32(dst, self.filter_keys.delay_time);
            write_u32(dst, self.filter_keys.repeat_time);
            write_u32(dst, self.filter_keys.bounce_time);
        }
        assert(dst@ =~= start + payload_bytes(self@));
        assert(final(dst)@ =~= old(dst)@ + sysparam_bytes(self@));
    }

    /// Encoded size: four bytes of identifier plus the payload that it selects.
    pub fn size(&self) -> (r: usize)
        requires
            sysparam_size(self@) <= usize::MAX,
        ensures
            r == sysparam_size(self@),
    {
        let p = self.param;
        let mut length: usize = 4;
        if p == SPI_SET_DRAG_FULL_WINDOWS || p == SPI_SET_KEYBOARD_CUES || p
            == SPI_SET_KEYBOARD_PREF || p == SPI_SET_MOUSE_BUTTON_SWAP || p
            == SPI_SET_SCREEN_SAVE_ACTIVE || p == SPI_SET_SCREEN_SAVE_SECURE {
            length += 1;
        } else if p == SPI_SET_WORK_AREA || p == SPI_DISPLAY_CHANGE || p == SPI_TASKBAR_POS {
            length += 8;
        } else if p == SPI_SET_STICKY_KEYS || p == SPI_SET_CARET_WIDTH || p
            == SPI_SET_TOGGLE_KEYS {
            length += 4;
        } else if p == SPI_SET_HIGH_CONTRAST {
            let bytes = to_utf16_bytes(self.high_contrast.color_scheme.as_str());
            length += 8;
            length += bytes.len();
        } else if p == SPI_SET_FILTER_KEYS {
            length += 4 * 5;
        }
        length
    }

    /// Reads an order from the start of `src` and says how many bytes it took. An
    /// unknown identifier gives the default order and takes only its four bytes.
    pub fn decode(src: &[u8]) -> (r: Result<(RailSysParamOrder, usize), DecodeError>)
        ensures
            match r {
                Ok((o, n)) => sysparam_decode(src@) == Ok::<(SysParamView, nat), DecodeError>(
                    (o@, n as nat),
                ),
                Err(e) => sysparam_decode(src@) == Err::<(SysParamView, nat), DecodeError>(e),
            },
            r matches Ok((_, n)) ==> n <= src@.len(),
    {
        if src.len() < 4 {
            return Err(DecodeError::NotEnoughBytes);
        }
        let p = read_u32(src, 0);
        if p == SPI_SET_DRAG_FULL_WINDOWS || p == SPI_SET_KEYBOARD_CUES || p
            == SPI_SET_KEYBOARD_PREF || p == SPI_SET_MOUSE_BUTTON_SWAP || p
            == SPI_SET_SCREEN_SAVE_ACTIVE || p == SPI_SET_SCREEN_SAVE_SECURE {
            if src.len() < 5 {
                return Err(DecodeError::NotEnoughBytes);
            }
            let b = read_u8(src, 4);
            let order = if p == SPI_SET_DRAG_FULL_WINDOWS {
                RailSysParamOrder::new_with_drag_full_windows(b)
            } else if p == SPI_SET_KEYBOARD_CUES {
                RailSysParamOrder::new_with_keyboard_cues(b)
            } else if p == SPI_SET_KEYBOARD_PREF {
                RailSysParamOrder::new_with_keyboard_pref(b)
            } else if p == SPI_SET_MOUSE_BUTTON_SWAP {
                RailSysParamOrder::new_with_mouse_button_swap(b)
            } else if p == SPI_SET_SCREEN_SAVE_ACTIVE {
                RailSysParamOrder::new_with_scree_save_active(b)
            } else {
                RailSysParamOrder::new_with_scree_save_secure(b)
            };
            Ok((order, 5))
        } else if p == SPI_SET_WORK_AREA || p == SPI_DISPLAY_CHANGE || p == SPI_TASKBAR_POS {
            if src.len() < 12 {
                return Err(DecodeError::NotEnoughBytes);
            }
            let rect = read_rect(src);
            let order = if p == SPI_SET_WORK_AREA {
                RailSysParamOrder::new_with_work_area(rect)
            } else if p == SPI_DISPLAY_CHANGE {
                RailSysParamOrder::new_with_display_change(rect)
            } else {
                RailSysParamOrder::new_with_taskbar_pos(rect)
            };
            Ok((order, 12))
        } else if p == SPI_SET_STICKY_KEYS || p == SPI_SET_CARET_WIDTH || p
            == SPI_SET_TOGGLE_KEYS {
            if src.len() < 8 {
                return Err(DecodeError::NotEnoughBytes);
            }
            let x = read_u32(src, 4);
            let order = if p == SPI_SET_STICKY_KEYS {
                RailSysParamOrder::new_with_sticky_keys(x)
            } else if p == SPI_SET_CARET_WIDTH {
                RailSysParamOrder::new_with_caret_width(x)
            } else {
                RailSysParamOrder::new_with_toggle_keys(x)
            };
            Ok((order, 8))
        } else if p == SPI_SET_HIGH_CONTRAST {
            if src.len() < 12 {
                return Err(DecodeError::NotEnoughBytes);
            }
            let flags = read_u32(src, 4);
            let color_scheme_length = read_u32(src, 8);
            let rest = vstd::slice::slice_subrange(src, 12, src.len());
            assert(rest@ =~= src@.skip(12));
            match read_utf16_field(rest) {
                Some((color_scheme, n)) => {
                    proof {
                        lemma_utf16_field_len_bound(rest@);
                    }
                    let contrast = RailHighContrast { flags, color_scheme_length, color_scheme };
                    Ok((RailSysParamOrder::new_with_high_contrast(contrast), 12 + n))
                },
                None => Err(DecodeError::InvalidString),
            }
        } else if p == SPI_SET_FILTER_KEYS {
            if src.len() < 24 {
                return Err(DecodeError::NotEnoughBytes);
            }
            let keys = TsFilterKeys {
                flags: read_u32(src, 4),
                wait_time: read_u32(src, 8),
                delay_time: read_u32(src, 12),
                repeat_time: read_u32(src, 16),
                bounce_time: read_u32(src, 20),
            };
            Ok((RailSysParamOrder::new_with_filter_keys(keys), 24))
        } else {
            Ok((RailSysParamOrder::new(), 4))
        }
    }
}

} // verus!
