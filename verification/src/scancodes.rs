use crate::attribute_set::{ArrayedEvdevEnum, EvdevEnum};
use vstd::prelude::*;

verus! {

/// Scancodes for key presses.
///
/// Each associated constant corresponds to a key or button code in the kernel's
/// `input-event-codes.h`; key presses are `EV_KEY` events carrying one of them.
#[derive(Copy, Clone, PartialEq, Eq, Structural, Debug, Hash)]
pub struct KeyCode(pub u16);

impl KeyCode {
    pub const KEY_RESERVED: u16 = 0x00;
    pub const KEY_ESC: u16 = 0x01;
    pub const KEY_1: u16 = 0x02;
    pub const KEY_2: u16 = 0x03;
    pub const KEY_3: u16 = 0x04;
    pub const KEY_4: u16 = 0x05;
    pub const KEY_5: u16 = 0x06;
    pub const KEY_6: u16 = 0x07;
    pub const KEY_7: u16 = 0x08;
    pub const KEY_8: u16 = 0x09;
    pub const KEY_9: u16 = 0x0a;
    pub const KEY_0: u16 = 0x0b;
    pub const KEY_MINUS: u16 = 0x0c;
    pub const KEY_EQUAL: u16 = 0x0d;
    pub const KEY_BACKSPACE: u16 = 0x0e;
    pub const KEY_TAB: u16 = 0x0f;
    pub const KEY_Q: u16 = 0x10;
    pub const KEY_W: u16 = 0x11;
    pub const KEY_E: u16 = 0x12;
    pub const KEY_R: u16 = 0x13;
    pub const KEY_T: u16 = 0x14;
    pub const KEY_Y: u16 = 0x15;
    pub const KEY_U: u16 = 0x16;
    pub const KEY_I: u16 = 0x17;
    pub const KEY_O: u16 = 0x18;
    pub const KEY_P: u16 = 0x19;
    pub const KEY_LEFTBRACE: u16 = 0x1a;
    pub const KEY_RIGHTBRACE: u16 = 0x1b;
    pub const KEY_ENTER: u16 = 0x1c;
    pub const KEY_LEFTCTRL: u16 = 0x1d;
    pub const KEY_A: u16 = 0x1e;
    pub const KEY_S: u16 = 0x1f;
    pub const KEY_D: u16 = 0x20;
    pub const KEY_F: u16 = 0x21;
    pub const KEY_G: u16 = 0x22;
    pub const KEY_H: u16 = 0x23;
    pub const KEY_J: u16 = 0x24;
    pub const KEY_K: u16 = 0x25;
    pub const KEY_L: u16 = 0x26;
    pub const KEY_SEMICOLON: u16 = 0x27;
    pub const KEY_APOSTROPHE: u16 = 0x28;
    pub const KEY_GRAVE: u16 = 0x29;
    pub const KEY_LEFTSHIFT: u16 = 0x2a;
    pub const KEY_BACKSLASH: u16 = 0x2b;
    pub const KEY_Z: u16 = 0x2c;
    pub const KEY_X: u16 = 0x2d;
    pub const KEY_C: u16 = 0x2e;
    pub const KEY_V: u16 = 0x2f;
    pub const KEY_B: u16 = 0x30;
    pub const KEY_N: u16 = 0x31;
    pub const KEY_M: u16 = 0x32;
    pub const KEY_COMMA: u16 = 0x33;
    pub const KEY_DOT: u16 = 0x34;
    pub const KEY_SLASH: u16 = 0x35;
    pub const KEY_RIGHTSHIFT: u16 = 0x36;
    pub const KEY_KPASTERISK: u16 = 0x37;
    pub const KEY_LEFTALT: u16 = 0x38;
    pub const KEY_SPACE: u16 = 0x39;
    pub const KEY_CAPSLOCK: u16 = 0x3a;
    pub const KEY_F1: u16 = 0x3b;
    pub const KEY_F2: u16 = 0x3c;
    pub const KEY_F3: u16 = 0x3d;
    pub const KEY_F4: u16 = 0x3e;
    pub const KEY_F5: u16 = 0x3f;
    pub const KEY_F6: u16 = 0x40;
    pub const KEY_F7: u16 = 0x41;
    pub const KEY_F8: u16 = 0x42;
    pub const KEY_F9: u16 = 0x43;
    pub const KEY_F10: u16 = 0x44;
    pub const KEY_NUMLOCK: u16 = 0x45;
    pub const KEY_SCROLLLOCK: u16 = 0x46;
    pub const KEY_KP7: u16 = 0x47;
    pub const KEY_KP8: u16 = 0x48;
    pub const KEY_KP9: u16 = 0x49;
    pub const KEY_KPMINUS: u16 = 0x4a;
    pub const KEY_KP4: u16 = 0x4b;
    pub const KEY_KP5: u16 = 0x4c;
    pub const KEY_KP6: u16 = 0x4d;
    pub const KEY_KPPLUS: u16 = 0x4e;
    pub const KEY_KP1: u16 = 0x4f;
    pub const KEY_KP2: u16 = 0x50;
    pub const KEY_KP3: u16 = 0x51;
    pub const KEY_KP0: u16 = 0x52;
    pub const KEY_KPDOT: u16 = 0x53;
    pub const KEY_ZENKAKUHANKAKU: u16 = 0x55;
    pub const KEY_102ND: u16 = 0x56;
    pub const KEY_F11: u16 = 0x57;
    pub const KEY_F12: u16 = 0x58;
    pub const KEY_RO: u16 = 0x59;
    pub const KEY_KATAKANA: u16 = 0x5a;
    pub const KEY_HIRAGANA: u16 = 0x5b;
    pub const KEY_HENKAN: u16 = 0x5c;
    pub const KEY_KATAKANAHIRAGANA: u16 = 0x5d;
    pub const KEY_MUHENKAN: u16 = 0x5e;
    pub const KEY_KPJPCOMMA: u16 = 0x5f;
    pub const KEY_KPENTER: u16 = 0x60;
    pub const KEY_RIGHTCTRL: u16 = 0x61;
    pub const KEY_KPSLASH: u16 = 0x62;
    pub const KEY_SYSRQ: u16 = 0x63;
    pub const KEY_RIGHTALT: u16 = 0x64;
    pub const KEY_LINEFEED: u16 = 0x65;
    pub const KEY_HOME: u16 = 0x66;
    pub const KEY_UP: u16 = 0x67;
    pub const KEY_PAGEUP: u16 = 0x68;
    pub const KEY_LEFT: u16 = 0x69;
    pub const KEY_RIGHT: u16 = 0x6a;
    pub const KEY_END: u16 = 0x6b;
    pub const KEY_DOWN: u16 = 0x6c;
    pub const KEY_PAGEDOWN: u16 = 0x6d;
    pub const KEY_INSERT: u16 = 0x6e;
    pub const KEY_DELETE: u16 = 0x6f;
    pub const KEY_MACRO: u16 = 0x70;
    pub const KEY_MUTE: u16 = 0x71;
    pub const KEY_VOLUMEDOWN: u16 = 0x72;
    pub const KEY_VOLUMEUP: u16 = 0x73;
    pub const KEY_POWER: u16 = 0x74;
    pub const KEY_KPEQUAL: u16 = 0x75;
    pub const KEY_KPPLUSMINUS: u16 = 0x76;
    pub const KEY_PAUSE: u16 = 0x77;
    pub const KEY_SCALE: u16 = 0x78;
    pub const KEY_KPCOMMA: u16 = 0x79;
    pub const KEY_HANGEUL: u16 = 0x7a;
    pub const KEY_HANJA: u16 = 0x7b;
    pub const KEY_YEN: u16 = 0x7c;
    pub const KEY_LEFTMETA: u16 = 0x7d;
    pub const KEY_RIGHTMETA: u16 = 0x7e;
    pub const KEY_COMPOSE: u16 = 0x7f;
    pub const KEY_STOP: u16 = 0x80;
    pub const KEY_AGAIN: u16 = 0x81;
    pub const KEY_PROPS: u16 = 0x82;
    pub const KEY_UNDO: u16 = 0x83;
    pub const KEY_FRONT: u16 = 0x84;
    pub const KEY_COPY: u16 = 0x85;
    pub const KEY_OPEN: u16 = 0x86;
    pub const KEY_PASTE: u16 = 0x87;
    pub const KEY_FIND: u16 = 0x88;
    pub const KEY_CUT: u16 = 0x89;
    pub const KEY_HELP: u16 = 0x8a;
    pub const KEY_MENU: u16 = 0x8b;
    pub const KEY_CALC: u16 = 0x8c;
    pub const KEY_SETUP: u16 = 0x8d;
    pub const KEY_SLEEP: u16 = 0x8e;
    pub const KEY_WAKEUP: u16 = 0x8f;
    pub const KEY_F13: u16 = 0xb7;
    pub const KEY_F14: u16 = 0xb8;
    pub const KEY_F15: u16 = 0xb9;
    pub const KEY_F16: u16 = 0xba;
    pub const KEY_F17: u16 = 0xbb;
    pub const KEY_F18: u16 = 0xbc;
    pub const KEY_F19: u16 = 0xbd;
    pub const KEY_F20: u16 = 0xbe;
    pub const KEY_F21: u16 = 0xbf;
    pub const KEY_F22: u16 = 0xc0;
    pub const KEY_F23: u16 = 0xc1;
    pub const KEY_F24: u16 = 0xc2;
    pub const BTN_0: u16 = 0x100;
    pub const BTN_1: u16 = 0x101;
    pub const BTN_2: u16 = 0x102;
    pub const BTN_3: u16 = 0x103;
    pub const BTN_4: u16 = 0x104;
    pub const BTN_5: u16 = 0x105;
    pub const BTN_6: u16 = 0x106;
    pub const BTN_7: u16 = 0x107;
    pub const BTN_8: u16 = 0x108;
    pub const BTN_9: u16 = 0x109;
    pub const BTN_LEFT: u16 = 0x110;
    pub const BTN_RIGHT: u16 = 0x111;
    pub const BTN_MIDDLE: u16 = 0x112;
    pub const BTN_SIDE: u16 = 0x113;
    pub const BTN_EXTRA: u16 = 0x114;
    pub const BTN_FORWARD: u16 = 0x115;
    pub const BTN_BACK: u16 = 0x116;
    pub const BTN_TASK: u16 = 0x117;
    pub const BTN_TRIGGER: u16 = 0x120;
    pub const BTN_THUMB: u16 = 0x121;
    pub const BTN_THUMB2: u16 = 0x122;
    pub const BTN_TOP: u16 = 0x123;
    pub const BTN_TOP2: u16 = 0x124;
    pub const BTN_PINKIE: u16 = 0x125;
    pub const BTN_BASE: u16 = 0x126;
    pub const BTN_BASE2: u16 = 0x127;
    pub const BTN_BASE3: u16 = 0x128;
    pub const BTN_BASE4: u16 = 0x129;
    pub const BTN_BASE5: u16 = 0x12a;
    pub const BTN_BASE6: u16 = 0x12b;
    pub const BTN_DEAD: u16 = 0x12f;
    pub const BTN_SOUTH: u16 = 0x130;
    pub const BTN_EAST: u16 = 0x131;
    pub const BTN_C: u16 = 0x132;
    pub const BTN_NORTH: u16 = 0x133;
    pub const BTN_WEST: u16 = 0x134;
    pub const BTN_Z: u16 = 0x135;
    pub const BTN_TL: u16 = 0x136;
    pub const BTN_TR: u16 = 0x137;
    pub const BTN_TL2: u16 = 0x138;
    pub const BTN_TR2: u16 = 0x139;
    pub const BTN_SELECT: u16 = 0x13a;
    pub const BTN_START: u16 = 0x13b;
    pub const BTN_MODE: u16 = 0x13c;
    pub const BTN_THUMBL: u16 = 0x13d;
    pub const BTN_THUMBR: u16 = 0x13e;
    pub const BTN_TOOL_PEN: u16 = 0x140;
    pub const BTN_TOOL_RUBBER: u16 = 0x141;
    pub const BTN_TOOL_BRUSH: u16 = 0x142;
    pub const BTN_TOOL_PENCIL: u16 = 0x143;
    pub const BTN_TOOL_AIRBRUSH: u16 = 0x144;
    pub const BTN_TOOL_FINGER: u16 = 0x145;
    pub const BTN_TOOL_MOUSE: u16 = 0x146;
    pub const BTN_TOOL_LENS: u16 = 0x147;
    pub const BTN_TOOL_QUINTTAP: u16 = 0x148;
    pub const BTN_STYLUS3: u16 = 0x149;
    pub const BTN_TOUCH: u16 = 0x14a;
    pub const BTN_STYLUS: u16 = 0x14b;
    pub const BTN_STYLUS2: u16 = 0x14c;
    pub const BTN_TOOL_DOUBLETAP: u16 = 0x14d;
    pub const BTN_TOOL_TRIPLETAP: u16 = 0x14e;
    pub const BTN_TOOL_QUADTAP: u16 = 0x14f;
    pub const BTN_GEAR_DOWN: u16 = 0x150;
    pub const BTN_GEAR_UP: u16 = 0x151;
    pub const BTN_DPAD_UP: u16 = 0x220;
    pub const BTN_DPAD_DOWN: u16 = 0x221;
    pub const BTN_DPAD_LEFT: u16 = 0x222;
    pub const BTN_DPAD_RIGHT: u16 = 0x223;

    /// The number of codes the kernel defines for this kind.
    pub const COUNT: usize = 0x300;
}

impl EvdevEnum for KeyCode {
    open spec fn spec_index(self) -> nat {
        self.0 as nat
    }

    open spec fn spec_from_index(i: nat) -> Self {
        KeyCode(i as u16)
    }

    fn from_index(i: usize) -> (r: Self) {
        KeyCode(i as u16)
    }

    fn to_index(self) -> (r: usize) {
        self.0 as usize
    }

    proof fn lemma_index_bounded(self) {
    }

    proof fn lemma_from_index(i: nat) {
    }
}

impl ArrayedEvdevEnum for KeyCode {
    open spec fn spec_count() -> nat {
        0x300
    }

    fn count() -> (r: usize) {
        KeyCode::COUNT
    }
}

impl KeyCode {
    /// Creates a key code from its raw value.
    pub fn new(code: u16) -> (r: KeyCode)
        ensures
            r.0 == code,
    {
        KeyCode(code)
    }

    /// Returns the raw code of this key.
    pub fn code(&self) -> (r: u16)
        ensures
            r == self.0,
    {
        self.0
    }
}

} // verus!
