//! The kernel's input structures, as plain values.
//!
//! These mirror the C structures of `linux/input.h` and `linux/uinput.h` field by
//! field. The code that talks to the kernel converts between them and the
//! `libc` definitions.
#![allow(non_camel_case_types)]

use vstd::prelude::*;

verus! {

/// The number of force feedback codes (`FF_MAX + 1`).
pub const FF_CNT: usize = 0x80;
/// The number of device property codes (`INPUT_PROP_MAX + 1`).
pub const INPUT_PROP_CNT: usize = 0x20;
/// The number of event types (`EV_MAX + 1`).
pub const EV_CNT: usize = 0x20;
/// The number of key codes (`KEY_MAX + 1`).
pub const KEY_CNT: usize = 0x300;
/// The number of relative axis codes (`REL_MAX + 1`).
pub const REL_CNT: usize = 0x10;
/// The number of absolute axis codes (`ABS_MAX + 1`).
pub const ABS_CNT: usize = 0x40;
/// The number of switch codes (`SW_MAX + 1`).
pub const SW_CNT: usize = 0x11;
/// The number of miscellaneous codes (`MSC_MAX + 1`).
pub const MSC_CNT: usize = 0x08;
/// The number of LED codes (`LED_MAX + 1`).
pub const LED_CNT: usize = 0x10;
/// The number of sound codes (`SND_MAX + 1`).
pub const SND_CNT: usize = 0x08;
/// The size of the name buffer of `uinput_setup`.
pub const UINPUT_MAX_NAME_SIZE: usize = 80;

/// A point in time: seconds and microseconds.
#[derive(Copy, Clone, Debug, Eq, Hash, PartialEq, Structural)]
pub struct timeval {
    pub tv_sec: i64,
    pub tv_usec: i64,
}

#[derive(Copy, Clone, Debug, Eq, Hash, PartialEq, Structural)]
pub struct input_event {
    pub time: timeval,
    pub type_: u16,
    pub code: u16,
    pub value: i32,
}

#[derive(Copy, Clone, Debug, Eq, Hash, PartialEq, Structural)]
pub struct input_id {
    pub bustype: u16,
    pub vendor: u16,
    pub product: u16,
    pub version: u16,
}

#[derive(Copy, Clone, Debug, Eq, Hash, PartialEq, Structural)]
pub struct input_absinfo {
    pub value: i32,
    pub minimum: i32,
    pub maximum: i32,
    pub fuzz: i32,
    pub flat: i32,
    pub resolution: i32,
}

#[derive(Copy, Clone, Debug, Eq, Hash, PartialEq)]
pub struct input_keymap_entry {
    pub flags: u8,
    pub len: u8,
    pub index: u16,
    pub keycode: u32,
    pub scancode: [u8; 32],
}

#[derive(Copy, Clone, Debug, Eq, Hash, PartialEq, Structural)]
pub struct ff_replay {
    pub length: u16,
    pub delay: u16,
}

#[derive(Copy, Clone, Debug, Eq, Hash, PartialEq, Structural)]
pub struct ff_trigger {
    pub button: u16,
    pub interval: u16,
}

#[derive(Copy, Clone, Debug, Eq, Hash, PartialEq, Structural)]
pub struct ff_envelope {
    pub attack_length: u16,
    pub attack_level: u16,
    pub fade_length: u16,
    pub fade_level: u16,
}

#[derive(Copy, Clone, Debug, Eq, Hash, PartialEq, Structural)]
pub struct ff_constant_effect {
    pub level: i16,
    pub envelope: ff_envelope,
}

#[derive(Copy, Clone, Debug, Eq, Hash, PartialEq, Structural)]
pub struct ff_ramp_effect {
    pub start_level: i16,
    pub end_level: i16,
    pub envelope: ff_envelope,
}

#[derive(Copy, Clone, Debug, Eq, Hash, PartialEq, Structural)]
pub struct ff_condition_effect {
    pub right_saturation: u16,
    pub left_saturation: u16,
    pub right_coeff: i16,
    pub left_coeff: i16,
    pub deadband: u16,
    pub center: i16,
}

/// A periodic effect. `custom_data` is the address of the custom waveform
/// samples, which this library never follows.
#[derive(Copy, Clone, Debug, Eq, Hash, PartialEq, Structural)]
pub struct ff_periodic_effect {
    pub waveform: u16,
    pub period: u16,
    pub magnitude: i16,
    pub offset: i16,
    pub phase: u16,
    pub envelope: ff_envelope,
    pub custom_len: u32,
    pub custom_data: u64,
}

#[derive(Copy, Clone, Debug, Eq, Hash, PartialEq, Structural)]
pub struct ff_rumble_effect {
    pub strong_magnitude: u16,
    pub weak_magnitude: u16,
}

/// A force feedback effect as the kernel sees it.
///
/// The C structure ends in a union whose member is chosen by `type_`; here
/// the union is held as its 16-bit words in memory order (`u[0]` is the first
/// word), which is how every member but the periodic custom data is laid out.
#[derive(Copy, Clone, Debug, Eq, Hash, PartialEq)]
pub struct ff_effect {
    pub type_: u16,
    pub id: i16,
    pub direction: u16,
    pub trigger: ff_trigger,
    pub replay: ff_replay,
    pub u: [u16; 16],
}

#[derive(Copy, Clone, Debug, Eq, Hash, PartialEq, Structural)]
pub struct uinput_abs_setup {
    pub code: u16,
    pub absinfo: input_absinfo,
}

#[derive(Copy, Clone, Debug, Eq, Hash, PartialEq)]
pub struct uinput_setup {
    pub id: input_id,
    pub name: [u8; 80],
    pub ff_effects_max: u32,
}

} // verus!
