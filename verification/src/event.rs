use crate::compat::{input_absinfo, input_event, timeval, uinput_abs_setup};
use crate::constants::{AbsoluteAxisCode, EventType};
use vstd::prelude::*;

verus! {

/// A wrapped `input_event` returned by the input device via the kernel.
///
/// `input_event` is a struct containing four fields:
/// - `time: timeval`
/// - `type_: u16`
/// - `code: u16`
/// - `value: s32`
///
/// The meaning of the "code" and "value" fields will depend on the underlying type of event.
#[derive(Copy, Clone, Eq, PartialEq, Structural, Hash, Debug)]
pub struct InputEvent(pub input_event);

/// The time every event made by [`InputEvent::new`] carries: zero.
pub open spec fn zero_time() -> timeval {
    timeval { tv_sec: 0, tv_usec: 0 }
}

/// The event [`InputEvent::new`] makes.
pub open spec fn spec_new_event(type_: u16, code: u16, value: i32) -> InputEvent {
    InputEvent(input_event { time: zero_time(), type_, code, value })
}

impl InputEvent {
    /// Returns the type of event this describes, e.g. Key, Switch, etc.
    pub fn event_type(&self) -> (r: EventType)
        ensures
            r.0 == self.0.type_,
    {
        EventType(self.0.type_)
    }

    /// Returns the raw "code" field directly from input_event.
    pub fn code(&self) -> (r: u16)
        ensures
            r == self.0.code,
    {
        self.0.code
    }

    /// Returns the raw "value" field directly from input_event.
    ///
    /// For keys and switches the values 0 and 1 map to pressed and not pressed respectively.
    /// For axes, the values depend on the hardware and driver implementation.
    pub fn value(&self) -> (r: i32)
        ensures
            r == self.0.value,
    {
        self.0.value
    }

    /// Returns the raw time the kernel stamped on the event.
    pub fn time(&self) -> (r: timeval)
        ensures
            r == self.0.time,
    {
        self.0.time
    }

    /// Create a new InputEvent. Only really useful for emitting events on virtual devices.
    ///
    /// The time field is zero; the kernel sets it when it passes the event on.
    pub fn new(type_: u16, code: u16, value: i32) -> (r: Self)
        ensures
            r == spec_new_event(type_, code, value),
    {
        InputEvent(input_event { time: timeval { tv_sec: 0, tv_usec: 0 }, type_, code, value })
    }
}

impl From<input_event> for InputEvent {
    fn from(raw: input_event) -> (r: Self)
        ensures
            r.0 == raw,
    {
        InputEvent(raw)
    }
}

impl vstd::std_specs::convert::FromSpecImpl<input_event> for InputEvent {
    open spec fn obeys_from_spec() -> bool {
        true
    }

    open spec fn from_spec(raw: input_event) -> InputEvent {
        InputEvent(raw)
    }
}

impl From<InputEvent> for input_event {
    fn from(event: InputEvent) -> (r: Self)
        ensures
            r == event.0,
    {
        event.0
    }
}

impl vstd::std_specs::convert::FromSpecImpl<InputEvent> for input_event {
    open spec fn obeys_from_spec() -> bool {
        true
    }

    open spec fn from_spec(event: InputEvent) -> input_event {
        event.0
    }
}

/// The offset from the Unix epoch that a `timeval` stands for, as the
/// conversion to `SystemTime` takes it: whether it lies before the epoch, the
/// seconds (the `tv_sec` bits read unsigned), and the nanoseconds.
pub open spec fn epoch_offset_of(tv: timeval) -> (bool, u64, int) {
    (tv.tv_sec < 0, tv.tv_sec as u64, (tv.tv_usec as u32) * 1000)
}

/// The `timeval` of an offset from the Unix epoch, given as whether it lies
/// before the epoch, whole seconds and the microseconds beyond them; the
/// seconds are taken as a signed 64-bit count, wrapping as a cast does.
pub open spec fn timeval_of_epoch_offset(before_epoch: bool, secs: u64, micros: u32) -> timeval {
    timeval {
        tv_sec: if before_epoch { -((secs as i64) as int) } else { (secs as i64) as int } as i64,
        tv_usec: micros as i64,
    }
}

/// The offset from the Unix epoch that a `timeval` stands for: whether it lies
/// before the epoch, the whole seconds, and the nanoseconds, as the
/// conversion to `SystemTime` takes them.
pub fn timeval_to_epoch_offset(tv: &timeval) -> (r: (bool, u64, u32))
    requires
        (tv.tv_usec as u32) <= 4294967,
    ensures
        (r.0, r.1, r.2 as int) == epoch_offset_of(*tv),
{
    let usec = tv.tv_usec as u32;
    (tv.tv_sec < 0, tv.tv_sec as u64, usec * 1000)
}

/// The `timeval` of an offset from the Unix epoch, given as whether it lies
/// before the epoch, whole seconds and the microseconds beyond them.
pub fn timeval_from_epoch_offset(before_epoch: bool, secs: u64, micros: u32) -> (r: timeval)
    requires
        !(before_epoch && secs as i64 == i64::MIN),
    ensures
        r == timeval_of_epoch_offset(before_epoch, secs, micros),
{
    let s = secs as i64;
    let tv_sec = if before_epoch { -s } else { s };
    timeval { tv_sec, tv_usec: micros as i64 }
}

/// A point at or after the epoch survives the trip to a `timeval` and back:
/// the seconds come back, and the microseconds come back as nanoseconds.
pub proof fn law_epoch_offset_roundtrip(secs: u64, micros: u32)
    requires
        secs <= i64::MAX,
        micros < 1_000_000,
    ensures
        epoch_offset_of(timeval_of_epoch_offset(false, secs, micros)) == (false, secs, micros * 1000),
{
    assert((secs as i64) as u64 == secs) by (bit_vector)
        requires secs <= 0x7fff_ffff_ffff_ffffu64;
    assert(((micros as i64) as u32) == micros) by (bit_vector);
}

/// A wrapped `input_absinfo` returned by EVIOCGABS and used with uinput to set up absolute
/// axes
///
/// `input_absinfo` is a struct containing six fields:
/// - `value: s32`
/// - `minimum: s32`
/// - `maximum: s32`
/// - `fuzz: s32`
/// - `flat: s32`
/// - `resolution: s32`
#[derive(Copy, Clone, Eq, PartialEq, Structural, Hash, Debug)]
pub struct AbsInfo(pub input_absinfo);

impl AbsInfo {
    pub fn value(&self) -> (r: i32)
        ensures
            r == self.0.value,
    {
        self.0.value
    }

    pub fn minimum(&self) -> (r: i32)
        ensures
            r == self.0.minimum,
    {
        self.0.minimum
    }

    pub fn maximum(&self) -> (r: i32)
        ensures
            r == self.0.maximum,
    {
        self.0.maximum
    }

    pub fn fuzz(&self) -> (r: i32)
        ensures
            r == self.0.fuzz,
    {
        self.0.fuzz
    }

    pub fn flat(&self) -> (r: i32)
        ensures
            r == self.0.flat,
    {
        self.0.flat
    }

    pub fn resolution(&self) -> (r: i32)
        ensures
            r == self.0.resolution,
    {
        self.0.resolution
    }

    /// Creates a new AbsInfo, particurarily useful for uinput
    pub fn new(value: i32, minimum: i32, maximum: i32, fuzz: i32, flat: i32, resolution: i32) -> (r: Self)
        ensures
            r.0 == (input_absinfo { value, minimum, maximum, fuzz, flat, resolution }),
    {
        AbsInfo(input_absinfo { value, minimum, maximum, fuzz, flat, resolution })
    }
}

impl From<input_absinfo> for AbsInfo {
    fn from(raw: input_absinfo) -> (r: Self)
        ensures
            r.0 == raw,
    {
        AbsInfo(raw)
    }
}

impl vstd::std_specs::convert::FromSpecImpl<input_absinfo> for AbsInfo {
    open spec fn obeys_from_spec() -> bool {
        true
    }

    open spec fn from_spec(raw: input_absinfo) -> AbsInfo {
        AbsInfo(raw)
    }
}

impl From<AbsInfo> for input_absinfo {
    fn from(info: AbsInfo) -> (r: Self)
        ensures
            r == info.0,
    {
        info.0
    }
}

impl vstd::std_specs::convert::FromSpecImpl<AbsInfo> for input_absinfo {
    open spec fn obeys_from_spec() -> bool {
        true
    }

    open spec fn from_spec(info: AbsInfo) -> input_absinfo {
        info.0
    }
}

/// A wrapped `uinput_abs_setup`, used to set up analogue axes with uinput
///
/// `uinput_abs_setup` is a struct containing two fields:
/// - `code: u16`
/// - `absinfo: input_absinfo`
#[derive(Copy, Clone, Eq, PartialEq, Structural, Hash, Debug)]
pub struct UinputAbsSetup(pub uinput_abs_setup);

impl UinputAbsSetup {
    pub fn code(&self) -> (r: u16)
        ensures
            r == self.0.code,
    {
        self.0.code
    }

    pub fn absinfo(&self) -> (r: AbsInfo)
        ensures
            r.0 == self.0.absinfo,
    {
        AbsInfo(self.0.absinfo)
    }

    /// Creates new UinputAbsSetup
    pub fn new(code: AbsoluteAxisCode, absinfo: AbsInfo) -> (r: Self)
        ensures
            r.0 == (uinput_abs_setup { code: code.0, absinfo: absinfo.0 }),
    {
        UinputAbsSetup(uinput_abs_setup { code: code.0, absinfo: absinfo.0 })
    }
}

impl From<uinput_abs_setup> for UinputAbsSetup {
    fn from(raw: uinput_abs_setup) -> (r: Self)
        ensures
            r.0 == raw,
    {
        UinputAbsSetup(raw)
    }
}

impl vstd::std_specs::convert::FromSpecImpl<uinput_abs_setup> for UinputAbsSetup {
    open spec fn obeys_from_spec() -> bool {
        true
    }

    open spec fn from_spec(raw: uinput_abs_setup) -> UinputAbsSetup {
        UinputAbsSetup(raw)
    }
}

impl From<UinputAbsSetup> for uinput_abs_setup {
    fn from(setup: UinputAbsSetup) -> (r: Self)
        ensures
            r == setup.0,
    {
        setup.0
    }
}

impl vstd::std_specs::convert::FromSpecImpl<UinputAbsSetup> for uinput_abs_setup {
    open spec fn obeys_from_spec() -> bool {
        true
    }

    open spec fn from_spec(setup: UinputAbsSetup) -> uinput_abs_setup {
        setup.0
    }
}

/// Auto-repeat settings for a device.
#[derive(Copy, Clone, Debug, Eq, PartialEq, Structural)]
pub struct AutoRepeat {
    /// The duration, in milliseconds, that a key needs to be held down before
    /// it begins to auto-repeat.
    pub delay: u32,
    /// The duration, in milliseconds, between auto-repetitions of a held-down key.
    pub period: u32,
}

/// An error type for parsing enum-like types of this crate from their names.
#[derive(Copy, Clone, Debug, Eq, PartialEq, Structural, Hash)]
pub struct EnumParseError;

impl EnumParseError {
    /// The message this error carries.
    pub fn message(&self) -> (r: &'static str)
        ensures
            r@ == "failed to parse Key from string"@,
    {
        "failed to parse Key from string"
    }
}

} // verus!
