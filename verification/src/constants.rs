use crate::attribute_set::{ArrayedEvdevEnum, EvdevEnum};
use vstd::prelude::*;

verus! {

/// Event types supported by the device.
///
/// Values correspond to the kernel's `input-event-codes.h`.
/// This is a newtype around the u16 "type" field of `input_event`.
#[derive(Copy, Clone, PartialEq, Eq, Structural, Debug, Hash)]
pub struct EventType(pub u16);

impl EventType {
    /// A bookkeeping event. Usually not important to applications.
    pub const SYNCHRONIZATION: u16 = 0x00;
    /// A key changed state. A key, or button, is usually a momentary switch (in the circuit sense).
    pub const KEY: u16 = 0x01;
    /// Movement on a relative axis, such as mouse movement or scroll wheels.
    pub const RELATIVE: u16 = 0x02;
    /// Movement on an absolute axis. Used for things such as touch events and joysticks.
    pub const ABSOLUTE: u16 = 0x03;
    /// Miscellaneous events that don't fall into other categories.
    pub const MISC: u16 = 0x04;
    /// Change in a switch value.
    pub const SWITCH: u16 = 0x05;
    /// An LED was toggled.
    pub const LED: u16 = 0x11;
    /// A sound was made.
    pub const SOUND: u16 = 0x12;
    /// Metadata about key repeat configuration.
    pub const REPEAT: u16 = 0x14;
    /// Used to represent that the device can create haptic effects.
    pub const FORCEFEEDBACK: u16 = 0x15;
    /// Power events.
    pub const POWER: u16 = 0x16;
    /// A force feedback effect's state changed.
    pub const FORCEFEEDBACKSTATUS: u16 = 0x17;
    /// An event originating from uinput.
    pub const UINPUT: u16 = 0x101;

    /// The number of codes the kernel defines for this kind.
    pub const COUNT: usize = 0x20;
}

impl EvdevEnum for EventType {
    open spec fn spec_index(self) -> nat {
        self.0 as nat
    }

    open spec fn spec_from_index(i: nat) -> Self {
        EventType(i as u16)
    }

    fn from_index(i: usize) -> (r: Self) {
        EventType(i as u16)
    }

    fn to_index(self) -> (r: usize) {
        self.0 as usize
    }

    proof fn lemma_index_bounded(self) {
    }

    proof fn lemma_from_index(i: nat) {
    }
}

impl ArrayedEvdevEnum for EventType {
    open spec fn spec_count() -> nat {
        0x20
    }

    fn count() -> (r: usize) {
        EventType::COUNT
    }
}

/// A "synchronization" message type published by the kernel into the events stream.
#[derive(Copy, Clone, PartialEq, Eq, Structural, Debug, Hash)]
pub struct Synchronization(pub u16);

impl Synchronization {
    /// Used to mark the end of a single atomic "reading" from the device.
    pub const SYN_REPORT: u16 = 0x00;
    /// Appears to be unused.
    pub const SYN_CONFIG: u16 = 0x01;
    /// "Used to synchronize and separate touch events"
    pub const SYN_MT_REPORT: u16 = 0x02;
    /// Ring buffer filled, events were dropped.
    pub const SYN_DROPPED: u16 = 0x03;
}

impl EvdevEnum for Synchronization {
    open spec fn spec_index(self) -> nat {
        self.0 as nat
    }

    open spec fn spec_from_index(i: nat) -> Self {
        Synchronization(i as u16)
    }

    fn from_index(i: usize) -> (r: Self) {
        Synchronization(i as u16)
    }

    fn to_index(self) -> (r: usize) {
        self.0 as usize
    }

    proof fn lemma_index_bounded(self) {
    }

    proof fn lemma_from_index(i: nat) {
    }
}

/// Device properties.
#[derive(Copy, Clone, PartialEq, Eq, Structural, Debug, Hash)]
pub struct PropType(pub u16);

impl PropType {
    /// This input device needs a pointer ("cursor") for the user to know its state.
    pub const POINTER: u16 = 0x00;
    /// "direct input devices", according to the header.
    pub const DIRECT: u16 = 0x01;
    /// "has button(s) under pad", according to the header.
    pub const BUTTONPAD: u16 = 0x02;
    /// Touch rectangle only.
    pub const SEMI_MT: u16 = 0x03;
    /// "softbuttons at top of pad", according to the header.
    pub const TOPBUTTONPAD: u16 = 0x04;
    /// Is a pointing stick.
    pub const POINTING_STICK: u16 = 0x05;
    /// Has an accelerometer.
    pub const ACCELEROMETER: u16 = 0x06;

    /// The number of codes the kernel defines for this kind.
    pub const COUNT: usize = 0x20;
}

impl EvdevEnum for PropType {
    open spec fn spec_index(self) -> nat {
        self.0 as nat
    }

    open spec fn spec_from_index(i: nat) -> Self {
        PropType(i as u16)
    }

    fn from_index(i: usize) -> (r: Self) {
        PropType(i as u16)
    }

    fn to_index(self) -> (r: usize) {
        self.0 as usize
    }

    proof fn lemma_index_bounded(self) {
    }

    proof fn lemma_from_index(i: nat) {
    }
}

impl ArrayedEvdevEnum for PropType {
    open spec fn spec_count() -> nat {
        0x20
    }

    fn count() -> (r: usize) {
        PropType::COUNT
    }
}

/// A type of relative axis measurement, typically produced by mice.
#[derive(Copy, Clone, PartialEq, Eq, Structural, Debug, Hash)]
pub struct RelativeAxisType(pub u16);

impl RelativeAxisType {
    pub const REL_X: u16 = 0x00;
    pub const REL_Y: u16 = 0x01;
    pub const REL_Z: u16 = 0x02;
    pub const REL_RX: u16 = 0x03;
    pub const REL_RY: u16 = 0x04;
    pub const REL_RZ: u16 = 0x05;
    pub const REL_HWHEEL: u16 = 0x06;
    pub const REL_DIAL: u16 = 0x07;
    pub const REL_WHEEL: u16 = 0x08;
    pub const REL_MISC: u16 = 0x09;
    pub const REL_RESERVED: u16 = 0x0a;
    pub const REL_WHEEL_HI_RES: u16 = 0x0b;
    pub const REL_HWHEEL_HI_RES: u16 = 0x0c;

    /// The number of codes the kernel defines for this kind.
    pub const COUNT: usize = 0x10;
}

impl EvdevEnum for RelativeAxisType {
    open spec fn spec_index(self) -> nat {
        self.0 as nat
    }

    open spec fn spec_from_index(i: nat) -> Self {
        RelativeAxisType(i as u16)
    }

    fn from_index(i: usize) -> (r: Self) {
        RelativeAxisType(i as u16)
    }

    fn to_index(self) -> (r: usize) {
        self.0 as usize
    }

    proof fn lemma_index_bounded(self) {
    }

    proof fn lemma_from_index(i: nat) {
    }
}

impl ArrayedEvdevEnum for RelativeAxisType {
    open spec fn spec_count() -> nat {
        0x10
    }

    fn count() -> (r: usize) {
        RelativeAxisType::COUNT
    }
}

/// A type of absolute axis measurement, typically used for touch events and joysticks.
#[derive(Copy, Clone, PartialEq, Eq, Structural, Debug, Hash)]
pub struct AbsoluteAxisType(pub u16);

impl AbsoluteAxisType {
    pub const ABS_X: u16 = 0x00;
    pub const ABS_Y: u16 = 0x01;
    pub const ABS_Z: u16 = 0x02;
    pub const ABS_RX: u16 = 0x03;
    pub const ABS_RY: u16 = 0x04;
    pub const ABS_RZ: u16 = 0x05;
    pub const ABS_THROTTLE: u16 = 0x06;
    pub const ABS_RUDDER: u16 = 0x07;
    pub const ABS_WHEEL: u16 = 0x08;
    pub const ABS_GAS: u16 = 0x09;
    pub const ABS_BRAKE: u16 = 0x0a;
    pub const ABS_HAT0X: u16 = 0x10;
    pub const ABS_HAT0Y: u16 = 0x11;
    pub const ABS_HAT1X: u16 = 0x12;
    pub const ABS_HAT1Y: u16 = 0x13;
    pub const ABS_HAT2X: u16 = 0x14;
    pub const ABS_HAT2Y: u16 = 0x15;
    pub const ABS_HAT3X: u16 = 0x16;
    pub const ABS_HAT3Y: u16 = 0x17;
    pub const ABS_PRESSURE: u16 = 0x18;
    pub const ABS_DISTANCE: u16 = 0x19;
    pub const ABS_TILT_X: u16 = 0x1a;
    pub const ABS_TILT_Y: u16 = 0x1b;
    pub const ABS_TOOL_WIDTH: u16 = 0x1c;
    pub const ABS_VOLUME: u16 = 0x20;
    pub const ABS_MISC: u16 = 0x28;
    /// "MT slot being modified"
    pub const ABS_MT_SLOT: u16 = 0x2f;
    /// "Major axis of touching ellipse"
    pub const ABS_MT_TOUCH_MAJOR: u16 = 0x30;
    /// "Minor axis (omit if circular)"
    pub const ABS_MT_TOUCH_MINOR: u16 = 0x31;
    /// "Major axis of approaching ellipse"
    pub const ABS_MT_WIDTH_MAJOR: u16 = 0x32;
    /// "Minor axis (omit if circular)"
    pub const ABS_MT_WIDTH_MINOR: u16 = 0x33;
    /// "Ellipse orientation"
    pub const ABS_MT_ORIENTATION: u16 = 0x34;
    /// "Center X touch position"
    pub const ABS_MT_POSITION_X: u16 = 0x35;
    /// "Center Y touch position"
    pub const ABS_MT_POSITION_Y: u16 = 0x36;
    /// "Type of touching device"
    pub const ABS_MT_TOOL_TYPE: u16 = 0x37;
    /// "Group a set of packets as a blob"
    pub const ABS_MT_BLOB_ID: u16 = 0x38;
    /// "Unique ID of the initiated contact"
    pub const ABS_MT_TRACKING_ID: u16 = 0x39;
    /// "Pressure on contact area"
    pub const ABS_MT_PRESSURE: u16 = 0x3a;
    /// "Contact over distance"
    pub const ABS_MT_DISTANCE: u16 = 0x3b;
    /// "Center X tool position"
    pub const ABS_MT_TOOL_X: u16 = 0x3c;
    /// "Center Y tool position"
    pub const ABS_MT_TOOL_Y: u16 = 0x3d;

    /// The number of codes the kernel defines for this kind.
    pub const COUNT: usize = 0x40;
}

impl EvdevEnum for AbsoluteAxisType {
    open spec fn spec_index(self) -> nat {
        self.0 as nat
    }

    open spec fn spec_from_index(i: nat) -> Self {
        AbsoluteAxisType(i as u16)
    }

    fn from_index(i: usize) -> (r: Self) {
        AbsoluteAxisType(i as u16)
    }

    fn to_index(self) -> (r: usize) {
        self.0 as usize
    }

    proof fn lemma_index_bounded(self) {
    }

    proof fn lemma_from_index(i: nat) {
    }
}

impl ArrayedEvdevEnum for AbsoluteAxisType {
    open spec fn spec_count() -> nat {
        0x40
    }

    fn count() -> (r: usize) {
        AbsoluteAxisType::COUNT
    }
}

/// An event type corresponding to a physical or virtual switch.
#[derive(Copy, Clone, PartialEq, Eq, Structural, Debug, Hash)]
pub struct SwitchType(pub u16);

impl SwitchType {
    /// "set = lid shut"
    pub const SW_LID: u16 = 0x00;
    /// "set = tablet mode"
    pub const SW_TABLET_MODE: u16 = 0x01;
    /// "set = inserted"
    pub const SW_HEADPHONE_INSERT: u16 = 0x02;
    /// "rfkill master switch, type 'any'"
    pub const SW_RFKILL_ALL: u16 = 0x03;
    /// "set = inserted"
    pub const SW_MICROPHONE_INSERT: u16 = 0x04;
    /// "set = plugged into doc"
    pub const SW_DOCK: u16 = 0x05;
    /// "set = inserted"
    pub const SW_LINEOUT_INSERT: u16 = 0x06;
    /// "set = mechanical switch set"
    pub const SW_JACK_PHYSICAL_INSERT: u16 = 0x07;
    /// "set = inserted"
    pub const SW_VIDEOOUT_INSERT: u16 = 0x08;
    /// "set = lens covered"
    pub const SW_CAMERA_LENS_COVER: u16 = 0x09;
    /// "set = keypad slide out"
    pub const SW_KEYPAD_SLIDE: u16 = 0x0a;
    /// "set = front proximity sensor active"
    pub const SW_FRONT_PROXIMITY: u16 = 0x0b;
    /// "set = rotate locked/disabled"
    pub const SW_ROTATE_LOCK: u16 = 0x0c;
    /// "set = inserted"
    pub const SW_LINEIN_INSERT: u16 = 0x0d;
    /// "set = device disabled"
    pub const SW_MUTE_DEVICE: u16 = 0x0e;
    /// "set = pen inserted"
    pub const SW_PEN_INSERTED: u16 = 0x0f;
    /// "set = cover closed"
    pub const SW_MACHINE_COVER: u16 = 0x10;

    /// The number of codes the kernel defines for this kind.
    pub const COUNT: usize = 0x11;
}

impl EvdevEnum for SwitchType {
    open spec fn spec_index(self) -> nat {
        self.0 as nat
    }

    open spec fn spec_from_index(i: nat) -> Self {
        SwitchType(i as u16)
    }

    fn from_index(i: usize) -> (r: Self) {
        SwitchType(i as u16)
    }

    fn to_index(self) -> (r: usize) {
        self.0 as usize
    }

    proof fn lemma_index_bounded(self) {
    }

    proof fn lemma_from_index(i: nat) {
    }
}

impl ArrayedEvdevEnum for SwitchType {
    open spec fn spec_count() -> nat {
        0x11
    }

    fn count() -> (r: usize) {
        SwitchType::COUNT
    }
}

/// LEDs specified by USB HID.
#[derive(Copy, Clone, PartialEq, Eq, Structural, Debug, Hash)]
pub struct LedType(pub u16);

impl LedType {
    pub const LED_NUML: u16 = 0x00;
    pub const LED_CAPSL: u16 = 0x01;
    pub const LED_SCROLLL: u16 = 0x02;
    pub const LED_COMPOSE: u16 = 0x03;
    pub const LED_KANA: u16 = 0x04;
    /// "Stand-by"
    pub const LED_SLEEP: u16 = 0x05;
    pub const LED_SUSPEND: u16 = 0x06;
    pub const LED_MUTE: u16 = 0x07;
    /// "Generic indicator"
    pub const LED_MISC: u16 = 0x08;
    /// "Message waiting"
    pub const LED_MAIL: u16 = 0x09;
    /// "External power connected"
    pub const LED_CHARGING: u16 = 0x0a;

    /// The number of codes the kernel defines for this kind.
    pub const COUNT: usize = 0x10;
}

impl EvdevEnum for LedType {
    open spec fn spec_index(self) -> nat {
        self.0 as nat
    }

    open spec fn spec_from_index(i: nat) -> Self {
        LedType(i as u16)
    }

    fn from_index(i: usize) -> (r: Self) {
        LedType(i as u16)
    }

    fn to_index(self) -> (r: usize) {
        self.0 as usize
    }

    proof fn lemma_index_bounded(self) {
    }

    proof fn lemma_from_index(i: nat) {
    }
}

impl ArrayedEvdevEnum for LedType {
    open spec fn spec_count() -> nat {
        0x10
    }

    fn count() -> (r: usize) {
        LedType::COUNT
    }
}

/// Various miscellaneous event types.
#[derive(Copy, Clone, PartialEq, Eq, Structural, Debug, Hash)]
pub struct MiscType(pub u16);

impl MiscType {
    /// Serial number, only exported for tablets ("Transducer Serial Number")
    pub const MSC_SERIAL: u16 = 0x00;
    /// Only used by the PowerMate driver, right now.
    pub const MSC_PULSELED: u16 = 0x01;
    /// Completely unused.
    pub const MSC_GESTURE: u16 = 0x02;
    /// "Raw" event, rarely used.
    pub const MSC_RAW: u16 = 0x03;
    /// Key scancode
    pub const MSC_SCAN: u16 = 0x04;
    /// Completely unused.
    pub const MSC_TIMESTAMP: u16 = 0x05;

    /// The number of codes the kernel defines for this kind.
    pub const COUNT: usize = 0x08;
}

impl EvdevEnum for MiscType {
    open spec fn spec_index(self) -> nat {
        self.0 as nat
    }

    open spec fn spec_from_index(i: nat) -> Self {
        MiscType(i as u16)
    }

    fn from_index(i: usize) -> (r: Self) {
        MiscType(i as u16)
    }

    fn to_index(self) -> (r: usize) {
        self.0 as usize
    }

    proof fn lemma_index_bounded(self) {
    }

    proof fn lemma_from_index(i: nat) {
    }
}

impl ArrayedEvdevEnum for MiscType {
    open spec fn spec_count() -> nat {
        0x08
    }

    fn count() -> (r: usize) {
        MiscType::COUNT
    }
}

/// Force feedback effect types
#[derive(Copy, Clone, PartialEq, Eq, Structural, Debug, Hash)]
pub struct FFEffectType(pub u16);

impl FFEffectType {
    /// Rumble effects.
    pub const FF_RUMBLE: u16 = 0x50;
    /// Can render periodic effects with any of the waveforms.
    pub const FF_PERIODIC: u16 = 0x51;
    /// Can render constant force effects.
    pub const FF_CONSTANT: u16 = 0x52;
    /// Can simulate the presence of a spring.
    pub const FF_SPRING: u16 = 0x53;
    /// Can simulate friction.
    pub const FF_FRICTION: u16 = 0x54;
    /// Can simulate damper effects.
    pub const FF_DAMPER: u16 = 0x55;
    /// Can simulate inertia.
    pub const FF_INERTIA: u16 = 0x56;
    /// Can render ramp effects.
    pub const FF_RAMP: u16 = 0x57;
    /// Square waveform.
    pub const FF_SQUARE: u16 = 0x58;
    /// Triangle waveform.
    pub const FF_TRIANGLE: u16 = 0x59;
    /// Sine waveform.
    pub const FF_SINE: u16 = 0x5a;
    /// Sawtooth up waveform.
    pub const FF_SAW_UP: u16 = 0x5b;
    /// Sawtooth down waveform.
    pub const FF_SAW_DOWN: u16 = 0x5c;
    /// Custom waveform.
    pub const FF_CUSTOM: u16 = 0x5d;
    /// The gain is adjustable.
    pub const FF_GAIN: u16 = 0x60;
    /// The autocenter is adjustable.
    pub const FF_AUTOCENTER: u16 = 0x61;

    /// The number of codes the kernel defines for this kind.
    pub const COUNT: usize = 0x80;
}

impl EvdevEnum for FFEffectType {
    open spec fn spec_index(self) -> nat {
        self.0 as nat
    }

    open spec fn spec_from_index(i: nat) -> Self {
        FFEffectType(i as u16)
    }

    fn from_index(i: usize) -> (r: Self) {
        FFEffectType(i as u16)
    }

    fn to_index(self) -> (r: usize) {
        self.0 as usize
    }

    proof fn lemma_index_bounded(self) {
    }

    proof fn lemma_from_index(i: nat) {
    }
}

impl ArrayedEvdevEnum for FFEffectType {
    open spec fn spec_count() -> nat {
        0x80
    }

    fn count() -> (r: usize) {
        FFEffectType::COUNT
    }
}

/// Force feedback effect status
#[derive(Copy, Clone, PartialEq, Eq, Structural, Debug, Hash)]
pub struct FFStatus(pub u16);

impl FFStatus {
    /// The force feedback event is currently stopped.
    pub const FF_STATUS_STOPPED: u16 = 0x00;
    /// The force feedback event is currently playing.
    pub const FF_STATUS_PLAYING: u16 = 0x01;

    /// The number of codes the kernel defines for this kind.
    pub const COUNT: usize = 2;
}

impl EvdevEnum for FFStatus {
    open spec fn spec_index(self) -> nat {
        self.0 as nat
    }

    open spec fn spec_from_index(i: nat) -> Self {
        FFStatus(i as u16)
    }

    fn from_index(i: usize) -> (r: Self) {
        FFStatus(i as u16)
    }

    fn to_index(self) -> (r: usize) {
        self.0 as usize
    }

    proof fn lemma_index_bounded(self) {
    }

    proof fn lemma_from_index(i: nat) {
    }
}

impl ArrayedEvdevEnum for FFStatus {
    open spec fn spec_count() -> nat {
        2
    }

    fn count() -> (r: usize) {
        FFStatus::COUNT
    }
}

/// A type associated with simple sounds, such as beeps or tones.
#[derive(Copy, Clone, PartialEq, Eq, Structural, Debug, Hash)]
pub struct SoundType(pub u16);

impl SoundType {
    pub const SND_CLICK: u16 = 0x00;
    pub const SND_BELL: u16 = 0x01;
    pub const SND_TONE: u16 = 0x02;

    /// The number of codes the kernel defines for this kind.
    pub const COUNT: usize = 0x08;
}

impl EvdevEnum for SoundType {
    open spec fn spec_index(self) -> nat {
        self.0 as nat
    }

    open spec fn spec_from_index(i: nat) -> Self {
        SoundType(i as u16)
    }

    fn from_index(i: usize) -> (r: Self) {
        SoundType(i as u16)
    }

    fn to_index(self) -> (r: usize) {
        self.0 as usize
    }

    proof fn lemma_index_bounded(self) {
    }

    proof fn lemma_from_index(i: nat) {
    }
}

impl ArrayedEvdevEnum for SoundType {
    open spec fn spec_count() -> nat {
        0x08
    }

    fn count() -> (r: usize) {
        SoundType::COUNT
    }
}

/// A uinput event published by the kernel into the events stream for uinput devices.
#[derive(Copy, Clone, PartialEq, Eq, Structural, Debug, Hash)]
pub struct UInputEventType(pub u16);

impl UInputEventType {
    /// The virtual uinput device is uploading a force feedback effect.
    pub const UI_FF_UPLOAD: u16 = 0x01;
    /// The virtual uinput device is erasing a force feedback event.
    pub const UI_FF_ERASE: u16 = 0x02;
}

impl EvdevEnum for UInputEventType {
    open spec fn spec_index(self) -> nat {
        self.0 as nat
    }

    open spec fn spec_from_index(i: nat) -> Self {
        UInputEventType(i as u16)
    }

    fn from_index(i: usize) -> (r: Self) {
        UInputEventType(i as u16)
    }

    fn to_index(self) -> (r: usize) {
        self.0 as usize
    }

    proof fn lemma_index_bounded(self) {
    }

    proof fn lemma_from_index(i: nat) {
    }
}

/// Key repeat settings carried by `EV_REP` events.
#[derive(Copy, Clone, PartialEq, Eq, Structural, Debug, Hash)]
pub struct RepeatCode(pub u16);

impl RepeatCode {
    /// Delay before a held key starts repeating.
    pub const REP_DELAY: u16 = 0x00;
    /// Period between repeats of a held key.
    pub const REP_PERIOD: u16 = 0x01;
}

impl EvdevEnum for RepeatCode {
    open spec fn spec_index(self) -> nat {
        self.0 as nat
    }

    open spec fn spec_from_index(i: nat) -> Self {
        RepeatCode(i as u16)
    }

    fn from_index(i: usize) -> (r: Self) {
        RepeatCode(i as u16)
    }

    fn to_index(self) -> (r: usize) {
        self.0 as usize
    }

    proof fn lemma_index_bounded(self) {
    }

    proof fn lemma_from_index(i: nat) {
    }
}

/// Codes carried by `EV_PWR` events; the kernel defines none.
#[derive(Copy, Clone, PartialEq, Eq, Structural, Debug, Hash)]
pub struct PowerCode(pub u16);

impl PowerCode {
}

impl EvdevEnum for PowerCode {
    open spec fn spec_index(self) -> nat {
        self.0 as nat
    }

    open spec fn spec_from_index(i: nat) -> Self {
        PowerCode(i as u16)
    }

    fn from_index(i: usize) -> (r: Self) {
        PowerCode(i as u16)
    }

    fn to_index(self) -> (r: usize) {
        self.0 as usize
    }

    proof fn lemma_index_bounded(self) {
    }

    proof fn lemma_from_index(i: nat) {
    }
}

/// An event code of a type that no other code new-type covers: the raw type and code.
#[derive(Copy, Clone, PartialEq, Eq, Structural, Debug, Hash)]
pub struct OtherCode(pub u16, pub u16);

/// Synchronization codes, under the name the event variants use.
pub type SynchronizationCode = Synchronization;

/// Relative axis codes, under the name the event variants use.
pub type RelativeAxisCode = RelativeAxisType;

/// Absolute axis codes, under the name the event variants use.
pub type AbsoluteAxisCode = AbsoluteAxisType;

/// Switch codes, under the name the event variants use.
pub type SwitchCode = SwitchType;

/// LED codes, under the name the event variants use.
pub type LedCode = LedType;

/// Miscellaneous codes, under the name the event variants use.
pub type MiscCode = MiscType;

/// Force feedback codes, under the name the event variants use.
pub type FFEffectCode = FFEffectType;

/// Force feedback status codes, under the name the event variants use.
pub type FFStatusCode = FFStatus;

/// Sound codes, under the name the event variants use.
pub type SoundCode = SoundType;

/// uinput codes, under the name the event variants use.
pub type UInputCode = UInputEventType;

} // verus!
