//! The kernel's names of the codes of each kind, and parsing them back.

use crate::constants::{
    AbsoluteAxisType, EventType, FFEffectType, FFStatus, LedType, MiscType, PropType,
    RelativeAxisType, RepeatCode, SoundType, SwitchType, Synchronization, UInputEventType,
};
use crate::event::{EnumParseError, InputEvent};
use crate::inputid::BusType;
use crate::scancodes::KeyCode;
use vstd::prelude::*;
use vstd::string::StringSliceAdditionalSpecFns;

verus! {

/// Whether two strings hold the same characters, decided on their bytes.
pub fn same_str(a: &str, b: &str) -> (r: bool)
    ensures
        r == (a@ == b@),
{
    let x = a.as_bytes();
    let y = b.as_bytes();
    if x.len() != y.len() {
        return false;
    }
    let mut i: usize = 0;
    while i < x.len()
        invariant
            x@ == a.spec_bytes(),
            y@ == b.spec_bytes(),
            x@.len() == y@.len(),
            i <= x@.len(),
            forall|j: int| 0 <= j < i ==> x@[j] == y@[j],
        decreases x@.len() - i,
    {
        if x[i] != y[i] {
            return false;
        }
        i += 1;
    }
    assert(x@ =~= y@);
    proof {
        vstd::utf8::encode_utf8_decode_utf8(a@);
        vstd::utf8::encode_utf8_decode_utf8(b@);
    }
    true
}

/// The kernel's name of `code` as a EventType, if it defines one.
pub open spec fn event_type_name(code: u16) -> Option<Seq<char>> {
    match code {
        0x0 => Some("SYNCHRONIZATION"@),
        0x1 => Some("KEY"@),
        0x2 => Some("RELATIVE"@),
        0x3 => Some("ABSOLUTE"@),
        0x4 => Some("MISC"@),
        0x5 => Some("SWITCH"@),
        0x11 => Some("LED"@),
        0x12 => Some("SOUND"@),
        0x14 => Some("REPEAT"@),
        0x15 => Some("FORCEFEEDBACK"@),
        0x16 => Some("POWER"@),
        0x17 => Some("FORCEFEEDBACKSTATUS"@),
        0x101 => Some("UINPUT"@),
        _ => None,
    }
}

/// The EventType code that the kernel names `name`, if any.
pub open spec fn event_type_code(name: Seq<char>) -> Option<u16> {
    if name == "SYNCHRONIZATION"@ {
        Some(0x0)
    } else if name == "KEY"@ {
        Some(0x1)
    } else if name == "RELATIVE"@ {
        Some(0x2)
    } else if name == "ABSOLUTE"@ {
        Some(0x3)
    } else if name == "MISC"@ {
        Some(0x4)
    } else if name == "SWITCH"@ {
        Some(0x5)
    } else if name == "LED"@ {
        Some(0x11)
    } else if name == "SOUND"@ {
        Some(0x12)
    } else if name == "REPEAT"@ {
        Some(0x14)
    } else if name == "FORCEFEEDBACK"@ {
        Some(0x15)
    } else if name == "POWER"@ {
        Some(0x16)
    } else if name == "FORCEFEEDBACKSTATUS"@ {
        Some(0x17)
    } else if name == "UINPUT"@ {
        Some(0x101)
    } else {
        None
    }
}

impl EventType {
    /// The kernel's name of this code, `None` for a code it does not define.
    pub fn name(&self) -> (r: Option<&'static str>)
        ensures
            r matches Some(n) ==> event_type_name(self.0) == Some(n@),
            r is None ==> event_type_name(self.0) is None,
    {
        match self.0 {
            0x0 => Some("SYNCHRONIZATION"),
            0x1 => Some("KEY"),
            0x2 => Some("RELATIVE"),
            0x3 => Some("ABSOLUTE"),
            0x4 => Some("MISC"),
            0x5 => Some("SWITCH"),
            0x11 => Some("LED"),
            0x12 => Some("SOUND"),
            0x14 => Some("REPEAT"),
            0x15 => Some("FORCEFEEDBACK"),
            0x16 => Some("POWER"),
            0x17 => Some("FORCEFEEDBACKSTATUS"),
            0x101 => Some("UINPUT"),
            _ => None,
        }
    }

    /// The code the kernel names `s`; an error for a name it does not define.
    pub fn from_name(s: &str) -> (r: Result<Self, EnumParseError>)
        ensures
            r matches Ok(t) ==> event_type_code(s@) == Some(t.0),
            r is Err ==> event_type_code(s@) is None,
    {
        if same_str(s, "SYNCHRONIZATION") {
            return Ok(EventType(0x0));
        }
        if same_str(s, "KEY") {
            return Ok(EventType(0x1));
        }
        if same_str(s, "RELATIVE") {
            return Ok(EventType(0x2));
        }
        if same_str(s, "ABSOLUTE") {
            return Ok(EventType(0x3));
        }
        if same_str(s, "MISC") {
            return Ok(EventType(0x4));
        }
        if same_str(s, "SWITCH") {
            return Ok(EventType(0x5));
        }
        if same_str(s, "LED") {
            return Ok(EventType(0x11));
        }
        if same_str(s, "SOUND") {
            return Ok(EventType(0x12));
        }
        if same_str(s, "REPEAT") {
            return Ok(EventType(0x14));
        }
        if same_str(s, "FORCEFEEDBACK") {
            return Ok(EventType(0x15));
        }
        if same_str(s, "POWER") {
            return Ok(EventType(0x16));
        }
        if same_str(s, "FORCEFEEDBACKSTATUS") {
            return Ok(EventType(0x17));
        }
        if same_str(s, "UINPUT") {
            return Ok(EventType(0x101));
        }
        Err(EnumParseError)
    }
}

impl core::str::FromStr for EventType {
    type Err = EnumParseError;

    /// The code the kernel names `s`; an error for a name it does not define.
    fn from_str(s: &str) -> (r: Result<Self, EnumParseError>)
        ensures
            r matches Ok(t) ==> event_type_code(s@) == Some(t.0),
            r is Err ==> event_type_code(s@) is None,
    {
        EventType::from_name(s)
    }
}

/// The kernel's name of `code` as a Synchronization, if it defines one.
pub open spec fn synchronization_name(code: u16) -> Option<Seq<char>> {
    match code {
        0x0 => Some("SYN_REPORT"@),
        0x1 => Some("SYN_CONFIG"@),
        0x2 => Some("SYN_MT_REPORT"@),
        0x3 => Some("SYN_DROPPED"@),
        _ => None,
    }
}

/// The Synchronization code that the kernel names `name`, if any.
pub open spec fn synchronization_code(name: Seq<char>) -> Option<u16> {
    if name == "SYN_REPORT"@ {
        Some(0x0)
    } else if name == "SYN_CONFIG"@ {
        Some(0x1)
    } else if name == "SYN_MT_REPORT"@ {
        Some(0x2)
    } else if name == "SYN_DROPPED"@ {
        Some(0x3)
    } else {
        None
    }
}

impl Synchronization {
    /// The kernel's name of this code, `None` for a code it does not define.
    pub fn name(&self) -> (r: Option<&'static str>)
        ensures
            r matches Some(n) ==> synchronization_name(self.0) == Some(n@),
            r is None ==> synchronization_name(self.0) is None,
    {
        match self.0 {
            0x0 => Some("SYN_REPORT"),
            0x1 => Some("SYN_CONFIG"),
            0x2 => Some("SYN_MT_REPORT"),
            0x3 => Some("SYN_DROPPED"),
            _ => None,
        }
    }

    /// The code the kernel names `s`; an error for a name it does not define.
    pub fn from_name(s: &str) -> (r: Result<Self, EnumParseError>)
        ensures
            r matches Ok(t) ==> synchronization_code(s@) == Some(t.0),
            r is Err ==> synchronization_code(s@) is None,
    {
        if same_str(s, "SYN_REPORT") {
            return Ok(Synchronization(0x0));
        }
        if same_str(s, "SYN_CONFIG") {
            return Ok(Synchronization(0x1));
        }
        if same_str(s, "SYN_MT_REPORT") {
            return Ok(Synchronization(0x2));
        }
        if same_str(s, "SYN_DROPPED") {
            return Ok(Synchronization(0x3));
        }
        Err(EnumParseError)
    }
}

impl core::str::FromStr for Synchronization {
    type Err = EnumParseError;

    /// The code the kernel names `s`; an error for a name it does not define.
    fn from_str(s: &str) -> (r: Result<Self, EnumParseError>)
        ensures
            r matches Ok(t) ==> synchronization_code(s@) == Some(t.0),
            r is Err ==> synchronization_code(s@) is None,
    {
        Synchronization::from_name(s)
    }
}

/// The kernel's name of `code` as a PropType, if it defines one.
pub open spec fn prop_type_name(code: u16) -> Option<Seq<char>> {
    match code {
        0x0 => Some("POINTER"@),
        0x1 => Some("DIRECT"@),
        0x2 => Some("BUTTONPAD"@),
        0x3 => Some("SEMI_MT"@),
        0x4 => Some("TOPBUTTONPAD"@),
        0x5 => Some("POINTING_STICK"@),
        0x6 => Some("ACCELEROMETER"@),
        _ => None,
    }
}

/// The PropType code that the kernel names `name`, if any.
pub open spec fn prop_type_code(name: Seq<char>) -> Option<u16> {
    if name == "POINTER"@ {
        Some(0x0)
    } else if name == "DIRECT"@ {
        Some(0x1)
    } else if name == "BUTTONPAD"@ {
        Some(0x2)
    } else if name == "SEMI_MT"@ {
        Some(0x3)
    } else if name == "TOPBUTTONPAD"@ {
        Some(0x4)
    } else if name == "POINTING_STICK"@ {
        Some(0x5)
    } else if name == "ACCELEROMETER"@ {
        Some(0x6)
    } else {
        None
    }
}

impl PropType {
    /// The kernel's name of this code, `None` for a code it does not define.
    pub fn name(&self) -> (r: Option<&'static str>)
        ensures
            r matches Some(n) ==> prop_type_name(self.0) == Some(n@),
            r is None ==> prop_type_name(self.0) is None,
    {
        match self.0 {
            0x0 => Some("POINTER"),
            0x1 => Some("DIRECT"),
            0x2 => Some("BUTTONPAD"),
            0x3 => Some("SEMI_MT"),
            0x4 => Some("TOPBUTTONPAD"),
            0x5 => Some("POINTING_STICK"),
            0x6 => Some("ACCELEROMETER"),
            _ => None,
        }
    }

    /// The code the kernel names `s`; an error for a name it does not define.
    pub fn from_name(s: &str) -> (r: Result<Self, EnumParseError>)
        ensures
            r matches Ok(t) ==> prop_type_code(s@) == Some(t.0),
            r is Err ==> prop_type_code(s@) is None,
    {
        if same_str(s, "POINTER") {
            return Ok(PropType(0x0));
        }
        if same_str(s, "DIRECT") {
            return Ok(PropType(0x1));
        }
        if same_str(s, "BUTTONPAD") {
            return Ok(PropType(0x2));
        }
        if same_str(s, "SEMI_MT") {
            return Ok(PropType(0x3));
        }
        if same_str(s, "TOPBUTTONPAD") {
            return Ok(PropType(0x4));
        }
        if same_str(s, "POINTING_STICK") {
            return Ok(PropType(0x5));
        }
        if same_str(s, "ACCELEROMETER") {
            return Ok(PropType(0x6));
        }
        Err(EnumParseError)
    }
}

impl core::str::FromStr for PropType {
    type Err = EnumParseError;

    /// The code the kernel names `s`; an error for a name it does not define.
    fn from_str(s: &str) -> (r: Result<Self, EnumParseError>)
        ensures
            r matches Ok(t) ==> prop_type_code(s@) == Some(t.0),
            r is Err ==> prop_type_code(s@) is None,
    {
        PropType::from_name(s)
    }
}

/// The kernel's name of `code` as a RelativeAxisType, if it defines one.
pub open spec fn relative_axis_type_name(code: u16) -> Option<Seq<char>> {
    match code {
        0x0 => Some("REL_X"@),
        0x1 => Some("REL_Y"@),
        0x2 => Some("REL_Z"@),
        0x3 => Some("REL_RX"@),
        0x4 => Some("REL_RY"@),
        0x5 => Some("REL_RZ"@),
        0x6 => Some("REL_HWHEEL"@),
        0x7 => Some("REL_DIAL"@),
        0x8 => Some("REL_WHEEL"@),
        0x9 => Some("REL_MISC"@),
        0xa => Some("REL_RESERVED"@),
        0xb => Some("REL_WHEEL_HI_RES"@),
        0xc => Some("REL_HWHEEL_HI_RES"@),
        _ => None,
    }
}

/// The RelativeAxisType code that the kernel names `name`, if any.
pub open spec fn relative_axis_type_code(name: Seq<char>) -> Option<u16> {
    if name == "REL_X"@ {
        Some(0x0)
    } else if name == "REL_Y"@ {
        Some(0x1)
    } else if name == "REL_Z"@ {
        Some(0x2)
    } else if name == "REL_RX"@ {
        Some(0x3)
    } else if name == "REL_RY"@ {
        Some(0x4)
    } else if name == "REL_RZ"@ {
        Some(0x5)
    } else if name == "REL_HWHEEL"@ {
        Some(0x6)
    } else if name == "REL_DIAL"@ {
        Some(0x7)
    } else if name == "REL_WHEEL"@ {
        Some(0x8)
    } else if name == "REL_MISC"@ {
        Some(0x9)
    } else if name == "REL_RESERVED"@ {
        Some(0xa)
    } else if name == "REL_WHEEL_HI_RES"@ {
        Some(0xb)
    } else if name == "REL_HWHEEL_HI_RES"@ {
        Some(0xc)
    } else {
        None
    }
}

impl RelativeAxisType {
    /// The kernel's name of this code, `None` for a code it does not define.
    pub fn name(&self) -> (r: Option<&'static str>)
        ensures
            r matches Some(n) ==> relative_axis_type_name(self.0) == Some(n@),
            r is None ==> relative_axis_type_name(self.0) is None,
    {
        match self.0 {
            0x0 => Some("REL_X"),
            0x1 => Some("REL_Y"),
            0x2 => Some("REL_Z"),
            0x3 => Some("REL_RX"),
            0x4 => Some("REL_RY"),
            0x5 => Some("REL_RZ"),
            0x6 => Some("REL_HWHEEL"),
            0x7 => Some("REL_DIAL"),
            0x8 => Some("REL_WHEEL"),
            0x9 => Some("REL_MISC"),
            0xa => Some("REL_RESERVED"),
            0xb => Some("REL_WHEEL_HI_RES"),
            0xc => Some("REL_HWHEEL_HI_RES"),
            _ => None,
        }
    }

    /// The code the kernel names `s`; an error for a name it does not define.
    pub fn from_name(s: &str) -> (r: Result<Self, EnumParseError>)
        ensures
            r matches Ok(t) ==> relative_axis_type_code(s@) == Some(t.0),
            r is Err ==> relative_axis_type_code(s@) is None,
    {
        if same_str(s, "REL_X") {
            return Ok(RelativeAxisType(0x0));
        }
        if same_str(s, "REL_Y") {
            return Ok(RelativeAxisType(0x1));
        }
        if same_str(s, "REL_Z") {
            return Ok(RelativeAxisType(0x2));
        }
        if same_str(s, "REL_RX") {
            return Ok(RelativeAxisType(0x3));
        }
        if same_str(s, "REL_RY") {
            return Ok(RelativeAxisType(0x4));
        }
        if same_str(s, "REL_RZ") {
            return Ok(RelativeAxisType(0x5));
        }
        if same_str(s, "REL_HWHEEL") {
            return Ok(RelativeAxisType(0x6));
        }
        if same_str(s, "REL_DIAL") {
            return Ok(RelativeAxisType(0x7));
        }
        if same_str(s, "REL_WHEEL") {
            return Ok(RelativeAxisType(0x8));
        }
        if same_str(s, "REL_MISC") {
            return Ok(RelativeAxisType(0x9));
        }
        if same_str(s, "REL_RESERVED") {
            return Ok(RelativeAxisType(0xa));
        }
        if same_str(s, "REL_WHEEL_HI_RES") {
            return Ok(RelativeAxisType(0xb));
        }
        if same_str(s, "REL_HWHEEL_HI_RES") {
            return Ok(RelativeAxisType(0xc));
        }
        Err(EnumParseError)
    }
}

impl core::str::FromStr for RelativeAxisType {
    type Err = EnumParseError;

    /// The code the kernel names `s`; an error for a name it does not define.
    fn from_str(s: &str) -> (r: Result<Self, EnumParseError>)
        ensures
            r matches Ok(t) ==> relative_axis_type_code(s@) == Some(t.0),
            r is Err ==> relative_axis_type_code(s@) is None,
    {
        RelativeAxisType::from_name(s)
    }
}

/// The kernel's name of `code` as a AbsoluteAxisType, if it defines one.
pub open spec fn absolute_axis_type_name(code: u16) -> Option<Seq<char>> {
    match code {
        0x0 => Some("ABS_X"@),
        0x1 => Some("ABS_Y"@),
        0x2 => Some("ABS_Z"@),
        0x3 => Some("ABS_RX"@),
        0x4 => Some("ABS_RY"@),
        0x5 => Some("ABS_RZ"@),
        0x6 => Some("ABS_THROTTLE"@),
        0x7 => Some("ABS_RUDDER"@),
        0x8 => Some("ABS_WHEEL"@),
        0x9 => Some("ABS_GAS"@),
        0xa => Some("ABS_BRAKE"@),
        0x10 => Some("ABS_HAT0X"@),
        0x11 => Some("ABS_HAT0Y"@),
        0x12 => Some("ABS_HAT1X"@),
        0x13 => Some("ABS_HAT1Y"@),
        0x14 => Some("ABS_HAT2X"@),
        0x15 => Some("ABS_HAT2Y"@),
        0x16 => Some("ABS_HAT3X"@),
        0x17 => Some("ABS_HAT3Y"@),
        0x18 => Some("ABS_PRESSURE"@),
        0x19 => Some("ABS_DISTANCE"@),
        0x1a => Some("ABS_TILT_X"@),
        0x1b => Some("ABS_TILT_Y"@),
        0x1c => Some("ABS_TOOL_WIDTH"@),
        0x20 => Some("ABS_VOLUME"@),
        0x28 => Some("ABS_MISC"@),
        0x2f => Some("ABS_MT_SLOT"@),
        0x30 => Some("ABS_MT_TOUCH_MAJOR"@),
        0x31 => Some("ABS_MT_TOUCH_MINOR"@),
        0x32 => Some("ABS_MT_WIDTH_MAJOR"@),
        0x33 => Some("ABS_MT_WIDTH_MINOR"@),
        0x34 => Some("ABS_MT_ORIENTATION"@),
        0x35 => Some("ABS_MT_POSITION_X"@),
        0x36 => Some("ABS_MT_POSITION_Y"@),
        0x37 => Some("ABS_MT_TOOL_TYPE"@),
        0x38 => Some("ABS_MT_BLOB_ID"@),
        0x39 => Some("ABS_MT_TRACKING_ID"@),
        0x3a => Some("ABS_MT_PRESSURE"@),
        0x3b => Some("ABS_MT_DISTANCE"@),
        0x3c => Some("ABS_MT_TOOL_X"@),
        0x3d => Some("ABS_MT_TOOL_Y"@),
        _ => None,
    }
}

/// The AbsoluteAxisType code that the kernel names `name`, if any.
pub open spec fn absolute_axis_type_code(name: Seq<char>) -> Option<u16> {
    if name == "ABS_X"@ {
        Some(0x0)
    } else if name == "ABS_Y"@ {
        Some(0x1)
    } else if name == "ABS_Z"@ {
        Some(0x2)
    } else if name == "ABS_RX"@ {
        Some(0x3)
    } else if name == "ABS_RY"@ {
        Some(0x4)
    } else if name == "ABS_RZ"@ {
        Some(0x5)
    } else if name == "ABS_THROTTLE"@ {
        Some(0x6)
    } else if name == "ABS_RUDDER"@ {
        Some(0x7)
    } else if name == "ABS_WHEEL"@ {
        Some(0x8)
    } else if name == "ABS_GAS"@ {
        Some(0x9)
    } else if name == "ABS_BRAKE"@ {
        Some(0xa)
    } else if name == "ABS_HAT0X"@ {
        Some(0x10)
    } else if name == "ABS_HAT0Y"@ {
        Some(0x11)
    } else if name == "ABS_HAT1X"@ {
        Some(0x12)
    } else if name == "ABS_HAT1Y"@ {
        Some(0x13)
    } else if name == "ABS_HAT2X"@ {
        Some(0x14)
    } else if name == "ABS_HAT2Y"@ {
        Some(0x15)
    } else if name == "ABS_HAT3X"@ {
        Some(0x16)
    } else if name == "ABS_HAT3Y"@ {
        Some(0x17)
    } else if name == "ABS_PRESSURE"@ {
        Some(0x18)
    } else if name == "ABS_DISTANCE"@ {
        Some(0x19)
    } else if name == "ABS_TILT_X"@ {
        Some(0x1a)
    } else if name == "ABS_TILT_Y"@ {
        Some(0x1b)
    } else if name == "ABS_TOOL_WIDTH"@ {
        Some(0x1c)
    } else if name == "ABS_VOLUME"@ {
        Some(0x20)
    } else if name == "ABS_MISC"@ {
        Some(0x28)
    } else if name == "ABS_MT_SLOT"@ {
        Some(0x2f)
    } else if name == "ABS_MT_TOUCH_MAJOR"@ {
        Some(0x30)
    } else if name == "ABS_MT_TOUCH_MINOR"@ {
        Some(0x31)
    } else if name == "ABS_MT_WIDTH_MAJOR"@ {
        Some(0x32)
    } else if name == "ABS_MT_WIDTH_MINOR"@ {
        Some(0x33)
    } else if name == "ABS_MT_ORIENTATION"@ {
        Some(0x34)
    } else if name == "ABS_MT_POSITION_X"@ {
        Some(0x35)
    } else if name == "ABS_MT_POSITION_Y"@ {
        Some(0x36)
    } else if name == "ABS_MT_TOOL_TYPE"@ {
        Some(0x37)
    } else if name == "ABS_MT_BLOB_ID"@ {
        Some(0x38)
    } else if name == "ABS_MT_TRACKING_ID"@ {
        Some(0x39)
    } else if name == "ABS_MT_PRESSURE"@ {
        Some(0x3a)
    } else if name == "ABS_MT_DISTANCE"@ {
        Some(0x3b)
    } else if name == "ABS_MT_TOOL_X"@ {
        Some(0x3c)
    } else if name == "ABS_MT_TOOL_Y"@ {
        Some(0x3d)
    } else {
        None
    }
}

impl AbsoluteAxisType {
    /// The kernel's name of this code, `None` for a code it does not define.
    pub fn name(&self) -> (r: Option<&'static str>)
        ensures
            r matches Some(n) ==> absolute_axis_type_name(self.0) == Some(n@),
            r is None ==> absolute_axis_type_name(self.0) is None,
    {
        match self.0 {
            0x0 => Some("ABS_X"),
            0x1 => Some("ABS_Y"),
            0x2 => Some("ABS_Z"),
            0x3 => Some("ABS_RX"),
            0x4 => Some("ABS_RY"),
            0x5 => Some("ABS_RZ"),
            0x6 => Some("ABS_THROTTLE"),
            0x7 => Some("ABS_RUDDER"),
            0x8 => Some("ABS_WHEEL"),
            0x9 => Some("ABS_GAS"),
            0xa => Some("ABS_BRAKE"),
            0x10 => Some("ABS_HAT0X"),
            0x11 => Some("ABS_HAT0Y"),
            0x12 => Some("ABS_HAT1X"),
            0x13 => Some("ABS_HAT1Y"),
            0x14 => Some("ABS_HAT2X"),
            0x15 => Some("ABS_HAT2Y"),
            0x16 => Some("ABS_HAT3X"),
            0x17 => Some("ABS_HAT3Y"),
            0x18 => Some("ABS_PRESSURE"),
            0x19 => Some("ABS_DISTANCE"),
            0x1a => Some("ABS_TILT_X"),
            0x1b => Some("ABS_TILT_Y"),
            0x1c => Some("ABS_TOOL_WIDTH"),
            0x20 => Some("ABS_VOLUME"),
            0x28 => Some("ABS_MISC"),
            0x2f => Some("ABS_MT_SLOT"),
            0x30 => Some("ABS_MT_TOUCH_MAJOR"),
            0x31 => Some("ABS_MT_TOUCH_MINOR"),
            0x32 => Some("ABS_MT_WIDTH_MAJOR"),
            0x33 => Some("ABS_MT_WIDTH_MINOR"),
            0x34 => Some("ABS_MT_ORIENTATION"),
            0x35 => Some("ABS_MT_POSITION_X"),
            0x36 => Some("ABS_MT_POSITION_Y"),
            0x37 => Some("ABS_MT_TOOL_TYPE"),
            0x38 => Some("ABS_MT_BLOB_ID"),
            0x39 => Some("ABS_MT_TRACKING_ID"),
            0x3a => Some("ABS_MT_PRESSURE"),
            0x3b => Some("ABS_MT_DISTANCE"),
            0x3c => Some("ABS_MT_TOOL_X"),
            0x3d => Some("ABS_MT_TOOL_Y"),
            _ => None,
        }
    }

    /// The code the kernel names `s`; an error for a name it does not define.
    pub fn from_name(s: &str) -> (r: Result<Self, EnumParseError>)
        ensures
            r matches Ok(t) ==> absolute_axis_type_code(s@) == Some(t.0),
            r is Err ==> absolute_axis_type_code(s@) is None,
    {
        if same_str(s, "ABS_X") {
            return Ok(AbsoluteAxisType(0x0));
        }
        if same_str(s, "ABS_Y") {
            return Ok(AbsoluteAxisType(0x1));
        }
        if same_str(s, "ABS_Z") {
            return Ok(AbsoluteAxisType(0x2));
        }
        if same_str(s, "ABS_RX") {
            return Ok(AbsoluteAxisType(0x3));
        }
        if same_str(s, "ABS_RY") {
            return Ok(AbsoluteAxisType(0x4));
        }
        if same_str(s, "ABS_RZ") {
            return Ok(AbsoluteAxisType(0x5));
        }
        if same_str(s, "ABS_THROTTLE") {
            return Ok(AbsoluteAxisType(0x6));
        }
        if same_str(s, "ABS_RUDDER") {
            return Ok(AbsoluteAxisType(0x7));
        }
        if same_str(s, "ABS_WHEEL") {
            return Ok(AbsoluteAxisType(0x8));
        }
        if same_str(s, "ABS_GAS") {
            return Ok(AbsoluteAxisType(0x9));
        }
        if same_str(s, "ABS_BRAKE") {
            return Ok(AbsoluteAxisType(0xa));
        }
        if same_str(s, "ABS_HAT0X") {
            return Ok(AbsoluteAxisType(0x10));
        }
        if same_str(s, "ABS_HAT0Y") {
            return Ok(AbsoluteAxisType(0x11));
        }
        if same_str(s, "ABS_HAT1X") {
            return Ok(AbsoluteAxisType(0x12));
        }
        if same_str(s, "ABS_HAT1Y") {
            return Ok(AbsoluteAxisType(0x13));
        }
        if same_str(s, "ABS_HAT2X") {
            return Ok(AbsoluteAxisType(0x14));
        }
        if same_str(s, "ABS_HAT2Y") {
            return Ok(AbsoluteAxisType(0x15));
        }
        if same_str(s, "ABS_HAT3X") {
            return Ok(AbsoluteAxisType(0x16));
        }
        if same_str(s, "ABS_HAT3Y") {
            return Ok(AbsoluteAxisType(0x17));
        }
        if same_str(s, "ABS_PRESSURE") {
            return Ok(AbsoluteAxisType(0x18));
        }
        if same_str(s, "ABS_DISTANCE") {
            return Ok(AbsoluteAxisType(0x19));
        }
        if same_str(s, "ABS_TILT_X") {
            return Ok(AbsoluteAxisType(0x1a));
        }
        if same_str(s, "ABS_TILT_Y") {
            return Ok(AbsoluteAxisType(0x1b));
        }
        if same_str(s, "ABS_TOOL_WIDTH") {
            return Ok(AbsoluteAxisType(0x1c));
        }
        if same_str(s, "ABS_VOLUME") {
            return Ok(AbsoluteAxisType(0x20));
        }
        if same_str(s, "ABS_MISC") {
            return Ok(AbsoluteAxisType(0x28));
        }
        if same_str(s, "ABS_MT_SLOT") {
            return Ok(AbsoluteAxisType(0x2f));
        }
        if same_str(s, "ABS_MT_TOUCH_MAJOR") {
            return Ok(AbsoluteAxisType(0x30));
        }
        if same_str(s, "ABS_MT_TOUCH_MINOR") {
            return Ok(AbsoluteAxisType(0x31));
        }
        if same_str(s, "ABS_MT_WIDTH_MAJOR") {
            return Ok(AbsoluteAxisType(0x32));
        }
        if same_str(s, "ABS_MT_WIDTH_MINOR") {
            return Ok(AbsoluteAxisType(0x33));
        }
        if same_str(s, "ABS_MT_ORIENTATION") {
            return Ok(AbsoluteAxisType(0x34));
        }
        if same_str(s, "ABS_MT_POSITION_X") {
            return Ok(AbsoluteAxisType(0x35));
        }
        if same_str(s, "ABS_MT_POSITION_Y") {
            return Ok(AbsoluteAxisType(0x36));
        }
        if same_str(s, "ABS_MT_TOOL_TYPE") {
            return Ok(AbsoluteAxisType(0x37));
        }
        if same_str(s, "ABS_MT_BLOB_ID") {
            return Ok(AbsoluteAxisType(0x38));
        }
        if same_str(s, "ABS_MT_TRACKING_ID") {
            return Ok(AbsoluteAxisType(0x39));
        }
        if same_str(s, "ABS_MT_PRESSURE") {
            return Ok(AbsoluteAxisType(0x3a));
        }
        if same_str(s, "ABS_MT_DISTANCE") {
            return Ok(AbsoluteAxisType(0x3b));
        }
        if same_str(s, "ABS_MT_TOOL_X") {
            return Ok(AbsoluteAxisType(0x3c));
        }
        if same_str(s, "ABS_MT_TOOL_Y") {
            return Ok(AbsoluteAxisType(0x3d));
        }
        Err(EnumParseError)
    }
}

impl core::str::FromStr for AbsoluteAxisType {
    type Err = EnumParseError;

    /// The code the kernel names `s`; an error for a name it does not define.
    fn from_str(s: &str) -> (r: Result<Self, EnumParseError>)
        ensures
            r matches Ok(t) ==> absolute_axis_type_code(s@) == Some(t.0),
            r is Err ==> absolute_axis_type_code(s@) is None,
    {
        AbsoluteAxisType::from_name(s)
    }
}

/// The kernel's name of `code` as a SwitchType, if it defines one.
pub open spec fn switch_type_name(code: u16) -> Option<Seq<char>> {
    match code {
        0x0 => Some("SW_LID"@),
        0x1 => Some("SW_TABLET_MODE"@),
        0x2 => Some("SW_HEADPHONE_INSERT"@),
        0x3 => Some("SW_RFKILL_ALL"@),
        0x4 => Some("SW_MICROPHONE_INSERT"@),
        0x5 => Some("SW_DOCK"@),
        0x6 => Some("SW_LINEOUT_INSERT"@),
        0x7 => Some("SW_JACK_PHYSICAL_INSERT"@),
        0x8 => Some("SW_VIDEOOUT_INSERT"@),
        0x9 => Some("SW_CAMERA_LENS_COVER"@),
        0xa => Some("SW_KEYPAD_SLIDE"@),
        0xb => Some("SW_FRONT_PROXIMITY"@),
        0xc => Some("SW_ROTATE_LOCK"@),
        0xd => Some("SW_LINEIN_INSERT"@),
        0xe => Some("SW_MUTE_DEVICE"@),
        0xf => Some("SW_PEN_INSERTED"@),
        0x10 => Some("SW_MACHINE_COVER"@),
        _ => None,
    }
}

/// The SwitchType code that the kernel names `name`, if any.
pub open spec fn switch_type_code(name: Seq<char>) -> Option<u16> {
    if name == "SW_LID"@ {
        Some(0x0)
    } else if name == "SW_TABLET_MODE"@ {
        Some(0x1)
    } else if name == "SW_HEADPHONE_INSERT"@ {
        Some(0x2)
    } else if name == "SW_RFKILL_ALL"@ {
        Some(0x3)
    } else if name == "SW_MICROPHONE_INSERT"@ {
        Some(0x4)
    } else if name == "SW_DOCK"@ {
        Some(0x5)
    } else if name == "SW_LINEOUT_INSERT"@ {
        Some(0x6)
    } else if name == "SW_JACK_PHYSICAL_INSERT"@ {
        Some(0x7)
    } else if name == "SW_VIDEOOUT_INSERT"@ {
        Some(0x8)
    } else if name == "SW_CAMERA_LENS_COVER"@ {
        Some(0x9)
    } else if name == "SW_KEYPAD_SLIDE"@ {
        Some(0xa)
    } else if name == "SW_FRONT_PROXIMITY"@ {
        Some(0xb)
    } else if name == "SW_ROTATE_LOCK"@ {
        Some(0xc)
    } else if name == "SW_LINEIN_INSERT"@ {
        Some(0xd)
    } else if name == "SW_MUTE_DEVICE"@ {
        Some(0xe)
    } else if name == "SW_PEN_INSERTED"@ {
        Some(0xf)
    } else if name == "SW_MACHINE_COVER"@ {
        Some(0x10)
    } else {
        None
    }
}

impl SwitchType {
    /// The kernel's name of this code, `None` for a code it does not define.
    pub fn name(&self) -> (r: Option<&'static str>)
        ensures
            r matches Some(n) ==> switch_type_name(self.0) == Some(n@),
            r is None ==> switch_type_name(self.0) is None,
    {
        match self.0 {
            0x0 => Some("SW_LID"),
            0x1 => Some("SW_TABLET_MODE"),
            0x2 => Some("SW_HEADPHONE_INSERT"),
            0x3 => Some("SW_RFKILL_ALL"),
            0x4 => Some("SW_MICROPHONE_INSERT"),
            0x5 => Some("SW_DOCK"),
            0x6 => Some("SW_LINEOUT_INSERT"),
            0x7 => Some("SW_JACK_PHYSICAL_INSERT"),
            0x8 => Some("SW_VIDEOOUT_INSERT"),
            0x9 => Some("SW_CAMERA_LENS_COVER"),
            0xa => Some("SW_KEYPAD_SLIDE"),
            0xb => Some("SW_FRONT_PROXIMITY"),
            0xc => Some("SW_ROTATE_LOCK"),
            0xd => Some("SW_LINEIN_INSERT"),
            0xe => Some("SW_MUTE_DEVICE"),
            0xf => Some("SW_PEN_INSERTED"),
            0x10 => Some("SW_MACHINE_COVER"),
            _ => None,
        }
    }

    /// The code the kernel names `s`; an error for a name it does not define.
    pub fn from_name(s: &str) -> (r: Result<Self, EnumParseError>)
        ensures
            r matches Ok(t) ==> switch_type_code(s@) == Some(t.0),
            r is Err ==> switch_type_code(s@) is None,
    {
        if same_str(s, "SW_LID") {
            return Ok(SwitchType(0x0));
        }
        if same_str(s, "SW_TABLET_MODE") {
            return Ok(SwitchType(0x1));
        }
        if same_str(s, "SW_HEADPHONE_INSERT") {
            return Ok(SwitchType(0x2));
        }
        if same_str(s, "SW_RFKILL_ALL") {
            return Ok(SwitchType(0x3));
        }
        if same_str(s, "SW_MICROPHONE_INSERT") {
            return Ok(SwitchType(0x4));
        }
        if same_str(s, "SW_DOCK") {
            return Ok(SwitchType(0x5));
        }
        if same_str(s, "SW_LINEOUT_INSERT") {
            return Ok(SwitchType(0x6));
        }
        if same_str(s, "SW_JACK_PHYSICAL_INSERT") {
            return Ok(SwitchType(0x7));
        }
        if same_str(s, "SW_VIDEOOUT_INSERT") {
            return Ok(SwitchType(0x8));
        }
        if same_str(s, "SW_CAMERA_LENS_COVER") {
            return Ok(SwitchType(0x9));
        }
        if same_str(s, "SW_KEYPAD_SLIDE") {
            return Ok(SwitchType(0xa));
        }
        if same_str(s, "SW_FRONT_PROXIMITY") {
            return Ok(SwitchType(0xb));
        }
        if same_str(s, "SW_ROTATE_LOCK") {
            return Ok(SwitchType(0xc));
        }
        if same_str(s, "SW_LINEIN_INSERT") {
            return Ok(SwitchType(0xd));
        }
        if same_str(s, "SW_MUTE_DEVICE") {
            return Ok(SwitchType(0xe));
        }
        if same_str(s, "SW_PEN_INSERTED") {
            return Ok(SwitchType(0xf));
        }
        if same_str(s, "SW_MACHINE_COVER") {
            return Ok(SwitchType(0x10));
        }
        Err(EnumParseError)
    }
}

impl core::str::FromStr for SwitchType {
    type Err = EnumParseError;

    /// The code the kernel names `s`; an error for a name it does not define.
    fn from_str(s: &str) -> (r: Result<Self, EnumParseError>)
        ensures
            r matches Ok(t) ==> switch_type_code(s@) == Some(t.0),
            r is Err ==> switch_type_code(s@) is None,
    {
        SwitchType::from_name(s)
    }
}

/// The kernel's name of `code` as a LedType, if it defines one.
pub open spec fn led_type_name(code: u16) -> Option<Seq<char>> {
    match code {
        0x0 => Some("LED_NUML"@),
        0x1 => Some("LED_CAPSL"@),
        0x2 => Some("LED_SCROLLL"@),
        0x3 => Some("LED_COMPOSE"@),
        0x4 => Some("LED_KANA"@),
        0x5 => Some("LED_SLEEP"@),
        0x6 => Some("LED_SUSPEND"@),
        0x7 => Some("LED_MUTE"@),
        0x8 => Some("LED_MISC"@),
        0x9 => Some("LED_MAIL"@),
        0xa => Some("LED_CHARGING"@),
        _ => None,
    }
}

/// The LedType code that the kernel names `name`, if any.
pub open spec fn led_type_code(name: Seq<char>) -> Option<u16> {
    if name == "LED_NUML"@ {
        Some(0x0)
    } else if name == "LED_CAPSL"@ {
        Some(0x1)
    } else if name == "LED_SCROLLL"@ {
        Some(0x2)
    } else if name == "LED_COMPOSE"@ {
        Some(0x3)
    } else if name == "LED_KANA"@ {
        Some(0x4)
    } else if name == "LED_SLEEP"@ {
        Some(0x5)
    } else if name == "LED_SUSPEND"@ {
        Some(0x6)
    } else if name == "LED_MUTE"@ {
        Some(0x7)
    } else if name == "LED_MISC"@ {
        Some(0x8)
    } else if name == "LED_MAIL"@ {
        Some(0x9)
    } else if name == "LED_CHARGING"@ {
        Some(0xa)
    } else {
        None
    }
}

impl LedType {
    /// The kernel's name of this code, `None` for a code it does not define.
    pub fn name(&self) -> (r: Option<&'static str>)
        ensures
            r matches Some(n) ==> led_type_name(self.0) == Some(n@),
            r is None ==> led_type_name(self.0) is None,
    {
        match self.0 {
            0x0 => Some("LED_NUML"),
            0x1 => Some("LED_CAPSL"),
            0x2 => Some("LED_SCROLLL"),
            0x3 => Some("LED_COMPOSE"),
            0x4 => Some("LED_KANA"),
            0x5 => Some("LED_SLEEP"),
            0x6 => Some("LED_SUSPEND"),
            0x7 => Some("LED_MUTE"),
            0x8 => Some("LED_MISC"),
            0x9 => Some("LED_MAIL"),
            0xa => Some("LED_CHARGING"),
            _ => None,
        }
    }

    /// The code the kernel names `s`; an error for a name it does not define.
    pub fn from_name(s: &str) -> (r: Result<Self, EnumParseError>)
        ensures
            r matches Ok(t) ==> led_type_code(s@) == Some(t.0),
            r is Err ==> led_type_code(s@) is None,
    {
        if same_str(s, "LED_NUML") {
            return Ok(LedType(0x0));
        }
        if same_str(s, "LED_CAPSL") {
            return Ok(LedType(0x1));
        }
        if same_str(s, "LED_SCROLLL") {
            return Ok(LedType(0x2));
        }
        if same_str(s, "LED_COMPOSE") {
            return Ok(LedType(0x3));
        }
        if same_str(s, "LED_KANA") {
            return Ok(LedType(0x4));
        }
        if same_str(s, "LED_SLEEP") {
            return Ok(LedType(0x5));
        }
        if same_str(s, "LED_SUSPEND") {
            return Ok(LedType(0x6));
        }
        if same_str(s, "LED_MUTE") {
            return Ok(LedType(0x7));
        }
        if same_str(s, "LED_MISC") {
            return Ok(LedType(0x8));
        }
        if same_str(s, "LED_MAIL") {
            return Ok(LedType(0x9));
        }
        if same_str(s, "LED_CHARGING") {
            return Ok(LedType(0xa));
        }
        Err(EnumParseError)
    }
}

impl core::str::FromStr for LedType {
    type Err = EnumParseError;

    /// The code the kernel names `s`; an error for a name it does not define.
    fn from_str(s: &str) -> (r: Result<Self, EnumParseError>)
        ensures
            r matches Ok(t) ==> led_type_code(s@) == Some(t.0),
            r is Err ==> led_type_code(s@) is None,
    {
        LedType::from_name(s)
    }
}

/// The kernel's name of `code` as a MiscType, if it defines one.
pub open spec fn misc_type_name(code: u16) -> Option<Seq<char>> {
    match code {
        0x0 => Some("MSC_SERIAL"@),
        0x1 => Some("MSC_PULSELED"@),
        0x2 => Some("MSC_GESTURE"@),
        0x3 => Some("MSC_RAW"@),
        0x4 => Some("MSC_SCAN"@),
        0x5 => Some("MSC_TIMESTAMP"@),
        _ => None,
    }
}

/// The MiscType code that the kernel names `name`, if any.
pub open spec fn misc_type_code(name: Seq<char>) -> Option<u16> {
    if name == "MSC_SERIAL"@ {
        Some(0x0)
    } else if name == "MSC_PULSELED"@ {
        Some(0x1)
    } else if name == "MSC_GESTURE"@ {
        Some(0x2)
    } else if name == "MSC_RAW"@ {
        Some(0x3)
    } else if name == "MSC_SCAN"@ {
        Some(0x4)
    } else if name == "MSC_TIMESTAMP"@ {
        Some(0x5)
    } else {
        None
    }
}

impl MiscType {
    /// The kernel's name of this code, `None` for a code it does not define.
    pub fn name(&self) -> (r: Option<&'static str>)
        ensures
            r matches Some(n) ==> misc_type_name(self.0) == Some(n@),
            r is None ==> misc_type_name(self.0) is None,
    {
        match self.0 {
            0x0 => Some("MSC_SERIAL"),
            0x1 => Some("MSC_PULSELED"),
            0x2 => Some("MSC_GESTURE"),
            0x3 => Some("MSC_RAW"),
            0x4 => Some("MSC_SCAN"),
            0x5 => Some("MSC_TIMESTAMP"),
            _ => None,
        }
    }

    /// The code the kernel names `s`; an error for a name it does not define.
    pub fn from_name(s: &str) -> (r: Result<Self, EnumParseError>)
        ensures
            r matches Ok(t) ==> misc_type_code(s@) == Some(t.0),
            r is Err ==> misc_type_code(s@) is None,
    {
        if same_str(s, "MSC_SERIAL") {
            return Ok(MiscType(0x0));
        }
        if same_str(s, "MSC_PULSELED") {
            return Ok(MiscType(0x1));
        }
        if same_str(s, "MSC_GESTURE") {
            return Ok(MiscType(0x2));
        }
        if same_str(s, "MSC_RAW") {
            return Ok(MiscType(0x3));
        }
        if same_str(s, "MSC_SCAN") {
            return Ok(MiscType(0x4));
        }
        if same_str(s, "MSC_TIMESTAMP") {
            return Ok(MiscType(0x5));
        }
        Err(EnumParseError)
    }
}

impl core::str::FromStr for MiscType {
    type Err = EnumParseError;

    /// The code the kernel names `s`; an error for a name it does not define.
    fn from_str(s: &str) -> (r: Result<Self, EnumParseError>)
        ensures
            r matches Ok(t) ==> misc_type_code(s@) == Some(t.0),
            r is Err ==> misc_type_code(s@) is None,
    {
        MiscType::from_name(s)
    }
}

/// The kernel's name of `code` as a FFEffectType, if it defines one.
pub open spec fn ff_effect_type_name(code: u16) -> Option<Seq<char>> {
    match code {
        0x50 => Some("FF_RUMBLE"@),
        0x51 => Some("FF_PERIODIC"@),
        0x52 => Some("FF_CONSTANT"@),
        0x53 => Some("FF_SPRING"@),
        0x54 => Some("FF_FRICTION"@),
        0x55 => Some("FF_DAMPER"@),
        0x56 => Some("FF_INERTIA"@),
        0x57 => Some("FF_RAMP"@),
        0x58 => Some("FF_SQUARE"@),
        0x59 => Some("FF_TRIANGLE"@),
        0x5a => Some("FF_SINE"@),
        0x5b => Some("FF_SAW_UP"@),
        0x5c => Some("FF_SAW_DOWN"@),
        0x5d => Some("FF_CUSTOM"@),
        0x60 => Some("FF_GAIN"@),
        0x61 => Some("FF_AUTOCENTER"@),
        _ => None,
    }
}

/// The FFEffectType code that the kernel names `name`, if any.
pub open spec fn ff_effect_type_code(name: Seq<char>) -> Option<u16> {
    if name == "FF_RUMBLE"@ {
        Some(0x50)
    } else if name == "FF_PERIODIC"@ {
        Some(0x51)
    } else if name == "FF_CONSTANT"@ {
        Some(0x52)
    } else if name == "FF_SPRING"@ {
        Some(0x53)
    } else if name == "FF_FRICTION"@ {
        Some(0x54)
    } else if name == "FF_DAMPER"@ {
        Some(0x55)
    } else if name == "FF_INERTIA"@ {
        Some(0x56)
    } else if name == "FF_RAMP"@ {
        Some(0x57)
    } else if name == "FF_SQUARE"@ {
        Some(0x58)
    } else if name == "FF_TRIANGLE"@ {
        Some(0x59)
    } else if name == "FF_SINE"@ {
        Some(0x5a)
    } else if name == "FF_SAW_UP"@ {
        Some(0x5b)
    } else if name == "FF_SAW_DOWN"@ {
        Some(0x5c)
    } else if name == "FF_CUSTOM"@ {
        Some(0x5d)
    } else if name == "FF_GAIN"@ {
        Some(0x60)
    } else if name == "FF_AUTOCENTER"@ {
        Some(0x61)
    } else {
        None
    }
}

impl FFEffectType {
    /// The kernel's name of this code, `None` for a code it does not define.
    pub fn name(&self) -> (r: Option<&'static str>)
        ensures
            r matches Some(n) ==> ff_effect_type_name(self.0) == Some(n@),
            r is None ==> ff_effect_type_name(self.0) is None,
    {
        match self.0 {
            0x50 => Some("FF_RUMBLE"),
            0x51 => Some("FF_PERIODIC"),
            0x52 => Some("FF_CONSTANT"),
            0x53 => Some("FF_SPRING"),
            0x54 => Some("FF_FRICTION"),
            0x55 => Some("FF_DAMPER"),
            0x56 => Some("FF_INERTIA"),
            0x57 => Some("FF_RAMP"),
            0x58 => Some("FF_SQUARE"),
            0x59 => Some("FF_TRIANGLE"),
            0x5a => Some("FF_SINE"),
            0x5b => Some("FF_SAW_UP"),
            0x5c => Some("FF_SAW_DOWN"),
            0x5d => Some("FF_CUSTOM"),
            0x60 => Some("FF_GAIN"),
            0x61 => Some("FF_AUTOCENTER"),
            _ => None,
        }
    }

    /// The code the kernel names `s`; an error for a name it does not define.
    pub fn from_name(s: &str) -> (r: Result<Self, EnumParseError>)
        ensures
            r matches Ok(t) ==> ff_effect_type_code(s@) == Some(t.0),
            r is Err ==> ff_effect_type_code(s@) is None,
    {
        if same_str(s, "FF_RUMBLE") {
            return Ok(FFEffectType(0x50));
        }
        if same_str(s, "FF_PERIODIC") {
            return Ok(FFEffectType(0x51));
        }
        if same_str(s, "FF_CONSTANT") {
            return Ok(FFEffectType(0x52));
        }
        if same_str(s, "FF_SPRING") {
            return Ok(FFEffectType(0x53));
        }
        if same_str(s, "FF_FRICTION") {
            return Ok(FFEffectType(0x54));
        }
        if same_str(s, "FF_DAMPER") {
            return Ok(FFEffectType(0x55));
        }
        if same_str(s, "FF_INERTIA") {
            return Ok(FFEffectType(0x56));
        }
        if same_str(s, "FF_RAMP") {
            return Ok(FFEffectType(0x57));
        }
        if same_str(s, "FF_SQUARE") {
            return Ok(FFEffectType(0x58));
        }
        if same_str(s, "FF_TRIANGLE") {
            return Ok(FFEffectType(0x59));
        }
        if same_str(s, "FF_SINE") {
            return Ok(FFEffectType(0x5a));
        }
        if same_str(s, "FF_SAW_UP") {
            return Ok(FFEffectType(0x5b));
        }
        if same_str(s, "FF_SAW_DOWN") {
            return Ok(FFEffectType(0x5c));
        }
        if same_str(s, "FF_CUSTOM") {
            return Ok(FFEffectType(0x5d));
        }
        if same_str(s, "FF_GAIN") {
            return Ok(FFEffectType(0x60));
        }
        if same_str(s, "FF_AUTOCENTER") {
            return Ok(FFEffectType(0x61));
        }
        Err(EnumParseError)
    }
}

impl core::str::FromStr for FFEffectType {
    type Err = EnumParseError;

    /// The code the kernel names `s`; an error for a name it does not define.
    fn from_str(s: &str) -> (r: Result<Self, EnumParseError>)
        ensures
            r matches Ok(t) ==> ff_effect_type_code(s@) == Some(t.0),
            r is Err ==> ff_effect_type_code(s@) is None,
    {
        FFEffectType::from_name(s)
    }
}

/// The kernel's name of `code` as a FFStatus, if it defines one.
pub open spec fn ff_status_name(code: u16) -> Option<Seq<char>> {
    match code {
        0x0 => Some("FF_STATUS_STOPPED"@),
        0x1 => Some("FF_STATUS_PLAYING"@),
        _ => None,
    }
}

/// The FFStatus code that the kernel names `name`, if any.
pub open spec fn ff_status_code(name: Seq<char>) -> Option<u16> {
    if name == "FF_STATUS_STOPPED"@ {
        Some(0x0)
    } else if name == "FF_STATUS_PLAYING"@ {
        Some(0x1)
    } else {
        None
    }
}

impl FFStatus {
    /// The kernel's name of this code, `None` for a code it does not define.
    pub fn name(&self) -> (r: Option<&'static str>)
        ensures
            r matches Some(n) ==> ff_status_name(self.0) == Some(n@),
            r is None ==> ff_status_name(self.0) is None,
    {
        match self.0 {
            0x0 => Some("FF_STATUS_STOPPED"),
            0x1 => Some("FF_STATUS_PLAYING"),
            _ => None,
        }
    }

    /// The code the kernel names `s`; an error for a name it does not define.
    pub fn from_name(s: &str) -> (r: Result<Self, EnumParseError>)
        ensures
            r matches Ok(t) ==> ff_status_code(s@) == Some(t.0),
            r is Err ==> ff_status_code(s@) is None,
    {
        if same_str(s, "FF_STATUS_STOPPED") {
            return Ok(FFStatus(0x0));
        }
        if same_str(s, "FF_STATUS_PLAYING") {
            return Ok(FFStatus(0x1));
        }
        Err(EnumParseError)
    }
}

impl core::str::FromStr for FFStatus {
    type Err = EnumParseError;

    /// The code the kernel names `s`; an error for a name it does not define.
    fn from_str(s: &str) -> (r: Result<Self, EnumParseError>)
        ensures
            r matches Ok(t) ==> ff_status_code(s@) == Some(t.0),
            r is Err ==> ff_status_code(s@) is None,
    {
        FFStatus::from_name(s)
    }
}

/// The kernel's name of `code` as a SoundType, if it defines one.
pub open spec fn sound_type_name(code: u16) -> Option<Seq<char>> {
    match code {
        0x0 => Some("SND_CLICK"@),
        0x1 => Some("SND_BELL"@),
        0x2 => Some("SND_TONE"@),
        _ => None,
    }
}

/// The SoundType code that the kernel names `name`, if any.
pub open spec fn sound_type_code(name: Seq<char>) -> Option<u16> {
    if name == "SND_CLICK"@ {
        Some(0x0)
    } else if name == "SND_BELL"@ {
        Some(0x1)
    } else if name == "SND_TONE"@ {
        Some(0x2)
    } else {
        None
    }
}

impl SoundType {
    /// The kernel's name of this code, `None` for a code it does not define.
    pub fn name(&self) -> (r: Option<&'static str>)
        ensures
            r matches Some(n) ==> sound_type_name(self.0) == Some(n@),
            r is None ==> sound_type_name(self.0) is None,
    {
        match self.0 {
            0x0 => Some("SND_CLICK"),
            0x1 => Some("SND_BELL"),
            0x2 => Some("SND_TONE"),
            _ => None,
        }
    }

    /// The code the kernel names `s`; an error for a name it does not define.
    pub fn from_name(s: &str) -> (r: Result<Self, EnumParseError>)
        ensures
            r matches Ok(t) ==> sound_type_code(s@) == Some(t.0),
            r is Err ==> sound_type_code(s@) is None,
    {
        if same_str(s, "SND_CLICK") {
            return Ok(SoundType(0x0));
        }
        if same_str(s, "SND_BELL") {
            return Ok(SoundType(0x1));
        }
        if same_str(s, "SND_TONE") {
            return Ok(SoundType(0x2));
        }
        Err(EnumParseError)
    }
}

impl core::str::FromStr for SoundType {
    type Err = EnumParseError;

    /// The code the kernel names `s`; an error for a name it does not define.
    fn from_str(s: &str) -> (r: Result<Self, EnumParseError>)
        ensures
            r matches Ok(t) ==> sound_type_code(s@) == Some(t.0),
            r is Err ==> sound_type_code(s@) is None,
    {
        SoundType::from_name(s)
    }
}

/// The kernel's name of `code` as a UInputEventType, if it defines one.
pub open spec fn uinput_event_type_name(code: u16) -> Option<Seq<char>> {
    match code {
        0x1 => Some("UI_FF_UPLOAD"@),
        0x2 => Some("UI_FF_ERASE"@),
        _ => None,
    }
}

/// The UInputEventType code that the kernel names `name`, if any.
pub open spec fn uinput_event_type_code(name: Seq<char>) -> Option<u16> {
    if name == "UI_FF_UPLOAD"@ {
        Some(0x1)
    } else if name == "UI_FF_ERASE"@ {
        Some(0x2)
    } else {
        None
    }
}

impl UInputEventType {
    /// The kernel's name of this code, `None` for a code it does not define.
    pub fn name(&self) -> (r: Option<&'static str>)
        ensures
            r matches Some(n) ==> uinput_event_type_name(self.0) == Some(n@),
            r is None ==> uinput_event_type_name(self.0) is None,
    {
        match self.0 {
            0x1 => Some("UI_FF_UPLOAD"),
            0x2 => Some("UI_FF_ERASE"),
            _ => None,
        }
    }

    /// The code the kernel names `s`; an error for a name it does not define.
    pub fn from_name(s: &str) -> (r: Result<Self, EnumParseError>)
        ensures
            r matches Ok(t) ==> uinput_event_type_code(s@) == Some(t.0),
            r is Err ==> uinput_event_type_code(s@) is None,
    {
        if same_str(s, "UI_FF_UPLOAD") {
            return Ok(UInputEventType(0x1));
        }
        if same_str(s, "UI_FF_ERASE") {
            return Ok(UInputEventType(0x2));
        }
        Err(EnumParseError)
    }
}

impl core::str::FromStr for UInputEventType {
    type Err = EnumParseError;

    /// The code the kernel names `s`; an error for a name it does not define.
    fn from_str(s: &str) -> (r: Result<Self, EnumParseError>)
        ensures
            r matches Ok(t) ==> uinput_event_type_code(s@) == Some(t.0),
            r is Err ==> uinput_event_type_code(s@) is None,
    {
        UInputEventType::from_name(s)
    }
}

/// The kernel's name of `code` as a KeyCode, if it defines one.
pub open spec fn key_code_name(code: u16) -> Option<Seq<char>> {
    match code {
        0x0 => Some("KEY_RESERVED"@),
        0x1 => Some("KEY_ESC"@),
        0x2 => Some("KEY_1"@),
        0x3 => Some("KEY_2"@),
        0x4 => Some("KEY_3"@),
        0x5 => Some("KEY_4"@),
        0x6 => Some("KEY_5"@),
        0x7 => Some("KEY_6"@),
        0x8 => Some("KEY_7"@),
        0x9 => Some("KEY_8"@),
        0xa => Some("KEY_9"@),
        0xb => Some("KEY_0"@),
        0xc => Some("KEY_MINUS"@),
        0xd => Some("KEY_EQUAL"@),
        0xe => Some("KEY_BACKSPACE"@),
        0xf => Some("KEY_TAB"@),
        0x10 => Some("KEY_Q"@),
        0x11 => Some("KEY_W"@),
        0x12 => Some("KEY_E"@),
        0x13 => Some("KEY_R"@),
        0x14 => Some("KEY_T"@),
        0x15 => Some("KEY_Y"@),
        0x16 => Some("KEY_U"@),
        0x17 => Some("KEY_I"@),
        0x18 => Some("KEY_O"@),
        0x19 => Some("KEY_P"@),
        0x1a => Some("KEY_LEFTBRACE"@),
        0x1b => Some("KEY_RIGHTBRACE"@),
        0x1c => Some("KEY_ENTER"@),
        0x1d => Some("KEY_LEFTCTRL"@),
        0x1e => Some("KEY_A"@),
        0x1f => Some("KEY_S"@),
        0x20 => Some("KEY_D"@),
        0x21 => Some("KEY_F"@),
        0x22 => Some("KEY_G"@),
        0x23 => Some("KEY_H"@),
        0x24 => Some("KEY_J"@),
        0x25 => Some("KEY_K"@),
        0x26 => Some("KEY_L"@),
        0x27 => Some("KEY_SEMICOLON"@),
        0x28 => Some("KEY_APOSTROPHE"@),
        0x29 => Some("KEY_GRAVE"@),
        0x2a => Some("KEY_LEFTSHIFT"@),
        0x2b => Some("KEY_BACKSLASH"@),
        0x2c => Some("KEY_Z"@),
        0x2d => Some("KEY_X"@),
        0x2e => Some("KEY_C"@),
        0x2f => Some("KEY_V"@),
        0x30 => Some("KEY_B"@),
        0x31 => Some("KEY_N"@),
        0x32 => Some("KEY_M"@),
        0x33 => Some("KEY_COMMA"@),
        0x34 => Some("KEY_DOT"@),
        0x35 => Some("KEY_SLASH"@),
        0x36 => Some("KEY_RIGHTSHIFT"@),
        0x37 => Some("KEY_KPASTERISK"@),
        0x38 => Some("KEY_LEFTALT"@),
        0x39 => Some("KEY_SPACE"@),
        0x3a => Some("KEY_CAPSLOCK"@),
        0x3b => Some("KEY_F1"@),
        0x3c => Some("KEY_F2"@),
        0x3d => Some("KEY_F3"@),
        0x3e => Some("KEY_F4"@),
        0x3f => Some("KEY_F5"@),
        0x40 => Some("KEY_F6"@),
        0x41 => Some("KEY_F7"@),
        0x42 => Some("KEY_F8"@),
        0x43 => Some("KEY_F9"@),
        0x44 => Some("KEY_F10"@),
        0x45 => Some("KEY_NUMLOCK"@),
        0x46 => Some("KEY_SCROLLLOCK"@),
        0x47 => Some("KEY_KP7"@),
        0x48 => Some("KEY_KP8"@),
        0x49 => Some("KEY_KP9"@),
        0x4a => Some("KEY_KPMINUS"@),
        0x4b => Some("KEY_KP4"@),
        0x4c => Some("KEY_KP5"@),
        0x4d => Some("KEY_KP6"@),
        0x4e => Some("KEY_KPPLUS"@),
        0x4f => Some("KEY_KP1"@),
        0x50 => Some("KEY_KP2"@),
        0x51 => Some("KEY_KP3"@),
        0x52 => Some("KEY_KP0"@),
        0x53 => Some("KEY_KPDOT"@),
        0x55 => Some("KEY_ZENKAKUHANKAKU"@),
        0x56 => Some("KEY_102ND"@),
        0x57 => Some("KEY_F11"@),
        0x58 => Some("KEY_F12"@),
        0x59 => Some("KEY_RO"@),
        0x5a => Some("KEY_KATAKANA"@),
        0x5b => Some("KEY_HIRAGANA"@),
        0x5c => Some("KEY_HENKAN"@),
        0x5d => Some("KEY_KATAKANAHIRAGANA"@),
        0x5e => Some("KEY_MUHENKAN"@),
        0x5f => Some("KEY_KPJPCOMMA"@),
        0x60 => Some("KEY_KPENTER"@),
        0x61 => Some("KEY_RIGHTCTRL"@),
        0x62 => Some("KEY_KPSLASH"@),
        0x63 => Some("KEY_SYSRQ"@),
        0x64 => Some("KEY_RIGHTALT"@),
        0x65 => Some("KEY_LINEFEED"@),
        0x66 => Some("KEY_HOME"@),
        0x67 => Some("KEY_UP"@),
        0x68 => Some("KEY_PAGEUP"@),
        0x69 => Some("KEY_LEFT"@),
        0x6a => Some("KEY_RIGHT"@),
        0x6b => Some("KEY_END"@),
        0x6c => Some("KEY_DOWN"@),
        0x6d => Some("KEY_PAGEDOWN"@),
        0x6e => Some("KEY_INSERT"@),
        0x6f => Some("KEY_DELETE"@),
        0x70 => Some("KEY_MACRO"@),
        0x71 => Some("KEY_MUTE"@),
        0x72 => Some("KEY_VOLUMEDOWN"@),
        0x73 => Some("KEY_VOLUMEUP"@),
        0x74 => Some("KEY_POWER"@),
        0x75 => Some("KEY_KPEQUAL"@),
        0x76 => Some("KEY_KPPLUSMINUS"@),
        0x77 => Some("KEY_PAUSE"@),
        0x78 => Some("KEY_SCALE"@),
        0x79 => Some("KEY_KPCOMMA"@),
        0x7a => Some("KEY_HANGEUL"@),
        0x7b => Some("KEY_HANJA"@),
        0x7c => Some("KEY_YEN"@),
        0x7d => Some("KEY_LEFTMETA"@),
        0x7e => Some("KEY_RIGHTMETA"@),
        0x7f => Some("KEY_COMPOSE"@),
        0x80 => Some("KEY_STOP"@),
        0x81 => Some("KEY_AGAIN"@),
        0x82 => Some("KEY_PROPS"@),
        0x83 => Some("KEY_UNDO"@),
        0x84 => Some("KEY_FRONT"@),
        0x85 => Some("KEY_COPY"@),
        0x86 => Some("KEY_OPEN"@),
        0x87 => Some("KEY_PASTE"@),
        0x88 => Some("KEY_FIND"@),
        0x89 => Some("KEY_CUT"@),
        0x8a => Some("KEY_HELP"@),
        0x8b => Some("KEY_MENU"@),
        0x8c => Some("KEY_CALC"@),
        0x8d => Some("KEY_SETUP"@),
        0x8e => Some("KEY_SLEEP"@),
        0x8f => Some("KEY_WAKEUP"@),
        0xb7 => Some("KEY_F13"@),
        0xb8 => Some("KEY_F14"@),
        0xb9 => Some("KEY_F15"@),
        0xba => Some("KEY_F16"@),
        0xbb => Some("KEY_F17"@),
        0xbc => Some("KEY_F18"@),
        0xbd => Some("KEY_F19"@),
        0xbe => Some("KEY_F20"@),
        0xbf => Some("KEY_F21"@),
        0xc0 => Some("KEY_F22"@),
        0xc1 => Some("KEY_F23"@),
        0xc2 => Some("KEY_F24"@),
        0x100 => Some("BTN_0"@),
        0x101 => Some("BTN_1"@),
        0x102 => Some("BTN_2"@),
        0x103 => Some("BTN_3"@),
        0x104 => Some("BTN_4"@),
        0x105 => Some("BTN_5"@),
        0x106 => Some("BTN_6"@),
        0x107 => Some("BTN_7"@),
        0x108 => Some("BTN_8"@),
        0x109 => Some("BTN_9"@),
        0x110 => Some("BTN_LEFT"@),
        0x111 => Some("BTN_RIGHT"@),
        0x112 => Some("BTN_MIDDLE"@),
        0x113 => Some("BTN_SIDE"@),
        0x114 => Some("BTN_EXTRA"@),
        0x115 => Some("BTN_FORWARD"@),
        0x116 => Some("BTN_BACK"@),
        0x117 => Some("BTN_TASK"@),
        0x120 => Some("BTN_TRIGGER"@),
        0x121 => Some("BTN_THUMB"@),
        0x122 => Some("BTN_THUMB2"@),
        0x123 => Some("BTN_TOP"@),
        0x124 => Some("BTN_TOP2"@),
        0x125 => Some("BTN_PINKIE"@),
        0x126 => Some("BTN_BASE"@),
        0x127 => Some("BTN_BASE2"@),
        0x128 => Some("BTN_BASE3"@),
        0x129 => Some("BTN_BASE4"@),
        0x12a => Some("BTN_BASE5"@),
        0x12b => Some("BTN_BASE6"@),
        0x12f => Some("BTN_DEAD"@),
        0x130 => Some("BTN_SOUTH"@),
        0x131 => Some("BTN_EAST"@),
        0x132 => Some("BTN_C"@),
        0x133 => Some("BTN_NORTH"@),
        0x134 => Some("BTN_WEST"@),
        0x135 => Some("BTN_Z"@),
        0x136 => Some("BTN_TL"@),
        0x137 => Some("BTN_TR"@),
        0x138 => Some("BTN_TL2"@),
        0x139 => Some("BTN_TR2"@),
        0x13a => Some("BTN_SELECT"@),
        0x13b => Some("BTN_START"@),
        0x13c => Some("BTN_MODE"@),
        0x13d => Some("BTN_THUMBL"@),
        0x13e => Some("BTN_THUMBR"@),
        0x140 => Some("BTN_TOOL_PEN"@),
        0x141 => Some("BTN_TOOL_RUBBER"@),
        0x142 => Some("BTN_TOOL_BRUSH"@),
        0x143 => Some("BTN_TOOL_PENCIL"@),
        0x144 => Some("BTN_TOOL_AIRBRUSH"@),
        0x145 => Some("BTN_TOOL_FINGER"@),
        0x146 => Some("BTN_TOOL_MOUSE"@),
        0x147 => Some("BTN_TOOL_LENS"@),
        0x148 => Some("BTN_TOOL_QUINTTAP"@),
        0x149 => Some("BTN_STYLUS3"@),
        0x14a => Some("BTN_TOUCH"@),
        0x14b => Some("BTN_STYLUS"@),
        0x14c => Some("BTN_STYLUS2"@),
        0x14d => Some("BTN_TOOL_DOUBLETAP"@),
        0x14e => Some("BTN_TOOL_TRIPLETAP"@),
        0x14f => Some("BTN_TOOL_QUADTAP"@),
        0x150 => Some("BTN_GEAR_DOWN"@),
        0x151 => Some("BTN_GEAR_UP"@),
        0x220 => Some("BTN_DPAD_UP"@),
        0x221 => Some("BTN_DPAD_DOWN"@),
        0x222 => Some("BTN_DPAD_LEFT"@),
        0x223 => Some("BTN_DPAD_RIGHT"@),
        _ => None,
    }
}

/// The KeyCode code that the kernel names `name`, if any.
pub open spec fn key_code_code(name: Seq<char>) -> Option<u16> {
    if name == "KEY_RESERVED"@ {
        Some(0x0)
    } else if name == "KEY_ESC"@ {
        Some(0x1)
    } else if name == "KEY_1"@ {
        Some(0x2)
    } else if name == "KEY_2"@ {
        Some(0x3)
    } else if name == "KEY_3"@ {
        Some(0x4)
    } else if name == "KEY_4"@ {
        Some(0x5)
    } else if name == "KEY_5"@ {
        Some(0x6)
    } else if name == "KEY_6"@ {
        Some(0x7)
    } else if name == "KEY_7"@ {
        Some(0x8)
    } else if name == "KEY_8"@ {
        Some(0x9)
    } else if name == "KEY_9"@ {
        Some(0xa)
    } else if name == "KEY_0"@ {
        Some(0xb)
    } else if name == "KEY_MINUS"@ {
        Some(0xc)
    } else if name == "KEY_EQUAL"@ {
        Some(0xd)
    } else if name == "KEY_BACKSPACE"@ {
        Some(0xe)
    } else if name == "KEY_TAB"@ {
        Some(0xf)
    } else if name == "KEY_Q"@ {
        Some(0x10)
    } else if name == "KEY_W"@ {
        Some(0x11)
    } else if name == "KEY_E"@ {
        Some(0x12)
    } else if name == "KEY_R"@ {
        Some(0x13)
    } else if name == "KEY_T"@ {
        Some(0x14)
    } else if name == "KEY_Y"@ {
        Some(0x15)
    } else if name == "KEY_U"@ {
        Some(0x16)
    } else if name == "KEY_I"@ {
        Some(0x17)
    } else if name == "KEY_O"@ {
        Some(0x18)
    } else if name == "KEY_P"@ {
        Some(0x19)
    } else if name == "KEY_LEFTBRACE"@ {
        Some(0x1a)
    } else if name == "KEY_RIGHTBRACE"@ {
        Some(0x1b)
    } else if name == "KEY_ENTER"@ {
        Some(0x1c)
    } else if name == "KEY_LEFTCTRL"@ {
        Some(0x1d)
    } else if name == "KEY_A"@ {
        Some(0x1e)
    } else if name == "KEY_S"@ {
        Some(0x1f)
    } else if name == "KEY_D"@ {
        Some(0x20)
    } else if name == "KEY_F"@ {
        Some(0x21)
    } else if name == "KEY_G"@ {
        Some(0x22)
    } else if name == "KEY_H"@ {
        Some(0x23)
    } else if name == "KEY_J"@ {
        Some(0x24)
    } else if name == "KEY_K"@ {
        Some(0x25)
    } else if name == "KEY_L"@ {
        Some(0x26)
    } else if name == "KEY_SEMICOLON"@ {
        Some(0x27)
    } else if name == "KEY_APOSTROPHE"@ {
        Some(0x28)
    } else if name == "KEY_GRAVE"@ {
        Some(0x29)
    } else if name == "KEY_LEFTSHIFT"@ {
        Some(0x2a)
    } else if name == "KEY_BACKSLASH"@ {
        Some(0x2b)
    } else if name == "KEY_Z"@ {
        Some(0x2c)
    } else if name == "KEY_X"@ {
        Some(0x2d)
    } else if name == "KEY_C"@ {
        Some(0x2e)
    } else if name == "KEY_V"@ {
        Some(0x2f)
    } else if name == "KEY_B"@ {
        Some(0x30)
    } else if name == "KEY_N"@ {
        Some(0x31)
    } else if name == "KEY_M"@ {
        Some(0x32)
    } else if name == "KEY_COMMA"@ {
        Some(0x33)
    } else if name == "KEY_DOT"@ {
        Some(0x34)
    } else if name == "KEY_SLASH"@ {
        Some(0x35)
    } else if name == "KEY_RIGHTSHIFT"@ {
        Some(0x36)
    } else if name == "KEY_KPASTERISK"@ {
        Some(0x37)
    } else if name == "KEY_LEFTALT"@ {
        Some(0x38)
    } else if name == "KEY_SPACE"@ {
        Some(0x39)
    } else if name == "KEY_CAPSLOCK"@ {
        Some(0x3a)
    } else if name == "KEY_F1"@ {
        Some(0x3b)
    } else if name == "KEY_F2"@ {
        Some(0x3c)
    } else if name == "KEY_F3"@ {
        Some(0x3d)
    } else if name == "KEY_F4"@ {
        Some(0x3e)
    } else if name == "KEY_F5"@ {
        Some(0x3f)
    } else if name == "KEY_F6"@ {
        Some(0x40)
    } else if name == "KEY_F7"@ {
        Some(0x41)
    } else if name == "KEY_F8"@ {
        Some(0x42)
    } else if name == "KEY_F9"@ {
        Some(0x43)
    } else if name == "KEY_F10"@ {
        Some(0x44)
    } else if name == "KEY_NUMLOCK"@ {
        Some(0x45)
    } else if name == "KEY_SCROLLLOCK"@ {
        Some(0x46)
    } else if name == "KEY_KP7"@ {
        Some(0x47)
    } else if name == "KEY_KP8"@ {
        Some(0x48)
    } else if name == "KEY_KP9"@ {
        Some(0x49)
    } else if name == "KEY_KPMINUS"@ {
        Some(0x4a)
    } else if name == "KEY_KP4"@ {
        Some(0x4b)
    } else if name == "KEY_KP5"@ {
        Some(0x4c)
    } else if name == "KEY_KP6"@ {
        Some(0x4d)
    } else if name == "KEY_KPPLUS"@ {
        Some(0x4e)
    } else if name == "KEY_KP1"@ {
        Some(0x4f)
    } else if name == "KEY_KP2"@ {
        Some(0x50)
    } else if name == "KEY_KP3"@ {
        Some(0x51)
    } else if name == "KEY_KP0"@ {
        Some(0x52)
    } else if name == "KEY_KPDOT"@ {
        Some(0x53)
    } else if name == "KEY_ZENKAKUHANKAKU"@ {
        Some(0x55)
    } else if name == "KEY_102ND"@ {
        Some(0x56)
    } else if name == "KEY_F11"@ {
        Some(0x57)
    } else if name == "KEY_F12"@ {
        Some(0x58)
    } else if name == "KEY_RO"@ {
        Some(0x59)
    } else if name == "KEY_KATAKANA"@ {
        Some(0x5a)
    } else if name == "KEY_HIRAGANA"@ {
        Some(0x5b)
    } else if name == "KEY_HENKAN"@ {
        Some(0x5c)
    } else if name == "KEY_KATAKANAHIRAGANA"@ {
        Some(0x5d)
    } else if name == "KEY_MUHENKAN"@ {
        Some(0x5e)
    } else if name == "KEY_KPJPCOMMA"@ {
        Some(0x5f)
    } else if name == "KEY_KPENTER"@ {
        Some(0x60)
    } else if name == "KEY_RIGHTCTRL"@ {
        Some(0x61)
    } else if name == "KEY_KPSLASH"@ {
        Some(0x62)
    } else if name == "KEY_SYSRQ"@ {
        Some(0x63)
    } else if name == "KEY_RIGHTALT"@ {
        Some(0x64)
    } else if name == "KEY_LINEFEED"@ {
        Some(0x65)
    } else if name == "KEY_HOME"@ {
        Some(0x66)
    } else if name == "KEY_UP"@ {
        Some(0x67)
    } else if name == "KEY_PAGEUP"@ {
        Some(0x68)
    } else if name == "KEY_LEFT"@ {
        Some(0x69)
    } else if name == "KEY_RIGHT"@ {
        Some(0x6a)
    } else if name == "KEY_END"@ {
        Some(0x6b)
    } else if name == "KEY_DOWN"@ {
        Some(0x6c)
    } else if name == "KEY_PAGEDOWN"@ {
        Some(0x6d)
    } else if name == "KEY_INSERT"@ {
        Some(0x6e)
    } else if name == "KEY_DELETE"@ {
        Some(0x6f)
    } else if name == "KEY_MACRO"@ {
        Some(0x70)
    } else if name == "KEY_MUTE"@ {
        Some(0x71)
    } else if name == "KEY_VOLUMEDOWN"@ {
        Some(0x72)
    } else if name == "KEY_VOLUMEUP"@ {
        Some(0x73)
    } else if name == "KEY_POWER"@ {
        Some(0x74)
    } else if name == "KEY_KPEQUAL"@ {
        Some(0x75)
    } else if name == "KEY_KPPLUSMINUS"@ {
        Some(0x76)
    } else if name == "KEY_PAUSE"@ {
        Some(0x77)
    } else if name == "KEY_SCALE"@ {
        Some(0x78)
    } else if name == "KEY_KPCOMMA"@ {
        Some(0x79)
    } else if name == "KEY_HANGEUL"@ {
        Some(0x7a)
    } else if name == "KEY_HANJA"@ {
        Some(0x7b)
    } else if name == "KEY_YEN"@ {
        Some(0x7c)
    } else if name == "KEY_LEFTMETA"@ {
        Some(0x7d)
    } else if name == "KEY_RIGHTMETA"@ {
        Some(0x7e)
    } else if name == "KEY_COMPOSE"@ {
        Some(0x7f)
    } else if name == "KEY_STOP"@ {
        Some(0x80)
    } else if name == "KEY_AGAIN"@ {
        Some(0x81)
    } else if name == "KEY_PROPS"@ {
        Some(0x82)
    } else if name == "KEY_UNDO"@ {
        Some(0x83)
    } else if name == "KEY_FRONT"@ {
        Some(0x84)
    } else if name == "KEY_COPY"@ {
        Some(0x85)
    } else if name == "KEY_OPEN"@ {
        Some(0x86)
    } else if name == "KEY_PASTE"@ {
        Some(0x87)
    } else if name == "KEY_FIND"@ {
        Some(0x88)
    } else if name == "KEY_CUT"@ {
        Some(0x89)
    } else if name == "KEY_HELP"@ {
        Some(0x8a)
    } else if name == "KEY_MENU"@ {
        Some(0x8b)
    } else if name == "KEY_CALC"@ {
        Some(0x8c)
    } else if name == "KEY_SETUP"@ {
        Some(0x8d)
    } else if name == "KEY_SLEEP"@ {
        Some(0x8e)
    } else if name == "KEY_WAKEUP"@ {
        Some(0x8f)
    } else if name == "KEY_F13"@ {
        Some(0xb7)
    } else if name == "KEY_F14"@ {
        Some(0xb8)
    } else if name == "KEY_F15"@ {
        Some(0xb9)
    } else if name == "KEY_F16"@ {
        Some(0xba)
    } else if name == "KEY_F17"@ {
        Some(0xbb)
    } else if name == "KEY_F18"@ {
        Some(0xbc)
    } else if name == "KEY_F19"@ {
        Some(0xbd)
    } else if name == "KEY_F20"@ {
        Some(0xbe)
    } else if name == "KEY_F21"@ {
        Some(0xbf)
    } else if name == "KEY_F22"@ {
        Some(0xc0)
    } else if name == "KEY_F23"@ {
        Some(0xc1)
    } else if name == "KEY_F24"@ {
        Some(0xc2)
    } else if name == "BTN_0"@ {
        Some(0x100)
    } else if name == "BTN_1"@ {
        Some(0x101)
    } else if name == "BTN_2"@ {
        Some(0x102)
    } else if name == "BTN_3"@ {
        Some(0x103)
    } else if name == "BTN_4"@ {
        Some(0x104)
    } else if name == "BTN_5"@ {
        Some(0x105)
    } else if name == "BTN_6"@ {
        Some(0x106)
    } else if name == "BTN_7"@ {
        Some(0x107)
    } else if name == "BTN_8"@ {
        Some(0x108)
    } else if name == "BTN_9"@ {
        Some(0x109)
    } else if name == "BTN_LEFT"@ {
        Some(0x110)
    } else if name == "BTN_RIGHT"@ {
        Some(0x111)
    } else if name == "BTN_MIDDLE"@ {
        Some(0x112)
    } else if name == "BTN_SIDE"@ {
        Some(0x113)
    } else if name == "BTN_EXTRA"@ {
        Some(0x114)
    } else if name == "BTN_FORWARD"@ {
        Some(0x115)
    } else if name == "BTN_BACK"@ {
        Some(0x116)
    } else if name == "BTN_TASK"@ {
        Some(0x117)
    } else if name == "BTN_TRIGGER"@ {
        Some(0x120)
    } else if name == "BTN_THUMB"@ {
        Some(0x121)
    } else if name == "BTN_THUMB2"@ {
        Some(0x122)
    } else if name == "BTN_TOP"@ {
        Some(0x123)
    } else if name == "BTN_TOP2"@ {
        Some(0x124)
    } else if name == "BTN_PINKIE"@ {
        Some(0x125)
    } else if name == "BTN_BASE"@ {
        Some(0x126)
    } else if name == "BTN_BASE2"@ {
        Some(0x127)
    } else if name == "BTN_BASE3"@ {
        Some(0x128)
    } else if name == "BTN_BASE4"@ {
        Some(0x129)
    } else if name == "BTN_BASE5"@ {
        Some(0x12a)
    } else if name == "BTN_BASE6"@ {
        Some(0x12b)
    } else if name == "BTN_DEAD"@ {
        Some(0x12f)
    } else if name == "BTN_SOUTH"@ {
        Some(0x130)
    } else if name == "BTN_EAST"@ {
        Some(0x131)
    } else if name == "BTN_C"@ {
        Some(0x132)
    } else if name == "BTN_NORTH"@ {
        Some(0x133)
    } else if name == "BTN_WEST"@ {
        Some(0x134)
    } else if name == "BTN_Z"@ {
        Some(0x135)
    } else if name == "BTN_TL"@ {
        Some(0x136)
    } else if name == "BTN_TR"@ {
        Some(0x137)
    } else if name == "BTN_TL2"@ {
        Some(0x138)
    } else if name == "BTN_TR2"@ {
        Some(0x139)
    } else if name == "BTN_SELECT"@ {
        Some(0x13a)
    } else if name == "BTN_START"@ {
        Some(0x13b)
    } else if name == "BTN_MODE"@ {
        Some(0x13c)
    } else if name == "BTN_THUMBL"@ {
        Some(0x13d)
    } else if name == "BTN_THUMBR"@ {
        Some(0x13e)
    } else if name == "BTN_TOOL_PEN"@ {
        Some(0x140)
    } else if name == "BTN_TOOL_RUBBER"@ {
        Some(0x141)
    } else if name == "BTN_TOOL_BRUSH"@ {
        Some(0x142)
    } else if name == "BTN_TOOL_PENCIL"@ {
        Some(0x143)
    } else if name == "BTN_TOOL_AIRBRUSH"@ {
        Some(0x144)
    } else if name == "BTN_TOOL_FINGER"@ {
        Some(0x145)
    } else if name == "BTN_TOOL_MOUSE"@ {
        Some(0x146)
    } else if name == "BTN_TOOL_LENS"@ {
        Some(0x147)
    } else if name == "BTN_TOOL_QUINTTAP"@ {
        Some(0x148)
    } else if name == "BTN_STYLUS3"@ {
        Some(0x149)
    } else if name == "BTN_TOUCH"@ {
        Some(0x14a)
    } else if name == "BTN_STYLUS"@ {
        Some(0x14b)
    } else if name == "BTN_STYLUS2"@ {
        Some(0x14c)
    } else if name == "BTN_TOOL_DOUBLETAP"@ {
        Some(0x14d)
    } else if name == "BTN_TOOL_TRIPLETAP"@ {
        Some(0x14e)
    } else if name == "BTN_TOOL_QUADTAP"@ {
        Some(0x14f)
    } else if name == "BTN_GEAR_DOWN"@ {
        Some(0x150)
    } else if name == "BTN_GEAR_UP"@ {
        Some(0x151)
    } else if name == "BTN_DPAD_UP"@ {
        Some(0x220)
    } else if name == "BTN_DPAD_DOWN"@ {
        Some(0x221)
    } else if name == "BTN_DPAD_LEFT"@ {
        Some(0x222)
    } else if name == "BTN_DPAD_RIGHT"@ {
        Some(0x223)
    } else {
        None
    }
}

impl KeyCode {
    /// The kernel's name of this code, `None` for a code it does not define.
    pub fn name(&self) -> (r: Option<&'static str>)
        ensures
            r matches Some(n) ==> key_code_name(self.0) == Some(n@),
            r is None ==> key_code_name(self.0) is None,
    {
        match self.0 {
            0x0 => Some("KEY_RESERVED"),
            0x1 => Some("KEY_ESC"),
            0x2 => Some("KEY_1"),
            0x3 => Some("KEY_2"),
            0x4 => Some("KEY_3"),
            0x5 => Some("KEY_4"),
            0x6 => Some("KEY_5"),
            0x7 => Some("KEY_6"),
            0x8 => Some("KEY_7"),
            0x9 => Some("KEY_8"),
            0xa => Some("KEY_9"),
            0xb => Some("KEY_0"),
            0xc => Some("KEY_MINUS"),
            0xd => Some("KEY_EQUAL"),
            0xe => Some("KEY_BACKSPACE"),
            0xf => Some("KEY_TAB"),
            0x10 => Some("KEY_Q"),
            0x11 => Some("KEY_W"),
            0x12 => Some("KEY_E"),
            0x13 => Some("KEY_R"),
            0x14 => Some("KEY_T"),
            0x15 => Some("KEY_Y"),
            0x16 => Some("KEY_U"),
            0x17 => Some("KEY_I"),
            0x18 => Some("KEY_O"),
            0x19 => Some("KEY_P"),
            0x1a => Some("KEY_LEFTBRACE"),
            0x1b => Some("KEY_RIGHTBRACE"),
            0x1c => Some("KEY_ENTER"),
            0x1d => Some("KEY_LEFTCTRL"),
            0x1e => Some("KEY_A"),
            0x1f => Some("KEY_S"),
            0x20 => Some("KEY_D"),
            0x21 => Some("KEY_F"),
            0x22 => Some("KEY_G"),
            0x23 => Some("KEY_H"),
            0x24 => Some("KEY_J"),
            0x25 => Some("KEY_K"),
            0x26 => Some("KEY_L"),
            0x27 => Some("KEY_SEMICOLON"),
            0x28 => Some("KEY_APOSTROPHE"),
            0x29 => Some("KEY_GRAVE"),
            0x2a => Some("KEY_LEFTSHIFT"),
            0x2b => Some("KEY_BACKSLASH"),
            0x2c => Some("KEY_Z"),
            0x2d => Some("KEY_X"),
            0x2e => Some("KEY_C"),
            0x2f => Some("KEY_V"),
            0x30 => Some("KEY_B"),
            0x31 => Some("KEY_N"),
            0x32 => Some("KEY_M"),
            0x33 => Some("KEY_COMMA"),
            0x34 => Some("KEY_DOT"),
            0x35 => Some("KEY_SLASH"),
            0x36 => Some("KEY_RIGHTSHIFT"),
            0x37 => Some("KEY_KPASTERISK"),
            0x38 => Some("KEY_LEFTALT"),
            0x39 => Some("KEY_SPACE"),
            0x3a => Some("KEY_CAPSLOCK"),
            0x3b => Some("KEY_F1"),
            0x3c => Some("KEY_F2"),
            0x3d => Some("KEY_F3"),
            0x3e => Some("KEY_F4"),
            0x3f => Some("KEY_F5"),
            0x40 => Some("KEY_F6"),
            0x41 => Some("KEY_F7"),
            0x42 => Some("KEY_F8"),
            0x43 => Some("KEY_F9"),
            0x44 => Some("KEY_F10"),
            0x45 => Some("KEY_NUMLOCK"),
            0x46 => Some("KEY_SCROLLLOCK"),
            0x47 => Some("KEY_KP7"),
            0x48 => Some("KEY_KP8"),
            0x49 => Some("KEY_KP9"),
            0x4a => Some("KEY_KPMINUS"),
            0x4b => Some("KEY_KP4"),
            0x4c => Some("KEY_KP5"),
            0x4d => Some("KEY_KP6"),
            0x4e => Some("KEY_KPPLUS"),
            0x4f => Some("KEY_KP1"),
            0x50 => Some("KEY_KP2"),
            0x51 => Some("KEY_KP3"),
            0x52 => Some("KEY_KP0"),
            0x53 => Some("KEY_KPDOT"),
            0x55 => Some("KEY_ZENKAKUHANKAKU"),
            0x56 => Some("KEY_102ND"),
            0x57 => Some("KEY_F11"),
            0x58 => Some("KEY_F12"),
            0x59 => Some("KEY_RO"),
            0x5a => Some("KEY_KATAKANA"),
            0x5b => Some("KEY_HIRAGANA"),
            0x5c => Some("KEY_HENKAN"),
            0x5d => Some("KEY_KATAKANAHIRAGANA"),
            0x5e => Some("KEY_MUHENKAN"),
            0x5f => Some("KEY_KPJPCOMMA"),
            0x60 => Some("KEY_KPENTER"),
            0x61 => Some("KEY_RIGHTCTRL"),
            0x62 => Some("KEY_KPSLASH"),
            0x63 => Some("KEY_SYSRQ"),
            0x64 => Some("KEY_RIGHTALT"),
            0x65 => Some("KEY_LINEFEED"),
            0x66 => Some("KEY_HOME"),
            0x67 => Some("KEY_UP"),
            0x68 => Some("KEY_PAGEUP"),
            0x69 => Some("KEY_LEFT"),
            0x6a => Some("KEY_RIGHT"),
            0x6b => Some("KEY_END"),
            0x6c => Some("KEY_DOWN"),
            0x6d => Some("KEY_PAGEDOWN"),
            0x6e => Some("KEY_INSERT"),
            0x6f => Some("KEY_DELETE"),
            0x70 => Some("KEY_MACRO"),
            0x71 => Some("KEY_MUTE"),
            0x72 => Some("KEY_VOLUMEDOWN"),
            0x73 => Some("KEY_VOLUMEUP"),
            0x74 => Some("KEY_POWER"),
            0x75 => Some("KEY_KPEQUAL"),
            0x76 => Some("KEY_KPPLUSMINUS"),
            0x77 => Some("KEY_PAUSE"),
            0x78 => Some("KEY_SCALE"),
            0x79 => Some("KEY_KPCOMMA"),
            0x7a => Some("KEY_HANGEUL"),
            0x7b => Some("KEY_HANJA"),
            0x7c => Some("KEY_YEN"),
            0x7d => Some("KEY_LEFTMETA"),
            0x7e => Some("KEY_RIGHTMETA"),
            0x7f => Some("KEY_COMPOSE"),
            0x80 => Some("KEY_STOP"),
            0x81 => Some("KEY_AGAIN"),
            0x82 => Some("KEY_PROPS"),
            0x83 => Some("KEY_UNDO"),
            0x84 => Some("KEY_FRONT"),
            0x85 => Some("KEY_COPY"),
            0x86 => Some("KEY_OPEN"),
            0x87 => Some("KEY_PASTE"),
            0x88 => Some("KEY_FIND"),
            0x89 => Some("KEY_CUT"),
            0x8a => Some("KEY_HELP"),
            0x8b => Some("KEY_MENU"),
            0x8c => Some("KEY_CALC"),
            0x8d => Some("KEY_SETUP"),
            0x8e => Some("KEY_SLEEP"),
            0x8f => Some("KEY_WAKEUP"),
            0xb7 => Some("KEY_F13"),
            0xb8 => Some("KEY_F14"),
            0xb9 => Some("KEY_F15"),
            0xba => Some("KEY_F16"),
            0xbb => Some("KEY_F17"),
            0xbc => Some("KEY_F18"),
            0xbd => Some("KEY_F19"),
            0xbe => Some("KEY_F20"),
            0xbf => Some("KEY_F21"),
            0xc0 => Some("KEY_F22"),
            0xc1 => Some("KEY_F23"),
            0xc2 => Some("KEY_F24"),
            0x100 => Some("BTN_0"),
            0x101 => Some("BTN_1"),
            0x102 => Some("BTN_2"),
            0x103 => Some("BTN_3"),
            0x104 => Some("BTN_4"),
            0x105 => Some("BTN_5"),
            0x106 => Some("BTN_6"),
            0x107 => Some("BTN_7"),
            0x108 => Some("BTN_8"),
            0x109 => Some("BTN_9"),
            0x110 => Some("BTN_LEFT"),
            0x111 => Some("BTN_RIGHT"),
            0x112 => Some("BTN_MIDDLE"),
            0x113 => Some("BTN_SIDE"),
            0x114 => Some("BTN_EXTRA"),
            0x115 => Some("BTN_FORWARD"),
            0x116 => Some("BTN_BACK"),
            0x117 => Some("BTN_TASK"),
            0x120 => Some("BTN_TRIGGER"),
            0x121 => Some("BTN_THUMB"),
            0x122 => Some("BTN_THUMB2"),
            0x123 => Some("BTN_TOP"),
            0x124 => Some("BTN_TOP2"),
            0x125 => Some("BTN_PINKIE"),
            0x126 => Some("BTN_BASE"),
            0x127 => Some("BTN_BASE2"),
            0x128 => Some("BTN_BASE3"),
            0x129 => Some("BTN_BASE4"),
            0x12a => Some("BTN_BASE5"),
            0x12b => Some("BTN_BASE6"),
            0x12f => Some("BTN_DEAD"),
            0x130 => Some("BTN_SOUTH"),
            0x131 => Some("BTN_EAST"),
            0x132 => Some("BTN_C"),
            0x133 => Some("BTN_NORTH"),
            0x134 => Some("BTN_WEST"),
            0x135 => Some("BTN_Z"),
            0x136 => Some("BTN_TL"),
            0x137 => Some("BTN_TR"),
            0x138 => Some("BTN_TL2"),
            0x139 => Some("BTN_TR2"),
            0x13a => Some("BTN_SELECT"),
            0x13b => Some("BTN_START"),
            0x13c => Some("BTN_MODE"),
            0x13d => Some("BTN_THUMBL"),
            0x13e => Some("BTN_THUMBR"),
            0x140 => Some("BTN_TOOL_PEN"),
            0x141 => Some("BTN_TOOL_RUBBER"),
            0x142 => Some("BTN_TOOL_BRUSH"),
            0x143 => Some("BTN_TOOL_PENCIL"),
            0x144 => Some("BTN_TOOL_AIRBRUSH"),
            0x145 => Some("BTN_TOOL_FINGER"),
            0x146 => Some("BTN_TOOL_MOUSE"),
            0x147 => Some("BTN_TOOL_LENS"),
            0x148 => Some("BTN_TOOL_QUINTTAP"),
            0x149 => Some("BTN_STYLUS3"),
            0x14a => Some("BTN_TOUCH"),
            0x14b => Some("BTN_STYLUS"),
            0x14c => Some("BTN_STYLUS2"),
            0x14d => Some("BTN_TOOL_DOUBLETAP"),
            0x14e => Some("BTN_TOOL_TRIPLETAP"),
            0x14f => Some("BTN_TOOL_QUADTAP"),
            0x150 => Some("BTN_GEAR_DOWN"),
            0x151 => Some("BTN_GEAR_UP"),
            0x220 => Some("BTN_DPAD_UP"),
            0x221 => Some("BTN_DPAD_DOWN"),
            0x222 => Some("BTN_DPAD_LEFT"),
            0x223 => Some("BTN_DPAD_RIGHT"),
            _ => None,
        }
    }

    /// The code the kernel names `s`; an error for a name it does not define.
    pub fn from_name(s: &str) -> (r: Result<Self, EnumParseError>)
        ensures
            r matches Ok(t) ==> key_code_code(s@) == Some(t.0),
            r is Err ==> key_code_code(s@) is None,
    {
        if same_str(s, "KEY_RESERVED") {
            return Ok(KeyCode(0x0));
        }
        if same_str(s, "KEY_ESC") {
            return Ok(KeyCode(0x1));
        }
        if same_str(s, "KEY_1") {
            return Ok(KeyCode(0x2));
        }
        if same_str(s, "KEY_2") {
            return Ok(KeyCode(0x3));
        }
        if same_str(s, "KEY_3") {
            return Ok(KeyCode(0x4));
        }
        if same_str(s, "KEY_4") {
            return Ok(KeyCode(0x5));
        }
        if same_str(s, "KEY_5") {
            return Ok(KeyCode(0x6));
        }
        if same_str(s, "KEY_6") {
            return Ok(KeyCode(0x7));
        }
        if same_str(s, "KEY_7") {
            return Ok(KeyCode(0x8));
        }
        if same_str(s, "KEY_8") {
            return Ok(KeyCode(0x9));
        }
        if same_str(s, "KEY_9") {
            return Ok(KeyCode(0xa));
        }
        if same_str(s, "KEY_0") {
            return Ok(KeyCode(0xb));
        }
        if same_str(s, "KEY_MINUS") {
            return Ok(KeyCode(0xc));
        }
        if same_str(s, "KEY_EQUAL") {
            return Ok(KeyCode(0xd));
        }
        if same_str(s, "KEY_BACKSPACE") {
            return Ok(KeyCode(0xe));
        }
        if same_str(s, "KEY_TAB") {
            return Ok(KeyCode(0xf));
        }
        if same_str(s, "KEY_Q") {
            return Ok(KeyCode(0x10));
        }
        if same_str(s, "KEY_W") {
            return Ok(KeyCode(0x11));
        }
        if same_str(s, "KEY_E") {
            return Ok(KeyCode(0x12));
        }
        if same_str(s, "KEY_R") {
            return Ok(KeyCode(0x13));
        }
        if same_str(s, "KEY_T") {
            return Ok(KeyCode(0x14));
        }
        if same_str(s, "KEY_Y") {
            return Ok(KeyCode(0x15));
        }
        if same_str(s, "KEY_U") {
            return Ok(KeyCode(0x16));
        }
        if same_str(s, "KEY_I") {
            return Ok(KeyCode(0x17));
        }
        if same_str(s, "KEY_O") {
            return Ok(KeyCode(0x18));
        }
        if same_str(s, "KEY_P") {
            return Ok(KeyCode(0x19));
        }
        if same_str(s, "KEY_LEFTBRACE") {
            return Ok(KeyCode(0x1a));
        }
        if same_str(s, "KEY_RIGHTBRACE") {
            return Ok(KeyCode(0x1b));
        }
        if same_str(s, "KEY_ENTER") {
            return Ok(KeyCode(0x1c));
        }
        if same_str(s, "KEY_LEFTCTRL") {
            return Ok(KeyCode(0x1d));
        }
        if same_str(s, "KEY_A") {
            return Ok(KeyCode(0x1e));
        }
        if same_str(s, "KEY_S") {
            return Ok(KeyCode(0x1f));
        }
        if same_str(s, "KEY_D") {
            return Ok(KeyCode(0x20));
        }
        if same_str(s, "KEY_F") {
            return Ok(KeyCode(0x21));
        }
        if same_str(s, "KEY_G") {
            return Ok(KeyCode(0x22));
        }
        if same_str(s, "KEY_H") {
            return Ok(KeyCode(0x23));
        }
        if same_str(s, "KEY_J") {
            return Ok(KeyCode(0x24));
        }
        if same_str(s, "KEY_K") {
            return Ok(KeyCode(0x25));
        }
        if same_str(s, "KEY_L") {
            return Ok(KeyCode(0x26));
        }
        if same_str(s, "KEY_SEMICOLON") {
            return Ok(KeyCode(0x27));
        }
        if same_str(s, "KEY_APOSTROPHE") {
            return Ok(KeyCode(0x28));
        }
        if same_str(s, "KEY_GRAVE") {
            return Ok(KeyCode(0x29));
        }
        if same_str(s, "KEY_LEFTSHIFT") {
            return Ok(KeyCode(0x2a));
        }
        if same_str(s, "KEY_BACKSLASH") {
            return Ok(KeyCode(0x2b));
        }
        if same_str(s, "KEY_Z") {
            return Ok(KeyCode(0x2c));
        }
        if same_str(s, "KEY_X") {
            return Ok(KeyCode(0x2d));
        }
        if same_str(s, "KEY_C") {
            return Ok(KeyCode(0x2e));
        }
        if same_str(s, "KEY_V") {
            return Ok(KeyCode(0x2f));
        }
        if same_str(s, "KEY_B") {
            return Ok(KeyCode(0x30));
        }
        if same_str(s, "KEY_N") {
            return Ok(KeyCode(0x31));
        }
        if same_str(s, "KEY_M") {
            return Ok(KeyCode(0x32));
        }
        if same_str(s, "KEY_COMMA") {
            return Ok(KeyCode(0x33));
        }
        if same_str(s, "KEY_DOT") {
            return Ok(KeyCode(0x34));
        }
        if same_str(s, "KEY_SLASH") {
            return Ok(KeyCode(0x35));
        }
        if same_str(s, "KEY_RIGHTSHIFT") {
            return Ok(KeyCode(0x36));
        }
        if same_str(s, "KEY_KPASTERISK") {
            return Ok(KeyCode(0x37));
        }
        if same_str(s, "KEY_LEFTALT") {
            return Ok(KeyCode(0x38));
        }
        if same_str(s, "KEY_SPACE") {
            return Ok(KeyCode(0x39));
        }
        if same_str(s, "KEY_CAPSLOCK") {
            return Ok(KeyCode(0x3a));
        }
        if same_str(s, "KEY_F1") {
            return Ok(KeyCode(0x3b));
        }
        if same_str(s, "KEY_F2") {
            return Ok(KeyCode(0x3c));
        }
        if same_str(s, "KEY_F3") {
            return Ok(KeyCode(0x3d));
        }
        if same_str(s, "KEY_F4") {
            return Ok(KeyCode(0x3e));
        }
        if same_str(s, "KEY_F5") {
            return Ok(KeyCode(0x3f));
        }
        if same_str(s, "KEY_F6") {
            return Ok(KeyCode(0x40));
        }
        if same_str(s, "KEY_F7") {
            return Ok(KeyCode(0x41));
        }
        if same_str(s, "KEY_F8") {
            return Ok(KeyCode(0x42));
        }
        if same_str(s, "KEY_F9") {
            return Ok(KeyCode(0x43));
        }
        if same_str(s, "KEY_F10") {
            return Ok(KeyCode(0x44));
        }
        if same_str(s, "KEY_NUMLOCK") {
            return Ok(KeyCode(0x45));
        }
        if same_str(s, "KEY_SCROLLLOCK") {
            return Ok(KeyCode(0x46));
        }
        if same_str(s, "KEY_KP7") {
            return Ok(KeyCode(0x47));
        }
        if same_str(s, "KEY_KP8") {
            return Ok(KeyCode(0x48));
        }
        if same_str(s, "KEY_KP9") {
            return Ok(KeyCode(0x49));
        }
        if same_str(s, "KEY_KPMINUS") {
            return Ok(KeyCode(0x4a));
        }
        if same_str(s, "KEY_KP4") {
            return Ok(KeyCode(0x4b));
        }
        if same_str(s, "KEY_KP5") {
            return Ok(KeyCode(0x4c));
        }
        if same_str(s, "KEY_KP6") {
            return Ok(KeyCode(0x4d));
        }
        if same_str(s, "KEY_KPPLUS") {
            return Ok(KeyCode(0x4e));
        }
        if same_str(s, "KEY_KP1") {
            return Ok(KeyCode(0x4f));
        }
        if same_str(s, "KEY_KP2") {
            return Ok(KeyCode(0x50));
        }
        if same_str(s, "KEY_KP3") {
            return Ok(KeyCode(0x51));
        }
        if same_str(s, "KEY_KP0") {
            return Ok(KeyCode(0x52));
        }
        if same_str(s, "KEY_KPDOT") {
            return Ok(KeyCode(0x53));
        }
        if same_str(s, "KEY_ZENKAKUHANKAKU") {
            return Ok(KeyCode(0x55));
        }
        if same_str(s, "KEY_102ND") {
            return Ok(KeyCode(0x56));
        }
        if same_str(s, "KEY_F11") {
            return Ok(KeyCode(0x57));
        }
        if same_str(s, "KEY_F12") {
            return Ok(KeyCode(0x58));
        }
        if same_str(s, "KEY_RO") {
            return Ok(KeyCode(0x59));
        }
        if same_str(s, "KEY_KATAKANA") {
            return Ok(KeyCode(0x5a));
        }
        if same_str(s, "KEY_HIRAGANA") {
            return Ok(KeyCode(0x5b));
        }
        if same_str(s, "KEY_HENKAN") {
            return Ok(KeyCode(0x5c));
        }
        if same_str(s, "KEY_KATAKANAHIRAGANA") {
            return Ok(KeyCode(0x5d));
        }
        if same_str(s, "KEY_MUHENKAN") {
            return Ok(KeyCode(0x5e));
        }
        if same_str(s, "KEY_KPJPCOMMA") {
            return Ok(KeyCode(0x5f));
        }
        if same_str(s, "KEY_KPENTER") {
            return Ok(KeyCode(0x60));
        }
        if same_str(s, "KEY_RIGHTCTRL") {
            return Ok(KeyCode(0x61));
        }
        if same_str(s, "KEY_KPSLASH") {
            return Ok(KeyCode(0x62));
        }
        if same_str(s, "KEY_SYSRQ") {
            return Ok(KeyCode(0x63));
        }
        if same_str(s, "KEY_RIGHTALT") {
            return Ok(KeyCode(0x64));
        }
        if same_str(s, "KEY_LINEFEED") {
            return Ok(KeyCode(0x65));
        }
        if same_str(s, "KEY_HOME") {
            return Ok(KeyCode(0x66));
        }
        if same_str(s, "KEY_UP") {
            return Ok(KeyCode(0x67));
        }
        if same_str(s, "KEY_PAGEUP") {
            return Ok(KeyCode(0x68));
        }
        if same_str(s, "KEY_LEFT") {
            return Ok(KeyCode(0x69));
        }
        if same_str(s, "KEY_RIGHT") {
            return Ok(KeyCode(0x6a));
        }
        if same_str(s, "KEY_END") {
            return Ok(KeyCode(0x6b));
        }
        if same_str(s, "KEY_DOWN") {
            return Ok(KeyCode(0x6c));
        }
        if same_str(s, "KEY_PAGEDOWN") {
            return Ok(KeyCode(0x6d));
        }
        if same_str(s, "KEY_INSERT") {
            return Ok(KeyCode(0x6e));
        }
        if same_str(s, "KEY_DELETE") {
            return Ok(KeyCode(0x6f));
        }
        if same_str(s, "KEY_MACRO") {
            return Ok(KeyCode(0x70));
        }
        if same_str(s, "KEY_MUTE") {
            return Ok(KeyCode(0x71));
        }
        if same_str(s, "KEY_VOLUMEDOWN") {
            return Ok(KeyCode(0x72));
        }
        if same_str(s, "KEY_VOLUMEUP") {
            return Ok(KeyCode(0x73));
        }
        if same_str(s, "KEY_POWER") {
            return Ok(KeyCode(0x74));
        }
        if same_str(s, "KEY_KPEQUAL") {
            return Ok(KeyCode(0x75));
        }
        if same_str(s, "KEY_KPPLUSMINUS") {
            return Ok(KeyCode(0x76));
        }
        if same_str(s, "KEY_PAUSE") {
            return Ok(KeyCode(0x77));
        }
        if same_str(s, "KEY_SCALE") {
            return Ok(KeyCode(0x78));
        }
        if same_str(s, "KEY_KPCOMMA") {
            return Ok(KeyCode(0x79));
        }
        if same_str(s, "KEY_HANGEUL") {
            return Ok(KeyCode(0x7a));
        }
        if same_str(s, "KEY_HANJA") {
            return Ok(KeyCode(0x7b));
        }
        if same_str(s, "KEY_YEN") {
            return Ok(KeyCode(0x7c));
        }
        if same_str(s, "KEY_LEFTMETA") {
            return Ok(KeyCode(0x7d));
        }
        if same_str(s, "KEY_RIGHTMETA") {
            return Ok(KeyCode(0x7e));
        }
        if same_str(s, "KEY_COMPOSE") {
            return Ok(KeyCode(0x7f));
        }
        if same_str(s, "KEY_STOP") {
            return Ok(KeyCode(0x80));
        }
        if same_str(s, "KEY_AGAIN") {
            return Ok(KeyCode(0x81));
        }
        if same_str(s, "KEY_PROPS") {
            return Ok(KeyCode(0x82));
        }
        if same_str(s, "KEY_UNDO") {
            return Ok(KeyCode(0x83));
        }
        if same_str(s, "KEY_FRONT") {
            return Ok(KeyCode(0x84));
        }
        if same_str(s, "KEY_COPY") {
            return Ok(KeyCode(0x85));
        }
        if same_str(s, "KEY_OPEN") {
            return Ok(KeyCode(0x86));
        }
        if same_str(s, "KEY_PASTE") {
            return Ok(KeyCode(0x87));
        }
        if same_str(s, "KEY_FIND") {
            return Ok(KeyCode(0x88));
        }
        if same_str(s, "KEY_CUT") {
            return Ok(KeyCode(0x89));
        }
        if same_str(s, "KEY_HELP") {
            return Ok(KeyCode(0x8a));
        }
        if same_str(s, "KEY_MENU") {
            return Ok(KeyCode(0x8b));
        }
        if same_str(s, "KEY_CALC") {
            return Ok(KeyCode(0x8c));
        }
        if same_str(s, "KEY_SETUP") {
            return Ok(KeyCode(0x8d));
        }
        if same_str(s, "KEY_SLEEP") {
            return Ok(KeyCode(0x8e));
        }
        if same_str(s, "KEY_WAKEUP") {
            return Ok(KeyCode(0x8f));
        }
        if same_str(s, "KEY_F13") {
            return Ok(KeyCode(0xb7));
        }
        if same_str(s, "KEY_F14") {
            return Ok(KeyCode(0xb8));
        }
        if same_str(s, "KEY_F15") {
            return Ok(KeyCode(0xb9));
        }
        if same_str(s, "KEY_F16") {
            return Ok(KeyCode(0xba));
        }
        if same_str(s, "KEY_F17") {
            return Ok(KeyCode(0xbb));
        }
        if same_str(s, "KEY_F18") {
            return Ok(KeyCode(0xbc));
        }
        if same_str(s, "KEY_F19") {
            return Ok(KeyCode(0xbd));
        }
        if same_str(s, "KEY_F20") {
            return Ok(KeyCode(0xbe));
        }
        if same_str(s, "KEY_F21") {
            return Ok(KeyCode(0xbf));
        }
        if same_str(s, "KEY_F22") {
            return Ok(KeyCode(0xc0));
        }
        if same_str(s, "KEY_F23") {
            return Ok(KeyCode(0xc1));
        }
        if same_str(s, "KEY_F24") {
            return Ok(KeyCode(0xc2));
        }
        if same_str(s, "BTN_0") {
            return Ok(KeyCode(0x100));
        }
        if same_str(s, "BTN_1") {
            return Ok(KeyCode(0x101));
        }
        if same_str(s, "BTN_2") {
            return Ok(KeyCode(0x102));
        }
        if same_str(s, "BTN_3") {
            return Ok(KeyCode(0x103));
        }
        if same_str(s, "BTN_4") {
            return Ok(KeyCode(0x104));
        }
        if same_str(s, "BTN_5") {
            return Ok(KeyCode(0x105));
        }
        if same_str(s, "BTN_6") {
            return Ok(KeyCode(0x106));
        }
        if same_str(s, "BTN_7") {
            return Ok(KeyCode(0x107));
        }
        if same_str(s, "BTN_8") {
            return Ok(KeyCode(0x108));
        }
        if same_str(s, "BTN_9") {
            return Ok(KeyCode(0x109));
        }
        if same_str(s, "BTN_LEFT") {
            return Ok(KeyCode(0x110));
        }
        if same_str(s, "BTN_RIGHT") {
            return Ok(KeyCode(0x111));
        }
        if same_str(s, "BTN_MIDDLE") {
            return Ok(KeyCode(0x112));
        }
        if same_str(s, "BTN_SIDE") {
            return Ok(KeyCode(0x113));
        }
        if same_str(s, "BTN_EXTRA") {
            return Ok(KeyCode(0x114));
        }
        if same_str(s, "BTN_FORWARD") {
            return Ok(KeyCode(0x115));
        }
        if same_str(s, "BTN_BACK") {
            return Ok(KeyCode(0x116));
        }
        if same_str(s, "BTN_TASK") {
            return Ok(KeyCode(0x117));
        }
        if same_str(s, "BTN_TRIGGER") {
            return Ok(KeyCode(0x120));
        }
        if same_str(s, "BTN_THUMB") {
            return Ok(KeyCode(0x121));
        }
        if same_str(s, "BTN_THUMB2") {
            return Ok(KeyCode(0x122));
        }
        if same_str(s, "BTN_TOP") {
            return Ok(KeyCode(0x123));
        }
        if same_str(s, "BTN_TOP2") {
            return Ok(KeyCode(0x124));
        }
        if same_str(s, "BTN_PINKIE") {
            return Ok(KeyCode(0x125));
        }
        if same_str(s, "BTN_BASE") {
            return Ok(KeyCode(0x126));
        }
        if same_str(s, "BTN_BASE2") {
            return Ok(KeyCode(0x127));
        }
        if same_str(s, "BTN_BASE3") {
            return Ok(KeyCode(0x128));
        }
        if same_str(s, "BTN_BASE4") {
            return Ok(KeyCode(0x129));
        }
        if same_str(s, "BTN_BASE5") {
            return Ok(KeyCode(0x12a));
        }
        if same_str(s, "BTN_BASE6") {
            return Ok(KeyCode(0x12b));
        }
        if same_str(s, "BTN_DEAD") {
            return Ok(KeyCode(0x12f));
        }
        if same_str(s, "BTN_SOUTH") {
            return Ok(KeyCode(0x130));
        }
        if same_str(s, "BTN_EAST") {
            return Ok(KeyCode(0x131));
        }
        if same_str(s, "BTN_C") {
            return Ok(KeyCode(0x132));
        }
        if same_str(s, "BTN_NORTH") {
            return Ok(KeyCode(0x133));
        }
        if same_str(s, "BTN_WEST") {
            return Ok(KeyCode(0x134));
        }
        if same_str(s, "BTN_Z") {
            return Ok(KeyCode(0x135));
        }
        if same_str(s, "BTN_TL") {
            return Ok(KeyCode(0x136));
        }
        if same_str(s, "BTN_TR") {
            return Ok(KeyCode(0x137));
        }
        if same_str(s, "BTN_TL2") {
            return Ok(KeyCode(0x138));
        }
        if same_str(s, "BTN_TR2") {
            return Ok(KeyCode(0x139));
        }
        if same_str(s, "BTN_SELECT") {
            return Ok(KeyCode(0x13a));
        }
        if same_str(s, "BTN_START") {
            return Ok(KeyCode(0x13b));
        }
        if same_str(s, "BTN_MODE") {
            return Ok(KeyCode(0x13c));
        }
        if same_str(s, "BTN_THUMBL") {
            return Ok(KeyCode(0x13d));
        }
        if same_str(s, "BTN_THUMBR") {
            return Ok(KeyCode(0x13e));
        }
        if same_str(s, "BTN_TOOL_PEN") {
            return Ok(KeyCode(0x140));
        }
        if same_str(s, "BTN_TOOL_RUBBER") {
            return Ok(KeyCode(0x141));
        }
        if same_str(s, "BTN_TOOL_BRUSH") {
            return Ok(KeyCode(0x142));
        }
        if same_str(s, "BTN_TOOL_PENCIL") {
            return Ok(KeyCode(0x143));
        }
        if same_str(s, "BTN_TOOL_AIRBRUSH") {
            return Ok(KeyCode(0x144));
        }
        if same_str(s, "BTN_TOOL_FINGER") {
            return Ok(KeyCode(0x145));
        }
        if same_str(s, "BTN_TOOL_MOUSE") {
            return Ok(KeyCode(0x146));
        }
        if same_str(s, "BTN_TOOL_LENS") {
            return Ok(KeyCode(0x147));
        }
        if same_str(s, "BTN_TOOL_QUINTTAP") {
            return Ok(KeyCode(0x148));
        }
        if same_str(s, "BTN_STYLUS3") {
            return Ok(KeyCode(0x149));
        }
        if same_str(s, "BTN_TOUCH") {
            return Ok(KeyCode(0x14a));
        }
        if same_str(s, "BTN_STYLUS") {
            return Ok(KeyCode(0x14b));
        }
        if same_str(s, "BTN_STYLUS2") {
            return Ok(KeyCode(0x14c));
        }
        if same_str(s, "BTN_TOOL_DOUBLETAP") {
            return Ok(KeyCode(0x14d));
        }
        if same_str(s, "BTN_TOOL_TRIPLETAP") {
            return Ok(KeyCode(0x14e));
        }
        if same_str(s, "BTN_TOOL_QUADTAP") {
            return Ok(KeyCode(0x14f));
        }
        if same_str(s, "BTN_GEAR_DOWN") {
            return Ok(KeyCode(0x150));
        }
        if same_str(s, "BTN_GEAR_UP") {
            return Ok(KeyCode(0x151));
        }
        if same_str(s, "BTN_DPAD_UP") {
            return Ok(KeyCode(0x220));
        }
        if same_str(s, "BTN_DPAD_DOWN") {
            return Ok(KeyCode(0x221));
        }
        if same_str(s, "BTN_DPAD_LEFT") {
            return Ok(KeyCode(0x222));
        }
        if same_str(s, "BTN_DPAD_RIGHT") {
            return Ok(KeyCode(0x223));
        }
        Err(EnumParseError)
    }
}

impl core::str::FromStr for KeyCode {
    type Err = EnumParseError;

    /// The code the kernel names `s`; an error for a name it does not define.
    fn from_str(s: &str) -> (r: Result<Self, EnumParseError>)
        ensures
            r matches Ok(t) ==> key_code_code(s@) == Some(t.0),
            r is Err ==> key_code_code(s@) is None,
    {
        KeyCode::from_name(s)
    }
}

/// The kernel's name of `code` as a BusType, if it defines one.
pub open spec fn bus_kernel_name(code: u16) -> Option<Seq<char>> {
    match code {
        0x1 => Some("BUS_PCI"@),
        0x2 => Some("BUS_ISAPNP"@),
        0x3 => Some("BUS_USB"@),
        0x4 => Some("BUS_HIL"@),
        0x5 => Some("BUS_BLUETOOTH"@),
        0x6 => Some("BUS_VIRTUAL"@),
        0x10 => Some("BUS_ISA"@),
        0x11 => Some("BUS_I8042"@),
        0x12 => Some("BUS_XTKBD"@),
        0x13 => Some("BUS_RS232"@),
        0x14 => Some("BUS_GAMEPORT"@),
        0x15 => Some("BUS_PARPORT"@),
        0x16 => Some("BUS_AMIGA"@),
        0x17 => Some("BUS_ADB"@),
        0x18 => Some("BUS_I2C"@),
        0x19 => Some("BUS_HOST"@),
        0x1a => Some("BUS_GSC"@),
        0x1b => Some("BUS_ATARI"@),
        0x1c => Some("BUS_SPI"@),
        0x1d => Some("BUS_RMI"@),
        0x1e => Some("BUS_CEC"@),
        0x1f => Some("BUS_INTEL_ISHTP"@),
        _ => None,
    }
}

/// The BusType code that the kernel names `name`, if any.
pub open spec fn bus_kernel_code(name: Seq<char>) -> Option<u16> {
    if name == "BUS_PCI"@ {
        Some(0x1)
    } else if name == "BUS_ISAPNP"@ {
        Some(0x2)
    } else if name == "BUS_USB"@ {
        Some(0x3)
    } else if name == "BUS_HIL"@ {
        Some(0x4)
    } else if name == "BUS_BLUETOOTH"@ {
        Some(0x5)
    } else if name == "BUS_VIRTUAL"@ {
        Some(0x6)
    } else if name == "BUS_ISA"@ {
        Some(0x10)
    } else if name == "BUS_I8042"@ {
        Some(0x11)
    } else if name == "BUS_XTKBD"@ {
        Some(0x12)
    } else if name == "BUS_RS232"@ {
        Some(0x13)
    } else if name == "BUS_GAMEPORT"@ {
        Some(0x14)
    } else if name == "BUS_PARPORT"@ {
        Some(0x15)
    } else if name == "BUS_AMIGA"@ {
        Some(0x16)
    } else if name == "BUS_ADB"@ {
        Some(0x17)
    } else if name == "BUS_I2C"@ {
        Some(0x18)
    } else if name == "BUS_HOST"@ {
        Some(0x19)
    } else if name == "BUS_GSC"@ {
        Some(0x1a)
    } else if name == "BUS_ATARI"@ {
        Some(0x1b)
    } else if name == "BUS_SPI"@ {
        Some(0x1c)
    } else if name == "BUS_RMI"@ {
        Some(0x1d)
    } else if name == "BUS_CEC"@ {
        Some(0x1e)
    } else if name == "BUS_INTEL_ISHTP"@ {
        Some(0x1f)
    } else {
        None
    }
}

impl BusType {
    /// The kernel's name of this code, `None` for a code it does not define.
    pub fn name(&self) -> (r: Option<&'static str>)
        ensures
            r matches Some(n) ==> bus_kernel_name(self.0) == Some(n@),
            r is None ==> bus_kernel_name(self.0) is None,
    {
        match self.0 {
            0x1 => Some("BUS_PCI"),
            0x2 => Some("BUS_ISAPNP"),
            0x3 => Some("BUS_USB"),
            0x4 => Some("BUS_HIL"),
            0x5 => Some("BUS_BLUETOOTH"),
            0x6 => Some("BUS_VIRTUAL"),
            0x10 => Some("BUS_ISA"),
            0x11 => Some("BUS_I8042"),
            0x12 => Some("BUS_XTKBD"),
            0x13 => Some("BUS_RS232"),
            0x14 => Some("BUS_GAMEPORT"),
            0x15 => Some("BUS_PARPORT"),
            0x16 => Some("BUS_AMIGA"),
            0x17 => Some("BUS_ADB"),
            0x18 => Some("BUS_I2C"),
            0x19 => Some("BUS_HOST"),
            0x1a => Some("BUS_GSC"),
            0x1b => Some("BUS_ATARI"),
            0x1c => Some("BUS_SPI"),
            0x1d => Some("BUS_RMI"),
            0x1e => Some("BUS_CEC"),
            0x1f => Some("BUS_INTEL_ISHTP"),
            _ => None,
        }
    }

    /// The code the kernel names `s`; an error for a name it does not define.
    pub fn from_name(s: &str) -> (r: Result<Self, EnumParseError>)
        ensures
            r matches Ok(t) ==> bus_kernel_code(s@) == Some(t.0),
            r is Err ==> bus_kernel_code(s@) is None,
    {
        if same_str(s, "BUS_PCI") {
            return Ok(BusType(0x1));
        }
        if same_str(s, "BUS_ISAPNP") {
            return Ok(BusType(0x2));
        }
        if same_str(s, "BUS_USB") {
            return Ok(BusType(0x3));
        }
        if same_str(s, "BUS_HIL") {
            return Ok(BusType(0x4));
        }
        if same_str(s, "BUS_BLUETOOTH") {
            return Ok(BusType(0x5));
        }
        if same_str(s, "BUS_VIRTUAL") {
            return Ok(BusType(0x6));
        }
        if same_str(s, "BUS_ISA") {
            return Ok(BusType(0x10));
        }
        if same_str(s, "BUS_I8042") {
            return Ok(BusType(0x11));
        }
        if same_str(s, "BUS_XTKBD") {
            return Ok(BusType(0x12));
        }
        if same_str(s, "BUS_RS232") {
            return Ok(BusType(0x13));
        }
        if same_str(s, "BUS_GAMEPORT") {
            return Ok(BusType(0x14));
        }
        if same_str(s, "BUS_PARPORT") {
            return Ok(BusType(0x15));
        }
        if same_str(s, "BUS_AMIGA") {
            return Ok(BusType(0x16));
        }
        if same_str(s, "BUS_ADB") {
            return Ok(BusType(0x17));
        }
        if same_str(s, "BUS_I2C") {
            return Ok(BusType(0x18));
        }
        if same_str(s, "BUS_HOST") {
            return Ok(BusType(0x19));
        }
        if same_str(s, "BUS_GSC") {
            return Ok(BusType(0x1a));
        }
        if same_str(s, "BUS_ATARI") {
            return Ok(BusType(0x1b));
        }
        if same_str(s, "BUS_SPI") {
            return Ok(BusType(0x1c));
        }
        if same_str(s, "BUS_RMI") {
            return Ok(BusType(0x1d));
        }
        if same_str(s, "BUS_CEC") {
            return Ok(BusType(0x1e));
        }
        if same_str(s, "BUS_INTEL_ISHTP") {
            return Ok(BusType(0x1f));
        }
        Err(EnumParseError)
    }
}

impl core::str::FromStr for BusType {
    type Err = EnumParseError;

    /// The code the kernel names `s`; an error for a name it does not define.
    fn from_str(s: &str) -> (r: Result<Self, EnumParseError>)
        ensures
            r matches Ok(t) ==> bus_kernel_code(s@) == Some(t.0),
            r is Err ==> bus_kernel_code(s@) is None,
    {
        BusType::from_name(s)
    }
}

/// The kernel's name of `code` as a RepeatCode, if it defines one.
pub open spec fn repeat_code_name(code: u16) -> Option<Seq<char>> {
    match code {
        0x0 => Some("REP_DELAY"@),
        0x1 => Some("REP_PERIOD"@),
        _ => None,
    }
}

/// The RepeatCode code that the kernel names `name`, if any.
pub open spec fn repeat_code_code(name: Seq<char>) -> Option<u16> {
    if name == "REP_DELAY"@ {
        Some(0x0)
    } else if name == "REP_PERIOD"@ {
        Some(0x1)
    } else {
        None
    }
}

impl RepeatCode {
    /// The kernel's name of this code, `None` for a code it does not define.
    pub fn name(&self) -> (r: Option<&'static str>)
        ensures
            r matches Some(n) ==> repeat_code_name(self.0) == Some(n@),
            r is None ==> repeat_code_name(self.0) is None,
    {
        match self.0 {
            0x0 => Some("REP_DELAY"),
            0x1 => Some("REP_PERIOD"),
            _ => None,
        }
    }

    /// The code the kernel names `s`; an error for a name it does not define.
    pub fn from_name(s: &str) -> (r: Result<Self, EnumParseError>)
        ensures
            r matches Ok(t) ==> repeat_code_code(s@) == Some(t.0),
            r is Err ==> repeat_code_code(s@) is None,
    {
        if same_str(s, "REP_DELAY") {
            return Ok(RepeatCode(0x0));
        }
        if same_str(s, "REP_PERIOD") {
            return Ok(RepeatCode(0x1));
        }
        Err(EnumParseError)
    }
}

impl core::str::FromStr for RepeatCode {
    type Err = EnumParseError;

    /// The code the kernel names `s`; an error for a name it does not define.
    fn from_str(s: &str) -> (r: Result<Self, EnumParseError>)
        ensures
            r matches Ok(t) ==> repeat_code_code(s@) == Some(t.0),
            r is Err ==> repeat_code_code(s@) is None,
    {
        RepeatCode::from_name(s)
    }
}

/// The kernel's name of the code of an event of type `ty`: that of the code as
/// one of the kind the type carries, `None` for a type whose codes have no names.
pub open spec fn event_code_name(ty: u16, code: u16) -> Option<Seq<char>> {
    if ty == EventType::SYNCHRONIZATION {
        synchronization_name(code)
    } else if ty == EventType::KEY {
        key_code_name(code)
    } else if ty == EventType::RELATIVE {
        relative_axis_type_name(code)
    } else if ty == EventType::ABSOLUTE {
        absolute_axis_type_name(code)
    } else if ty == EventType::MISC {
        misc_type_name(code)
    } else if ty == EventType::SWITCH {
        switch_type_name(code)
    } else if ty == EventType::LED {
        led_type_name(code)
    } else if ty == EventType::SOUND {
        sound_type_name(code)
    } else if ty == EventType::FORCEFEEDBACK {
        ff_effect_type_name(code)
    } else if ty == EventType::FORCEFEEDBACKSTATUS {
        ff_status_name(code)
    } else if ty == EventType::REPEAT {
        repeat_code_name(code)
    } else if ty == EventType::UINPUT {
        uinput_event_type_name(code)
    } else {
        None
    }
}

impl InputEvent {
    /// The kernel's name of the event's code, as the kind its type carries, which
    /// is what a description of the event shows; `None` where there is none.
    pub fn code_name(&self) -> (r: Option<&'static str>)
        ensures
            r matches Some(n) ==> event_code_name(self.0.type_, self.0.code) == Some(n@),
            r is None ==> event_code_name(self.0.type_, self.0.code) is None,
    {
        let t = self.event_type().0;
        let c = self.code();
        if t == EventType::SYNCHRONIZATION {
            Synchronization(c).name()
        } else if t == EventType::KEY {
            KeyCode(c).name()
        } else if t == EventType::RELATIVE {
            RelativeAxisType(c).name()
        } else if t == EventType::ABSOLUTE {
            AbsoluteAxisType(c).name()
        } else if t == EventType::MISC {
            MiscType(c).name()
        } else if t == EventType::SWITCH {
            SwitchType(c).name()
        } else if t == EventType::LED {
            LedType(c).name()
        } else if t == EventType::SOUND {
            SoundType(c).name()
        } else if t == EventType::FORCEFEEDBACK {
            FFEffectType(c).name()
        } else if t == EventType::FORCEFEEDBACKSTATUS {
            FFStatus(c).name()
        } else if t == EventType::REPEAT {
            RepeatCode(c).name()
        } else if t == EventType::UINPUT {
            UInputEventType(c).name()
        } else {
            None
        }
    }
}
} // verus!
