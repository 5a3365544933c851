//! The name tables against the named constants: each constant is named by its
//! own identifier, and names and parsing undo each other.

use crate::constants::{
    AbsoluteAxisType, EventType, FFEffectType, FFStatus, LedType, MiscType, PropType,
    RelativeAxisType, RepeatCode, SoundType, SwitchType, Synchronization, UInputEventType,
};
use crate::inputid::BusType;
use crate::scancodes::KeyCode;
use crate::names::{
    absolute_axis_type_code, absolute_axis_type_name, bus_kernel_code, bus_kernel_name,
    event_type_code, event_type_name, ff_effect_type_code, ff_effect_type_name, ff_status_code,
    ff_status_name, key_code_code, key_code_name, led_type_code, led_type_name, misc_type_code,
    misc_type_name, prop_type_code, prop_type_name, relative_axis_type_code,
    relative_axis_type_name, repeat_code_code, repeat_code_name, sound_type_code,
    sound_type_name, switch_type_code, switch_type_name, synchronization_code,
    synchronization_name, uinput_event_type_code, uinput_event_type_name,
};
use vstd::prelude::*;

verus! {

/// Each event type constant is named by its own identifier, and parsing that
/// identifier gives back the constant.
pub proof fn law_event_type_names()
    ensures
        event_type_name(EventType::SYNCHRONIZATION) == Some("SYNCHRONIZATION"@),
        event_type_name(EventType::KEY) == Some("KEY"@),
        event_type_name(EventType::RELATIVE) == Some("RELATIVE"@),
        event_type_name(EventType::ABSOLUTE) == Some("ABSOLUTE"@),
        event_type_name(EventType::MISC) == Some("MISC"@),
        event_type_name(EventType::SWITCH) == Some("SWITCH"@),
        event_type_name(EventType::LED) == Some("LED"@),
        event_type_name(EventType::SOUND) == Some("SOUND"@),
        event_type_name(EventType::REPEAT) == Some("REPEAT"@),
        event_type_name(EventType::FORCEFEEDBACK) == Some("FORCEFEEDBACK"@),
        event_type_name(EventType::POWER) == Some("POWER"@),
        event_type_name(EventType::FORCEFEEDBACKSTATUS) == Some("FORCEFEEDBACKSTATUS"@),
        event_type_name(EventType::UINPUT) == Some("UINPUT"@),
        event_type_code("SYNCHRONIZATION"@) == Some(EventType::SYNCHRONIZATION),
        event_type_code("KEY"@) == Some(EventType::KEY),
        event_type_code("RELATIVE"@) == Some(EventType::RELATIVE),
        event_type_code("ABSOLUTE"@) == Some(EventType::ABSOLUTE),
        event_type_code("MISC"@) == Some(EventType::MISC),
        event_type_code("SWITCH"@) == Some(EventType::SWITCH),
        event_type_code("LED"@) == Some(EventType::LED),
        event_type_code("SOUND"@) == Some(EventType::SOUND),
        event_type_code("REPEAT"@) == Some(EventType::REPEAT),
        event_type_code("FORCEFEEDBACK"@) == Some(EventType::FORCEFEEDBACK),
        event_type_code("POWER"@) == Some(EventType::POWER),
        event_type_code("FORCEFEEDBACKSTATUS"@) == Some(EventType::FORCEFEEDBACKSTATUS),
        event_type_code("UINPUT"@) == Some(EventType::UINPUT),
{
    reveal_strlit("SYNCHRONIZATION");
    reveal_strlit("KEY");
    reveal_strlit("RELATIVE");
    reveal_strlit("ABSOLUTE");
    reveal_strlit("MISC");
    reveal_strlit("SWITCH");
    reveal_strlit("LED");
    reveal_strlit("SOUND");
    reveal_strlit("REPEAT");
    reveal_strlit("FORCEFEEDBACK");
    reveal_strlit("POWER");
    reveal_strlit("FORCEFEEDBACKSTATUS");
    reveal_strlit("UINPUT");
    assert("SYNCHRONIZATION"@.len() == 15);
    assert("KEY"@.len() == 3);
    assert("KEY"@[0] == 'K');
    assert("KEY"@[2] == 'Y');
    assert("RELATIVE"@.len() == 8);
    assert("RELATIVE"@[0] == 'R');
    assert("RELATIVE"@[1] == 'E');
    assert("RELATIVE"@[2] == 'L');
    assert("RELATIVE"@[3] == 'A');
    assert("RELATIVE"@[4] == 'T');
    assert("RELATIVE"@[5] == 'I');
    assert("RELATIVE"@[6] == 'V');
    assert("ABSOLUTE"@.len() == 8);
    assert("ABSOLUTE"@[0] == 'A');
    assert("ABSOLUTE"@[1] == 'B');
    assert("ABSOLUTE"@[2] == 'S');
    assert("ABSOLUTE"@[3] == 'O');
    assert("ABSOLUTE"@[4] == 'L');
    assert("ABSOLUTE"@[5] == 'U');
    assert("ABSOLUTE"@[6] == 'T');
    assert("MISC"@.len() == 4);
    assert("SWITCH"@.len() == 6);
    assert("SWITCH"@[0] == 'S');
    assert("SWITCH"@[1] == 'W');
    assert("SWITCH"@[2] == 'I');
    assert("SWITCH"@[3] == 'T');
    assert("SWITCH"@[4] == 'C');
    assert("SWITCH"@[5] == 'H');
    assert("LED"@.len() == 3);
    assert("LED"@[0] == 'L');
    assert("LED"@[2] == 'D');
    assert("SOUND"@.len() == 5);
    assert("SOUND"@[0] == 'S');
    assert("SOUND"@[2] == 'U');
    assert("SOUND"@[3] == 'N');
    assert("SOUND"@[4] == 'D');
    assert("REPEAT"@.len() == 6);
    assert("REPEAT"@[0] == 'R');
    assert("REPEAT"@[1] == 'E');
    assert("REPEAT"@[2] == 'P');
    assert("REPEAT"@[3] == 'E');
    assert("REPEAT"@[4] == 'A');
    assert("REPEAT"@[5] == 'T');
    assert("FORCEFEEDBACK"@.len() == 13);
    assert("POWER"@.len() == 5);
    assert("POWER"@[0] == 'P');
    assert("POWER"@[2] == 'W');
    assert("POWER"@[3] == 'E');
    assert("POWER"@[4] == 'R');
    assert("FORCEFEEDBACKSTATUS"@.len() == 19);
    assert("UINPUT"@.len() == 6);
    assert("UINPUT"@[0] == 'U');
    assert("UINPUT"@[1] == 'I');
    assert("UINPUT"@[2] == 'N');
    assert("UINPUT"@[3] == 'P');
    assert("UINPUT"@[4] == 'U');
    assert("UINPUT"@[5] == 'T');
}

/// Parsing the name of a event type gives its code back, and a parsed code is named
/// by exactly the name that was parsed.
pub proof fn law_event_type_name_parse(c: u16, n: Seq<char>)
    ensures
        event_type_name(c) matches Some(m) ==> event_type_code(m) == Some(c),
        event_type_code(n) matches Some(d) ==> event_type_name(d) == Some(n),
{
    law_event_type_names();
}

/// Each synchronization code constant is named by its own identifier, and parsing that
/// identifier gives back the constant.
pub proof fn law_synchronization_names()
    ensures
        synchronization_name(Synchronization::SYN_REPORT) == Some("SYN_REPORT"@),
        synchronization_name(Synchronization::SYN_CONFIG) == Some("SYN_CONFIG"@),
        synchronization_name(Synchronization::SYN_MT_REPORT) == Some("SYN_MT_REPORT"@),
        synchronization_name(Synchronization::SYN_DROPPED) == Some("SYN_DROPPED"@),
        synchronization_code("SYN_REPORT"@) == Some(Synchronization::SYN_REPORT),
        synchronization_code("SYN_CONFIG"@) == Some(Synchronization::SYN_CONFIG),
        synchronization_code("SYN_MT_REPORT"@) == Some(Synchronization::SYN_MT_REPORT),
        synchronization_code("SYN_DROPPED"@) == Some(Synchronization::SYN_DROPPED),
{
    reveal_strlit("SYN_REPORT");
    reveal_strlit("SYN_CONFIG");
    reveal_strlit("SYN_MT_REPORT");
    reveal_strlit("SYN_DROPPED");
    assert("SYN_REPORT"@.len() == 10);
    assert("SYN_REPORT"@[4] == 'R');
    assert("SYN_REPORT"@[5] == 'E');
    assert("SYN_REPORT"@[6] == 'P');
    assert("SYN_REPORT"@[7] == 'O');
    assert("SYN_REPORT"@[8] == 'R');
    assert("SYN_REPORT"@[9] == 'T');
    assert("SYN_CONFIG"@.len() == 10);
    assert("SYN_CONFIG"@[4] == 'C');
    assert("SYN_CONFIG"@[5] == 'O');
    assert("SYN_CONFIG"@[6] == 'N');
    assert("SYN_CONFIG"@[7] == 'F');
    assert("SYN_CONFIG"@[8] == 'I');
    assert("SYN_CONFIG"@[9] == 'G');
    assert("SYN_MT_REPORT"@.len() == 13);
    assert("SYN_DROPPED"@.len() == 11);
}

/// Parsing the name of a synchronization code gives its code back, and a parsed code is named
/// by exactly the name that was parsed.
pub proof fn law_synchronization_name_parse(c: u16, n: Seq<char>)
    ensures
        synchronization_name(c) matches Some(m) ==> synchronization_code(m) == Some(c),
        synchronization_code(n) matches Some(d) ==> synchronization_name(d) == Some(n),
{
    law_synchronization_names();
}

/// Each property constant is named by its own identifier, and parsing that
/// identifier gives back the constant.
pub proof fn law_prop_type_names()
    ensures
        prop_type_name(PropType::POINTER) == Some("POINTER"@),
        prop_type_name(PropType::DIRECT) == Some("DIRECT"@),
        prop_type_name(PropType::BUTTONPAD) == Some("BUTTONPAD"@),
        prop_type_name(PropType::SEMI_MT) == Some("SEMI_MT"@),
        prop_type_name(PropType::TOPBUTTONPAD) == Some("TOPBUTTONPAD"@),
        prop_type_name(PropType::POINTING_STICK) == Some("POINTING_STICK"@),
        prop_type_name(PropType::ACCELEROMETER) == Some("ACCELEROMETER"@),
        prop_type_code("POINTER"@) == Some(PropType::POINTER),
        prop_type_code("DIRECT"@) == Some(PropType::DIRECT),
        prop_type_code("BUTTONPAD"@) == Some(PropType::BUTTONPAD),
        prop_type_code("SEMI_MT"@) == Some(PropType::SEMI_MT),
        prop_type_code("TOPBUTTONPAD"@) == Some(PropType::TOPBUTTONPAD),
        prop_type_code("POINTING_STICK"@) == Some(PropType::POINTING_STICK),
        prop_type_code("ACCELEROMETER"@) == Some(PropType::ACCELEROMETER),
{
    reveal_strlit("POINTER");
    reveal_strlit("DIRECT");
    reveal_strlit("BUTTONPAD");
    reveal_strlit("SEMI_MT");
    reveal_strlit("TOPBUTTONPAD");
    reveal_strlit("POINTING_STICK");
    reveal_strlit("ACCELEROMETER");
    assert("POINTER"@.len() == 7);
    assert("POINTER"@[0] == 'P');
    assert("POINTER"@[1] == 'O');
    assert("POINTER"@[2] == 'I');
    assert("POINTER"@[3] == 'N');
    assert("POINTER"@[4] == 'T');
    assert("POINTER"@[5] == 'E');
    assert("POINTER"@[6] == 'R');
    assert("DIRECT"@.len() == 6);
    assert("BUTTONPAD"@.len() == 9);
    assert("SEMI_MT"@.len() == 7);
    assert("SEMI_MT"@[0] == 'S');
    assert("SEMI_MT"@[1] == 'E');
    assert("SEMI_MT"@[2] == 'M');
    assert("SEMI_MT"@[3] == 'I');
    assert("SEMI_MT"@[4] == '_');
    assert("SEMI_MT"@[5] == 'M');
    assert("SEMI_MT"@[6] == 'T');
    assert("TOPBUTTONPAD"@.len() == 12);
    assert("POINTING_STICK"@.len() == 14);
    assert("ACCELEROMETER"@.len() == 13);
}

/// Parsing the name of a property gives its code back, and a parsed code is named
/// by exactly the name that was parsed.
pub proof fn law_prop_type_name_parse(c: u16, n: Seq<char>)
    ensures
        prop_type_name(c) matches Some(m) ==> prop_type_code(m) == Some(c),
        prop_type_code(n) matches Some(d) ==> prop_type_name(d) == Some(n),
{
    law_prop_type_names();
}

/// Each relative axis constant is named by its own identifier, and parsing that
/// identifier gives back the constant.
pub proof fn law_relative_axis_type_names()
    ensures
        relative_axis_type_name(RelativeAxisType::REL_X) == Some("REL_X"@),
        relative_axis_type_name(RelativeAxisType::REL_Y) == Some("REL_Y"@),
        relative_axis_type_name(RelativeAxisType::REL_Z) == Some("REL_Z"@),
        relative_axis_type_name(RelativeAxisType::REL_RX) == Some("REL_RX"@),
        relative_axis_type_name(RelativeAxisType::REL_RY) == Some("REL_RY"@),
        relative_axis_type_name(RelativeAxisType::REL_RZ) == Some("REL_RZ"@),
        relative_axis_type_name(RelativeAxisType::REL_HWHEEL) == Some("REL_HWHEEL"@),
        relative_axis_type_name(RelativeAxisType::REL_DIAL) == Some("REL_DIAL"@),
        relative_axis_type_name(RelativeAxisType::REL_WHEEL) == Some("REL_WHEEL"@),
        relative_axis_type_name(RelativeAxisType::REL_MISC) == Some("REL_MISC"@),
        relative_axis_type_name(RelativeAxisType::REL_RESERVED) == Some("REL_RESERVED"@),
        relative_axis_type_name(RelativeAxisType::REL_WHEEL_HI_RES) == Some("REL_WHEEL_HI_RES"@),
        relative_axis_type_name(RelativeAxisType::REL_HWHEEL_HI_RES) == Some("REL_HWHEEL_HI_RES"@),
        relative_axis_type_code("REL_X"@) == Some(RelativeAxisType::REL_X),
        relative_axis_type_code("REL_Y"@) == Some(RelativeAxisType::REL_Y),
        relative_axis_type_code("REL_Z"@) == Some(RelativeAxisType::REL_Z),
        relative_axis_type_code("REL_RX"@) == Some(RelativeAxisType::REL_RX),
        relative_axis_type_code("REL_RY"@) == Some(RelativeAxisType::REL_RY),
        relative_axis_type_code("REL_RZ"@) == Some(RelativeAxisType::REL_RZ),
        relative_axis_type_code("REL_HWHEEL"@) == Some(RelativeAxisType::REL_HWHEEL),
        relative_axis_type_code("REL_DIAL"@) == Some(RelativeAxisType::REL_DIAL),
        relative_axis_type_code("REL_WHEEL"@) == Some(RelativeAxisType::REL_WHEEL),
        relative_axis_type_code("REL_MISC"@) == Some(RelativeAxisType::REL_MISC),
        relative_axis_type_code("REL_RESERVED"@) == Some(RelativeAxisType::REL_RESERVED),
        relative_axis_type_code("REL_WHEEL_HI_RES"@) == Some(RelativeAxisType::REL_WHEEL_HI_RES),
        relative_axis_type_code("REL_HWHEEL_HI_RES"@) == Some(RelativeAxisType::REL_HWHEEL_HI_RES),
{
    reveal_strlit("REL_X");
    reveal_strlit("REL_Y");
    reveal_strlit("REL_Z");
    reveal_strlit("REL_RX");
    reveal_strlit("REL_RY");
    reveal_strlit("REL_RZ");
    reveal_strlit("REL_HWHEEL");
    reveal_strlit("REL_DIAL");
    reveal_strlit("REL_WHEEL");
    reveal_strlit("REL_MISC");
    reveal_strlit("REL_RESERVED");
    reveal_strlit("REL_WHEEL_HI_RES");
    reveal_strlit("REL_HWHEEL_HI_RES");
    assert("REL_X"@.len() == 5);
    assert("REL_X"@[4] == 'X');
    assert("REL_Y"@.len() == 5);
    assert("REL_Y"@[4] == 'Y');
    assert("REL_Z"@.len() == 5);
    assert("REL_Z"@[4] == 'Z');
    assert("REL_RX"@.len() == 6);
    assert("REL_RX"@[5] == 'X');
    assert("REL_RY"@.len() == 6);
    assert("REL_RY"@[5] == 'Y');
    assert("REL_RZ"@.len() == 6);
    assert("REL_RZ"@[5] == 'Z');
    assert("REL_HWHEEL"@.len() == 10);
    assert("REL_DIAL"@.len() == 8);
    assert("REL_DIAL"@[4] == 'D');
    assert("REL_DIAL"@[6] == 'A');
    assert("REL_DIAL"@[7] == 'L');
    assert("REL_WHEEL"@.len() == 9);
    assert("REL_MISC"@.len() == 8);
    assert("REL_MISC"@[4] == 'M');
    assert("REL_MISC"@[6] == 'S');
    assert("REL_MISC"@[7] == 'C');
    assert("REL_RESERVED"@.len() == 12);
    assert("REL_WHEEL_HI_RES"@.len() == 16);
    assert("REL_HWHEEL_HI_RES"@.len() == 17);
}

/// Parsing the name of a relative axis gives its code back, and a parsed code is named
/// by exactly the name that was parsed.
pub proof fn law_relative_axis_type_name_parse(c: u16, n: Seq<char>)
    ensures
        relative_axis_type_name(c) matches Some(m) ==> relative_axis_type_code(m) == Some(c),
        relative_axis_type_code(n) matches Some(d) ==> relative_axis_type_name(d) == Some(n),
{
    law_relative_axis_type_names();
}

/// Each absolute axis constant is named by its own identifier, and parsing that
/// identifier gives back the constant.
pub proof fn law_absolute_axis_type_names()
    ensures
        absolute_axis_type_name(AbsoluteAxisType::ABS_X) == Some("ABS_X"@),
        absolute_axis_type_name(AbsoluteAxisType::ABS_Y) == Some("ABS_Y"@),
        absolute_axis_type_name(AbsoluteAxisType::ABS_Z) == Some("ABS_Z"@),
        absolute_axis_type_name(AbsoluteAxisType::ABS_RX) == Some("ABS_RX"@),
        absolute_axis_type_name(AbsoluteAxisType::ABS_RY) == Some("ABS_RY"@),
        absolute_axis_type_name(AbsoluteAxisType::ABS_RZ) == Some("ABS_RZ"@),
        absolute_axis_type_name(AbsoluteAxisType::ABS_THROTTLE) == Some("ABS_THROTTLE"@),
        absolute_axis_type_name(AbsoluteAxisType::ABS_RUDDER) == Some("ABS_RUDDER"@),
        absolute_axis_type_name(AbsoluteAxisType::ABS_WHEEL) == Some("ABS_WHEEL"@),
        absolute_axis_type_name(AbsoluteAxisType::ABS_GAS) == Some("ABS_GAS"@),
        absolute_axis_type_name(AbsoluteAxisType::ABS_BRAKE) == Some("ABS_BRAKE"@),
        absolute_axis_type_name(AbsoluteAxisType::ABS_HAT0X) == Some("ABS_HAT0X"@),
        absolute_axis_type_name(AbsoluteAxisType::ABS_HAT0Y) == Some("ABS_HAT0Y"@),
        absolute_axis_type_name(AbsoluteAxisType::ABS_HAT1X) == Some("ABS_HAT1X"@),
        absolute_axis_type_name(AbsoluteAxisType::ABS_HAT1Y) == Some("ABS_HAT1Y"@),
        absolute_axis_type_name(AbsoluteAxisType::ABS_HAT2X) == Some("ABS_HAT2X"@),
        absolute_axis_type_name(AbsoluteAxisType::ABS_HAT2Y) == Some("ABS_HAT2Y"@),
        absolute_axis_type_name(AbsoluteAxisType::ABS_HAT3X) == Some("ABS_HAT3X"@),
        absolute_axis_type_name(AbsoluteAxisType::ABS_HAT3Y) == Some("ABS_HAT3Y"@),
        absolute_axis_type_name(AbsoluteAxisType::ABS_PRESSURE) == Some("ABS_PRESSURE"@),
        absolute_axis_type_name(AbsoluteAxisType::ABS_DISTANCE) == Some("ABS_DISTANCE"@),
        absolute_axis_type_name(AbsoluteAxisType::ABS_TILT_X) == Some("ABS_TILT_X"@),
        absolute_axis_type_name(AbsoluteAxisType::ABS_TILT_Y) == Some("ABS_TILT_Y"@),
        absolute_axis_type_name(AbsoluteAxisType::ABS_TOOL_WIDTH) == Some("ABS_TOOL_WIDTH"@),
        absolute_axis_type_name(AbsoluteAxisType::ABS_VOLUME) == Some("ABS_VOLUME"@),
        absolute_axis_type_name(AbsoluteAxisType::ABS_MISC) == Some("ABS_MISC"@),
        absolute_axis_type_name(AbsoluteAxisType::ABS_MT_SLOT) == Some("ABS_MT_SLOT"@),
        absolute_axis_type_name(AbsoluteAxisType::ABS_MT_TOUCH_MAJOR) == Some("ABS_MT_TOUCH_MAJOR"@),
        absolute_axis_type_name(AbsoluteAxisType::ABS_MT_TOUCH_MINOR) == Some("ABS_MT_TOUCH_MINOR"@),
        absolute_axis_type_name(AbsoluteAxisType::ABS_MT_WIDTH_MAJOR) == Some("ABS_MT_WIDTH_MAJOR"@),
        absolute_axis_type_name(AbsoluteAxisType::ABS_MT_WIDTH_MINOR) == Some("ABS_MT_WIDTH_MINOR"@),
        absolute_axis_type_name(AbsoluteAxisType::ABS_MT_ORIENTATION) == Some("ABS_MT_ORIENTATION"@),
        absolute_axis_type_name(AbsoluteAxisType::ABS_MT_POSITION_X) == Some("ABS_MT_POSITION_X"@),
        absolute_axis_type_name(AbsoluteAxisType::ABS_MT_POSITION_Y) == Some("ABS_MT_POSITION_Y"@),
        absolute_axis_type_name(AbsoluteAxisType::ABS_MT_TOOL_TYPE) == Some("ABS_MT_TOOL_TYPE"@),
        absolute_axis_type_name(AbsoluteAxisType::ABS_MT_BLOB_ID) == Some("ABS_MT_BLOB_ID"@),
        absolute_axis_type_name(AbsoluteAxisType::ABS_MT_TRACKING_ID) == Some("ABS_MT_TRACKING_ID"@),
        absolute_axis_type_name(AbsoluteAxisType::ABS_MT_PRESSURE) == Some("ABS_MT_PRESSURE"@),
        absolute_axis_type_name(AbsoluteAxisType::ABS_MT_DISTANCE) == Some("ABS_MT_DISTANCE"@),
        absolute_axis_type_name(AbsoluteAxisType::ABS_MT_TOOL_X) == Some("ABS_MT_TOOL_X"@),
        absolute_axis_type_name(AbsoluteAxisType::ABS_MT_TOOL_Y) == Some("ABS_MT_TOOL_Y"@),
        absolute_axis_type_code("ABS_X"@) == Some(AbsoluteAxisType::ABS_X),
        absolute_axis_type_code("ABS_Y"@) == Some(AbsoluteAxisType::ABS_Y),
        absolute_axis_type_code("ABS_Z"@) == Some(AbsoluteAxisType::ABS_Z),
        absolute_axis_type_code("ABS_RX"@) == Some(AbsoluteAxisType::ABS_RX),
        absolute_axis_type_code("ABS_RY"@) == Some(AbsoluteAxisType::ABS_RY),
        absolute_axis_type_code("ABS_RZ"@) == Some(AbsoluteAxisType::ABS_RZ),
        absolute_axis_type_code("ABS_THROTTLE"@) == Some(AbsoluteAxisType::ABS_THROTTLE),
        absolute_axis_type_code("ABS_RUDDER"@) == Some(AbsoluteAxisType::ABS_RUDDER),
        absolute_axis_type_code("ABS_WHEEL"@) == Some(AbsoluteAxisType::ABS_WHEEL),
        absolute_axis_type_code("ABS_GAS"@) == Some(AbsoluteAxisType::ABS_GAS),
        absolute_axis_type_code("ABS_BRAKE"@) == Some(AbsoluteAxisType::ABS_BRAKE),
        absolute_axis_type_code("ABS_HAT0X"@) == Some(AbsoluteAxisType::ABS_HAT0X),
        absolute_axis_type_code("ABS_HAT0Y"@) == Some(AbsoluteAxisType::ABS_HAT0Y),
        absolute_axis_type_code("ABS_HAT1X"@) == Some(AbsoluteAxisType::ABS_HAT1X),
        absolute_axis_type_code("ABS_HAT1Y"@) == Some(AbsoluteAxisType::ABS_HAT1Y),
        absolute_axis_type_code("ABS_HAT2X"@) == Some(AbsoluteAxisType::ABS_HAT2X),
        absolute_axis_type_code("ABS_HAT2Y"@) == Some(AbsoluteAxisType::ABS_HAT2Y),
        absolute_axis_type_code("ABS_HAT3X"@) == Some(AbsoluteAxisType::ABS_HAT3X),
        absolute_axis_type_code("ABS_HAT3Y"@) == Some(AbsoluteAxisType::ABS_HAT3Y),
        absolute_axis_type_code("ABS_PRESSURE"@) == Some(AbsoluteAxisType::ABS_PRESSURE),
        absolute_axis_type_code("ABS_DISTANCE"@) == Some(AbsoluteAxisType::ABS_DISTANCE),
        absolute_axis_type_code("ABS_TILT_X"@) == Some(AbsoluteAxisType::ABS_TILT_X),
        absolute_axis_type_code("ABS_TILT_Y"@) == Some(AbsoluteAxisType::ABS_TILT_Y),
        absolute_axis_type_code("ABS_TOOL_WIDTH"@) == Some(AbsoluteAxisType::ABS_TOOL_WIDTH),
        absolute_axis_type_code("ABS_VOLUME"@) == Some(AbsoluteAxisType::ABS_VOLUME),
        absolute_axis_type_code("ABS_MISC"@) == Some(AbsoluteAxisType::ABS_MISC),
        absolute_axis_type_code("ABS_MT_SLOT"@) == Some(AbsoluteAxisType::ABS_MT_SLOT),
        absolute_axis_type_code("ABS_MT_TOUCH_MAJOR"@) == Some(AbsoluteAxisType::ABS_MT_TOUCH_MAJOR),
        absolute_axis_type_code("ABS_MT_TOUCH_MINOR"@) == Some(AbsoluteAxisType::ABS_MT_TOUCH_MINOR),
        absolute_axis_type_code("ABS_MT_WIDTH_MAJOR"@) == Some(AbsoluteAxisType::ABS_MT_WIDTH_MAJOR),
        absolute_axis_type_code("ABS_MT_WIDTH_MINOR"@) == Some(AbsoluteAxisType::ABS_MT_WIDTH_MINOR),
        absolute_axis_type_code("ABS_MT_ORIENTATION"@) == Some(AbsoluteAxisType::ABS_MT_ORIENTATION),
        absolute_axis_type_code("ABS_MT_POSITION_X"@) == Some(AbsoluteAxisType::ABS_MT_POSITION_X),
        absolute_axis_type_code("ABS_MT_POSITION_Y"@) == Some(AbsoluteAxisType::ABS_MT_POSITION_Y),
        absolute_axis_type_code("ABS_MT_TOOL_TYPE"@) == Some(AbsoluteAxisType::ABS_MT_TOOL_TYPE),
        absolute_axis_type_code("ABS_MT_BLOB_ID"@) == Some(AbsoluteAxisType::ABS_MT_BLOB_ID),
        absolute_axis_type_code("ABS_MT_TRACKING_ID"@) == Some(AbsoluteAxisType::ABS_MT_TRACKING_ID),
        absolute_axis_type_code("ABS_MT_PRESSURE"@) == Some(AbsoluteAxisType::ABS_MT_PRESSURE),
        absolute_axis_type_code("ABS_MT_DISTANCE"@) == Some(AbsoluteAxisType::ABS_MT_DISTANCE),
        absolute_axis_type_code("ABS_MT_TOOL_X"@) == Some(AbsoluteAxisType::ABS_MT_TOOL_X),
        absolute_axis_type_code("ABS_MT_TOOL_Y"@) == Some(AbsoluteAxisType::ABS_MT_TOOL_Y),
{
    reveal_strlit("ABS_X");
    reveal_strlit("ABS_Y");
    reveal_strlit("ABS_Z");
    reveal_strlit("ABS_RX");
    reveal_strlit("ABS_RY");
    reveal_strlit("ABS_RZ");
    reveal_strlit("ABS_THROTTLE");
    reveal_strlit("ABS_RUDDER");
    reveal_strlit("ABS_WHEEL");
    reveal_strlit("ABS_GAS");
    reveal_strlit("ABS_BRAKE");
    reveal_strlit("ABS_HAT0X");
    reveal_strlit("ABS_HAT0Y");
    reveal_strlit("ABS_HAT1X");
    reveal_strlit("ABS_HAT1Y");
    reveal_strlit("ABS_HAT2X");
    reveal_strlit("ABS_HAT2Y");
    reveal_strlit("ABS_HAT3X");
    reveal_strlit("ABS_HAT3Y");
    reveal_strlit("ABS_PRESSURE");
    reveal_strlit("ABS_DISTANCE");
    reveal_strlit("ABS_TILT_X");
    reveal_strlit("ABS_TILT_Y");
    reveal_strlit("ABS_TOOL_WIDTH");
    reveal_strlit("ABS_VOLUME");
    reveal_strlit("ABS_MISC");
    reveal_strlit("ABS_MT_SLOT");
    reveal_strlit("ABS_MT_TOUCH_MAJOR");
    reveal_strlit("ABS_MT_TOUCH_MINOR");
    reveal_strlit("ABS_MT_WIDTH_MAJOR");
    reveal_strlit("ABS_MT_WIDTH_MINOR");
    reveal_strlit("ABS_MT_ORIENTATION");
    reveal_strlit("ABS_MT_POSITION_X");
    reveal_strlit("ABS_MT_POSITION_Y");
    reveal_strlit("ABS_MT_TOOL_TYPE");
    reveal_strlit("ABS_MT_BLOB_ID");
    reveal_strlit("ABS_MT_TRACKING_ID");
    reveal_strlit("ABS_MT_PRESSURE");
    reveal_strlit("ABS_MT_DISTANCE");
    reveal_strlit("ABS_MT_TOOL_X");
    reveal_strlit("ABS_MT_TOOL_Y");
    assert("ABS_X"@.len() == 5);
    assert("ABS_X"@[4] == 'X');
    assert("ABS_Y"@.len() == 5);
    assert("ABS_Y"@[4] == 'Y');
    assert("ABS_Z"@.len() == 5);
    assert("ABS_Z"@[4] == 'Z');
    assert("ABS_RX"@.len() == 6);
    assert("ABS_RX"@[5] == 'X');
    assert("ABS_RY"@.len() == 6);
    assert("ABS_RY"@[5] == 'Y');
    assert("ABS_RZ"@.len() == 6);
    assert("ABS_RZ"@[5] == 'Z');
    assert("ABS_THROTTLE"@.len() == 12);
    assert("ABS_THROTTLE"@[4] == 'T');
    assert("ABS_THROTTLE"@[5] == 'H');
    assert("ABS_THROTTLE"@[6] == 'R');
    assert("ABS_THROTTLE"@[7] == 'O');
    assert("ABS_THROTTLE"@[8] == 'T');
    assert("ABS_THROTTLE"@[9] == 'T');
    assert("ABS_THROTTLE"@[10] == 'L');
    assert("ABS_RUDDER"@.len() == 10);
    assert("ABS_RUDDER"@[4] == 'R');
    assert("ABS_RUDDER"@[5] == 'U');
    assert("ABS_RUDDER"@[6] == 'D');
    assert("ABS_RUDDER"@[7] == 'D');
    assert("ABS_RUDDER"@[8] == 'E');
    assert("ABS_RUDDER"@[9] == 'R');
    assert("ABS_WHEEL"@.len() == 9);
    assert("ABS_WHEEL"@[4] == 'W');
    assert("ABS_WHEEL"@[5] == 'H');
    assert("ABS_WHEEL"@[6] == 'E');
    assert("ABS_WHEEL"@[7] == 'E');
    assert("ABS_WHEEL"@[8] == 'L');
    assert("ABS_GAS"@.len() == 7);
    assert("ABS_BRAKE"@.len() == 9);
    assert("ABS_BRAKE"@[4] == 'B');
    assert("ABS_BRAKE"@[5] == 'R');
    assert("ABS_BRAKE"@[6] == 'A');
    assert("ABS_BRAKE"@[7] == 'K');
    assert("ABS_BRAKE"@[8] == 'E');
    assert("ABS_HAT0X"@.len() == 9);
    assert("ABS_HAT0X"@[4] == 'H');
    assert("ABS_HAT0X"@[5] == 'A');
    assert("ABS_HAT0X"@[6] == 'T');
    assert("ABS_HAT0X"@[7] == '0');
    assert("ABS_HAT0X"@[8] == 'X');
    assert("ABS_HAT0Y"@.len() == 9);
    assert("ABS_HAT0Y"@[4] == 'H');
    assert("ABS_HAT0Y"@[5] == 'A');
    assert("ABS_HAT0Y"@[6] == 'T');
    assert("ABS_HAT0Y"@[7] == '0');
    assert("ABS_HAT0Y"@[8] == 'Y');
    assert("ABS_HAT1X"@.len() == 9);
    assert("ABS_HAT1X"@[4] == 'H');
    assert("ABS_HAT1X"@[5] == 'A');
    assert("ABS_HAT1X"@[6] == 'T');
    assert("ABS_HAT1X"@[7] == '1');
    assert("ABS_HAT1X"@[8] == 'X');
    assert("ABS_HAT1Y"@.len() == 9);
    assert("ABS_HAT1Y"@[4] == 'H');
    assert("ABS_HAT1Y"@[5] == 'A');
    assert("ABS_HAT1Y"@[6] == 'T');
    assert("ABS_HAT1Y"@[7] == '1');
    assert("ABS_HAT1Y"@[8] == 'Y');
    assert("ABS_HAT2X"@.len() == 9);
    assert("ABS_HAT2X"@[4] == 'H');
    assert("ABS_HAT2X"@[5] == 'A');
    assert("ABS_HAT2X"@[6] == 'T');
    assert("ABS_HAT2X"@[7] == '2');
    assert("ABS_HAT2X"@[8] == 'X');
    assert("ABS_HAT2Y"@.len() == 9);
    assert("ABS_HAT2Y"@[4] == 'H');
    assert("ABS_HAT2Y"@[5] == 'A');
    assert("ABS_HAT2Y"@[6] == 'T');
    assert("ABS_HAT2Y"@[7] == '2');
    assert("ABS_HAT2Y"@[8] == 'Y');
    assert("ABS_HAT3X"@.len() == 9);
    assert("ABS_HAT3X"@[4] == 'H');
    assert("ABS_HAT3X"@[5] == 'A');
    assert("ABS_HAT3X"@[6] == 'T');
    assert("ABS_HAT3X"@[7] == '3');
    assert("ABS_HAT3X"@[8] == 'X');
    assert("ABS_HAT3Y"@.len() == 9);
    assert("ABS_HAT3Y"@[4] == 'H');
    assert("ABS_HAT3Y"@[5] == 'A');
    assert("ABS_HAT3Y"@[6] == 'T');
    assert("ABS_HAT3Y"@[7] == '3');
    assert("ABS_HAT3Y"@[8] == 'Y');
    assert("ABS_PRESSURE"@.len() == 12);
    assert("ABS_PRESSURE"@[4] == 'P');
    assert("ABS_PRESSURE"@[5] == 'R');
    assert("ABS_PRESSURE"@[6] == 'E');
    assert("ABS_PRESSURE"@[7] == 'S');
    assert("ABS_PRESSURE"@[8] == 'S');
    assert("ABS_PRESSURE"@[9] == 'U');
    assert("ABS_PRESSURE"@[10] == 'R');
    assert("ABS_DISTANCE"@.len() == 12);
    assert("ABS_DISTANCE"@[4] == 'D');
    assert("ABS_DISTANCE"@[5] == 'I');
    assert("ABS_DISTANCE"@[6] == 'S');
    assert("ABS_DISTANCE"@[7] == 'T');
    assert("ABS_DISTANCE"@[8] == 'A');
    assert("ABS_DISTANCE"@[9] == 'N');
    assert("ABS_DISTANCE"@[10] == 'C');
    assert("ABS_TILT_X"@.len() == 10);
    assert("ABS_TILT_X"@[4] == 'T');
    assert("ABS_TILT_X"@[5] == 'I');
    assert("ABS_TILT_X"@[6] == 'L');
    assert("ABS_TILT_X"@[7] == 'T');
    assert("ABS_TILT_X"@[8] == '_');
    assert("ABS_TILT_X"@[9] == 'X');
    assert("ABS_TILT_Y"@.len() == 10);
    assert("ABS_TILT_Y"@[4] == 'T');
    assert("ABS_TILT_Y"@[5] == 'I');
    assert("ABS_TILT_Y"@[6] == 'L');
    assert("ABS_TILT_Y"@[7] == 'T');
    assert("ABS_TILT_Y"@[8] == '_');
    assert("ABS_TILT_Y"@[9] == 'Y');
    assert("ABS_TOOL_WIDTH"@.len() == 14);
    assert("ABS_TOOL_WIDTH"@[4] == 'T');
    assert("ABS_TOOL_WIDTH"@[5] == 'O');
    assert("ABS_TOOL_WIDTH"@[6] == 'O');
    assert("ABS_TOOL_WIDTH"@[7] == 'L');
    assert("ABS_TOOL_WIDTH"@[8] == '_');
    assert("ABS_TOOL_WIDTH"@[9] == 'W');
    assert("ABS_TOOL_WIDTH"@[10] == 'I');
    assert("ABS_TOOL_WIDTH"@[11] == 'D');
    assert("ABS_TOOL_WIDTH"@[12] == 'T');
    assert("ABS_TOOL_WIDTH"@[13] == 'H');
    assert("ABS_VOLUME"@.len() == 10);
    assert("ABS_VOLUME"@[4] == 'V');
    assert("ABS_VOLUME"@[5] == 'O');
    assert("ABS_VOLUME"@[6] == 'L');
    assert("ABS_VOLUME"@[7] == 'U');
    assert("ABS_VOLUME"@[8] == 'M');
    assert("ABS_VOLUME"@[9] == 'E');
    assert("ABS_MISC"@.len() == 8);
    assert("ABS_MT_SLOT"@.len() == 11);
    assert("ABS_MT_TOUCH_MAJOR"@.len() == 18);
    assert("ABS_MT_TOUCH_MAJOR"@[7] == 'T');
    assert("ABS_MT_TOUCH_MAJOR"@[8] == 'O');
    assert("ABS_MT_TOUCH_MAJOR"@[9] == 'U');
    assert("ABS_MT_TOUCH_MAJOR"@[10] == 'C');
    assert("ABS_MT_TOUCH_MAJOR"@[11] == 'H');
    assert("ABS_MT_TOUCH_MAJOR"@[12] == '_');
    assert("ABS_MT_TOUCH_MAJOR"@[13] == 'M');
    assert("ABS_MT_TOUCH_MAJOR"@[14] == 'A');
    assert("ABS_MT_TOUCH_MAJOR"@[15] == 'J');
    assert("ABS_MT_TOUCH_MAJOR"@[16] == 'O');
    assert("ABS_MT_TOUCH_MAJOR"@[17] == 'R');
    assert("ABS_MT_TOUCH_MINOR"@.len() == 18);
    assert("ABS_MT_TOUCH_MINOR"@[7] == 'T');
    assert("ABS_MT_TOUCH_MINOR"@[8] == 'O');
    assert("ABS_MT_TOUCH_MINOR"@[9] == 'U');
    assert("ABS_MT_TOUCH_MINOR"@[10] == 'C');
    assert("ABS_MT_TOUCH_MINOR"@[11] == 'H');
    assert("ABS_MT_TOUCH_MINOR"@[12] == '_');
    assert("ABS_MT_TOUCH_MINOR"@[13] == 'M');
    assert("ABS_MT_TOUCH_MINOR"@[14] == 'I');
    assert("ABS_MT_TOUCH_MINOR"@[15] == 'N');
    assert("ABS_MT_TOUCH_MINOR"@[16] == 'O');
    assert("ABS_MT_TOUCH_MINOR"@[17] == 'R');
    assert("ABS_MT_WIDTH_MAJOR"@.len() == 18);
    assert("ABS_MT_WIDTH_MAJOR"@[7] == 'W');
    assert("ABS_MT_WIDTH_MAJOR"@[8] == 'I');
    assert("ABS_MT_WIDTH_MAJOR"@[9] == 'D');
    assert("ABS_MT_WIDTH_MAJOR"@[10] == 'T');
    assert("ABS_MT_WIDTH_MAJOR"@[11] == 'H');
    assert("ABS_MT_WIDTH_MAJOR"@[12] == '_');
    assert("ABS_MT_WIDTH_MAJOR"@[13] == 'M');
    assert("ABS_MT_WIDTH_MAJOR"@[14] == 'A');
    assert("ABS_MT_WIDTH_MAJOR"@[15] == 'J');
    assert("ABS_MT_WIDTH_MAJOR"@[16] == 'O');
    assert("ABS_MT_WIDTH_MAJOR"@[17] == 'R');
    assert("ABS_MT_WIDTH_MINOR"@.len() == 18);
    assert("ABS_MT_WIDTH_MINOR"@[7] == 'W');
    assert("ABS_MT_WIDTH_MINOR"@[8] == 'I');
    assert("ABS_MT_WIDTH_MINOR"@[9] == 'D');
    assert("ABS_MT_WIDTH_MINOR"@[10] == 'T');
    assert("ABS_MT_WIDTH_MINOR"@[11] == 'H');
    assert("ABS_MT_WIDTH_MINOR"@[12] == '_');
    assert("ABS_MT_WIDTH_MINOR"@[13] == 'M');
    assert("ABS_MT_WIDTH_MINOR"@[14] == 'I');
    assert("ABS_MT_WIDTH_MINOR"@[15] == 'N');
    assert("ABS_MT_WIDTH_MINOR"@[16] == 'O');
    assert("ABS_MT_WIDTH_MINOR"@[17] == 'R');
    assert("ABS_MT_ORIENTATION"@.len() == 18);
    assert("ABS_MT_ORIENTATION"@[7] == 'O');
    assert("ABS_MT_ORIENTATION"@[8] == 'R');
    assert("ABS_MT_ORIENTATION"@[9] == 'I');
    assert("ABS_MT_ORIENTATION"@[10] == 'E');
    assert("ABS_MT_ORIENTATION"@[11] == 'N');
    assert("ABS_MT_ORIENTATION"@[12] == 'T');
    assert("ABS_MT_ORIENTATION"@[13] == 'A');
    assert("ABS_MT_ORIENTATION"@[14] == 'T');
    assert("ABS_MT_ORIENTATION"@[15] == 'I');
    assert("ABS_MT_ORIENTATION"@[16] == 'O');
    assert("ABS_MT_ORIENTATION"@[17] == 'N');
    assert("ABS_MT_POSITION_X"@.len() == 17);
    assert("ABS_MT_POSITION_X"@[16] == 'X');
    assert("ABS_MT_POSITION_Y"@.len() == 17);
    assert("ABS_MT_POSITION_Y"@[16] == 'Y');
    assert("ABS_MT_TOOL_TYPE"@.len() == 16);
    assert("ABS_MT_BLOB_ID"@.len() == 14);
    assert("ABS_MT_BLOB_ID"@[4] == 'M');
    assert("ABS_MT_BLOB_ID"@[5] == 'T');
    assert("ABS_MT_BLOB_ID"@[6] == '_');
    assert("ABS_MT_BLOB_ID"@[7] == 'B');
    assert("ABS_MT_BLOB_ID"@[8] == 'L');
    assert("ABS_MT_BLOB_ID"@[9] == 'O');
    assert("ABS_MT_BLOB_ID"@[10] == 'B');
    assert("ABS_MT_BLOB_ID"@[11] == '_');
    assert("ABS_MT_BLOB_ID"@[12] == 'I');
    assert("ABS_MT_BLOB_ID"@[13] == 'D');
    assert("ABS_MT_TRACKING_ID"@.len() == 18);
    assert("ABS_MT_TRACKING_ID"@[7] == 'T');
    assert("ABS_MT_TRACKING_ID"@[8] == 'R');
    assert("ABS_MT_TRACKING_ID"@[9] == 'A');
    assert("ABS_MT_TRACKING_ID"@[10] == 'C');
    assert("ABS_MT_TRACKING_ID"@[11] == 'K');
    assert("ABS_MT_TRACKING_ID"@[12] == 'I');
    assert("ABS_MT_TRACKING_ID"@[13] == 'N');
    assert("ABS_MT_TRACKING_ID"@[14] == 'G');
    assert("ABS_MT_TRACKING_ID"@[15] == '_');
    assert("ABS_MT_TRACKING_ID"@[16] == 'I');
    assert("ABS_MT_TRACKING_ID"@[17] == 'D');
    assert("ABS_MT_PRESSURE"@.len() == 15);
    assert("ABS_MT_PRESSURE"@[7] == 'P');
    assert("ABS_MT_PRESSURE"@[8] == 'R');
    assert("ABS_MT_PRESSURE"@[9] == 'E');
    assert("ABS_MT_PRESSURE"@[10] == 'S');
    assert("ABS_MT_PRESSURE"@[11] == 'S');
    assert("ABS_MT_PRESSURE"@[12] == 'U');
    assert("ABS_MT_PRESSURE"@[13] == 'R');
    assert("ABS_MT_DISTANCE"@.len() == 15);
    assert("ABS_MT_DISTANCE"@[7] == 'D');
    assert("ABS_MT_DISTANCE"@[8] == 'I');
    assert("ABS_MT_DISTANCE"@[9] == 'S');
    assert("ABS_MT_DISTANCE"@[10] == 'T');
    assert("ABS_MT_DISTANCE"@[11] == 'A');
    assert("ABS_MT_DISTANCE"@[12] == 'N');
    assert("ABS_MT_DISTANCE"@[13] == 'C');
    assert("ABS_MT_TOOL_X"@.len() == 13);
    assert("ABS_MT_TOOL_X"@[12] == 'X');
    assert("ABS_MT_TOOL_Y"@.len() == 13);
    assert("ABS_MT_TOOL_Y"@[12] == 'Y');
}

/// Parsing the name of a absolute axis gives its code back, and a parsed code is named
/// by exactly the name that was parsed.
pub proof fn law_absolute_axis_type_name_parse(c: u16, n: Seq<char>)
    ensures
        absolute_axis_type_name(c) matches Some(m) ==> absolute_axis_type_code(m) == Some(c),
        absolute_axis_type_code(n) matches Some(d) ==> absolute_axis_type_name(d) == Some(n),
{
    law_absolute_axis_type_names();
}

/// Each switch constant is named by its own identifier, and parsing that
/// identifier gives back the constant.
pub proof fn law_switch_type_names()
    ensures
        switch_type_name(SwitchType::SW_LID) == Some("SW_LID"@),
        switch_type_name(SwitchType::SW_TABLET_MODE) == Some("SW_TABLET_MODE"@),
        switch_type_name(SwitchType::SW_HEADPHONE_INSERT) == Some("SW_HEADPHONE_INSERT"@),
        switch_type_name(SwitchType::SW_RFKILL_ALL) == Some("SW_RFKILL_ALL"@),
        switch_type_name(SwitchType::SW_MICROPHONE_INSERT) == Some("SW_MICROPHONE_INSERT"@),
        switch_type_name(SwitchType::SW_DOCK) == Some("SW_DOCK"@),
        switch_type_name(SwitchType::SW_LINEOUT_INSERT) == Some("SW_LINEOUT_INSERT"@),
        switch_type_name(SwitchType::SW_JACK_PHYSICAL_INSERT) == Some("SW_JACK_PHYSICAL_INSERT"@),
        switch_type_name(SwitchType::SW_VIDEOOUT_INSERT) == Some("SW_VIDEOOUT_INSERT"@),
        switch_type_name(SwitchType::SW_CAMERA_LENS_COVER) == Some("SW_CAMERA_LENS_COVER"@),
        switch_type_name(SwitchType::SW_KEYPAD_SLIDE) == Some("SW_KEYPAD_SLIDE"@),
        switch_type_name(SwitchType::SW_FRONT_PROXIMITY) == Some("SW_FRONT_PROXIMITY"@),
        switch_type_name(SwitchType::SW_ROTATE_LOCK) == Some("SW_ROTATE_LOCK"@),
        switch_type_name(SwitchType::SW_LINEIN_INSERT) == Some("SW_LINEIN_INSERT"@),
        switch_type_name(SwitchType::SW_MUTE_DEVICE) == Some("SW_MUTE_DEVICE"@),
        switch_type_name(SwitchType::SW_PEN_INSERTED) == Some("SW_PEN_INSERTED"@),
        switch_type_name(SwitchType::SW_MACHINE_COVER) == Some("SW_MACHINE_COVER"@),
        switch_type_code("SW_LID"@) == Some(SwitchType::SW_LID),
        switch_type_code("SW_TABLET_MODE"@) == Some(SwitchType::SW_TABLET_MODE),
        switch_type_code("SW_HEADPHONE_INSERT"@) == Some(SwitchType::SW_HEADPHONE_INSERT),
        switch_type_code("SW_RFKILL_ALL"@) == Some(SwitchType::SW_RFKILL_ALL),
        switch_type_code("SW_MICROPHONE_INSERT"@) == Some(SwitchType::SW_MICROPHONE_INSERT),
        switch_type_code("SW_DOCK"@) == Some(SwitchType::SW_DOCK),
        switch_type_code("SW_LINEOUT_INSERT"@) == Some(SwitchType::SW_LINEOUT_INSERT),
        switch_type_code("SW_JACK_PHYSICAL_INSERT"@) == Some(SwitchType::SW_JACK_PHYSICAL_INSERT),
        switch_type_code("SW_VIDEOOUT_INSERT"@) == Some(SwitchType::SW_VIDEOOUT_INSERT),
        switch_type_code("SW_CAMERA_LENS_COVER"@) == Some(SwitchType::SW_CAMERA_LENS_COVER),
        switch_type_code("SW_KEYPAD_SLIDE"@) == Some(SwitchType::SW_KEYPAD_SLIDE),
        switch_type_code("SW_FRONT_PROXIMITY"@) == Some(SwitchType::SW_FRONT_PROXIMITY),
        switch_type_code("SW_ROTATE_LOCK"@) == Some(SwitchType::SW_ROTATE_LOCK),
        switch_type_code("SW_LINEIN_INSERT"@) == Some(SwitchType::SW_LINEIN_INSERT),
        switch_type_code("SW_MUTE_DEVICE"@) == Some(SwitchType::SW_MUTE_DEVICE),
        switch_type_code("SW_PEN_INSERTED"@) == Some(SwitchType::SW_PEN_INSERTED),
        switch_type_code("SW_MACHINE_COVER"@) == Some(SwitchType::SW_MACHINE_COVER),
{
    reveal_strlit("SW_LID");
    reveal_strlit("SW_TABLET_MODE");
    reveal_strlit("SW_HEADPHONE_INSERT");
    reveal_strlit("SW_RFKILL_ALL");
    reveal_strlit("SW_MICROPHONE_INSERT");
    reveal_strlit("SW_DOCK");
    reveal_strlit("SW_LINEOUT_INSERT");
    reveal_strlit("SW_JACK_PHYSICAL_INSERT");
    reveal_strlit("SW_VIDEOOUT_INSERT");
    reveal_strlit("SW_CAMERA_LENS_COVER");
    reveal_strlit("SW_KEYPAD_SLIDE");
    reveal_strlit("SW_FRONT_PROXIMITY");
    reveal_strlit("SW_ROTATE_LOCK");
    reveal_strlit("SW_LINEIN_INSERT");
    reveal_strlit("SW_MUTE_DEVICE");
    reveal_strlit("SW_PEN_INSERTED");
    reveal_strlit("SW_MACHINE_COVER");
    assert("SW_LID"@.len() == 6);
    assert("SW_TABLET_MODE"@.len() == 14);
    assert("SW_TABLET_MODE"@[3] == 'T');
    assert("SW_TABLET_MODE"@[4] == 'A');
    assert("SW_TABLET_MODE"@[5] == 'B');
    assert("SW_TABLET_MODE"@[6] == 'L');
    assert("SW_TABLET_MODE"@[7] == 'E');
    assert("SW_TABLET_MODE"@[8] == 'T');
    assert("SW_TABLET_MODE"@[9] == '_');
    assert("SW_TABLET_MODE"@[10] == 'M');
    assert("SW_TABLET_MODE"@[11] == 'O');
    assert("SW_TABLET_MODE"@[12] == 'D');
    assert("SW_TABLET_MODE"@[13] == 'E');
    assert("SW_HEADPHONE_INSERT"@.len() == 19);
    assert("SW_RFKILL_ALL"@.len() == 13);
    assert("SW_MICROPHONE_INSERT"@.len() == 20);
    assert("SW_MICROPHONE_INSERT"@[3] == 'M');
    assert("SW_MICROPHONE_INSERT"@[4] == 'I');
    assert("SW_MICROPHONE_INSERT"@[5] == 'C');
    assert("SW_MICROPHONE_INSERT"@[6] == 'R');
    assert("SW_MICROPHONE_INSERT"@[7] == 'O');
    assert("SW_MICROPHONE_INSERT"@[8] == 'P');
    assert("SW_MICROPHONE_INSERT"@[9] == 'H');
    assert("SW_MICROPHONE_INSERT"@[10] == 'O');
    assert("SW_MICROPHONE_INSERT"@[11] == 'N');
    assert("SW_MICROPHONE_INSERT"@[12] == 'E');
    assert("SW_MICROPHONE_INSERT"@[13] == '_');
    assert("SW_MICROPHONE_INSERT"@[14] == 'I');
    assert("SW_MICROPHONE_INSERT"@[15] == 'N');
    assert("SW_MICROPHONE_INSERT"@[16] == 'S');
    assert("SW_MICROPHONE_INSERT"@[17] == 'E');
    assert("SW_MICROPHONE_INSERT"@[18] == 'R');
    assert("SW_MICROPHONE_INSERT"@[19] == 'T');
    assert("SW_DOCK"@.len() == 7);
    assert("SW_LINEOUT_INSERT"@.len() == 17);
    assert("SW_JACK_PHYSICAL_INSERT"@.len() == 23);
    assert("SW_VIDEOOUT_INSERT"@.len() == 18);
    assert("SW_VIDEOOUT_INSERT"@[3] == 'V');
    assert("SW_VIDEOOUT_INSERT"@[4] == 'I');
    assert("SW_VIDEOOUT_INSERT"@[5] == 'D');
    assert("SW_VIDEOOUT_INSERT"@[6] == 'E');
    assert("SW_VIDEOOUT_INSERT"@[7] == 'O');
    assert("SW_VIDEOOUT_INSERT"@[8] == 'O');
    assert("SW_VIDEOOUT_INSERT"@[9] == 'U');
    assert("SW_VIDEOOUT_INSERT"@[10] == 'T');
    assert("SW_VIDEOOUT_INSERT"@[11] == '_');
    assert("SW_VIDEOOUT_INSERT"@[12] == 'I');
    assert("SW_VIDEOOUT_INSERT"@[13] == 'N');
    assert("SW_VIDEOOUT_INSERT"@[14] == 'S');
    assert("SW_VIDEOOUT_INSERT"@[15] == 'E');
    assert("SW_VIDEOOUT_INSERT"@[16] == 'R');
    assert("SW_VIDEOOUT_INSERT"@[17] == 'T');
    assert("SW_CAMERA_LENS_COVER"@.len() == 20);
    assert("SW_CAMERA_LENS_COVER"@[3] == 'C');
    assert("SW_CAMERA_LENS_COVER"@[4] == 'A');
    assert("SW_CAMERA_LENS_COVER"@[5] == 'M');
    assert("SW_CAMERA_LENS_COVER"@[6] == 'E');
    assert("SW_CAMERA_LENS_COVER"@[7] == 'R');
    assert("SW_CAMERA_LENS_COVER"@[8] == 'A');
    assert("SW_CAMERA_LENS_COVER"@[9] == '_');
    assert("SW_CAMERA_LENS_COVER"@[10] == 'L');
    assert("SW_CAMERA_LENS_COVER"@[11] == 'E');
    assert("SW_CAMERA_LENS_COVER"@[12] == 'N');
    assert("SW_CAMERA_LENS_COVER"@[13] == 'S');
    assert("SW_CAMERA_LENS_COVER"@[14] == '_');
    assert("SW_CAMERA_LENS_COVER"@[15] == 'C');
    assert("SW_CAMERA_LENS_COVER"@[16] == 'O');
    assert("SW_CAMERA_LENS_COVER"@[17] == 'V');
    assert("SW_CAMERA_LENS_COVER"@[18] == 'E');
    assert("SW_CAMERA_LENS_COVER"@[19] == 'R');
    assert("SW_KEYPAD_SLIDE"@.len() == 15);
    assert("SW_KEYPAD_SLIDE"@[3] == 'K');
    assert("SW_KEYPAD_SLIDE"@[5] == 'Y');
    assert("SW_KEYPAD_SLIDE"@[6] == 'P');
    assert("SW_KEYPAD_SLIDE"@[7] == 'A');
    assert("SW_KEYPAD_SLIDE"@[8] == 'D');
    assert("SW_KEYPAD_SLIDE"@[9] == '_');
    assert("SW_KEYPAD_SLIDE"@[10] == 'S');
    assert("SW_KEYPAD_SLIDE"@[11] == 'L');
    assert("SW_KEYPAD_SLIDE"@[12] == 'I');
    assert("SW_KEYPAD_SLIDE"@[13] == 'D');
    assert("SW_KEYPAD_SLIDE"@[14] == 'E');
    assert("SW_FRONT_PROXIMITY"@.len() == 18);
    assert("SW_FRONT_PROXIMITY"@[3] == 'F');
    assert("SW_FRONT_PROXIMITY"@[4] == 'R');
    assert("SW_FRONT_PROXIMITY"@[5] == 'O');
    assert("SW_FRONT_PROXIMITY"@[6] == 'N');
    assert("SW_FRONT_PROXIMITY"@[7] == 'T');
    assert("SW_FRONT_PROXIMITY"@[8] == '_');
    assert("SW_FRONT_PROXIMITY"@[9] == 'P');
    assert("SW_FRONT_PROXIMITY"@[10] == 'R');
    assert("SW_FRONT_PROXIMITY"@[11] == 'O');
    assert("SW_FRONT_PROXIMITY"@[12] == 'X');
    assert("SW_FRONT_PROXIMITY"@[13] == 'I');
    assert("SW_FRONT_PROXIMITY"@[14] == 'M');
    assert("SW_FRONT_PROXIMITY"@[15] == 'I');
    assert("SW_FRONT_PROXIMITY"@[16] == 'T');
    assert("SW_FRONT_PROXIMITY"@[17] == 'Y');
    assert("SW_ROTATE_LOCK"@.len() == 14);
    assert("SW_ROTATE_LOCK"@[3] == 'R');
    assert("SW_ROTATE_LOCK"@[4] == 'O');
    assert("SW_ROTATE_LOCK"@[5] == 'T');
    assert("SW_ROTATE_LOCK"@[6] == 'A');
    assert("SW_ROTATE_LOCK"@[7] == 'T');
    assert("SW_ROTATE_LOCK"@[8] == 'E');
    assert("SW_ROTATE_LOCK"@[9] == '_');
    assert("SW_ROTATE_LOCK"@[10] == 'L');
    assert("SW_ROTATE_LOCK"@[11] == 'O');
    assert("SW_ROTATE_LOCK"@[12] == 'C');
    assert("SW_ROTATE_LOCK"@[13] == 'K');
    assert("SW_LINEIN_INSERT"@.len() == 16);
    assert("SW_LINEIN_INSERT"@[3] == 'L');
    assert("SW_LINEIN_INSERT"@[4] == 'I');
    assert("SW_LINEIN_INSERT"@[5] == 'N');
    assert("SW_LINEIN_INSERT"@[6] == 'E');
    assert("SW_LINEIN_INSERT"@[9] == '_');
    assert("SW_LINEIN_INSERT"@[10] == 'I');
    assert("SW_LINEIN_INSERT"@[11] == 'N');
    assert("SW_LINEIN_INSERT"@[12] == 'S');
    assert("SW_LINEIN_INSERT"@[13] == 'E');
    assert("SW_LINEIN_INSERT"@[14] == 'R');
    assert("SW_LINEIN_INSERT"@[15] == 'T');
    assert("SW_MUTE_DEVICE"@.len() == 14);
    assert("SW_MUTE_DEVICE"@[3] == 'M');
    assert("SW_MUTE_DEVICE"@[4] == 'U');
    assert("SW_MUTE_DEVICE"@[5] == 'T');
    assert("SW_MUTE_DEVICE"@[6] == 'E');
    assert("SW_MUTE_DEVICE"@[7] == '_');
    assert("SW_MUTE_DEVICE"@[8] == 'D');
    assert("SW_MUTE_DEVICE"@[9] == 'E');
    assert("SW_MUTE_DEVICE"@[10] == 'V');
    assert("SW_MUTE_DEVICE"@[11] == 'I');
    assert("SW_MUTE_DEVICE"@[12] == 'C');
    assert("SW_MUTE_DEVICE"@[13] == 'E');
    assert("SW_PEN_INSERTED"@.len() == 15);
    assert("SW_PEN_INSERTED"@[3] == 'P');
    assert("SW_PEN_INSERTED"@[5] == 'N');
    assert("SW_PEN_INSERTED"@[6] == '_');
    assert("SW_PEN_INSERTED"@[7] == 'I');
    assert("SW_PEN_INSERTED"@[8] == 'N');
    assert("SW_PEN_INSERTED"@[9] == 'S');
    assert("SW_PEN_INSERTED"@[10] == 'E');
    assert("SW_PEN_INSERTED"@[11] == 'R');
    assert("SW_PEN_INSERTED"@[12] == 'T');
    assert("SW_PEN_INSERTED"@[13] == 'E');
    assert("SW_PEN_INSERTED"@[14] == 'D');
    assert("SW_MACHINE_COVER"@.len() == 16);
    assert("SW_MACHINE_COVER"@[3] == 'M');
    assert("SW_MACHINE_COVER"@[4] == 'A');
    assert("SW_MACHINE_COVER"@[5] == 'C');
    assert("SW_MACHINE_COVER"@[6] == 'H');
    assert("SW_MACHINE_COVER"@[9] == 'E');
    assert("SW_MACHINE_COVER"@[10] == '_');
    assert("SW_MACHINE_COVER"@[11] == 'C');
    assert("SW_MACHINE_COVER"@[12] == 'O');
    assert("SW_MACHINE_COVER"@[13] == 'V');
    assert("SW_MACHINE_COVER"@[14] == 'E');
    assert("SW_MACHINE_COVER"@[15] == 'R');
}

/// Parsing the name of a switch gives its code back, and a parsed code is named
/// by exactly the name that was parsed.
pub proof fn law_switch_type_name_parse(c: u16, n: Seq<char>)
    ensures
        switch_type_name(c) matches Some(m) ==> switch_type_code(m) == Some(c),
        switch_type_code(n) matches Some(d) ==> switch_type_name(d) == Some(n),
{
    law_switch_type_names();
}

/// Each LED constant is named by its own identifier, and parsing that
/// identifier gives back the constant.
pub proof fn law_led_type_names()
    ensures
        led_type_name(LedType::LED_NUML) == Some("LED_NUML"@),
        led_type_name(LedType::LED_CAPSL) == Some("LED_CAPSL"@),
        led_type_name(LedType::LED_SCROLLL) == Some("LED_SCROLLL"@),
        led_type_name(LedType::LED_COMPOSE) == Some("LED_COMPOSE"@),
        led_type_name(LedType::LED_KANA) == Some("LED_KANA"@),
        led_type_name(LedType::LED_SLEEP) == Some("LED_SLEEP"@),
        led_type_name(LedType::LED_SUSPEND) == Some("LED_SUSPEND"@),
        led_type_name(LedType::LED_MUTE) == Some("LED_MUTE"@),
        led_type_name(LedType::LED_MISC) == Some("LED_MISC"@),
        led_type_name(LedType::LED_MAIL) == Some("LED_MAIL"@),
        led_type_name(LedType::LED_CHARGING) == Some("LED_CHARGING"@),
        led_type_code("LED_NUML"@) == Some(LedType::LED_NUML),
        led_type_code("LED_CAPSL"@) == Some(LedType::LED_CAPSL),
        led_type_code("LED_SCROLLL"@) == Some(LedType::LED_SCROLLL),
        led_type_code("LED_COMPOSE"@) == Some(LedType::LED_COMPOSE),
        led_type_code("LED_KANA"@) == Some(LedType::LED_KANA),
        led_type_code("LED_SLEEP"@) == Some(LedType::LED_SLEEP),
        led_type_code("LED_SUSPEND"@) == Some(LedType::LED_SUSPEND),
        led_type_code("LED_MUTE"@) == Some(LedType::LED_MUTE),
        led_type_code("LED_MISC"@) == Some(LedType::LED_MISC),
        led_type_code("LED_MAIL"@) == Some(LedType::LED_MAIL),
        led_type_code("LED_CHARGING"@) == Some(LedType::LED_CHARGING),
{
    reveal_strlit("LED_NUML");
    reveal_strlit("LED_CAPSL");
    reveal_strlit("LED_SCROLLL");
    reveal_strlit("LED_COMPOSE");
    reveal_strlit("LED_KANA");
    reveal_strlit("LED_SLEEP");
    reveal_strlit("LED_SUSPEND");
    reveal_strlit("LED_MUTE");
    reveal_strlit("LED_MISC");
    reveal_strlit("LED_MAIL");
    reveal_strlit("LED_CHARGING");
    assert("LED_NUML"@.len() == 8);
    assert("LED_NUML"@[4] == 'N');
    assert("LED_NUML"@[5] == 'U');
    assert("LED_NUML"@[6] == 'M');
    assert("LED_NUML"@[7] == 'L');
    assert("LED_CAPSL"@.len() == 9);
    assert("LED_CAPSL"@[4] == 'C');
    assert("LED_CAPSL"@[5] == 'A');
    assert("LED_CAPSL"@[6] == 'P');
    assert("LED_CAPSL"@[7] == 'S');
    assert("LED_CAPSL"@[8] == 'L');
    assert("LED_SCROLLL"@.len() == 11);
    assert("LED_SCROLLL"@[4] == 'S');
    assert("LED_SCROLLL"@[5] == 'C');
    assert("LED_SCROLLL"@[6] == 'R');
    assert("LED_SCROLLL"@[7] == 'O');
    assert("LED_SCROLLL"@[8] == 'L');
    assert("LED_SCROLLL"@[9] == 'L');
    assert("LED_SCROLLL"@[10] == 'L');
    assert("LED_COMPOSE"@.len() == 11);
    assert("LED_COMPOSE"@[4] == 'C');
    assert("LED_COMPOSE"@[5] == 'O');
    assert("LED_COMPOSE"@[6] == 'M');
    assert("LED_COMPOSE"@[7] == 'P');
    assert("LED_COMPOSE"@[8] == 'O');
    assert("LED_COMPOSE"@[9] == 'S');
    assert("LED_COMPOSE"@[10] == 'E');
    assert("LED_KANA"@.len() == 8);
    assert("LED_KANA"@[4] == 'K');
    assert("LED_KANA"@[5] == 'A');
    assert("LED_KANA"@[6] == 'N');
    assert("LED_KANA"@[7] == 'A');
    assert("LED_SLEEP"@.len() == 9);
    assert("LED_SLEEP"@[4] == 'S');
    assert("LED_SLEEP"@[5] == 'L');
    assert("LED_SLEEP"@[6] == 'E');
    assert("LED_SLEEP"@[7] == 'E');
    assert("LED_SLEEP"@[8] == 'P');
    assert("LED_SUSPEND"@.len() == 11);
    assert("LED_SUSPEND"@[4] == 'S');
    assert("LED_SUSPEND"@[5] == 'U');
    assert("LED_SUSPEND"@[6] == 'S');
    assert("LED_SUSPEND"@[7] == 'P');
    assert("LED_SUSPEND"@[8] == 'E');
    assert("LED_SUSPEND"@[9] == 'N');
    assert("LED_SUSPEND"@[10] == 'D');
    assert("LED_MUTE"@.len() == 8);
    assert("LED_MUTE"@[4] == 'M');
    assert("LED_MUTE"@[5] == 'U');
    assert("LED_MUTE"@[6] == 'T');
    assert("LED_MUTE"@[7] == 'E');
    assert("LED_MISC"@.len() == 8);
    assert("LED_MISC"@[4] == 'M');
    assert("LED_MISC"@[5] == 'I');
    assert("LED_MISC"@[6] == 'S');
    assert("LED_MISC"@[7] == 'C');
    assert("LED_MAIL"@.len() == 8);
    assert("LED_MAIL"@[4] == 'M');
    assert("LED_MAIL"@[5] == 'A');
    assert("LED_MAIL"@[6] == 'I');
    assert("LED_MAIL"@[7] == 'L');
    assert("LED_CHARGING"@.len() == 12);
}

/// Parsing the name of a LED gives its code back, and a parsed code is named
/// by exactly the name that was parsed.
pub proof fn law_led_type_name_parse(c: u16, n: Seq<char>)
    ensures
        led_type_name(c) matches Some(m) ==> led_type_code(m) == Some(c),
        led_type_code(n) matches Some(d) ==> led_type_name(d) == Some(n),
{
    law_led_type_names();
}

/// Each miscellaneous code constant is named by its own identifier, and parsing that
/// identifier gives back the constant.
pub proof fn law_misc_type_names()
    ensures
        misc_type_name(MiscType::MSC_SERIAL) == Some("MSC_SERIAL"@),
        misc_type_name(MiscType::MSC_PULSELED) == Some("MSC_PULSELED"@),
        misc_type_name(MiscType::MSC_GESTURE) == Some("MSC_GESTURE"@),
        misc_type_name(MiscType::MSC_RAW) == Some("MSC_RAW"@),
        misc_type_name(MiscType::MSC_SCAN) == Some("MSC_SCAN"@),
        misc_type_name(MiscType::MSC_TIMESTAMP) == Some("MSC_TIMESTAMP"@),
        misc_type_code("MSC_SERIAL"@) == Some(MiscType::MSC_SERIAL),
        misc_type_code("MSC_PULSELED"@) == Some(MiscType::MSC_PULSELED),
        misc_type_code("MSC_GESTURE"@) == Some(MiscType::MSC_GESTURE),
        misc_type_code("MSC_RAW"@) == Some(MiscType::MSC_RAW),
        misc_type_code("MSC_SCAN"@) == Some(MiscType::MSC_SCAN),
        misc_type_code("MSC_TIMESTAMP"@) == Some(MiscType::MSC_TIMESTAMP),
{
    reveal_strlit("MSC_SERIAL");
    reveal_strlit("MSC_PULSELED");
    reveal_strlit("MSC_GESTURE");
    reveal_strlit("MSC_RAW");
    reveal_strlit("MSC_SCAN");
    reveal_strlit("MSC_TIMESTAMP");
    assert("MSC_SERIAL"@.len() == 10);
    assert("MSC_PULSELED"@.len() == 12);
    assert("MSC_GESTURE"@.len() == 11);
    assert("MSC_RAW"@.len() == 7);
    assert("MSC_SCAN"@.len() == 8);
    assert("MSC_TIMESTAMP"@.len() == 13);
}

/// Parsing the name of a miscellaneous code gives its code back, and a parsed code is named
/// by exactly the name that was parsed.
pub proof fn law_misc_type_name_parse(c: u16, n: Seq<char>)
    ensures
        misc_type_name(c) matches Some(m) ==> misc_type_code(m) == Some(c),
        misc_type_code(n) matches Some(d) ==> misc_type_name(d) == Some(n),
{
    law_misc_type_names();
}

/// Each force feedback effect type constant is named by its own identifier, and parsing that
/// identifier gives back the constant.
pub proof fn law_ff_effect_type_names()
    ensures
        ff_effect_type_name(FFEffectType::FF_RUMBLE) == Some("FF_RUMBLE"@),
        ff_effect_type_name(FFEffectType::FF_PERIODIC) == Some("FF_PERIODIC"@),
        ff_effect_type_name(FFEffectType::FF_CONSTANT) == Some("FF_CONSTANT"@),
        ff_effect_type_name(FFEffectType::FF_SPRING) == Some("FF_SPRING"@),
        ff_effect_type_name(FFEffectType::FF_FRICTION) == Some("FF_FRICTION"@),
        ff_effect_type_name(FFEffectType::FF_DAMPER) == Some("FF_DAMPER"@),
        ff_effect_type_name(FFEffectType::FF_INERTIA) == Some("FF_INERTIA"@),
        ff_effect_type_name(FFEffectType::FF_RAMP) == Some("FF_RAMP"@),
        ff_effect_type_name(FFEffectType::FF_SQUARE) == Some("FF_SQUARE"@),
        ff_effect_type_name(FFEffectType::FF_TRIANGLE) == Some("FF_TRIANGLE"@),
        ff_effect_type_name(FFEffectType::FF_SINE) == Some("FF_SINE"@),
        ff_effect_type_name(FFEffectType::FF_SAW_UP) == Some("FF_SAW_UP"@),
        ff_effect_type_name(FFEffectType::FF_SAW_DOWN) == Some("FF_SAW_DOWN"@),
        ff_effect_type_name(FFEffectType::FF_CUSTOM) == Some("FF_CUSTOM"@),
        ff_effect_type_name(FFEffectType::FF_GAIN) == Some("FF_GAIN"@),
        ff_effect_type_name(FFEffectType::FF_AUTOCENTER) == Some("FF_AUTOCENTER"@),
        ff_effect_type_code("FF_RUMBLE"@) == Some(FFEffectType::FF_RUMBLE),
        ff_effect_type_code("FF_PERIODIC"@) == Some(FFEffectType::FF_PERIODIC),
        ff_effect_type_code("FF_CONSTANT"@) == Some(FFEffectType::FF_CONSTANT),
        ff_effect_type_code("FF_SPRING"@) == Some(FFEffectType::FF_SPRING),
        ff_effect_type_code("FF_FRICTION"@) == Some(FFEffectType::FF_FRICTION),
        ff_effect_type_code("FF_DAMPER"@) == Some(FFEffectType::FF_DAMPER),
        ff_effect_type_code("FF_INERTIA"@) == Some(FFEffectType::FF_INERTIA),
        ff_effect_type_code("FF_RAMP"@) == Some(FFEffectType::FF_RAMP),
        ff_effect_type_code("FF_SQUARE"@) == Some(FFEffectType::FF_SQUARE),
        ff_effect_type_code("FF_TRIANGLE"@) == Some(FFEffectType::FF_TRIANGLE),
        ff_effect_type_code("FF_SINE"@) == Some(FFEffectType::FF_SINE),
        ff_effect_type_code("FF_SAW_UP"@) == Some(FFEffectType::FF_SAW_UP),
        ff_effect_type_code("FF_SAW_DOWN"@) == Some(FFEffectType::FF_SAW_DOWN),
        ff_effect_type_code("FF_CUSTOM"@) == Some(FFEffectType::FF_CUSTOM),
        ff_effect_type_code("FF_GAIN"@) == Some(FFEffectType::FF_GAIN),
        ff_effect_type_code("FF_AUTOCENTER"@) == Some(FFEffectType::FF_AUTOCENTER),
{
    reveal_strlit("FF_RUMBLE");
    reveal_strlit("FF_PERIODIC");
    reveal_strlit("FF_CONSTANT");
    reveal_strlit("FF_SPRING");
    reveal_strlit("FF_FRICTION");
    reveal_strlit("FF_DAMPER");
    reveal_strlit("FF_INERTIA");
    reveal_strlit("FF_RAMP");
    reveal_strlit("FF_SQUARE");
    reveal_strlit("FF_TRIANGLE");
    reveal_strlit("FF_SINE");
    reveal_strlit("FF_SAW_UP");
    reveal_strlit("FF_SAW_DOWN");
    reveal_strlit("FF_CUSTOM");
    reveal_strlit("FF_GAIN");
    reveal_strlit("FF_AUTOCENTER");
    assert("FF_RUMBLE"@.len() == 9);
    assert("FF_RUMBLE"@[3] == 'R');
    assert("FF_RUMBLE"@[4] == 'U');
    assert("FF_RUMBLE"@[5] == 'M');
    assert("FF_RUMBLE"@[6] == 'B');
    assert("FF_RUMBLE"@[7] == 'L');
    assert("FF_RUMBLE"@[8] == 'E');
    assert("FF_PERIODIC"@.len() == 11);
    assert("FF_PERIODIC"@[3] == 'P');
    assert("FF_PERIODIC"@[4] == 'E');
    assert("FF_PERIODIC"@[5] == 'R');
    assert("FF_PERIODIC"@[6] == 'I');
    assert("FF_PERIODIC"@[7] == 'O');
    assert("FF_PERIODIC"@[8] == 'D');
    assert("FF_PERIODIC"@[9] == 'I');
    assert("FF_PERIODIC"@[10] == 'C');
    assert("FF_CONSTANT"@.len() == 11);
    assert("FF_CONSTANT"@[3] == 'C');
    assert("FF_CONSTANT"@[4] == 'O');
    assert("FF_CONSTANT"@[5] == 'N');
    assert("FF_CONSTANT"@[6] == 'S');
    assert("FF_CONSTANT"@[7] == 'T');
    assert("FF_CONSTANT"@[8] == 'A');
    assert("FF_CONSTANT"@[9] == 'N');
    assert("FF_CONSTANT"@[10] == 'T');
    assert("FF_SPRING"@.len() == 9);
    assert("FF_SPRING"@[3] == 'S');
    assert("FF_SPRING"@[4] == 'P');
    assert("FF_SPRING"@[5] == 'R');
    assert("FF_SPRING"@[6] == 'I');
    assert("FF_SPRING"@[7] == 'N');
    assert("FF_SPRING"@[8] == 'G');
    assert("FF_FRICTION"@.len() == 11);
    assert("FF_FRICTION"@[3] == 'F');
    assert("FF_FRICTION"@[4] == 'R');
    assert("FF_FRICTION"@[5] == 'I');
    assert("FF_FRICTION"@[6] == 'C');
    assert("FF_FRICTION"@[7] == 'T');
    assert("FF_FRICTION"@[8] == 'I');
    assert("FF_FRICTION"@[9] == 'O');
    assert("FF_FRICTION"@[10] == 'N');
    assert("FF_DAMPER"@.len() == 9);
    assert("FF_DAMPER"@[3] == 'D');
    assert("FF_DAMPER"@[4] == 'A');
    assert("FF_DAMPER"@[5] == 'M');
    assert("FF_DAMPER"@[6] == 'P');
    assert("FF_DAMPER"@[7] == 'E');
    assert("FF_DAMPER"@[8] == 'R');
    assert("FF_INERTIA"@.len() == 10);
    assert("FF_RAMP"@.len() == 7);
    assert("FF_RAMP"@[3] == 'R');
    assert("FF_RAMP"@[4] == 'A');
    assert("FF_RAMP"@[5] == 'M');
    assert("FF_RAMP"@[6] == 'P');
    assert("FF_SQUARE"@.len() == 9);
    assert("FF_SQUARE"@[3] == 'S');
    assert("FF_SQUARE"@[4] == 'Q');
    assert("FF_SQUARE"@[5] == 'U');
    assert("FF_SQUARE"@[6] == 'A');
    assert("FF_SQUARE"@[7] == 'R');
    assert("FF_SQUARE"@[8] == 'E');
    assert("FF_TRIANGLE"@.len() == 11);
    assert("FF_TRIANGLE"@[3] == 'T');
    assert("FF_TRIANGLE"@[4] == 'R');
    assert("FF_TRIANGLE"@[5] == 'I');
    assert("FF_TRIANGLE"@[6] == 'A');
    assert("FF_TRIANGLE"@[7] == 'N');
    assert("FF_TRIANGLE"@[8] == 'G');
    assert("FF_TRIANGLE"@[9] == 'L');
    assert("FF_TRIANGLE"@[10] == 'E');
    assert("FF_SINE"@.len() == 7);
    assert("FF_SINE"@[3] == 'S');
    assert("FF_SINE"@[4] == 'I');
    assert("FF_SINE"@[5] == 'N');
    assert("FF_SINE"@[6] == 'E');
    assert("FF_SAW_UP"@.len() == 9);
    assert("FF_SAW_UP"@[3] == 'S');
    assert("FF_SAW_UP"@[4] == 'A');
    assert("FF_SAW_UP"@[5] == 'W');
    assert("FF_SAW_UP"@[6] == '_');
    assert("FF_SAW_UP"@[7] == 'U');
    assert("FF_SAW_UP"@[8] == 'P');
    assert("FF_SAW_DOWN"@.len() == 11);
    assert("FF_SAW_DOWN"@[3] == 'S');
    assert("FF_SAW_DOWN"@[4] == 'A');
    assert("FF_SAW_DOWN"@[5] == 'W');
    assert("FF_SAW_DOWN"@[6] == '_');
    assert("FF_SAW_DOWN"@[7] == 'D');
    assert("FF_SAW_DOWN"@[8] == 'O');
    assert("FF_SAW_DOWN"@[9] == 'W');
    assert("FF_SAW_DOWN"@[10] == 'N');
    assert("FF_CUSTOM"@.len() == 9);
    assert("FF_CUSTOM"@[3] == 'C');
    assert("FF_CUSTOM"@[4] == 'U');
    assert("FF_CUSTOM"@[5] == 'S');
    assert("FF_CUSTOM"@[6] == 'T');
    assert("FF_CUSTOM"@[7] == 'O');
    assert("FF_CUSTOM"@[8] == 'M');
    assert("FF_GAIN"@.len() == 7);
    assert("FF_GAIN"@[3] == 'G');
    assert("FF_GAIN"@[4] == 'A');
    assert("FF_GAIN"@[5] == 'I');
    assert("FF_GAIN"@[6] == 'N');
    assert("FF_AUTOCENTER"@.len() == 13);
}

/// Parsing the name of a force feedback effect type gives its code back, and a parsed code is named
/// by exactly the name that was parsed.
pub proof fn law_ff_effect_type_name_parse(c: u16, n: Seq<char>)
    ensures
        ff_effect_type_name(c) matches Some(m) ==> ff_effect_type_code(m) == Some(c),
        ff_effect_type_code(n) matches Some(d) ==> ff_effect_type_name(d) == Some(n),
{
    law_ff_effect_type_names();
}

/// Each force feedback status constant is named by its own identifier, and parsing that
/// identifier gives back the constant.
pub proof fn law_ff_status_names()
    ensures
        ff_status_name(FFStatus::FF_STATUS_STOPPED) == Some("FF_STATUS_STOPPED"@),
        ff_status_name(FFStatus::FF_STATUS_PLAYING) == Some("FF_STATUS_PLAYING"@),
        ff_status_code("FF_STATUS_STOPPED"@) == Some(FFStatus::FF_STATUS_STOPPED),
        ff_status_code("FF_STATUS_PLAYING"@) == Some(FFStatus::FF_STATUS_PLAYING),
{
    reveal_strlit("FF_STATUS_STOPPED");
    reveal_strlit("FF_STATUS_PLAYING");
    assert("FF_STATUS_STOPPED"@.len() == 17);
    assert("FF_STATUS_STOPPED"@[10] == 'S');
    assert("FF_STATUS_STOPPED"@[11] == 'T');
    assert("FF_STATUS_STOPPED"@[12] == 'O');
    assert("FF_STATUS_STOPPED"@[13] == 'P');
    assert("FF_STATUS_STOPPED"@[14] == 'P');
    assert("FF_STATUS_STOPPED"@[15] == 'E');
    assert("FF_STATUS_STOPPED"@[16] == 'D');
    assert("FF_STATUS_PLAYING"@.len() == 17);
    assert("FF_STATUS_PLAYING"@[10] == 'P');
    assert("FF_STATUS_PLAYING"@[11] == 'L');
    assert("FF_STATUS_PLAYING"@[12] == 'A');
    assert("FF_STATUS_PLAYING"@[13] == 'Y');
    assert("FF_STATUS_PLAYING"@[14] == 'I');
    assert("FF_STATUS_PLAYING"@[15] == 'N');
    assert("FF_STATUS_PLAYING"@[16] == 'G');
}

/// Parsing the name of a force feedback status gives its code back, and a parsed code is named
/// by exactly the name that was parsed.
pub proof fn law_ff_status_name_parse(c: u16, n: Seq<char>)
    ensures
        ff_status_name(c) matches Some(m) ==> ff_status_code(m) == Some(c),
        ff_status_code(n) matches Some(d) ==> ff_status_name(d) == Some(n),
{
    law_ff_status_names();
}

/// Each sound constant is named by its own identifier, and parsing that
/// identifier gives back the constant.
pub proof fn law_sound_type_names()
    ensures
        sound_type_name(SoundType::SND_CLICK) == Some("SND_CLICK"@),
        sound_type_name(SoundType::SND_BELL) == Some("SND_BELL"@),
        sound_type_name(SoundType::SND_TONE) == Some("SND_TONE"@),
        sound_type_code("SND_CLICK"@) == Some(SoundType::SND_CLICK),
        sound_type_code("SND_BELL"@) == Some(SoundType::SND_BELL),
        sound_type_code("SND_TONE"@) == Some(SoundType::SND_TONE),
{
    reveal_strlit("SND_CLICK");
    reveal_strlit("SND_BELL");
    reveal_strlit("SND_TONE");
    assert("SND_CLICK"@.len() == 9);
    assert("SND_BELL"@.len() == 8);
    assert("SND_BELL"@[4] == 'B');
    assert("SND_BELL"@[5] == 'E');
    assert("SND_BELL"@[6] == 'L');
    assert("SND_BELL"@[7] == 'L');
    assert("SND_TONE"@.len() == 8);
    assert("SND_TONE"@[4] == 'T');
    assert("SND_TONE"@[5] == 'O');
    assert("SND_TONE"@[6] == 'N');
    assert("SND_TONE"@[7] == 'E');
}

/// Parsing the name of a sound gives its code back, and a parsed code is named
/// by exactly the name that was parsed.
pub proof fn law_sound_type_name_parse(c: u16, n: Seq<char>)
    ensures
        sound_type_name(c) matches Some(m) ==> sound_type_code(m) == Some(c),
        sound_type_code(n) matches Some(d) ==> sound_type_name(d) == Some(n),
{
    law_sound_type_names();
}

/// Each uinput event code constant is named by its own identifier, and parsing that
/// identifier gives back the constant.
pub proof fn law_uinput_event_type_names()
    ensures
        uinput_event_type_name(UInputEventType::UI_FF_UPLOAD) == Some("UI_FF_UPLOAD"@),
        uinput_event_type_name(UInputEventType::UI_FF_ERASE) == Some("UI_FF_ERASE"@),
        uinput_event_type_code("UI_FF_UPLOAD"@) == Some(UInputEventType::UI_FF_UPLOAD),
        uinput_event_type_code("UI_FF_ERASE"@) == Some(UInputEventType::UI_FF_ERASE),
{
    reveal_strlit("UI_FF_UPLOAD");
    reveal_strlit("UI_FF_ERASE");
    assert("UI_FF_UPLOAD"@.len() == 12);
    assert("UI_FF_ERASE"@.len() == 11);
}

/// Parsing the name of a uinput event code gives its code back, and a parsed code is named
/// by exactly the name that was parsed.
pub proof fn law_uinput_event_type_name_parse(c: u16, n: Seq<char>)
    ensures
        uinput_event_type_name(c) matches Some(m) ==> uinput_event_type_code(m) == Some(c),
        uinput_event_type_code(n) matches Some(d) ==> uinput_event_type_name(d) == Some(n),
{
    law_uinput_event_type_names();
}

/// Each bus type constant is named by its own identifier, and parsing that
/// identifier gives back the constant.
pub proof fn law_bus_kernel_names()
    ensures
        bus_kernel_name(BusType::BUS_PCI) == Some("BUS_PCI"@),
        bus_kernel_name(BusType::BUS_ISAPNP) == Some("BUS_ISAPNP"@),
        bus_kernel_name(BusType::BUS_USB) == Some("BUS_USB"@),
        bus_kernel_name(BusType::BUS_HIL) == Some("BUS_HIL"@),
        bus_kernel_name(BusType::BUS_BLUETOOTH) == Some("BUS_BLUETOOTH"@),
        bus_kernel_name(BusType::BUS_VIRTUAL) == Some("BUS_VIRTUAL"@),
        bus_kernel_name(BusType::BUS_ISA) == Some("BUS_ISA"@),
        bus_kernel_name(BusType::BUS_I8042) == Some("BUS_I8042"@),
        bus_kernel_name(BusType::BUS_XTKBD) == Some("BUS_XTKBD"@),
        bus_kernel_name(BusType::BUS_RS232) == Some("BUS_RS232"@),
        bus_kernel_name(BusType::BUS_GAMEPORT) == Some("BUS_GAMEPORT"@),
        bus_kernel_name(BusType::BUS_PARPORT) == Some("BUS_PARPORT"@),
        bus_kernel_name(BusType::BUS_AMIGA) == Some("BUS_AMIGA"@),
        bus_kernel_name(BusType::BUS_ADB) == Some("BUS_ADB"@),
        bus_kernel_name(BusType::BUS_I2C) == Some("BUS_I2C"@),
        bus_kernel_name(BusType::BUS_HOST) == Some("BUS_HOST"@),
        bus_kernel_name(BusType::BUS_GSC) == Some("BUS_GSC"@),
        bus_kernel_name(BusType::BUS_ATARI) == Some("BUS_ATARI"@),
        bus_kernel_name(BusType::BUS_SPI) == Some("BUS_SPI"@),
        bus_kernel_name(BusType::BUS_RMI) == Some("BUS_RMI"@),
        bus_kernel_name(BusType::BUS_CEC) == Some("BUS_CEC"@),
        bus_kernel_name(BusType::BUS_INTEL_ISHTP) == Some("BUS_INTEL_ISHTP"@),
        bus_kernel_code("BUS_PCI"@) == Some(BusType::BUS_PCI),
        bus_kernel_code("BUS_ISAPNP"@) == Some(BusType::BUS_ISAPNP),
        bus_kernel_code("BUS_USB"@) == Some(BusType::BUS_USB),
        bus_kernel_code("BUS_HIL"@) == Some(BusType::BUS_HIL),
        bus_kernel_code("BUS_BLUETOOTH"@) == Some(BusType::BUS_BLUETOOTH),
        bus_kernel_code("BUS_VIRTUAL"@) == Some(BusType::BUS_VIRTUAL),
        bus_kernel_code("BUS_ISA"@) == Some(BusType::BUS_ISA),
        bus_kernel_code("BUS_I8042"@) == Some(BusType::BUS_I8042),
        bus_kernel_code("BUS_XTKBD"@) == Some(BusType::BUS_XTKBD),
        bus_kernel_code("BUS_RS232"@) == Some(BusType::BUS_RS232),
        bus_kernel_code("BUS_GAMEPORT"@) == Some(BusType::BUS_GAMEPORT),
        bus_kernel_code("BUS_PARPORT"@) == Some(BusType::BUS_PARPORT),
        bus_kernel_code("BUS_AMIGA"@) == Some(BusType::BUS_AMIGA),
        bus_kernel_code("BUS_ADB"@) == Some(BusType::BUS_ADB),
        bus_kernel_code("BUS_I2C"@) == Some(BusType::BUS_I2C),
        bus_kernel_code("BUS_HOST"@) == Some(BusType::BUS_HOST),
        bus_kernel_code("BUS_GSC"@) == Some(BusType::BUS_GSC),
        bus_kernel_code("BUS_ATARI"@) == Some(BusType::BUS_ATARI),
        bus_kernel_code("BUS_SPI"@) == Some(BusType::BUS_SPI),
        bus_kernel_code("BUS_RMI"@) == Some(BusType::BUS_RMI),
        bus_kernel_code("BUS_CEC"@) == Some(BusType::BUS_CEC),
        bus_kernel_code("BUS_INTEL_ISHTP"@) == Some(BusType::BUS_INTEL_ISHTP),
{
    reveal_strlit("BUS_PCI");
    reveal_strlit("BUS_ISAPNP");
    reveal_strlit("BUS_USB");
    reveal_strlit("BUS_HIL");
    reveal_strlit("BUS_BLUETOOTH");
    reveal_strlit("BUS_VIRTUAL");
    reveal_strlit("BUS_ISA");
    reveal_strlit("BUS_I8042");
    reveal_strlit("BUS_XTKBD");
    reveal_strlit("BUS_RS232");
    reveal_strlit("BUS_GAMEPORT");
    reveal_strlit("BUS_PARPORT");
    reveal_strlit("BUS_AMIGA");
    reveal_strlit("BUS_ADB");
    reveal_strlit("BUS_I2C");
    reveal_strlit("BUS_HOST");
    reveal_strlit("BUS_GSC");
    reveal_strlit("BUS_ATARI");
    reveal_strlit("BUS_SPI");
    reveal_strlit("BUS_RMI");
    reveal_strlit("BUS_CEC");
    reveal_strlit("BUS_INTEL_ISHTP");
    assert("BUS_PCI"@.len() == 7);
    assert("BUS_PCI"@[4] == 'P');
    assert("BUS_PCI"@[5] == 'C');
    assert("BUS_PCI"@[6] == 'I');
    assert("BUS_ISAPNP"@.len() == 10);
    assert("BUS_USB"@.len() == 7);
    assert("BUS_USB"@[4] == 'U');
    assert("BUS_USB"@[5] == 'S');
    assert("BUS_USB"@[6] == 'B');
    assert("BUS_HIL"@.len() == 7);
    assert("BUS_HIL"@[4] == 'H');
    assert("BUS_HIL"@[5] == 'I');
    assert("BUS_HIL"@[6] == 'L');
    assert("BUS_BLUETOOTH"@.len() == 13);
    assert("BUS_VIRTUAL"@.len() == 11);
    assert("BUS_VIRTUAL"@[4] == 'V');
    assert("BUS_VIRTUAL"@[5] == 'I');
    assert("BUS_VIRTUAL"@[7] == 'T');
    assert("BUS_VIRTUAL"@[8] == 'U');
    assert("BUS_VIRTUAL"@[9] == 'A');
    assert("BUS_VIRTUAL"@[10] == 'L');
    assert("BUS_ISA"@.len() == 7);
    assert("BUS_ISA"@[4] == 'I');
    assert("BUS_ISA"@[5] == 'S');
    assert("BUS_ISA"@[6] == 'A');
    assert("BUS_I8042"@.len() == 9);
    assert("BUS_I8042"@[4] == 'I');
    assert("BUS_I8042"@[5] == '8');
    assert("BUS_I8042"@[6] == '0');
    assert("BUS_I8042"@[7] == '4');
    assert("BUS_I8042"@[8] == '2');
    assert("BUS_XTKBD"@.len() == 9);
    assert("BUS_XTKBD"@[4] == 'X');
    assert("BUS_XTKBD"@[5] == 'T');
    assert("BUS_XTKBD"@[6] == 'K');
    assert("BUS_XTKBD"@[7] == 'B');
    assert("BUS_XTKBD"@[8] == 'D');
    assert("BUS_RS232"@.len() == 9);
    assert("BUS_RS232"@[4] == 'R');
    assert("BUS_RS232"@[5] == 'S');
    assert("BUS_RS232"@[6] == '2');
    assert("BUS_RS232"@[7] == '3');
    assert("BUS_RS232"@[8] == '2');
    assert("BUS_GAMEPORT"@.len() == 12);
    assert("BUS_PARPORT"@.len() == 11);
    assert("BUS_PARPORT"@[4] == 'P');
    assert("BUS_PARPORT"@[5] == 'A');
    assert("BUS_PARPORT"@[7] == 'P');
    assert("BUS_PARPORT"@[8] == 'O');
    assert("BUS_PARPORT"@[9] == 'R');
    assert("BUS_PARPORT"@[10] == 'T');
    assert("BUS_AMIGA"@.len() == 9);
    assert("BUS_AMIGA"@[4] == 'A');
    assert("BUS_AMIGA"@[5] == 'M');
    assert("BUS_AMIGA"@[6] == 'I');
    assert("BUS_AMIGA"@[7] == 'G');
    assert("BUS_AMIGA"@[8] == 'A');
    assert("BUS_ADB"@.len() == 7);
    assert("BUS_ADB"@[4] == 'A');
    assert("BUS_ADB"@[5] == 'D');
    assert("BUS_ADB"@[6] == 'B');
    assert("BUS_I2C"@.len() == 7);
    assert("BUS_I2C"@[4] == 'I');
    assert("BUS_I2C"@[5] == '2');
    assert("BUS_I2C"@[6] == 'C');
    assert("BUS_HOST"@.len() == 8);
    assert("BUS_GSC"@.len() == 7);
    assert("BUS_GSC"@[4] == 'G');
    assert("BUS_GSC"@[5] == 'S');
    assert("BUS_GSC"@[6] == 'C');
    assert("BUS_ATARI"@.len() == 9);
    assert("BUS_ATARI"@[4] == 'A');
    assert("BUS_ATARI"@[5] == 'T');
    assert("BUS_ATARI"@[6] == 'A');
    assert("BUS_ATARI"@[7] == 'R');
    assert("BUS_ATARI"@[8] == 'I');
    assert("BUS_SPI"@.len() == 7);
    assert("BUS_SPI"@[4] == 'S');
    assert("BUS_SPI"@[5] == 'P');
    assert("BUS_SPI"@[6] == 'I');
    assert("BUS_RMI"@.len() == 7);
    assert("BUS_RMI"@[4] == 'R');
    assert("BUS_RMI"@[5] == 'M');
    assert("BUS_RMI"@[6] == 'I');
    assert("BUS_CEC"@.len() == 7);
    assert("BUS_CEC"@[4] == 'C');
    assert("BUS_CEC"@[5] == 'E');
    assert("BUS_CEC"@[6] == 'C');
    assert("BUS_INTEL_ISHTP"@.len() == 15);
}

/// Parsing the name of a bus type gives its code back, and a parsed code is named
/// by exactly the name that was parsed.
pub proof fn law_bus_kernel_name_parse(c: u16, n: Seq<char>)
    ensures
        bus_kernel_name(c) matches Some(m) ==> bus_kernel_code(m) == Some(c),
        bus_kernel_code(n) matches Some(d) ==> bus_kernel_name(d) == Some(n),
{
    law_bus_kernel_names();
}

/// Each repeat setting constant is named by its own identifier, and parsing that
/// identifier gives back the constant.
pub proof fn law_repeat_code_names()
    ensures
        repeat_code_name(RepeatCode::REP_DELAY) == Some("REP_DELAY"@),
        repeat_code_name(RepeatCode::REP_PERIOD) == Some("REP_PERIOD"@),
        repeat_code_code("REP_DELAY"@) == Some(RepeatCode::REP_DELAY),
        repeat_code_code("REP_PERIOD"@) == Some(RepeatCode::REP_PERIOD),
{
    reveal_strlit("REP_DELAY");
    reveal_strlit("REP_PERIOD");
    assert("REP_DELAY"@.len() == 9);
    assert("REP_PERIOD"@.len() == 10);
}

/// Parsing the name of a repeat setting gives its code back, and a parsed code is named
/// by exactly the name that was parsed.
pub proof fn law_repeat_code_name_parse(c: u16, n: Seq<char>)
    ensures
        repeat_code_name(c) matches Some(m) ==> repeat_code_code(m) == Some(c),
        repeat_code_code(n) matches Some(d) ==> repeat_code_name(d) == Some(n),
{
    law_repeat_code_names();
}

/// How the key names from position 0 of the name table on are spelled,
/// as far as it tells them apart from names of the same length.
proof fn lemma_key_code_spelling_1()
    ensures
        "KEY_RESERVED"@.len() == 12,
        "KEY_RESERVED"@[0] == 'K',
        "KEY_RESERVED"@[1] == 'E',
        "KEY_RESERVED"@[2] == 'Y',
        "KEY_RESERVED"@[4] == 'R',
        "KEY_RESERVED"@[5] == 'E',
        "KEY_RESERVED"@[6] == 'S',
        "KEY_RESERVED"@[7] == 'E',
        "KEY_RESERVED"@[8] == 'R',
        "KEY_RESERVED"@[9] == 'V',
        "KEY_RESERVED"@[10] == 'E',
        "KEY_RESERVED"@[11] == 'D',
        "KEY_ESC"@.len() == 7,
        "KEY_ESC"@[0] == 'K',
        "KEY_ESC"@[1] == 'E',
        "KEY_ESC"@[2] == 'Y',
        "KEY_ESC"@[4] == 'E',
        "KEY_ESC"@[5] == 'S',
        "KEY_ESC"@[6] == 'C',
        "KEY_1"@.len() == 5,
        "KEY_1"@[0] == 'K',
        "KEY_1"@[1] == 'E',
        "KEY_1"@[2] == 'Y',
        "KEY_1"@[4] == '1',
        "KEY_2"@.len() == 5,
        "KEY_2"@[0] == 'K',
        "KEY_2"@[1] == 'E',
        "KEY_2"@[2] == 'Y',
        "KEY_2"@[4] == '2',
        "KEY_3"@.len() == 5,
        "KEY_3"@[0] == 'K',
        "KEY_3"@[1] == 'E',
        "KEY_3"@[2] == 'Y',
        "KEY_3"@[4] == '3',
        "KEY_4"@.len() == 5,
        "KEY_4"@[0] == 'K',
        "KEY_4"@[1] == 'E',
        "KEY_4"@[2] == 'Y',
        "KEY_4"@[4] == '4',
        "KEY_5"@.len() == 5,
        "KEY_5"@[0] == 'K',
        "KEY_5"@[1] == 'E',
        "KEY_5"@[2] == 'Y',
        "KEY_5"@[4] == '5',
        "KEY_6"@.len() == 5,
        "KEY_6"@[0] == 'K',
        "KEY_6"@[1] == 'E',
        "KEY_6"@[2] == 'Y',
        "KEY_6"@[4] == '6',
        "KEY_7"@.len() == 5,
        "KEY_7"@[0] == 'K',
        "KEY_7"@[1] == 'E',
        "KEY_7"@[2] == 'Y',
        "KEY_7"@[4] == '7',
        "KEY_8"@.len() == 5,
        "KEY_8"@[0] == 'K',
        "KEY_8"@[1] == 'E',
        "KEY_8"@[2] == 'Y',
        "KEY_8"@[4] == '8',
        "KEY_9"@.len() == 5,
        "KEY_9"@[0] == 'K',
        "KEY_9"@[1] == 'E',
        "KEY_9"@[2] == 'Y',
        "KEY_9"@[4] == '9',
        "KEY_0"@.len() == 5,
        "KEY_0"@[0] == 'K',
        "KEY_0"@[1] == 'E',
        "KEY_0"@[2] == 'Y',
        "KEY_0"@[4] == '0',
        "KEY_MINUS"@.len() == 9,
        "KEY_MINUS"@[0] == 'K',
        "KEY_MINUS"@[1] == 'E',
        "KEY_MINUS"@[2] == 'Y',
        "KEY_MINUS"@[4] == 'M',
        "KEY_MINUS"@[5] == 'I',
        "KEY_MINUS"@[6] == 'N',
        "KEY_MINUS"@[7] == 'U',
        "KEY_MINUS"@[8] == 'S',
        "KEY_EQUAL"@.len() == 9,
        "KEY_EQUAL"@[0] == 'K',
        "KEY_EQUAL"@[1] == 'E',
        "KEY_EQUAL"@[2] == 'Y',
        "KEY_EQUAL"@[4] == 'E',
        "KEY_EQUAL"@[5] == 'Q',
        "KEY_EQUAL"@[6] == 'U',
        "KEY_EQUAL"@[7] == 'A',
        "KEY_EQUAL"@[8] == 'L',
        "KEY_BACKSPACE"@.len() == 13,
        "KEY_BACKSPACE"@[0] == 'K',
        "KEY_BACKSPACE"@[1] == 'E',
        "KEY_BACKSPACE"@[2] == 'Y',
        "KEY_BACKSPACE"@[4] == 'B',
        "KEY_BACKSPACE"@[5] == 'A',
        "KEY_BACKSPACE"@[6] == 'C',
        "KEY_BACKSPACE"@[7] == 'K',
        "KEY_BACKSPACE"@[8] == 'S',
        "KEY_BACKSPACE"@[9] == 'P',
        "KEY_BACKSPACE"@[10] == 'A',
        "KEY_BACKSPACE"@[11] == 'C',
        "KEY_BACKSPACE"@[12] == 'E',
        "KEY_TAB"@.len() == 7,
        "KEY_TAB"@[0] == 'K',
        "KEY_TAB"@[1] == 'E',
        "KEY_TAB"@[2] == 'Y',
        "KEY_TAB"@[4] == 'T',
        "KEY_TAB"@[5] == 'A',
        "KEY_TAB"@[6] == 'B',
        "KEY_Q"@.len() == 5,
        "KEY_Q"@[0] == 'K',
        "KEY_Q"@[1] == 'E',
        "KEY_Q"@[2] == 'Y',
        "KEY_Q"@[4] == 'Q',
        "KEY_W"@.len() == 5,
        "KEY_W"@[0] == 'K',
        "KEY_W"@[1] == 'E',
        "KEY_W"@[2] == 'Y',
        "KEY_W"@[4] == 'W',
        "KEY_E"@.len() == 5,
        "KEY_E"@[0] == 'K',
        "KEY_E"@[1] == 'E',
        "KEY_E"@[2] == 'Y',
        "KEY_E"@[4] == 'E',
        "KEY_R"@.len() == 5,
        "KEY_R"@[0] == 'K',
        "KEY_R"@[1] == 'E',
        "KEY_R"@[2] == 'Y',
        "KEY_R"@[4] == 'R',
        "KEY_T"@.len() == 5,
        "KEY_T"@[0] == 'K',
        "KEY_T"@[1] == 'E',
        "KEY_T"@[2] == 'Y',
        "KEY_T"@[4] == 'T',
        "KEY_Y"@.len() == 5,
        "KEY_Y"@[0] == 'K',
        "KEY_Y"@[1] == 'E',
        "KEY_Y"@[2] == 'Y',
        "KEY_Y"@[4] == 'Y',
        "KEY_U"@.len() == 5,
        "KEY_U"@[0] == 'K',
        "KEY_U"@[1] == 'E',
        "KEY_U"@[2] == 'Y',
        "KEY_U"@[4] == 'U',
        "KEY_I"@.len() == 5,
        "KEY_I"@[0] == 'K',
        "KEY_I"@[1] == 'E',
        "KEY_I"@[2] == 'Y',
        "KEY_I"@[4] == 'I',
        "KEY_O"@.len() == 5,
        "KEY_O"@[0] == 'K',
        "KEY_O"@[1] == 'E',
        "KEY_O"@[2] == 'Y',
        "KEY_O"@[4] == 'O',
        "KEY_P"@.len() == 5,
        "KEY_P"@[0] == 'K',
        "KEY_P"@[1] == 'E',
        "KEY_P"@[2] == 'Y',
        "KEY_P"@[4] == 'P',
        "KEY_LEFTBRACE"@.len() == 13,
        "KEY_LEFTBRACE"@[0] == 'K',
        "KEY_LEFTBRACE"@[1] == 'E',
        "KEY_LEFTBRACE"@[2] == 'Y',
        "KEY_LEFTBRACE"@[4] == 'L',
        "KEY_LEFTBRACE"@[5] == 'E',
        "KEY_LEFTBRACE"@[6] == 'F',
        "KEY_LEFTBRACE"@[7] == 'T',
        "KEY_LEFTBRACE"@[8] == 'B',
        "KEY_LEFTBRACE"@[9] == 'R',
        "KEY_LEFTBRACE"@[10] == 'A',
        "KEY_LEFTBRACE"@[11] == 'C',
        "KEY_LEFTBRACE"@[12] == 'E',
        "KEY_RIGHTBRACE"@.len() == 14,
        "KEY_RIGHTBRACE"@[0] == 'K',
        "KEY_RIGHTBRACE"@[1] == 'E',
        "KEY_RIGHTBRACE"@[2] == 'Y',
        "KEY_RIGHTBRACE"@[4] == 'R',
        "KEY_RIGHTBRACE"@[5] == 'I',
        "KEY_RIGHTBRACE"@[6] == 'G',
        "KEY_RIGHTBRACE"@[7] == 'H',
        "KEY_RIGHTBRACE"@[8] == 'T',
        "KEY_RIGHTBRACE"@[9] == 'B',
        "KEY_RIGHTBRACE"@[10] == 'R',
        "KEY_RIGHTBRACE"@[11] == 'A',
        "KEY_RIGHTBRACE"@[12] == 'C',
        "KEY_RIGHTBRACE"@[13] == 'E',
{
    reveal_strlit("KEY_RESERVED");
    reveal_strlit("KEY_ESC");
    reveal_strlit("KEY_1");
    reveal_strlit("KEY_2");
    reveal_strlit("KEY_3");
    reveal_strlit("KEY_4");
    reveal_strlit("KEY_5");
    reveal_strlit("KEY_6");
    reveal_strlit("KEY_7");
    reveal_strlit("KEY_8");
    reveal_strlit("KEY_9");
    reveal_strlit("KEY_0");
    reveal_strlit("KEY_MINUS");
    reveal_strlit("KEY_EQUAL");
    reveal_strlit("KEY_BACKSPACE");
    reveal_strlit("KEY_TAB");
    reveal_strlit("KEY_Q");
    reveal_strlit("KEY_W");
    reveal_strlit("KEY_E");
    reveal_strlit("KEY_R");
    reveal_strlit("KEY_T");
    reveal_strlit("KEY_Y");
    reveal_strlit("KEY_U");
    reveal_strlit("KEY_I");
    reveal_strlit("KEY_O");
    reveal_strlit("KEY_P");
    reveal_strlit("KEY_LEFTBRACE");
    reveal_strlit("KEY_RIGHTBRACE");
}

/// How the key names from position 28 of the name table on are spelled,
/// as far as it tells them apart from names of the same length.
proof fn lemma_key_code_spelling_2()
    ensures
        "KEY_ENTER"@.len() == 9,
        "KEY_ENTER"@[0] == 'K',
        "KEY_ENTER"@[1] == 'E',
        "KEY_ENTER"@[2] == 'Y',
        "KEY_ENTER"@[4] == 'E',
        "KEY_ENTER"@[5] == 'N',
        "KEY_ENTER"@[6] == 'T',
        "KEY_ENTER"@[7] == 'E',
        "KEY_ENTER"@[8] == 'R',
        "KEY_LEFTCTRL"@.len() == 12,
        "KEY_LEFTCTRL"@[0] == 'K',
        "KEY_LEFTCTRL"@[1] == 'E',
        "KEY_LEFTCTRL"@[2] == 'Y',
        "KEY_LEFTCTRL"@[4] == 'L',
        "KEY_LEFTCTRL"@[5] == 'E',
        "KEY_LEFTCTRL"@[6] == 'F',
        "KEY_LEFTCTRL"@[7] == 'T',
        "KEY_LEFTCTRL"@[8] == 'C',
        "KEY_LEFTCTRL"@[9] == 'T',
        "KEY_LEFTCTRL"@[10] == 'R',
        "KEY_LEFTCTRL"@[11] == 'L',
        "KEY_A"@.len() == 5,
        "KEY_A"@[0] == 'K',
        "KEY_A"@[1] == 'E',
        "KEY_A"@[2] == 'Y',
        "KEY_A"@[4] == 'A',
        "KEY_S"@.len() == 5,
        "KEY_S"@[0] == 'K',
        "KEY_S"@[1] == 'E',
        "KEY_S"@[2] == 'Y',
        "KEY_S"@[4] == 'S',
        "KEY_D"@.len() == 5,
        "KEY_D"@[0] == 'K',
        "KEY_D"@[1] == 'E',
        "KEY_D"@[2] == 'Y',
        "KEY_D"@[4] == 'D',
        "KEY_F"@.len() == 5,
        "KEY_F"@[0] == 'K',
        "KEY_F"@[1] == 'E',
        "KEY_F"@[2] == 'Y',
        "KEY_F"@[4] == 'F',
        "KEY_G"@.len() == 5,
        "KEY_G"@[0] == 'K',
        "KEY_G"@[1] == 'E',
        "KEY_G"@[2] == 'Y',
        "KEY_G"@[4] == 'G',
        "KEY_H"@.len() == 5,
        "KEY_H"@[0] == 'K',
        "KEY_H"@[1] == 'E',
        "KEY_H"@[2] == 'Y',
        "KEY_H"@[4] == 'H',
        "KEY_J"@.len() == 5,
        "KEY_J"@[0] == 'K',
        "KEY_J"@[1] == 'E',
        "KEY_J"@[2] == 'Y',
        "KEY_J"@[4] == 'J',
        "KEY_K"@.len() == 5,
        "KEY_K"@[0] == 'K',
        "KEY_K"@[1] == 'E',
        "KEY_K"@[2] == 'Y',
        "KEY_K"@[4] == 'K',
        "KEY_L"@.len() == 5,
        "KEY_L"@[0] == 'K',
        "KEY_L"@[1] == 'E',
        "KEY_L"@[2] == 'Y',
        "KEY_L"@[4] == 'L',
        "KEY_SEMICOLON"@.len() == 13,
        "KEY_SEMICOLON"@[0] == 'K',
        "KEY_SEMICOLON"@[1] == 'E',
        "KEY_SEMICOLON"@[2] == 'Y',
        "KEY_SEMICOLON"@[4] == 'S',
        "KEY_SEMICOLON"@[5] == 'E',
        "KEY_SEMICOLON"@[6] == 'M',
        "KEY_SEMICOLON"@[7] == 'I',
        "KEY_SEMICOLON"@[8] == 'C',
        "KEY_SEMICOLON"@[9] == 'O',
        "KEY_SEMICOLON"@[10] == 'L',
        "KEY_SEMICOLON"@[11] == 'O',
        "KEY_SEMICOLON"@[12] == 'N',
        "KEY_APOSTROPHE"@.len() == 14,
        "KEY_APOSTROPHE"@[0] == 'K',
        "KEY_APOSTROPHE"@[1] == 'E',
        "KEY_APOSTROPHE"@[2] == 'Y',
        "KEY_APOSTROPHE"@[4] == 'A',
        "KEY_APOSTROPHE"@[5] == 'P',
        "KEY_APOSTROPHE"@[6] == 'O',
        "KEY_APOSTROPHE"@[7] == 'S',
        "KEY_APOSTROPHE"@[8] == 'T',
        "KEY_APOSTROPHE"@[9] == 'R',
        "KEY_APOSTROPHE"@[10] == 'O',
        "KEY_APOSTROPHE"@[11] == 'P',
        "KEY_APOSTROPHE"@[12] == 'H',
        "KEY_APOSTROPHE"@[13] == 'E',
        "KEY_GRAVE"@.len() == 9,
        "KEY_GRAVE"@[0] == 'K',
        "KEY_GRAVE"@[1] == 'E',
        "KEY_GRAVE"@[2] == 'Y',
        "KEY_GRAVE"@[4] == 'G',
        "KEY_GRAVE"@[5] == 'R',
        "KEY_GRAVE"@[6] == 'A',
        "KEY_GRAVE"@[7] == 'V',
        "KEY_GRAVE"@[8] == 'E',
        "KEY_LEFTSHIFT"@.len() == 13,
        "KEY_LEFTSHIFT"@[0] == 'K',
        "KEY_LEFTSHIFT"@[1] == 'E',
        "KEY_LEFTSHIFT"@[2] == 'Y',
        "KEY_LEFTSHIFT"@[4] == 'L',
        "KEY_LEFTSHIFT"@[5] == 'E',
        "KEY_LEFTSHIFT"@[6] == 'F',
        "KEY_LEFTSHIFT"@[7] == 'T',
        "KEY_LEFTSHIFT"@[8] == 'S',
        "KEY_LEFTSHIFT"@[9] == 'H',
        "KEY_LEFTSHIFT"@[10] == 'I',
        "KEY_LEFTSHIFT"@[11] == 'F',
        "KEY_LEFTSHIFT"@[12] == 'T',
        "KEY_BACKSLASH"@.len() == 13,
        "KEY_BACKSLASH"@[0] == 'K',
        "KEY_BACKSLASH"@[1] == 'E',
        "KEY_BACKSLASH"@[2] == 'Y',
        "KEY_BACKSLASH"@[4] == 'B',
        "KEY_BACKSLASH"@[5] == 'A',
        "KEY_BACKSLASH"@[6] == 'C',
        "KEY_BACKSLASH"@[7] == 'K',
        "KEY_BACKSLASH"@[8] == 'S',
        "KEY_BACKSLASH"@[9] == 'L',
        "KEY_BACKSLASH"@[10] == 'A',
        "KEY_BACKSLASH"@[11] == 'S',
        "KEY_BACKSLASH"@[12] == 'H',
        "KEY_Z"@.len() == 5,
        "KEY_Z"@[0] == 'K',
        "KEY_Z"@[1] == 'E',
        "KEY_Z"@[2] == 'Y',
        "KEY_Z"@[4] == 'Z',
        "KEY_X"@.len() == 5,
        "KEY_X"@[0] == 'K',
        "KEY_X"@[1] == 'E',
        "KEY_X"@[2] == 'Y',
        "KEY_X"@[4] == 'X',
        "KEY_C"@.len() == 5,
        "KEY_C"@[0] == 'K',
        "KEY_C"@[1] == 'E',
        "KEY_C"@[2] == 'Y',
        "KEY_C"@[4] == 'C',
        "KEY_V"@.len() == 5,
        "KEY_V"@[0] == 'K',
        "KEY_V"@[1] == 'E',
        "KEY_V"@[2] == 'Y',
        "KEY_V"@[4] == 'V',
        "KEY_B"@.len() == 5,
        "KEY_B"@[0] == 'K',
        "KEY_B"@[1] == 'E',
        "KEY_B"@[2] == 'Y',
        "KEY_B"@[4] == 'B',
        "KEY_N"@.len() == 5,
        "KEY_N"@[0] == 'K',
        "KEY_N"@[1] == 'E',
        "KEY_N"@[2] == 'Y',
        "KEY_N"@[4] == 'N',
        "KEY_M"@.len() == 5,
        "KEY_M"@[0] == 'K',
        "KEY_M"@[1] == 'E',
        "KEY_M"@[2] == 'Y',
        "KEY_M"@[4] == 'M',
        "KEY_COMMA"@.len() == 9,
        "KEY_COMMA"@[0] == 'K',
        "KEY_COMMA"@[1] == 'E',
        "KEY_COMMA"@[2] == 'Y',
        "KEY_COMMA"@[4] == 'C',
        "KEY_COMMA"@[5] == 'O',
        "KEY_COMMA"@[6] == 'M',
        "KEY_COMMA"@[7] == 'M',
        "KEY_COMMA"@[8] == 'A',
        "KEY_DOT"@.len() == 7,
        "KEY_DOT"@[0] == 'K',
        "KEY_DOT"@[1] == 'E',
        "KEY_DOT"@[2] == 'Y',
        "KEY_DOT"@[4] == 'D',
        "KEY_DOT"@[5] == 'O',
        "KEY_DOT"@[6] == 'T',
        "KEY_SLASH"@.len() == 9,
        "KEY_SLASH"@[0] == 'K',
        "KEY_SLASH"@[1] == 'E',
        "KEY_SLASH"@[2] == 'Y',
        "KEY_SLASH"@[4] == 'S',
        "KEY_SLASH"@[5] == 'L',
        "KEY_SLASH"@[6] == 'A',
        "KEY_SLASH"@[7] == 'S',
        "KEY_SLASH"@[8] == 'H',
        "KEY_RIGHTSHIFT"@.len() == 14,
        "KEY_RIGHTSHIFT"@[0] == 'K',
        "KEY_RIGHTSHIFT"@[1] == 'E',
        "KEY_RIGHTSHIFT"@[2] == 'Y',
        "KEY_RIGHTSHIFT"@[4] == 'R',
        "KEY_RIGHTSHIFT"@[5] == 'I',
        "KEY_RIGHTSHIFT"@[6] == 'G',
        "KEY_RIGHTSHIFT"@[7] == 'H',
        "KEY_RIGHTSHIFT"@[8] == 'T',
        "KEY_RIGHTSHIFT"@[9] == 'S',
        "KEY_RIGHTSHIFT"@[10] == 'H',
        "KEY_RIGHTSHIFT"@[11] == 'I',
        "KEY_RIGHTSHIFT"@[12] == 'F',
        "KEY_RIGHTSHIFT"@[13] == 'T',
        "KEY_KPASTERISK"@.len() == 14,
        "KEY_KPASTERISK"@[0] == 'K',
        "KEY_KPASTERISK"@[1] == 'E',
        "KEY_KPASTERISK"@[2] == 'Y',
        "KEY_KPASTERISK"@[4] == 'K',
        "KEY_KPASTERISK"@[5] == 'P',
        "KEY_KPASTERISK"@[6] == 'A',
        "KEY_KPASTERISK"@[7] == 'S',
        "KEY_KPASTERISK"@[8] == 'T',
        "KEY_KPASTERISK"@[9] == 'E',
        "KEY_KPASTERISK"@[10] == 'R',
        "KEY_KPASTERISK"@[11] == 'I',
        "KEY_KPASTERISK"@[12] == 'S',
        "KEY_KPASTERISK"@[13] == 'K',
{
    reveal_strlit("KEY_ENTER");
    reveal_strlit("KEY_LEFTCTRL");
    reveal_strlit("KEY_A");
    reveal_strlit("KEY_S");
    reveal_strlit("KEY_D");
    reveal_strlit("KEY_F");
    reveal_strlit("KEY_G");
    reveal_strlit("KEY_H");
    reveal_strlit("KEY_J");
    reveal_strlit("KEY_K");
    reveal_strlit("KEY_L");
    reveal_strlit("KEY_SEMICOLON");
    reveal_strlit("KEY_APOSTROPHE");
    reveal_strlit("KEY_GRAVE");
    reveal_strlit("KEY_LEFTSHIFT");
    reveal_strlit("KEY_BACKSLASH");
    reveal_strlit("KEY_Z");
    reveal_strlit("KEY_X");
    reveal_strlit("KEY_C");
    reveal_strlit("KEY_V");
    reveal_strlit("KEY_B");
    reveal_strlit("KEY_N");
    reveal_strlit("KEY_M");
    reveal_strlit("KEY_COMMA");
    reveal_strlit("KEY_DOT");
    reveal_strlit("KEY_SLASH");
    reveal_strlit("KEY_RIGHTSHIFT");
    reveal_strlit("KEY_KPASTERISK");
}

/// How the key names from position 56 of the name table on are spelled,
/// as far as it tells them apart from names of the same length.
proof fn lemma_key_code_spelling_3()
    ensures
        "KEY_LEFTALT"@.len() == 11,
        "KEY_LEFTALT"@[0] == 'K',
        "KEY_LEFTALT"@[1] == 'E',
        "KEY_LEFTALT"@[2] == 'Y',
        "KEY_LEFTALT"@[4] == 'L',
        "KEY_LEFTALT"@[5] == 'E',
        "KEY_LEFTALT"@[6] == 'F',
        "KEY_LEFTALT"@[7] == 'T',
        "KEY_LEFTALT"@[8] == 'A',
        "KEY_LEFTALT"@[9] == 'L',
        "KEY_LEFTALT"@[10] == 'T',
        "KEY_SPACE"@.len() == 9,
        "KEY_SPACE"@[0] == 'K',
        "KEY_SPACE"@[1] == 'E',
        "KEY_SPACE"@[2] == 'Y',
        "KEY_SPACE"@[4] == 'S',
        "KEY_SPACE"@[5] == 'P',
        "KEY_SPACE"@[6] == 'A',
        "KEY_SPACE"@[7] == 'C',
        "KEY_SPACE"@[8] == 'E',
        "KEY_CAPSLOCK"@.len() == 12,
        "KEY_CAPSLOCK"@[0] == 'K',
        "KEY_CAPSLOCK"@[1] == 'E',
        "KEY_CAPSLOCK"@[2] == 'Y',
        "KEY_CAPSLOCK"@[4] == 'C',
        "KEY_CAPSLOCK"@[5] == 'A',
        "KEY_CAPSLOCK"@[6] == 'P',
        "KEY_CAPSLOCK"@[7] == 'S',
        "KEY_CAPSLOCK"@[8] == 'L',
        "KEY_CAPSLOCK"@[9] == 'O',
        "KEY_CAPSLOCK"@[10] == 'C',
        "KEY_CAPSLOCK"@[11] == 'K',
        "KEY_F1"@.len() == 6,
        "KEY_F1"@[0] == 'K',
        "KEY_F1"@[1] == 'E',
        "KEY_F1"@[2] == 'Y',
        "KEY_F1"@[4] == 'F',
        "KEY_F1"@[5] == '1',
        "KEY_F2"@.len() == 6,
        "KEY_F2"@[0] == 'K',
        "KEY_F2"@[1] == 'E',
        "KEY_F2"@[2] == 'Y',
        "KEY_F2"@[4] == 'F',
        "KEY_F2"@[5] == '2',
        "KEY_F3"@.len() == 6,
        "KEY_F3"@[0] == 'K',
        "KEY_F3"@[1] == 'E',
        "KEY_F3"@[2] == 'Y',
        "KEY_F3"@[4] == 'F',
        "KEY_F3"@[5] == '3',
        "KEY_F4"@.len() == 6,
        "KEY_F4"@[0] == 'K',
        "KEY_F4"@[1] == 'E',
        "KEY_F4"@[2] == 'Y',
        "KEY_F4"@[4] == 'F',
        "KEY_F4"@[5] == '4',
        "KEY_F5"@.len() == 6,
        "KEY_F5"@[0] == 'K',
        "KEY_F5"@[1] == 'E',
        "KEY_F5"@[2] == 'Y',
        "KEY_F5"@[4] == 'F',
        "KEY_F5"@[5] == '5',
        "KEY_F6"@.len() == 6,
        "KEY_F6"@[0] == 'K',
        "KEY_F6"@[1] == 'E',
        "KEY_F6"@[2] == 'Y',
        "KEY_F6"@[4] == 'F',
        "KEY_F6"@[5] == '6',
        "KEY_F7"@.len() == 6,
        "KEY_F7"@[0] == 'K',
        "KEY_F7"@[1] == 'E',
        "KEY_F7"@[2] == 'Y',
        "KEY_F7"@[4] == 'F',
        "KEY_F7"@[5] == '7',
        "KEY_F8"@.len() == 6,
        "KEY_F8"@[0] == 'K',
        "KEY_F8"@[1] == 'E',
        "KEY_F8"@[2] == 'Y',
        "KEY_F8"@[4] == 'F',
        "KEY_F8"@[5] == '8',
        "KEY_F9"@.len() == 6,
        "KEY_F9"@[0] == 'K',
        "KEY_F9"@[1] == 'E',
        "KEY_F9"@[2] == 'Y',
        "KEY_F9"@[4] == 'F',
        "KEY_F9"@[5] == '9',
        "KEY_F10"@.len() == 7,
        "KEY_F10"@[0] == 'K',
        "KEY_F10"@[1] == 'E',
        "KEY_F10"@[2] == 'Y',
        "KEY_F10"@[4] == 'F',
        "KEY_F10"@[5] == '1',
        "KEY_F10"@[6] == '0',
        "KEY_NUMLOCK"@.len() == 11,
        "KEY_NUMLOCK"@[0] == 'K',
        "KEY_NUMLOCK"@[1] == 'E',
        "KEY_NUMLOCK"@[2] == 'Y',
        "KEY_NUMLOCK"@[4] == 'N',
        "KEY_NUMLOCK"@[5] == 'U',
        "KEY_NUMLOCK"@[6] == 'M',
        "KEY_NUMLOCK"@[7] == 'L',
        "KEY_NUMLOCK"@[8] == 'O',
        "KEY_NUMLOCK"@[9] == 'C',
        "KEY_NUMLOCK"@[10] == 'K',
        "KEY_SCROLLLOCK"@.len() == 14,
        "KEY_SCROLLLOCK"@[0] == 'K',
        "KEY_SCROLLLOCK"@[1] == 'E',
        "KEY_SCROLLLOCK"@[2] == 'Y',
        "KEY_SCROLLLOCK"@[4] == 'S',
        "KEY_SCROLLLOCK"@[5] == 'C',
        "KEY_SCROLLLOCK"@[6] == 'R',
        "KEY_SCROLLLOCK"@[7] == 'O',
        "KEY_SCROLLLOCK"@[8] == 'L',
        "KEY_SCROLLLOCK"@[9] == 'L',
        "KEY_SCROLLLOCK"@[10] == 'L',
        "KEY_SCROLLLOCK"@[11] == 'O',
        "KEY_SCROLLLOCK"@[12] == 'C',
        "KEY_SCROLLLOCK"@[13] == 'K',
        "KEY_KP7"@.len() == 7,
        "KEY_KP7"@[0] == 'K',
        "KEY_KP7"@[1] == 'E',
        "KEY_KP7"@[2] == 'Y',
        "KEY_KP7"@[4] == 'K',
        "KEY_KP7"@[5] == 'P',
        "KEY_KP7"@[6] == '7',
        "KEY_KP8"@.len() == 7,
        "KEY_KP8"@[0] == 'K',
        "KEY_KP8"@[1] == 'E',
        "KEY_KP8"@[2] == 'Y',
        "KEY_KP8"@[4] == 'K',
        "KEY_KP8"@[5] == 'P',
        "KEY_KP8"@[6] == '8',
        "KEY_KP9"@.len() == 7,
        "KEY_KP9"@[0] == 'K',
        "KEY_KP9"@[1] == 'E',
        "KEY_KP9"@[2] == 'Y',
        "KEY_KP9"@[4] == 'K',
        "KEY_KP9"@[5] == 'P',
        "KEY_KP9"@[6] == '9',
        "KEY_KPMINUS"@.len() == 11,
        "KEY_KPMINUS"@[0] == 'K',
        "KEY_KPMINUS"@[1] == 'E',
        "KEY_KPMINUS"@[2] == 'Y',
        "KEY_KPMINUS"@[4] == 'K',
        "KEY_KPMINUS"@[5] == 'P',
        "KEY_KPMINUS"@[6] == 'M',
        "KEY_KPMINUS"@[7] == 'I',
        "KEY_KPMINUS"@[8] == 'N',
        "KEY_KPMINUS"@[9] == 'U',
        "KEY_KPMINUS"@[10] == 'S',
        "KEY_KP4"@.len() == 7,
        "KEY_KP4"@[0] == 'K',
        "KEY_KP4"@[1] == 'E',
        "KEY_KP4"@[2] == 'Y',
        "KEY_KP4"@[4] == 'K',
        "KEY_KP4"@[5] == 'P',
        "KEY_KP4"@[6] == '4',
        "KEY_KP5"@.len() == 7,
        "KEY_KP5"@[0] == 'K',
        "KEY_KP5"@[1] == 'E',
        "KEY_KP5"@[2] == 'Y',
        "KEY_KP5"@[4] == 'K',
        "KEY_KP5"@[5] == 'P',
        "KEY_KP5"@[6] == '5',
        "KEY_KP6"@.len() == 7,
        "KEY_KP6"@[0] == 'K',
        "KEY_KP6"@[1] == 'E',
        "KEY_KP6"@[2] == 'Y',
        "KEY_KP6"@[4] == 'K',
        "KEY_KP6"@[5] == 'P',
        "KEY_KP6"@[6] == '6',
        "KEY_KPPLUS"@.len() == 10,
        "KEY_KPPLUS"@[0] == 'K',
        "KEY_KPPLUS"@[1] == 'E',
        "KEY_KPPLUS"@[2] == 'Y',
        "KEY_KPPLUS"@[4] == 'K',
        "KEY_KPPLUS"@[5] == 'P',
        "KEY_KPPLUS"@[6] == 'P',
        "KEY_KPPLUS"@[7] == 'L',
        "KEY_KPPLUS"@[8] == 'U',
        "KEY_KPPLUS"@[9] == 'S',
        "KEY_KP1"@.len() == 7,
        "KEY_KP1"@[0] == 'K',
        "KEY_KP1"@[1] == 'E',
        "KEY_KP1"@[2] == 'Y',
        "KEY_KP1"@[4] == 'K',
        "KEY_KP1"@[5] == 'P',
        "KEY_KP1"@[6] == '1',
        "KEY_KP2"@.len() == 7,
        "KEY_KP2"@[0] == 'K',
        "KEY_KP2"@[1] == 'E',
        "KEY_KP2"@[2] == 'Y',
        "KEY_KP2"@[4] == 'K',
        "KEY_KP2"@[5] == 'P',
        "KEY_KP2"@[6] == '2',
        "KEY_KP3"@.len() == 7,
        "KEY_KP3"@[0] == 'K',
        "KEY_KP3"@[1] == 'E',
        "KEY_KP3"@[2] == 'Y',
        "KEY_KP3"@[4] == 'K',
        "KEY_KP3"@[5] == 'P',
        "KEY_KP3"@[6] == '3',
        "KEY_KP0"@.len() == 7,
        "KEY_KP0"@[0] == 'K',
        "KEY_KP0"@[1] == 'E',
        "KEY_KP0"@[2] == 'Y',
        "KEY_KP0"@[4] == 'K',
        "KEY_KP0"@[5] == 'P',
        "KEY_KP0"@[6] == '0',
        "KEY_KPDOT"@.len() == 9,
        "KEY_KPDOT"@[0] == 'K',
        "KEY_KPDOT"@[1] == 'E',
        "KEY_KPDOT"@[2] == 'Y',
        "KEY_KPDOT"@[4] == 'K',
        "KEY_KPDOT"@[5] == 'P',
        "KEY_KPDOT"@[6] == 'D',
        "KEY_KPDOT"@[7] == 'O',
        "KEY_KPDOT"@[8] == 'T',
{
    reveal_strlit("KEY_LEFTALT");
    reveal_strlit("KEY_SPACE");
    reveal_strlit("KEY_CAPSLOCK");
    reveal_strlit("KEY_F1");
    reveal_strlit("KEY_F2");
    reveal_strlit("KEY_F3");
    reveal_strlit("KEY_F4");
    reveal_strlit("KEY_F5");
    reveal_strlit("KEY_F6");
    reveal_strlit("KEY_F7");
    reveal_strlit("KEY_F8");
    reveal_strlit("KEY_F9");
    reveal_strlit("KEY_F10");
    reveal_strlit("KEY_NUMLOCK");
    reveal_strlit("KEY_SCROLLLOCK");
    reveal_strlit("KEY_KP7");
    reveal_strlit("KEY_KP8");
    reveal_strlit("KEY_KP9");
    reveal_strlit("KEY_KPMINUS");
    reveal_strlit("KEY_KP4");
    reveal_strlit("KEY_KP5");
    reveal_strlit("KEY_KP6");
    reveal_strlit("KEY_KPPLUS");
    reveal_strlit("KEY_KP1");
    reveal_strlit("KEY_KP2");
    reveal_strlit("KEY_KP3");
    reveal_strlit("KEY_KP0");
    reveal_strlit("KEY_KPDOT");
}

/// How the key names from position 84 of the name table on are spelled,
/// as far as it tells them apart from names of the same length.
proof fn lemma_key_code_spelling_4()
    ensures
        "KEY_ZENKAKUHANKAKU"@.len() == 18,
        "KEY_ZENKAKUHANKAKU"@[0] == 'K',
        "KEY_ZENKAKUHANKAKU"@[1] == 'E',
        "KEY_ZENKAKUHANKAKU"@[2] == 'Y',
        "KEY_ZENKAKUHANKAKU"@[4] == 'Z',
        "KEY_ZENKAKUHANKAKU"@[5] == 'E',
        "KEY_ZENKAKUHANKAKU"@[6] == 'N',
        "KEY_ZENKAKUHANKAKU"@[7] == 'K',
        "KEY_ZENKAKUHANKAKU"@[8] == 'A',
        "KEY_ZENKAKUHANKAKU"@[9] == 'K',
        "KEY_ZENKAKUHANKAKU"@[10] == 'U',
        "KEY_ZENKAKUHANKAKU"@[11] == 'H',
        "KEY_ZENKAKUHANKAKU"@[12] == 'A',
        "KEY_ZENKAKUHANKAKU"@[13] == 'N',
        "KEY_ZENKAKUHANKAKU"@[14] == 'K',
        "KEY_ZENKAKUHANKAKU"@[15] == 'A',
        "KEY_ZENKAKUHANKAKU"@[16] == 'K',
        "KEY_ZENKAKUHANKAKU"@[17] == 'U',
        "KEY_102ND"@.len() == 9,
        "KEY_102ND"@[0] == 'K',
        "KEY_102ND"@[1] == 'E',
        "KEY_102ND"@[2] == 'Y',
        "KEY_102ND"@[4] == '1',
        "KEY_102ND"@[5] == '0',
        "KEY_102ND"@[6] == '2',
        "KEY_102ND"@[7] == 'N',
        "KEY_102ND"@[8] == 'D',
        "KEY_F11"@.len() == 7,
        "KEY_F11"@[0] == 'K',
        "KEY_F11"@[1] == 'E',
        "KEY_F11"@[2] == 'Y',
        "KEY_F11"@[4] == 'F',
        "KEY_F11"@[5] == '1',
        "KEY_F11"@[6] == '1',
        "KEY_F12"@.len() == 7,
        "KEY_F12"@[0] == 'K',
        "KEY_F12"@[1] == 'E',
        "KEY_F12"@[2] == 'Y',
        "KEY_F12"@[4] == 'F',
        "KEY_F12"@[5] == '1',
        "KEY_F12"@[6] == '2',
        "KEY_RO"@.len() == 6,
        "KEY_RO"@[0] == 'K',
        "KEY_RO"@[1] == 'E',
        "KEY_RO"@[2] == 'Y',
        "KEY_RO"@[4] == 'R',
        "KEY_RO"@[5] == 'O',
        "KEY_KATAKANA"@.len() == 12,
        "KEY_KATAKANA"@[0] == 'K',
        "KEY_KATAKANA"@[1] == 'E',
        "KEY_KATAKANA"@[2] == 'Y',
        "KEY_KATAKANA"@[4] == 'K',
        "KEY_KATAKANA"@[5] == 'A',
        "KEY_KATAKANA"@[6] == 'T',
        "KEY_KATAKANA"@[7] == 'A',
        "KEY_KATAKANA"@[8] == 'K',
        "KEY_KATAKANA"@[9] == 'A',
        "KEY_KATAKANA"@[10] == 'N',
        "KEY_KATAKANA"@[11] == 'A',
        "KEY_HIRAGANA"@.len() == 12,
        "KEY_HIRAGANA"@[0] == 'K',
        "KEY_HIRAGANA"@[1] == 'E',
        "KEY_HIRAGANA"@[2] == 'Y',
        "KEY_HIRAGANA"@[4] == 'H',
        "KEY_HIRAGANA"@[5] == 'I',
        "KEY_HIRAGANA"@[6] == 'R',
        "KEY_HIRAGANA"@[7] == 'A',
        "KEY_HIRAGANA"@[8] == 'G',
        "KEY_HIRAGANA"@[9] == 'A',
        "KEY_HIRAGANA"@[10] == 'N',
        "KEY_HIRAGANA"@[11] == 'A',
        "KEY_HENKAN"@.len() == 10,
        "KEY_HENKAN"@[0] == 'K',
        "KEY_HENKAN"@[1] == 'E',
        "KEY_HENKAN"@[2] == 'Y',
        "KEY_HENKAN"@[4] == 'H',
        "KEY_HENKAN"@[5] == 'E',
        "KEY_HENKAN"@[6] == 'N',
        "KEY_HENKAN"@[7] == 'K',
        "KEY_HENKAN"@[8] == 'A',
        "KEY_HENKAN"@[9] == 'N',
        "KEY_KATAKANAHIRAGANA"@.len() == 20,
        "KEY_MUHENKAN"@.len() == 12,
        "KEY_MUHENKAN"@[0] == 'K',
        "KEY_MUHENKAN"@[1] == 'E',
        "KEY_MUHENKAN"@[2] == 'Y',
        "KEY_MUHENKAN"@[4] == 'M',
        "KEY_MUHENKAN"@[5] == 'U',
        "KEY_MUHENKAN"@[6] == 'H',
        "KEY_MUHENKAN"@[7] == 'E',
        "KEY_MUHENKAN"@[8] == 'N',
        "KEY_MUHENKAN"@[9] == 'K',
        "KEY_MUHENKAN"@[10] == 'A',
        "KEY_MUHENKAN"@[11] == 'N',
        "KEY_KPJPCOMMA"@.len() == 13,
        "KEY_KPJPCOMMA"@[0] == 'K',
        "KEY_KPJPCOMMA"@[1] == 'E',
        "KEY_KPJPCOMMA"@[2] == 'Y',
        "KEY_KPJPCOMMA"@[4] == 'K',
        "KEY_KPJPCOMMA"@[5] == 'P',
        "KEY_KPJPCOMMA"@[6] == 'J',
        "KEY_KPJPCOMMA"@[7] == 'P',
        "KEY_KPJPCOMMA"@[8] == 'C',
        "KEY_KPJPCOMMA"@[9] == 'O',
        "KEY_KPJPCOMMA"@[10] == 'M',
        "KEY_KPJPCOMMA"@[11] == 'M',
        "KEY_KPJPCOMMA"@[12] == 'A',
        "KEY_KPENTER"@.len() == 11,
        "KEY_KPENTER"@[0] == 'K',
        "KEY_KPENTER"@[1] == 'E',
        "KEY_KPENTER"@[2] == 'Y',
        "KEY_KPENTER"@[4] == 'K',
        "KEY_KPENTER"@[5] == 'P',
        "KEY_KPENTER"@[6] == 'E',
        "KEY_KPENTER"@[7] == 'N',
        "KEY_KPENTER"@[8] == 'T',
        "KEY_KPENTER"@[9] == 'E',
        "KEY_KPENTER"@[10] == 'R',
        "KEY_RIGHTCTRL"@.len() == 13,
        "KEY_RIGHTCTRL"@[0] == 'K',
        "KEY_RIGHTCTRL"@[1] == 'E',
        "KEY_RIGHTCTRL"@[2] == 'Y',
        "KEY_RIGHTCTRL"@[4] == 'R',
        "KEY_RIGHTCTRL"@[5] == 'I',
        "KEY_RIGHTCTRL"@[6] == 'G',
        "KEY_RIGHTCTRL"@[7] == 'H',
        "KEY_RIGHTCTRL"@[8] == 'T',
        "KEY_RIGHTCTRL"@[9] == 'C',
        "KEY_RIGHTCTRL"@[10] == 'T',
        "KEY_RIGHTCTRL"@[11] == 'R',
        "KEY_RIGHTCTRL"@[12] == 'L',
        "KEY_KPSLASH"@.len() == 11,
        "KEY_KPSLASH"@[0] == 'K',
        "KEY_KPSLASH"@[1] == 'E',
        "KEY_KPSLASH"@[2] == 'Y',
        "KEY_KPSLASH"@[4] == 'K',
        "KEY_KPSLASH"@[5] == 'P',
        "KEY_KPSLASH"@[6] == 'S',
        "KEY_KPSLASH"@[7] == 'L',
        "KEY_KPSLASH"@[8] == 'A',
        "KEY_KPSLASH"@[9] == 'S',
        "KEY_KPSLASH"@[10] == 'H',
        "KEY_SYSRQ"@.len() == 9,
        "KEY_SYSRQ"@[0] == 'K',
        "KEY_SYSRQ"@[1] == 'E',
        "KEY_SYSRQ"@[2] == 'Y',
        "KEY_SYSRQ"@[4] == 'S',
        "KEY_SYSRQ"@[5] == 'Y',
        "KEY_SYSRQ"@[6] == 'S',
        "KEY_SYSRQ"@[7] == 'R',
        "KEY_SYSRQ"@[8] == 'Q',
        "KEY_RIGHTALT"@.len() == 12,
        "KEY_RIGHTALT"@[0] == 'K',
        "KEY_RIGHTALT"@[1] == 'E',
        "KEY_RIGHTALT"@[2] == 'Y',
        "KEY_RIGHTALT"@[4] == 'R',
        "KEY_RIGHTALT"@[5] == 'I',
        "KEY_RIGHTALT"@[6] == 'G',
        "KEY_RIGHTALT"@[7] == 'H',
        "KEY_RIGHTALT"@[8] == 'T',
        "KEY_RIGHTALT"@[9] == 'A',
        "KEY_RIGHTALT"@[10] == 'L',
        "KEY_RIGHTALT"@[11] == 'T',
        "KEY_LINEFEED"@.len() == 12,
        "KEY_LINEFEED"@[0] == 'K',
        "KEY_LINEFEED"@[1] == 'E',
        "KEY_LINEFEED"@[2] == 'Y',
        "KEY_LINEFEED"@[4] == 'L',
        "KEY_LINEFEED"@[5] == 'I',
        "KEY_LINEFEED"@[6] == 'N',
        "KEY_LINEFEED"@[7] == 'E',
        "KEY_LINEFEED"@[8] == 'F',
        "KEY_LINEFEED"@[9] == 'E',
        "KEY_LINEFEED"@[10] == 'E',
        "KEY_LINEFEED"@[11] == 'D',
        "KEY_HOME"@.len() == 8,
        "KEY_HOME"@[0] == 'K',
        "KEY_HOME"@[1] == 'E',
        "KEY_HOME"@[2] == 'Y',
        "KEY_HOME"@[4] == 'H',
        "KEY_HOME"@[5] == 'O',
        "KEY_HOME"@[6] == 'M',
        "KEY_HOME"@[7] == 'E',
        "KEY_UP"@.len() == 6,
        "KEY_UP"@[0] == 'K',
        "KEY_UP"@[1] == 'E',
        "KEY_UP"@[2] == 'Y',
        "KEY_UP"@[4] == 'U',
        "KEY_UP"@[5] == 'P',
        "KEY_PAGEUP"@.len() == 10,
        "KEY_PAGEUP"@[0] == 'K',
        "KEY_PAGEUP"@[1] == 'E',
        "KEY_PAGEUP"@[2] == 'Y',
        "KEY_PAGEUP"@[4] == 'P',
        "KEY_PAGEUP"@[5] == 'A',
        "KEY_PAGEUP"@[6] == 'G',
        "KEY_PAGEUP"@[7] == 'E',
        "KEY_PAGEUP"@[8] == 'U',
        "KEY_PAGEUP"@[9] == 'P',
        "KEY_LEFT"@.len() == 8,
        "KEY_LEFT"@[0] == 'K',
        "KEY_LEFT"@[1] == 'E',
        "KEY_LEFT"@[2] == 'Y',
        "KEY_LEFT"@[4] == 'L',
        "KEY_LEFT"@[5] == 'E',
        "KEY_LEFT"@[6] == 'F',
        "KEY_LEFT"@[7] == 'T',
        "KEY_RIGHT"@.len() == 9,
        "KEY_RIGHT"@[0] == 'K',
        "KEY_RIGHT"@[1] == 'E',
        "KEY_RIGHT"@[2] == 'Y',
        "KEY_RIGHT"@[4] == 'R',
        "KEY_RIGHT"@[5] == 'I',
        "KEY_RIGHT"@[6] == 'G',
        "KEY_RIGHT"@[7] == 'H',
        "KEY_RIGHT"@[8] == 'T',
        "KEY_END"@.len() == 7,
        "KEY_END"@[0] == 'K',
        "KEY_END"@[1] == 'E',
        "KEY_END"@[2] == 'Y',
        "KEY_END"@[4] == 'E',
        "KEY_END"@[5] == 'N',
        "KEY_END"@[6] == 'D',
        "KEY_DOWN"@.len() == 8,
        "KEY_DOWN"@[0] == 'K',
        "KEY_DOWN"@[1] == 'E',
        "KEY_DOWN"@[2] == 'Y',
        "KEY_DOWN"@[4] == 'D',
        "KEY_DOWN"@[5] == 'O',
        "KEY_DOWN"@[6] == 'W',
        "KEY_DOWN"@[7] == 'N',
        "KEY_PAGEDOWN"@.len() == 12,
        "KEY_PAGEDOWN"@[0] == 'K',
        "KEY_PAGEDOWN"@[1] == 'E',
        "KEY_PAGEDOWN"@[2] == 'Y',
        "KEY_PAGEDOWN"@[4] == 'P',
        "KEY_PAGEDOWN"@[5] == 'A',
        "KEY_PAGEDOWN"@[6] == 'G',
        "KEY_PAGEDOWN"@[7] == 'E',
        "KEY_PAGEDOWN"@[8] == 'D',
        "KEY_PAGEDOWN"@[9] == 'O',
        "KEY_PAGEDOWN"@[10] == 'W',
        "KEY_PAGEDOWN"@[11] == 'N',
        "KEY_INSERT"@.len() == 10,
        "KEY_INSERT"@[0] == 'K',
        "KEY_INSERT"@[1] == 'E',
        "KEY_INSERT"@[2] == 'Y',
        "KEY_INSERT"@[4] == 'I',
        "KEY_INSERT"@[5] == 'N',
        "KEY_INSERT"@[6] == 'S',
        "KEY_INSERT"@[7] == 'E',
        "KEY_INSERT"@[8] == 'R',
        "KEY_INSERT"@[9] == 'T',
        "KEY_DELETE"@.len() == 10,
        "KEY_DELETE"@[0] == 'K',
        "KEY_DELETE"@[1] == 'E',
        "KEY_DELETE"@[2] == 'Y',
        "KEY_DELETE"@[4] == 'D',
        "KEY_DELETE"@[5] == 'E',
        "KEY_DELETE"@[6] == 'L',
        "KEY_DELETE"@[7] == 'E',
        "KEY_DELETE"@[8] == 'T',
        "KEY_DELETE"@[9] == 'E',
        "KEY_MACRO"@.len() == 9,
        "KEY_MACRO"@[0] == 'K',
        "KEY_MACRO"@[1] == 'E',
        "KEY_MACRO"@[2] == 'Y',
        "KEY_MACRO"@[4] == 'M',
        "KEY_MACRO"@[5] == 'A',
        "KEY_MACRO"@[6] == 'C',
        "KEY_MACRO"@[7] == 'R',
        "KEY_MACRO"@[8] == 'O',
{
    reveal_strlit("KEY_ZENKAKUHANKAKU");
    reveal_strlit("KEY_102ND");
    reveal_strlit("KEY_F11");
    reveal_strlit("KEY_F12");
    reveal_strlit("KEY_RO");
    reveal_strlit("KEY_KATAKANA");
    reveal_strlit("KEY_HIRAGANA");
    reveal_strlit("KEY_HENKAN");
    reveal_strlit("KEY_KATAKANAHIRAGANA");
    reveal_strlit("KEY_MUHENKAN");
    reveal_strlit("KEY_KPJPCOMMA");
    reveal_strlit("KEY_KPENTER");
    reveal_strlit("KEY_RIGHTCTRL");
    reveal_strlit("KEY_KPSLASH");
    reveal_strlit("KEY_SYSRQ");
    reveal_strlit("KEY_RIGHTALT");
    reveal_strlit("KEY_LINEFEED");
    reveal_strlit("KEY_HOME");
    reveal_strlit("KEY_UP");
    reveal_strlit("KEY_PAGEUP");
    reveal_strlit("KEY_LEFT");
    reveal_strlit("KEY_RIGHT");
    reveal_strlit("KEY_END");
    reveal_strlit("KEY_DOWN");
    reveal_strlit("KEY_PAGEDOWN");
    reveal_strlit("KEY_INSERT");
    reveal_strlit("KEY_DELETE");
    reveal_strlit("KEY_MACRO");
}

/// How the key names from position 112 of the name table on are spelled,
/// as far as it tells them apart from names of the same length.
proof fn lemma_key_code_spelling_5()
    ensures
        "KEY_MUTE"@.len() == 8,
        "KEY_MUTE"@[0] == 'K',
        "KEY_MUTE"@[1] == 'E',
        "KEY_MUTE"@[2] == 'Y',
        "KEY_MUTE"@[4] == 'M',
        "KEY_MUTE"@[5] == 'U',
        "KEY_MUTE"@[6] == 'T',
        "KEY_MUTE"@[7] == 'E',
        "KEY_VOLUMEDOWN"@.len() == 14,
        "KEY_VOLUMEDOWN"@[0] == 'K',
        "KEY_VOLUMEDOWN"@[1] == 'E',
        "KEY_VOLUMEDOWN"@[2] == 'Y',
        "KEY_VOLUMEDOWN"@[4] == 'V',
        "KEY_VOLUMEDOWN"@[5] == 'O',
        "KEY_VOLUMEDOWN"@[6] == 'L',
        "KEY_VOLUMEDOWN"@[7] == 'U',
        "KEY_VOLUMEDOWN"@[8] == 'M',
        "KEY_VOLUMEDOWN"@[9] == 'E',
        "KEY_VOLUMEDOWN"@[10] == 'D',
        "KEY_VOLUMEDOWN"@[11] == 'O',
        "KEY_VOLUMEDOWN"@[12] == 'W',
        "KEY_VOLUMEDOWN"@[13] == 'N',
        "KEY_VOLUMEUP"@.len() == 12,
        "KEY_VOLUMEUP"@[0] == 'K',
        "KEY_VOLUMEUP"@[1] == 'E',
        "KEY_VOLUMEUP"@[2] == 'Y',
        "KEY_VOLUMEUP"@[4] == 'V',
        "KEY_VOLUMEUP"@[5] == 'O',
        "KEY_VOLUMEUP"@[6] == 'L',
        "KEY_VOLUMEUP"@[7] == 'U',
        "KEY_VOLUMEUP"@[8] == 'M',
        "KEY_VOLUMEUP"@[9] == 'E',
        "KEY_VOLUMEUP"@[10] == 'U',
        "KEY_VOLUMEUP"@[11] == 'P',
        "KEY_POWER"@.len() == 9,
        "KEY_POWER"@[0] == 'K',
        "KEY_POWER"@[1] == 'E',
        "KEY_POWER"@[2] == 'Y',
        "KEY_POWER"@[4] == 'P',
        "KEY_POWER"@[5] == 'O',
        "KEY_POWER"@[6] == 'W',
        "KEY_POWER"@[7] == 'E',
        "KEY_POWER"@[8] == 'R',
        "KEY_KPEQUAL"@.len() == 11,
        "KEY_KPEQUAL"@[0] == 'K',
        "KEY_KPEQUAL"@[1] == 'E',
        "KEY_KPEQUAL"@[2] == 'Y',
        "KEY_KPEQUAL"@[4] == 'K',
        "KEY_KPEQUAL"@[5] == 'P',
        "KEY_KPEQUAL"@[6] == 'E',
        "KEY_KPEQUAL"@[7] == 'Q',
        "KEY_KPEQUAL"@[8] == 'U',
        "KEY_KPEQUAL"@[9] == 'A',
        "KEY_KPEQUAL"@[10] == 'L',
        "KEY_KPPLUSMINUS"@.len() == 15,
        "KEY_KPPLUSMINUS"@[0] == 'K',
        "KEY_KPPLUSMINUS"@[1] == 'E',
        "KEY_KPPLUSMINUS"@[2] == 'Y',
        "KEY_KPPLUSMINUS"@[4] == 'K',
        "KEY_KPPLUSMINUS"@[5] == 'P',
        "KEY_KPPLUSMINUS"@[6] == 'P',
        "KEY_KPPLUSMINUS"@[8] == 'U',
        "KEY_KPPLUSMINUS"@[9] == 'S',
        "KEY_KPPLUSMINUS"@[10] == 'M',
        "KEY_KPPLUSMINUS"@[11] == 'I',
        "KEY_KPPLUSMINUS"@[12] == 'N',
        "KEY_KPPLUSMINUS"@[13] == 'U',
        "KEY_KPPLUSMINUS"@[14] == 'S',
        "KEY_PAUSE"@.len() == 9,
        "KEY_PAUSE"@[0] == 'K',
        "KEY_PAUSE"@[1] == 'E',
        "KEY_PAUSE"@[2] == 'Y',
        "KEY_PAUSE"@[4] == 'P',
        "KEY_PAUSE"@[5] == 'A',
        "KEY_PAUSE"@[6] == 'U',
        "KEY_PAUSE"@[7] == 'S',
        "KEY_PAUSE"@[8] == 'E',
        "KEY_SCALE"@.len() == 9,
        "KEY_SCALE"@[0] == 'K',
        "KEY_SCALE"@[1] == 'E',
        "KEY_SCALE"@[2] == 'Y',
        "KEY_SCALE"@[4] == 'S',
        "KEY_SCALE"@[5] == 'C',
        "KEY_SCALE"@[6] == 'A',
        "KEY_SCALE"@[7] == 'L',
        "KEY_SCALE"@[8] == 'E',
        "KEY_KPCOMMA"@.len() == 11,
        "KEY_KPCOMMA"@[0] == 'K',
        "KEY_KPCOMMA"@[1] == 'E',
        "KEY_KPCOMMA"@[2] == 'Y',
        "KEY_KPCOMMA"@[4] == 'K',
        "KEY_KPCOMMA"@[5] == 'P',
        "KEY_KPCOMMA"@[6] == 'C',
        "KEY_KPCOMMA"@[7] == 'O',
        "KEY_KPCOMMA"@[8] == 'M',
        "KEY_KPCOMMA"@[9] == 'M',
        "KEY_KPCOMMA"@[10] == 'A',
        "KEY_HANGEUL"@.len() == 11,
        "KEY_HANGEUL"@[0] == 'K',
        "KEY_HANGEUL"@[1] == 'E',
        "KEY_HANGEUL"@[2] == 'Y',
        "KEY_HANGEUL"@[4] == 'H',
        "KEY_HANGEUL"@[5] == 'A',
        "KEY_HANGEUL"@[6] == 'N',
        "KEY_HANGEUL"@[7] == 'G',
        "KEY_HANGEUL"@[8] == 'E',
        "KEY_HANGEUL"@[9] == 'U',
        "KEY_HANGEUL"@[10] == 'L',
        "KEY_HANJA"@.len() == 9,
        "KEY_HANJA"@[0] == 'K',
        "KEY_HANJA"@[1] == 'E',
        "KEY_HANJA"@[2] == 'Y',
        "KEY_HANJA"@[4] == 'H',
        "KEY_HANJA"@[5] == 'A',
        "KEY_HANJA"@[6] == 'N',
        "KEY_HANJA"@[7] == 'J',
        "KEY_HANJA"@[8] == 'A',
        "KEY_YEN"@.len() == 7,
        "KEY_YEN"@[0] == 'K',
        "KEY_YEN"@[1] == 'E',
        "KEY_YEN"@[2] == 'Y',
        "KEY_YEN"@[4] == 'Y',
        "KEY_YEN"@[5] == 'E',
        "KEY_YEN"@[6] == 'N',
        "KEY_LEFTMETA"@.len() == 12,
        "KEY_LEFTMETA"@[0] == 'K',
        "KEY_LEFTMETA"@[1] == 'E',
        "KEY_LEFTMETA"@[2] == 'Y',
        "KEY_LEFTMETA"@[4] == 'L',
        "KEY_LEFTMETA"@[5] == 'E',
        "KEY_LEFTMETA"@[6] == 'F',
        "KEY_LEFTMETA"@[7] == 'T',
        "KEY_LEFTMETA"@[8] == 'M',
        "KEY_LEFTMETA"@[9] == 'E',
        "KEY_LEFTMETA"@[10] == 'T',
        "KEY_LEFTMETA"@[11] == 'A',
        "KEY_RIGHTMETA"@.len() == 13,
        "KEY_RIGHTMETA"@[0] == 'K',
        "KEY_RIGHTMETA"@[1] == 'E',
        "KEY_RIGHTMETA"@[2] == 'Y',
        "KEY_RIGHTMETA"@[4] == 'R',
        "KEY_RIGHTMETA"@[5] == 'I',
        "KEY_RIGHTMETA"@[6] == 'G',
        "KEY_RIGHTMETA"@[7] == 'H',
        "KEY_RIGHTMETA"@[8] == 'T',
        "KEY_RIGHTMETA"@[9] == 'M',
        "KEY_RIGHTMETA"@[10] == 'E',
        "KEY_RIGHTMETA"@[11] == 'T',
        "KEY_RIGHTMETA"@[12] == 'A',
        "KEY_COMPOSE"@.len() == 11,
        "KEY_COMPOSE"@[0] == 'K',
        "KEY_COMPOSE"@[1] == 'E',
        "KEY_COMPOSE"@[2] == 'Y',
        "KEY_COMPOSE"@[4] == 'C',
        "KEY_COMPOSE"@[5] == 'O',
        "KEY_COMPOSE"@[6] == 'M',
        "KEY_COMPOSE"@[7] == 'P',
        "KEY_COMPOSE"@[8] == 'O',
        "KEY_COMPOSE"@[9] == 'S',
        "KEY_COMPOSE"@[10] == 'E',
        "KEY_STOP"@.len() == 8,
        "KEY_STOP"@[0] == 'K',
        "KEY_STOP"@[1] == 'E',
        "KEY_STOP"@[2] == 'Y',
        "KEY_STOP"@[4] == 'S',
        "KEY_STOP"@[5] == 'T',
        "KEY_STOP"@[6] == 'O',
        "KEY_STOP"@[7] == 'P',
        "KEY_AGAIN"@.len() == 9,
        "KEY_AGAIN"@[0] == 'K',
        "KEY_AGAIN"@[1] == 'E',
        "KEY_AGAIN"@[2] == 'Y',
        "KEY_AGAIN"@[4] == 'A',
        "KEY_AGAIN"@[5] == 'G',
        "KEY_AGAIN"@[6] == 'A',
        "KEY_AGAIN"@[7] == 'I',
        "KEY_AGAIN"@[8] == 'N',
        "KEY_PROPS"@.len() == 9,
        "KEY_PROPS"@[0] == 'K',
        "KEY_PROPS"@[1] == 'E',
        "KEY_PROPS"@[2] == 'Y',
        "KEY_PROPS"@[4] == 'P',
        "KEY_PROPS"@[5] == 'R',
        "KEY_PROPS"@[6] == 'O',
        "KEY_PROPS"@[7] == 'P',
        "KEY_PROPS"@[8] == 'S',
        "KEY_UNDO"@.len() == 8,
        "KEY_UNDO"@[0] == 'K',
        "KEY_UNDO"@[1] == 'E',
        "KEY_UNDO"@[2] == 'Y',
        "KEY_UNDO"@[4] == 'U',
        "KEY_UNDO"@[5] == 'N',
        "KEY_UNDO"@[6] == 'D',
        "KEY_UNDO"@[7] == 'O',
        "KEY_FRONT"@.len() == 9,
        "KEY_FRONT"@[0] == 'K',
        "KEY_FRONT"@[1] == 'E',
        "KEY_FRONT"@[2] == 'Y',
        "KEY_FRONT"@[4] == 'F',
        "KEY_FRONT"@[5] == 'R',
        "KEY_FRONT"@[6] == 'O',
        "KEY_FRONT"@[7] == 'N',
        "KEY_FRONT"@[8] == 'T',
        "KEY_COPY"@.len() == 8,
        "KEY_COPY"@[0] == 'K',
        "KEY_COPY"@[1] == 'E',
        "KEY_COPY"@[2] == 'Y',
        "KEY_COPY"@[4] == 'C',
        "KEY_COPY"@[5] == 'O',
        "KEY_COPY"@[6] == 'P',
        "KEY_COPY"@[7] == 'Y',
        "KEY_OPEN"@.len() == 8,
        "KEY_OPEN"@[0] == 'K',
        "KEY_OPEN"@[1] == 'E',
        "KEY_OPEN"@[2] == 'Y',
        "KEY_OPEN"@[4] == 'O',
        "KEY_OPEN"@[5] == 'P',
        "KEY_OPEN"@[6] == 'E',
        "KEY_OPEN"@[7] == 'N',
        "KEY_PASTE"@.len() == 9,
        "KEY_PASTE"@[0] == 'K',
        "KEY_PASTE"@[1] == 'E',
        "KEY_PASTE"@[2] == 'Y',
        "KEY_PASTE"@[4] == 'P',
        "KEY_PASTE"@[5] == 'A',
        "KEY_PASTE"@[6] == 'S',
        "KEY_PASTE"@[7] == 'T',
        "KEY_PASTE"@[8] == 'E',
        "KEY_FIND"@.len() == 8,
        "KEY_FIND"@[0] == 'K',
        "KEY_FIND"@[1] == 'E',
        "KEY_FIND"@[2] == 'Y',
        "KEY_FIND"@[4] == 'F',
        "KEY_FIND"@[5] == 'I',
        "KEY_FIND"@[6] == 'N',
        "KEY_FIND"@[7] == 'D',
        "KEY_CUT"@.len() == 7,
        "KEY_CUT"@[0] == 'K',
        "KEY_CUT"@[1] == 'E',
        "KEY_CUT"@[2] == 'Y',
        "KEY_CUT"@[4] == 'C',
        "KEY_CUT"@[5] == 'U',
        "KEY_CUT"@[6] == 'T',
        "KEY_HELP"@.len() == 8,
        "KEY_HELP"@[0] == 'K',
        "KEY_HELP"@[1] == 'E',
        "KEY_HELP"@[2] == 'Y',
        "KEY_HELP"@[4] == 'H',
        "KEY_HELP"@[5] == 'E',
        "KEY_HELP"@[6] == 'L',
        "KEY_HELP"@[7] == 'P',
        "KEY_MENU"@.len() == 8,
        "KEY_MENU"@[0] == 'K',
        "KEY_MENU"@[1] == 'E',
        "KEY_MENU"@[2] == 'Y',
        "KEY_MENU"@[4] == 'M',
        "KEY_MENU"@[5] == 'E',
        "KEY_MENU"@[6] == 'N',
        "KEY_MENU"@[7] == 'U',
        "KEY_CALC"@.len() == 8,
        "KEY_CALC"@[0] == 'K',
        "KEY_CALC"@[1] == 'E',
        "KEY_CALC"@[2] == 'Y',
        "KEY_CALC"@[4] == 'C',
        "KEY_CALC"@[5] == 'A',
        "KEY_CALC"@[6] == 'L',
        "KEY_CALC"@[7] == 'C',
{
    reveal_strlit("KEY_MUTE");
    reveal_strlit("KEY_VOLUMEDOWN");
    reveal_strlit("KEY_VOLUMEUP");
    reveal_strlit("KEY_POWER");
    reveal_strlit("KEY_KPEQUAL");
    reveal_strlit("KEY_KPPLUSMINUS");
    reveal_strlit("KEY_PAUSE");
    reveal_strlit("KEY_SCALE");
    reveal_strlit("KEY_KPCOMMA");
    reveal_strlit("KEY_HANGEUL");
    reveal_strlit("KEY_HANJA");
    reveal_strlit("KEY_YEN");
    reveal_strlit("KEY_LEFTMETA");
    reveal_strlit("KEY_RIGHTMETA");
    reveal_strlit("KEY_COMPOSE");
    reveal_strlit("KEY_STOP");
    reveal_strlit("KEY_AGAIN");
    reveal_strlit("KEY_PROPS");
    reveal_strlit("KEY_UNDO");
    reveal_strlit("KEY_FRONT");
    reveal_strlit("KEY_COPY");
    reveal_strlit("KEY_OPEN");
    reveal_strlit("KEY_PASTE");
    reveal_strlit("KEY_FIND");
    reveal_strlit("KEY_CUT");
    reveal_strlit("KEY_HELP");
    reveal_strlit("KEY_MENU");
    reveal_strlit("KEY_CALC");
}

/// How the key names from position 140 of the name table on are spelled,
/// as far as it tells them apart from names of the same length.
proof fn lemma_key_code_spelling_6()
    ensures
        "KEY_SETUP"@.len() == 9,
        "KEY_SETUP"@[0] == 'K',
        "KEY_SETUP"@[1] == 'E',
        "KEY_SETUP"@[2] == 'Y',
        "KEY_SETUP"@[4] == 'S',
        "KEY_SETUP"@[5] == 'E',
        "KEY_SETUP"@[6] == 'T',
        "KEY_SETUP"@[7] == 'U',
        "KEY_SETUP"@[8] == 'P',
        "KEY_SLEEP"@.len() == 9,
        "KEY_SLEEP"@[0] == 'K',
        "KEY_SLEEP"@[1] == 'E',
        "KEY_SLEEP"@[2] == 'Y',
        "KEY_SLEEP"@[4] == 'S',
        "KEY_SLEEP"@[5] == 'L',
        "KEY_SLEEP"@[6] == 'E',
        "KEY_SLEEP"@[7] == 'E',
        "KEY_SLEEP"@[8] == 'P',
        "KEY_WAKEUP"@.len() == 10,
        "KEY_WAKEUP"@[0] == 'K',
        "KEY_WAKEUP"@[1] == 'E',
        "KEY_WAKEUP"@[2] == 'Y',
        "KEY_WAKEUP"@[4] == 'W',
        "KEY_WAKEUP"@[5] == 'A',
        "KEY_WAKEUP"@[6] == 'K',
        "KEY_WAKEUP"@[7] == 'E',
        "KEY_WAKEUP"@[8] == 'U',
        "KEY_WAKEUP"@[9] == 'P',
        "KEY_F13"@.len() == 7,
        "KEY_F13"@[0] == 'K',
        "KEY_F13"@[1] == 'E',
        "KEY_F13"@[2] == 'Y',
        "KEY_F13"@[4] == 'F',
        "KEY_F13"@[5] == '1',
        "KEY_F13"@[6] == '3',
        "KEY_F14"@.len() == 7,
        "KEY_F14"@[0] == 'K',
        "KEY_F14"@[1] == 'E',
        "KEY_F14"@[2] == 'Y',
        "KEY_F14"@[4] == 'F',
        "KEY_F14"@[5] == '1',
        "KEY_F14"@[6] == '4',
        "KEY_F15"@.len() == 7,
        "KEY_F15"@[0] == 'K',
        "KEY_F15"@[1] == 'E',
        "KEY_F15"@[2] == 'Y',
        "KEY_F15"@[4] == 'F',
        "KEY_F15"@[5] == '1',
        "KEY_F15"@[6] == '5',
        "KEY_F16"@.len() == 7,
        "KEY_F16"@[0] == 'K',
        "KEY_F16"@[1] == 'E',
        "KEY_F16"@[2] == 'Y',
        "KEY_F16"@[4] == 'F',
        "KEY_F16"@[5] == '1',
        "KEY_F16"@[6] == '6',
        "KEY_F17"@.len() == 7,
        "KEY_F17"@[0] == 'K',
        "KEY_F17"@[1] == 'E',
        "KEY_F17"@[2] == 'Y',
        "KEY_F17"@[4] == 'F',
        "KEY_F17"@[5] == '1',
        "KEY_F17"@[6] == '7',
        "KEY_F18"@.len() == 7,
        "KEY_F18"@[0] == 'K',
        "KEY_F18"@[1] == 'E',
        "KEY_F18"@[2] == 'Y',
        "KEY_F18"@[4] == 'F',
        "KEY_F18"@[5] == '1',
        "KEY_F18"@[6] == '8',
        "KEY_F19"@.len() == 7,
        "KEY_F19"@[0] == 'K',
        "KEY_F19"@[1] == 'E',
        "KEY_F19"@[2] == 'Y',
        "KEY_F19"@[4] == 'F',
        "KEY_F19"@[5] == '1',
        "KEY_F19"@[6] == '9',
        "KEY_F20"@.len() == 7,
        "KEY_F20"@[0] == 'K',
        "KEY_F20"@[1] == 'E',
        "KEY_F20"@[2] == 'Y',
        "KEY_F20"@[4] == 'F',
        "KEY_F20"@[5] == '2',
        "KEY_F20"@[6] == '0',
        "KEY_F21"@.len() == 7,
        "KEY_F21"@[0] == 'K',
        "KEY_F21"@[1] == 'E',
        "KEY_F21"@[2] == 'Y',
        "KEY_F21"@[4] == 'F',
        "KEY_F21"@[5] == '2',
        "KEY_F21"@[6] == '1',
        "KEY_F22"@.len() == 7,
        "KEY_F22"@[0] == 'K',
        "KEY_F22"@[1] == 'E',
        "KEY_F22"@[2] == 'Y',
        "KEY_F22"@[4] == 'F',
        "KEY_F22"@[5] == '2',
        "KEY_F22"@[6] == '2',
        "KEY_F23"@.len() == 7,
        "KEY_F23"@[0] == 'K',
        "KEY_F23"@[1] == 'E',
        "KEY_F23"@[2] == 'Y',
        "KEY_F23"@[4] == 'F',
        "KEY_F23"@[5] == '2',
        "KEY_F23"@[6] == '3',
        "KEY_F24"@.len() == 7,
        "KEY_F24"@[0] == 'K',
        "KEY_F24"@[1] == 'E',
        "KEY_F24"@[2] == 'Y',
        "KEY_F24"@[4] == 'F',
        "KEY_F24"@[5] == '2',
        "KEY_F24"@[6] == '4',
        "BTN_0"@.len() == 5,
        "BTN_0"@[0] == 'B',
        "BTN_0"@[1] == 'T',
        "BTN_0"@[2] == 'N',
        "BTN_0"@[4] == '0',
        "BTN_1"@.len() == 5,
        "BTN_1"@[0] == 'B',
        "BTN_1"@[1] == 'T',
        "BTN_1"@[2] == 'N',
        "BTN_1"@[4] == '1',
        "BTN_2"@.len() == 5,
        "BTN_2"@[0] == 'B',
        "BTN_2"@[1] == 'T',
        "BTN_2"@[2] == 'N',
        "BTN_2"@[4] == '2',
        "BTN_3"@.len() == 5,
        "BTN_3"@[0] == 'B',
        "BTN_3"@[1] == 'T',
        "BTN_3"@[2] == 'N',
        "BTN_3"@[4] == '3',
        "BTN_4"@.len() == 5,
        "BTN_4"@[0] == 'B',
        "BTN_4"@[1] == 'T',
        "BTN_4"@[2] == 'N',
        "BTN_4"@[4] == '4',
        "BTN_5"@.len() == 5,
        "BTN_5"@[0] == 'B',
        "BTN_5"@[1] == 'T',
        "BTN_5"@[2] == 'N',
        "BTN_5"@[4] == '5',
        "BTN_6"@.len() == 5,
        "BTN_6"@[0] == 'B',
        "BTN_6"@[1] == 'T',
        "BTN_6"@[2] == 'N',
        "BTN_6"@[4] == '6',
        "BTN_7"@.len() == 5,
        "BTN_7"@[0] == 'B',
        "BTN_7"@[1] == 'T',
        "BTN_7"@[2] == 'N',
        "BTN_7"@[4] == '7',
        "BTN_8"@.len() == 5,
        "BTN_8"@[0] == 'B',
        "BTN_8"@[1] == 'T',
        "BTN_8"@[2] == 'N',
        "BTN_8"@[4] == '8',
        "BTN_9"@.len() == 5,
        "BTN_9"@[0] == 'B',
        "BTN_9"@[1] == 'T',
        "BTN_9"@[2] == 'N',
        "BTN_9"@[4] == '9',
        "BTN_LEFT"@.len() == 8,
        "BTN_LEFT"@[0] == 'B',
        "BTN_LEFT"@[1] == 'T',
        "BTN_LEFT"@[2] == 'N',
        "BTN_LEFT"@[4] == 'L',
        "BTN_LEFT"@[5] == 'E',
        "BTN_LEFT"@[6] == 'F',
        "BTN_LEFT"@[7] == 'T',
        "BTN_RIGHT"@.len() == 9,
        "BTN_RIGHT"@[0] == 'B',
        "BTN_RIGHT"@[1] == 'T',
        "BTN_RIGHT"@[2] == 'N',
        "BTN_RIGHT"@[4] == 'R',
        "BTN_RIGHT"@[5] == 'I',
        "BTN_RIGHT"@[6] == 'G',
        "BTN_RIGHT"@[7] == 'H',
        "BTN_RIGHT"@[8] == 'T',
        "BTN_MIDDLE"@.len() == 10,
        "BTN_MIDDLE"@[0] == 'B',
        "BTN_MIDDLE"@[1] == 'T',
        "BTN_MIDDLE"@[2] == 'N',
        "BTN_MIDDLE"@[4] == 'M',
        "BTN_MIDDLE"@[5] == 'I',
        "BTN_MIDDLE"@[6] == 'D',
        "BTN_MIDDLE"@[7] == 'D',
        "BTN_MIDDLE"@[8] == 'L',
        "BTN_MIDDLE"@[9] == 'E',
{
    reveal_strlit("KEY_SETUP");
    reveal_strlit("KEY_SLEEP");
    reveal_strlit("KEY_WAKEUP");
    reveal_strlit("KEY_F13");
    reveal_strlit("KEY_F14");
    reveal_strlit("KEY_F15");
    reveal_strlit("KEY_F16");
    reveal_strlit("KEY_F17");
    reveal_strlit("KEY_F18");
    reveal_strlit("KEY_F19");
    reveal_strlit("KEY_F20");
    reveal_strlit("KEY_F21");
    reveal_strlit("KEY_F22");
    reveal_strlit("KEY_F23");
    reveal_strlit("KEY_F24");
    reveal_strlit("BTN_0");
    reveal_strlit("BTN_1");
    reveal_strlit("BTN_2");
    reveal_strlit("BTN_3");
    reveal_strlit("BTN_4");
    reveal_strlit("BTN_5");
    reveal_strlit("BTN_6");
    reveal_strlit("BTN_7");
    reveal_strlit("BTN_8");
    reveal_strlit("BTN_9");
    reveal_strlit("BTN_LEFT");
    reveal_strlit("BTN_RIGHT");
    reveal_strlit("BTN_MIDDLE");
}

/// How the key names from position 168 of the name table on are spelled,
/// as far as it tells them apart from names of the same length.
proof fn lemma_key_code_spelling_7()
    ensures
        "BTN_SIDE"@.len() == 8,
        "BTN_SIDE"@[0] == 'B',
        "BTN_SIDE"@[1] == 'T',
        "BTN_SIDE"@[2] == 'N',
        "BTN_SIDE"@[4] == 'S',
        "BTN_SIDE"@[5] == 'I',
        "BTN_SIDE"@[6] == 'D',
        "BTN_SIDE"@[7] == 'E',
        "BTN_EXTRA"@.len() == 9,
        "BTN_EXTRA"@[0] == 'B',
        "BTN_EXTRA"@[1] == 'T',
        "BTN_EXTRA"@[2] == 'N',
        "BTN_EXTRA"@[4] == 'E',
        "BTN_EXTRA"@[5] == 'X',
        "BTN_EXTRA"@[6] == 'T',
        "BTN_EXTRA"@[7] == 'R',
        "BTN_EXTRA"@[8] == 'A',
        "BTN_FORWARD"@.len() == 11,
        "BTN_FORWARD"@[0] == 'B',
        "BTN_FORWARD"@[1] == 'T',
        "BTN_FORWARD"@[2] == 'N',
        "BTN_FORWARD"@[4] == 'F',
        "BTN_FORWARD"@[5] == 'O',
        "BTN_FORWARD"@[6] == 'R',
        "BTN_FORWARD"@[7] == 'W',
        "BTN_FORWARD"@[8] == 'A',
        "BTN_FORWARD"@[9] == 'R',
        "BTN_FORWARD"@[10] == 'D',
        "BTN_BACK"@.len() == 8,
        "BTN_BACK"@[0] == 'B',
        "BTN_BACK"@[1] == 'T',
        "BTN_BACK"@[2] == 'N',
        "BTN_BACK"@[4] == 'B',
        "BTN_BACK"@[5] == 'A',
        "BTN_BACK"@[6] == 'C',
        "BTN_BACK"@[7] == 'K',
        "BTN_TASK"@.len() == 8,
        "BTN_TASK"@[0] == 'B',
        "BTN_TASK"@[1] == 'T',
        "BTN_TASK"@[2] == 'N',
        "BTN_TASK"@[4] == 'T',
        "BTN_TASK"@[5] == 'A',
        "BTN_TASK"@[6] == 'S',
        "BTN_TASK"@[7] == 'K',
        "BTN_TRIGGER"@.len() == 11,
        "BTN_TRIGGER"@[0] == 'B',
        "BTN_TRIGGER"@[1] == 'T',
        "BTN_TRIGGER"@[2] == 'N',
        "BTN_TRIGGER"@[4] == 'T',
        "BTN_TRIGGER"@[5] == 'R',
        "BTN_TRIGGER"@[6] == 'I',
        "BTN_TRIGGER"@[7] == 'G',
        "BTN_TRIGGER"@[8] == 'G',
        "BTN_TRIGGER"@[9] == 'E',
        "BTN_TRIGGER"@[10] == 'R',
        "BTN_THUMB"@.len() == 9,
        "BTN_THUMB"@[0] == 'B',
        "BTN_THUMB"@[1] == 'T',
        "BTN_THUMB"@[2] == 'N',
        "BTN_THUMB"@[4] == 'T',
        "BTN_THUMB"@[5] == 'H',
        "BTN_THUMB"@[6] == 'U',
        "BTN_THUMB"@[7] == 'M',
        "BTN_THUMB"@[8] == 'B',
        "BTN_THUMB2"@.len() == 10,
        "BTN_THUMB2"@[0] == 'B',
        "BTN_THUMB2"@[1] == 'T',
        "BTN_THUMB2"@[2] == 'N',
        "BTN_THUMB2"@[4] == 'T',
        "BTN_THUMB2"@[5] == 'H',
        "BTN_THUMB2"@[6] == 'U',
        "BTN_THUMB2"@[7] == 'M',
        "BTN_THUMB2"@[8] == 'B',
        "BTN_THUMB2"@[9] == '2',
        "BTN_TOP"@.len() == 7,
        "BTN_TOP"@[0] == 'B',
        "BTN_TOP"@[1] == 'T',
        "BTN_TOP"@[2] == 'N',
        "BTN_TOP"@[4] == 'T',
        "BTN_TOP"@[5] == 'O',
        "BTN_TOP"@[6] == 'P',
        "BTN_TOP2"@.len() == 8,
        "BTN_TOP2"@[0] == 'B',
        "BTN_TOP2"@[1] == 'T',
        "BTN_TOP2"@[2] == 'N',
        "BTN_TOP2"@[4] == 'T',
        "BTN_TOP2"@[5] == 'O',
        "BTN_TOP2"@[6] == 'P',
        "BTN_TOP2"@[7] == '2',
        "BTN_PINKIE"@.len() == 10,
        "BTN_PINKIE"@[0] == 'B',
        "BTN_PINKIE"@[1] == 'T',
        "BTN_PINKIE"@[2] == 'N',
        "BTN_PINKIE"@[4] == 'P',
        "BTN_PINKIE"@[5] == 'I',
        "BTN_PINKIE"@[6] == 'N',
        "BTN_PINKIE"@[7] == 'K',
        "BTN_PINKIE"@[8] == 'I',
        "BTN_PINKIE"@[9] == 'E',
        "BTN_BASE"@.len() == 8,
        "BTN_BASE"@[0] == 'B',
        "BTN_BASE"@[1] == 'T',
        "BTN_BASE"@[2] == 'N',
        "BTN_BASE"@[4] == 'B',
        "BTN_BASE"@[5] == 'A',
        "BTN_BASE"@[6] == 'S',
        "BTN_BASE"@[7] == 'E',
        "BTN_BASE2"@.len() == 9,
        "BTN_BASE2"@[0] == 'B',
        "BTN_BASE2"@[1] == 'T',
        "BTN_BASE2"@[2] == 'N',
        "BTN_BASE2"@[4] == 'B',
        "BTN_BASE2"@[5] == 'A',
        "BTN_BASE2"@[6] == 'S',
        "BTN_BASE2"@[7] == 'E',
        "BTN_BASE2"@[8] == '2',
        "BTN_BASE3"@.len() == 9,
        "BTN_BASE3"@[0] == 'B',
        "BTN_BASE3"@[1] == 'T',
        "BTN_BASE3"@[2] == 'N',
        "BTN_BASE3"@[4] == 'B',
        "BTN_BASE3"@[5] == 'A',
        "BTN_BASE3"@[6] == 'S',
        "BTN_BASE3"@[7] == 'E',
        "BTN_BASE3"@[8] == '3',
        "BTN_BASE4"@.len() == 9,
        "BTN_BASE4"@[0] == 'B',
        "BTN_BASE4"@[1] == 'T',
        "BTN_BASE4"@[2] == 'N',
        "BTN_BASE4"@[4] == 'B',
        "BTN_BASE4"@[5] == 'A',
        "BTN_BASE4"@[6] == 'S',
        "BTN_BASE4"@[7] == 'E',
        "BTN_BASE4"@[8] == '4',
        "BTN_BASE5"@.len() == 9,
        "BTN_BASE5"@[0] == 'B',
        "BTN_BASE5"@[1] == 'T',
        "BTN_BASE5"@[2] == 'N',
        "BTN_BASE5"@[4] == 'B',
        "BTN_BASE5"@[5] == 'A',
        "BTN_BASE5"@[6] == 'S',
        "BTN_BASE5"@[7] == 'E',
        "BTN_BASE5"@[8] == '5',
        "BTN_BASE6"@.len() == 9,
        "BTN_BASE6"@[0] == 'B',
        "BTN_BASE6"@[1] == 'T',
        "BTN_BASE6"@[2] == 'N',
        "BTN_BASE6"@[4] == 'B',
        "BTN_BASE6"@[5] == 'A',
        "BTN_BASE6"@[6] == 'S',
        "BTN_BASE6"@[7] == 'E',
        "BTN_BASE6"@[8] == '6',
        "BTN_DEAD"@.len() == 8,
        "BTN_DEAD"@[0] == 'B',
        "BTN_DEAD"@[1] == 'T',
        "BTN_DEAD"@[2] == 'N',
        "BTN_DEAD"@[4] == 'D',
        "BTN_DEAD"@[5] == 'E',
        "BTN_DEAD"@[6] == 'A',
        "BTN_DEAD"@[7] == 'D',
        "BTN_SOUTH"@.len() == 9,
        "BTN_SOUTH"@[0] == 'B',
        "BTN_SOUTH"@[1] == 'T',
        "BTN_SOUTH"@[2] == 'N',
        "BTN_SOUTH"@[4] == 'S',
        "BTN_SOUTH"@[5] == 'O',
        "BTN_SOUTH"@[6] == 'U',
        "BTN_SOUTH"@[7] == 'T',
        "BTN_SOUTH"@[8] == 'H',
        "BTN_EAST"@.len() == 8,
        "BTN_EAST"@[0] == 'B',
        "BTN_EAST"@[1] == 'T',
        "BTN_EAST"@[2] == 'N',
        "BTN_EAST"@[4] == 'E',
        "BTN_EAST"@[5] == 'A',
        "BTN_EAST"@[6] == 'S',
        "BTN_EAST"@[7] == 'T',
        "BTN_C"@.len() == 5,
        "BTN_C"@[0] == 'B',
        "BTN_C"@[1] == 'T',
        "BTN_C"@[2] == 'N',
        "BTN_C"@[4] == 'C',
        "BTN_NORTH"@.len() == 9,
        "BTN_NORTH"@[0] == 'B',
        "BTN_NORTH"@[1] == 'T',
        "BTN_NORTH"@[2] == 'N',
        "BTN_NORTH"@[4] == 'N',
        "BTN_NORTH"@[5] == 'O',
        "BTN_NORTH"@[6] == 'R',
        "BTN_NORTH"@[7] == 'T',
        "BTN_NORTH"@[8] == 'H',
        "BTN_WEST"@.len() == 8,
        "BTN_WEST"@[0] == 'B',
        "BTN_WEST"@[1] == 'T',
        "BTN_WEST"@[2] == 'N',
        "BTN_WEST"@[4] == 'W',
        "BTN_WEST"@[5] == 'E',
        "BTN_WEST"@[6] == 'S',
        "BTN_WEST"@[7] == 'T',
        "BTN_Z"@.len() == 5,
        "BTN_Z"@[0] == 'B',
        "BTN_Z"@[1] == 'T',
        "BTN_Z"@[2] == 'N',
        "BTN_Z"@[4] == 'Z',
        "BTN_TL"@.len() == 6,
        "BTN_TL"@[0] == 'B',
        "BTN_TL"@[1] == 'T',
        "BTN_TL"@[2] == 'N',
        "BTN_TL"@[4] == 'T',
        "BTN_TL"@[5] == 'L',
        "BTN_TR"@.len() == 6,
        "BTN_TR"@[0] == 'B',
        "BTN_TR"@[1] == 'T',
        "BTN_TR"@[2] == 'N',
        "BTN_TR"@[4] == 'T',
        "BTN_TR"@[5] == 'R',
        "BTN_TL2"@.len() == 7,
        "BTN_TL2"@[0] == 'B',
        "BTN_TL2"@[1] == 'T',
        "BTN_TL2"@[2] == 'N',
        "BTN_TL2"@[4] == 'T',
        "BTN_TL2"@[5] == 'L',
        "BTN_TL2"@[6] == '2',
        "BTN_TR2"@.len() == 7,
        "BTN_TR2"@[0] == 'B',
        "BTN_TR2"@[1] == 'T',
        "BTN_TR2"@[2] == 'N',
        "BTN_TR2"@[4] == 'T',
        "BTN_TR2"@[5] == 'R',
        "BTN_TR2"@[6] == '2',
{
    reveal_strlit("BTN_SIDE");
    reveal_strlit("BTN_EXTRA");
    reveal_strlit("BTN_FORWARD");
    reveal_strlit("BTN_BACK");
    reveal_strlit("BTN_TASK");
    reveal_strlit("BTN_TRIGGER");
    reveal_strlit("BTN_THUMB");
    reveal_strlit("BTN_THUMB2");
    reveal_strlit("BTN_TOP");
    reveal_strlit("BTN_TOP2");
    reveal_strlit("BTN_PINKIE");
    reveal_strlit("BTN_BASE");
    reveal_strlit("BTN_BASE2");
    reveal_strlit("BTN_BASE3");
    reveal_strlit("BTN_BASE4");
    reveal_strlit("BTN_BASE5");
    reveal_strlit("BTN_BASE6");
    reveal_strlit("BTN_DEAD");
    reveal_strlit("BTN_SOUTH");
    reveal_strlit("BTN_EAST");
    reveal_strlit("BTN_C");
    reveal_strlit("BTN_NORTH");
    reveal_strlit("BTN_WEST");
    reveal_strlit("BTN_Z");
    reveal_strlit("BTN_TL");
    reveal_strlit("BTN_TR");
    reveal_strlit("BTN_TL2");
    reveal_strlit("BTN_TR2");
}

/// How the key names from position 196 of the name table on are spelled,
/// as far as it tells them apart from names of the same length.
proof fn lemma_key_code_spelling_8()
    ensures
        "BTN_SELECT"@.len() == 10,
        "BTN_SELECT"@[0] == 'B',
        "BTN_SELECT"@[1] == 'T',
        "BTN_SELECT"@[2] == 'N',
        "BTN_SELECT"@[4] == 'S',
        "BTN_SELECT"@[5] == 'E',
        "BTN_SELECT"@[6] == 'L',
        "BTN_SELECT"@[7] == 'E',
        "BTN_SELECT"@[8] == 'C',
        "BTN_SELECT"@[9] == 'T',
        "BTN_START"@.len() == 9,
        "BTN_START"@[0] == 'B',
        "BTN_START"@[1] == 'T',
        "BTN_START"@[2] == 'N',
        "BTN_START"@[4] == 'S',
        "BTN_START"@[5] == 'T',
        "BTN_START"@[6] == 'A',
        "BTN_START"@[7] == 'R',
        "BTN_START"@[8] == 'T',
        "BTN_MODE"@.len() == 8,
        "BTN_MODE"@[0] == 'B',
        "BTN_MODE"@[1] == 'T',
        "BTN_MODE"@[2] == 'N',
        "BTN_MODE"@[4] == 'M',
        "BTN_MODE"@[5] == 'O',
        "BTN_MODE"@[6] == 'D',
        "BTN_MODE"@[7] == 'E',
        "BTN_THUMBL"@.len() == 10,
        "BTN_THUMBL"@[0] == 'B',
        "BTN_THUMBL"@[1] == 'T',
        "BTN_THUMBL"@[2] == 'N',
        "BTN_THUMBL"@[4] == 'T',
        "BTN_THUMBL"@[5] == 'H',
        "BTN_THUMBL"@[6] == 'U',
        "BTN_THUMBL"@[7] == 'M',
        "BTN_THUMBL"@[8] == 'B',
        "BTN_THUMBL"@[9] == 'L',
        "BTN_THUMBR"@.len() == 10,
        "BTN_THUMBR"@[0] == 'B',
        "BTN_THUMBR"@[1] == 'T',
        "BTN_THUMBR"@[2] == 'N',
        "BTN_THUMBR"@[4] == 'T',
        "BTN_THUMBR"@[5] == 'H',
        "BTN_THUMBR"@[6] == 'U',
        "BTN_THUMBR"@[7] == 'M',
        "BTN_THUMBR"@[8] == 'B',
        "BTN_THUMBR"@[9] == 'R',
        "BTN_TOOL_PEN"@.len() == 12,
        "BTN_TOOL_PEN"@[0] == 'B',
        "BTN_TOOL_PEN"@[1] == 'T',
        "BTN_TOOL_PEN"@[2] == 'N',
        "BTN_TOOL_PEN"@[4] == 'T',
        "BTN_TOOL_PEN"@[5] == 'O',
        "BTN_TOOL_PEN"@[6] == 'O',
        "BTN_TOOL_PEN"@[7] == 'L',
        "BTN_TOOL_PEN"@[8] == '_',
        "BTN_TOOL_PEN"@[9] == 'P',
        "BTN_TOOL_PEN"@[10] == 'E',
        "BTN_TOOL_PEN"@[11] == 'N',
        "BTN_TOOL_RUBBER"@.len() == 15,
        "BTN_TOOL_RUBBER"@[0] == 'B',
        "BTN_TOOL_RUBBER"@[1] == 'T',
        "BTN_TOOL_RUBBER"@[2] == 'N',
        "BTN_TOOL_RUBBER"@[4] == 'T',
        "BTN_TOOL_RUBBER"@[5] == 'O',
        "BTN_TOOL_RUBBER"@[6] == 'O',
        "BTN_TOOL_RUBBER"@[8] == '_',
        "BTN_TOOL_RUBBER"@[9] == 'R',
        "BTN_TOOL_RUBBER"@[10] == 'U',
        "BTN_TOOL_RUBBER"@[11] == 'B',
        "BTN_TOOL_RUBBER"@[12] == 'B',
        "BTN_TOOL_RUBBER"@[13] == 'E',
        "BTN_TOOL_RUBBER"@[14] == 'R',
        "BTN_TOOL_BRUSH"@.len() == 14,
        "BTN_TOOL_BRUSH"@[0] == 'B',
        "BTN_TOOL_BRUSH"@[1] == 'T',
        "BTN_TOOL_BRUSH"@[2] == 'N',
        "BTN_TOOL_BRUSH"@[4] == 'T',
        "BTN_TOOL_BRUSH"@[5] == 'O',
        "BTN_TOOL_BRUSH"@[6] == 'O',
        "BTN_TOOL_BRUSH"@[7] == 'L',
        "BTN_TOOL_BRUSH"@[8] == '_',
        "BTN_TOOL_BRUSH"@[9] == 'B',
        "BTN_TOOL_BRUSH"@[10] == 'R',
        "BTN_TOOL_BRUSH"@[11] == 'U',
        "BTN_TOOL_BRUSH"@[12] == 'S',
        "BTN_TOOL_BRUSH"@[13] == 'H',
        "BTN_TOOL_PENCIL"@.len() == 15,
        "BTN_TOOL_PENCIL"@[0] == 'B',
        "BTN_TOOL_PENCIL"@[1] == 'T',
        "BTN_TOOL_PENCIL"@[2] == 'N',
        "BTN_TOOL_PENCIL"@[4] == 'T',
        "BTN_TOOL_PENCIL"@[5] == 'O',
        "BTN_TOOL_PENCIL"@[6] == 'O',
        "BTN_TOOL_PENCIL"@[8] == '_',
        "BTN_TOOL_PENCIL"@[9] == 'P',
        "BTN_TOOL_PENCIL"@[10] == 'E',
        "BTN_TOOL_PENCIL"@[11] == 'N',
        "BTN_TOOL_PENCIL"@[12] == 'C',
        "BTN_TOOL_PENCIL"@[13] == 'I',
        "BTN_TOOL_PENCIL"@[14] == 'L',
        "BTN_TOOL_AIRBRUSH"@.len() == 17,
        "BTN_TOOL_AIRBRUSH"@[9] == 'A',
        "BTN_TOOL_AIRBRUSH"@[10] == 'I',
        "BTN_TOOL_AIRBRUSH"@[11] == 'R',
        "BTN_TOOL_AIRBRUSH"@[12] == 'B',
        "BTN_TOOL_AIRBRUSH"@[13] == 'R',
        "BTN_TOOL_AIRBRUSH"@[14] == 'U',
        "BTN_TOOL_AIRBRUSH"@[15] == 'S',
        "BTN_TOOL_AIRBRUSH"@[16] == 'H',
        "BTN_TOOL_FINGER"@.len() == 15,
        "BTN_TOOL_FINGER"@[0] == 'B',
        "BTN_TOOL_FINGER"@[1] == 'T',
        "BTN_TOOL_FINGER"@[2] == 'N',
        "BTN_TOOL_FINGER"@[4] == 'T',
        "BTN_TOOL_FINGER"@[5] == 'O',
        "BTN_TOOL_FINGER"@[6] == 'O',
        "BTN_TOOL_FINGER"@[8] == '_',
        "BTN_TOOL_FINGER"@[9] == 'F',
        "BTN_TOOL_FINGER"@[10] == 'I',
        "BTN_TOOL_FINGER"@[11] == 'N',
        "BTN_TOOL_FINGER"@[12] == 'G',
        "BTN_TOOL_FINGER"@[13] == 'E',
        "BTN_TOOL_FINGER"@[14] == 'R',
        "BTN_TOOL_MOUSE"@.len() == 14,
        "BTN_TOOL_MOUSE"@[0] == 'B',
        "BTN_TOOL_MOUSE"@[1] == 'T',
        "BTN_TOOL_MOUSE"@[2] == 'N',
        "BTN_TOOL_MOUSE"@[4] == 'T',
        "BTN_TOOL_MOUSE"@[5] == 'O',
        "BTN_TOOL_MOUSE"@[6] == 'O',
        "BTN_TOOL_MOUSE"@[7] == 'L',
        "BTN_TOOL_MOUSE"@[8] == '_',
        "BTN_TOOL_MOUSE"@[9] == 'M',
        "BTN_TOOL_MOUSE"@[10] == 'O',
        "BTN_TOOL_MOUSE"@[11] == 'U',
        "BTN_TOOL_MOUSE"@[12] == 'S',
        "BTN_TOOL_MOUSE"@[13] == 'E',
        "BTN_TOOL_LENS"@.len() == 13,
        "BTN_TOOL_LENS"@[0] == 'B',
        "BTN_TOOL_LENS"@[1] == 'T',
        "BTN_TOOL_LENS"@[2] == 'N',
        "BTN_TOOL_LENS"@[4] == 'T',
        "BTN_TOOL_LENS"@[5] == 'O',
        "BTN_TOOL_LENS"@[6] == 'O',
        "BTN_TOOL_LENS"@[7] == 'L',
        "BTN_TOOL_LENS"@[8] == '_',
        "BTN_TOOL_LENS"@[9] == 'L',
        "BTN_TOOL_LENS"@[10] == 'E',
        "BTN_TOOL_LENS"@[11] == 'N',
        "BTN_TOOL_LENS"@[12] == 'S',
        "BTN_TOOL_QUINTTAP"@.len() == 17,
        "BTN_TOOL_QUINTTAP"@[9] == 'Q',
        "BTN_TOOL_QUINTTAP"@[10] == 'U',
        "BTN_TOOL_QUINTTAP"@[11] == 'I',
        "BTN_TOOL_QUINTTAP"@[12] == 'N',
        "BTN_TOOL_QUINTTAP"@[13] == 'T',
        "BTN_TOOL_QUINTTAP"@[14] == 'T',
        "BTN_TOOL_QUINTTAP"@[15] == 'A',
        "BTN_TOOL_QUINTTAP"@[16] == 'P',
        "BTN_STYLUS3"@.len() == 11,
        "BTN_STYLUS3"@[0] == 'B',
        "BTN_STYLUS3"@[1] == 'T',
        "BTN_STYLUS3"@[2] == 'N',
        "BTN_STYLUS3"@[4] == 'S',
        "BTN_STYLUS3"@[5] == 'T',
        "BTN_STYLUS3"@[6] == 'Y',
        "BTN_STYLUS3"@[7] == 'L',
        "BTN_STYLUS3"@[8] == 'U',
        "BTN_STYLUS3"@[9] == 'S',
        "BTN_STYLUS3"@[10] == '3',
        "BTN_TOUCH"@.len() == 9,
        "BTN_TOUCH"@[0] == 'B',
        "BTN_TOUCH"@[1] == 'T',
        "BTN_TOUCH"@[2] == 'N',
        "BTN_TOUCH"@[4] == 'T',
        "BTN_TOUCH"@[5] == 'O',
        "BTN_TOUCH"@[6] == 'U',
        "BTN_TOUCH"@[7] == 'C',
        "BTN_TOUCH"@[8] == 'H',
        "BTN_STYLUS"@.len() == 10,
        "BTN_STYLUS"@[0] == 'B',
        "BTN_STYLUS"@[1] == 'T',
        "BTN_STYLUS"@[2] == 'N',
        "BTN_STYLUS"@[4] == 'S',
        "BTN_STYLUS"@[5] == 'T',
        "BTN_STYLUS"@[6] == 'Y',
        "BTN_STYLUS"@[7] == 'L',
        "BTN_STYLUS"@[8] == 'U',
        "BTN_STYLUS"@[9] == 'S',
        "BTN_STYLUS2"@.len() == 11,
        "BTN_STYLUS2"@[0] == 'B',
        "BTN_STYLUS2"@[1] == 'T',
        "BTN_STYLUS2"@[2] == 'N',
        "BTN_STYLUS2"@[4] == 'S',
        "BTN_STYLUS2"@[5] == 'T',
        "BTN_STYLUS2"@[6] == 'Y',
        "BTN_STYLUS2"@[7] == 'L',
        "BTN_STYLUS2"@[8] == 'U',
        "BTN_STYLUS2"@[9] == 'S',
        "BTN_STYLUS2"@[10] == '2',
        "BTN_TOOL_DOUBLETAP"@.len() == 18,
        "BTN_TOOL_DOUBLETAP"@[0] == 'B',
        "BTN_TOOL_DOUBLETAP"@[1] == 'T',
        "BTN_TOOL_DOUBLETAP"@[2] == 'N',
        "BTN_TOOL_DOUBLETAP"@[4] == 'T',
        "BTN_TOOL_DOUBLETAP"@[5] == 'O',
        "BTN_TOOL_DOUBLETAP"@[6] == 'O',
        "BTN_TOOL_DOUBLETAP"@[7] == 'L',
        "BTN_TOOL_DOUBLETAP"@[8] == '_',
        "BTN_TOOL_DOUBLETAP"@[9] == 'D',
        "BTN_TOOL_DOUBLETAP"@[10] == 'O',
        "BTN_TOOL_DOUBLETAP"@[11] == 'U',
        "BTN_TOOL_DOUBLETAP"@[12] == 'B',
        "BTN_TOOL_DOUBLETAP"@[13] == 'L',
        "BTN_TOOL_DOUBLETAP"@[14] == 'E',
        "BTN_TOOL_DOUBLETAP"@[15] == 'T',
        "BTN_TOOL_DOUBLETAP"@[16] == 'A',
        "BTN_TOOL_DOUBLETAP"@[17] == 'P',
        "BTN_TOOL_TRIPLETAP"@.len() == 18,
        "BTN_TOOL_TRIPLETAP"@[0] == 'B',
        "BTN_TOOL_TRIPLETAP"@[1] == 'T',
        "BTN_TOOL_TRIPLETAP"@[2] == 'N',
        "BTN_TOOL_TRIPLETAP"@[4] == 'T',
        "BTN_TOOL_TRIPLETAP"@[5] == 'O',
        "BTN_TOOL_TRIPLETAP"@[6] == 'O',
        "BTN_TOOL_TRIPLETAP"@[7] == 'L',
        "BTN_TOOL_TRIPLETAP"@[8] == '_',
        "BTN_TOOL_TRIPLETAP"@[9] == 'T',
        "BTN_TOOL_TRIPLETAP"@[10] == 'R',
        "BTN_TOOL_TRIPLETAP"@[11] == 'I',
        "BTN_TOOL_TRIPLETAP"@[12] == 'P',
        "BTN_TOOL_TRIPLETAP"@[13] == 'L',
        "BTN_TOOL_TRIPLETAP"@[14] == 'E',
        "BTN_TOOL_TRIPLETAP"@[15] == 'T',
        "BTN_TOOL_TRIPLETAP"@[16] == 'A',
        "BTN_TOOL_TRIPLETAP"@[17] == 'P',
        "BTN_TOOL_QUADTAP"@.len() == 16,
        "BTN_GEAR_DOWN"@.len() == 13,
        "BTN_GEAR_DOWN"@[0] == 'B',
        "BTN_GEAR_DOWN"@[1] == 'T',
        "BTN_GEAR_DOWN"@[2] == 'N',
        "BTN_GEAR_DOWN"@[4] == 'G',
        "BTN_GEAR_DOWN"@[5] == 'E',
        "BTN_GEAR_DOWN"@[6] == 'A',
        "BTN_GEAR_DOWN"@[7] == 'R',
        "BTN_GEAR_DOWN"@[8] == '_',
        "BTN_GEAR_DOWN"@[9] == 'D',
        "BTN_GEAR_DOWN"@[10] == 'O',
        "BTN_GEAR_DOWN"@[11] == 'W',
        "BTN_GEAR_DOWN"@[12] == 'N',
        "BTN_GEAR_UP"@.len() == 11,
        "BTN_GEAR_UP"@[0] == 'B',
        "BTN_GEAR_UP"@[1] == 'T',
        "BTN_GEAR_UP"@[2] == 'N',
        "BTN_GEAR_UP"@[4] == 'G',
        "BTN_GEAR_UP"@[5] == 'E',
        "BTN_GEAR_UP"@[6] == 'A',
        "BTN_GEAR_UP"@[7] == 'R',
        "BTN_GEAR_UP"@[8] == '_',
        "BTN_GEAR_UP"@[9] == 'U',
        "BTN_GEAR_UP"@[10] == 'P',
        "BTN_DPAD_UP"@.len() == 11,
        "BTN_DPAD_UP"@[0] == 'B',
        "BTN_DPAD_UP"@[1] == 'T',
        "BTN_DPAD_UP"@[2] == 'N',
        "BTN_DPAD_UP"@[4] == 'D',
        "BTN_DPAD_UP"@[5] == 'P',
        "BTN_DPAD_UP"@[6] == 'A',
        "BTN_DPAD_UP"@[7] == 'D',
        "BTN_DPAD_UP"@[8] == '_',
        "BTN_DPAD_UP"@[9] == 'U',
        "BTN_DPAD_UP"@[10] == 'P',
        "BTN_DPAD_DOWN"@.len() == 13,
        "BTN_DPAD_DOWN"@[0] == 'B',
        "BTN_DPAD_DOWN"@[1] == 'T',
        "BTN_DPAD_DOWN"@[2] == 'N',
        "BTN_DPAD_DOWN"@[4] == 'D',
        "BTN_DPAD_DOWN"@[5] == 'P',
        "BTN_DPAD_DOWN"@[6] == 'A',
        "BTN_DPAD_DOWN"@[7] == 'D',
        "BTN_DPAD_DOWN"@[8] == '_',
        "BTN_DPAD_DOWN"@[9] == 'D',
        "BTN_DPAD_DOWN"@[10] == 'O',
        "BTN_DPAD_DOWN"@[11] == 'W',
        "BTN_DPAD_DOWN"@[12] == 'N',
        "BTN_DPAD_LEFT"@.len() == 13,
        "BTN_DPAD_LEFT"@[0] == 'B',
        "BTN_DPAD_LEFT"@[1] == 'T',
        "BTN_DPAD_LEFT"@[2] == 'N',
        "BTN_DPAD_LEFT"@[4] == 'D',
        "BTN_DPAD_LEFT"@[5] == 'P',
        "BTN_DPAD_LEFT"@[6] == 'A',
        "BTN_DPAD_LEFT"@[7] == 'D',
        "BTN_DPAD_LEFT"@[8] == '_',
        "BTN_DPAD_LEFT"@[9] == 'L',
        "BTN_DPAD_LEFT"@[10] == 'E',
        "BTN_DPAD_LEFT"@[11] == 'F',
        "BTN_DPAD_LEFT"@[12] == 'T',
        "BTN_DPAD_RIGHT"@.len() == 14,
        "BTN_DPAD_RIGHT"@[0] == 'B',
        "BTN_DPAD_RIGHT"@[1] == 'T',
        "BTN_DPAD_RIGHT"@[2] == 'N',
        "BTN_DPAD_RIGHT"@[4] == 'D',
        "BTN_DPAD_RIGHT"@[5] == 'P',
        "BTN_DPAD_RIGHT"@[6] == 'A',
        "BTN_DPAD_RIGHT"@[7] == 'D',
        "BTN_DPAD_RIGHT"@[8] == '_',
        "BTN_DPAD_RIGHT"@[9] == 'R',
        "BTN_DPAD_RIGHT"@[10] == 'I',
        "BTN_DPAD_RIGHT"@[11] == 'G',
        "BTN_DPAD_RIGHT"@[12] == 'H',
        "BTN_DPAD_RIGHT"@[13] == 'T',
{
    reveal_strlit("BTN_SELECT");
    reveal_strlit("BTN_START");
    reveal_strlit("BTN_MODE");
    reveal_strlit("BTN_THUMBL");
    reveal_strlit("BTN_THUMBR");
    reveal_strlit("BTN_TOOL_PEN");
    reveal_strlit("BTN_TOOL_RUBBER");
    reveal_strlit("BTN_TOOL_BRUSH");
    reveal_strlit("BTN_TOOL_PENCIL");
    reveal_strlit("BTN_TOOL_AIRBRUSH");
    reveal_strlit("BTN_TOOL_FINGER");
    reveal_strlit("BTN_TOOL_MOUSE");
    reveal_strlit("BTN_TOOL_LENS");
    reveal_strlit("BTN_TOOL_QUINTTAP");
    reveal_strlit("BTN_STYLUS3");
    reveal_strlit("BTN_TOUCH");
    reveal_strlit("BTN_STYLUS");
    reveal_strlit("BTN_STYLUS2");
    reveal_strlit("BTN_TOOL_DOUBLETAP");
    reveal_strlit("BTN_TOOL_TRIPLETAP");
    reveal_strlit("BTN_TOOL_QUADTAP");
    reveal_strlit("BTN_GEAR_DOWN");
    reveal_strlit("BTN_GEAR_UP");
    reveal_strlit("BTN_DPAD_UP");
    reveal_strlit("BTN_DPAD_DOWN");
    reveal_strlit("BTN_DPAD_LEFT");
    reveal_strlit("BTN_DPAD_RIGHT");
}

/// Each key constant is named by its own identifier, and parsing that
/// identifier gives back the constant (part 1 of the key constants).
pub proof fn law_key_code_names_1()
    ensures
        key_code_name(KeyCode::KEY_RESERVED) == Some("KEY_RESERVED"@),
        key_code_name(KeyCode::KEY_ESC) == Some("KEY_ESC"@),
        key_code_name(KeyCode::KEY_1) == Some("KEY_1"@),
        key_code_name(KeyCode::KEY_2) == Some("KEY_2"@),
        key_code_name(KeyCode::KEY_3) == Some("KEY_3"@),
        key_code_name(KeyCode::KEY_4) == Some("KEY_4"@),
        key_code_name(KeyCode::KEY_5) == Some("KEY_5"@),
        key_code_name(KeyCode::KEY_6) == Some("KEY_6"@),
        key_code_name(KeyCode::KEY_7) == Some("KEY_7"@),
        key_code_name(KeyCode::KEY_8) == Some("KEY_8"@),
        key_code_name(KeyCode::KEY_9) == Some("KEY_9"@),
        key_code_name(KeyCode::KEY_0) == Some("KEY_0"@),
        key_code_name(KeyCode::KEY_MINUS) == Some("KEY_MINUS"@),
        key_code_name(KeyCode::KEY_EQUAL) == Some("KEY_EQUAL"@),
        key_code_name(KeyCode::KEY_BACKSPACE) == Some("KEY_BACKSPACE"@),
        key_code_name(KeyCode::KEY_TAB) == Some("KEY_TAB"@),
        key_code_name(KeyCode::KEY_Q) == Some("KEY_Q"@),
        key_code_name(KeyCode::KEY_W) == Some("KEY_W"@),
        key_code_name(KeyCode::KEY_E) == Some("KEY_E"@),
        key_code_name(KeyCode::KEY_R) == Some("KEY_R"@),
        key_code_name(KeyCode::KEY_T) == Some("KEY_T"@),
        key_code_name(KeyCode::KEY_Y) == Some("KEY_Y"@),
        key_code_name(KeyCode::KEY_U) == Some("KEY_U"@),
        key_code_name(KeyCode::KEY_I) == Some("KEY_I"@),
        key_code_name(KeyCode::KEY_O) == Some("KEY_O"@),
        key_code_name(KeyCode::KEY_P) == Some("KEY_P"@),
        key_code_name(KeyCode::KEY_LEFTBRACE) == Some("KEY_LEFTBRACE"@),
        key_code_name(KeyCode::KEY_RIGHTBRACE) == Some("KEY_RIGHTBRACE"@),
        key_code_code("KEY_RESERVED"@) == Some(KeyCode::KEY_RESERVED),
        key_code_code("KEY_ESC"@) == Some(KeyCode::KEY_ESC),
        key_code_code("KEY_1"@) == Some(KeyCode::KEY_1),
        key_code_code("KEY_2"@) == Some(KeyCode::KEY_2),
        key_code_code("KEY_3"@) == Some(KeyCode::KEY_3),
        key_code_code("KEY_4"@) == Some(KeyCode::KEY_4),
        key_code_code("KEY_5"@) == Some(KeyCode::KEY_5),
        key_code_code("KEY_6"@) == Some(KeyCode::KEY_6),
        key_code_code("KEY_7"@) == Some(KeyCode::KEY_7),
        key_code_code("KEY_8"@) == Some(KeyCode::KEY_8),
        key_code_code("KEY_9"@) == Some(KeyCode::KEY_9),
        key_code_code("KEY_0"@) == Some(KeyCode::KEY_0),
        key_code_code("KEY_MINUS"@) == Some(KeyCode::KEY_MINUS),
        key_code_code("KEY_EQUAL"@) == Some(KeyCode::KEY_EQUAL),
        key_code_code("KEY_BACKSPACE"@) == Some(KeyCode::KEY_BACKSPACE),
        key_code_code("KEY_TAB"@) == Some(KeyCode::KEY_TAB),
        key_code_code("KEY_Q"@) == Some(KeyCode::KEY_Q),
        key_code_code("KEY_W"@) == Some(KeyCode::KEY_W),
        key_code_code("KEY_E"@) == Some(KeyCode::KEY_E),
        key_code_code("KEY_R"@) == Some(KeyCode::KEY_R),
        key_code_code("KEY_T"@) == Some(KeyCode::KEY_T),
        key_code_code("KEY_Y"@) == Some(KeyCode::KEY_Y),
        key_code_code("KEY_U"@) == Some(KeyCode::KEY_U),
        key_code_code("KEY_I"@) == Some(KeyCode::KEY_I),
        key_code_code("KEY_O"@) == Some(KeyCode::KEY_O),
        key_code_code("KEY_P"@) == Some(KeyCode::KEY_P),
        key_code_code("KEY_LEFTBRACE"@) == Some(KeyCode::KEY_LEFTBRACE),
        key_code_code("KEY_RIGHTBRACE"@) == Some(KeyCode::KEY_RIGHTBRACE),
{
    lemma_key_code_spelling_1();
}

/// Each key constant is named by its own identifier, and parsing that
/// identifier gives back the constant (part 2 of the key constants).
pub proof fn law_key_code_names_2()
    ensures
        key_code_name(KeyCode::KEY_ENTER) == Some("KEY_ENTER"@),
        key_code_name(KeyCode::KEY_LEFTCTRL) == Some("KEY_LEFTCTRL"@),
        key_code_name(KeyCode::KEY_A) == Some("KEY_A"@),
        key_code_name(KeyCode::KEY_S) == Some("KEY_S"@),
        key_code_name(KeyCode::KEY_D) == Some("KEY_D"@),
        key_code_name(KeyCode::KEY_F) == Some("KEY_F"@),
        key_code_name(KeyCode::KEY_G) == Some("KEY_G"@),
        key_code_name(KeyCode::KEY_H) == Some("KEY_H"@),
        key_code_name(KeyCode::KEY_J) == Some("KEY_J"@),
        key_code_name(KeyCode::KEY_K) == Some("KEY_K"@),
        key_code_name(KeyCode::KEY_L) == Some("KEY_L"@),
        key_code_name(KeyCode::KEY_SEMICOLON) == Some("KEY_SEMICOLON"@),
        key_code_name(KeyCode::KEY_APOSTROPHE) == Some("KEY_APOSTROPHE"@),
        key_code_name(KeyCode::KEY_GRAVE) == Some("KEY_GRAVE"@),
        key_code_name(KeyCode::KEY_LEFTSHIFT) == Some("KEY_LEFTSHIFT"@),
        key_code_name(KeyCode::KEY_BACKSLASH) == Some("KEY_BACKSLASH"@),
        key_code_name(KeyCode::KEY_Z) == Some("KEY_Z"@),
        key_code_name(KeyCode::KEY_X) == Some("KEY_X"@),
        key_code_name(KeyCode::KEY_C) == Some("KEY_C"@),
        key_code_name(KeyCode::KEY_V) == Some("KEY_V"@),
        key_code_name(KeyCode::KEY_B) == Some("KEY_B"@),
        key_code_name(KeyCode::KEY_N) == Some("KEY_N"@),
        key_code_name(KeyCode::KEY_M) == Some("KEY_M"@),
        key_code_name(KeyCode::KEY_COMMA) == Some("KEY_COMMA"@),
        key_code_name(KeyCode::KEY_DOT) == Some("KEY_DOT"@),
        key_code_name(KeyCode::KEY_SLASH) == Some("KEY_SLASH"@),
        key_code_name(KeyCode::KEY_RIGHTSHIFT) == Some("KEY_RIGHTSHIFT"@),
        key_code_name(KeyCode::KEY_KPASTERISK) == Some("KEY_KPASTERISK"@),
        key_code_code("KEY_ENTER"@) == Some(KeyCode::KEY_ENTER),
        key_code_code("KEY_LEFTCTRL"@) == Some(KeyCode::KEY_LEFTCTRL),
        key_code_code("KEY_A"@) == Some(KeyCode::KEY_A),
        key_code_code("KEY_S"@) == Some(KeyCode::KEY_S),
        key_code_code("KEY_D"@) == Some(KeyCode::KEY_D),
        key_code_code("KEY_F"@) == Some(KeyCode::KEY_F),
        key_code_code("KEY_G"@) == Some(KeyCode::KEY_G),
        key_code_code("KEY_H"@) == Some(KeyCode::KEY_H),
        key_code_code("KEY_J"@) == Some(KeyCode::KEY_J),
        key_code_code("KEY_K"@) == Some(KeyCode::KEY_K),
        key_code_code("KEY_L"@) == Some(KeyCode::KEY_L),
        key_code_code("KEY_SEMICOLON"@) == Some(KeyCode::KEY_SEMICOLON),
        key_code_code("KEY_APOSTROPHE"@) == Some(KeyCode::KEY_APOSTROPHE),
        key_code_code("KEY_GRAVE"@) == Some(KeyCode::KEY_GRAVE),
        key_code_code("KEY_LEFTSHIFT"@) == Some(KeyCode::KEY_LEFTSHIFT),
        key_code_code("KEY_BACKSLASH"@) == Some(KeyCode::KEY_BACKSLASH),
        key_code_code("KEY_Z"@) == Some(KeyCode::KEY_Z),
        key_code_code("KEY_X"@) == Some(KeyCode::KEY_X),
        key_code_code("KEY_C"@) == Some(KeyCode::KEY_C),
        key_code_code("KEY_V"@) == Some(KeyCode::KEY_V),
        key_code_code("KEY_B"@) == Some(KeyCode::KEY_B),
        key_code_code("KEY_N"@) == Some(KeyCode::KEY_N),
        key_code_code("KEY_M"@) == Some(KeyCode::KEY_M),
        key_code_code("KEY_COMMA"@) == Some(KeyCode::KEY_COMMA),
        key_code_code("KEY_DOT"@) == Some(KeyCode::KEY_DOT),
        key_code_code("KEY_SLASH"@) == Some(KeyCode::KEY_SLASH),
        key_code_code("KEY_RIGHTSHIFT"@) == Some(KeyCode::KEY_RIGHTSHIFT),
        key_code_code("KEY_KPASTERISK"@) == Some(KeyCode::KEY_KPASTERISK),
{
    lemma_key_code_spelling_1();
    lemma_key_code_spelling_2();
}

/// Each key constant is named by its own identifier, and parsing that
/// identifier gives back the constant (part 3 of the key constants).
pub proof fn law_key_code_names_3()
    ensures
        key_code_name(KeyCode::KEY_LEFTALT) == Some("KEY_LEFTALT"@),
        key_code_name(KeyCode::KEY_SPACE) == Some("KEY_SPACE"@),
        key_code_name(KeyCode::KEY_CAPSLOCK) == Some("KEY_CAPSLOCK"@),
        key_code_name(KeyCode::KEY_F1) == Some("KEY_F1"@),
        key_code_name(KeyCode::KEY_F2) == Some("KEY_F2"@),
        key_code_name(KeyCode::KEY_F3) == Some("KEY_F3"@),
        key_code_name(KeyCode::KEY_F4) == Some("KEY_F4"@),
        key_code_name(KeyCode::KEY_F5) == Some("KEY_F5"@),
        key_code_name(KeyCode::KEY_F6) == Some("KEY_F6"@),
        key_code_name(KeyCode::KEY_F7) == Some("KEY_F7"@),
        key_code_name(KeyCode::KEY_F8) == Some("KEY_F8"@),
        key_code_name(KeyCode::KEY_F9) == Some("KEY_F9"@),
        key_code_name(KeyCode::KEY_F10) == Some("KEY_F10"@),
        key_code_name(KeyCode::KEY_NUMLOCK) == Some("KEY_NUMLOCK"@),
        key_code_name(KeyCode::KEY_SCROLLLOCK) == Some("KEY_SCROLLLOCK"@),
        key_code_name(KeyCode::KEY_KP7) == Some("KEY_KP7"@),
        key_code_name(KeyCode::KEY_KP8) == Some("KEY_KP8"@),
        key_code_name(KeyCode::KEY_KP9) == Some("KEY_KP9"@),
        key_code_name(KeyCode::KEY_KPMINUS) == Some("KEY_KPMINUS"@),
        key_code_name(KeyCode::KEY_KP4) == Some("KEY_KP4"@),
        key_code_name(KeyCode::KEY_KP5) == Some("KEY_KP5"@),
        key_code_name(KeyCode::KEY_KP6) == Some("KEY_KP6"@),
        key_code_name(KeyCode::KEY_KPPLUS) == Some("KEY_KPPLUS"@),
        key_code_name(KeyCode::KEY_KP1) == Some("KEY_KP1"@),
        key_code_name(KeyCode::KEY_KP2) == Some("KEY_KP2"@),
        key_code_name(KeyCode::KEY_KP3) == Some("KEY_KP3"@),
        key_code_name(KeyCode::KEY_KP0) == Some("KEY_KP0"@),
        key_code_name(KeyCode::KEY_KPDOT) == Some("KEY_KPDOT"@),
        key_code_code("KEY_LEFTALT"@) == Some(KeyCode::KEY_LEFTALT),
        key_code_code("KEY_SPACE"@) == Some(KeyCode::KEY_SPACE),
        key_code_code("KEY_CAPSLOCK"@) == Some(KeyCode::KEY_CAPSLOCK),
        key_code_code("KEY_F1"@) == Some(KeyCode::KEY_F1),
        key_code_code("KEY_F2"@) == Some(KeyCode::KEY_F2),
        key_code_code("KEY_F3"@) == Some(KeyCode::KEY_F3),
        key_code_code("KEY_F4"@) == Some(KeyCode::KEY_F4),
        key_code_code("KEY_F5"@) == Some(KeyCode::KEY_F5),
        key_code_code("KEY_F6"@) == Some(KeyCode::KEY_F6),
        key_code_code("KEY_F7"@) == Some(KeyCode::KEY_F7),
        key_code_code("KEY_F8"@) == Some(KeyCode::KEY_F8),
        key_code_code("KEY_F9"@) == Some(KeyCode::KEY_F9),
        key_code_code("KEY_F10"@) == Some(KeyCode::KEY_F10),
        key_code_code("KEY_NUMLOCK"@) == Some(KeyCode::KEY_NUMLOCK),
        key_code_code("KEY_SCROLLLOCK"@) == Some(KeyCode::KEY_SCROLLLOCK),
        key_code_code("KEY_KP7"@) == Some(KeyCode::KEY_KP7),
        key_code_code("KEY_KP8"@) == Some(KeyCode::KEY_KP8),
        key_code_code("KEY_KP9"@) == Some(KeyCode::KEY_KP9),
        key_code_code("KEY_KPMINUS"@) == Some(KeyCode::KEY_KPMINUS),
        key_code_code("KEY_KP4"@) == Some(KeyCode::KEY_KP4),
        key_code_code("KEY_KP5"@) == Some(KeyCode::KEY_KP5),
        key_code_code("KEY_KP6"@) == Some(KeyCode::KEY_KP6),
        key_code_code("KEY_KPPLUS"@) == Some(KeyCode::KEY_KPPLUS),
        key_code_code("KEY_KP1"@) == Some(KeyCode::KEY_KP1),
        key_code_code("KEY_KP2"@) == Some(KeyCode::KEY_KP2),
        key_code_code("KEY_KP3"@) == Some(KeyCode::KEY_KP3),
        key_code_code("KEY_KP0"@) == Some(KeyCode::KEY_KP0),
        key_code_code("KEY_KPDOT"@) == Some(KeyCode::KEY_KPDOT),
{
    lemma_key_code_spelling_1();
    lemma_key_code_spelling_2();
    lemma_key_code_spelling_3();
}

/// Each key constant is named by its own identifier, and parsing that
/// identifier gives back the constant (part 4 of the key constants).
pub proof fn law_key_code_names_4()
    ensures
        key_code_name(KeyCode::KEY_ZENKAKUHANKAKU) == Some("KEY_ZENKAKUHANKAKU"@),
        key_code_name(KeyCode::KEY_102ND) == Some("KEY_102ND"@),
        key_code_name(KeyCode::KEY_F11) == Some("KEY_F11"@),
        key_code_name(KeyCode::KEY_F12) == Some("KEY_F12"@),
        key_code_name(KeyCode::KEY_RO) == Some("KEY_RO"@),
        key_code_name(KeyCode::KEY_KATAKANA) == Some("KEY_KATAKANA"@),
        key_code_name(KeyCode::KEY_HIRAGANA) == Some("KEY_HIRAGANA"@),
        key_code_name(KeyCode::KEY_HENKAN) == Some("KEY_HENKAN"@),
        key_code_name(KeyCode::KEY_KATAKANAHIRAGANA) == Some("KEY_KATAKANAHIRAGANA"@),
        key_code_name(KeyCode::KEY_MUHENKAN) == Some("KEY_MUHENKAN"@),
        key_code_name(KeyCode::KEY_KPJPCOMMA) == Some("KEY_KPJPCOMMA"@),
        key_code_name(KeyCode::KEY_KPENTER) == Some("KEY_KPENTER"@),
        key_code_name(KeyCode::KEY_RIGHTCTRL) == Some("KEY_RIGHTCTRL"@),
        key_code_name(KeyCode::KEY_KPSLASH) == Some("KEY_KPSLASH"@),
        key_code_name(KeyCode::KEY_SYSRQ) == Some("KEY_SYSRQ"@),
        key_code_name(KeyCode::KEY_RIGHTALT) == Some("KEY_RIGHTALT"@),
        key_code_name(KeyCode::KEY_LINEFEED) == Some("KEY_LINEFEED"@),
        key_code_name(KeyCode::KEY_HOME) == Some("KEY_HOME"@),
        key_code_name(KeyCode::KEY_UP) == Some("KEY_UP"@),
        key_code_name(KeyCode::KEY_PAGEUP) == Some("KEY_PAGEUP"@),
        key_code_name(KeyCode::KEY_LEFT) == Some("KEY_LEFT"@),
        key_code_name(KeyCode::KEY_RIGHT) == Some("KEY_RIGHT"@),
        key_code_name(KeyCode::KEY_END) == Some("KEY_END"@),
        key_code_name(KeyCode::KEY_DOWN) == Some("KEY_DOWN"@),
        key_code_name(KeyCode::KEY_PAGEDOWN) == Some("KEY_PAGEDOWN"@),
        key_code_name(KeyCode::KEY_INSERT) == Some("KEY_INSERT"@),
        key_code_name(KeyCode::KEY_DELETE) == Some("KEY_DELETE"@),
        key_code_name(KeyCode::KEY_MACRO) == Some("KEY_MACRO"@),
        key_code_code("KEY_ZENKAKUHANKAKU"@) == Some(KeyCode::KEY_ZENKAKUHANKAKU),
        key_code_code("KEY_102ND"@) == Some(KeyCode::KEY_102ND),
        key_code_code("KEY_F11"@) == Some(KeyCode::KEY_F11),
        key_code_code("KEY_F12"@) == Some(KeyCode::KEY_F12),
        key_code_code("KEY_RO"@) == Some(KeyCode::KEY_RO),
        key_code_code("KEY_KATAKANA"@) == Some(KeyCode::KEY_KATAKANA),
        key_code_code("KEY_HIRAGANA"@) == Some(KeyCode::KEY_HIRAGANA),
        key_code_code("KEY_HENKAN"@) == Some(KeyCode::KEY_HENKAN),
        key_code_code("KEY_KATAKANAHIRAGANA"@) == Some(KeyCode::KEY_KATAKANAHIRAGANA),
        key_code_code("KEY_MUHENKAN"@) == Some(KeyCode::KEY_MUHENKAN),
        key_code_code("KEY_KPJPCOMMA"@) == Some(KeyCode::KEY_KPJPCOMMA),
        key_code_code("KEY_KPENTER"@) == Some(KeyCode::KEY_KPENTER),
        key_code_code("KEY_RIGHTCTRL"@) == Some(KeyCode::KEY_RIGHTCTRL),
        key_code_code("KEY_KPSLASH"@) == Some(KeyCode::KEY_KPSLASH),
        key_code_code("KEY_SYSRQ"@) == Some(KeyCode::KEY_SYSRQ),
        key_code_code("KEY_RIGHTALT"@) == Some(KeyCode::KEY_RIGHTALT),
        key_code_code("KEY_LINEFEED"@) == Some(KeyCode::KEY_LINEFEED),
        key_code_code("KEY_HOME"@) == Some(KeyCode::KEY_HOME),
        key_code_code("KEY_UP"@) == Some(KeyCode::KEY_UP),
        key_code_code("KEY_PAGEUP"@) == Some(KeyCode::KEY_PAGEUP),
        key_code_code("KEY_LEFT"@) == Some(KeyCode::KEY_LEFT),
        key_code_code("KEY_RIGHT"@) == Some(KeyCode::KEY_RIGHT),
        key_code_code("KEY_END"@) == Some(KeyCode::KEY_END),
        key_code_code("KEY_DOWN"@) == Some(KeyCode::KEY_DOWN),
        key_code_code("KEY_PAGEDOWN"@) == Some(KeyCode::KEY_PAGEDOWN),
        key_code_code("KEY_INSERT"@) == Some(KeyCode::KEY_INSERT),
        key_code_code("KEY_DELETE"@) == Some(KeyCode::KEY_DELETE),
        key_code_code("KEY_MACRO"@) == Some(KeyCode::KEY_MACRO),
{
    lemma_key_code_spelling_1();
    lemma_key_code_spelling_2();
    lemma_key_code_spelling_3();
    lemma_key_code_spelling_4();
}

/// Each key constant is named by its own identifier, and parsing that
/// identifier gives back the constant (part 5 of the key constants).
pub proof fn law_key_code_names_5()
    ensures
        key_code_name(KeyCode::KEY_MUTE) == Some("KEY_MUTE"@),
        key_code_name(KeyCode::KEY_VOLUMEDOWN) == Some("KEY_VOLUMEDOWN"@),
        key_code_name(KeyCode::KEY_VOLUMEUP) == Some("KEY_VOLUMEUP"@),
        key_code_name(KeyCode::KEY_POWER) == Some("KEY_POWER"@),
        key_code_name(KeyCode::KEY_KPEQUAL) == Some("KEY_KPEQUAL"@),
        key_code_name(KeyCode::KEY_KPPLUSMINUS) == Some("KEY_KPPLUSMINUS"@),
        key_code_name(KeyCode::KEY_PAUSE) == Some("KEY_PAUSE"@),
        key_code_name(KeyCode::KEY_SCALE) == Some("KEY_SCALE"@),
        key_code_name(KeyCode::KEY_KPCOMMA) == Some("KEY_KPCOMMA"@),
        key_code_name(KeyCode::KEY_HANGEUL) == Some("KEY_HANGEUL"@),
        key_code_name(KeyCode::KEY_HANJA) == Some("KEY_HANJA"@),
        key_code_name(KeyCode::KEY_YEN) == Some("KEY_YEN"@),
        key_code_name(KeyCode::KEY_LEFTMETA) == Some("KEY_LEFTMETA"@),
        key_code_name(KeyCode::KEY_RIGHTMETA) == Some("KEY_RIGHTMETA"@),
        key_code_name(KeyCode::KEY_COMPOSE) == Some("KEY_COMPOSE"@),
        key_code_name(KeyCode::KEY_STOP) == Some("KEY_STOP"@),
        key_code_name(KeyCode::KEY_AGAIN) == Some("KEY_AGAIN"@),
        key_code_name(KeyCode::KEY_PROPS) == Some("KEY_PROPS"@),
        key_code_name(KeyCode::KEY_UNDO) == Some("KEY_UNDO"@),
        key_code_name(KeyCode::KEY_FRONT) == Some("KEY_FRONT"@),
        key_code_name(KeyCode::KEY_COPY) == Some("KEY_COPY"@),
        key_code_name(KeyCode::KEY_OPEN) == Some("KEY_OPEN"@),
        key_code_name(KeyCode::KEY_PASTE) == Some("KEY_PASTE"@),
        key_code_name(KeyCode::KEY_FIND) == Some("KEY_FIND"@),
        key_code_name(KeyCode::KEY_CUT) == Some("KEY_CUT"@),
        key_code_name(KeyCode::KEY_HELP) == Some("KEY_HELP"@),
        key_code_name(KeyCode::KEY_MENU) == Some("KEY_MENU"@),
        key_code_name(KeyCode::KEY_CALC) == Some("KEY_CALC"@),
        key_code_code("KEY_MUTE"@) == Some(KeyCode::KEY_MUTE),
        key_code_code("KEY_VOLUMEDOWN"@) == Some(KeyCode::KEY_VOLUMEDOWN),
        key_code_code("KEY_VOLUMEUP"@) == Some(KeyCode::KEY_VOLUMEUP),
        key_code_code("KEY_POWER"@) == Some(KeyCode::KEY_POWER),
        key_code_code("KEY_KPEQUAL"@) == Some(KeyCode::KEY_KPEQUAL),
        key_code_code("KEY_KPPLUSMINUS"@) == Some(KeyCode::KEY_KPPLUSMINUS),
        key_code_code("KEY_PAUSE"@) == Some(KeyCode::KEY_PAUSE),
        key_code_code("KEY_SCALE"@) == Some(KeyCode::KEY_SCALE),
        key_code_code("KEY_KPCOMMA"@) == Some(KeyCode::KEY_KPCOMMA),
        key_code_code("KEY_HANGEUL"@) == Some(KeyCode::KEY_HANGEUL),
        key_code_code("KEY_HANJA"@) == Some(KeyCode::KEY_HANJA),
        key_code_code("KEY_YEN"@) == Some(KeyCode::KEY_YEN),
        key_code_code("KEY_LEFTMETA"@) == Some(KeyCode::KEY_LEFTMETA),
        key_code_code("KEY_RIGHTMETA"@) == Some(KeyCode::KEY_RIGHTMETA),
        key_code_code("KEY_COMPOSE"@) == Some(KeyCode::KEY_COMPOSE),
        key_code_code("KEY_STOP"@) == Some(KeyCode::KEY_STOP),
        key_code_code("KEY_AGAIN"@) == Some(KeyCode::KEY_AGAIN),
        key_code_code("KEY_PROPS"@) == Some(KeyCode::KEY_PROPS),
        key_code_code("KEY_UNDO"@) == Some(KeyCode::KEY_UNDO),
        key_code_code("KEY_FRONT"@) == Some(KeyCode::KEY_FRONT),
        key_code_code("KEY_COPY"@) == Some(KeyCode::KEY_COPY),
        key_code_code("KEY_OPEN"@) == Some(KeyCode::KEY_OPEN),
        key_code_code("KEY_PASTE"@) == Some(KeyCode::KEY_PASTE),
        key_code_code("KEY_FIND"@) == Some(KeyCode::KEY_FIND),
        key_code_code("KEY_CUT"@) == Some(KeyCode::KEY_CUT),
        key_code_code("KEY_HELP"@) == Some(KeyCode::KEY_HELP),
        key_code_code("KEY_MENU"@) == Some(KeyCode::KEY_MENU),
        key_code_code("KEY_CALC"@) == Some(KeyCode::KEY_CALC),
{
    lemma_key_code_spelling_1();
    lemma_key_code_spelling_2();
    lemma_key_code_spelling_3();
    lemma_key_code_spelling_4();
    lemma_key_code_spelling_5();
}

/// Each key constant is named by its own identifier, and parsing that
/// identifier gives back the constant (part 6 of the key constants).
pub proof fn law_key_code_names_6()
    ensures
        key_code_name(KeyCode::KEY_SETUP) == Some("KEY_SETUP"@),
        key_code_name(KeyCode::KEY_SLEEP) == Some("KEY_SLEEP"@),
        key_code_name(KeyCode::KEY_WAKEUP) == Some("KEY_WAKEUP"@),
        key_code_name(KeyCode::KEY_F13) == Some("KEY_F13"@),
        key_code_name(KeyCode::KEY_F14) == Some("KEY_F14"@),
        key_code_name(KeyCode::KEY_F15) == Some("KEY_F15"@),
        key_code_name(KeyCode::KEY_F16) == Some("KEY_F16"@),
        key_code_name(KeyCode::KEY_F17) == Some("KEY_F17"@),
        key_code_name(KeyCode::KEY_F18) == Some("KEY_F18"@),
        key_code_name(KeyCode::KEY_F19) == Some("KEY_F19"@),
        key_code_name(KeyCode::KEY_F20) == Some("KEY_F20"@),
        key_code_name(KeyCode::KEY_F21) == Some("KEY_F21"@),
        key_code_name(KeyCode::KEY_F22) == Some("KEY_F22"@),
        key_code_name(KeyCode::KEY_F23) == Some("KEY_F23"@),
        key_code_name(KeyCode::KEY_F24) == Some("KEY_F24"@),
        key_code_name(KeyCode::BTN_0) == Some("BTN_0"@),
        key_code_name(KeyCode::BTN_1) == Some("BTN_1"@),
        key_code_name(KeyCode::BTN_2) == Some("BTN_2"@),
        key_code_name(KeyCode::BTN_3) == Some("BTN_3"@),
        key_code_name(KeyCode::BTN_4) == Some("BTN_4"@),
        key_code_name(KeyCode::BTN_5) == Some("BTN_5"@),
        key_code_name(KeyCode::BTN_6) == Some("BTN_6"@),
        key_code_name(KeyCode::BTN_7) == Some("BTN_7"@),
        key_code_name(KeyCode::BTN_8) == Some("BTN_8"@),
        key_code_name(KeyCode::BTN_9) == Some("BTN_9"@),
        key_code_name(KeyCode::BTN_LEFT) == Some("BTN_LEFT"@),
        key_code_name(KeyCode::BTN_RIGHT) == Some("BTN_RIGHT"@),
        key_code_name(KeyCode::BTN_MIDDLE) == Some("BTN_MIDDLE"@),
        key_code_code("KEY_SETUP"@) == Some(KeyCode::KEY_SETUP),
        key_code_code("KEY_SLEEP"@) == Some(KeyCode::KEY_SLEEP),
        key_code_code("KEY_WAKEUP"@) == Some(KeyCode::KEY_WAKEUP),
        key_code_code("KEY_F13"@) == Some(KeyCode::KEY_F13),
        key_code_code("KEY_F14"@) == Some(KeyCode::KEY_F14),
        key_code_code("KEY_F15"@) == Some(KeyCode::KEY_F15),
        key_code_code("KEY_F16"@) == Some(KeyCode::KEY_F16),
        key_code_code("KEY_F17"@) == Some(KeyCode::KEY_F17),
        key_code_code("KEY_F18"@) == Some(KeyCode::KEY_F18),
        key_code_code("KEY_F19"@) == Some(KeyCode::KEY_F19),
        key_code_code("KEY_F20"@) == Some(KeyCode::KEY_F20),
        key_code_code("KEY_F21"@) == Some(KeyCode::KEY_F21),
        key_code_code("KEY_F22"@) == Some(KeyCode::KEY_F22),
        key_code_code("KEY_F23"@) == Some(KeyCode::KEY_F23),
        key_code_code("KEY_F24"@) == Some(KeyCode::KEY_F24),
        key_code_code("BTN_0"@) == Some(KeyCode::BTN_0),
        key_code_code("BTN_1"@) == Some(KeyCode::BTN_1),
        key_code_code("BTN_2"@) == Some(KeyCode::BTN_2),
        key_code_code("BTN_3"@) == Some(KeyCode::BTN_3),
        key_code_code("BTN_4"@) == Some(KeyCode::BTN_4),
        key_code_code("BTN_5"@) == Some(KeyCode::BTN_5),
        key_code_code("BTN_6"@) == Some(KeyCode::BTN_6),
        key_code_code("BTN_7"@) == Some(KeyCode::BTN_7),
        key_code_code("BTN_8"@) == Some(KeyCode::BTN_8),
        key_code_code("BTN_9"@) == Some(KeyCode::BTN_9),
        key_code_code("BTN_LEFT"@) == Some(KeyCode::BTN_LEFT),
        key_code_code("BTN_RIGHT"@) == Some(KeyCode::BTN_RIGHT),
        key_code_code("BTN_MIDDLE"@) == Some(KeyCode::BTN_MIDDLE),
{
    lemma_key_code_spelling_1();
    lemma_key_code_spelling_2();
    lemma_key_code_spelling_3();
    lemma_key_code_spelling_4();
    lemma_key_code_spelling_5();
    lemma_key_code_spelling_6();
}

/// Each key constant is named by its own identifier, and parsing that
/// identifier gives back the constant (part 7 of the key constants).
pub proof fn law_key_code_names_7()
    ensures
        key_code_name(KeyCode::BTN_SIDE) == Some("BTN_SIDE"@),
        key_code_name(KeyCode::BTN_EXTRA) == Some("BTN_EXTRA"@),
        key_code_name(KeyCode::BTN_FORWARD) == Some("BTN_FORWARD"@),
        key_code_name(KeyCode::BTN_BACK) == Some("BTN_BACK"@),
        key_code_name(KeyCode::BTN_TASK) == Some("BTN_TASK"@),
        key_code_name(KeyCode::BTN_TRIGGER) == Some("BTN_TRIGGER"@),
        key_code_name(KeyCode::BTN_THUMB) == Some("BTN_THUMB"@),
        key_code_name(KeyCode::BTN_THUMB2) == Some("BTN_THUMB2"@),
        key_code_name(KeyCode::BTN_TOP) == Some("BTN_TOP"@),
        key_code_name(KeyCode::BTN_TOP2) == Some("BTN_TOP2"@),
        key_code_name(KeyCode::BTN_PINKIE) == Some("BTN_PINKIE"@),
        key_code_name(KeyCode::BTN_BASE) == Some("BTN_BASE"@),
        key_code_name(KeyCode::BTN_BASE2) == Some("BTN_BASE2"@),
        key_code_name(KeyCode::BTN_BASE3) == Some("BTN_BASE3"@),
        key_code_name(KeyCode::BTN_BASE4) == Some("BTN_BASE4"@),
        key_code_name(KeyCode::BTN_BASE5) == Some("BTN_BASE5"@),
        key_code_name(KeyCode::BTN_BASE6) == Some("BTN_BASE6"@),
        key_code_name(KeyCode::BTN_DEAD) == Some("BTN_DEAD"@),
        key_code_name(KeyCode::BTN_SOUTH) == Some("BTN_SOUTH"@),
        key_code_name(KeyCode::BTN_EAST) == Some("BTN_EAST"@),
        key_code_name(KeyCode::BTN_C) == Some("BTN_C"@),
        key_code_name(KeyCode::BTN_NORTH) == Some("BTN_NORTH"@),
        key_code_name(KeyCode::BTN_WEST) == Some("BTN_WEST"@),
        key_code_name(KeyCode::BTN_Z) == Some("BTN_Z"@),
        key_code_name(KeyCode::BTN_TL) == Some("BTN_TL"@),
        key_code_name(KeyCode::BTN_TR) == Some("BTN_TR"@),
        key_code_name(KeyCode::BTN_TL2) == Some("BTN_TL2"@),
        key_code_name(KeyCode::BTN_TR2) == Some("BTN_TR2"@),
        key_code_code("BTN_SIDE"@) == Some(KeyCode::BTN_SIDE),
        key_code_code("BTN_EXTRA"@) == Some(KeyCode::BTN_EXTRA),
        key_code_code("BTN_FORWARD"@) == Some(KeyCode::BTN_FORWARD),
        key_code_code("BTN_BACK"@) == Some(KeyCode::BTN_BACK),
        key_code_code("BTN_TASK"@) == Some(KeyCode::BTN_TASK),
        key_code_code("BTN_TRIGGER"@) == Some(KeyCode::BTN_TRIGGER),
        key_code_code("BTN_THUMB"@) == Some(KeyCode::BTN_THUMB),
        key_code_code("BTN_THUMB2"@) == Some(KeyCode::BTN_THUMB2),
        key_code_code("BTN_TOP"@) == Some(KeyCode::BTN_TOP),
        key_code_code("BTN_TOP2"@) == Some(KeyCode::BTN_TOP2),
        key_code_code("BTN_PINKIE"@) == Some(KeyCode::BTN_PINKIE),
        key_code_code("BTN_BASE"@) == Some(KeyCode::BTN_BASE),
        key_code_code("BTN_BASE2"@) == Some(KeyCode::BTN_BASE2),
        key_code_code("BTN_BASE3"@) == Some(KeyCode::BTN_BASE3),
        key_code_code("BTN_BASE4"@) == Some(KeyCode::BTN_BASE4),
        key_code_code("BTN_BASE5"@) == Some(KeyCode::BTN_BASE5),
        key_code_code("BTN_BASE6"@) == Some(KeyCode::BTN_BASE6),
        key_code_code("BTN_DEAD"@) == Some(KeyCode::BTN_DEAD),
        key_code_code("BTN_SOUTH"@) == Some(KeyCode::BTN_SOUTH),
        key_code_code("BTN_EAST"@) == Some(KeyCode::BTN_EAST),
        key_code_code("BTN_C"@) == Some(KeyCode::BTN_C),
        key_code_code("BTN_NORTH"@) == Some(KeyCode::BTN_NORTH),
        key_code_code("BTN_WEST"@) == Some(KeyCode::BTN_WEST),
        key_code_code("BTN_Z"@) == Some(KeyCode::BTN_Z),
        key_code_code("BTN_TL"@) == Some(KeyCode::BTN_TL),
        key_code_code("BTN_TR"@) == Some(KeyCode::BTN_TR),
        key_code_code("BTN_TL2"@) == Some(KeyCode::BTN_TL2),
        key_code_code("BTN_TR2"@) == Some(KeyCode::BTN_TR2),
{
    lemma_key_code_spelling_1();
    lemma_key_code_spelling_2();
    lemma_key_code_spelling_3();
    lemma_key_code_spelling_4();
    lemma_key_code_spelling_5();
    lemma_key_code_spelling_6();
    lemma_key_code_spelling_7();
}

/// Each key constant is named by its own identifier, and parsing that
/// identifier gives back the constant (part 8 of the key constants).
pub proof fn law_key_code_names_8()
    ensures
        key_code_name(KeyCode::BTN_SELECT) == Some("BTN_SELECT"@),
        key_code_name(KeyCode::BTN_START) == Some("BTN_START"@),
        key_code_name(KeyCode::BTN_MODE) == Some("BTN_MODE"@),
        key_code_name(KeyCode::BTN_THUMBL) == Some("BTN_THUMBL"@),
        key_code_name(KeyCode::BTN_THUMBR) == Some("BTN_THUMBR"@),
        key_code_name(KeyCode::BTN_TOOL_PEN) == Some("BTN_TOOL_PEN"@),
        key_code_name(KeyCode::BTN_TOOL_RUBBER) == Some("BTN_TOOL_RUBBER"@),
        key_code_name(KeyCode::BTN_TOOL_BRUSH) == Some("BTN_TOOL_BRUSH"@),
        key_code_name(KeyCode::BTN_TOOL_PENCIL) == Some("BTN_TOOL_PENCIL"@),
        key_code_name(KeyCode::BTN_TOOL_AIRBRUSH) == Some("BTN_TOOL_AIRBRUSH"@),
        key_code_name(KeyCode::BTN_TOOL_FINGER) == Some("BTN_TOOL_FINGER"@),
        key_code_name(KeyCode::BTN_TOOL_MOUSE) == Some("BTN_TOOL_MOUSE"@),
        key_code_name(KeyCode::BTN_TOOL_LENS) == Some("BTN_TOOL_LENS"@),
        key_code_name(KeyCode::BTN_TOOL_QUINTTAP) == Some("BTN_TOOL_QUINTTAP"@),
        key_code_name(KeyCode::BTN_STYLUS3) == Some("BTN_STYLUS3"@),
        key_code_name(KeyCode::BTN_TOUCH) == Some("BTN_TOUCH"@),
        key_code_name(KeyCode::BTN_STYLUS) == Some("BTN_STYLUS"@),
        key_code_name(KeyCode::BTN_STYLUS2) == Some("BTN_STYLUS2"@),
        key_code_name(KeyCode::BTN_TOOL_DOUBLETAP) == Some("BTN_TOOL_DOUBLETAP"@),
        key_code_name(KeyCode::BTN_TOOL_TRIPLETAP) == Some("BTN_TOOL_TRIPLETAP"@),
        key_code_name(KeyCode::BTN_TOOL_QUADTAP) == Some("BTN_TOOL_QUADTAP"@),
        key_code_name(KeyCode::BTN_GEAR_DOWN) == Some("BTN_GEAR_DOWN"@),
        key_code_name(KeyCode::BTN_GEAR_UP) == Some("BTN_GEAR_UP"@),
        key_code_name(KeyCode::BTN_DPAD_UP) == Some("BTN_DPAD_UP"@),
        key_code_name(KeyCode::BTN_DPAD_DOWN) == Some("BTN_DPAD_DOWN"@),
        key_code_name(KeyCode::BTN_DPAD_LEFT) == Some("BTN_DPAD_LEFT"@),
        key_code_name(KeyCode::BTN_DPAD_RIGHT) == Some("BTN_DPAD_RIGHT"@),
        key_code_code("BTN_SELECT"@) == Some(KeyCode::BTN_SELECT),
        key_code_code("BTN_START"@) == Some(KeyCode::BTN_START),
        key_code_code("BTN_MODE"@) == Some(KeyCode::BTN_MODE),
        key_code_code("BTN_THUMBL"@) == Some(KeyCode::BTN_THUMBL),
        key_code_code("BTN_THUMBR"@) == Some(KeyCode::BTN_THUMBR),
        key_code_code("BTN_TOOL_PEN"@) == Some(KeyCode::BTN_TOOL_PEN),
        key_code_code("BTN_TOOL_RUBBER"@) == Some(KeyCode::BTN_TOOL_RUBBER),
        key_code_code("BTN_TOOL_BRUSH"@) == Some(KeyCode::BTN_TOOL_BRUSH),
        key_code_code("BTN_TOOL_PENCIL"@) == Some(KeyCode::BTN_TOOL_PENCIL),
        key_code_code("BTN_TOOL_AIRBRUSH"@) == Some(KeyCode::BTN_TOOL_AIRBRUSH),
        key_code_code("BTN_TOOL_FINGER"@) == Some(KeyCode::BTN_TOOL_FINGER),
        key_code_code("BTN_TOOL_MOUSE"@) == Some(KeyCode::BTN_TOOL_MOUSE),
        key_code_code("BTN_TOOL_LENS"@) == Some(KeyCode::BTN_TOOL_LENS),
        key_code_code("BTN_TOOL_QUINTTAP"@) == Some(KeyCode::BTN_TOOL_QUINTTAP),
        key_code_code("BTN_STYLUS3"@) == Some(KeyCode::BTN_STYLUS3),
        key_code_code("BTN_TOUCH"@) == Some(KeyCode::BTN_TOUCH),
        key_code_code("BTN_STYLUS"@) == Some(KeyCode::BTN_STYLUS),
        key_code_code("BTN_STYLUS2"@) == Some(KeyCode::BTN_STYLUS2),
        key_code_code("BTN_TOOL_DOUBLETAP"@) == Some(KeyCode::BTN_TOOL_DOUBLETAP),
        key_code_code("BTN_TOOL_TRIPLETAP"@) == Some(KeyCode::BTN_TOOL_TRIPLETAP),
        key_code_code("BTN_TOOL_QUADTAP"@) == Some(KeyCode::BTN_TOOL_QUADTAP),
        key_code_code("BTN_GEAR_DOWN"@) == Some(KeyCode::BTN_GEAR_DOWN),
        key_code_code("BTN_GEAR_UP"@) == Some(KeyCode::BTN_GEAR_UP),
        key_code_code("BTN_DPAD_UP"@) == Some(KeyCode::BTN_DPAD_UP),
        key_code_code("BTN_DPAD_DOWN"@) == Some(KeyCode::BTN_DPAD_DOWN),
        key_code_code("BTN_DPAD_LEFT"@) == Some(KeyCode::BTN_DPAD_LEFT),
        key_code_code("BTN_DPAD_RIGHT"@) == Some(KeyCode::BTN_DPAD_RIGHT),
{
    lemma_key_code_spelling_1();
    lemma_key_code_spelling_2();
    lemma_key_code_spelling_3();
    lemma_key_code_spelling_4();
    lemma_key_code_spelling_5();
    lemma_key_code_spelling_6();
    lemma_key_code_spelling_7();
    lemma_key_code_spelling_8();
}

/// Parsing the name of a key gives its code back, and a parsed code is named
/// by exactly the name that was parsed.
pub proof fn law_key_code_name_parse(c: u16, n: Seq<char>)
    ensures
        key_code_name(c) matches Some(m) ==> key_code_code(m) == Some(c),
        key_code_code(n) matches Some(d) ==> key_code_name(d) == Some(n),
{
    law_key_code_names_1();
    law_key_code_names_2();
    law_key_code_names_3();
    law_key_code_names_4();
    law_key_code_names_5();
    law_key_code_names_6();
    law_key_code_names_7();
    law_key_code_names_8();
}

} // verus!
