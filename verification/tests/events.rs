use evdev::compat::{input_absinfo, input_event, timeval};
use evdev::{
    AbsInfo, AbsoluteAxisType, BusType, EnumParseError, EventSummary, EventType, FFEffectType,
    InputEvent, InputId, KeyCode, KeyEvent, LedType, OtherCode, RelativeAxisType, Synchronization,
    SynchronizationEvent, SwitchType, UInputEventType, UinputAbsSetup,
};
use evdev::{timeval_from_epoch_offset, timeval_to_epoch_offset};
use evdev::text::{dec_string, hex_string};

#[test]
fn new_event_has_zero_time_and_given_fields() {
    let ev = InputEvent::new(EventType::KEY, KeyCode::KEY_A, 1);
    assert_eq!(ev.event_type(), EventType(EventType::KEY));
    assert_eq!(ev.code(), KeyCode::KEY_A);
    assert_eq!(ev.value(), 1);
    assert_eq!(ev.time(), timeval { tv_sec: 0, tv_usec: 0 });
    let raw: input_event = ev.into();
    assert_eq!(raw.type_, 1);
    assert_eq!(raw.code, 30);
    assert_eq!(InputEvent::from(raw), ev);
}

#[test]
fn destructure_key_event() {
    let event = InputEvent::new(1, KeyCode::KEY_A, 1);
    match event.destructure() {
        EventSummary::Key(k, KeyCode(KeyCode::KEY_A), 1) => {
            assert_eq!(k.destructure(), (KeyCode(KeyCode::KEY_A), 1));
        }
        _ => panic!(),
    }
}

#[test]
fn destructure_each_known_type() {
    let ev = InputEvent::new(EventType::SYNCHRONIZATION, Synchronization::SYN_DROPPED, 0);
    assert!(matches!(
        ev.destructure(),
        EventSummary::Synchronization(_, Synchronization(3), 0)
    ));
    let ev = InputEvent::new(EventType::RELATIVE, RelativeAxisType::REL_WHEEL, -1);
    assert!(matches!(ev.destructure(), EventSummary::RelativeAxis(_, RelativeAxisType(8), -1)));
    let ev = InputEvent::new(EventType::ABSOLUTE, AbsoluteAxisType::ABS_MT_SLOT, 4);
    assert!(matches!(ev.destructure(), EventSummary::AbsoluteAxis(_, AbsoluteAxisType(0x2f), 4)));
    let ev = InputEvent::new(EventType::SWITCH, SwitchType::SW_LID, 1);
    assert!(matches!(ev.destructure(), EventSummary::Switch(_, SwitchType(0), 1)));
    let ev = InputEvent::new(EventType::LED, LedType::LED_CAPSL, 1);
    assert!(matches!(ev.destructure(), EventSummary::Led(_, LedType(1), 1)));
    let ev = InputEvent::new(EventType::FORCEFEEDBACK, FFEffectType::FF_GAIN, 0x7fff);
    assert!(matches!(ev.destructure(), EventSummary::ForceFeedback(_, FFEffectType(0x60), 0x7fff)));
    let ev = InputEvent::new(EventType::UINPUT, UInputEventType::UI_FF_UPLOAD, 9);
    assert!(matches!(ev.destructure(), EventSummary::UInput(_, UInputEventType(1), 9)));
}

#[test]
fn unknown_type_is_other() {
    let ev = InputEvent::new(0x1f, 7, 3);
    match ev.destructure() {
        EventSummary::Other(o, code, 3) => {
            assert_eq!(code, OtherCode(0x1f, 7));
            assert_eq!(o.kind(), OtherCode(0x1f, 7));
            assert_eq!(o.destructure(), (OtherCode(0x1f, 7), 3));
        }
        _ => panic!(),
    }
}

#[test]
fn variant_constructors_fill_the_type() {
    let k = KeyEvent::new(KeyCode(KeyCode::BTN_SOUTH), 2);
    let ev: InputEvent = k.into();
    assert_eq!(ev.event_type(), EventType(EventType::KEY));
    assert_eq!(ev.code(), 0x130);
    assert_eq!(ev.value(), 2);
    let s = SynchronizationEvent::new(Synchronization(Synchronization::SYN_REPORT), 0);
    assert_eq!(s.event(), InputEvent::new(0, 0, 0));
    assert_eq!(s.code(), Synchronization(0));
}

#[test]
fn code_names() {
    assert_eq!(EventType(EventType::KEY).name(), Some("KEY"));
    assert_eq!(EventType(0x1f).name(), None);
    assert_eq!(KeyCode(30).name(), Some("KEY_A"));
    assert_eq!(KeyCode(0x130).name(), Some("BTN_SOUTH"));
    assert_eq!(AbsoluteAxisType(0x35).name(), Some("ABS_MT_POSITION_X"));
    assert_eq!(SwitchType(0x10).name(), Some("SW_MACHINE_COVER"));
    assert_eq!(Synchronization(3).name(), Some("SYN_DROPPED"));
}

#[test]
fn parse_code_names() {
    assert_eq!("KEY_A".parse::<KeyCode>(), Ok(KeyCode(30)));
    assert_eq!("BTN_DPAD_RIGHT".parse::<KeyCode>(), Ok(KeyCode(0x223)));
    assert_eq!("SYN_REPORT".parse::<Synchronization>(), Ok(Synchronization(0)));
    assert_eq!("FF_RUMBLE".parse::<FFEffectType>(), Ok(FFEffectType(0x50)));
    assert_eq!(EventType::from_name("UINPUT"), Ok(EventType(0x101)));
    assert_eq!("KEY_a".parse::<KeyCode>(), Err(EnumParseError));
    assert_eq!("".parse::<EventType>(), Err(EnumParseError));
    assert_eq!("KEY".parse::<KeyCode>(), Err(EnumParseError));
}

#[test]
fn parse_error_message() {
    assert_eq!(EnumParseError.message(), "failed to parse Key from string");
}

#[test]
fn names_parse_back() {
    for code in 0u16..0x300 {
        if let Some(n) = KeyCode(code).name() {
            assert_eq!(n.parse::<KeyCode>(), Ok(KeyCode(code)));
        }
    }
    for code in 0u16..0x40 {
        if let Some(n) = AbsoluteAxisType(code).name() {
            assert_eq!(n.parse::<AbsoluteAxisType>(), Ok(AbsoluteAxisType(code)));
        }
    }
}

#[test]
fn input_id_fields() {
    let id = InputId::new(BusType(BusType::BUS_USB), 0x1234, 0x5678, 0x111);
    assert_eq!(id.bus_type(), BusType(3));
    assert_eq!(id.vendor(), 0x1234);
    assert_eq!(id.product(), 0x5678);
    assert_eq!(id.version(), 0x111);
}

#[test]
fn bus_type_names() {
    assert_eq!(BusType(BusType::BUS_USB).label(), "USB");
    assert_eq!(BusType(BusType::BUS_BLUETOOTH).label(), "Bluetooth");
    assert_eq!(BusType(0x1234).label(), "Unknown");
}

#[test]
fn abs_info_fields() {
    let info = AbsInfo::new(5, -10, 10, 1, 2, 3);
    assert_eq!(info.value(), 5);
    assert_eq!(info.minimum(), -10);
    assert_eq!(info.maximum(), 10);
    assert_eq!(info.fuzz(), 1);
    assert_eq!(info.flat(), 2);
    assert_eq!(info.resolution(), 3);
    let raw: input_absinfo = info.into();
    assert_eq!(raw.maximum, 10);
    let setup = UinputAbsSetup::new(AbsoluteAxisType(AbsoluteAxisType::ABS_Y), info);
    assert_eq!(setup.code(), 1);
    assert_eq!(setup.absinfo(), info);
}

#[test]
fn epoch_offsets() {
    let tv = timeval { tv_sec: 12, tv_usec: 345 };
    assert_eq!(timeval_to_epoch_offset(&tv), (false, 12, 345_000));
    assert_eq!(timeval_from_epoch_offset(true, 7, 8), timeval { tv_sec: -7, tv_usec: 8 });
    assert_eq!(timeval_from_epoch_offset(false, 7, 8), timeval { tv_sec: 7, tv_usec: 8 });
}

#[test]
fn event_code_names_follow_the_type() {
    assert_eq!(InputEvent::new(EventType::KEY, 30, 1).code_name(), Some("KEY_A"));
    assert_eq!(InputEvent::new(EventType::ABSOLUTE, 0, 7).code_name(), Some("ABS_X"));
    assert_eq!(InputEvent::new(EventType::SYNCHRONIZATION, 0, 0).code_name(), Some("SYN_REPORT"));
    assert_eq!(InputEvent::new(EventType::LED, 0, 1).code_name(), Some("LED_NUML"));
    assert_eq!(InputEvent::new(0x1f, 0, 1).code_name(), None);
    assert_eq!(InputEvent::new(EventType::KEY, 0x2ff, 1).code_name(), None);
}

#[test]
fn describing_events() {
    let e = InputEvent::new(1, 30, 1);
    assert_eq!(
        e.describe(),
        "InputEvent { time: SystemTime { tv_sec: 0, tv_nsec: 0 }, type: KEY, code: KEY_A, value: 1 }"
    );
    let o = InputEvent::new(6, 7, 3);
    assert!(o.describe().ends_with("type: unknown key: 6, code: 7, value: 3 }"));
    let mut raw: input_event = InputEvent::new(EventType::KEY, 0x2ff, -2).into();
    raw.time = timeval { tv_sec: 5, tv_usec: 1_500_000 };
    let d = InputEvent::from(raw).describe();
    assert!(d.contains(&format!("{:?}", std::time::UNIX_EPOCH + std::time::Duration::new(6, 500_000_000))));
    assert!(d.ends_with("code: unknown key: 767, value: -2 }"));
    let r = InputEvent::new(EventType::REPEAT, 1, 33);
    assert!(r.describe().ends_with("type: REPEAT, code: REP_PERIOD, value: 33 }"));
}

#[test]
fn describing_ids() {
    let id = InputId::new(BusType(BusType::BUS_USB), 0x1234, 0x5678, 0x111);
    assert_eq!(id.describe(), "InputId { bus_type: BUS_USB, vendor: 0x1234, product: 0x5678, version: 0x111 }");
    let id = InputId::new(BusType(0x40), 0, 0xffff, 0xabc);
    assert_eq!(id.describe(), "InputId { bus_type: unknown key: 64, vendor: 0x0, product: 0xffff, version: 0xabc }");
}

#[test]
fn numbers_as_text() {
    assert_eq!(dec_string(0), "0");
    assert_eq!(dec_string(-305), "-305");
    assert_eq!(dec_string(i64::MIN), i64::MIN.to_string());
    assert_eq!(dec_string(i64::MAX), i64::MAX.to_string());
    assert_eq!(hex_string(0x1234), "0x1234");
    assert_eq!(hex_string(u64::MAX), format!("{:#x}", u64::MAX));
}

#[test]
fn bus_and_repeat_names() {
    assert_eq!(BusType(3).name(), Some("BUS_USB"));
    assert_eq!("BUS_I2C".parse::<BusType>(), Ok(BusType(0x18)));
    assert_eq!("USB".parse::<BusType>(), Err(EnumParseError));
    assert_eq!(evdev::RepeatCode(0).name(), Some("REP_DELAY"));
    assert_eq!("REP_PERIOD".parse::<evdev::RepeatCode>(), Ok(evdev::RepeatCode(1)));
}

#[test]
fn epoch_offsets_round_trip() {
    let tv = timeval_from_epoch_offset(false, 1_700_000_000, 999_999);
    assert_eq!(timeval_to_epoch_offset(&tv), (false, 1_700_000_000, 999_999_000));
    assert_eq!(timeval_from_epoch_offset(false, u64::MAX, 0).tv_sec, -1);
    assert_eq!(timeval_from_epoch_offset(true, 0, 0).tv_sec, 0);
}
