use evdev::compat::{input_absinfo, input_id, timeval, ABS_CNT};
use evdev::raw_stream::{
    absinfo_of_axes, bytes_into_string_lossy, cstring_from_ioctl, driver_version_from_raw,
    keymap_query_by_index, keymap_query_by_keycode, keymap_scancode, keymap_update,
    capability_reads, max_ff_effects_from_raw, write_step, DeviceCapabilities, RawDevice, WriteOutcome, WriteStep,
    INPUT_KEYMAP_BY_INDEX,
};
use evdev::uinput::{
    default_id, ff_erase_request_id, ff_upload_request_id, is_event_node, sysname_from_ioctl,
    uinput_setup_for,
};
use evdev::{
    AbsInfo, AbsoluteAxisType, AttributeSet, AutoRepeat, BusType, DeviceState, EventType,
    InputEvent, KeyCode, PropType, UInputEvent, UInputEventType,
};

fn caps_with_keys_and_abs() -> DeviceCapabilities {
    let mut ty: AttributeSet<EventType> = AttributeSet::new();
    ty.insert(EventType(EventType::SYNCHRONIZATION));
    ty.insert(EventType(EventType::KEY));
    ty.insert(EventType(EventType::ABSOLUTE));
    let mut keys: AttributeSet<KeyCode> = AttributeSet::new();
    keys.insert(KeyCode(KeyCode::BTN_TOUCH));
    let mut axes: AttributeSet<AbsoluteAxisType> = AttributeSet::new();
    axes.insert(AbsoluteAxisType(AbsoluteAxisType::ABS_X));
    axes.insert(AbsoluteAxisType(AbsoluteAxisType::ABS_Y));
    let mut props: AttributeSet<PropType> = AttributeSet::new();
    props.insert(PropType(PropType::DIRECT));
    DeviceCapabilities {
        ty,
        name: Some("touch panel".to_string()),
        phys: None,
        uniq: Some("0001".to_string()),
        id: input_id { bustype: BusType::BUS_I2C, vendor: 1, product: 2, version: 3 },
        props,
        driver_version: (1, 0, 1),
        supported_keys: Some(keys),
        supported_relative: None,
        supported_absolute: Some(axes),
        supported_switch: None,
        supported_led: None,
        supported_misc: None,
        supported_ff: None,
        supported_snd: None,
        auto_repeat: None,
        max_ff_effects: 0,
    }
}

#[test]
fn raw_device_reports_its_capabilities() {
    let dev = RawDevice::from_capabilities(caps_with_keys_and_abs());
    assert_eq!(dev.name(), Some("touch panel"));
    assert_eq!(dev.physical_path(), None);
    assert_eq!(dev.unique_name(), Some("0001"));
    assert_eq!(dev.input_id().bus_type(), BusType(BusType::BUS_I2C));
    assert_eq!(dev.driver_version(), (1, 0, 1));
    assert!(dev.properties().contains(PropType(PropType::DIRECT)));
    assert!(dev.supported_events().contains(EventType(EventType::KEY)));
    assert!(dev.supported_keys().unwrap().contains(KeyCode(KeyCode::BTN_TOUCH)));
    assert!(dev.supported_relative_axes().is_none());
    assert_eq!(dev.supported_absolute_axes().unwrap().iter().len(), 2);
    assert!(dev.supported_ff().is_none());
    assert_eq!(dev.max_ff_effects(), 0);
    assert_eq!(dev.get_auto_repeat(), None);
    assert!(!dev.is_grabbed());
}

#[test]
fn raw_device_event_buffer() {
    let mut dev = RawDevice::from_capabilities(caps_with_keys_and_abs());
    let a = InputEvent::new(EventType::KEY, KeyCode::BTN_TOUCH, 1);
    let b = InputEvent::new(EventType::ABSOLUTE, AbsoluteAxisType::ABS_X, 100);
    let c = InputEvent::new(EventType::SYNCHRONIZATION, 0, 0);
    dev.push_events(&[a, b]);
    dev.push_events(&[c]);
    assert_eq!(dev.buffered_events(), &[a, b, c]);
    dev.drain_consumed(1);
    assert_eq!(dev.buffered_events(), &[b, c]);
    assert_eq!(dev.take_events(), vec![b, c]);
    assert!(dev.buffered_events().is_empty());
}

#[test]
fn raw_device_grab_and_repeat() {
    let mut dev = RawDevice::from_capabilities(caps_with_keys_and_abs());
    assert!(dev.set_grabbed(true));
    assert!(!dev.set_grabbed(true));
    assert!(dev.is_grabbed());
    assert!(dev.set_grabbed(false));
    dev.set_auto_repeat(&AutoRepeat { delay: 250, period: 33 });
    assert_eq!(dev.get_auto_repeat(), Some(AutoRepeat { delay: 250, period: 33 }));
}

#[test]
fn empty_state_follows_capabilities() {
    let dev = RawDevice::from_capabilities(caps_with_keys_and_abs());
    let st = dev.empty_state(timeval { tv_sec: 5, tv_usec: 6 });
    assert_eq!(st.time(), timeval { tv_sec: 5, tv_usec: 6 });
    assert_eq!(st.key_vals().unwrap().iter().len(), 0);
    assert_eq!(st.abs_vals().unwrap().len(), ABS_CNT);
    assert!(st.switch_vals().is_none());
    assert!(st.led_vals().is_none());
}

#[test]
fn state_records_keys_and_axes() {
    let mut st = DeviceState::empty(timeval { tv_sec: 0, tv_usec: 0 }, true, true, false, false);
    st.process_event(InputEvent::new(EventType::KEY, KeyCode::KEY_B, 1));
    st.process_event(InputEvent::new(EventType::ABSOLUTE, AbsoluteAxisType::ABS_Y, -42));
    st.process_event(InputEvent::new(EventType::RELATIVE, 0, 5));
    assert_eq!(st.key_vals().unwrap().iter(), vec![KeyCode(KeyCode::KEY_B)]);
    assert_eq!(st.abs_vals().unwrap()[1].value, -42);
    assert_eq!(st.abs_vals().unwrap()[0].value, 0);
    st.process_event(InputEvent::new(EventType::KEY, KeyCode::KEY_B, 0));
    assert!(st.key_vals().unwrap().iter().is_empty());
    let later = st.clone().with_time(timeval { tv_sec: 9, tv_usec: 0 });
    assert_eq!(later.time().tv_sec, 9);
    assert!(!st.accepts(&InputEvent::new(EventType::KEY, 0x300, 1)));
    assert!(!st.accepts(&InputEvent::new(EventType::ABSOLUTE, ABS_CNT as u16, 1)));
    assert!(st.accepts(&InputEvent::new(EventType::SWITCH, 0, 1)));
}

#[test]
fn absinfo_of_supported_axes() {
    let dev = RawDevice::from_capabilities(caps_with_keys_and_abs());
    let mut raw = vec![input_absinfo { value: 0, minimum: 0, maximum: 0, fuzz: 0, flat: 0, resolution: 0 }; ABS_CNT];
    raw[1].maximum = 4095;
    let r = absinfo_of_axes(dev.supported_absolute_axes(), &raw);
    assert_eq!(r.len(), 2);
    assert_eq!(r[0].0, AbsoluteAxisType(0));
    assert_eq!(r[1], (AbsoluteAxisType(1), AbsInfo(raw[1])));
    assert!(absinfo_of_axes(None, &raw).is_empty());
}

#[test]
fn version_and_effect_count() {
    assert_eq!(driver_version_from_raw(0x010203), (1, 2, 3));
    assert_eq!(driver_version_from_raw(0x7f00ff01), (0, 0xff, 1));
    assert_eq!(max_ff_effects_from_raw(16), 16);
    assert_eq!(max_ff_effects_from_raw(-1), 0);
}

#[test]
fn strings_from_the_kernel() {
    let buf = b"pad\0\0\0".to_vec();
    assert_eq!(cstring_from_ioctl(buf.clone(), Some(4)), Some(b"pad".to_vec()));
    assert_eq!(cstring_from_ioctl(buf.clone(), Some(1)), None);
    assert_eq!(cstring_from_ioctl(buf, None), None);
    assert_eq!(bytes_into_string_lossy(b"Mouse".to_vec()), "Mouse");
    assert_eq!(bytes_into_string_lossy(vec![b'a', 0xff, b'b']), "a\u{fffd}b");
}

#[test]
fn keymap_requests() {
    let q = keymap_query_by_keycode(30);
    assert_eq!((q.flags, q.len, q.index, q.keycode), (0, 0, 0, 30));
    let q = keymap_query_by_index(4);
    assert_eq!((q.flags, q.index, q.keycode), (INPUT_KEYMAP_BY_INDEX, 4, 0));
    let u = keymap_update(Some(2), 31, &[0x04, 0x00, 0x07]);
    assert_eq!((u.flags, u.len, u.index, u.keycode), (INPUT_KEYMAP_BY_INDEX, 3, 2, 31));
    assert_eq!(keymap_scancode(&u), vec![0x04, 0x00, 0x07]);
    let u = keymap_update(None, 31, &[9]);
    assert_eq!((u.flags, u.index), (0, 0));
    assert_eq!(u.scancode[1..], [0u8; 31]);
}

#[test]
fn virtual_device_setup() {
    let s = uinput_setup_for(b"my keyboard", None, 0);
    assert_eq!(s.id, default_id());
    assert_eq!(s.id.bustype, BusType::BUS_USB);
    assert_eq!(&s.name[..11], b"my keyboard");
    assert!(s.name[11..].iter().all(|b| *b == 0));
    let id = input_id { bustype: 6, vendor: 7, product: 8, version: 9 };
    let s = uinput_setup_for(b"x", Some(id), 10);
    assert_eq!(s.id, id);
    assert_eq!(s.ff_effects_max, 10);
}

#[test]
fn virtual_device_nodes() {
    assert!(is_event_node(b"event12"));
    assert!(is_event_node(b"event"));
    assert!(!is_event_node(b"even"));
    assert!(!is_event_node(b"mouse0"));
    assert_eq!(sysname_from_ioctl(b"input7\0\0".to_vec(), 7), b"input7".to_vec());
}

#[test]
fn virtual_device_requests() {
    let up = UInputEvent::new(UInputEventType(UInputEventType::UI_FF_UPLOAD), 12);
    assert_eq!(ff_upload_request_id(&up), 12);
    let er = UInputEvent::new(UInputEventType(UInputEventType::UI_FF_ERASE), 13);
    assert_eq!(ff_erase_request_id(&er), 13);
}

#[test]
fn writing_a_buffer_out() {
    assert_eq!(write_step(0, 48, WriteOutcome::Written(24)), WriteStep::WriteFrom(24));
    assert_eq!(write_step(24, 48, WriteOutcome::Written(24)), WriteStep::WriteFrom(48));
    assert_eq!(write_step(48, 48, WriteOutcome::Written(0)), WriteStep::Finished);
    assert_eq!(write_step(8, 48, WriteOutcome::Written(0)), WriteStep::Finished);
    assert_eq!(write_step(8, 48, WriteOutcome::Interrupted), WriteStep::WriteFrom(8));
    assert_eq!(write_step(8, 48, WriteOutcome::Failed(9)), WriteStep::Failed(9));
}

#[test]
fn capabilities_follow_the_event_types() {
    let caps = caps_with_keys_and_abs();
    let reads = capability_reads(&caps.ty);
    assert!(reads.keys && reads.absolute);
    assert!(!reads.relative && !reads.switches && !reads.leds && !reads.ff && !reads.repeat);
    assert!(caps.is_consistent());
    let mut bad = caps_with_keys_and_abs();
    bad.supported_keys = None;
    assert!(!bad.is_consistent());
    let mut bad = caps_with_keys_and_abs();
    bad.max_ff_effects = 4;
    assert!(!bad.is_consistent());
}

#[test]
fn grabbing_twice_asks_the_kernel_once() {
    let mut dev = RawDevice::from_capabilities(caps_with_keys_and_abs());
    assert_eq!(dev.grab_request(true), Some(1));
    dev.set_grabbed(true);
    assert_eq!(dev.grab_request(true), None);
    assert_eq!(dev.grab_request(false), Some(0));
    dev.set_grabbed(false);
    assert_eq!(dev.grab_request(false), None);
}

#[test]
fn a_new_device_starts_empty() {
    let dev = evdev::Device::from_raw_device(RawDevice::from_capabilities(caps_with_keys_and_abs()));
    let st = dev.cached_state();
    assert_eq!(st.time(), timeval { tv_sec: 0, tv_usec: 0 });
    assert!(st.key_vals().unwrap().iter().is_empty());
    assert!(st.abs_vals().unwrap().iter().all(|a| *a == input_absinfo { value: 0, minimum: 0, maximum: 0, fuzz: 0, flat: 0, resolution: 0 }));
    assert!(st.switch_vals().is_none());
    assert!(st.led_vals().is_none());
}

#[test]
fn capabilities_from_the_kernel_reports() {
    let base = caps_with_keys_and_abs();
    let caps = DeviceCapabilities::from_reports(
        base.ty,
        Some("pad".to_string()),
        None,
        None,
        base.id,
        base.props,
        0x010203,
        base.supported_keys,
        None,
        base.supported_absolute,
        None,
        None,
        None,
        None,
        None,
        None,
        None,
    );
    assert!(caps.is_consistent());
    assert_eq!(caps.driver_version, (1, 2, 3));
    assert_eq!(caps.max_ff_effects, 0);
    assert_eq!(caps.auto_repeat, None);
    assert!(caps.supported_keys.unwrap().contains(KeyCode(KeyCode::BTN_TOUCH)));

    let mut ty: AttributeSet<EventType> = AttributeSet::new();
    ty.insert(EventType(EventType::FORCEFEEDBACK));
    ty.insert(EventType(EventType::REPEAT));
    let caps = DeviceCapabilities::from_reports(
        ty,
        None,
        None,
        None,
        input_id { bustype: 0, vendor: 0, product: 0, version: 0 },
        AttributeSet::new(),
        0,
        None,
        None,
        None,
        None,
        None,
        None,
        Some(AttributeSet::new()),
        Some(-5),
        None,
        Some([250, 33]),
    );
    assert_eq!(caps.max_ff_effects, 0);
    assert_eq!(caps.auto_repeat, Some(AutoRepeat { delay: 250, period: 33 }));
}
