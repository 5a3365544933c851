//! Drives the synchronizing device through an emulated kernel whose event
//! buffer overflows, as a real device does when it is not read often enough.

use evdev::compat::{input_id, timeval};
use evdev::raw_stream::{DeviceCapabilities, RawDevice};
use evdev::sync_stream::{compensate_events, FetchEventsSynced, SyncState};
use evdev::{
    AttributeSet, Device, DeviceState, EventType, InputEvent, KeyCode, PropType, Synchronization,
    SwitchType,
};

/// The kernel side: the true state of the device and the queue of events a
/// reader has not read yet, which holds at most `capacity` events.
struct Kernel {
    keys: AttributeSet<KeyCode>,
    switches: AttributeSet<SwitchType>,
    queue: Vec<InputEvent>,
    capacity: usize,
    clock: i64,
}

impl Kernel {
    fn new() -> Kernel {
        Kernel {
            keys: AttributeSet::new(),
            switches: AttributeSet::new(),
            queue: Vec::new(),
            capacity: 64,
            clock: 1,
        }
    }

    fn queue_event(&mut self, ev: InputEvent) {
        if self.queue.len() >= self.capacity {
            // The buffer is full: what was queued is lost, and a SYN_DROPPED
            // tells the reader so.
            self.queue.clear();
            self.queue.push(InputEvent::new(
                EventType::SYNCHRONIZATION,
                Synchronization::SYN_DROPPED,
                0,
            ));
        }
        self.queue.push(ev);
    }

    /// What a virtual device's `emit` makes the kernel do.
    fn emit(&mut self, events: &[InputEvent]) {
        for ev in events {
            if ev.event_type().0 == EventType::KEY {
                if ev.value() != 0 {
                    self.keys.insert(KeyCode(ev.code()));
                } else {
                    self.keys.remove(KeyCode(ev.code()));
                }
            } else if ev.event_type().0 == EventType::SWITCH {
                if ev.value() != 0 {
                    self.switches.insert(SwitchType(ev.code()));
                } else {
                    self.switches.remove(SwitchType(ev.code()));
                }
            }
            self.queue_event(*ev);
        }
        self.queue_event(InputEvent::new(EventType::SYNCHRONIZATION, Synchronization::SYN_REPORT, 0));
    }

    fn now(&mut self) -> timeval {
        self.clock += 1;
        timeval { tv_sec: self.clock, tv_usec: 0 }
    }
}

fn key_event(key: u16, key_state: i32) -> InputEvent {
    InputEvent::new(EventType::KEY, key, key_state)
}

fn key_click(key: u16) -> Vec<InputEvent> {
    vec![key_event(key, 1), key_event(key, 0)]
}

fn get_test_device() -> Device {
    let mut ty: AttributeSet<EventType> = AttributeSet::new();
    ty.insert(EventType(EventType::SYNCHRONIZATION));
    ty.insert(EventType(EventType::KEY));
    ty.insert(EventType(EventType::SWITCH));
    let mut keys: AttributeSet<KeyCode> = AttributeSet::new();
    for code in 1..59 {
        keys.insert(KeyCode::new(code));
    }
    let mut sw: AttributeSet<SwitchType> = AttributeSet::new();
    sw.insert(SwitchType(SwitchType::SW_LID));
    sw.insert(SwitchType(SwitchType::SW_TABLET_MODE));
    let caps = DeviceCapabilities {
        ty,
        name: Some("test device".to_string()),
        phys: None,
        uniq: None,
        id: input_id { bustype: 0x03, vendor: 0x1234, product: 0x5678, version: 0x111 },
        props: AttributeSet::<PropType>::new(),
        driver_version: (1, 0, 1),
        supported_keys: Some(keys),
        supported_relative: None,
        supported_absolute: None,
        supported_switch: Some(sw),
        supported_led: None,
        supported_misc: None,
        supported_ff: None,
        supported_snd: None,
        auto_repeat: None,
        max_ff_effects: 0,
    };
    Device::from_raw_device(RawDevice::from_capabilities(caps))
}

/// What fetching events from a synchronizing device does.
fn fetch_events(dev: &mut Device, kernel: &mut Kernel) -> Vec<InputEvent> {
    let resynced_at = if dev.take_block_dropped() {
        let now = kernel.now();
        let snapshot =
            DeviceState::from_parts(now, Some(kernel.keys.clone()), None, Some(kernel.switches.clone()), None);
        dev.sync_state(now, snapshot);
        Some(now)
    } else {
        None
    };
    let read: Vec<InputEvent> = std::mem::take(&mut kernel.queue);
    for ev in &read {
        assert!(dev.accepts_event(ev));
    }
    dev.push_events(&read);
    let mut it = FetchEventsSynced::new(resynced_at);
    let mut out = Vec::new();
    while let Some(ev) = dev.next_event(&mut it) {
        out.push(ev);
    }
    dev.finish_fetch(it);
    out
}

fn final_dot_state(start_state: i32, events: Vec<InputEvent>) -> i32 {
    events.iter().fold(start_state, |state, ev| {
        if ev.event_type().0 == EventType::KEY && ev.code() == KeyCode::KEY_DOT {
            if ev.value() == 0 {
                0
            } else {
                1
            }
        } else {
            state
        }
    })
}

fn final_event_state(key: u16, events: &Vec<InputEvent>) -> Option<i32> {
    events.iter().fold(None, |state, ev| {
        if ev.event_type().0 == EventType::KEY && ev.code() == key {
            if ev.value() == 0 {
                Some(0)
            } else {
                Some(1)
            }
        } else {
            state
        }
    })
}

#[test]
pub fn test_compensate_keys() {
    let mut input = get_test_device();
    let mut output = Kernel::new();

    let dot_state: i32 = 0;

    // Make overflow.
    for _ in 0..30 {
        output.emit(&key_click(KeyCode::KEY_DOT));
    }

    let dot_state = final_dot_state(dot_state, fetch_events(&mut input, &mut output));

    assert_eq!(0, dot_state);

    // Press and release.
    output.emit(&key_click(KeyCode::KEY_DOT));

    let dot_state = final_dot_state(dot_state, fetch_events(&mut input, &mut output));

    assert_eq!(0, dot_state);

    // Just press.
    output.emit(&[key_event(KeyCode::KEY_DOT, 1)]);

    let dot_state = final_dot_state(dot_state, fetch_events(&mut input, &mut output));

    assert_eq!(1, dot_state);
}

#[test]
pub fn test_compensate_with_key_down() {
    let mut input = get_test_device();
    let mut output = Kernel::new();

    output.emit(&[InputEvent::new(EventType::KEY, KeyCode::KEY_A, 1)]);
    output.emit(&[InputEvent::new(EventType::KEY, KeyCode::KEY_B, 1)]);

    // Make overflow.
    for _ in 0..30 {
        output.emit(&key_click(KeyCode::KEY_DOT));
    }

    assert_eq!(0, fetch_events(&mut input, &mut output).len());

    // Press and release.
    output.emit(&key_click(KeyCode::KEY_DOT));

    let events = fetch_events(&mut input, &mut output);

    assert_eq!(Some(1), final_event_state(KeyCode::KEY_A, &events));
    assert_eq!(Some(1), final_event_state(KeyCode::KEY_B, &events));
}

#[test]
pub fn test_compensate_with_switch_down() {
    let mut input = get_test_device();
    let mut output = Kernel::new();

    let dot_state: i32 = 0;

    output.emit(&[InputEvent::new(EventType::SWITCH, SwitchType::SW_LID, 1)]);

    // Make overflow.
    for _ in 0..30 {
        output.emit(&key_click(KeyCode::KEY_DOT));
    }

    let dot_state = final_dot_state(dot_state, fetch_events(&mut input, &mut output));

    assert_eq!(0, dot_state);

    // Press and release.
    output.emit(&key_click(KeyCode::KEY_DOT));

    let dot_state = final_dot_state(dot_state, fetch_events(&mut input, &mut output));

    assert_eq!(0, dot_state);
}

#[test]
fn compensation_announces_changes_then_reports() {
    let mut input = get_test_device();
    let mut output = Kernel::new();
    output.emit(&[InputEvent::new(EventType::SWITCH, SwitchType::SW_LID, 1)]);
    output.emit(&[key_event(KeyCode::KEY_Q, 1)]);
    for _ in 0..30 {
        output.emit(&key_click(KeyCode::KEY_DOT));
    }
    assert_eq!(0, fetch_events(&mut input, &mut output).len());
    let events = fetch_events(&mut input, &mut output);
    // Keys first, then switches, then the report that closes the block; the
    // blocks queued after the dropped one follow.
    assert!(events.len() > 3);
    assert_eq!((events[0].event_type().0, events[0].code(), events[0].value()), (EventType::KEY, KeyCode::KEY_Q, 1));
    assert_eq!((events[1].event_type().0, events[1].code(), events[1].value()), (EventType::SWITCH, SwitchType::SW_LID, 1));
    assert_eq!((events[2].event_type().0, events[2].code()), (EventType::SYNCHRONIZATION, Synchronization::SYN_REPORT));
    // The compensating events carry the time of the resynchronization.
    assert_eq!(events[0].time(), events[2].time());
    // Afterwards the cache holds the kernel's state.
    assert!(input.cached_state().key_vals().unwrap().contains(KeyCode(KeyCode::KEY_Q)));
    assert!(!input.cached_state().key_vals().unwrap().contains(KeyCode(KeyCode::KEY_DOT)));
    assert!(input.cached_state().switch_vals().unwrap().contains(SwitchType(SwitchType::SW_LID)));
}

#[test]
fn cache_follows_the_events_handed_out() {
    let mut dev = get_test_device();
    dev.push_events(&[
        key_event(KeyCode::KEY_A, 1),
        key_event(KeyCode::KEY_B, 1),
        InputEvent::new(EventType::SYNCHRONIZATION, Synchronization::SYN_REPORT, 0),
    ]);
    let mut it = FetchEventsSynced::new(None);
    assert_eq!(dev.next_event(&mut it), Some(key_event(KeyCode::KEY_A, 1)));
    dev.finish_fetch(it);
    let keys = dev.cached_state().key_vals().unwrap();
    assert!(keys.contains(KeyCode(KeyCode::KEY_A)));
    assert!(!keys.contains(KeyCode(KeyCode::KEY_B)));
}

#[test]
fn describing_a_device() {
    let mut dev = get_test_device();
    dev.push_events(&[
        key_event(KeyCode::KEY_Q, 1),
        InputEvent::new(EventType::SYNCHRONIZATION, Synchronization::SYN_REPORT, 0),
    ]);
    let mut it = FetchEventsSynced::new(None);
    while dev.next_event(&mut it).is_some() {}
    dev.finish_fetch(it);
    let text = dev.describe();
    assert!(text.starts_with(
        "test device:\n  Driver version: 1.0.1\n  Bus: USB\n  Vendor: 0x1234\n  Product: 0x5678\n  Version: 0x111\n  Properties: {}\n  Keys supported:\n    KEY_ESC (index 1)\n"
    ));
    assert!(text.contains("    KEY_Q (pressed, index 16)\n    KEY_W (index 17)\n"));
    assert!(text.ends_with(
        "    KEY_CAPSLOCK (index 58)\n  Switches:\n    SW_LID (false, index 0)\n    SW_TABLET_MODE (false, index 1)\n"
    ));
}

#[test]
fn repeated_compensation_on_an_unchanged_device() {
    let mut dev = get_test_device();
    let t = timeval { tv_sec: 9, tv_usec: 1 };
    let mut keys: AttributeSet<KeyCode> = AttributeSet::new();
    keys.insert(KeyCode(KeyCode::KEY_A));
    keys.insert(KeyCode(KeyCode::KEY_Z));
    let mut sw: AttributeSet<SwitchType> = AttributeSet::new();
    sw.insert(SwitchType(SwitchType::SW_TABLET_MODE));
    dev.sync_state(t, DeviceState::from_parts(t, Some(keys), None, Some(sw), None));
    let mut state = Some(SyncState::Keys { time: t, start: KeyCode(0) });
    let mut out = Vec::new();
    while let Some(ev) = compensate_events(&mut state, &dev) {
        out.push((ev.event_type().0, ev.code(), ev.value(), ev.time()));
    }
    assert_eq!(
        out,
        vec![
            (EventType::KEY, KeyCode::KEY_A, 1, t),
            (EventType::KEY, KeyCode::KEY_Z, 1, t),
            (EventType::SWITCH, SwitchType::SW_TABLET_MODE, 1, t),
            (EventType::SYNCHRONIZATION, Synchronization::SYN_REPORT, 0, t),
        ]
    );
    assert!(state.is_none());
    assert_eq!(compensate_events(&mut state, &dev), None);
}
