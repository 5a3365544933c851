use evdev::compat::{input_event, timeval};
use evdev::{sync_events, EventType, InputEvent, KeyCode, Synchronization};

const TIME: timeval = timeval { tv_sec: 0, tv_usec: 0 };

const KEY4: input_event = input_event {
    time: TIME,
    type_: EventType::KEY,
    code: KeyCode::KEY_4,
    value: 1,
};
const REPORT: input_event = input_event {
    time: TIME,
    type_: EventType::SYNCHRONIZATION,
    code: Synchronization::SYN_REPORT,
    value: 0,
};
const DROPPED: input_event = input_event {
    code: Synchronization::SYN_DROPPED,
    ..REPORT
};

fn result_events(events: &[input_event]) -> Vec<Result<input_event, ()>> {
    let events: Vec<InputEvent> = events.iter().map(|e| InputEvent::from(*e)).collect();
    let mut range = 0..0;
    let mut out = Vec::new();
    loop {
        let (res, _) = sync_events(&mut range, &events);
        match res {
            Ok(x) => out.push(Ok(x.0)),
            Err(true) => out.push(Err(())),
            Err(false) => break,
        }
    }
    out
}

fn events(events: &[input_event]) -> Vec<input_event> {
    result_events(events).into_iter().flatten().collect()
}

#[test]
fn test_sync_impl() {
    assert_eq!(events(&[]), vec![]);
    assert_eq!(events(&[KEY4]), vec![]);
    assert_eq!(events(&[KEY4, REPORT]), vec![KEY4, REPORT]);
    assert_eq!(events(&[KEY4, REPORT, KEY4]), vec![KEY4, REPORT]);
    assert_eq!(
        result_events(&[KEY4, REPORT, KEY4, DROPPED, REPORT]),
        vec![Ok(KEY4), Ok(REPORT), Err(())],
    );
}

#[test]
fn test_iter_consistency() {
    // once it sees a SYN_DROPPED, it shouldn't mark the block after it as consumed even if we
    // keep calling the iterator like an idiot
    let evs: Vec<InputEvent> = [KEY4, REPORT, DROPPED, REPORT, KEY4, REPORT, KEY4]
        .iter()
        .map(|e| InputEvent::from(*e))
        .collect();
    let mut range = 0..0;
    let mut next = || sync_events(&mut range, &evs);
    assert_eq!(next(), (Ok(InputEvent(KEY4)), Some(2)));
    assert_eq!(next(), (Ok(InputEvent(REPORT)), None));
    assert_eq!(next(), (Err(true), Some(4)));
    assert_eq!(next(), (Err(false), None));
    assert_eq!(next(), (Err(false), None));
    assert_eq!(next(), (Err(false), None));
}

#[test]
fn scanning_hands_out_blocks_in_order() {
    let evs: Vec<InputEvent> = [KEY4, REPORT].iter().map(|e| InputEvent::from(*e)).collect();
    let mut range = 0..0;
    assert_eq!(sync_events(&mut range, &evs), (Ok(InputEvent(KEY4)), Some(2)));
    assert_eq!(range, 1..2);
}
