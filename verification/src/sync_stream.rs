use crate::attribute_set::{ArrayedEvdevEnum, AttributeSet, EvdevEnum, enumerates, states_of};
use crate::compat::{input_absinfo, input_event, timeval, ABS_CNT};
use crate::constants::{AbsoluteAxisType, EventType, LedType, SwitchType, Synchronization};
use crate::device_state::{lemma_apply_same_shape, opt_set_view, DeviceState, DeviceStateView};
use crate::event::InputEvent;
use crate::attribute_set::AttributeSetRef;
use crate::constants::{FFEffectType, MiscType, PropType, RelativeAxisType, SoundType};
use crate::event::AutoRepeat;
use crate::inputid::InputId;
use crate::raw_stream::{empty_state_view, grab_ioctl_arg, RawDevice};
use crate::scancodes::KeyCode;
use core::ops::Range;
use vstd::prelude::*;

verus! {

/// `ev` is a synchronization event with the given code.
pub open spec fn is_syn(ev: InputEvent, code: u16) -> bool {
    ev.0.type_ == EventType::SYNCHRONIZATION && ev.0.code == code
}

/// `ev` ends a block of events.
pub open spec fn is_report(ev: InputEvent) -> bool {
    is_syn(ev, Synchronization::SYN_REPORT)
}

/// `ev` says that the kernel dropped events.
pub open spec fn is_dropped(ev: InputEvent) -> bool {
    is_syn(ev, Synchronization::SYN_DROPPED)
}

/// The index of the first `SYN_REPORT` in `buf` at or after `s`, or the
/// length of `buf` if there is none.
pub open spec fn next_report(buf: Seq<InputEvent>, s: int) -> int
    decreases buf.len() - s,
{
    if s >= buf.len() {
        buf.len() as int
    } else if is_report(buf[s]) {
        s
    } else {
        next_report(buf, s + 1)
    }
}

/// Some event of `buf[s..e]` is a `SYN_DROPPED`.
pub open spec fn has_dropped(buf: Seq<InputEvent>, s: int, e: int) -> bool {
    exists|j: int| s <= j < e && is_dropped(#[trigger] buf[j])
}

pub proof fn lemma_next_report(buf: Seq<InputEvent>, s: int)
    requires
        0 <= s <= buf.len(),
    ensures
        s <= next_report(buf, s) <= buf.len(),
        next_report(buf, s) < buf.len() ==> is_report(buf[next_report(buf, s)]),
        forall|j: int| s <= j < next_report(buf, s) ==> !is_report(#[trigger] buf[j]),
    decreases buf.len() - s,
{
    if s < buf.len() && !is_report(buf[s]) {
        lemma_next_report(buf, s + 1);
    }
}

/// What one call of [`sync_events`] yields: its two results and the range it leaves.
pub struct SyncOutcome {
    pub result: Result<InputEvent, bool>,
    pub consumed_to: Option<usize>,
    pub range: (int, int),
}

/// The outcome of [`sync_events`] on buffer `buf` and range `s..e`.
pub open spec fn sync_outcome(buf: Seq<InputEvent>, s: int, e: int) -> SyncOutcome {
    let i = next_report(buf, e);
    if s < e {
        SyncOutcome { result: Ok(buf[s]), consumed_to: None, range: (s + 1, e) }
    } else if i == buf.len() {
        SyncOutcome { result: Err(false), consumed_to: None, range: (s, e) }
    } else if has_dropped(buf, e, i) {
        SyncOutcome {
            result: Err(true),
            consumed_to: Some((i + 1) as usize),
            range: (buf.len() as int, buf.len() as int),
        }
    } else {
        SyncOutcome { result: Ok(buf[e]), consumed_to: Some((i + 1) as usize), range: (e + 1, i + 1) }
    }
}

/// Steps through `event_buf` one block at a time, where a block is a run of
/// events ended by a `SYN_REPORT`.
///
/// While `range` still holds events of a checked block, the next of them is
/// returned. Otherwise the block starting at `range.end` is scanned, and
/// - if the block is complete and no `SYN_DROPPED` is in it, its first event is
///   returned and `range` covers the rest of it;
/// - if it is complete and holds a `SYN_DROPPED`, `Err(true)` says that the
///   state must be synchronized with the kernel, and `range` moves to the end
///   of the buffer;
/// - if it is not complete, `Err(false)` says the buffer is exhausted.
///
/// The second result is the index up to which events have been consumed, when
/// a `SYN_REPORT` was found.
pub fn sync_events(range: &mut Range<usize>, event_buf: &[InputEvent]) -> (r: (
    Result<InputEvent, bool>,
    Option<usize>,
))
    requires
        old(range).start <= old(range).end <= event_buf@.len(),
    ensures
        final(range).start <= final(range).end <= event_buf@.len(),
        ({
            let out = sync_outcome(event_buf@, old(range).start as int, old(range).end as int);
            &&& r == (out.result, out.consumed_to)
            &&& final(range).start == out.range.0 && final(range).end == out.range.1
        }),
{
    if range.start < range.end {
        let idx = range.start;
        range.start = idx + 1;
        return (Ok(event_buf[idx]), None);
    }
    let ghost buf = event_buf@;
    let block_start = range.end;
    proof { lemma_next_report(buf, block_start as int); }
    let mut block_dropped = false;
    let mut i = block_start;
    while i < event_buf.len()
        invariant
            block_start <= i <= event_buf@.len(),
            buf == event_buf@,
            forall|j: int| block_start <= j < i ==> !is_report(#[trigger] buf[j]),
            block_dropped == has_dropped(buf, block_start as int, i as int),
            range.start == block_start && range.end == block_start,
            old(range).start == block_start && old(range).end == block_start,
        decreases event_buf@.len() - i,
    {
        let ev = event_buf[i];
        let t = ev.event_type().0;
        let c = ev.code();
        if t == EventType::SYNCHRONIZATION && c == Synchronization::SYN_REPORT {
            proof {
                assert(next_report(buf, block_start as int) == i) by {
                    lemma_next_report(buf, block_start as int);
                    if next_report(buf, block_start as int) < i {
                        assert(!is_report(buf[next_report(buf, block_start as int)]));
                    }
                }
            }
            if block_dropped {
                let n = event_buf.len();
                range.start = n;
                range.end = n;
                return (Err(true), Some(i + 1));
            } else {
                range.start = block_start + 1;
                range.end = i + 1;
                return (Ok(event_buf[block_start]), Some(i + 1));
            }
        }
        if t == EventType::SYNCHRONIZATION && c == Synchronization::SYN_DROPPED {
            block_dropped = true;
        }
        proof {
            assert(has_dropped(buf, block_start as int, i + 1) == (block_dropped)) by {
                if is_dropped(ev) {
                    assert(is_dropped(buf[i as int]));
                }
                if has_dropped(buf, block_start as int, i + 1) && !is_dropped(ev) {
                    let j = choose|j: int| block_start <= j < i + 1 && is_dropped(#[trigger] buf[j]);
                    assert(j < i);
                }
            }
        }
        i += 1;
    }
    proof {
        assert(next_report(buf, block_start as int) == buf.len()) by {
            lemma_next_report(buf, block_start as int);
            if next_report(buf, block_start as int) < buf.len() {
                assert(is_report(buf[next_report(buf, block_start as int)]));
            }
        }
    }
    (Err(false), None)
}


/// The first value of `supported` from `start` on that is in `before` and not
/// in `after` or the other way round, with whether it is in `after`.
fn first_changed<T: ArrayedEvdevEnum>(
    supported: &AttributeSet<T>,
    start: T,
    before: &AttributeSet<T>,
    after: &AttributeSet<T>,
) -> (r: Option<(T, bool)>)
    ensures
        match r {
            Some((c, v)) => {
                &&& supported@.contains(c.spec_index())
                &&& c.spec_index() < AttributeSet::<T>::capacity()
                &&& c.spec_index() >= start.spec_index()
                &&& before@.contains(c.spec_index()) != after@.contains(c.spec_index())
                &&& v == after@.contains(c.spec_index())
                &&& forall|d: nat| #[trigger] supported@.contains(d) && start.spec_index() <= d < c.spec_index()
                    ==> before@.contains(d) == after@.contains(d)
            },
            None => forall|d: nat| #[trigger] supported@.contains(d) && d >= start.spec_index()
                ==> before@.contains(d) == after@.contains(d),
        },
{
    let candidates = supported.slice_iter(start);
    let ghost codes = supported@.filter(|i: nat| i >= start.spec_index());
    let mut i: usize = 0;
    while i < candidates.len()
        invariant
            i <= candidates@.len(),
            forall|d: nat| #[trigger] supported@.contains(d) ==> d < AttributeSet::<T>::capacity(),
            enumerates(candidates@, codes),
            codes == supported@.filter(|i: nat| i >= start.spec_index()),
            forall|m: int| 0 <= m < i ==> before@.contains(#[trigger] candidates@[m].spec_index()) == after@.contains(candidates@[m].spec_index()),
        decreases candidates@.len() - i,
    {
        let c = candidates[i];
        let was = before.contains(c);
        let now = after.contains(c);
        if was != now {
            proof {
                assert(codes.contains(candidates@[i as int].spec_index()));
                assert forall|d: nat| #[trigger] supported@.contains(d) && start.spec_index() <= d < c.spec_index()
                    implies before@.contains(d) == after@.contains(d) by {
                    assert(codes.contains(d));
                    let m = choose|m: int| 0 <= m < candidates@.len() && #[trigger] candidates@[m].spec_index() == d;
                    if m >= i {
                        if m > i {
                            assert(candidates@[i as int].spec_index() < candidates@[m].spec_index());
                        }
                    }
                }
            }
            return Some((c, now));
        }
        i += 1;
    }
    proof {
        assert forall|d: nat| #[trigger] supported@.contains(d) && d >= start.spec_index()
            implies before@.contains(d) == after@.contains(d) by {
            assert(codes.contains(d));
            let m = choose|m: int| 0 <= m < candidates@.len() && #[trigger] candidates@[m].spec_index() == d;
        }
    }
    None
}

/// The first axis of `supported` from `start` on whose value differs between
/// `before` and `after`, with its value in `after`.
fn first_changed_abs(
    supported: &AttributeSet<AbsoluteAxisType>,
    start: AbsoluteAxisType,
    before: &[input_absinfo],
    after: &[input_absinfo],
) -> (r: Option<(AbsoluteAxisType, i32)>)
    requires
        before@.len() == ABS_CNT,
        after@.len() == ABS_CNT,
    ensures
        match r {
            Some((c, v)) => {
                &&& supported@.contains(c.spec_index())
                &&& c.spec_index() < ABS_CNT
                &&& c.spec_index() >= start.spec_index()
                &&& before@[c.0 as int].value != after@[c.0 as int].value
                &&& v == after@[c.0 as int].value
                &&& forall|d: nat| #[trigger] supported@.contains(d) && start.spec_index() <= d < c.spec_index()
                    ==> before@[d as int].value == after@[d as int].value
            },
            None => forall|d: nat| #[trigger] supported@.contains(d) && d >= start.spec_index()
                ==> before@[d as int].value == after@[d as int].value,
        },
{
    let candidates = supported.slice_iter(start);
    let ghost codes = supported@.filter(|i: nat| i >= start.spec_index());
    let mut i: usize = 0;
    while i < candidates.len()
        invariant
            i <= candidates@.len(),
            before@.len() == ABS_CNT,
            after@.len() == ABS_CNT,
            enumerates(candidates@, codes),
            codes == supported@.filter(|i: nat| i >= start.spec_index()),
            forall|d: nat| #[trigger] supported@.contains(d) ==> d < AttributeSet::<AbsoluteAxisType>::capacity(),
            forall|m: int| 0 <= m < i ==> before@[#[trigger] candidates@[m].spec_index() as int].value == after@[candidates@[m].spec_index() as int].value,
        decreases candidates@.len() - i,
    {
        let c = candidates[i];
        proof { assert(codes.contains(candidates@[i as int].spec_index())); }
        let idx = c.0 as usize;
        let was = before[idx].value;
        let now = after[idx].value;
        if was != now {
            proof {
                assert forall|d: nat| #[trigger] supported@.contains(d) && start.spec_index() <= d < c.spec_index()
                    implies before@[d as int].value == after@[d as int].value by {
                    assert(codes.contains(d));
                    let m = choose|m: int| 0 <= m < candidates@.len() && #[trigger] candidates@[m].spec_index() == d;
                    if m > i {
                        assert(candidates@[i as int].spec_index() < candidates@[m].spec_index());
                    }
                }
            }
            return Some((c, now));
        }
        i += 1;
    }
    proof {
        assert forall|d: nat| #[trigger] supported@.contains(d) && d >= start.spec_index()
            implies before@[d as int].value == after@[d as int].value by {
            assert(codes.contains(d));
            let m = choose|m: int| 0 <= m < candidates@.len() && #[trigger] candidates@[m].spec_index() == d;
        }
    }
    None
}


/// Our current synchronization state, i.e. whether we're currently diffing key_vals,
/// abs_vals, switch_vals, led_vals, or none of them.
///
/// `start` is the first code of its kind not compared yet; `time` is the time
/// the compensating events carry.
#[allow(inconsistent_fields)]
#[derive(Copy, Clone, Debug, PartialEq, Eq, Structural)]
pub enum SyncState {
    Keys { time: timeval, start: KeyCode },
    Absolutes { time: timeval, start: AbsoluteAxisType },
    Switches { time: timeval, start: SwitchType },
    Leds { time: timeval, start: LedType },
}

impl SyncState {
    /// The kind of state being compared: keys, absolute axes, switches, LEDs in turn.
    pub open spec fn stage(self) -> nat {
        match self {
            SyncState::Keys { .. } => 0,
            SyncState::Absolutes { .. } => 1,
            SyncState::Switches { .. } => 2,
            SyncState::Leds { .. } => 3,
        }
    }

    pub open spec fn start(self) -> nat {
        match self {
            SyncState::Keys { start, .. } => start.0 as nat,
            SyncState::Absolutes { start, .. } => start.0 as nat,
            SyncState::Switches { start, .. } => start.0 as nat,
            SyncState::Leds { start, .. } => start.0 as nat,
        }
    }

    pub open spec fn time(self) -> timeval {
        match self {
            SyncState::Keys { time, .. } => time,
            SyncState::Absolutes { time, .. } => time,
            SyncState::Switches { time, .. } => time,
            SyncState::Leds { time, .. } => time,
        }
    }
}

/// The event type of the events that compensate stage `k`.
pub open spec fn stage_type(k: nat) -> u16 {
    if k == 0 {
        EventType::KEY
    } else if k == 1 {
        EventType::ABSOLUTE
    } else if k == 2 {
        EventType::SWITCH
    } else {
        EventType::LED
    }
}

/// 1 if `c` is in the set, 0 otherwise.
pub open spec fn set_value(s: Option<Set<nat>>, c: nat) -> i32 {
    if s is Some && s->0.contains(c) {
        1
    } else {
        0
    }
}

/// The value code `c` of stage `k` has in `st`: pressed, switched on or lit as 1
/// or 0, and the value of an absolute axis.
pub open spec fn stage_value(st: DeviceStateView, k: nat, c: nat) -> i32 {
    if k == 0 {
        set_value(st.keys, c)
    } else if k == 1 {
        if st.abs is Some && c < st.abs->0.len() {
            st.abs->0[c as int].value
        } else {
            0
        }
    } else if k == 2 {
        set_value(st.switches, c)
    } else {
        set_value(st.leds, c)
    }
}

pub open spec fn set_or_empty(s: Option<Set<nat>>) -> Set<nat> {
    match s {
        Some(s) => s,
        None => Set::empty(),
    }
}

/// The event that ends a block of events at time `t`.
pub open spec fn report_event(t: timeval) -> InputEvent {
    InputEvent(input_event { time: t, type_: EventType::SYNCHRONIZATION, code: Synchronization::SYN_REPORT, value: 0 })
}

/// A physical or virtual device supported by evdev.
///
/// This type specifically is a wrapper over [`RawDevice`], that synchronizes with the kernel's
/// state when events are dropped.
///
/// It keeps the state the events it passed on describe (`state`) and, while it
/// compensates for dropped events, the state its user has seen so far (`prev_state`).
pub struct Device {
    raw: RawDevice,
    prev_state: DeviceState,
    state: DeviceState,
    block_dropped: bool,
}

impl Device {
    pub closed spec fn raw(&self) -> RawDevice {
        self.raw
    }

    /// The synchronization engine's understanding of the device state.
    pub closed spec fn cur(&self) -> DeviceStateView {
        self.state@
    }

    /// The state as the events handed out so far describe it.
    pub closed spec fn prev(&self) -> DeviceStateView {
        self.prev_state@
    }

    /// Whether a dropped block was found and the next fetch must synchronize.
    pub closed spec fn spec_block_dropped(&self) -> bool {
        self.block_dropped
    }

    /// The codes the device supports in stage `k`.
    pub open spec fn supported(&self, k: nat) -> Set<nat> {
        let caps = self.raw().capabilities();
        if k == 0 {
            set_or_empty(opt_set_view(caps.supported_keys))
        } else if k == 1 {
            set_or_empty(opt_set_view(caps.supported_absolute))
        } else if k == 2 {
            set_or_empty(opt_set_view(caps.supported_switch))
        } else {
            set_or_empty(opt_set_view(caps.supported_led))
        }
    }

    /// Both states hold each kind of state the device supports, and every
    /// buffered event can be recorded.
    pub open spec fn wf(&self) -> bool {
        let caps = self.raw().capabilities();
        &&& self.inner_wf()
        &&& caps.supported_keys is Some ==> self.cur().keys is Some && self.prev().keys is Some
        &&& caps.supported_absolute is Some ==> self.cur().abs is Some && self.prev().abs is Some
        &&& caps.supported_switch is Some ==> self.cur().switches is Some && self.prev().switches is Some
        &&& caps.supported_led is Some ==> self.cur().leds is Some && self.prev().leds is Some
        &&& self.cur().same_shape(self.prev())
        &&& self.cur().abs is Some ==> self.cur().abs->0.len() == ABS_CNT
        &&& forall|i: int| 0 <= i < self.raw().events().len() ==> self.cur().accepts(#[trigger] self.raw().events()[i])
    }

    pub closed spec fn inner_wf(&self) -> bool {
        self.state.wf() && self.prev_state.wf()
    }

    /// Code `c` of stage `k`, at or after `s`, is supported and differs between
    /// what was handed out and the current state.
    pub open spec fn pending(&self, k: nat, s: nat, c: nat) -> bool {
        &&& self.supported(k).contains(c)
        &&& s <= c
        &&& stage_value(self.prev(), k, c) != stage_value(self.cur(), k, c)
    }

    /// No code of stage `k` from `s` on is pending.
    pub open spec fn stage_clean(&self, k: nat, s: nat) -> bool {
        forall|c: nat| !#[trigger] self.pending(k, s, c)
    }

    /// No code is pending in the stages from `k0` (from code `s0`) up to `k`, excluded.
    pub open spec fn clean_between(&self, k0: nat, s0: nat, k: nat) -> bool {
        &&& k0 < k ==> self.stage_clean(k0, s0)
        &&& forall|j: nat| k0 < j < k ==> #[trigger] self.stage_clean(j, 0)
    }

    /// Wraps a raw device, with both states empty and holding each kind of state
    /// the device supports.
    pub fn from_raw_device(raw: RawDevice) -> (r: Device)
        requires
            raw.events() == Seq::<InputEvent>::empty(),
        ensures
            r.wf(),
            r.raw() == raw,
            r.cur() == empty_state_view(raw.capabilities(), timeval { tv_sec: 0, tv_usec: 0 }),
            r.prev() == r.cur(),
            !r.spec_block_dropped(),
    {
        let state = raw.empty_state(timeval { tv_sec: 0, tv_usec: 0 });
        let prev_state = state.clone();
        Device { raw, prev_state, state, block_dropped: false }
    }

    /// The device without synchronization.
    pub fn raw_device(&self) -> (r: &RawDevice)
        ensures
            *r == self.raw(),
    {
        &self.raw
    }

    /// Returns the synchronization engine's current understanding (cache) of the device state.
    pub fn cached_state(&self) -> (r: &DeviceState)
        ensures
            r@ == self.cur(),
    {
        &self.state
    }
}

/// One step of compensation: from the stage and code `old` names, finds the
/// first supported code whose value differs between what was handed out and
/// the current state, and gives the event that carries its current value;
/// once every stage is compared, a `SYN_REPORT` ends the compensating block.
pub open spec fn compensates(dev: &Device, old: Option<SyncState>, new: Option<SyncState>, r: Option<InputEvent>) -> bool {
    match old {
        None => r is None && new is None,
        Some(st) => {
            let (k0, s0, t) = (st.stage(), st.start(), st.time());
            &&& r is Some
            &&& match new {
                Some(st2) => {
                    let k = st2.stage();
                    let s = if k == k0 { s0 } else { 0 };
                    let c = (st2.start() - 1) as nat;
                    &&& st2.time() == t
                    &&& k0 <= k
                    &&& st2.start() >= 1
                    &&& dev.clean_between(k0, s0, k)
                    &&& dev.pending(k, s, c)
                    &&& c < stage_capacity(k)
                    &&& k == k0 ==> forall|d: nat| s0 <= d < c ==> !#[trigger] dev.pending(k, s0, d)
                    &&& k != k0 ==> forall|d: nat| d < c ==> !#[trigger] dev.pending(k, 0, d)
                    &&& r->0 == InputEvent(input_event { time: t, type_: stage_type(k), code: c as u16, value: stage_value(dev.cur(), k, c) })
                },
                None => {
                    &&& dev.clean_between(k0, s0, 4)
                    &&& r->0 == report_event(t)
                },
            }
        },
    }
}


/// The number of codes each stage's set can hold.
pub open spec fn stage_capacity(k: nat) -> nat {
    if k == 0 {
        AttributeSet::<KeyCode>::capacity()
    } else if k == 1 {
        AttributeSet::<AbsoluteAxisType>::capacity()
    } else if k == 2 {
        AttributeSet::<SwitchType>::capacity()
    } else {
        AttributeSet::<LedType>::capacity()
    }
}

impl Device {
    /// The first pending code of stage `k` from `start` on, with its current value.
    fn stage_difference(&self, k: u8, start: u16) -> (r: Option<(u16, i32)>)
        requires
            self.wf(),
            k < 4,
        ensures
            match r {
                Some((c, v)) => {
                    &&& self.pending(k as nat, start as nat, c as nat)
                    &&& (c as nat) < stage_capacity(k as nat)
                    &&& forall|d: nat| start <= d < c ==> !#[trigger] self.pending(k as nat, start as nat, d)
                    &&& v == stage_value(self.cur(), k as nat, c as nat)
                },
                None => self.stage_clean(k as nat, start as nat),
            },
    {
        if k == 0 {
            match (self.raw.supported_keys(), self.prev_state.key_vals(), self.state.key_vals()) {
                (Some(sup), Some(before), Some(after)) => {
                    let r = first_changed(sup, KeyCode(start), before, after);
                    proof {
                        assert(self.supported(0) == sup@);
                        match r {
                            Some((c, v)) => {
                                assert(self.pending(0, start as nat, c.0 as nat));
                                assert forall|d: nat| start <= d < c.0 implies !#[trigger] self.pending(0, start as nat, d) by {
                                    if self.supported(0).contains(d) {
                                        assert(sup@.contains(d));
                                    }
                                }
                            },
                            None => {
                                assert forall|d: nat| !#[trigger] self.pending(0, start as nat, d) by {
                                    if self.supported(0).contains(d) {
                                        assert(sup@.contains(d));
                                    }
                                }
                            },
                        }
                    }
                    match r {
                        Some((c, v)) => Some((c.0, if v { 1 } else { 0 })),
                        None => None,
                    }
                },
                _ => None,
            }
        } else if k == 1 {
            match (self.raw.supported_absolute_axes(), self.prev_state.abs_vals(), self.state.abs_vals()) {
                (Some(sup), Some(before), Some(after)) => {
                    let r = first_changed_abs(sup, AbsoluteAxisType(start), before, after);
                    proof {
                        assert(self.supported(1) == sup@);
                        match r {
                            Some((c, v)) => {
                                assert(self.pending(1, start as nat, c.0 as nat));
                                assert forall|d: nat| start <= d < c.0 implies !#[trigger] self.pending(1, start as nat, d) by {
                                    if self.supported(1).contains(d) {
                                        assert(sup@.contains(d));
                                    }
                                }
                            },
                            None => {
                                assert forall|d: nat| !#[trigger] self.pending(1, start as nat, d) by {
                                    if self.supported(1).contains(d) {
                                        assert(sup@.contains(d));
                                    }
                                }
                            },
                        }
                    }
                    match r {
                        Some((c, v)) => Some((c.0, v)),
                        None => None,
                    }
                },
                _ => None,
            }
        } else if k == 2 {
            match (self.raw.supported_switches(), self.prev_state.switch_vals(), self.state.switch_vals()) {
                (Some(sup), Some(before), Some(after)) => {
                    let r = first_changed(sup, SwitchType(start), before, after);
                    proof {
                        assert(self.supported(2) == sup@);
                        match r {
                            Some((c, v)) => {
                                assert(self.pending(2, start as nat, c.0 as nat));
                                assert forall|d: nat| start <= d < c.0 implies !#[trigger] self.pending(2, start as nat, d) by {
                                    if self.supported(2).contains(d) {
                                        assert(sup@.contains(d));
                                    }
                                }
                            },
                            None => {
                                assert forall|d: nat| !#[trigger] self.pending(2, start as nat, d) by {
                                    if self.supported(2).contains(d) {
                                        assert(sup@.contains(d));
                                    }
                                }
                            },
                        }
                    }
                    match r {
                        Some((c, v)) => Some((c.0, if v { 1 } else { 0 })),
                        None => None,
                    }
                },
                _ => None,
            }
        } else {
            match (self.raw.supported_leds(), self.prev_state.led_vals(), self.state.led_vals()) {
                (Some(sup), Some(before), Some(after)) => {
                    let r = first_changed(sup, LedType(start), before, after);
                    proof {
                        assert(self.supported(3) == sup@);
                        match r {
                            Some((c, v)) => {
                                assert(self.pending(3, start as nat, c.0 as nat));
                                assert forall|d: nat| start <= d < c.0 implies !#[trigger] self.pending(3, start as nat, d) by {
                                    if self.supported(3).contains(d) {
                                        assert(sup@.contains(d));
                                    }
                                }
                            },
                            None => {
                                assert forall|d: nat| !#[trigger] self.pending(3, start as nat, d) by {
                                    if self.supported(3).contains(d) {
                                        assert(sup@.contains(d));
                                    }
                                }
                            },
                        }
                    }
                    match r {
                        Some((c, v)) => Some((c.0, if v { 1 } else { 0 })),
                        None => None,
                    }
                },
                _ => None,
            }
        }
    }
}

/// The event type of stage `k`'s events.
fn stage_event_type(k: u8) -> (r: u16)
    requires
        k < 4,
    ensures
        r == stage_type(k as nat),
{
    if k == 0 {
        EventType::KEY
    } else if k == 1 {
        EventType::ABSOLUTE
    } else if k == 2 {
        EventType::SWITCH
    } else {
        EventType::LED
    }
}

/// The synchronization state at stage `k`, with `start` the next code to compare.
fn sync_state_at(k: u8, time: timeval, start: u16) -> (r: SyncState)
    requires
        k < 4,
    ensures
        r.stage() == k,
        r.start() == start,
        r.time() == time,
{
    if k == 0 {
        SyncState::Keys { time, start: KeyCode(start) }
    } else if k == 1 {
        SyncState::Absolutes { time, start: AbsoluteAxisType(start) }
    } else if k == 2 {
        SyncState::Switches { time, start: SwitchType(start) }
    } else {
        SyncState::Leds { time, start: LedType(start) }
    }
}

/// Emits the next event that brings what was handed out in line with the
/// current state, after events were dropped: for keys, then absolute axes,
/// then switches, then LEDs, an event for each supported code whose value
/// changed, in increasing code order, and finally a `SYN_REPORT`.
pub fn compensate_events(state: &mut Option<SyncState>, dev: &Device) -> (r: Option<InputEvent>)
    requires
        dev.wf(),
    ensures
        compensates(dev, *old(state), *final(state), r),
{
    let (mut k, time, mut start): (u8, timeval, u16) = match *state {
        None => return None,
        Some(SyncState::Keys { time, start }) => (0, time, start.0),
        Some(SyncState::Absolutes { time, start }) => (1, time, start.0),
        Some(SyncState::Switches { time, start }) => (2, time, start.0),
        Some(SyncState::Leds { time, start }) => (3, time, start.0),
    };
    let ghost k0 = k as nat;
    let ghost s0 = start as nat;
    while k < 4
        invariant
            dev.wf(),
            (*old(state)) is Some,
            k0 == (*old(state))->0.stage(),
            s0 == (*old(state))->0.start(),
            time == (*old(state))->0.time(),
            k0 <= k <= 4,
            start == (if k == k0 { s0 } else { 0 }),
            dev.clean_between(k0, s0, k as nat),
        decreases 4 - k,
    {
        match dev.stage_difference(k, start) {
            Some((c, v)) => {
                let next = sync_state_at(k, time, c + 1);
                *state = Some(next);
                let ty = stage_event_type(k);
                return Some(InputEvent(input_event { time, type_: ty, code: c, value: v }));
            },
            None => {
                k += 1;
                start = 0;
            },
        }
    }
    *state = None;
    Some(InputEvent(input_event { time, type_: EventType::SYNCHRONIZATION, code: Synchronization::SYN_REPORT, value: 0 }))
}


/// An iterator over events of a [`Device`], produced by [`Device::fetch_events`]'s caller
/// and driven by [`Device::next_event`].
pub struct FetchEventsSynced {
    /// The current block of the events we're returning to the consumer. If empty
    /// (i.e. for any x, range == x..x) then we'll find another block on the next `next()` call.
    range: Range<usize>,
    /// The index into dev.raw.event_buf up to which we'll delete events when finished.
    consumed_to: usize,
    /// Our current synchronization state, i.e. whether we're currently diffing key_vals,
    /// abs_vals, switch_vals, led_vals, or none of them.
    sync: Option<SyncState>,
}

impl FetchEventsSynced {
    pub closed spec fn spec_range(&self) -> (int, int) {
        (self.range.start as int, self.range.end as int)
    }

    pub closed spec fn spec_consumed_to(&self) -> int {
        self.consumed_to as int
    }

    pub closed spec fn spec_sync(&self) -> Option<SyncState> {
        self.sync
    }

    /// A fresh pass over the buffered events; if `resynced_at` is given, the
    /// state was just read back from the kernel at that time and compensating
    /// events come first.
    pub fn new(resynced_at: Option<timeval>) -> (r: FetchEventsSynced)
        ensures
            r.spec_range() == (0int, 0int),
            r.spec_consumed_to() == 0,
            r.spec_sync() == (match resynced_at {
                Some(t) => Some(SyncState::Keys { time: t, start: KeyCode(0) }),
                None => None,
            }),
    {
        let sync = match resynced_at {
            Some(t) => Some(SyncState::Keys { time: t, start: KeyCode(0) }),
            None => None,
        };
        FetchEventsSynced { range: 0..0, consumed_to: 0, sync }
    }
}

impl Device {
    /// The pass `it` lies within the buffered events.
    pub open spec fn fits(&self, it: &FetchEventsSynced) -> bool {
        &&& 0 <= it.spec_range().0 <= it.spec_range().1 <= self.raw().events().len()
        &&& 0 <= it.spec_consumed_to() <= self.raw().events().len()
    }

    /// The next event of the pass `it`: first the compensating events owed after
    /// a synchronization, then the events of each complete block that lost none.
    ///
    /// The cached state records each event of a block as it is handed out, so
    /// that it always stands as of the last event pulled out. `None` means that
    /// the buffer holds no further complete block; when the block found held a
    /// `SYN_DROPPED`, the device is marked to synchronize on the next fetch.
    pub fn next_event(&mut self, it: &mut FetchEventsSynced) -> (r: Option<InputEvent>)
        requires
            old(self).wf(),
            old(self).fits(old(it)),
        ensures
            final(self).wf(),
            final(self).fits(final(it)),
            final(self).raw() == old(self).raw(),
            old(it).spec_sync() is Some ==> {
                &&& compensates(old(self), old(it).spec_sync(), final(it).spec_sync(), r)
                &&& final(self).prev() == old(self).prev().apply(r->0)
                &&& final(self).cur() == old(self).cur()
                &&& final(it).spec_range() == old(it).spec_range()
                &&& final(it).spec_consumed_to() == old(it).spec_consumed_to()
                &&& final(self).spec_block_dropped() == old(self).spec_block_dropped()
            },
            old(it).spec_sync() is None ==> {
                let out = sync_outcome(old(self).raw().events(), old(it).spec_range().0, old(it).spec_range().1);
                &&& r == (match out.result { Ok(ev) => Some(ev), Err(_) => None::<InputEvent> })
                &&& final(self).cur() == (match out.result { Ok(ev) => old(self).cur().apply(ev), Err(_) => old(self).cur() })
                &&& final(self).prev() == old(self).prev()
                &&& final(it).spec_sync() is None
                &&& final(it).spec_range() == out.range
                &&& final(it).spec_consumed_to() == (match out.consumed_to { Some(c) => c as int, None => old(it).spec_consumed_to() })
                &&& final(self).spec_block_dropped() == (old(self).spec_block_dropped() || out.result == Err::<InputEvent, bool>(true))
            },
    {
        let ghost prev0 = self.prev_state@;
        if let Some(ev) = compensate_events(&mut it.sync, self) {
            proof {
                lemma_apply_same_shape(prev0, ev);
            }
            self.prev_state.process_event(ev);
            return Some(ev);
        }
        let ghost st0 = self.state@;
        let ghost buf = self.raw.events();
        let (res, consumed_to) = sync_events(&mut it.range, self.raw.buffered_events());
        proof {
            lemma_next_report(buf, old(it).range.end as int);
        }
        if let Some(end) = consumed_to {
            it.consumed_to = end;
        }
        match res {
            Ok(ev) => {
                proof {
                    let k = if old(it).range.start < old(it).range.end { old(it).range.start as int } else { old(it).range.end as int };
                    assert(ev == buf[k]);
                    assert(st0.accepts(buf[k]));
                    lemma_apply_same_shape(st0, ev);
                }
                self.state.process_event(ev);
                Some(ev)
            },
            Err(requires_sync) => {
                if requires_sync {
                    self.block_dropped = true;
                }
                None
            },
        }
    }
}


impl Device {
    /// Starts a fetch: clears the mark left by a dropped block and says whether
    /// there was one. If there was, what was handed out so far is taken to be
    /// the current state, which the caller then replaces with the kernel's
    /// through [`Device::sync_state`] before compensating.
    pub fn take_block_dropped(&mut self) -> (dropped: bool)
        requires
            old(self).wf(),
        ensures
            final(self).wf(),
            dropped == old(self).spec_block_dropped(),
            !final(self).spec_block_dropped(),
            final(self).raw() == old(self).raw(),
            final(self).cur() == old(self).cur(),
            final(self).prev() == (if dropped { old(self).cur() } else { old(self).prev() }),
    {
        let dropped = self.block_dropped;
        self.block_dropped = false;
        if dropped {
            self.prev_state = self.state.clone();
        }
        dropped
    }

    /// Replaces the cached state with `kernel`, the state read from the kernel at `now`.
    pub fn sync_state(&mut self, now: timeval, kernel: DeviceState)
        requires
            old(self).wf(),
            kernel.wf(),
            kernel@.same_shape(old(self).cur()),
        ensures
            final(self).wf(),
            final(self).cur() == (DeviceStateView { time: now, ..kernel@ }),
            final(self).prev() == old(self).prev(),
            final(self).raw() == old(self).raw(),
            final(self).spec_block_dropped() == old(self).spec_block_dropped(),
    {
        self.state = kernel.with_time(now);
        proof {
            assert(self.cur().same_shape(old(self).cur()));
            assert forall|e: InputEvent| self.cur().accepts(e) == old(self).cur().accepts(e) by {}
        }
    }

    /// Whether `ev`, read from the device, can be recorded in the cached state:
    /// a key event needs a device with keys, an absolute axis event one with axes.
    pub fn accepts_event(&self, ev: &InputEvent) -> (r: bool)
        ensures
            r == self.cur().accepts(*ev),
    {
        self.state.accepts(ev)
    }

    /// Appends events read from the device to the buffer.
    pub fn push_events(&mut self, events: &[InputEvent])
        requires
            old(self).wf(),
            forall|i: int| 0 <= i < events@.len() ==> old(self).cur().accepts(#[trigger] events@[i]),
        ensures
            final(self).wf(),
            final(self).raw().events() == old(self).raw().events() + events@,
            final(self).raw().capabilities() == old(self).raw().capabilities(),
            final(self).cur() == old(self).cur(),
            final(self).prev() == old(self).prev(),
            final(self).spec_block_dropped() == old(self).spec_block_dropped(),
    {
        self.raw.push_events(events);
        proof {
            let all = old(self).raw().events() + events@;
            assert forall|i: int| 0 <= i < all.len() implies self.cur().accepts(#[trigger] all[i]) by {
                if i >= old(self).raw().events().len() {
                    assert(all[i] == events@[i - old(self).raw().events().len()]);
                }
            }
        }
    }

    /// Ends the pass `it`: the events it consumed leave the buffer.
    pub fn finish_fetch(&mut self, it: FetchEventsSynced)
        requires
            old(self).wf(),
            old(self).fits(&it),
        ensures
            final(self).wf(),
            final(self).raw().events() == old(self).raw().events().subrange(it.spec_consumed_to(), old(self).raw().events().len() as int),
            final(self).raw().capabilities() == old(self).raw().capabilities(),
            final(self).cur() == old(self).cur(),
            final(self).prev() == old(self).prev(),
            final(self).spec_block_dropped() == old(self).spec_block_dropped(),
    {
        self.raw.drain_consumed(it.consumed_to);
        proof {
            let rest = self.raw().events();
            assert forall|i: int| 0 <= i < rest.len() implies self.cur().accepts(#[trigger] rest[i]) by {
                assert(rest[i] == old(self).raw().events()[i + it.spec_consumed_to()]);
            }
        }
    }
}


/// The codes of stage `k` in `lo..n` that the device supports and whose value
/// differs between `prev` and the device's current state, in increasing order.
pub open spec fn diff_codes(dev: Device, prev: DeviceStateView, k: nat, lo: nat, n: nat) -> Seq<nat>
    decreases n,
{
    if n <= lo {
        Seq::empty()
    } else {
        let rest = diff_codes(dev, prev, k, lo, (n - 1) as nat);
        let c = (n - 1) as nat;
        if dev.supported(k).contains(c) && stage_value(prev, k, c) != stage_value(dev.cur(), k, c) {
            rest.push(c)
        } else {
            rest
        }
    }
}

/// The compensating event that announces code `c` of stage `k` at time `t`.
pub open spec fn stage_event(dev: Device, k: nat, c: nat, t: timeval) -> InputEvent {
    InputEvent(input_event { time: t, type_: stage_type(k), code: c as u16, value: stage_value(dev.cur(), k, c) })
}

/// The events a compensation pass owes from stage `k`, code `s` on, when what
/// was handed out is `prev`: for this stage and each later one, an event for
/// each supported code whose value differs, in increasing code order, and
/// then the `SYN_REPORT` that ends the pass.
pub open spec fn pass_events(dev: Device, prev: DeviceStateView, k: nat, s: nat, t: timeval) -> Seq<InputEvent>
    decreases 4 - k,
{
    if k >= 4 {
        seq![report_event(t)]
    } else {
        diff_codes(dev, prev, k, s, stage_capacity(k)).map_values(|c: nat| stage_event(dev, k, c, t))
            + pass_events(dev, prev, k + 1, 0, t)
    }
}

/// Recording an event changes the value of its own code of its own stage only.
proof fn lemma_apply_keeps_other_codes(p: DeviceStateView, ev: InputEvent, k: nat, c: nat)
    requires
        p.accepts(ev),
        k < 4,
        !(ev.0.type_ == stage_type(k) && ev.0.code == c),
    ensures
        stage_value(p.apply(ev), k, c) == stage_value(p, k, c),
{
    let q = p.apply(ev);
    if ev.0.type_ == EventType::KEY {
        let keys = p.keys->0;
        let code = ev.0.code as nat;
        if k == 0 {
            assert(code != c);
            if ev.0.value != 0 {
                assert(keys.insert(code).contains(c) == keys.contains(c));
            } else {
                assert(keys.remove(code).contains(c) == keys.contains(c));
            }
        }
    } else if ev.0.type_ == EventType::ABSOLUTE {
        if k == 1 {
            assert(ev.0.code as nat != c);
            let axes = p.abs->0;
            let i = ev.0.code as int;
            assert(q.abs->0 == axes.update(i, input_absinfo { value: ev.0.value, ..axes[i] }));
            if c < axes.len() {
                assert(q.abs->0[c as int] == axes[c as int]);
            }
        }
    }
}

/// With no differing code in `lo..c` and one at `c`, the list from `lo` is `c`
/// followed by the list from `c + 1`.
proof fn lemma_diff_codes_split(dev: Device, prev: DeviceStateView, k: nat, lo: nat, c: nat, n: nat)
    requires
        lo <= c < n,
        dev.supported(k).contains(c) && stage_value(prev, k, c) != stage_value(dev.cur(), k, c),
        forall|d: nat| lo <= d < c ==> !(dev.supported(k).contains(d) && stage_value(prev, k, d) != stage_value(dev.cur(), k, d)),
    ensures
        diff_codes(dev, prev, k, lo, n) == seq![c] + diff_codes(dev, prev, k, c + 1, n),
    decreases n,
{
    if n == c + 1 {
        lemma_diff_codes_none(dev, prev, k, lo, c);
        assert(diff_codes(dev, prev, k, c + 1, n) =~= Seq::<nat>::empty());
        assert(diff_codes(dev, prev, k, lo, n) =~= seq![c]);
    } else {
        lemma_diff_codes_split(dev, prev, k, lo, c, (n - 1) as nat);
        let d = (n - 1) as nat;
        if dev.supported(k).contains(d) && stage_value(prev, k, d) != stage_value(dev.cur(), k, d) {
            assert(diff_codes(dev, prev, k, lo, n) =~= seq![c] + diff_codes(dev, prev, k, c + 1, n));
        }
    }
}

/// With no differing code in `lo..n`, the list is empty.
proof fn lemma_diff_codes_none(dev: Device, prev: DeviceStateView, k: nat, lo: nat, n: nat)
    requires
        forall|d: nat| lo <= d < n ==> !(dev.supported(k).contains(d) && stage_value(prev, k, d) != stage_value(dev.cur(), k, d)),
    ensures
        diff_codes(dev, prev, k, lo, n) == Seq::<nat>::empty(),
    decreases n,
{
    if n > lo {
        lemma_diff_codes_none(dev, prev, k, lo, (n - 1) as nat);
    }
}

/// Two states that agree on every code of stage `k` from `lo` on owe the same list.
proof fn lemma_diff_codes_agree(dev: Device, p: DeviceStateView, q: DeviceStateView, k: nat, lo: nat, n: nat)
    requires
        forall|d: nat| lo <= d ==> stage_value(p, k, d) == stage_value(q, k, d),
    ensures
        diff_codes(dev, p, k, lo, n) == diff_codes(dev, q, k, lo, n),
    decreases n,
{
    if n > lo {
        lemma_diff_codes_agree(dev, p, q, k, lo, (n - 1) as nat);
    }
}

/// Two states that agree on every code of the stages after `k` owe the same
/// events from there on; so do two devices with the same supported codes and
/// current state.
proof fn lemma_pass_events_agree(d1: Device, d2: Device, p: DeviceStateView, q: DeviceStateView, k: nat, t: timeval)
    requires
        forall|j: nat, d: nat| k <= j < 4 ==> #[trigger] stage_value(p, j, d) == stage_value(q, j, d),
        forall|j: nat| #[trigger] d1.supported(j) == d2.supported(j),
        d1.cur() == d2.cur(),
    ensures
        pass_events(d1, p, k, 0, t) == pass_events(d2, q, k, 0, t),
    decreases 4 - k,
{
    if k < 4 {
        lemma_pass_events_agree(d1, d2, p, q, k + 1, t);
        lemma_diff_codes_agree(d1, p, q, k, 0, stage_capacity(k));
        assert(diff_codes(d1, q, k, 0, stage_capacity(k)) =~= diff_codes(d2, q, k, 0, stage_capacity(k))) by {
            lemma_diff_codes_same_dev(d1, d2, q, k, 0, stage_capacity(k));
        }
        assert(diff_codes(d1, p, k, 0, stage_capacity(k)).map_values(|c: nat| stage_event(d1, k, c, t))
            =~= diff_codes(d2, q, k, 0, stage_capacity(k)).map_values(|c: nat| stage_event(d2, k, c, t)));
    }
}

proof fn lemma_diff_codes_same_dev(d1: Device, d2: Device, p: DeviceStateView, k: nat, lo: nat, n: nat)
    requires
        forall|j: nat| #[trigger] d1.supported(j) == d2.supported(j),
        d1.cur() == d2.cur(),
    ensures
        diff_codes(d1, p, k, lo, n) == diff_codes(d2, p, k, lo, n),
    decreases n,
{
    if n > lo {
        lemma_diff_codes_same_dev(d1, d2, p, k, lo, (n - 1) as nat);
        assert(d1.supported(k) == d2.supported(k));
    }
}

/// `p` and `q` agree on every code at or after code `s` of stage `k`, by stage
/// and then by code.
pub open spec fn agrees_from(p: DeviceStateView, q: DeviceStateView, k: nat, s: nat) -> bool {
    forall|j: nat, d: nat|
        j < 4 && (j > k || (j == k && d >= s)) ==> #[trigger] stage_value(p, j, d) == stage_value(q, j, d)
}

/// A stage with nothing pending from `lo` on, for a device that agrees with
/// `p0` there, owes nothing from `lo` on.
proof fn lemma_clean_stage_owes_nothing(dev: Device, d0: Device, p0: DeviceStateView, k: nat, lo: nat, k0: nat, s0: nat, n: nat)
    requires
        dev.stage_clean(k, lo),
        agrees_from(dev.prev(), p0, k0, s0),
        k < 4,
        k > k0 || (k == k0 && lo >= s0),
        dev.raw() == d0.raw(),
        dev.cur() == d0.cur(),
    ensures
        diff_codes(d0, p0, k, lo, n) == Seq::<nat>::empty(),
{
    assert forall|d: nat| lo <= d < n implies !(d0.supported(k).contains(d) && stage_value(p0, k, d) != stage_value(d0.cur(), k, d)) by {
        assert(!dev.pending(k, lo, d));
        assert(stage_value(dev.prev(), k, d) == stage_value(p0, k, d));
    }
    lemma_diff_codes_none(d0, p0, k, lo, n);
}

/// The stages from `from` up to `to`, excluded, owe nothing from code 0 on,
/// so the pass from `from` is the pass from `to`.
proof fn lemma_skip_stages(dev: Device, d0: Device, p0: DeviceStateView, from: nat, to: nat, k0: nat, s0: nat, t: timeval)
    requires
        from <= to <= 4,
        from > k0,
        forall|j: nat| from <= j < to ==> #[trigger] dev.stage_clean(j, 0),
        agrees_from(dev.prev(), p0, k0, s0),
        dev.raw() == d0.raw(),
        dev.cur() == d0.cur(),
    ensures
        pass_events(d0, p0, from, 0, t) == pass_events(d0, p0, to, 0, t),
    decreases to - from,
{
    if from < to {
        assert(dev.stage_clean(from, 0));
        lemma_clean_stage_owes_nothing(dev, d0, p0, from, 0, k0, s0, stage_capacity(from));
        lemma_skip_stages(dev, d0, p0, from + 1, to, k0, s0, t);
        assert(diff_codes(d0, p0, from, 0, stage_capacity(from)).map_values(|c: nat| stage_event(d0, from, c, t))
            =~= Seq::<InputEvent>::empty());
        assert(pass_events(d0, p0, from, 0, t) =~= pass_events(d0, p0, from + 1, 0, t));
    }
}

/// One step of compensation takes the first event of what the pass owes, and
/// leaves the rest owed; the final step gives the `SYN_REPORT`.
proof fn lemma_compensation_step(dev: Device, d0: Device, p0: DeviceStateView, st: SyncState, new: Option<SyncState>, r: Option<InputEvent>)
    requires
        dev.wf(),
        compensates(&dev, Some(st), new, r),
        agrees_from(dev.prev(), p0, st.stage(), st.start()),
        dev.raw() == d0.raw(),
        dev.cur() == d0.cur(),
    ensures
        r is Some,
        match new {
            Some(st2) => {
                &&& pass_events(d0, p0, st.stage(), st.start(), st.time())
                    == seq![r->0] + pass_events(d0, p0, st2.stage(), st2.start(), st2.time())
                &&& agrees_from(dev.prev().apply(r->0), p0, st2.stage(), st2.start())
                &&& st2.time() == st.time()
            },
            None => pass_events(d0, p0, st.stage(), st.start(), st.time()) == seq![r->0],
        },
{
    let (k0, s0, t) = (st.stage(), st.start(), st.time());
    match new {
        Some(st2) => {
            let k = st2.stage();
            let c = (st2.start() - 1) as nat;
            let lo = if k == k0 { s0 } else { 0 };
            // the stages before `k` owe nothing
            assert(pass_events(d0, p0, k0, s0, t) == pass_events(d0, p0, k, lo, t)) by {
                if k0 < k {
                    lemma_clean_stage_owes_nothing(dev, d0, p0, k0, s0, k0, s0, stage_capacity(k0));
                    assert(diff_codes(d0, p0, k0, s0, stage_capacity(k0)).map_values(|x: nat| stage_event(d0, k0, x, t))
                        =~= Seq::<InputEvent>::empty());
                    assert(pass_events(d0, p0, k0, s0, t) =~= pass_events(d0, p0, k0 + 1, 0, t));
                    lemma_skip_stages(dev, d0, p0, k0 + 1, k, k0, s0, t);
                }
            }
            // at stage `k`, code `c` comes first
            assert forall|d: nat| lo <= d < c implies !(d0.supported(k).contains(d) && stage_value(p0, k, d) != stage_value(d0.cur(), k, d)) by {
                if k == k0 {
                    assert(!dev.pending(k, s0, d));
                } else {
                    assert(!dev.pending(k, 0, d));
                }
                assert(stage_value(dev.prev(), k, d) == stage_value(p0, k, d));
            }
            assert(stage_value(dev.prev(), k, c) == stage_value(p0, k, c));
            lemma_diff_codes_split(d0, p0, k, lo, c, stage_capacity(k));
            let rest = diff_codes(d0, p0, k, c + 1, stage_capacity(k));
            assert(diff_codes(d0, p0, k, lo, stage_capacity(k)).map_values(|x: nat| stage_event(d0, k, x, t))
                =~= seq![stage_event(d0, k, c, t)] + rest.map_values(|x: nat| stage_event(d0, k, x, t)));
            assert(r->0 == stage_event(d0, k, c, t));
            assert(pass_events(d0, p0, k, lo, t) =~= seq![r->0] + pass_events(d0, p0, k, c + 1, t));
            // what was handed out still agrees from the next position on
            let ev = r->0;
            assert(dev.prev().accepts(ev)) by {
                if k == 0 {
                    assert(dev.supported(0).contains(c));
                } else if k == 1 {
                    assert(dev.supported(1).contains(c));
                }
            }
            assert forall|j: nat, d: nat|
                j < 4 && (j > k || (j == k && d >= c + 1)) implies #[trigger] stage_value(dev.prev().apply(ev), j, d) == stage_value(p0, j, d) by {
                lemma_apply_keeps_other_codes(dev.prev(), ev, j, d);
            }
        },
        None => {
            assert(r->0 == report_event(t));
            if k0 < 4 {
                lemma_clean_stage_owes_nothing(dev, d0, p0, k0, s0, k0, s0, stage_capacity(k0));
                assert(diff_codes(d0, p0, k0, s0, stage_capacity(k0)).map_values(|x: nat| stage_event(d0, k0, x, t))
                    =~= Seq::<InputEvent>::empty());
                assert(pass_events(d0, p0, k0, s0, t) =~= pass_events(d0, p0, k0 + 1, 0, t));
                lemma_skip_stages(dev, d0, p0, k0 + 1, 4, k0, s0, t);
            }
        },
    }
}

proof fn lemma_compensation_run(devs: Seq<Device>, sts: Seq<Option<SyncState>>, evs: Seq<InputEvent>, j: int)
    requires
        devs.len() == evs.len(),
        sts.len() == evs.len() + 1,
        0 <= j < evs.len(),
        forall|i: int| 0 <= i < evs.len() ==> #[trigger] devs[i].wf(),
        forall|i: int| 0 <= i < evs.len() ==> compensates(&#[trigger] devs[i], sts[i], sts[i + 1], Some(evs[i])),
        forall|i: int| 0 <= i < evs.len() - 1 ==> {
            &&& #[trigger] devs[i + 1].prev() == devs[i].prev().apply(evs[i])
            &&& devs[i + 1].cur() == devs[i].cur()
            &&& devs[i + 1].raw() == devs[i].raw()
        },
        sts[evs.len() as int] is None,
        sts[j] is Some,
        agrees_from(devs[j].prev(), devs[0].prev(), sts[j]->0.stage(), sts[j]->0.start()),
        devs[j].raw() == devs[0].raw(),
        devs[j].cur() == devs[0].cur(),
    ensures
        evs.subrange(j, evs.len() as int) == pass_events(devs[0], devs[0].prev(), sts[j]->0.stage(), sts[j]->0.start(), sts[j]->0.time()),
    decreases evs.len() - j,
{
    let n = evs.len() as int;
    let st = sts[j]->0;
    assert(compensates(&devs[j], sts[j], sts[j + 1], Some(evs[j])));
    assert(sts[j] == Some(st));
    lemma_compensation_step(devs[j], devs[0], devs[0].prev(), st, sts[j + 1], Some(evs[j]));
    match sts[j + 1] {
        Some(st2) => {
            if j + 1 == n {
                assert(false);
            }
            assert(devs[j + 1].prev() == devs[j].prev().apply(evs[j]));
            lemma_compensation_run(devs, sts, evs, j + 1);
            assert(evs.subrange(j, n) =~= seq![evs[j]] + evs.subrange(j + 1, n));
        },
        None => {
            if j + 1 < n {
                assert(compensates(&devs[j + 1], sts[j + 1], sts[j + 2], Some(evs[j + 1])));
                assert(false);
            }
            assert(evs.subrange(j, n) =~= seq![evs[j]]);
        },
    }
}

/// A whole compensation pass, as the device's user sees it: each compensating
/// event is recorded in what was handed out before the next step. The events
/// of the pass are exactly one event for each supported key, then absolute
/// axis, switch and LED (from the code the pass starts at) whose value differs
/// between what was handed out when the pass began and the current state, in
/// increasing code order, carrying the current value and the pass's time, and
/// then one `SYN_REPORT`.
pub proof fn law_compensation_pass(devs: Seq<Device>, sts: Seq<Option<SyncState>>, evs: Seq<InputEvent>)
    requires
        evs.len() >= 1,
        devs.len() == evs.len(),
        sts.len() == evs.len() + 1,
        sts[0] is Some,
        forall|i: int| 0 <= i < evs.len() ==> #[trigger] devs[i].wf(),
        forall|i: int| 0 <= i < evs.len() ==> compensates(&#[trigger] devs[i], sts[i], sts[i + 1], Some(evs[i])),
        forall|i: int| 0 <= i < evs.len() - 1 ==> {
            &&& #[trigger] devs[i + 1].prev() == devs[i].prev().apply(evs[i])
            &&& devs[i + 1].cur() == devs[i].cur()
            &&& devs[i + 1].raw() == devs[i].raw()
        },
        sts[evs.len() as int] is None,
    ensures
        evs == pass_events(devs[0], devs[0].prev(), sts[0]->0.stage(), sts[0]->0.start(), sts[0]->0.time()),
{
    lemma_compensation_run(devs, sts, evs, 0);
    assert(evs.subrange(0, evs.len() as int) =~= evs);
}

proof fn lemma_compensation_calls(dev: Device, sts: Seq<Option<SyncState>>, evs: Seq<InputEvent>, j: int)
    requires
        dev.wf(),
        sts.len() == evs.len() + 1,
        0 <= j < evs.len(),
        forall|i: int| 0 <= i < evs.len() ==> #[trigger] compensates(&dev, sts[i], sts[i + 1], Some(evs[i])),
        sts[evs.len() as int] is None,
        sts[j] is Some,
    ensures
        evs.subrange(j, evs.len() as int) == pass_events(dev, dev.prev(), sts[j]->0.stage(), sts[j]->0.start(), sts[j]->0.time()),
    decreases evs.len() - j,
{
    let n = evs.len() as int;
    let st = sts[j]->0;
    assert(compensates(&dev, sts[j], sts[j + 1], Some(evs[j])));
    assert(sts[j] == Some(st));
    lemma_compensation_step(dev, dev, dev.prev(), st, sts[j + 1], Some(evs[j]));
    match sts[j + 1] {
        Some(st2) => {
            if j + 1 == n {
                assert(false);
            }
            lemma_compensation_calls(dev, sts, evs, j + 1);
            assert(evs.subrange(j, n) =~= seq![evs[j]] + evs.subrange(j + 1, n));
        },
        None => {
            if j + 1 < n {
                let i = j + 1;
                assert(compensates(&dev, sts[i], sts[i + 1], Some(evs[i])));
                assert(false);
            }
            assert(evs.subrange(j, n) =~= seq![evs[j]]);
        },
    }
}

/// A whole compensation pass as [`compensate_events`] gives it when called
/// again and again on a device that does not change in between: the events
/// are exactly one event for each supported key, then absolute axis, switch
/// and LED (from the code the pass starts at) whose value differs between what
/// was handed out and the current state, in increasing code order, carrying the
/// current value and the pass's time, then one `SYN_REPORT`; every call after
/// that gives nothing and leaves no pass under way.
pub proof fn law_compensation_repeated_calls(dev: Device, sts: Seq<Option<SyncState>>, evs: Seq<InputEvent>)
    requires
        dev.wf(),
        evs.len() >= 1,
        sts.len() == evs.len() + 1,
        sts[0] is Some,
        forall|i: int| 0 <= i < evs.len() ==> #[trigger] compensates(&dev, sts[i], sts[i + 1], Some(evs[i])),
        sts[evs.len() as int] is None,
    ensures
        evs == pass_events(dev, dev.prev(), sts[0]->0.stage(), sts[0]->0.start(), sts[0]->0.time()),
        forall|new: Option<SyncState>, r: Option<InputEvent>|
            #[trigger] compensates(&dev, sts[evs.len() as int], new, r) ==> r is None && new is None,
{
    lemma_compensation_calls(dev, sts, evs, 0);
    assert(evs.subrange(0, evs.len() as int) =~= evs);
}

/// Compensation never announces a code twice: each compensating event names a
/// later code than the one before it, by stage and then by code, and once a
/// stage is left no code of it comes back; the event that ends the pass is
/// the `SYN_REPORT`.
pub proof fn law_compensation_announces_each_code_once(
    dev1: &Device,
    dev2: &Device,
    st0: SyncState,
    st1: SyncState,
    new: Option<SyncState>,
    r1: Option<InputEvent>,
    r2: Option<InputEvent>,
)
    requires
        compensates(dev1, Some(st0), Some(st1), r1),
        compensates(dev2, Some(st1), new, r2),
    ensures
        match new {
            Some(st2) => st1.stage() < st2.stage() || (st1.stage() == st2.stage() && st1.start() < st2.start()),
            None => r2->0 == report_event(st1.time()),
        },
        st1.start() >= 1,
{
}

/// What was handed out agrees with the current state on every supported key
/// and absolute axis code of the stages before `k`, and of stage `k` below code `s`.
pub open spec fn agrees_before(dev: &Device, k: nat, s: nat) -> bool {
    forall|j: nat, c: nat|
        j < 2 && (j < k || (j == k && c < s)) && #[trigger] dev.supported(j).contains(c)
            ==> stage_value(dev.prev(), j, c) == stage_value(dev.cur(), j, c)
}

/// Compensation resynchronizes: each compensating event, recorded in what was
/// handed out, extends the range of key and absolute axis codes on which it
/// agrees with the current state, and once the `SYN_REPORT` that ends the
/// compensation is out, the two agree on every supported key and absolute axis.
///
/// (Switch and LED events are not recorded in the state, so they are compared
/// and announced but not tracked.)
pub proof fn law_compensation_resynchronizes(
    before: &Device,
    after: &Device,
    st: SyncState,
    new: Option<SyncState>,
    r: Option<InputEvent>,
)
    requires
        before.wf(),
        compensates(before, Some(st), new, r),
        after.raw() == before.raw(),
        after.cur() == before.cur(),
        after.prev() == before.prev().apply(r->0),
        agrees_before(before, st.stage(), st.start()),
    ensures
        match new {
            Some(st2) => agrees_before(after, st2.stage(), st2.start()),
            None => agrees_before(after, 2, 0),
        },
{
    let (k0, s0) = (st.stage(), st.start());
    let ev = r->0;
    match new {
        Some(st2) => {
            let k = st2.stage();
            let s = if k == k0 { s0 } else { 0 };
            let c = (st2.start() - 1) as nat;
            assert forall|j: nat, d: nat|
                j < 2 && (j < k || (j == k && d < st2.start())) && #[trigger] after.supported(j).contains(d)
                implies stage_value(after.prev(), j, d) == stage_value(after.cur(), j, d) by {
                assert(after.supported(j) == before.supported(j));
                if j == k && d == c {
                } else {
                    assert(stage_value(after.prev(), j, d) == stage_value(before.prev(), j, d));
                    if j < k0 || (j == k0 && d < s0) {
                    } else if j < k {
                        if j == k0 {
                            assert(before.stage_clean(k0, s0));
                            assert(!before.pending(j, s0, d));
                        } else {
                            assert(before.stage_clean(j, 0));
                            assert(!before.pending(j, 0, d));
                        }
                    } else {
                        assert(j == k);
                        if k == k0 {
                            assert(!before.pending(k, s0, d));
                        } else {
                            assert(!before.pending(k, 0, d));
                        }
                    }
                }
            }
        },
        None => {
            assert(after.prev() == before.prev());
            assert forall|j: nat, d: nat|
                j < 2 && (j < 2 || (j == 2 && d < 0)) && #[trigger] after.supported(j).contains(d)
                implies stage_value(after.prev(), j, d) == stage_value(after.cur(), j, d) by {
                assert(after.supported(j) == before.supported(j));
                if j < k0 || (j == k0 && d < s0) {
                } else if j == k0 {
                    assert(before.stage_clean(k0, s0));
                    assert(!before.pending(j, s0, d));
                } else {
                    assert(before.stage_clean(j, 0));
                    assert(!before.pending(j, 0, d));
                }
            }
        },
    }
}

impl Device {
    /// Returns the device's name as read from the kernel.
    pub fn name(&self) -> (r: Option<&str>)
        ensures
            match r {
                Some(s) => self.raw().capabilities().name is Some && s@ == self.raw().capabilities().name->0@,
                None => self.raw().capabilities().name is None,
            },
    {
        self.raw.name()
    }

    /// Returns the device's physical location, either as set by the caller or as read from the kernel.
    pub fn physical_path(&self) -> (r: Option<&str>)
        ensures
            match r {
                Some(s) => self.raw().capabilities().phys is Some && s@ == self.raw().capabilities().phys->0@,
                None => self.raw().capabilities().phys is None,
            },
    {
        self.raw.physical_path()
    }

    /// Returns the user-defined "unique name" of the device, if one has been set.
    pub fn unique_name(&self) -> (r: Option<&str>)
        ensures
            match r {
                Some(s) => self.raw().capabilities().uniq is Some && s@ == self.raw().capabilities().uniq->0@,
                None => self.raw().capabilities().uniq is None,
            },
    {
        self.raw.unique_name()
    }

    /// Returns a struct containing bustype, vendor, product, and version identifiers
    pub fn input_id(&self) -> (r: InputId)
        ensures
            r.0 == self.raw().capabilities().id,
    {
        self.raw.input_id()
    }

    /// Returns the current auto repeat settings
    pub fn get_auto_repeat(&self) -> (r: Option<AutoRepeat>)
        ensures
            r == self.raw().capabilities().auto_repeat,
    {
        self.raw.get_auto_repeat()
    }

    /// Returns the set of supported "properties" for the device (see `INPUT_PROP_*` in kernel headers)
    pub fn properties(&self) -> (r: &AttributeSetRef<PropType>)
        ensures
            r@ == self.raw().capabilities().props@,
    {
        self.raw.properties()
    }

    /// Returns a tuple of the driver version containing major, minor, rev
    pub fn driver_version(&self) -> (r: (u8, u8, u8))
        ensures
            r == self.raw().capabilities().driver_version,
    {
        self.raw.driver_version()
    }

    /// Returns a set of the event types supported by this device (Key, Switch, etc)
    ///
    /// If you're interested in the individual keys or switches supported, it's probably easier
    /// to just call the appropriate `supported_*` function instead.
    pub fn supported_events(&self) -> (r: &AttributeSetRef<EventType>)
        ensures
            r@ == self.raw().capabilities().ty@,
    {
        self.raw.supported_events()
    }

    /// Returns the set of supported keys reported by the device.
    ///
    /// For keyboards, this is the set of all possible keycodes the keyboard may emit. Controllers,
    /// mice, and other peripherals may also report buttons as keys.
    pub fn supported_keys(&self) -> (r: Option<&AttributeSetRef<KeyCode>>)
        ensures
            opt_set_view(match r { Some(s) => Some(*s), None => None }) == opt_set_view(self.raw().capabilities().supported_keys),
    {
        self.raw.supported_keys()
    }

    /// Returns the set of supported "relative axes" reported by the device.
    ///
    /// Standard mice will generally report `REL_X` and `REL_Y` along with wheel if supported.
    pub fn supported_relative_axes(&self) -> (r: Option<&AttributeSetRef<RelativeAxisType>>)
        ensures
            opt_set_view(match r { Some(s) => Some(*s), None => None }) == opt_set_view(self.raw().capabilities().supported_relative),
    {
        self.raw.supported_relative_axes()
    }

    /// Returns the set of supported "absolute axes" reported by the device.
    ///
    /// These are most typically supported by joysticks and touchpads.
    pub fn supported_absolute_axes(&self) -> (r: Option<&AttributeSetRef<AbsoluteAxisType>>)
        ensures
            opt_set_view(match r { Some(s) => Some(*s), None => None }) == opt_set_view(self.raw().capabilities().supported_absolute),
    {
        self.raw.supported_absolute_axes()
    }

    /// Returns the set of supported switches reported by the device.
    ///
    /// These are typically used for things like software switches on laptop lids (which the
    /// system reacts to by suspending or locking), or virtual switches to indicate whether a
    /// headphone jack is plugged in (used to disable external speakers).
    pub fn supported_switches(&self) -> (r: Option<&AttributeSetRef<SwitchType>>)
        ensures
            opt_set_view(match r { Some(s) => Some(*s), None => None }) == opt_set_view(self.raw().capabilities().supported_switch),
    {
        self.raw.supported_switches()
    }

    /// Returns a set of supported LEDs on the device.
    ///
    /// Most commonly these are state indicator lights for things like Scroll Lock, but they
    /// can also be found in cameras and other devices.
    pub fn supported_leds(&self) -> (r: Option<&AttributeSetRef<LedType>>)
        ensures
            opt_set_view(match r { Some(s) => Some(*s), None => None }) == opt_set_view(self.raw().capabilities().supported_led),
    {
        self.raw.supported_leds()
    }

    /// Returns a set of supported "miscellaneous" capabilities.
    ///
    /// Aside from vendor-specific key scancodes, most of these are uncommon.
    pub fn misc_properties(&self) -> (r: Option<&AttributeSetRef<MiscType>>)
        ensures
            opt_set_view(match r { Some(s) => Some(*s), None => None }) == opt_set_view(self.raw().capabilities().supported_misc),
    {
        self.raw.misc_properties()
    }

    /// Returns the set of supported force feedback effects supported by a device.
    pub fn supported_ff(&self) -> (r: Option<&AttributeSetRef<FFEffectType>>)
        ensures
            opt_set_view(match r { Some(s) => Some(*s), None => None }) == opt_set_view(self.raw().capabilities().supported_ff),
    {
        self.raw.supported_ff()
    }

    /// Returns the set of supported simple sounds supported by a device.
    ///
    /// You can use these to make really annoying beep sounds come from an internal self-test
    /// speaker, for instance.
    pub fn supported_sounds(&self) -> (r: Option<&AttributeSetRef<SoundType>>)
        ensures
            opt_set_view(match r { Some(s) => Some(*s), None => None }) == opt_set_view(self.raw().capabilities().supported_snd),
    {
        self.raw.supported_sounds()
    }

}


impl Device {
    /// Whether the device is currently grabbed for exclusive use or not.
    pub fn is_grabbed(&self) -> (r: bool)
        ensures
            r == self.raw().spec_grabbed(),
    {
        self.raw.is_grabbed()
    }

    /// The argument of the `EVIOCGRAB` request that grabbing (`true`) or
    /// releasing (`false`) the device takes, or `None` where it is in that
    /// state already.
    pub fn grab_request(&self, grab: bool) -> (r: Option<u64>)
        ensures
            r == grab_ioctl_arg(self.raw().spec_grabbed(), grab),
    {
        self.raw.grab_request(grab)
    }

    /// Records that the device was grabbed (`true`) or released (`false`), and
    /// returns whether the kernel must be told, which is when it was not in that
    /// state already.
    pub fn set_grabbed(&mut self, grab: bool) -> (changed: bool)
        requires
            old(self).wf(),
        ensures
            final(self).wf(),
            changed == (old(self).raw().spec_grabbed() != grab),
            final(self).raw().spec_grabbed() == grab,
            final(self).raw().events() == old(self).raw().events(),
            final(self).raw().capabilities() == old(self).raw().capabilities(),
            final(self).cur() == old(self).cur(),
            final(self).prev() == old(self).prev(),
            final(self).spec_block_dropped() == old(self).spec_block_dropped(),
    {
        self.raw.set_grabbed(grab)
    }

    /// Records new auto repeat settings, after the kernel accepted them.
    pub fn set_auto_repeat(&mut self, repeat: &AutoRepeat)
        requires
            old(self).wf(),
        ensures
            final(self).wf(),
            final(self).raw().capabilities() == (crate::raw_stream::DeviceCapabilities {
                auto_repeat: Some(*repeat),
                ..old(self).raw().capabilities()
            }),
            final(self).raw().events() == old(self).raw().events(),
            final(self).raw().spec_grabbed() == old(self).raw().spec_grabbed(),
            final(self).cur() == old(self).cur(),
            final(self).prev() == old(self).prev(),
            final(self).spec_block_dropped() == old(self).spec_block_dropped(),
    {
        self.raw.set_auto_repeat(repeat)
    }
}

// ---------------------------------------------------------------------------
// Laws of the block reader.
// ---------------------------------------------------------------------------

/// Once a dropped block has moved the range to the end of the buffer, reading
/// on finds nothing and consumes nothing, however often it is asked.
pub proof fn law_sync_idle_after_drop(buf: Seq<InputEvent>)
    ensures
        ({
            let n = buf.len() as int;
            let out = sync_outcome(buf, n, n);
            &&& out.result == Err::<InputEvent, bool>(false)
            &&& out.consumed_to == None::<usize>
            &&& out.range == (n, n)
        }),
{
}

/// An event is handed out from a block only when the block is complete (a
/// `SYN_REPORT` ends it) and holds no `SYN_DROPPED`; the range then covers the
/// rest of that block, up to and including its `SYN_REPORT`.
pub proof fn law_sync_only_clean_blocks(buf: Seq<InputEvent>, e: int)
    requires
        0 <= e <= buf.len(),
    ensures
        ({
            let out = sync_outcome(buf, e, e);
            let i = next_report(buf, e);
            out.result is Ok ==> {
                &&& i < buf.len()
                &&& is_report(buf[i])
                &&& !has_dropped(buf, e, i)
                &&& out.result == Ok::<InputEvent, bool>(buf[e])
                &&& out.range == (e + 1, i + 1)
            }
        }),
{
    lemma_next_report(buf, e);
}

/// A block that holds a `SYN_DROPPED` is withheld whole: reading it asks for a
/// synchronization and consumes it up to and including its `SYN_REPORT`.
pub proof fn law_sync_dropped_block_withheld(buf: Seq<InputEvent>, e: int, j: int)
    requires
        0 <= e <= j < next_report(buf, e),
        next_report(buf, e) < buf.len(),
        is_dropped(buf[j]),
    ensures
        sync_outcome(buf, e, e).result == Err::<InputEvent, bool>(true),
        sync_outcome(buf, e, e).consumed_to == Some((next_report(buf, e) + 1) as usize),
{
    lemma_next_report(buf, e);
}


/// The results of calling [`sync_events`] again and again from range `s..e`,
/// up to and including the first error.
pub open spec fn sync_run(buf: Seq<InputEvent>, s: int, e: int) -> Seq<Result<InputEvent, bool>>
    decreases buf.len() - s,
    when 0 <= s <= e <= buf.len()
{
    let out = sync_outcome(buf, s, e);
    match out.result {
        Ok(ev) => {
            proof { lemma_next_report(buf, e); }
            seq![Ok::<InputEvent, bool>(ev)] + sync_run(buf, out.range.0, out.range.1)
        },
        Err(b) => seq![Err::<InputEvent, bool>(b)],
    }
}

/// What the reader hands out from position `e` of `buf` on: the events of each
/// complete block, up to the first block that holds a `SYN_DROPPED`; and
/// whether it stopped at such a block (rather than at the end of the buffer
/// or at a block the buffer does not hold whole).
pub open spec fn clean_prefix(buf: Seq<InputEvent>, e: int) -> (Seq<InputEvent>, bool)
    decreases buf.len() - e,
    when 0 <= e <= buf.len()
{
    let i = next_report(buf, e);
    proof { lemma_next_report(buf, e); }
    if i == buf.len() {
        (Seq::empty(), false)
    } else if has_dropped(buf, e, i) {
        (Seq::empty(), true)
    } else {
        let rest = clean_prefix(buf, i + 1);
        (buf.subrange(e, i + 1) + rest.0, rest.1)
    }
}

/// The events as results of the reader.
pub open spec fn as_results(evs: Seq<InputEvent>) -> Seq<Result<InputEvent, bool>> {
    evs.map_values(|ev: InputEvent| Ok::<InputEvent, bool>(ev))
}

proof fn lemma_run_within_block(buf: Seq<InputEvent>, s: int, e: int)
    requires
        0 <= s <= e <= buf.len(),
    ensures
        sync_run(buf, s, e) == as_results(buf.subrange(s, e)) + sync_run(buf, e, e),
    decreases e - s,
{
    if s < e {
        lemma_run_within_block(buf, s + 1, e);
        assert(as_results(buf.subrange(s, e)) =~= seq![Ok::<InputEvent, bool>(buf[s])] + as_results(buf.subrange(s + 1, e)));
        assert(sync_run(buf, s, e) =~= seq![Ok::<InputEvent, bool>(buf[s])] + sync_run(buf, s + 1, e));
    } else {
        assert(as_results(buf.subrange(s, e)) =~= Seq::<Result<InputEvent, bool>>::empty());
    }
}

/// Reading a buffer block by block, from a block boundary: the reader hands out
/// exactly the events of the complete blocks before the first block that holds
/// a `SYN_DROPPED`, in order, and then answers once with an error: `Err(true)`
/// where it stopped at such a block, `Err(false)` where the buffer ran out (a
/// block without its `SYN_REPORT` is never handed out).
pub proof fn law_sync_run(buf: Seq<InputEvent>, e: int)
    requires
        0 <= e <= buf.len(),
    ensures
        sync_run(buf, e, e) == as_results(clean_prefix(buf, e).0) + seq![Err::<InputEvent, bool>(clean_prefix(buf, e).1)],
    decreases buf.len() - e,
{
    lemma_next_report(buf, e);
    let i = next_report(buf, e);
    if i == buf.len() {
        assert(as_results(clean_prefix(buf, e).0) =~= Seq::<Result<InputEvent, bool>>::empty());
        assert(sync_run(buf, e, e) =~= seq![Err::<InputEvent, bool>(false)]);
    } else if has_dropped(buf, e, i) {
        assert(as_results(clean_prefix(buf, e).0) =~= Seq::<Result<InputEvent, bool>>::empty());
        assert(sync_run(buf, e, e) =~= seq![Err::<InputEvent, bool>(true)]);
    } else {
        law_sync_run(buf, i + 1);
        lemma_run_within_block(buf, e + 1, i + 1);
        let rest = clean_prefix(buf, i + 1);
        assert(sync_run(buf, e, e) =~= seq![Ok::<InputEvent, bool>(buf[e])] + sync_run(buf, e + 1, i + 1));
        assert(as_results(buf.subrange(e, i + 1) + rest.0) =~= seq![Ok::<InputEvent, bool>(buf[e])]
            + as_results(buf.subrange(e + 1, i + 1)) + as_results(rest.0));
        assert(sync_run(buf, e, e) =~= as_results(clean_prefix(buf, e).0) + seq![Err::<InputEvent, bool>(clean_prefix(buf, e).1)]);
    }
}

// ---------------------------------------------------------------------------
// What a description of the device shows.
// ---------------------------------------------------------------------------

impl Device {
    /// Each supported key, in increasing code order, with whether it is pressed
    /// in the cached state; `None` if the device has no keys.
    pub fn key_states(&self) -> (r: Option<Vec<(KeyCode, bool)>>)
        requires
            self.wf(),
        ensures
            r is Some == (self.raw().capabilities().supported_keys is Some),
            r is Some ==> enumerates(r->0@.map_values(|p: (KeyCode, bool)| p.0), self.supported(0)),
            r is Some ==> forall|k: int| 0 <= k < r->0@.len() ==> #[trigger] r->0@[k].1 == self.cur().keys->0.contains(r->0@[k].0.0 as nat),
    {
        match (self.raw.supported_keys(), self.state.key_vals()) {
            (Some(sup), Some(vals)) => Some(states_of(sup, vals)),
            _ => None,
        }
    }

    /// Each supported switch, in increasing code order, with whether it is on in
    /// the cached state; `None` if the device has no switches.
    pub fn switch_states(&self) -> (r: Option<Vec<(SwitchType, bool)>>)
        requires
            self.wf(),
        ensures
            r is Some == (self.raw().capabilities().supported_switch is Some),
            r is Some ==> enumerates(r->0@.map_values(|p: (SwitchType, bool)| p.0), self.supported(2)),
            r is Some ==> forall|k: int| 0 <= k < r->0@.len() ==> #[trigger] r->0@[k].1 == self.cur().switches->0.contains(r->0@[k].0.0 as nat),
    {
        match (self.raw.supported_switches(), self.state.switch_vals()) {
            (Some(sup), Some(vals)) => Some(states_of(sup, vals)),
            _ => None,
        }
    }

    /// Each supported LED, in increasing code order, with whether it is lit in
    /// the cached state; `None` if the device has no LEDs.
    pub fn led_states(&self) -> (r: Option<Vec<(LedType, bool)>>)
        requires
            self.wf(),
        ensures
            r is Some == (self.raw().capabilities().supported_led is Some),
            r is Some ==> enumerates(r->0@.map_values(|p: (LedType, bool)| p.0), self.supported(3)),
            r is Some ==> forall|k: int| 0 <= k < r->0@.len() ==> #[trigger] r->0@[k].1 == self.cur().leds->0.contains(r->0@[k].0.0 as nat),
    {
        match (self.raw.supported_leds(), self.state.led_vals()) {
            (Some(sup), Some(vals)) => Some(states_of(sup, vals)),
            _ => None,
        }
    }

    /// Each supported absolute axis, in increasing code order, with its cached
    /// information; `None` if the device has no absolute axes.
    pub fn abs_states(&self) -> (r: Option<Vec<(AbsoluteAxisType, crate::event::AbsInfo)>>)
        requires
            self.wf(),
        ensures
            r is Some == (self.raw().capabilities().supported_absolute is Some),
            r is Some ==> enumerates(r->0@.map_values(|p: (AbsoluteAxisType, crate::event::AbsInfo)| p.0), self.supported(1)),
            r is Some ==> forall|k: int| 0 <= k < r->0@.len() ==> #[trigger] r->0@[k].1 == crate::event::AbsInfo(self.cur().abs->0[r->0@[k].0.0 as int]),
    {
        match (self.raw.supported_absolute_axes(), self.state.abs_vals()) {
            (Some(sup), Some(vals)) => Some(crate::raw_stream::absinfo_of_axes(Some(sup), vals)),
            _ => None,
        }
    }
}

} // verus!
