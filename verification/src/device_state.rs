use crate::attribute_set::{AttributeSet, AttributeSetRef, EvdevEnum};
use crate::compat::{input_absinfo, timeval, ABS_CNT};
use crate::constants::{AbsoluteAxisType, EventType, LedType, SwitchType};
use crate::event::InputEvent;
use crate::scancodes::KeyCode;
use vstd::prelude::*;

verus! {

/// What a [`DeviceState`] holds, as mathematical values.
pub struct DeviceStateView {
    pub time: timeval,
    /// The codes of the keys pressed; `None` if the device has no keys.
    pub keys: Option<Set<nat>>,
    /// The state of every absolute axis; `None` if the device has none.
    pub abs: Option<Seq<input_absinfo>>,
    /// The codes of the switches that are on; `None` if the device has none.
    pub switches: Option<Set<nat>>,
    /// The codes of the LEDs that are lit; `None` if the device has none.
    pub leds: Option<Set<nat>>,
}

/// The key and absolute axis codes an attribute set of each can hold.
pub open spec fn key_capacity() -> nat {
    AttributeSet::<KeyCode>::capacity()
}

impl DeviceStateView {
    /// `ev` can be recorded: a key event needs key state and a code in range,
    /// an absolute axis event needs axis state and a code in range.
    pub open spec fn accepts(self, ev: InputEvent) -> bool {
        &&& ev.0.type_ == EventType::KEY ==> self.keys is Some && (ev.0.code as nat) < key_capacity()
        &&& ev.0.type_ == EventType::ABSOLUTE ==> self.abs is Some && (ev.0.code as nat) < self.abs->0.len()
    }

    /// The state after recording `ev`: a key event presses (value other than 0)
    /// or releases its key, an absolute axis event sets the value of its axis;
    /// any other event leaves the state as it is.
    pub open spec fn apply(self, ev: InputEvent) -> DeviceStateView {
        if ev.0.type_ == EventType::KEY {
            let keys = self.keys->0;
            let code = ev.0.code as nat;
            DeviceStateView {
                keys: Some(if ev.0.value != 0 { keys.insert(code) } else { keys.remove(code) }),
                ..self
            }
        } else if ev.0.type_ == EventType::ABSOLUTE {
            let axes = self.abs->0;
            let i = ev.0.code as int;
            DeviceStateView {
                abs: Some(axes.update(i, input_absinfo { value: ev.0.value, ..axes[i] })),
                ..self
            }
        } else {
            self
        }
    }

    /// The same kinds of state are present, with axis state of the same size.
    pub open spec fn same_shape(self, other: DeviceStateView) -> bool {
        &&& self.keys is Some == other.keys is Some
        &&& self.abs is Some == other.abs is Some
        &&& (self.abs is Some ==> self.abs->0.len() == other.abs->0.len())
        &&& self.switches is Some == other.switches is Some
        &&& self.leds is Some == other.leds is Some
    }
}

/// The state after recording each of `evs` in turn.
pub open spec fn apply_events(st: DeviceStateView, evs: Seq<InputEvent>) -> DeviceStateView
    decreases evs.len(),
{
    if evs.len() == 0 {
        st
    } else {
        apply_events(st, evs.drop_last()).apply(evs.last())
    }
}

/// Recording an event keeps the kinds of state present and what they accept.
pub proof fn lemma_apply_same_shape(st: DeviceStateView, ev: InputEvent)
    requires
        st.accepts(ev),
    ensures
        st.apply(ev).same_shape(st),
        forall|e: InputEvent| st.apply(ev).accepts(e) == st.accepts(e),
{
}

/// Recording events one by one keeps the kinds of state present and what they accept.
pub proof fn lemma_apply_events_same_shape(st: DeviceStateView, evs: Seq<InputEvent>)
    requires
        forall|i: int| 0 <= i < evs.len() ==> st.accepts(#[trigger] evs[i]),
    ensures
        apply_events(st, evs).same_shape(st),
        forall|e: InputEvent| apply_events(st, evs).accepts(e) == st.accepts(e),
    decreases evs.len(),
{
    if evs.len() > 0 {
        let init = evs.drop_last();
        assert forall|i: int| 0 <= i < init.len() implies st.accepts(#[trigger] init[i]) by {
            assert(init[i] == evs[i]);
        }
        lemma_apply_events_same_shape(st, init);
        assert(st.accepts(evs[evs.len() - 1]));
        lemma_apply_same_shape(apply_events(st, init), evs.last());
    }
}

/// Recording a key event leaves its key pressed exactly when the event's value
/// is not 0 and every other key as it was; recording an absolute axis event
/// gives its axis the event's value and keeps the axis's other settings and
/// every other axis; the switches and LEDs are not touched, and an event of
/// any other type changes nothing.
pub proof fn law_recording_an_event(st: DeviceStateView, ev: InputEvent)
    requires
        st.accepts(ev),
    ensures
        ev.0.type_ == EventType::KEY ==> {
            &&& st.apply(ev).keys->0.contains(ev.0.code as nat) == (ev.0.value != 0)
            &&& forall|k: nat| k != ev.0.code ==> (#[trigger] st.apply(ev).keys->0.contains(k)) == st.keys->0.contains(k)
        },
        ev.0.type_ == EventType::ABSOLUTE ==> {
            let i = ev.0.code as int;
            &&& st.apply(ev).abs->0.len() == st.abs->0.len()
            &&& st.apply(ev).abs->0[i].value == ev.0.value
            &&& st.apply(ev).abs->0[i].minimum == st.abs->0[i].minimum
            &&& st.apply(ev).abs->0[i].maximum == st.abs->0[i].maximum
            &&& st.apply(ev).abs->0[i].fuzz == st.abs->0[i].fuzz
            &&& st.apply(ev).abs->0[i].flat == st.abs->0[i].flat
            &&& st.apply(ev).abs->0[i].resolution == st.abs->0[i].resolution
            &&& forall|j: int| 0 <= j < st.abs->0.len() && j != i ==> #[trigger] st.apply(ev).abs->0[j] == st.abs->0[j]
        },
        st.apply(ev).switches == st.switches,
        st.apply(ev).leds == st.leds,
        st.apply(ev).time == st.time,
        ev.0.type_ != EventType::KEY && ev.0.type_ != EventType::ABSOLUTE ==> st.apply(ev) == st,
{
}

/// A cached representation of device state at a certain time.
#[derive(Debug)]
pub struct DeviceState {
    /// The state corresponds to kernel state at this timestamp.
    pub(crate) timestamp: timeval,
    /// Set = key pressed
    pub(crate) key_vals: Option<AttributeSet<KeyCode>>,
    pub(crate) abs_vals: Option<Vec<input_absinfo>>,
    /// Set = switch enabled (closed)
    pub(crate) switch_vals: Option<AttributeSet<SwitchType>>,
    /// Set = LED lit
    pub(crate) led_vals: Option<AttributeSet<LedType>>,
}

pub open spec fn opt_set_view<T: crate::attribute_set::ArrayedEvdevEnum>(o: Option<AttributeSet<T>>) -> Option<Set<nat>> {
    match o {
        Some(s) => Some(s@),
        None => None,
    }
}

impl View for DeviceState {
    type V = DeviceStateView;

    closed spec fn view(&self) -> DeviceStateView {
        DeviceStateView {
            time: self.timestamp,
            keys: opt_set_view(self.key_vals),
            abs: match self.abs_vals {
                Some(v) => Some(v@),
                None => None,
            },
            switches: opt_set_view(self.switch_vals),
            leds: opt_set_view(self.led_vals),
        }
    }
}

/// The state of every absolute axis before any was read: all zero.
pub open spec fn zero_absinfo() -> input_absinfo {
    input_absinfo { value: 0, minimum: 0, maximum: 0, fuzz: 0, flat: 0, resolution: 0 }
}

impl DeviceState {
    /// Absolute axis state, where present, covers every axis code.
    pub open spec fn wf(&self) -> bool {
        self@.abs is Some ==> self@.abs->0.len() == ABS_CNT
    }

    /// A state with nothing pressed, lit or switched on and every axis at zero,
    /// holding each kind of state the flags ask for.
    pub fn empty(time: timeval, keys: bool, abs: bool, switches: bool, leds: bool) -> (r: DeviceState)
        ensures
            r.wf(),
            r@.time == time,
            r@.keys == (if keys { Some(Set::<nat>::empty()) } else { None }),
            r@.abs == (if abs { Some(Seq::new(ABS_CNT as nat, |i: int| zero_absinfo())) } else { None }),
            r@.switches == (if switches { Some(Set::<nat>::empty()) } else { None }),
            r@.leds == (if leds { Some(Set::<nat>::empty()) } else { None }),
    {
        let key_vals = if keys { Some(AttributeSet::new()) } else { None };
        let abs_vals = if abs {
            let mut v: Vec<input_absinfo> = Vec::new();
            let mut i: usize = 0;
            while i < ABS_CNT
                invariant
                    i <= ABS_CNT,
                    v@ == Seq::new(i as nat, |j: int| zero_absinfo()),
                decreases ABS_CNT - i,
            {
                v.push(input_absinfo { value: 0, minimum: 0, maximum: 0, fuzz: 0, flat: 0, resolution: 0 });
                i += 1;
                assert(v@ =~= Seq::new(i as nat, |j: int| zero_absinfo()));
            }
            Some(v)
        } else {
            None
        };
        let switch_vals = if switches { Some(AttributeSet::new()) } else { None };
        let led_vals = if leds { Some(AttributeSet::new()) } else { None };
        DeviceState { timestamp: time, key_vals, abs_vals, switch_vals, led_vals }
    }

    /// A state made of the given parts; absolute axis state, where present,
    /// covers every axis code.
    pub fn from_parts(
        time: timeval,
        keys: Option<AttributeSet<KeyCode>>,
        abs: Option<Vec<input_absinfo>>,
        switches: Option<AttributeSet<SwitchType>>,
        leds: Option<AttributeSet<LedType>>,
    ) -> (r: DeviceState)
        requires
            abs is Some ==> abs->0@.len() == ABS_CNT,
        ensures
            r.wf(),
            r@.time == time,
            r@.keys == opt_set_view(keys),
            r@.abs == (match abs { Some(v) => Some(v@), None => None }),
            r@.switches == opt_set_view(switches),
            r@.leds == opt_set_view(leds),
    {
        DeviceState { timestamp: time, key_vals: keys, abs_vals: abs, switch_vals: switches, led_vals: leds }
    }

    /// The same state, stamped with `time`.
    pub fn with_time(self, time: timeval) -> (r: DeviceState)
        ensures
            r@ == (DeviceStateView { time, ..self@ }),
            r.wf() == self.wf(),
    {
        DeviceState { timestamp: time, ..self }
    }

    /// Whether `ev` can be recorded in this state.
    pub fn accepts(&self, ev: &InputEvent) -> (r: bool)
        ensures
            r == self@.accepts(*ev),
    {
        let t = ev.event_type().0;
        if t == EventType::KEY {
            self.key_vals.is_some() && (ev.code() as usize) < 0x300
        } else if t == EventType::ABSOLUTE {
            match &self.abs_vals {
                Some(v) => (ev.code() as usize) < v.len(),
                None => false,
            }
        } else {
            true
        }
    }

    /// Returns the time when this snapshot was taken.
    pub fn time(&self) -> (r: timeval)
        ensures
            r == self@.time,
    {
        self.timestamp
    }

    /// Returns the set of keys pressed when the snapshot was taken.
    ///
    /// Returns `None` if keys are not supported by this device.
    pub fn key_vals(&self) -> (r: Option<&AttributeSetRef<KeyCode>>)
        ensures
            self@.keys == opt_set_view(match r { Some(s) => Some(*s), None => None }),
    {
        self.key_vals.as_ref()
    }

    /// Returns the set of absolute axis measurements when the snapshot was taken.
    ///
    /// Returns `None` if not supported by this device.
    pub fn abs_vals(&self) -> (r: Option<&[input_absinfo]>)
        ensures
            match r {
                Some(s) => self@.abs == Some(s@),
                None => self@.abs is None,
            },
    {
        match &self.abs_vals {
            Some(v) => Some(v.as_slice()),
            None => None,
        }
    }

    /// Returns the set of switches triggered when the snapshot was taken.
    ///
    /// Returns `None` if switches are not supported by this device.
    pub fn switch_vals(&self) -> (r: Option<&AttributeSetRef<SwitchType>>)
        ensures
            self@.switches == opt_set_view(match r { Some(s) => Some(*s), None => None }),
    {
        self.switch_vals.as_ref()
    }

    /// Returns the set of LEDs turned on when the snapshot was taken.
    ///
    /// Returns `None` if LEDs are not supported by this device.
    pub fn led_vals(&self) -> (r: Option<&AttributeSetRef<LedType>>)
        ensures
            self@.leds == opt_set_view(match r { Some(s) => Some(*s), None => None }),
    {
        self.led_vals.as_ref()
    }

    /// Records the effect of `ev` on the state: key events press or release
    /// their key, absolute axis events set the value of their axis.
    pub fn process_event(&mut self, ev: InputEvent)
        requires
            old(self).wf(),
            old(self)@.accepts(ev),
        ensures
            final(self).wf(),
            final(self)@ == old(self)@.apply(ev),
    {
        let t = ev.event_type().0;
        if t == EventType::KEY {
            match &mut self.key_vals {
                Some(keys) => keys.set(KeyCode(ev.code()), ev.value() != 0),
                None => {},
            }
        } else if t == EventType::ABSOLUTE {
            match &mut self.abs_vals {
                Some(axes) => {
                    let i = ev.code() as usize;
                    let info = axes[i];
                    axes.set(i, input_absinfo { value: ev.value(), ..info });
                },
                None => {},
            }
        }
    }
}

impl Clone for DeviceState {
    fn clone(&self) -> (r: Self)
        ensures
            r@ == self@,
    {
        let key_vals = match &self.key_vals {
            Some(k) => Some(k.clone()),
            None => None,
        };
        let abs_vals = match &self.abs_vals {
            Some(a) => Some(a.clone()),
            None => None,
        };
        let switch_vals = match &self.switch_vals {
            Some(s) => Some(s.clone()),
            None => None,
        };
        let led_vals = match &self.led_vals {
            Some(l) => Some(l.clone()),
            None => None,
        };
        DeviceState { timestamp: self.timestamp, key_vals, abs_vals, switch_vals, led_vals }
    }
}

} // verus!
