//! The event_variants module contains new-type wrappers around [`InputEvent`]
//! for each known [`EventType`].
//!
//! These event variants guarantee that the underlying `InputEvent` has the
//! corresponding type. They may also contain additional methods for the
//! specific type and convenient shortcut methods for event creation.
//! An `InputEvent` can be converted to the corresponding event variant with
//! the [`InputEvent::destructure()`] method. Each event variant implements
//! `Into<InputEvent>` for easy back conversion.

use crate::constants::{
    AbsoluteAxisType, EventType, FFEffectType, FFStatus, LedType, MiscType, OtherCode, PowerCode,
    RelativeAxisType, RepeatCode, SoundType, SwitchType, Synchronization, UInputEventType,
};
use crate::event::{spec_new_event, InputEvent};
use crate::scancodes::KeyCode;
use vstd::prelude::*;

verus! {

/// A bookkeeping event. Usually not important to applications.
/// An [`InputEvent`] whose type is always [`EventType::SYNCHRONIZATION`].
#[derive(Copy, Clone, Eq, PartialEq, Structural, Hash, Debug)]
pub struct SynchronizationEvent(InputEvent);

impl SynchronizationEvent {
    #[verifier::type_invariant]
    spec fn has_type(self) -> bool {
        self.0.0.type_ == EventType::SYNCHRONIZATION
    }

    /// The wrapped event.
    pub closed spec fn spec_event(self) -> InputEvent {
        self.0
    }

    /// Creates an event of this type with the given code and value, and a zero time.
    pub fn new(code: Synchronization, value: i32) -> (r: Self)
        ensures
            r.spec_event() == spec_new_event(EventType::SYNCHRONIZATION, code.0, value),
    {
        SynchronizationEvent(InputEvent::new(EventType::SYNCHRONIZATION, code.0, value))
    }

    /// The code and the value of the event.
    pub fn destructure(&self) -> (r: (Synchronization, i32))
        ensures
            r.0.0 == self.spec_event().0.code,
            r.1 == self.spec_event().0.value,
    {
        (self.code(), self.0.value())
    }

    /// The code of the event.
    pub fn code(&self) -> (r: Synchronization)
        ensures
            r.0 == self.spec_event().0.code,
    {
        Synchronization(self.0.code())
    }

    /// Wraps an event of this type.
    pub(crate) fn from_event(event: InputEvent) -> (r: Self)
        requires
            event.0.type_ == EventType::SYNCHRONIZATION,
        ensures
            r.spec_event() == event,
    {
        SynchronizationEvent(event)
    }

    /// The wrapped event; its type is [`EventType::SYNCHRONIZATION`].
    pub fn event(&self) -> (r: InputEvent)
        ensures
            r == self.spec_event(),
            r.0.type_ == EventType::SYNCHRONIZATION,
    {
        proof { use_type_invariant(self); }
        self.0
    }
}

impl From<SynchronizationEvent> for InputEvent {
    fn from(event: SynchronizationEvent) -> (r: Self)
        ensures
            r == event.spec_event(),
            r.0.type_ == EventType::SYNCHRONIZATION,
    {
        proof { use_type_invariant(&event); }
        event.0
    }
}

impl vstd::std_specs::convert::FromSpecImpl<SynchronizationEvent> for InputEvent {
    open spec fn obeys_from_spec() -> bool {
        true
    }

    open spec fn from_spec(event: SynchronizationEvent) -> InputEvent {
        event.spec_event()
    }
}

impl From<SynchronizationEvent> for EventSummary {
    fn from(event: SynchronizationEvent) -> (r: Self)
        ensures
            r == EventSummary::Synchronization(event, Synchronization(event.spec_event().0.code), event.spec_event().0.value),
    {
        let (kind, value) = event.destructure();
        EventSummary::Synchronization(event, kind, value)
    }
}

impl vstd::std_specs::convert::FromSpecImpl<SynchronizationEvent> for EventSummary {
    open spec fn obeys_from_spec() -> bool {
        true
    }

    open spec fn from_spec(event: SynchronizationEvent) -> EventSummary {
        EventSummary::Synchronization(event, Synchronization(event.spec_event().0.code), event.spec_event().0.value)
    }
}

/// An [`InputEvent`] whose type is always [`EventType::KEY`].
#[derive(Copy, Clone, Eq, PartialEq, Structural, Hash, Debug)]
pub struct KeyEvent(InputEvent);

impl KeyEvent {
    #[verifier::type_invariant]
    spec fn has_type(self) -> bool {
        self.0.0.type_ == EventType::KEY
    }

    /// The wrapped event.
    pub closed spec fn spec_event(self) -> InputEvent {
        self.0
    }

    /// Creates an event of this type with the given code and value, and a zero time.
    pub fn new(code: KeyCode, value: i32) -> (r: Self)
        ensures
            r.spec_event() == spec_new_event(EventType::KEY, code.0, value),
    {
        KeyEvent(InputEvent::new(EventType::KEY, code.0, value))
    }

    /// The code and the value of the event.
    pub fn destructure(&self) -> (r: (KeyCode, i32))
        ensures
            r.0.0 == self.spec_event().0.code,
            r.1 == self.spec_event().0.value,
    {
        (self.code(), self.0.value())
    }

    /// The code of the event.
    pub fn code(&self) -> (r: KeyCode)
        ensures
            r.0 == self.spec_event().0.code,
    {
        KeyCode(self.0.code())
    }

    /// Wraps an event of this type.
    pub(crate) fn from_event(event: InputEvent) -> (r: Self)
        requires
            event.0.type_ == EventType::KEY,
        ensures
            r.spec_event() == event,
    {
        KeyEvent(event)
    }

    /// The wrapped event; its type is [`EventType::KEY`].
    pub fn event(&self) -> (r: InputEvent)
        ensures
            r == self.spec_event(),
            r.0.type_ == EventType::KEY,
    {
        proof { use_type_invariant(self); }
        self.0
    }
}

impl From<KeyEvent> for InputEvent {
    fn from(event: KeyEvent) -> (r: Self)
        ensures
            r == event.spec_event(),
            r.0.type_ == EventType::KEY,
    {
        proof { use_type_invariant(&event); }
        event.0
    }
}

impl vstd::std_specs::convert::FromSpecImpl<KeyEvent> for InputEvent {
    open spec fn obeys_from_spec() -> bool {
        true
    }

    open spec fn from_spec(event: KeyEvent) -> InputEvent {
        event.spec_event()
    }
}

impl From<KeyEvent> for EventSummary {
    fn from(event: KeyEvent) -> (r: Self)
        ensures
            r == EventSummary::Key(event, KeyCode(event.spec_event().0.code), event.spec_event().0.value),
    {
        let (kind, value) = event.destructure();
        EventSummary::Key(event, kind, value)
    }
}

impl vstd::std_specs::convert::FromSpecImpl<KeyEvent> for EventSummary {
    open spec fn obeys_from_spec() -> bool {
        true
    }

    open spec fn from_spec(event: KeyEvent) -> EventSummary {
        EventSummary::Key(event, KeyCode(event.spec_event().0.code), event.spec_event().0.value)
    }
}

/// An [`InputEvent`] whose type is always [`EventType::RELATIVE`].
#[derive(Copy, Clone, Eq, PartialEq, Structural, Hash, Debug)]
pub struct RelativeAxisEvent(InputEvent);

impl RelativeAxisEvent {
    #[verifier::type_invariant]
    spec fn has_type(self) -> bool {
        self.0.0.type_ == EventType::RELATIVE
    }

    /// The wrapped event.
    pub closed spec fn spec_event(self) -> InputEvent {
        self.0
    }

    /// Creates an event of this type with the given code and value, and a zero time.
    pub fn new(code: RelativeAxisType, value: i32) -> (r: Self)
        ensures
            r.spec_event() == spec_new_event(EventType::RELATIVE, code.0, value),
    {
        RelativeAxisEvent(InputEvent::new(EventType::RELATIVE, code.0, value))
    }

    /// The code and the value of the event.
    pub fn destructure(&self) -> (r: (RelativeAxisType, i32))
        ensures
            r.0.0 == self.spec_event().0.code,
            r.1 == self.spec_event().0.value,
    {
        (self.code(), self.0.value())
    }

    /// The code of the event.
    pub fn code(&self) -> (r: RelativeAxisType)
        ensures
            r.0 == self.spec_event().0.code,
    {
        RelativeAxisType(self.0.code())
    }

    /// Wraps an event of this type.
    pub(crate) fn from_event(event: InputEvent) -> (r: Self)
        requires
            event.0.type_ == EventType::RELATIVE,
        ensures
            r.spec_event() == event,
    {
        RelativeAxisEvent(event)
    }

    /// The wrapped event; its type is [`EventType::RELATIVE`].
    pub fn event(&self) -> (r: InputEvent)
        ensures
            r == self.spec_event(),
            r.0.type_ == EventType::RELATIVE,
    {
        proof { use_type_invariant(self); }
        self.0
    }
}

impl From<RelativeAxisEvent> for InputEvent {
    fn from(event: RelativeAxisEvent) -> (r: Self)
        ensures
            r == event.spec_event(),
            r.0.type_ == EventType::RELATIVE,
    {
        proof { use_type_invariant(&event); }
        event.0
    }
}

impl vstd::std_specs::convert::FromSpecImpl<RelativeAxisEvent> for InputEvent {
    open spec fn obeys_from_spec() -> bool {
        true
    }

    open spec fn from_spec(event: RelativeAxisEvent) -> InputEvent {
        event.spec_event()
    }
}

impl From<RelativeAxisEvent> for EventSummary {
    fn from(event: RelativeAxisEvent) -> (r: Self)
        ensures
            r == EventSummary::RelativeAxis(event, RelativeAxisType(event.spec_event().0.code), event.spec_event().0.value),
    {
        let (kind, value) = event.destructure();
        EventSummary::RelativeAxis(event, kind, value)
    }
}

impl vstd::std_specs::convert::FromSpecImpl<RelativeAxisEvent> for EventSummary {
    open spec fn obeys_from_spec() -> bool {
        true
    }

    open spec fn from_spec(event: RelativeAxisEvent) -> EventSummary {
        EventSummary::RelativeAxis(event, RelativeAxisType(event.spec_event().0.code), event.spec_event().0.value)
    }
}

/// An [`InputEvent`] whose type is always [`EventType::ABSOLUTE`].
#[derive(Copy, Clone, Eq, PartialEq, Structural, Hash, Debug)]
pub struct AbsoluteAxisEvent(InputEvent);

impl AbsoluteAxisEvent {
    #[verifier::type_invariant]
    spec fn has_type(self) -> bool {
        self.0.0.type_ == EventType::ABSOLUTE
    }

    /// The wrapped event.
    pub closed spec fn spec_event(self) -> InputEvent {
        self.0
    }

    /// Creates an event of this type with the given code and value, and a zero time.
    pub fn new(code: AbsoluteAxisType, value: i32) -> (r: Self)
        ensures
            r.spec_event() == spec_new_event(EventType::ABSOLUTE, code.0, value),
    {
        AbsoluteAxisEvent(InputEvent::new(EventType::ABSOLUTE, code.0, value))
    }

    /// The code and the value of the event.
    pub fn destructure(&self) -> (r: (AbsoluteAxisType, i32))
        ensures
            r.0.0 == self.spec_event().0.code,
            r.1 == self.spec_event().0.value,
    {
        (self.code(), self.0.value())
    }

    /// The code of the event.
    pub fn code(&self) -> (r: AbsoluteAxisType)
        ensures
            r.0 == self.spec_event().0.code,
    {
        AbsoluteAxisType(self.0.code())
    }

    /// Wraps an event of this type.
    pub(crate) fn from_event(event: InputEvent) -> (r: Self)
        requires
            event.0.type_ == EventType::ABSOLUTE,
        ensures
            r.spec_event() == event,
    {
        AbsoluteAxisEvent(event)
    }

    /// The wrapped event; its type is [`EventType::ABSOLUTE`].
    pub fn event(&self) -> (r: InputEvent)
        ensures
            r == self.spec_event(),
            r.0.type_ == EventType::ABSOLUTE,
    {
        proof { use_type_invariant(self); }
        self.0
    }
}

impl From<AbsoluteAxisEvent> for InputEvent {
    fn from(event: AbsoluteAxisEvent) -> (r: Self)
        ensures
            r == event.spec_event(),
            r.0.type_ == EventType::ABSOLUTE,
    {
        proof { use_type_invariant(&event); }
        event.0
    }
}

impl vstd::std_specs::convert::FromSpecImpl<AbsoluteAxisEvent> for InputEvent {
    open spec fn obeys_from_spec() -> bool {
        true
    }

    open spec fn from_spec(event: AbsoluteAxisEvent) -> InputEvent {
        event.spec_event()
    }
}

impl From<AbsoluteAxisEvent> for EventSummary {
    fn from(event: AbsoluteAxisEvent) -> (r: Self)
        ensures
            r == EventSummary::AbsoluteAxis(event, AbsoluteAxisType(event.spec_event().0.code), event.spec_event().0.value),
    {
        let (kind, value) = event.destructure();
        EventSummary::AbsoluteAxis(event, kind, value)
    }
}

impl vstd::std_specs::convert::FromSpecImpl<AbsoluteAxisEvent> for EventSummary {
    open spec fn obeys_from_spec() -> bool {
        true
    }

    open spec fn from_spec(event: AbsoluteAxisEvent) -> EventSummary {
        EventSummary::AbsoluteAxis(event, AbsoluteAxisType(event.spec_event().0.code), event.spec_event().0.value)
    }
}

/// An [`InputEvent`] whose type is always [`EventType::MISC`].
#[derive(Copy, Clone, Eq, PartialEq, Structural, Hash, Debug)]
pub struct MiscEvent(InputEvent);

impl MiscEvent {
    #[verifier::type_invariant]
    spec fn has_type(self) -> bool {
        self.0.0.type_ == EventType::MISC
    }

    /// The wrapped event.
    pub closed spec fn spec_event(self) -> InputEvent {
        self.0
    }

    /// Creates an event of this type with the given code and value, and a zero time.
    pub fn new(code: MiscType, value: i32) -> (r: Self)
        ensures
            r.spec_event() == spec_new_event(EventType::MISC, code.0, value),
    {
        MiscEvent(InputEvent::new(EventType::MISC, code.0, value))
    }

    /// The code and the value of the event.
    pub fn destructure(&self) -> (r: (MiscType, i32))
        ensures
            r.0.0 == self.spec_event().0.code,
            r.1 == self.spec_event().0.value,
    {
        (self.code(), self.0.value())
    }

    /// The code of the event.
    pub fn code(&self) -> (r: MiscType)
        ensures
            r.0 == self.spec_event().0.code,
    {
        MiscType(self.0.code())
    }

    /// Wraps an event of this type.
    pub(crate) fn from_event(event: InputEvent) -> (r: Self)
        requires
            event.0.type_ == EventType::MISC,
        ensures
            r.spec_event() == event,
    {
        MiscEvent(event)
    }

    /// The wrapped event; its type is [`EventType::MISC`].
    pub fn event(&self) -> (r: InputEvent)
        ensures
            r == self.spec_event(),
            r.0.type_ == EventType::MISC,
    {
        proof { use_type_invariant(self); }
        self.0
    }
}

impl From<MiscEvent> for InputEvent {
    fn from(event: MiscEvent) -> (r: Self)
        ensures
            r == event.spec_event(),
            r.0.type_ == EventType::MISC,
    {
        proof { use_type_invariant(&event); }
        event.0
    }
}

impl vstd::std_specs::convert::FromSpecImpl<MiscEvent> for InputEvent {
    open spec fn obeys_from_spec() -> bool {
        true
    }

    open spec fn from_spec(event: MiscEvent) -> InputEvent {
        event.spec_event()
    }
}

impl From<MiscEvent> for EventSummary {
    fn from(event: MiscEvent) -> (r: Self)
        ensures
            r == EventSummary::Misc(event, MiscType(event.spec_event().0.code), event.spec_event().0.value),
    {
        let (kind, value) = event.destructure();
        EventSummary::Misc(event, kind, value)
    }
}

impl vstd::std_specs::convert::FromSpecImpl<MiscEvent> for EventSummary {
    open spec fn obeys_from_spec() -> bool {
        true
    }

    open spec fn from_spec(event: MiscEvent) -> EventSummary {
        EventSummary::Misc(event, MiscType(event.spec_event().0.code), event.spec_event().0.value)
    }
}

/// An [`InputEvent`] whose type is always [`EventType::SWITCH`].
#[derive(Copy, Clone, Eq, PartialEq, Structural, Hash, Debug)]
pub struct SwitchEvent(InputEvent);

impl SwitchEvent {
    #[verifier::type_invariant]
    spec fn has_type(self) -> bool {
        self.0.0.type_ == EventType::SWITCH
    }

    /// The wrapped event.
    pub closed spec fn spec_event(self) -> InputEvent {
        self.0
    }

    /// Creates an event of this type with the given code and value, and a zero time.
    pub fn new(code: SwitchType, value: i32) -> (r: Self)
        ensures
            r.spec_event() == spec_new_event(EventType::SWITCH, code.0, value),
    {
        SwitchEvent(InputEvent::new(EventType::SWITCH, code.0, value))
    }

    /// The code and the value of the event.
    pub fn destructure(&self) -> (r: (SwitchType, i32))
        ensures
            r.0.0 == self.spec_event().0.code,
            r.1 == self.spec_event().0.value,
    {
        (self.code(), self.0.value())
    }

    /// The code of the event.
    pub fn code(&self) -> (r: SwitchType)
        ensures
            r.0 == self.spec_event().0.code,
    {
        SwitchType(self.0.code())
    }

    /// Wraps an event of this type.
    pub(crate) fn from_event(event: InputEvent) -> (r: Self)
        requires
            event.0.type_ == EventType::SWITCH,
        ensures
            r.spec_event() == event,
    {
        SwitchEvent(event)
    }

    /// The wrapped event; its type is [`EventType::SWITCH`].
    pub fn event(&self) -> (r: InputEvent)
        ensures
            r == self.spec_event(),
            r.0.type_ == EventType::SWITCH,
    {
        proof { use_type_invariant(self); }
        self.0
    }
}

impl From<SwitchEvent> for InputEvent {
    fn from(event: SwitchEvent) -> (r: Self)
        ensures
            r == event.spec_event(),
            r.0.type_ == EventType::SWITCH,
    {
        proof { use_type_invariant(&event); }
        event.0
    }
}

impl vstd::std_specs::convert::FromSpecImpl<SwitchEvent> for InputEvent {
    open spec fn obeys_from_spec() -> bool {
        true
    }

    open spec fn from_spec(event: SwitchEvent) -> InputEvent {
        event.spec_event()
    }
}

impl From<SwitchEvent> for EventSummary {
    fn from(event: SwitchEvent) -> (r: Self)
        ensures
            r == EventSummary::Switch(event, SwitchType(event.spec_event().0.code), event.spec_event().0.value),
    {
        let (kind, value) = event.destructure();
        EventSummary::Switch(event, kind, value)
    }
}

impl vstd::std_specs::convert::FromSpecImpl<SwitchEvent> for EventSummary {
    open spec fn obeys_from_spec() -> bool {
        true
    }

    open spec fn from_spec(event: SwitchEvent) -> EventSummary {
        EventSummary::Switch(event, SwitchType(event.spec_event().0.code), event.spec_event().0.value)
    }
}

/// An [`InputEvent`] whose type is always [`EventType::LED`].
#[derive(Copy, Clone, Eq, PartialEq, Structural, Hash, Debug)]
pub struct LedEvent(InputEvent);

impl LedEvent {
    #[verifier::type_invariant]
    spec fn has_type(self) -> bool {
        self.0.0.type_ == EventType::LED
    }

    /// The wrapped event.
    pub closed spec fn spec_event(self) -> InputEvent {
        self.0
    }

    /// Creates an event of this type with the given code and value, and a zero time.
    pub fn new(code: LedType, value: i32) -> (r: Self)
        ensures
            r.spec_event() == spec_new_event(EventType::LED, code.0, value),
    {
        LedEvent(InputEvent::new(EventType::LED, code.0, value))
    }

    /// The code and the value of the event.
    pub fn destructure(&self) -> (r: (LedType, i32))
        ensures
            r.0.0 == self.spec_event().0.code,
            r.1 == self.spec_event().0.value,
    {
        (self.code(), self.0.value())
    }

    /// The code of the event.
    pub fn code(&self) -> (r: LedType)
        ensures
            r.0 == self.spec_event().0.code,
    {
        LedType(self.0.code())
    }

    /// Wraps an event of this type.
    pub(crate) fn from_event(event: InputEvent) -> (r: Self)
        requires
            event.0.type_ == EventType::LED,
        ensures
            r.spec_event() == event,
    {
        LedEvent(event)
    }

    /// The wrapped event; its type is [`EventType::LED`].
    pub fn event(&self) -> (r: InputEvent)
        ensures
            r == self.spec_event(),
            r.0.type_ == EventType::LED,
    {
        proof { use_type_invariant(self); }
        self.0
    }
}

impl From<LedEvent> for InputEvent {
    fn from(event: LedEvent) -> (r: Self)
        ensures
            r == event.spec_event(),
            r.0.type_ == EventType::LED,
    {
        proof { use_type_invariant(&event); }
        event.0
    }
}

impl vstd::std_specs::convert::FromSpecImpl<LedEvent> for InputEvent {
    open spec fn obeys_from_spec() -> bool {
        true
    }

    open spec fn from_spec(event: LedEvent) -> InputEvent {
        event.spec_event()
    }
}

impl From<LedEvent> for EventSummary {
    fn from(event: LedEvent) -> (r: Self)
        ensures
            r == EventSummary::Led(event, LedType(event.spec_event().0.code), event.spec_event().0.value),
    {
        let (kind, value) = event.destructure();
        EventSummary::Led(event, kind, value)
    }
}

impl vstd::std_specs::convert::FromSpecImpl<LedEvent> for EventSummary {
    open spec fn obeys_from_spec() -> bool {
        true
    }

    open spec fn from_spec(event: LedEvent) -> EventSummary {
        EventSummary::Led(event, LedType(event.spec_event().0.code), event.spec_event().0.value)
    }
}

/// An [`InputEvent`] whose type is always [`EventType::SOUND`].
#[derive(Copy, Clone, Eq, PartialEq, Structural, Hash, Debug)]
pub struct SoundEvent(InputEvent);

impl SoundEvent {
    #[verifier::type_invariant]
    spec fn has_type(self) -> bool {
        self.0.0.type_ == EventType::SOUND
    }

    /// The wrapped event.
    pub closed spec fn spec_event(self) -> InputEvent {
        self.0
    }

    /// Creates an event of this type with the given code and value, and a zero time.
    pub fn new(code: SoundType, value: i32) -> (r: Self)
        ensures
            r.spec_event() == spec_new_event(EventType::SOUND, code.0, value),
    {
        SoundEvent(InputEvent::new(EventType::SOUND, code.0, value))
    }

    /// The code and the value of the event.
    pub fn destructure(&self) -> (r: (SoundType, i32))
        ensures
            r.0.0 == self.spec_event().0.code,
            r.1 == self.spec_event().0.value,
    {
        (self.code(), self.0.value())
    }

    /// The code of the event.
    pub fn code(&self) -> (r: SoundType)
        ensures
            r.0 == self.spec_event().0.code,
    {
        SoundType(self.0.code())
    }

    /// Wraps an event of this type.
    pub(crate) fn from_event(event: InputEvent) -> (r: Self)
        requires
            event.0.type_ == EventType::SOUND,
        ensures
            r.spec_event() == event,
    {
        SoundEvent(event)
    }

    /// The wrapped event; its type is [`EventType::SOUND`].
    pub fn event(&self) -> (r: InputEvent)
        ensures
            r == self.spec_event(),
            r.0.type_ == EventType::SOUND,
    {
        proof { use_type_invariant(self); }
        self.0
    }
}

impl From<SoundEvent> for InputEvent {
    fn from(event: SoundEvent) -> (r: Self)
        ensures
            r == event.spec_event(),
            r.0.type_ == EventType::SOUND,
    {
        proof { use_type_invariant(&event); }
        event.0
    }
}

impl vstd::std_specs::convert::FromSpecImpl<SoundEvent> for InputEvent {
    open spec fn obeys_from_spec() -> bool {
        true
    }

    open spec fn from_spec(event: SoundEvent) -> InputEvent {
        event.spec_event()
    }
}

impl From<SoundEvent> for EventSummary {
    fn from(event: SoundEvent) -> (r: Self)
        ensures
            r == EventSummary::Sound(event, SoundType(event.spec_event().0.code), event.spec_event().0.value),
    {
        let (kind, value) = event.destructure();
        EventSummary::Sound(event, kind, value)
    }
}

impl vstd::std_specs::convert::FromSpecImpl<SoundEvent> for EventSummary {
    open spec fn obeys_from_spec() -> bool {
        true
    }

    open spec fn from_spec(event: SoundEvent) -> EventSummary {
        EventSummary::Sound(event, SoundType(event.spec_event().0.code), event.spec_event().0.value)
    }
}

/// An [`InputEvent`] whose type is always [`EventType::REPEAT`].
#[derive(Copy, Clone, Eq, PartialEq, Structural, Hash, Debug)]
pub struct RepeatEvent(InputEvent);

impl RepeatEvent {
    #[verifier::type_invariant]
    spec fn has_type(self) -> bool {
        self.0.0.type_ == EventType::REPEAT
    }

    /// The wrapped event.
    pub closed spec fn spec_event(self) -> InputEvent {
        self.0
    }

    /// Creates an event of this type with the given code and value, and a zero time.
    pub fn new(code: RepeatCode, value: i32) -> (r: Self)
        ensures
            r.spec_event() == spec_new_event(EventType::REPEAT, code.0, value),
    {
        RepeatEvent(InputEvent::new(EventType::REPEAT, code.0, value))
    }

    /// The code and the value of the event.
    pub fn destructure(&self) -> (r: (RepeatCode, i32))
        ensures
            r.0.0 == self.spec_event().0.code,
            r.1 == self.spec_event().0.value,
    {
        (self.code(), self.0.value())
    }

    /// The code of the event.
    pub fn code(&self) -> (r: RepeatCode)
        ensures
            r.0 == self.spec_event().0.code,
    {
        RepeatCode(self.0.code())
    }

    /// Wraps an event of this type.
    pub(crate) fn from_event(event: InputEvent) -> (r: Self)
        requires
            event.0.type_ == EventType::REPEAT,
        ensures
            r.spec_event() == event,
    {
        RepeatEvent(event)
    }

    /// The wrapped event; its type is [`EventType::REPEAT`].
    pub fn event(&self) -> (r: InputEvent)
        ensures
            r == self.spec_event(),
            r.0.type_ == EventType::REPEAT,
    {
        proof { use_type_invariant(self); }
        self.0
    }
}

impl From<RepeatEvent> for InputEvent {
    fn from(event: RepeatEvent) -> (r: Self)
        ensures
            r == event.spec_event(),
            r.0.type_ == EventType::REPEAT,
    {
        proof { use_type_invariant(&event); }
        event.0
    }
}

impl vstd::std_specs::convert::FromSpecImpl<RepeatEvent> for InputEvent {
    open spec fn obeys_from_spec() -> bool {
        true
    }

    open spec fn from_spec(event: RepeatEvent) -> InputEvent {
        event.spec_event()
    }
}

impl From<RepeatEvent> for EventSummary {
    fn from(event: RepeatEvent) -> (r: Self)
        ensures
            r == EventSummary::Repeat(event, RepeatCode(event.spec_event().0.code), event.spec_event().0.value),
    {
        let (kind, value) = event.destructure();
        EventSummary::Repeat(event, kind, value)
    }
}

impl vstd::std_specs::convert::FromSpecImpl<RepeatEvent> for EventSummary {
    open spec fn obeys_from_spec() -> bool {
        true
    }

    open spec fn from_spec(event: RepeatEvent) -> EventSummary {
        EventSummary::Repeat(event, RepeatCode(event.spec_event().0.code), event.spec_event().0.value)
    }
}

/// An [`InputEvent`] whose type is always [`EventType::FORCEFEEDBACK`].
#[derive(Copy, Clone, Eq, PartialEq, Structural, Hash, Debug)]
pub struct FFEvent(InputEvent);

impl FFEvent {
    #[verifier::type_invariant]
    spec fn has_type(self) -> bool {
        self.0.0.type_ == EventType::FORCEFEEDBACK
    }

    /// The wrapped event.
    pub closed spec fn spec_event(self) -> InputEvent {
        self.0
    }

    /// Creates an event of this type with the given code and value, and a zero time.
    pub fn new(code: FFEffectType, value: i32) -> (r: Self)
        ensures
            r.spec_event() == spec_new_event(EventType::FORCEFEEDBACK, code.0, value),
    {
        FFEvent(InputEvent::new(EventType::FORCEFEEDBACK, code.0, value))
    }

    /// The code and the value of the event.
    pub fn destructure(&self) -> (r: (FFEffectType, i32))
        ensures
            r.0.0 == self.spec_event().0.code,
            r.1 == self.spec_event().0.value,
    {
        (self.code(), self.0.value())
    }

    /// The code of the event.
    pub fn code(&self) -> (r: FFEffectType)
        ensures
            r.0 == self.spec_event().0.code,
    {
        FFEffectType(self.0.code())
    }

    /// Wraps an event of this type.
    pub(crate) fn from_event(event: InputEvent) -> (r: Self)
        requires
            event.0.type_ == EventType::FORCEFEEDBACK,
        ensures
            r.spec_event() == event,
    {
        FFEvent(event)
    }

    /// The wrapped event; its type is [`EventType::FORCEFEEDBACK`].
    pub fn event(&self) -> (r: InputEvent)
        ensures
            r == self.spec_event(),
            r.0.type_ == EventType::FORCEFEEDBACK,
    {
        proof { use_type_invariant(self); }
        self.0
    }
}

impl From<FFEvent> for InputEvent {
    fn from(event: FFEvent) -> (r: Self)
        ensures
            r == event.spec_event(),
            r.0.type_ == EventType::FORCEFEEDBACK,
    {
        proof { use_type_invariant(&event); }
        event.0
    }
}

impl vstd::std_specs::convert::FromSpecImpl<FFEvent> for InputEvent {
    open spec fn obeys_from_spec() -> bool {
        true
    }

    open spec fn from_spec(event: FFEvent) -> InputEvent {
        event.spec_event()
    }
}

impl From<FFEvent> for EventSummary {
    fn from(event: FFEvent) -> (r: Self)
        ensures
            r == EventSummary::ForceFeedback(event, FFEffectType(event.spec_event().0.code), event.spec_event().0.value),
    {
        let (kind, value) = event.destructure();
        EventSummary::ForceFeedback(event, kind, value)
    }
}

impl vstd::std_specs::convert::FromSpecImpl<FFEvent> for EventSummary {
    open spec fn obeys_from_spec() -> bool {
        true
    }

    open spec fn from_spec(event: FFEvent) -> EventSummary {
        EventSummary::ForceFeedback(event, FFEffectType(event.spec_event().0.code), event.spec_event().0.value)
    }
}

/// An [`InputEvent`] whose type is always [`EventType::POWER`].
#[derive(Copy, Clone, Eq, PartialEq, Structural, Hash, Debug)]
pub struct PowerEvent(InputEvent);

impl PowerEvent {
    #[verifier::type_invariant]
    spec fn has_type(self) -> bool {
        self.0.0.type_ == EventType::POWER
    }

    /// The wrapped event.
    pub closed spec fn spec_event(self) -> InputEvent {
        self.0
    }

    /// Creates an event of this type with the given code and value, and a zero time.
    pub fn new(code: PowerCode, value: i32) -> (r: Self)
        ensures
            r.spec_event() == spec_new_event(EventType::POWER, code.0, value),
    {
        PowerEvent(InputEvent::new(EventType::POWER, code.0, value))
    }

    /// The code and the value of the event.
    pub fn destructure(&self) -> (r: (PowerCode, i32))
        ensures
            r.0.0 == self.spec_event().0.code,
            r.1 == self.spec_event().0.value,
    {
        (self.code(), self.0.value())
    }

    /// The code of the event.
    pub fn code(&self) -> (r: PowerCode)
        ensures
            r.0 == self.spec_event().0.code,
    {
        PowerCode(self.0.code())
    }

    /// Wraps an event of this type.
    pub(crate) fn from_event(event: InputEvent) -> (r: Self)
        requires
            event.0.type_ == EventType::POWER,
        ensures
            r.spec_event() == event,
    {
        PowerEvent(event)
    }

    /// The wrapped event; its type is [`EventType::POWER`].
    pub fn event(&self) -> (r: InputEvent)
        ensures
            r == self.spec_event(),
            r.0.type_ == EventType::POWER,
    {
        proof { use_type_invariant(self); }
        self.0
    }
}

impl From<PowerEvent> for InputEvent {
    fn from(event: PowerEvent) -> (r: Self)
        ensures
            r == event.spec_event(),
            r.0.type_ == EventType::POWER,
    {
        proof { use_type_invariant(&event); }
        event.0
    }
}

impl vstd::std_specs::convert::FromSpecImpl<PowerEvent> for InputEvent {
    open spec fn obeys_from_spec() -> bool {
        true
    }

    open spec fn from_spec(event: PowerEvent) -> InputEvent {
        event.spec_event()
    }
}

impl From<PowerEvent> for EventSummary {
    fn from(event: PowerEvent) -> (r: Self)
        ensures
            r == EventSummary::Power(event, PowerCode(event.spec_event().0.code), event.spec_event().0.value),
    {
        let (kind, value) = event.destructure();
        EventSummary::Power(event, kind, value)
    }
}

impl vstd::std_specs::convert::FromSpecImpl<PowerEvent> for EventSummary {
    open spec fn obeys_from_spec() -> bool {
        true
    }

    open spec fn from_spec(event: PowerEvent) -> EventSummary {
        EventSummary::Power(event, PowerCode(event.spec_event().0.code), event.spec_event().0.value)
    }
}

/// An [`InputEvent`] whose type is always [`EventType::FORCEFEEDBACKSTATUS`].
#[derive(Copy, Clone, Eq, PartialEq, Structural, Hash, Debug)]
pub struct FFStatusEvent(InputEvent);

impl FFStatusEvent {
    #[verifier::type_invariant]
    spec fn has_type(self) -> bool {
        self.0.0.type_ == EventType::FORCEFEEDBACKSTATUS
    }

    /// The wrapped event.
    pub closed spec fn spec_event(self) -> InputEvent {
        self.0
    }

    /// Creates an event of this type with the given code and value, and a zero time.
    pub fn new(code: FFStatus, value: i32) -> (r: Self)
        ensures
            r.spec_event() == spec_new_event(EventType::FORCEFEEDBACKSTATUS, code.0, value),
    {
        FFStatusEvent(InputEvent::new(EventType::FORCEFEEDBACKSTATUS, code.0, value))
    }

    /// The code and the value of the event.
    pub fn destructure(&self) -> (r: (FFStatus, i32))
        ensures
            r.0.0 == self.spec_event().0.code,
            r.1 == self.spec_event().0.value,
    {
        (self.code(), self.0.value())
    }

    /// The code of the event.
    pub fn code(&self) -> (r: FFStatus)
        ensures
            r.0 == self.spec_event().0.code,
    {
        FFStatus(self.0.code())
    }

    /// Wraps an event of this type.
    pub(crate) fn from_event(event: InputEvent) -> (r: Self)
        requires
            event.0.type_ == EventType::FORCEFEEDBACKSTATUS,
        ensures
            r.spec_event() == event,
    {
        FFStatusEvent(event)
    }

    /// The wrapped event; its type is [`EventType::FORCEFEEDBACKSTATUS`].
    pub fn event(&self) -> (r: InputEvent)
        ensures
            r == self.spec_event(),
            r.0.type_ == EventType::FORCEFEEDBACKSTATUS,
    {
        proof { use_type_invariant(self); }
        self.0
    }
}

impl From<FFStatusEvent> for InputEvent {
    fn from(event: FFStatusEvent) -> (r: Self)
        ensures
            r == event.spec_event(),
            r.0.type_ == EventType::FORCEFEEDBACKSTATUS,
    {
        proof { use_type_invariant(&event); }
        event.0
    }
}

impl vstd::std_specs::convert::FromSpecImpl<FFStatusEvent> for InputEvent {
    open spec fn obeys_from_spec() -> bool {
        true
    }

    open spec fn from_spec(event: FFStatusEvent) -> InputEvent {
        event.spec_event()
    }
}

impl From<FFStatusEvent> for EventSummary {
    fn from(event: FFStatusEvent) -> (r: Self)
        ensures
            r == EventSummary::ForceFeedbackStatus(event, FFStatus(event.spec_event().0.code), event.spec_event().0.value),
    {
        let (kind, value) = event.destructure();
        EventSummary::ForceFeedbackStatus(event, kind, value)
    }
}

impl vstd::std_specs::convert::FromSpecImpl<FFStatusEvent> for EventSummary {
    open spec fn obeys_from_spec() -> bool {
        true
    }

    open spec fn from_spec(event: FFStatusEvent) -> EventSummary {
        EventSummary::ForceFeedbackStatus(event, FFStatus(event.spec_event().0.code), event.spec_event().0.value)
    }
}

/// An [`InputEvent`] whose type is always [`EventType::UINPUT`].
#[derive(Copy, Clone, Eq, PartialEq, Structural, Hash, Debug)]
pub struct UInputEvent(InputEvent);

impl UInputEvent {
    #[verifier::type_invariant]
    spec fn has_type(self) -> bool {
        self.0.0.type_ == EventType::UINPUT
    }

    /// The wrapped event.
    pub closed spec fn spec_event(self) -> InputEvent {
        self.0
    }

    /// Creates an event of this type with the given code and value, and a zero time.
    pub fn new(code: UInputEventType, value: i32) -> (r: Self)
        ensures
            r.spec_event() == spec_new_event(EventType::UINPUT, code.0, value),
    {
        UInputEvent(InputEvent::new(EventType::UINPUT, code.0, value))
    }

    /// The code and the value of the event.
    pub fn destructure(&self) -> (r: (UInputEventType, i32))
        ensures
            r.0.0 == self.spec_event().0.code,
            r.1 == self.spec_event().0.value,
    {
        (self.code(), self.0.value())
    }

    /// The code of the event.
    pub fn code(&self) -> (r: UInputEventType)
        ensures
            r.0 == self.spec_event().0.code,
    {
        UInputEventType(self.0.code())
    }

    /// Wraps an event of this type.
    pub(crate) fn from_event(event: InputEvent) -> (r: Self)
        requires
            event.0.type_ == EventType::UINPUT,
        ensures
            r.spec_event() == event,
    {
        UInputEvent(event)
    }

    /// The wrapped event; its type is [`EventType::UINPUT`].
    pub fn event(&self) -> (r: InputEvent)
        ensures
            r == self.spec_event(),
            r.0.type_ == EventType::UINPUT,
    {
        proof { use_type_invariant(self); }
        self.0
    }
}

impl From<UInputEvent> for InputEvent {
    fn from(event: UInputEvent) -> (r: Self)
        ensures
            r == event.spec_event(),
            r.0.type_ == EventType::UINPUT,
    {
        proof { use_type_invariant(&event); }
        event.0
    }
}

impl vstd::std_specs::convert::FromSpecImpl<UInputEvent> for InputEvent {
    open spec fn obeys_from_spec() -> bool {
        true
    }

    open spec fn from_spec(event: UInputEvent) -> InputEvent {
        event.spec_event()
    }
}

impl From<UInputEvent> for EventSummary {
    fn from(event: UInputEvent) -> (r: Self)
        ensures
            r == EventSummary::UInput(event, UInputEventType(event.spec_event().0.code), event.spec_event().0.value),
    {
        let (kind, value) = event.destructure();
        EventSummary::UInput(event, kind, value)
    }
}

impl vstd::std_specs::convert::FromSpecImpl<UInputEvent> for EventSummary {
    open spec fn obeys_from_spec() -> bool {
        true
    }

    open spec fn from_spec(event: UInputEvent) -> EventSummary {
        EventSummary::UInput(event, UInputEventType(event.spec_event().0.code), event.spec_event().0.value)
    }
}

/// A convenience mapping for matching a [`InputEvent`] while simultaniously checking its kind `(type, code)`
/// and capturing the value
///
/// Note This enum can not enforce that `InputEvent.code() == ` enum variant(code).
/// It is suggested to not construct this enum and instead use [`InputEvent::destructure`] to obtain instances.
#[derive(Copy, Clone, Eq, PartialEq, Structural, Debug)]
pub enum EventSummary {
    Synchronization(SynchronizationEvent, Synchronization, i32),
    Key(KeyEvent, KeyCode, i32),
    RelativeAxis(RelativeAxisEvent, RelativeAxisType, i32),
    AbsoluteAxis(AbsoluteAxisEvent, AbsoluteAxisType, i32),
    Misc(MiscEvent, MiscType, i32),
    Switch(SwitchEvent, SwitchType, i32),
    Led(LedEvent, LedType, i32),
    Sound(SoundEvent, SoundType, i32),
    Repeat(RepeatEvent, RepeatCode, i32),
    ForceFeedback(FFEvent, FFEffectType, i32),
    Power(PowerEvent, PowerCode, i32),
    ForceFeedbackStatus(FFStatusEvent, FFStatus, i32),
    UInput(UInputEvent, UInputEventType, i32),
    Other(OtherEvent, OtherCode, i32),
}

/// `s` is the summary of `ev`: the variant of its type, holding the event, its code and its value.
pub open spec fn summarizes(s: EventSummary, ev: InputEvent) -> bool {
    match s {
        EventSummary::Synchronization(e, c, v) => ev.0.type_ == EventType::SYNCHRONIZATION && e.spec_event() == ev && c.0 == ev.0.code && v == ev.0.value,
        EventSummary::Key(e, c, v) => ev.0.type_ == EventType::KEY && e.spec_event() == ev && c.0 == ev.0.code && v == ev.0.value,
        EventSummary::RelativeAxis(e, c, v) => ev.0.type_ == EventType::RELATIVE && e.spec_event() == ev && c.0 == ev.0.code && v == ev.0.value,
        EventSummary::AbsoluteAxis(e, c, v) => ev.0.type_ == EventType::ABSOLUTE && e.spec_event() == ev && c.0 == ev.0.code && v == ev.0.value,
        EventSummary::Misc(e, c, v) => ev.0.type_ == EventType::MISC && e.spec_event() == ev && c.0 == ev.0.code && v == ev.0.value,
        EventSummary::Switch(e, c, v) => ev.0.type_ == EventType::SWITCH && e.spec_event() == ev && c.0 == ev.0.code && v == ev.0.value,
        EventSummary::Led(e, c, v) => ev.0.type_ == EventType::LED && e.spec_event() == ev && c.0 == ev.0.code && v == ev.0.value,
        EventSummary::Sound(e, c, v) => ev.0.type_ == EventType::SOUND && e.spec_event() == ev && c.0 == ev.0.code && v == ev.0.value,
        EventSummary::Repeat(e, c, v) => ev.0.type_ == EventType::REPEAT && e.spec_event() == ev && c.0 == ev.0.code && v == ev.0.value,
        EventSummary::ForceFeedback(e, c, v) => ev.0.type_ == EventType::FORCEFEEDBACK && e.spec_event() == ev && c.0 == ev.0.code && v == ev.0.value,
        EventSummary::Power(e, c, v) => ev.0.type_ == EventType::POWER && e.spec_event() == ev && c.0 == ev.0.code && v == ev.0.value,
        EventSummary::ForceFeedbackStatus(e, c, v) => ev.0.type_ == EventType::FORCEFEEDBACKSTATUS && e.spec_event() == ev && c.0 == ev.0.code && v == ev.0.value,
        EventSummary::UInput(e, c, v) => ev.0.type_ == EventType::UINPUT && e.spec_event() == ev && c.0 == ev.0.code && v == ev.0.value,
        EventSummary::Other(e, c, v) => !is_known_type(ev.0.type_) && e.spec_event() == ev && c == OtherCode(ev.0.type_, ev.0.code) && v == ev.0.value,
    }
}

/// The event types that have a variant of their own in [`EventSummary`].
pub open spec fn is_known_type(t: u16) -> bool {
    t == EventType::SYNCHRONIZATION
    || t == EventType::KEY
    || t == EventType::RELATIVE
    || t == EventType::ABSOLUTE
    || t == EventType::MISC
    || t == EventType::SWITCH
    || t == EventType::LED
    || t == EventType::SOUND
    || t == EventType::REPEAT
    || t == EventType::FORCEFEEDBACK
    || t == EventType::POWER
    || t == EventType::FORCEFEEDBACKSTATUS
    || t == EventType::UINPUT
}

impl vstd::std_specs::convert::FromSpecImpl<InputEvent> for EventSummary {
    open spec fn obeys_from_spec() -> bool {
        true
    }

    closed spec fn from_spec(value: InputEvent) -> EventSummary {
        let t = value.0.type_;
        if t == EventType::SYNCHRONIZATION {
            EventSummary::Synchronization(SynchronizationEvent(value), Synchronization(value.0.code), value.0.value)
        } else if t == EventType::KEY {
            EventSummary::Key(KeyEvent(value), KeyCode(value.0.code), value.0.value)
        } else if t == EventType::RELATIVE {
            EventSummary::RelativeAxis(RelativeAxisEvent(value), RelativeAxisType(value.0.code), value.0.value)
        } else if t == EventType::ABSOLUTE {
            EventSummary::AbsoluteAxis(AbsoluteAxisEvent(value), AbsoluteAxisType(value.0.code), value.0.value)
        } else if t == EventType::MISC {
            EventSummary::Misc(MiscEvent(value), MiscType(value.0.code), value.0.value)
        } else if t == EventType::SWITCH {
            EventSummary::Switch(SwitchEvent(value), SwitchType(value.0.code), value.0.value)
        } else if t == EventType::LED {
            EventSummary::Led(LedEvent(value), LedType(value.0.code), value.0.value)
        } else if t == EventType::SOUND {
            EventSummary::Sound(SoundEvent(value), SoundType(value.0.code), value.0.value)
        } else if t == EventType::REPEAT {
            EventSummary::Repeat(RepeatEvent(value), RepeatCode(value.0.code), value.0.value)
        } else if t == EventType::FORCEFEEDBACK {
            EventSummary::ForceFeedback(FFEvent(value), FFEffectType(value.0.code), value.0.value)
        } else if t == EventType::POWER {
            EventSummary::Power(PowerEvent(value), PowerCode(value.0.code), value.0.value)
        } else if t == EventType::FORCEFEEDBACKSTATUS {
            EventSummary::ForceFeedbackStatus(FFStatusEvent(value), FFStatus(value.0.code), value.0.value)
        } else if t == EventType::UINPUT {
            EventSummary::UInput(UInputEvent(value), UInputEventType(value.0.code), value.0.value)
        } else {
            EventSummary::Other(OtherEvent(value), OtherCode(value.0.type_, value.0.code), value.0.value)
        }
    }
}

impl From<InputEvent> for EventSummary {
    fn from(value: InputEvent) -> (r: Self)
        ensures
            summarizes(r, value),
    {
        let t = value.event_type().0;
        if t == EventType::SYNCHRONIZATION {
            EventSummary::from(SynchronizationEvent::from_event(value))
        } else if t == EventType::KEY {
            EventSummary::from(KeyEvent::from_event(value))
        } else if t == EventType::RELATIVE {
            EventSummary::from(RelativeAxisEvent::from_event(value))
        } else if t == EventType::ABSOLUTE {
            EventSummary::from(AbsoluteAxisEvent::from_event(value))
        } else if t == EventType::MISC {
            EventSummary::from(MiscEvent::from_event(value))
        } else if t == EventType::SWITCH {
            EventSummary::from(SwitchEvent::from_event(value))
        } else if t == EventType::LED {
            EventSummary::from(LedEvent::from_event(value))
        } else if t == EventType::SOUND {
            EventSummary::from(SoundEvent::from_event(value))
        } else if t == EventType::REPEAT {
            EventSummary::from(RepeatEvent::from_event(value))
        } else if t == EventType::FORCEFEEDBACK {
            EventSummary::from(FFEvent::from_event(value))
        } else if t == EventType::POWER {
            EventSummary::from(PowerEvent::from_event(value))
        } else if t == EventType::FORCEFEEDBACKSTATUS {
            EventSummary::from(FFStatusEvent::from_event(value))
        } else if t == EventType::UINPUT {
            EventSummary::from(UInputEvent::from_event(value))
        } else {
            EventSummary::from(OtherEvent(value))
        }
    }
}

/// An event not covered by any other variant.
#[derive(Copy, Clone, Eq, PartialEq, Structural, Hash, Debug)]
pub struct OtherEvent(pub(crate) InputEvent);

impl OtherEvent {
    /// The wrapped event.
    pub closed spec fn spec_event(self) -> InputEvent {
        self.0
    }

    /// The raw type and code of the event.
    pub fn kind(&self) -> (r: OtherCode)
        ensures
            r == OtherCode(self.spec_event().0.type_, self.spec_event().0.code),
    {
        OtherCode(self.0.0.type_, self.0.0.code)
    }

    /// The raw type and code, and the value of the event.
    pub fn destructure(&self) -> (r: (OtherCode, i32))
        ensures
            r.0 == OtherCode(self.spec_event().0.type_, self.spec_event().0.code),
            r.1 == self.spec_event().0.value,
    {
        (self.kind(), self.0.0.value)
    }

    /// The wrapped event.
    pub fn event(&self) -> (r: InputEvent)
        ensures
            r == self.spec_event(),
    {
        self.0
    }
}

impl From<OtherEvent> for InputEvent {
    fn from(event: OtherEvent) -> (r: Self)
        ensures
            r == event.spec_event(),
    {
        event.0
    }
}

impl vstd::std_specs::convert::FromSpecImpl<OtherEvent> for InputEvent {
    open spec fn obeys_from_spec() -> bool {
        true
    }

    open spec fn from_spec(event: OtherEvent) -> InputEvent {
        event.spec_event()
    }
}

impl From<OtherEvent> for EventSummary {
    fn from(event: OtherEvent) -> (r: Self)
        ensures
            r == EventSummary::Other(event, OtherCode(event.spec_event().0.type_, event.spec_event().0.code), event.spec_event().0.value),
    {
        let (kind, value) = event.destructure();
        EventSummary::Other(event, kind, value)
    }
}

impl vstd::std_specs::convert::FromSpecImpl<OtherEvent> for EventSummary {
    open spec fn obeys_from_spec() -> bool {
        true
    }

    open spec fn from_spec(event: OtherEvent) -> EventSummary {
        EventSummary::Other(event, OtherCode(event.spec_event().0.type_, event.spec_event().0.code), event.spec_event().0.value)
    }
}

impl InputEvent {
    /// A convenience function to destructure the InputEvent into a [`EventSummary`].
    pub fn destructure(self) -> (r: EventSummary)
        ensures
            summarizes(r, self),
    {
        EventSummary::from(self)
    }
}

} // verus!
