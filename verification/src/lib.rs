//! Linux event device handling.
//!
//! The Linux kernel's "evdev" subsystem exposes input devices to userspace in a generic,
//! consistent way. Devices emit events, represented by the [`InputEvent`] struct, in
//! batches ended by a `SYN_REPORT` synchronization event. If the kernel's buffer for a
//! reader overflows, it drops events and queues a `SYN_DROPPED` in their place.
//!
//! This library holds the logic of talking to such devices: the event codes, sets of
//! them, the events and their variants, force feedback effects, the state a device is
//! in, and the synchronizing reader, which removes corrupted blocks of events and
//! injects compensating events so that its user sees state transitions consistent with
//! the actual device state. The system calls themselves are made by the code around it.

mod attribute_set;
pub mod compat;
mod constants;
mod describe;
mod device_state;
mod event;
pub mod event_variants;
mod ff;
mod inputid;
mod name_laws;
mod names;
pub mod raw_stream;
mod scancodes;
pub mod text;
pub mod sync_stream;
pub mod uinput;

pub use attribute_set::{ArrayedEvdevEnum, AttributeSet, AttributeSetRef, EvdevEnum};
pub use constants::{
    AbsoluteAxisCode, AbsoluteAxisType, EventType, FFEffectCode, FFEffectType, FFStatus,
    FFStatusCode, LedCode, LedType, MiscCode, MiscType, OtherCode, PowerCode, PropType,
    RelativeAxisCode, RelativeAxisType, RepeatCode, SoundCode, SoundType, SwitchCode, SwitchType,
    Synchronization, SynchronizationCode, UInputCode, UInputEventType,
};
pub use device_state::{DeviceState, DeviceStateView};
pub use event::{
    timeval_from_epoch_offset, timeval_to_epoch_offset, AbsInfo, AutoRepeat, EnumParseError,
    InputEvent, UinputAbsSetup,
};
pub use event_variants::{
    AbsoluteAxisEvent, EventSummary, FFEvent, FFStatusEvent, KeyEvent, LedEvent, MiscEvent,
    OtherEvent, PowerEvent, RelativeAxisEvent, RepeatEvent, SoundEvent, SwitchEvent,
    SynchronizationEvent, UInputEvent,
};
pub use ff::{
    FFCondition, FFEffectData, FFEffectKind, FFEnvelope, FFReplay, FFTrigger, FFWaveform,
};
pub use inputid::{BusType, InputId};
pub use raw_stream::RawDevice;
pub use scancodes::KeyCode;
pub use sync_stream::{compensate_events, sync_events, Device, FetchEventsSynced, SyncState};
