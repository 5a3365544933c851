//! A device implementation with no userspace synchronization performed.
//!
//! [`RawDevice`] holds what the kernel reported about a device when it was
//! opened, and the events read from it that have not been consumed yet.

use crate::attribute_set::{enumerates, AttributeSet, AttributeSetRef, EvdevEnum};
use crate::compat::{ff_effect, input_absinfo, input_id, input_keymap_entry, ABS_CNT};
use crate::constants::{
    AbsoluteAxisType, EventType, FFEffectType, LedType, MiscType, PropType, RelativeAxisType,
    SoundType, SwitchType,
};
use crate::device_state::{opt_set_view, zero_absinfo, DeviceState, DeviceStateView};
use crate::event::{spec_new_event, AbsInfo, AutoRepeat, InputEvent};
use crate::event_variants::FFEvent;
use crate::ff::{encodes, FFEffectData};
use crate::inputid::InputId;
use crate::scancodes::KeyCode;
use vstd::prelude::*;

verus! {

/// What the kernel reports about a device when it is opened.
///
/// Each `supported_*` set is present exactly when `ty` holds the event type it
/// belongs to.
pub struct DeviceCapabilities {
    pub ty: AttributeSet<EventType>,
    pub name: Option<String>,
    pub phys: Option<String>,
    pub uniq: Option<String>,
    pub id: input_id,
    pub props: AttributeSet<PropType>,
    pub driver_version: (u8, u8, u8),
    pub supported_keys: Option<AttributeSet<KeyCode>>,
    pub supported_relative: Option<AttributeSet<RelativeAxisType>>,
    pub supported_absolute: Option<AttributeSet<AbsoluteAxisType>>,
    pub supported_switch: Option<AttributeSet<SwitchType>>,
    pub supported_led: Option<AttributeSet<LedType>>,
    pub supported_misc: Option<AttributeSet<MiscType>>,
    pub supported_ff: Option<AttributeSet<FFEffectType>>,
    pub supported_snd: Option<AttributeSet<SoundType>>,
    pub auto_repeat: Option<AutoRepeat>,
    pub max_ff_effects: usize,
}

impl DeviceCapabilities {
    /// Each capability set is present exactly when its event type is supported.
    pub open spec fn consistent(&self) -> bool {
        &&& self.supported_keys is Some == self.ty@.contains(EventType::KEY as nat)
        &&& self.supported_relative is Some == self.ty@.contains(EventType::RELATIVE as nat)
        &&& self.supported_absolute is Some == self.ty@.contains(EventType::ABSOLUTE as nat)
        &&& self.supported_switch is Some == self.ty@.contains(EventType::SWITCH as nat)
        &&& self.supported_led is Some == self.ty@.contains(EventType::LED as nat)
        &&& self.supported_misc is Some == self.ty@.contains(EventType::MISC as nat)
        &&& self.supported_ff is Some == self.ty@.contains(EventType::FORCEFEEDBACK as nat)
        &&& self.supported_snd is Some == self.ty@.contains(EventType::SOUND as nat)
        &&& self.auto_repeat is Some == self.ty@.contains(EventType::REPEAT as nat)
        &&& !self.ty@.contains(EventType::FORCEFEEDBACK as nat) ==> self.max_ff_effects == 0
    }

    /// Whether each capability set is present exactly when its event type is
    /// supported.
    pub fn is_consistent(&self) -> (r: bool)
        ensures
            r == self.consistent(),
    {
        let reads = capability_reads(&self.ty);
        self.supported_keys.is_some() == reads.keys
            && self.supported_relative.is_some() == reads.relative
            && self.supported_absolute.is_some() == reads.absolute
            && self.supported_switch.is_some() == reads.switches
            && self.supported_led.is_some() == reads.leds
            && self.supported_misc.is_some() == reads.misc
            && self.supported_ff.is_some() == reads.ff
            && self.supported_snd.is_some() == reads.sounds
            && self.auto_repeat.is_some() == reads.repeat
            && (reads.ff || self.max_ff_effects == 0)
    }
}

/// Which capabilities of a device are read from the kernel, one flag per
/// event type that carries its own set.
#[derive(Clone, Copy, Debug, PartialEq, Eq, Structural)]
pub struct CapabilityReads {
    pub keys: bool,
    pub relative: bool,
    pub absolute: bool,
    pub switches: bool,
    pub leds: bool,
    pub misc: bool,
    pub ff: bool,
    pub sounds: bool,
    pub repeat: bool,
}

/// The capabilities to read for a device whose supported event types are `ty`:
/// each exactly when its event type is supported (the force feedback flag also
/// covers the number of effects).
pub fn capability_reads(ty: &AttributeSet<EventType>) -> (r: CapabilityReads)
    ensures
        r.keys == ty@.contains(EventType::KEY as nat),
        r.relative == ty@.contains(EventType::RELATIVE as nat),
        r.absolute == ty@.contains(EventType::ABSOLUTE as nat),
        r.switches == ty@.contains(EventType::SWITCH as nat),
        r.leds == ty@.contains(EventType::LED as nat),
        r.misc == ty@.contains(EventType::MISC as nat),
        r.ff == ty@.contains(EventType::FORCEFEEDBACK as nat),
        r.sounds == ty@.contains(EventType::SOUND as nat),
        r.repeat == ty@.contains(EventType::REPEAT as nat),
{
    CapabilityReads {
        keys: ty.contains(EventType(EventType::KEY)),
        relative: ty.contains(EventType(EventType::RELATIVE)),
        absolute: ty.contains(EventType(EventType::ABSOLUTE)),
        switches: ty.contains(EventType(EventType::SWITCH)),
        leds: ty.contains(EventType(EventType::LED)),
        misc: ty.contains(EventType(EventType::MISC)),
        ff: ty.contains(EventType(EventType::FORCEFEEDBACK)),
        sounds: ty.contains(EventType(EventType::SOUND)),
        repeat: ty.contains(EventType(EventType::REPEAT)),
    }
}

impl DeviceCapabilities {
    /// What the kernel reported about a device, assembled: the supported event
    /// types and, for each type that carries its own set, the set read for it;
    /// the packed driver version; for force feedback, the number of effects
    /// reported (a negative report counts as none); and for key repeat, the
    /// delay and period words. Each per-type report is given exactly when its
    /// type is supported, which makes the result consistent.
    pub fn from_reports(
        ty: AttributeSet<EventType>,
        name: Option<String>,
        phys: Option<String>,
        uniq: Option<String>,
        id: input_id,
        props: AttributeSet<PropType>,
        raw_version: i32,
        keys: Option<AttributeSet<KeyCode>>,
        relative: Option<AttributeSet<RelativeAxisType>>,
        absolute: Option<AttributeSet<AbsoluteAxisType>>,
        switches: Option<AttributeSet<SwitchType>>,
        leds: Option<AttributeSet<LedType>>,
        misc: Option<AttributeSet<MiscType>>,
        ff: Option<AttributeSet<FFEffectType>>,
        raw_ff_effects: Option<i32>,
        sounds: Option<AttributeSet<SoundType>>,
        repeat: Option<[u32; 2]>,
    ) -> (r: DeviceCapabilities)
        requires
            keys is Some == ty@.contains(EventType::KEY as nat),
            relative is Some == ty@.contains(EventType::RELATIVE as nat),
            absolute is Some == ty@.contains(EventType::ABSOLUTE as nat),
            switches is Some == ty@.contains(EventType::SWITCH as nat),
            leds is Some == ty@.contains(EventType::LED as nat),
            misc is Some == ty@.contains(EventType::MISC as nat),
            ff is Some == ty@.contains(EventType::FORCEFEEDBACK as nat),
            raw_ff_effects is Some == ty@.contains(EventType::FORCEFEEDBACK as nat),
            sounds is Some == ty@.contains(EventType::SOUND as nat),
            repeat is Some == ty@.contains(EventType::REPEAT as nat),
        ensures
            r.consistent(),
            r.ty == ty,
            r.name == name,
            r.phys == phys,
            r.uniq == uniq,
            r.id == id,
            r.props == props,
            r.driver_version.0 == ((raw_version >> 16u32) & 0xff) as u8,
            r.driver_version.1 == ((raw_version >> 8u32) & 0xff) as u8,
            r.driver_version.2 == (raw_version & 0xff) as u8,
            r.supported_keys == keys,
            r.supported_relative == relative,
            r.supported_absolute == absolute,
            r.supported_switch == switches,
            r.supported_led == leds,
            r.supported_misc == misc,
            r.supported_ff == ff,
            r.max_ff_effects == (match raw_ff_effects { Some(n) => if n >= 0 { n as int } else { 0 }, None => 0 }),
            r.supported_snd == sounds,
            r.auto_repeat == (match repeat { Some(w) => Some(AutoRepeat { delay: w[0], period: w[1] }), None => None }),
    {
        let max_ff_effects = match raw_ff_effects {
            Some(n) => max_ff_effects_from_raw(n),
            None => 0,
        };
        let auto_repeat = match repeat {
            Some(w) => Some(AutoRepeat { delay: w[0], period: w[1] }),
            None => None,
        };
        DeviceCapabilities {
            ty,
            name,
            phys,
            uniq,
            id,
            props,
            driver_version: driver_version_from_raw(raw_version),
            supported_keys: keys,
            supported_relative: relative,
            supported_absolute: absolute,
            supported_switch: switches,
            supported_led: leds,
            supported_misc: misc,
            supported_ff: ff,
            supported_snd: sounds,
            auto_repeat,
            max_ff_effects,
        }
    }
}

/// The argument of the `EVIOCGRAB` request that takes a device from grabbed
/// state `grabbed` to `grab`: 1 to grab, 0 to release, none where it is there already.
pub open spec fn grab_ioctl_arg(grabbed: bool, grab: bool) -> Option<u64> {
    if grabbed == grab {
        None
    } else if grab {
        Some(1)
    } else {
        Some(0)
    }
}

/// Once a grab (or a release) went through, asking for it again asks the
/// kernel nothing: only the first of two equal requests issues the ioctl.
pub proof fn law_grab_twice_asks_once(before: RawDevice, after: RawDevice, grab: bool)
    requires
        after.spec_grabbed() == grab,
    ensures
        grab_ioctl_arg(after.spec_grabbed(), grab) is None,
        grab_ioctl_arg(before.spec_grabbed(), grab) is Some <==> before.spec_grabbed() != grab,
{
}

/// The state of a device with the given capabilities before anything
/// happened: each kind of state it supports present, nothing pressed, lit or
/// switched on, every axis zeroed; the kinds it does not support absent.
pub open spec fn empty_state_view(caps: DeviceCapabilities, time: crate::compat::timeval) -> DeviceStateView {
    DeviceStateView {
        time,
        keys: if caps.supported_keys is Some { Some(Set::<nat>::empty()) } else { None },
        abs: if caps.supported_absolute is Some { Some(Seq::new(ABS_CNT as nat, |i: int| zero_absinfo())) } else { None },
        switches: if caps.supported_switch is Some { Some(Set::<nat>::empty()) } else { None },
        leds: if caps.supported_led is Some { Some(Set::<nat>::empty()) } else { None },
    }
}

/// A physical or virtual device supported by evdev.
///
/// Each device corresponds to a path typically found in `/dev/input`, and supports access via
/// one or more "types". For example, an optical mouse has buttons that are represented by "keys",
/// and reflects changes in its position via "relative axis" reports.
///
/// If events are dropped from the kernel's internal buffer, no synchronization will be done to
/// fetch the device's state, meaning the state as observed through events may drift from
/// the actual state of the device.
pub struct RawDevice {
    caps: DeviceCapabilities,
    pub(crate) event_buf: Vec<InputEvent>,
    grabbed: bool,
}

impl RawDevice {
    /// What the kernel reported about the device.
    pub closed spec fn capabilities(&self) -> DeviceCapabilities {
        self.caps
    }

    /// The events read and not yet consumed.
    pub closed spec fn events(&self) -> Seq<InputEvent> {
        self.event_buf@
    }

    /// Whether the device is grabbed for exclusive use.
    pub closed spec fn spec_grabbed(&self) -> bool {
        self.grabbed
    }

    /// A device as the kernel describes it, with no events read and not grabbed.
    pub fn from_capabilities(caps: DeviceCapabilities) -> (r: RawDevice)
        requires
            caps.consistent(),
        ensures
            r.capabilities() == caps,
            r.events() == Seq::<InputEvent>::empty(),
            !r.spec_grabbed(),
    {
        RawDevice { caps, event_buf: Vec::new(), grabbed: false }
    }

    /// Returns the device's name as read from the kernel.
    pub fn name(&self) -> (r: Option<&str>)
        ensures
            match r {
                Some(s) => self.capabilities().name is Some && s@ == self.capabilities().name->0@,
                None => self.capabilities().name is None,
            },
    {
        match &self.caps.name {
            Some(s) => Some(s.as_str()),
            None => None,
        }
    }

    /// Returns the device's physical location, either as set by the caller or as read from the kernel.
    pub fn physical_path(&self) -> (r: Option<&str>)
        ensures
            match r {
                Some(s) => self.capabilities().phys is Some && s@ == self.capabilities().phys->0@,
                None => self.capabilities().phys is None,
            },
    {
        match &self.caps.phys {
            Some(s) => Some(s.as_str()),
            None => None,
        }
    }

    /// Returns the user-defined "unique name" of the device, if one has been set.
    pub fn unique_name(&self) -> (r: Option<&str>)
        ensures
            match r {
                Some(s) => self.capabilities().uniq is Some && s@ == self.capabilities().uniq->0@,
                None => self.capabilities().uniq is None,
            },
    {
        match &self.caps.uniq {
            Some(s) => Some(s.as_str()),
            None => None,
        }
    }

    /// Returns a struct containing bustype, vendor, product, and version identifiers
    pub fn input_id(&self) -> (r: InputId)
        ensures
            r.0 == self.capabilities().id,
    {
        InputId::from(self.caps.id)
    }

    /// Returns the current auto repeat settings
    pub fn get_auto_repeat(&self) -> (r: Option<AutoRepeat>)
        ensures
            r == self.capabilities().auto_repeat,
    {
        self.caps.auto_repeat
    }

    /// Returns the set of supported "properties" for the device (see `INPUT_PROP_*` in kernel headers)
    pub fn properties(&self) -> (r: &AttributeSetRef<PropType>)
        ensures
            r@ == self.capabilities().props@,
    {
        &self.caps.props
    }

    /// Returns a tuple of the driver version containing major, minor, rev
    pub fn driver_version(&self) -> (r: (u8, u8, u8))
        ensures
            r == self.capabilities().driver_version,
    {
        self.caps.driver_version
    }

    /// Returns a set of the event types supported by this device (Key, Switch, etc)
    ///
    /// If you're interested in the individual keys or switches supported, it's probably easier
    /// to just call the appropriate `supported_*` function instead.
    pub fn supported_events(&self) -> (r: &AttributeSetRef<EventType>)
        ensures
            r@ == self.capabilities().ty@,
    {
        &self.caps.ty
    }

    /// Returns the set of supported keys reported by the device.
    ///
    /// For keyboards, this is the set of all possible keycodes the keyboard may emit. Controllers,
    /// mice, and other peripherals may also report buttons as keys.
    pub fn supported_keys(&self) -> (r: Option<&AttributeSetRef<KeyCode>>)
        ensures
            opt_set_view(match r { Some(s) => Some(*s), None => None }) == opt_set_view(self.capabilities().supported_keys),
    {
        self.caps.supported_keys.as_ref()
    }

    /// Returns the set of supported "relative axes" reported by the device.
    ///
    /// Standard mice will generally report `REL_X` and `REL_Y` along with wheel if supported.
    pub fn supported_relative_axes(&self) -> (r: Option<&AttributeSetRef<RelativeAxisType>>)
        ensures
            opt_set_view(match r { Some(s) => Some(*s), None => None }) == opt_set_view(self.capabilities().supported_relative),
    {
        self.caps.supported_relative.as_ref()
    }

    /// Returns the set of supported "absolute axes" reported by the device.
    ///
    /// These are most typically supported by joysticks and touchpads.
    pub fn supported_absolute_axes(&self) -> (r: Option<&AttributeSetRef<AbsoluteAxisType>>)
        ensures
            opt_set_view(match r { Some(s) => Some(*s), None => None }) == opt_set_view(self.capabilities().supported_absolute),
    {
        self.caps.supported_absolute.as_ref()
    }

    /// Returns the set of supported switches reported by the device.
    ///
    /// These are typically used for things like software switches on laptop lids (which the
    /// system reacts to by suspending or locking), or virtual switches to indicate whether a
    /// headphone jack is plugged in (used to disable external speakers).
    pub fn supported_switches(&self) -> (r: Option<&AttributeSetRef<SwitchType>>)
        ensures
            opt_set_view(match r { Some(s) => Some(*s), None => None }) == opt_set_view(self.capabilities().supported_switch),
    {
        self.caps.supported_switch.as_ref()
    }

    /// Returns a set of supported LEDs on the device.
    ///
    /// Most commonly these are state indicator lights for things like Scroll Lock, but they
    /// can also be found in cameras and other devices.
    pub fn supported_leds(&self) -> (r: Option<&AttributeSetRef<LedType>>)
        ensures
            opt_set_view(match r { Some(s) => Some(*s), None => None }) == opt_set_view(self.capabilities().supported_led),
    {
        self.caps.supported_led.as_ref()
    }

    /// Returns a set of supported "miscellaneous" capabilities.
    ///
    /// Aside from vendor-specific key scancodes, most of these are uncommon.
    pub fn misc_properties(&self) -> (r: Option<&AttributeSetRef<MiscType>>)
        ensures
            opt_set_view(match r { Some(s) => Some(*s), None => None }) == opt_set_view(self.capabilities().supported_misc),
    {
        self.caps.supported_misc.as_ref()
    }

    /// Returns the set of supported force feedback effects supported by a device.
    pub fn supported_ff(&self) -> (r: Option<&AttributeSetRef<FFEffectType>>)
        ensures
            opt_set_view(match r { Some(s) => Some(*s), None => None }) == opt_set_view(self.capabilities().supported_ff),
    {
        self.caps.supported_ff.as_ref()
    }

    /// Returns the maximum number of force feedback effects that can be played simultaneously.
    pub fn max_ff_effects(&self) -> (r: usize)
        ensures
            r == self.capabilities().max_ff_effects,
    {
        self.caps.max_ff_effects
    }

    /// Returns the set of supported simple sounds supported by a device.
    ///
    /// You can use these to make really annoying beep sounds come from an internal self-test
    /// speaker, for instance.
    pub fn supported_sounds(&self) -> (r: Option<&AttributeSetRef<SoundType>>)
        ensures
            opt_set_view(match r { Some(s) => Some(*s), None => None }) == opt_set_view(self.capabilities().supported_snd),
    {
        self.caps.supported_snd.as_ref()
    }

    /// A cached state with each kind of state the device supports, nothing
    /// pressed, lit or switched on and every axis at zero.
    pub fn empty_state(&self, time: crate::compat::timeval) -> (r: DeviceState)
        ensures
            r.wf(),
            r@ == empty_state_view(self.capabilities(), time),
    {
        DeviceState::empty(
            time,
            self.caps.supported_keys.is_some(),
            self.caps.supported_absolute.is_some(),
            self.caps.supported_switch.is_some(),
            self.caps.supported_led.is_some(),
        )
    }

    /// The events read from the device and not consumed yet, oldest first.
    pub fn buffered_events(&self) -> (r: &[InputEvent])
        ensures
            r@ == self.events(),
    {
        self.event_buf.as_slice()
    }

    /// Appends events read from the device to the buffer of unconsumed events.
    pub fn push_events(&mut self, events: &[InputEvent])
        ensures
            final(self).events() == old(self).events() + events@,
            final(self).capabilities() == old(self).capabilities(),
            final(self).spec_grabbed() == old(self).spec_grabbed(),
    {
        self.event_buf.extend_from_slice(events);
    }

    /// Drops the first `n` buffered events, which were consumed.
    pub fn drain_consumed(&mut self, n: usize)
        requires
            n <= old(self).events().len(),
        ensures
            final(self).events() == old(self).events().subrange(n as int, old(self).events().len() as int),
            final(self).capabilities() == old(self).capabilities(),
            final(self).spec_grabbed() == old(self).spec_grabbed(),
    {
        let rest = self.event_buf.split_off(n);
        self.event_buf = rest;
    }

    /// Takes every unconsumed event out of the buffer, oldest first.
    pub fn take_events(&mut self) -> (r: Vec<InputEvent>)
        ensures
            r@ == old(self).events(),
            final(self).events() == Seq::<InputEvent>::empty(),
            final(self).capabilities() == old(self).capabilities(),
            final(self).spec_grabbed() == old(self).spec_grabbed(),
    {
        let mut taken = Vec::new();
        core::mem::swap(&mut taken, &mut self.event_buf);
        taken
    }

    /// Whether the device is currently grabbed for exclusive use or not.
    pub fn is_grabbed(&self) -> (r: bool)
        ensures
            r == self.spec_grabbed(),
    {
        self.grabbed
    }

    /// The argument of the `EVIOCGRAB` request that grabbing (`true`) or
    /// releasing (`false`) the device takes, or `None` where it is in that
    /// state already and the kernel is not asked.
    pub fn grab_request(&self, grab: bool) -> (r: Option<u64>)
        ensures
            r == grab_ioctl_arg(self.spec_grabbed(), grab),
    {
        if self.grabbed == grab {
            None
        } else if grab {
            Some(1)
        } else {
            Some(0)
        }
    }

    /// Records that the device was grabbed (`true`) or released (`false`).
    /// Returns whether the kernel must be told, which is when the device was not
    /// in that state already.
    pub fn set_grabbed(&mut self, grab: bool) -> (changed: bool)
        ensures
            changed == (old(self).spec_grabbed() != grab),
            final(self).spec_grabbed() == grab,
            final(self).events() == old(self).events(),
            final(self).capabilities() == old(self).capabilities(),
    {
        let changed = self.grabbed != grab;
        self.grabbed = grab;
        changed
    }

    /// Records new auto repeat settings, after the kernel accepted them.
    pub fn set_auto_repeat(&mut self, repeat: &AutoRepeat)
        ensures
            final(self).capabilities() == (DeviceCapabilities { auto_repeat: Some(*repeat), ..old(self).capabilities() }),
            final(self).events() == old(self).events(),
            final(self).spec_grabbed() == old(self).spec_grabbed(),
    {
        self.caps.auto_repeat = Some(*repeat);
    }
}


// ---------------------------------------------------------------------------
// Strings the kernel reports.
// ---------------------------------------------------------------------------

/// What `String::from_utf8_lossy` makes of a byte string: its UTF-8 decoding,
/// with each invalid sequence replaced by U+FFFD.
pub uninterp spec fn utf8_lossy(bytes: Seq<u8>) -> Seq<char>;

/// Calls `String::from_utf8`: the string the bytes encode if they are valid
/// UTF-8; otherwise the error, whose bytes (`FromUtf8Error::into_bytes`) are
/// the ones it was given.
#[verifier::external_body]
fn string_from_utf8(v: Vec<u8>) -> (r: Result<String, Vec<u8>>)
    ensures
        match r {
            Ok(s) => vstd::utf8::valid_utf8(v@) && s@ == vstd::utf8::decode_utf8(v@),
            Err(b) => !vstd::utf8::valid_utf8(v@) && b@ == v@,
        },
{
    match String::from_utf8(v) {
        Ok(s) => Ok(s),
        Err(e) => Err(e.into_bytes()),
    }
}

/// Calls `String::from_utf8_lossy` (and `Cow::into_owned`): the string the
/// bytes encode, with each invalid sequence replaced by U+FFFD; on valid UTF-8
/// that is the plain decoding.
#[verifier::external_body]
fn string_from_utf8_lossy(v: &[u8]) -> (r: String)
    ensures
        r@ == utf8_lossy(v@),
        vstd::utf8::valid_utf8(v@) ==> r@ == vstd::utf8::decode_utf8(v@),
{
    String::from_utf8_lossy(v).into_owned()
}

/// Turns bytes into a string, replacing invalid UTF-8 sequences.
pub fn bytes_into_string_lossy(v: Vec<u8>) -> (r: String)
    ensures
        vstd::utf8::valid_utf8(v@) ==> r@ == vstd::utf8::decode_utf8(v@),
        !vstd::utf8::valid_utf8(v@) ==> r@ == utf8_lossy(v@),
{
    match string_from_utf8(v) {
        Ok(s) => s,
        Err(b) => string_from_utf8_lossy(b.as_slice()),
    }
}

/// The string a kernel string ioctl left in `buf`, given what the call
/// returned (`None` if it failed): `None` if it failed or gave no more than the
/// terminating NUL, otherwise the `len - 1` bytes before the NUL.
pub fn cstring_from_ioctl(buf: Vec<u8>, res: Option<i32>) -> (r: Option<Vec<u8>>)
    requires
        res is Some ==> 0 <= res->0 <= buf@.len(),
        res is Some && res->0 > 1 ==> buf@[res->0 - 1] == 0,
    ensures
        match r {
            Some(out) => res is Some && res->0 > 1 && out@ == buf@.subrange(0, res->0 - 1),
            None => !(res is Some && res->0 > 1),
        },
{
    match res {
        Some(len) => {
            if len > 1 {
                let mut buf = buf;
                buf.truncate(len as usize);
                let _nul = buf.pop();
                Some(buf)
            } else {
                None
            }
        },
        None => None,
    }
}

/// The (major, minor, revision) triple packed into the version the kernel reports.
pub fn driver_version_from_raw(v: i32) -> (r: (u8, u8, u8))
    ensures
        r.0 == ((v >> 16u32) & 0xff) as u8,
        r.1 == ((v >> 8u32) & 0xff) as u8,
        r.2 == (v & 0xff) as u8,
{
    (((v >> 16u32) & 0xff) as u8, ((v >> 8u32) & 0xff) as u8, (v & 0xff) as u8)
}

/// The number of effects the kernel reports as playable at once; 0 for a
/// negative report.
pub fn max_ff_effects_from_raw(n: i32) -> (r: usize)
    ensures
        r == (if n >= 0 { n as int } else { 0 }),
{
    if n >= 0 {
        n as usize
    } else {
        0
    }
}

// ---------------------------------------------------------------------------
// Scancode requests.
// ---------------------------------------------------------------------------

/// The flag that makes a keymap request address an entry by index.
pub const INPUT_KEYMAP_BY_INDEX: u8 = 1;

/// A keymap request for the scancode of `keycode`.
pub fn keymap_query_by_keycode(keycode: u32) -> (r: input_keymap_entry)
    ensures
        r.flags == 0,
        r.len == 0,
        r.index == 0,
        r.keycode == keycode,
        r.scancode@ == Seq::new(32, |i: int| 0u8),
{
    let r = input_keymap_entry { flags: 0, len: 0, index: 0, keycode, scancode: [0u8; 32] };
    assert(r.scancode@ =~= Seq::new(32, |i: int| 0u8));
    r
}

/// A keymap request for the entry at `index`.
pub fn keymap_query_by_index(index: u16) -> (r: input_keymap_entry)
    ensures
        r.flags == INPUT_KEYMAP_BY_INDEX,
        r.len == 0,
        r.index == index,
        r.keycode == 0,
        r.scancode@ == Seq::new(32, |i: int| 0u8),
{
    let r = input_keymap_entry { flags: INPUT_KEYMAP_BY_INDEX, len: 0, index, keycode: 0, scancode: [0u8; 32] };
    assert(r.scancode@ =~= Seq::new(32, |i: int| 0u8));
    r
}

/// The scancode a keymap entry holds: its first `len` bytes.
pub fn keymap_scancode(entry: &input_keymap_entry) -> (r: Vec<u8>)
    requires
        entry.len <= 32,
    ensures
        r@ == entry.scancode@.subrange(0, entry.len as int),
{
    let n = entry.len as usize;
    let mut out: Vec<u8> = Vec::new();
    let mut i: usize = 0;
    while i < n
        invariant
            n == entry.len,
            n <= 32,
            i <= n,
            out@ == entry.scancode@.subrange(0, i as int),
        decreases n - i,
    {
        out.push(entry.scancode[i]);
        i += 1;
        assert(out@ =~= entry.scancode@.subrange(0, i as int));
    }
    out
}

/// A keymap request that maps `scancode` to `keycode`; with an index, the
/// entry at that index is addressed instead of the scancode.
pub fn keymap_update(index: Option<u16>, keycode: u32, scancode: &[u8]) -> (r: input_keymap_entry)
    requires
        scancode@.len() <= 32,
    ensures
        r.flags == (if index is Some { INPUT_KEYMAP_BY_INDEX } else { 0 }),
        r.len == scancode@.len(),
        r.index == (match index { Some(i) => i, None => 0 }),
        r.keycode == keycode,
        r.scancode@.subrange(0, scancode@.len() as int) == scancode@,
        forall|i: int| scancode@.len() <= i < 32 ==> r.scancode@[i] == 0,
{
    let len = scancode.len();
    let mut bytes = [0u8; 32];
    let mut i: usize = 0;
    while i < len
        invariant
            len == scancode@.len(),
            len <= 32,
            i <= len,
            forall|j: int| 0 <= j < i ==> bytes@[j] == scancode@[j],
            forall|j: int| i <= j < 32 ==> bytes@[j] == 0,
        decreases len - i,
    {
        bytes[i] = scancode[i];
        i += 1;
    }
    assert(bytes@.subrange(0, len as int) =~= scancode@);
    let (flags, idx) = match index {
        Some(i) => (INPUT_KEYMAP_BY_INDEX, i),
        None => (0u8, 0u16),
    };
    input_keymap_entry { flags, len: len as u8, index: idx, keycode, scancode: bytes }
}

// ---------------------------------------------------------------------------
// Force feedback requests.
// ---------------------------------------------------------------------------

/// The event that sets the force feedback gain of a device.
pub fn ff_gain_event(value: u16) -> (r: InputEvent)
    ensures
        r == spec_new_event(crate::constants::EventType::FORCEFEEDBACK, FFEffectType::FF_GAIN, value as i32),
{
    FFEvent::new(FFEffectType(FFEffectType::FF_GAIN), value as i32).event()
}

/// The event that sets the force feedback autocenter of a device.
pub fn ff_autocenter_event(value: u16) -> (r: InputEvent)
    ensures
        r == spec_new_event(crate::constants::EventType::FORCEFEEDBACK, FFEffectType::FF_AUTOCENTER, value as i32),
{
    FFEvent::new(FFEffectType(FFEffectType::FF_AUTOCENTER), value as i32).event()
}

/// The event that plays the uploaded effect `id` `count` times.
pub fn ff_play_event(id: u16, count: i32) -> (r: InputEvent)
    ensures
        r == spec_new_event(crate::constants::EventType::FORCEFEEDBACK, id, count),
{
    FFEvent::new(FFEffectType(id), count).event()
}

/// The event that stops the uploaded effect `id`.
pub fn ff_stop_event(id: u16) -> (r: InputEvent)
    ensures
        r == spec_new_event(crate::constants::EventType::FORCEFEEDBACK, id, 0),
{
    FFEvent::new(FFEffectType(id), 0).event()
}

/// The kernel's form of an effect to upload as a new one: its id is -1, which
/// asks the kernel to pick one.
pub fn ff_effect_for_upload(data: FFEffectData) -> (r: ff_effect)
    ensures
        encodes(data, (ff_effect { id: 0, ..r })),
        r.id == -1,
{
    let mut effect = data.to_raw();
    effect.id = -1;
    effect
}

/// The kernel's form of an effect that replaces the uploaded effect `id`.
pub fn ff_effect_for_update(data: FFEffectData, id: u16) -> (r: ff_effect)
    ensures
        encodes(data, (ff_effect { id: 0, ..r })),
        r.id == id as i16,
{
    let mut effect = data.to_raw();
    effect.id = id as i16;
    effect
}

/// The id the kernel gave an uploaded effect.
pub fn uploaded_effect_id(effect: &ff_effect) -> (r: u16)
    ensures
        r == effect.id as u16,
{
    effect.id as u16
}

// ---------------------------------------------------------------------------
// Absolute axis information.
// ---------------------------------------------------------------------------

/// Each supported absolute axis, in increasing code order, with its
/// information from `raw_absinfo`, the state of every axis.
pub fn absinfo_of_axes(supported: Option<&AttributeSetRef<AbsoluteAxisType>>, raw_absinfo: &[input_absinfo]) -> (r: Vec<(AbsoluteAxisType, AbsInfo)>)
    requires
        raw_absinfo@.len() == ABS_CNT,
    ensures
        match supported {
            Some(axes) => {
                &&& enumerates(r@.map_values(|p: (AbsoluteAxisType, AbsInfo)| p.0), axes@)
                &&& forall|k: int| 0 <= k < r@.len() ==> #[trigger] r@[k].1 == AbsInfo(raw_absinfo@[r@[k].0.0 as int])
            },
            None => r@.len() == 0,
        },
{
    match supported {
        None => Vec::new(),
        Some(axes) => {
            let list = axes.iter();
            let mut out: Vec<(AbsoluteAxisType, AbsInfo)> = Vec::new();
            let mut i: usize = 0;
            while i < list.len()
                invariant
                    i <= list@.len(),
                    raw_absinfo@.len() == ABS_CNT,
                    enumerates(list@, axes@),
                    forall|c: nat| #[trigger] axes@.contains(c) ==> c < AttributeSet::<AbsoluteAxisType>::capacity(),
                    out@.len() == i,
                    forall|k: int| 0 <= k < i ==> #[trigger] out@[k].0 == list@[k],
                    forall|k: int| 0 <= k < i ==> #[trigger] out@[k].1 == AbsInfo(raw_absinfo@[out@[k].0.0 as int]),
                decreases list@.len() - i,
            {
                let axis = list[i];
                proof { assert(axes@.contains(list@[i as int].spec_index())); }
                let info = AbsInfo(raw_absinfo[axis.0 as usize]);
                out.push((axis, info));
                i += 1;
            }
            assert(out@.map_values(|p: (AbsoluteAxisType, AbsInfo)| p.0) =~= list@);
            out
        },
    }
}

// ---------------------------------------------------------------------------
// Writing events.
// ---------------------------------------------------------------------------

/// What one `write` of the bytes still to send came back with.
#[derive(Clone, Copy, Debug, PartialEq, Eq, Structural)]
pub enum WriteOutcome {
    /// This many bytes were written.
    Written(usize),
    /// The call was interrupted before it wrote anything (`EINTR`).
    Interrupted,
    /// The call failed with this error number.
    Failed(i32),
}

/// What to do next when writing a buffer out.
#[derive(Clone, Copy, Debug, PartialEq, Eq, Structural)]
pub enum WriteStep {
    /// Stop: the file takes no more bytes.
    Finished,
    /// Write again, the bytes from this offset on.
    WriteFrom(usize),
    /// Stop with this error number.
    Failed(i32),
}

/// The step after writing the bytes of a `total`-byte buffer from `offset` on:
/// a write of no bytes ends the loop, a partial write continues after what was
/// written, an interrupted one is retried from the same place, and any other
/// error ends it with that error.
pub fn write_step(offset: usize, total: usize, outcome: WriteOutcome) -> (r: WriteStep)
    requires
        offset <= total,
        outcome matches WriteOutcome::Written(n) ==> n <= total - offset,
    ensures
        r == (match outcome {
            WriteOutcome::Written(n) => if n == 0 { WriteStep::Finished } else { WriteStep::WriteFrom((offset + n) as usize) },
            WriteOutcome::Interrupted => WriteStep::WriteFrom(offset),
            WriteOutcome::Failed(e) => WriteStep::Failed(e),
        }),
{
    match outcome {
        WriteOutcome::Written(n) => if n == 0 {
            WriteStep::Finished
        } else {
            WriteStep::WriteFrom(offset + n)
        },
        WriteOutcome::Interrupted => WriteStep::WriteFrom(offset),
        WriteOutcome::Failed(e) => WriteStep::Failed(e),
    }
}

} // verus!
