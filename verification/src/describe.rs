//! Descriptions of events and device ids, as the library's debug output writes them.

use crate::attribute_set::{ArrayedEvdevEnum, AttributeSet, EvdevEnum};
use crate::compat::{input_absinfo, input_event, input_id, ABS_CNT};
use crate::constants::{
    AbsoluteAxisType, EventType, LedType, MiscType, PropType, RelativeAxisType, SoundType, SwitchType,
};
use crate::device_state::{opt_set_view, DeviceStateView};
use crate::event::InputEvent;
use crate::event_variants::{is_known_type, summarizes, EventSummary};
use crate::inputid::{bus_type_label, InputId};
use crate::names::{
    absolute_axis_type_name, bus_kernel_name, event_code_name, event_type_name, ff_effect_type_name,
    ff_status_name, key_code_name, led_type_name, misc_type_name, prop_type_name, relative_axis_type_name,
    repeat_code_name, sound_type_name, switch_type_name, synchronization_name, uinput_event_type_name,
};
use crate::raw_stream::DeviceCapabilities;
use crate::scancodes::KeyCode;
use crate::sync_stream::Device;
use crate::text::{dec_string, dec_text, hex_string, hex_text};
use vstd::prelude::*;
use vstd::string::StringExecFns;

verus! {

/// What `{:?}` writes for the point of the system clock `secs` seconds and
/// `nanos` nanoseconds after the Unix epoch.
pub uninterp spec fn systime_debug_text(secs: int, nanos: int) -> Seq<char>;

/// Calls the `Debug` formatting of `SystemTime` on the point `secs` seconds and
/// `nanos` nanoseconds after `UNIX_EPOCH` (built with `Duration::new`, which
/// does not panic below a second of nanoseconds, and `+`, which does not
/// overflow up to `i64::MAX` seconds).
#[verifier::external_body]
fn systime_debug(secs: u64, nanos: u32) -> (r: String)
    requires
        secs <= i64::MAX,
        nanos < 1_000_000_000,
    ensures
        r@ == systime_debug_text(secs as int, nanos as int),
{
    format!("{:?}", std::time::SystemTime::UNIX_EPOCH + std::time::Duration::new(secs, nanos))
}

/// The whole seconds and the nanoseconds of the system time an event's `timeval`
/// stands for, at or after the epoch (the microseconds, as nanoseconds, may
/// carry into the seconds).
pub open spec fn event_time_parts(ev: input_event) -> (int, int) {
    let nanos = (ev.time.tv_usec as u32) * 1000;
    (ev.time.tv_sec + nanos / 1_000_000_000, nanos % 1_000_000_000)
}

/// An event whose time can be shown: at or after the epoch, with a microsecond
/// count whose nanoseconds fit 32 bits and seconds that stay within `i64`.
pub open spec fn event_time_showable(ev: input_event) -> bool {
    &&& ev.time.tv_sec >= 0
    &&& (ev.time.tv_usec as u32) <= 4294967
    &&& event_time_parts(ev).0 <= i64::MAX
}

/// How a code or type without a name is shown.
pub open spec fn unknown_text(v: int) -> Seq<char> {
    "unknown key: "@ + dec_text(v)
}

/// How an event type is shown: its name, or its number.
pub open spec fn type_text(t: u16) -> Seq<char> {
    match event_type_name(t) {
        Some(n) => n,
        None => unknown_text(t as int),
    }
}

/// How an event's code is shown: for the types the library knows, the code's
/// name or its number; for any other type, the bare number.
pub open spec fn code_text(t: u16, c: u16) -> Seq<char> {
    if is_known_type(t) {
        match event_code_name(t, c) {
            Some(n) => n,
            None => unknown_text(c as int),
        }
    } else {
        dec_text(c as int)
    }
}

/// The description of an event: its time, type, code and value.
pub open spec fn event_text(ev: input_event) -> Seq<char> {
    "InputEvent { time: "@ + systime_debug_text(event_time_parts(ev).0, event_time_parts(ev).1)
        + ", type: "@ + type_text(ev.type_)
        + ", code: "@ + code_text(ev.type_, ev.code)
        + ", value: "@ + dec_text(ev.value as int)
        + " }"@
}

/// How a bus type is shown in a device id: its kernel name, or its number.
pub open spec fn bus_text(b: u16) -> Seq<char> {
    match bus_kernel_name(b) {
        Some(n) => n,
        None => unknown_text(b as int),
    }
}

/// The description of a device id: the bus type by name, the rest in hexadecimal.
pub open spec fn input_id_text(id: input_id) -> Seq<char> {
    "InputId { bus_type: "@ + bus_text(id.bustype)
        + ", vendor: "@ + hex_text(id.vendor as nat)
        + ", product: "@ + hex_text(id.product as nat)
        + ", version: "@ + hex_text(id.version as nat)
        + " }"@
}

/// `name` if there is one, else the "unknown key" text of `v`.
fn name_or_unknown(name: Option<&'static str>, v: u16) -> (r: String)
    ensures
        r@ == (match name {
            Some(n) => n@,
            None => unknown_text(v as int),
        }),
{
    match name {
        Some(n) => {
            let mut out = String::new();
            out.append(n);
            out
        },
        None => {
            let mut out = String::new();
            out.append("unknown key: ");
            let d = dec_string(v as i64);
            out.append(d.as_str());
            out
        },
    }
}

impl InputEvent {
    /// The description of the event: when it happened, its type and code by
    /// name where they have one, and its value.
    pub fn describe(&self) -> (r: String)
        requires
            event_time_showable(self.0),
        ensures
            r@ == event_text(self.0),
    {
        let usec = self.0.time.tv_usec as u32;
        let nanos = usec * 1000;
        let secs = self.0.time.tv_sec as u64 + (nanos / 1_000_000_000) as u64;
        let t = self.event_type().0;
        let c = self.code();
        let mut out = String::new();
        out.append("InputEvent { time: ");
        let time = systime_debug(secs, nanos % 1_000_000_000);
        out.append(time.as_str());
        out.append(", type: ");
        let ty = name_or_unknown(EventType(t).name(), t);
        out.append(ty.as_str());
        out.append(", code: ");
        let known = t == EventType::SYNCHRONIZATION || t == EventType::KEY || t == EventType::RELATIVE
            || t == EventType::ABSOLUTE || t == EventType::MISC || t == EventType::SWITCH || t == EventType::LED
            || t == EventType::SOUND || t == EventType::REPEAT || t == EventType::FORCEFEEDBACK
            || t == EventType::POWER || t == EventType::FORCEFEEDBACKSTATUS || t == EventType::UINPUT;
        let code = if known {
            name_or_unknown(self.code_name(), c)
        } else {
            dec_string(c as i64)
        };
        out.append(code.as_str());
        out.append(", value: ");
        let v = dec_string(self.value() as i64);
        out.append(v.as_str());
        out.append(" }");
        out
    }
}

impl InputId {
    /// The description of the id: the bus type by name, the vendor, product
    /// and version in hexadecimal.
    pub fn describe(&self) -> (r: String)
        ensures
            r@ == input_id_text(self.0),
    {
        let mut out = String::new();
        out.append("InputId { bus_type: ");
        let b = name_or_unknown(self.bus_type().name(), self.0.bustype);
        out.append(b.as_str());
        out.append(", vendor: ");
        let v = hex_string(self.vendor() as u64);
        out.append(v.as_str());
        out.append(", product: ");
        let p = hex_string(self.product() as u64);
        out.append(p.as_str());
        out.append(", version: ");
        let q = hex_string(self.version() as u64);
        out.append(q.as_str());
        out.append(" }");
        out
    }
}

// ---------------------------------------------------------------------------
// The description of a device.
// ---------------------------------------------------------------------------

/// What `{:?}` writes for a string: it quoted, with its special characters escaped.
pub uninterp spec fn str_debug_text(s: Seq<char>) -> Seq<char>;

/// Calls the `Debug` formatting of `str`: the string quoted, with quotes,
/// backslashes and unprintable characters escaped.
#[verifier::external_body]
fn str_debug(s: &str) -> (r: String)
    ensures
        r@ == str_debug_text(s@),
{
    format!("{:?}", s)
}

/// The texts one after the other.
pub open spec fn concat_text(items: Seq<Seq<char>>) -> Seq<char>
    decreases items.len(),
{
    if items.len() == 0 {
        Seq::empty()
    } else {
        concat_text(items.drop_last()) + items.last()
    }
}

/// The texts separated by `, `.
pub open spec fn join_text(items: Seq<Seq<char>>) -> Seq<char>
    decreases items.len(),
{
    if items.len() == 0 {
        Seq::empty()
    } else if items.len() == 1 {
        items[0]
    } else {
        join_text(items.drop_last()) + ", "@ + items.last()
    }
}

/// How a set is shown: its members between braces, separated by `, `.
pub open spec fn set_debug_text(items: Seq<Seq<char>>) -> Seq<char> {
    "{"@ + join_text(items) + "}"@
}

/// The kernel's name of code `c` of a kind of code: 0 properties, 1 relative
/// axes, 2 miscellaneous, 3 switches, 4 LEDs, 5 keys, 6 sounds.
pub open spec fn kind_name(kind: nat, c: u16) -> Option<Seq<char>> {
    if kind == 0 {
        prop_type_name(c)
    } else if kind == 1 {
        relative_axis_type_name(c)
    } else if kind == 2 {
        misc_type_name(c)
    } else if kind == 3 {
        switch_type_name(c)
    } else if kind == 4 {
        led_type_name(c)
    } else if kind == 5 {
        key_code_name(c)
    } else {
        sound_type_name(c)
    }
}

/// How a code is shown: its name, or its number.
pub open spec fn code_debug(kind: nat, c: nat) -> Seq<char> {
    match kind_name(kind, c as u16) {
        Some(n) => n,
        None => unknown_text(c as int),
    }
}

/// `true` or `false`.
pub open spec fn bool_text(b: bool) -> Seq<char> {
    if b { "true"@ } else { "false"@ }
}

/// How code `c` of a kind is listed: by its name alone in a set of properties,
/// relative axes or miscellaneous codes; on a line of its own with whether it is
/// on for switches and LEDs, whether it is pressed for keys, and for sounds with
/// its index only. `on` says whether the code is on, lit or pressed.
pub open spec fn item_text(kind: nat, c: nat, on: bool) -> Seq<char> {
    if kind <= 2 {
        code_debug(kind, c)
    } else if kind <= 4 {
        "    "@ + code_debug(kind, c) + " ("@ + bool_text(on) + ", index "@ + dec_text(c as int) + ")\n"@
    } else if kind == 5 {
        "    "@ + code_debug(kind, c) + " ("@ + (if on { "pressed, "@ } else { ""@ }) + "index "@ + dec_text(c as int)
            + ")\n"@
    } else {
        "    "@ + code_debug(kind, c) + " (index "@ + dec_text(c as int) + ")\n"@
    }
}

/// The items of the members of `s` below `n`, in increasing code order.
pub open spec fn line_items(s: Set<nat>, n: nat, kind: nat, st: Set<nat>) -> Seq<Seq<char>>
    decreases n,
{
    if n == 0 {
        Seq::empty()
    } else {
        let prev = line_items(s, (n - 1) as nat, kind, st);
        if s.contains((n - 1) as nat) {
            prev.push(item_text(kind, (n - 1) as nat, st.contains((n - 1) as nat)))
        } else {
            prev
        }
    }
}

/// How the state of an absolute axis is shown.
pub open spec fn absinfo_text(a: input_absinfo) -> Seq<char> {
    "input_absinfo { value: "@ + dec_text(a.value as int) + ", minimum: "@ + dec_text(a.minimum as int)
        + ", maximum: "@ + dec_text(a.maximum as int) + ", fuzz: "@ + dec_text(a.fuzz as int) + ", flat: "@
        + dec_text(a.flat as int) + ", resolution: "@ + dec_text(a.resolution as int) + " }"@
}

/// The lines of the supported absolute axes below `n`, each with its state.
pub open spec fn abs_items(s: Set<nat>, n: nat, abs: Seq<input_absinfo>) -> Seq<Seq<char>>
    decreases n,
{
    if n == 0 {
        Seq::empty()
    } else {
        let prev = abs_items(s, (n - 1) as nat, abs);
        let c = (n - 1) as nat;
        if s.contains(c) {
            prev.push("    "@ + code_debug_abs(c) + " ("@ + absinfo_text(abs[c as int]) + ", index "@ + dec_text(c as int)
                + ")\n"@)
        } else {
            prev
        }
    }
}

/// How an absolute axis code is shown.
pub open spec fn code_debug_abs(c: nat) -> Seq<char> {
    match absolute_axis_type_name(c as u16) {
        Some(n) => n,
        None => unknown_text(c as int),
    }
}

/// The set of an optional set, empty where there is none.
pub open spec fn or_empty(s: Option<Set<nat>>) -> Set<nat> {
    match s {
        Some(x) => x,
        None => Set::empty(),
    }
}

/// The first line of a device's description: its name.
pub open spec fn name_part(caps: DeviceCapabilities) -> Seq<char> {
    (match caps.name { Some(n) => n@, None => "Unnamed device"@ }) + ":\n"@
}

/// The driver version line.
pub open spec fn version_part(caps: DeviceCapabilities) -> Seq<char> {
    "  Driver version: "@ + dec_text(caps.driver_version.0 as int) + "."@ + dec_text(caps.driver_version.1 as int)
        + "."@ + dec_text(caps.driver_version.2 as int) + "\n"@
}

/// A line showing an optional string, absent where there is none.
pub open spec fn opt_str_part(label: Seq<char>, s: Option<String>) -> Seq<char> {
    match s {
        Some(p) => label + str_debug_text(p@) + "\n"@,
        None => Seq::empty(),
    }
}

/// The lines of the device's ids: the bus by label, the rest in hexadecimal.
pub open spec fn ids_part(id: input_id) -> Seq<char> {
    "  Bus: "@ + bus_type_label(id.bustype) + "\n"@ + "  Vendor: "@ + hex_text(id.vendor as nat) + "\n"@
        + "  Product: "@ + hex_text(id.product as nat) + "\n"@ + "  Version: "@ + hex_text(id.version as nat) + "\n"@
}

/// A line showing a set of codes after `label`, absent where there is no set.
pub open spec fn set_part(label: Seq<char>, s: Option<Set<nat>>, cap: nat, kind: nat) -> Seq<char> {
    match s {
        Some(x) => label + set_debug_text(line_items(x, cap, kind, Set::empty())) + "\n"@,
        None => Seq::empty(),
    }
}

/// A heading followed by a line per supported code with its state, absent
/// where the codes or their state are not there.
pub open spec fn lines_part(heading: Seq<char>, s: Option<Set<nat>>, st: Option<Set<nat>>, cap: nat, kind: nat) -> Seq<char> {
    if s is Some && st is Some {
        heading + concat_text(line_items(s->0, cap, kind, st->0))
    } else {
        Seq::empty()
    }
}

/// The absolute axes section: a line per supported axis with its state.
pub open spec fn abs_part(s: Option<Set<nat>>, abs: Option<Seq<input_absinfo>>) -> Seq<char> {
    if s is Some && abs is Some {
        "  Absolute Axes:\n"@ + concat_text(abs_items(s->0, AttributeSet::<AbsoluteAxisType>::capacity(), abs->0))
    } else {
        Seq::empty()
    }
}

/// The closing lines: force feedback, power and force feedback status support.
pub open spec fn flags_part(ty: Set<nat>) -> Seq<char> {
    (if ty.contains(EventType::FORCEFEEDBACK as nat) { "  Force Feedback supported\n"@ } else { Seq::empty() })
        + (if ty.contains(EventType::POWER as nat) { "  Power supported\n"@ } else { Seq::empty() })
        + (if ty.contains(EventType::FORCEFEEDBACKSTATUS as nat) { "  Force Feedback status supported\n"@ } else { Seq::empty() })
}

/// The description of a device: its name, driver version, location, ids and
/// properties, then what it supports, with the state of its keys, axes,
/// switches and LEDs as `state` holds it.
pub open spec fn device_text(caps: DeviceCapabilities, state: DeviceStateView) -> Seq<char> {
    name_part(caps) + version_part(caps) + opt_str_part("  Physical address: "@, caps.phys)
        + opt_str_part("  Unique name: "@, caps.uniq) + ids_part(caps.id)
        + set_part("  Properties: "@, Some(caps.props@), AttributeSet::<PropType>::capacity(), 0)
        + lines_part("  Keys supported:\n"@, opt_set_view(caps.supported_keys), state.keys, AttributeSet::<KeyCode>::capacity(), 5)
        + set_part("  Relative Axes: "@, opt_set_view(caps.supported_relative), AttributeSet::<RelativeAxisType>::capacity(), 1)
        + abs_part(opt_set_view(caps.supported_absolute), state.abs)
        + set_part("  Miscellaneous capabilities: "@, opt_set_view(caps.supported_misc), AttributeSet::<MiscType>::capacity(), 2)
        + lines_part("  Switches:\n"@, opt_set_view(caps.supported_switch), state.switches, AttributeSet::<SwitchType>::capacity(), 3)
        + lines_part("  LEDs:\n"@, opt_set_view(caps.supported_led), state.leds, AttributeSet::<LedType>::capacity(), 4)
        + (match opt_set_view(caps.supported_snd) {
            Some(x) => "  Sounds:"@ + concat_text(line_items(x, AttributeSet::<SoundType>::capacity(), 6, Set::empty())),
            None => Seq::empty(),
        })
        + flags_part(caps.ty@)
}

/// The kernel's name of code `c` of a kind of code (see [`kind_name`]).
fn kind_name_of(kind: u8, c: u16) -> (r: Option<&'static str>)
    requires
        kind <= 6,
    ensures
        r matches Some(n) ==> kind_name(kind as nat, c) == Some(n@),
        r is None ==> kind_name(kind as nat, c) is None,
{
    if kind == 0 {
        PropType(c).name()
    } else if kind == 1 {
        RelativeAxisType(c).name()
    } else if kind == 2 {
        MiscType(c).name()
    } else if kind == 3 {
        SwitchType(c).name()
    } else if kind == 4 {
        LedType(c).name()
    } else if kind == 5 {
        KeyCode(c).name()
    } else {
        SoundType(c).name()
    }
}

fn bool_string(b: bool) -> (r: &'static str)
    ensures
        r@ == bool_text(b),
{
    if b { "true" } else { "false" }
}

/// The item of code `c` of a kind (see [`item_text`]).
fn item_string(kind: u8, c: u16, on: bool) -> (r: String)
    requires
        kind <= 6,
    ensures
        r@ == item_text(kind as nat, c as nat, on),
{
    let name = name_or_unknown(kind_name_of(kind, c), c);
    let mut out = String::new();
    if kind <= 2 {
        out.append(name.as_str());
    } else {
        let idx = dec_string(c as i64);
        out.append("    ");
        out.append(name.as_str());
        if kind <= 4 {
            out.append(" (");
            out.append(bool_string(on));
            out.append(", index ");
        } else if kind == 5 {
            out.append(" (");
            if on {
                out.append("pressed, ");
            } else {
                out.append("");
            }
            out.append("index ");
        } else {
            out.append(" (index ");
        }
        out.append(idx.as_str());
        out.append(")\n");
    }
    out
}

/// The number of codes a set of `T` can hold.
fn capacity_of<T: ArrayedEvdevEnum>() -> (r: usize)
    ensures
        r == AttributeSet::<T>::capacity(),
        r <= 0x1000,
{
    let n = T::count();
    (n + 7) / 8 * 8
}

/// The items of the members of `s`, in increasing code order, one after the
/// other (`joined` false) or separated by `, ` (`joined` true); `st` says which
/// codes are on.
fn items_string<T: ArrayedEvdevEnum>(kind: u8, s: &AttributeSet<T>, st: &AttributeSet<T>, joined: bool) -> (r: String)
    requires
        kind <= 6,
    ensures
        joined ==> r@ == join_text(line_items(s@, AttributeSet::<T>::capacity(), kind as nat, st@)),
        !joined ==> r@ == concat_text(line_items(s@, AttributeSet::<T>::capacity(), kind as nat, st@)),
{
    let cap = capacity_of::<T>();
    let mut out = String::new();
    let mut empty = true;
    let mut c: usize = 0;
    while c < cap
        invariant
            c <= cap,
            cap == AttributeSet::<T>::capacity(),
            cap <= 0x1000,
            kind <= 6,
            empty == (line_items(s@, c as nat, kind as nat, st@).len() == 0),
            joined ==> out@ == join_text(line_items(s@, c as nat, kind as nat, st@)),
            !joined ==> out@ == concat_text(line_items(s@, c as nat, kind as nat, st@)),
        decreases cap - c,
    {
        let code = T::from_index(c);
        let ghost prev = line_items(s@, c as nat, kind as nat, st@);
        if s.contains(code) {
            let item = item_string(kind, c as u16, st.contains(code));
            let ghost next = prev.push(item@);
            assert(next.drop_last() =~= prev);
            if joined && !empty {
                out.append(", ");
            }
            out.append(item.as_str());
            empty = false;
            proof {
                if joined && prev.len() == 0 {
                    assert(next.len() == 1);
                    assert(out@ =~= join_text(next));
                }
            }
        }
        c += 1;
    }
    out
}

/// The lines of the supported absolute axes, each with its state in `abs`.
fn abs_lines(s: &AttributeSet<AbsoluteAxisType>, abs: &[input_absinfo]) -> (r: String)
    requires
        abs@.len() == ABS_CNT,
    ensures
        r@ == concat_text(abs_items(s@, AttributeSet::<AbsoluteAxisType>::capacity(), abs@)),
{
    let cap = capacity_of::<AbsoluteAxisType>();
    let mut out = String::new();
    let mut c: usize = 0;
    while c < cap
        invariant
            c <= cap,
            cap == AttributeSet::<AbsoluteAxisType>::capacity(),
            cap == ABS_CNT,
            abs@.len() == ABS_CNT,
            out@ == concat_text(abs_items(s@, c as nat, abs@)),
        decreases cap - c,
    {
        let code = AbsoluteAxisType(c as u16);
        let ghost prev = abs_items(s@, c as nat, abs@);
        if s.contains(code) {
            let a = abs[c];
            let name = match code.name() {
                Some(n) => {
                    let mut o = String::new();
                    o.append(n);
                    o
                },
                None => name_or_unknown(None, c as u16),
            };
            let mut line = String::new();
            line.append("    ");
            line.append(name.as_str());
            line.append(" (");
            let info = absinfo_string(&a);
            line.append(info.as_str());
            line.append(", index ");
            let idx = dec_string(c as i64);
            line.append(idx.as_str());
            line.append(")\n");
            let ghost next = prev.push(line@);
            assert(next.drop_last() =~= prev);
            out.append(line.as_str());
        }
        c += 1;
    }
    out
}

fn absinfo_string(a: &input_absinfo) -> (r: String)
    ensures
        r@ == absinfo_text(*a),
{
    let mut out = String::new();
    out.append("input_absinfo { value: ");
    let x = dec_string(a.value as i64);
    out.append(x.as_str());
    out.append(", minimum: ");
    let x = dec_string(a.minimum as i64);
    out.append(x.as_str());
    out.append(", maximum: ");
    let x = dec_string(a.maximum as i64);
    out.append(x.as_str());
    out.append(", fuzz: ");
    let x = dec_string(a.fuzz as i64);
    out.append(x.as_str());
    out.append(", flat: ");
    let x = dec_string(a.flat as i64);
    out.append(x.as_str());
    out.append(", resolution: ");
    let x = dec_string(a.resolution as i64);
    out.append(x.as_str());
    out.append(" }");
    out
}

/// A line showing a set of codes after `label`, or nothing.
fn set_section<T: ArrayedEvdevEnum>(label: &str, set: Option<&AttributeSet<T>>, kind: u8) -> (r: String)
    requires
        kind <= 6,
    ensures
        r@ == set_part(label@, opt_set_view(match set { Some(x) => Some(*x), None => None }), AttributeSet::<T>::capacity(), kind as nat),
{
    let mut out = String::new();
    if let Some(x) = set {
        let none: AttributeSet<T> = AttributeSet::new();
        let items = items_string(kind, x, &none, true);
        out.append(label);
        out.append("{");
        out.append(items.as_str());
        out.append("}");
        out.append("\n");
        assert(none@ =~= Set::<nat>::empty());
        assert(out@ =~= label@ + set_debug_text(line_items(x@, AttributeSet::<T>::capacity(), kind as nat, Set::empty())) + "\n"@);
    }
    out
}

/// A heading and a line per supported code with its state, or nothing.
fn lines_section<T: ArrayedEvdevEnum>(heading: &str, set: Option<&AttributeSet<T>>, st: Option<&AttributeSet<T>>, kind: u8) -> (r: String)
    requires
        kind <= 6,
    ensures
        r@ == lines_part(heading@, opt_set_view(match set { Some(x) => Some(*x), None => None }),
            opt_set_view(match st { Some(x) => Some(*x), None => None }), AttributeSet::<T>::capacity(), kind as nat),
{
    let mut out = String::new();
    if let (Some(x), Some(y)) = (set, st) {
        let items = items_string(kind, x, y, false);
        out.append(heading);
        out.append(items.as_str());
    }
    assert(out@ =~= lines_part(heading@, opt_set_view(match set { Some(x) => Some(*x), None => None }),
        opt_set_view(match st { Some(x) => Some(*x), None => None }), AttributeSet::<T>::capacity(), kind as nat));
    out
}

/// A line showing an optional string after `label`, or nothing.
fn opt_str_section(label: &str, s: Option<&str>) -> (r: String)
    ensures
        s is Some ==> r@ == label@ + str_debug_text(s->0@) + "\n"@,
        s is None ==> r@ == Seq::<char>::empty(),
{
    let mut out = String::new();
    if let Some(p) = s {
        let x = str_debug(p);
        out.append(label);
        out.append(x.as_str());
        out.append("\n");
    }
    out
}

/// `part` stands somewhere in `text`.
pub open spec fn text_contains(text: Seq<char>, part: Seq<char>) -> bool {
    exists|i: int| 0 <= i && i + part.len() <= text.len() && #[trigger] text.subrange(i, i + part.len()) == part
}

proof fn lemma_contains_within(a: Seq<char>, b: Seq<char>, c: Seq<char>, part: Seq<char>)
    requires
        text_contains(b, part),
    ensures
        text_contains(a + b + c, part),
{
    let i = choose|i: int| 0 <= i && i + part.len() <= b.len() && #[trigger] b.subrange(i, i + part.len()) == part;
    let t = a + b + c;
    let j = a.len() + i;
    assert(t.subrange(j, j + part.len()) =~= b.subrange(i, i + part.len()));
}

proof fn lemma_concat_text_contains(items: Seq<Seq<char>>, k: int)
    requires
        0 <= k < items.len(),
    ensures
        text_contains(concat_text(items), items[k]),
    decreases items.len(),
{
    let front = concat_text(items.drop_last());
    let last = items.last();
    if k == items.len() - 1 {
        let t = front + last;
        assert(t.subrange(front.len() as int, (front.len() + last.len()) as int) =~= last);
    } else {
        lemma_concat_text_contains(items.drop_last(), k);
        assert(items.drop_last()[k] == items[k]);
        lemma_contains_within(Seq::empty(), front, last, items[k]);
        assert(Seq::<char>::empty() + front + last =~= front + last);
    }
}

proof fn lemma_line_items_hold(s: Set<nat>, n: nat, kind: nat, st: Set<nat>, c: nat) -> (k: int)
    requires
        s.contains(c),
        c < n,
    ensures
        0 <= k < line_items(s, n, kind, st).len(),
        line_items(s, n, kind, st)[k] == item_text(kind, c, st.contains(c)),
    decreases n,
{
    let prev = line_items(s, (n - 1) as nat, kind, st);
    if c == n - 1 {
        prev.len() as int
    } else {
        let k = lemma_line_items_hold(s, (n - 1) as nat, kind, st, c);
        k
    }
}

proof fn lemma_lines_part_holds(heading: Seq<char>, s: Set<nat>, st: Set<nat>, cap: nat, kind: nat, c: nat)
    requires
        s.contains(c),
        c < cap,
    ensures
        text_contains(lines_part(heading, Some(s), Some(st), cap, kind), item_text(kind, c, st.contains(c))),
{
    let k = lemma_line_items_hold(s, cap, kind, st, c);
    let items = line_items(s, cap, kind, st);
    lemma_concat_text_contains(items, k);
    lemma_contains_within(heading, concat_text(items), Seq::empty(), items[k]);
    assert(heading + concat_text(items) + Seq::<char>::empty() =~= heading + concat_text(items));
}

/// In the description of a device, each LED that the device supports has a line
/// that names it, says whether it is lit as the cached state holds it, and
/// gives its index.
pub proof fn law_device_text_led_line(caps: DeviceCapabilities, state: DeviceStateView, c: nat)
    requires
        opt_set_view(caps.supported_led) is Some,
        opt_set_view(caps.supported_led)->0.contains(c),
        c < AttributeSet::<LedType>::capacity(),
        state.leds is Some,
    ensures
        text_contains(
            device_text(caps, state),
            "    "@ + (match led_type_name(c as u16) {
                Some(n) => n,
                None => "unknown key: "@ + dec_text(c as int),
            }) + " ("@ + (if state.leds->0.contains(c) { "true"@ } else { "false"@ }) + ", index "@
                + dec_text(c as int) + ")\n"@,
        ),
{
    let s = opt_set_view(caps.supported_led)->0;
    let st = state.leds->0;
    let cap = AttributeSet::<LedType>::capacity();
    let lp = lines_part("  LEDs:\n"@, Some(s), Some(st), cap, 4);
    lemma_lines_part_holds("  LEDs:\n"@, s, st, cap, 4, c);
    let a = name_part(caps) + version_part(caps) + opt_str_part("  Physical address: "@, caps.phys)
        + opt_str_part("  Unique name: "@, caps.uniq) + ids_part(caps.id)
        + set_part("  Properties: "@, Some(caps.props@), AttributeSet::<PropType>::capacity(), 0)
        + lines_part("  Keys supported:\n"@, opt_set_view(caps.supported_keys), state.keys, AttributeSet::<KeyCode>::capacity(), 5)
        + set_part("  Relative Axes: "@, opt_set_view(caps.supported_relative), AttributeSet::<RelativeAxisType>::capacity(), 1)
        + abs_part(opt_set_view(caps.supported_absolute), state.abs)
        + set_part("  Miscellaneous capabilities: "@, opt_set_view(caps.supported_misc), AttributeSet::<MiscType>::capacity(), 2)
        + lines_part("  Switches:\n"@, opt_set_view(caps.supported_switch), state.switches, AttributeSet::<SwitchType>::capacity(), 3);
    let z = (match opt_set_view(caps.supported_snd) {
            Some(x) => "  Sounds:"@ + concat_text(line_items(x, AttributeSet::<SoundType>::capacity(), 6, Set::empty())),
            None => Seq::empty(),
        }) + flags_part(caps.ty@);
    lemma_contains_within(a, lp, z, item_text(4, c, st.contains(c)));
    assert(device_text(caps, state) =~= a + lp + z);
}

/// In the description of a device, each switch that the device supports has a
/// line that names it, says whether it is on as the cached state holds it, and
/// gives its index.
pub proof fn law_device_text_switch_line(caps: DeviceCapabilities, state: DeviceStateView, c: nat)
    requires
        opt_set_view(caps.supported_switch) is Some,
        opt_set_view(caps.supported_switch)->0.contains(c),
        c < AttributeSet::<SwitchType>::capacity(),
        state.switches is Some,
    ensures
        text_contains(
            device_text(caps, state),
            "    "@ + (match switch_type_name(c as u16) {
                Some(n) => n,
                None => "unknown key: "@ + dec_text(c as int),
            }) + " ("@ + (if state.switches->0.contains(c) { "true"@ } else { "false"@ }) + ", index "@
                + dec_text(c as int) + ")\n"@,
        ),
{
    let s = opt_set_view(caps.supported_switch)->0;
    let st = state.switches->0;
    let cap = AttributeSet::<SwitchType>::capacity();
    let lp = lines_part("  Switches:\n"@, Some(s), Some(st), cap, 3);
    lemma_lines_part_holds("  Switches:\n"@, s, st, cap, 3, c);
    let a = name_part(caps) + version_part(caps) + opt_str_part("  Physical address: "@, caps.phys)
        + opt_str_part("  Unique name: "@, caps.uniq) + ids_part(caps.id)
        + set_part("  Properties: "@, Some(caps.props@), AttributeSet::<PropType>::capacity(), 0)
        + lines_part("  Keys supported:\n"@, opt_set_view(caps.supported_keys), state.keys, AttributeSet::<KeyCode>::capacity(), 5)
        + set_part("  Relative Axes: "@, opt_set_view(caps.supported_relative), AttributeSet::<RelativeAxisType>::capacity(), 1)
        + abs_part(opt_set_view(caps.supported_absolute), state.abs)
        + set_part("  Miscellaneous capabilities: "@, opt_set_view(caps.supported_misc), AttributeSet::<MiscType>::capacity(), 2);
    let z = lines_part("  LEDs:\n"@, opt_set_view(caps.supported_led), state.leds, AttributeSet::<LedType>::capacity(), 4)
        + (match opt_set_view(caps.supported_snd) {
            Some(x) => "  Sounds:"@ + concat_text(line_items(x, AttributeSet::<SoundType>::capacity(), 6, Set::empty())),
            None => Seq::empty(),
        }) + flags_part(caps.ty@);
    lemma_contains_within(a, lp, z, item_text(3, c, st.contains(c)));
    assert(device_text(caps, state) =~= a + lp + z);
}

/// In the description of a device, each key that the device supports has a
/// line that names it, says "pressed" exactly when the cached state holds it
/// pressed, and gives its index.
pub proof fn law_device_text_key_line(caps: DeviceCapabilities, state: DeviceStateView, c: nat)
    requires
        opt_set_view(caps.supported_keys) is Some,
        opt_set_view(caps.supported_keys)->0.contains(c),
        c < AttributeSet::<KeyCode>::capacity(),
        state.keys is Some,
    ensures
        text_contains(
            device_text(caps, state),
            "    "@ + (match key_code_name(c as u16) {
                Some(n) => n,
                None => "unknown key: "@ + dec_text(c as int),
            }) + " ("@ + (if state.keys->0.contains(c) { "pressed, "@ } else { ""@ }) + "index "@
                + dec_text(c as int) + ")\n"@,
        ),
{
    let s = opt_set_view(caps.supported_keys)->0;
    let st = state.keys->0;
    let cap = AttributeSet::<KeyCode>::capacity();
    let lp = lines_part("  Keys supported:\n"@, Some(s), Some(st), cap, 5);
    lemma_lines_part_holds("  Keys supported:\n"@, s, st, cap, 5, c);
    let a = name_part(caps) + version_part(caps) + opt_str_part("  Physical address: "@, caps.phys)
        + opt_str_part("  Unique name: "@, caps.uniq) + ids_part(caps.id)
        + set_part("  Properties: "@, Some(caps.props@), AttributeSet::<PropType>::capacity(), 0);
    let z = set_part("  Relative Axes: "@, opt_set_view(caps.supported_relative), AttributeSet::<RelativeAxisType>::capacity(), 1)
        + abs_part(opt_set_view(caps.supported_absolute), state.abs)
        + set_part("  Miscellaneous capabilities: "@, opt_set_view(caps.supported_misc), AttributeSet::<MiscType>::capacity(), 2)
        + lines_part("  Switches:\n"@, opt_set_view(caps.supported_switch), state.switches, AttributeSet::<SwitchType>::capacity(), 3)
        + lines_part("  LEDs:\n"@, opt_set_view(caps.supported_led), state.leds, AttributeSet::<LedType>::capacity(), 4)
        + (match opt_set_view(caps.supported_snd) {
            Some(x) => "  Sounds:"@ + concat_text(line_items(x, AttributeSet::<SoundType>::capacity(), 6, Set::empty())),
            None => Seq::empty(),
        }) + flags_part(caps.ty@);
    lemma_contains_within(a, lp, z, item_text(5, c, st.contains(c)));
    assert(device_text(caps, state) =~= a + lp + z);
}

proof fn lemma_abs_items_hold(s: Set<nat>, n: nat, abs: Seq<input_absinfo>, c: nat) -> (k: int)
    requires
        s.contains(c),
        c < n,
    ensures
        0 <= k < abs_items(s, n, abs).len(),
        abs_items(s, n, abs)[k] == "    "@ + code_debug_abs(c) + " ("@ + absinfo_text(abs[c as int]) + ", index "@
            + dec_text(c as int) + ")\n"@,
    decreases n,
{
    let prev = abs_items(s, (n - 1) as nat, abs);
    if c == n - 1 {
        prev.len() as int
    } else {
        let k = lemma_abs_items_hold(s, (n - 1) as nat, abs, c);
        k
    }
}

/// In the description of a device, each absolute axis that the device supports
/// has a line that names it and shows the axis's value, minimum, maximum, fuzz,
/// flat and resolution as the cached state holds them, and gives its index.
pub proof fn law_device_text_abs_line(caps: DeviceCapabilities, state: DeviceStateView, c: nat)
    requires
        opt_set_view(caps.supported_absolute) is Some,
        opt_set_view(caps.supported_absolute)->0.contains(c),
        c < AttributeSet::<AbsoluteAxisType>::capacity(),
        state.abs is Some,
    ensures
        ({
            let a = state.abs->0[c as int];
            text_contains(
                device_text(caps, state),
                "    "@ + (match absolute_axis_type_name(c as u16) {
                    Some(n) => n,
                    None => "unknown key: "@ + dec_text(c as int),
                }) + " ("@ + ("input_absinfo { value: "@ + dec_text(a.value as int) + ", minimum: "@
                    + dec_text(a.minimum as int) + ", maximum: "@ + dec_text(a.maximum as int) + ", fuzz: "@
                    + dec_text(a.fuzz as int) + ", flat: "@ + dec_text(a.flat as int) + ", resolution: "@
                    + dec_text(a.resolution as int) + " }"@) + ", index "@ + dec_text(c as int) + ")\n"@,
            )
        }),
{
    let s = opt_set_view(caps.supported_absolute)->0;
    let abs = state.abs->0;
    let cap = AttributeSet::<AbsoluteAxisType>::capacity();
    let k = lemma_abs_items_hold(s, cap, abs, c);
    let items = abs_items(s, cap, abs);
    lemma_concat_text_contains(items, k);
    let heading = "  Absolute Axes:\n"@;
    lemma_contains_within(heading, concat_text(items), Seq::empty(), items[k]);
    assert(heading + concat_text(items) + Seq::<char>::empty() =~= heading + concat_text(items));
    let ap = abs_part(Some(s), Some(abs));
    let a = name_part(caps) + version_part(caps) + opt_str_part("  Physical address: "@, caps.phys)
        + opt_str_part("  Unique name: "@, caps.uniq) + ids_part(caps.id)
        + set_part("  Properties: "@, Some(caps.props@), AttributeSet::<PropType>::capacity(), 0)
        + lines_part("  Keys supported:\n"@, opt_set_view(caps.supported_keys), state.keys, AttributeSet::<KeyCode>::capacity(), 5)
        + set_part("  Relative Axes: "@, opt_set_view(caps.supported_relative), AttributeSet::<RelativeAxisType>::capacity(), 1);
    let z = set_part("  Miscellaneous capabilities: "@, opt_set_view(caps.supported_misc), AttributeSet::<MiscType>::capacity(), 2)
        + lines_part("  Switches:\n"@, opt_set_view(caps.supported_switch), state.switches, AttributeSet::<SwitchType>::capacity(), 3)
        + lines_part("  LEDs:\n"@, opt_set_view(caps.supported_led), state.leds, AttributeSet::<LedType>::capacity(), 4)
        + (match opt_set_view(caps.supported_snd) {
            Some(x) => "  Sounds:"@ + concat_text(line_items(x, AttributeSet::<SoundType>::capacity(), 6, Set::empty())),
            None => Seq::empty(),
        }) + flags_part(caps.ty@);
    lemma_contains_within(a, ap, z, items[k]);
    assert(device_text(caps, state) =~= a + ap + z);
}

/// An event's code is named as the kind of code that the event's summary
/// carries: a relative axis event by the names of relative axes, a key event by
/// the names of keys, and so on; a power event and an event of a type the
/// library does not know have no code name. A description shows the code by
/// that name where there is one.
pub proof fn law_event_code_named_by_its_kind(s: EventSummary, ev: InputEvent)
    requires
        summarizes(s, ev),
    ensures
        event_code_name(ev.0.type_, ev.0.code) == (match s {
            EventSummary::Synchronization(_, c, _) => synchronization_name(c.0),
            EventSummary::Key(_, c, _) => key_code_name(c.0),
            EventSummary::RelativeAxis(_, c, _) => relative_axis_type_name(c.0),
            EventSummary::AbsoluteAxis(_, c, _) => absolute_axis_type_name(c.0),
            EventSummary::Misc(_, c, _) => misc_type_name(c.0),
            EventSummary::Switch(_, c, _) => switch_type_name(c.0),
            EventSummary::Led(_, c, _) => led_type_name(c.0),
            EventSummary::Sound(_, c, _) => sound_type_name(c.0),
            EventSummary::Repeat(_, c, _) => repeat_code_name(c.0),
            EventSummary::ForceFeedback(_, c, _) => ff_effect_type_name(c.0),
            EventSummary::Power(_, _, _) => None,
            EventSummary::ForceFeedbackStatus(_, c, _) => ff_status_name(c.0),
            EventSummary::UInput(_, c, _) => uinput_event_type_name(c.0),
            EventSummary::Other(_, _, _) => None,
        }),
        event_code_name(ev.0.type_, ev.0.code) matches Some(n) ==> code_text(ev.0.type_, ev.0.code) == n,
{
}

impl Device {
    /// The description of the device: its name, driver version, location, ids
    /// and properties, then each kind of code it supports, with whether each key
    /// is pressed, each axis's state, and whether each switch is on and each LED
    /// lit, as the cached state holds them.
    pub fn describe(&self) -> (r: String)
        requires
            self.wf(),
        ensures
            r@ == device_text(self.raw().capabilities(), self.cur()),
    {
        let ghost caps = self.raw().capabilities();
        let ghost cur = self.cur();
        let mut p1 = String::new();
        match self.name() {
            Some(n) => p1.append(n),
            None => p1.append("Unnamed device"),
        }
        p1.append(":\n");
        assert(p1@ == name_part(caps));
        let (maj, min, pat) = self.driver_version();
        let mut p2 = String::new();
        p2.append("  Driver version: ");
        let x = dec_string(maj as i64);
        p2.append(x.as_str());
        p2.append(".");
        let x = dec_string(min as i64);
        p2.append(x.as_str());
        p2.append(".");
        let x = dec_string(pat as i64);
        p2.append(x.as_str());
        p2.append("\n");
        assert(p2@ == version_part(caps));
        let p3 = opt_str_section("  Physical address: ", self.physical_path());
        assert(p3@ == opt_str_part("  Physical address: "@, caps.phys));
        let p4 = opt_str_section("  Unique name: ", self.unique_name());
        assert(p4@ == opt_str_part("  Unique name: "@, caps.uniq));
        let id = self.input_id();
        let mut p5 = String::new();
        p5.append("  Bus: ");
        p5.append(id.bus_type().label());
        p5.append("\n");
        p5.append("  Vendor: ");
        let x = hex_string(id.vendor() as u64);
        p5.append(x.as_str());
        p5.append("\n");
        p5.append("  Product: ");
        let x = hex_string(id.product() as u64);
        p5.append(x.as_str());
        p5.append("\n");
        p5.append("  Version: ");
        let x = hex_string(id.version() as u64);
        p5.append(x.as_str());
        p5.append("\n");
        assert(p5@ == ids_part(caps.id));
        let p6 = set_section("  Properties: ", Some(self.properties()), 0);
        let state = self.cached_state();
        let p7 = lines_section("  Keys supported:\n", self.supported_keys(), state.key_vals(), 5);
        let p8 = set_section("  Relative Axes: ", self.supported_relative_axes(), 1);
        let mut p9 = String::new();
        if let (Some(axes), Some(vals)) = (self.supported_absolute_axes(), state.abs_vals()) {
            p9.append("  Absolute Axes:\n");
            let x = abs_lines(axes, vals);
            p9.append(x.as_str());
        }
        assert(p9@ =~= abs_part(opt_set_view(caps.supported_absolute), cur.abs));
        let p10 = set_section("  Miscellaneous capabilities: ", self.misc_properties(), 2);
        let p11 = lines_section("  Switches:\n", self.supported_switches(), state.switch_vals(), 3);
        let p12 = lines_section("  LEDs:\n", self.supported_leds(), state.led_vals(), 4);
        let mut p13 = String::new();
        if let Some(snd) = self.supported_sounds() {
            let none: AttributeSet<SoundType> = AttributeSet::new();
            let x = items_string(6, snd, &none, false);
            p13.append("  Sounds:");
            p13.append(x.as_str());
            assert(none@ =~= Set::<nat>::empty());
        }
        let evs = self.supported_events();
        let mut p14 = String::new();
        if evs.contains(EventType(EventType::FORCEFEEDBACK)) {
            p14.append("  Force Feedback supported\n");
        }
        if evs.contains(EventType(EventType::POWER)) {
            p14.append("  Power supported\n");
        }
        if evs.contains(EventType(EventType::FORCEFEEDBACKSTATUS)) {
            p14.append("  Force Feedback status supported\n");
        }
        let mut out = p1;
        out.append(p2.as_str());
        out.append(p3.as_str());
        out.append(p4.as_str());
        out.append(p5.as_str());
        out.append(p6.as_str());
        out.append(p7.as_str());
        out.append(p8.as_str());
        out.append(p9.as_str());
        out.append(p10.as_str());
        out.append(p11.as_str());
        out.append(p12.as_str());
        out.append(p13.as_str());
        out.append(p14.as_str());
        assert(p14@ =~= flags_part(caps.ty@));
        assert(out@ =~= device_text(caps, cur));
        out
    }
}

} // verus!
