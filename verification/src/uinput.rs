//! Virtual device emulation for evdev via uinput.
//!
//! What a virtual device needs decided before it talks to the kernel: the
//! setup it registers with, the names of its device nodes, and the requests
//! for force feedback uploads and erasures.

use crate::compat::{ff_effect, input_id, uinput_setup, UINPUT_MAX_NAME_SIZE};
use crate::constants::UInputEventType;
use crate::event_variants::UInputEvent;
use crate::ff::{decode_effect, raw_is_valid, FFEffectData};
use crate::inputid::BusType;
use vstd::prelude::*;

verus! {

/// The identity a virtual device gets when none is given.
pub open spec fn spec_default_id() -> input_id {
    input_id { bustype: BusType::BUS_USB, vendor: 0x1234, product: 0x5678, version: 0x111 }
}

/// The identity a virtual device gets when none is given: a USB device with a
/// sample vendor and product.
pub fn default_id() -> (r: input_id)
    ensures
        r == spec_default_id(),
{
    input_id { bustype: BusType::BUS_USB, vendor: 0x1234, product: 0x5678, version: 0x111 }
}

/// The setup a virtual device registers with: its identity (the default one
/// if none is given), its name followed by NUL bytes, and the number of force
/// feedback effects it can hold.
pub fn uinput_setup_for(name: &[u8], id: Option<input_id>, ff_effects_max: u32) -> (r: uinput_setup)
    requires
        name@.len() + 1 < UINPUT_MAX_NAME_SIZE,
    ensures
        r.id == (match id { Some(i) => i, None => spec_default_id() }),
        r.ff_effects_max == ff_effects_max,
        r.name@.subrange(0, name@.len() as int) == name@,
        forall|i: int| name@.len() <= i < UINPUT_MAX_NAME_SIZE ==> r.name@[i] == 0,
{
    let mut bytes = [0u8; 80];
    let n = name.len();
    let mut i: usize = 0;
    while i < n
        invariant
            n == name@.len(),
            n + 1 < 80,
            i <= n,
            forall|j: int| 0 <= j < i ==> bytes@[j] == name@[j],
            forall|j: int| i <= j < 80 ==> bytes@[j] == 0,
        decreases n - i,
    {
        bytes[i] = name[i];
        i += 1;
    }
    assert(bytes@.subrange(0, n as int) =~= name@);
    let id = match id {
        Some(i) => i,
        None => default_id(),
    };
    uinput_setup { id, name: bytes, ff_effects_max }
}

/// The name of a virtual device's node under sysfs, from the buffer a
/// `UI_GET_SYSNAME` request filled and the length it returned, which counts
/// the terminating NUL.
pub fn sysname_from_ioctl(buf: Vec<u8>, len: i32) -> (r: Vec<u8>)
    requires
        1 <= len <= buf@.len(),
    ensures
        r@ == buf@.subrange(0, len - 1),
{
    let mut buf = buf;
    buf.truncate((len as usize) - 1);
    buf
}

/// The byte string `name` starts with `prefix`.
pub open spec fn has_prefix(name: Seq<u8>, prefix: Seq<u8>) -> bool {
    prefix.len() <= name.len() && name.subrange(0, prefix.len() as int) == prefix
}

/// Whether a file name in `/dev/input` or a sysfs input directory names an
/// event device node, i.e. starts with `event`.
pub fn is_event_node(name: &[u8]) -> (r: bool)
    ensures
        r == has_prefix(name@, seq![0x65u8, 0x76u8, 0x65u8, 0x6eu8, 0x74u8]),
{
    let prefix: [u8; 5] = [0x65, 0x76, 0x65, 0x6e, 0x74];
    if name.len() < 5 {
        return false;
    }
    let mut i: usize = 0;
    while i < 5
        invariant
            name@.len() >= 5,
            prefix@ == seq![0x65u8, 0x76u8, 0x65u8, 0x6eu8, 0x74u8],
            i <= 5,
            forall|j: int| 0 <= j < i ==> name@[j] == prefix@[j],
        decreases 5 - i,
    {
        if name[i] != prefix[i] {
            assert(name@.subrange(0, 5)[i as int] != prefix@[i as int]);
            return false;
        }
        i += 1;
    }
    assert(name@.subrange(0, 5) =~= prefix@);
    true
}

/// The request id a force feedback upload event carries.
pub fn ff_upload_request_id(event: &UInputEvent) -> (r: u32)
    requires
        event.spec_event().0.code == UInputEventType::UI_FF_UPLOAD,
    ensures
        r == event.spec_event().0.value as u32,
{
    event.event().value() as u32
}

/// The request id a force feedback erase event carries.
pub fn ff_erase_request_id(event: &UInputEvent) -> (r: u32)
    requires
        event.spec_event().0.code == UInputEventType::UI_FF_ERASE,
    ensures
        r == event.spec_event().0.value as u32,
{
    event.event().value() as u32
}

/// What a force feedback upload request holds: the request it answers, the
/// value it is answered with, the effect to upload and the one it replaces.
pub struct FFUploadView {
    pub request_id: u32,
    pub retval: i32,
    pub effect: ff_effect,
    pub old: ff_effect,
}

/// A force feedback upload that a virtual device is processing. The kernel
/// filled in the effects; the device picks the effect id and the return value,
/// and answers the request with them when it is done.
pub struct FFUploadEvent {
    request_id: u32,
    retval: i32,
    effect: ff_effect,
    old: ff_effect,
}

impl View for FFUploadEvent {
    type V = FFUploadView;

    closed spec fn view(&self) -> FFUploadView {
        FFUploadView { request_id: self.request_id, retval: self.retval, effect: self.effect, old: self.old }
    }
}

impl FFUploadEvent {
    /// The upload of request `request_id`, as the kernel described it, with
    /// the return value still 0.
    pub fn new(request_id: u32, effect: ff_effect, old: ff_effect) -> (r: Self)
        ensures
            r@.request_id == request_id,
            r@.retval == 0,
            r@.effect == effect,
            r@.old == old,
    {
        FFUploadEvent { request_id, retval: 0, effect, old }
    }

    /// The id of the request this upload answers.
    pub fn request_id(&self) -> (r: u32)
        ensures
            r == self@.request_id,
    {
        self.request_id
    }

    /// The old effect data.
    pub fn old_effect(&self) -> (r: FFEffectData)
        requires
            raw_is_valid(self@.old),
        ensures
            r == decode_effect(self@.old),
    {
        FFEffectData::from_raw(self.old)
    }

    /// The new effect ID.
    pub fn effect_id(&self) -> (r: i16)
        ensures
            r == self@.effect.id,
    {
        self.effect.id
    }

    /// Sets the new effect ID; nothing else changes.
    pub fn set_effect_id(&mut self, id: i16)
        ensures
            final(self)@.effect.id == id,
            final(self)@.effect.type_ == old(self)@.effect.type_,
            final(self)@.effect.direction == old(self)@.effect.direction,
            final(self)@.effect.trigger == old(self)@.effect.trigger,
            final(self)@.effect.replay == old(self)@.effect.replay,
            final(self)@.effect.u == old(self)@.effect.u,
            final(self)@.request_id == old(self)@.request_id,
            final(self)@.retval == old(self)@.retval,
            final(self)@.old == old(self)@.old,
    {
        self.effect.id = id;
    }

    /// The new effect data.
    pub fn effect(&self) -> (r: FFEffectData)
        requires
            raw_is_valid(self@.effect),
        ensures
            r == decode_effect(self@.effect),
    {
        FFEffectData::from_raw(self.effect)
    }

    /// The new effect as the kernel holds it, with the effect id set so far.
    pub fn raw_effect(&self) -> (r: ff_effect)
        ensures
            r == self@.effect,
    {
        self.effect
    }

    /// The old effect as the kernel holds it.
    pub fn raw_old_effect(&self) -> (r: ff_effect)
        ensures
            r == self@.old,
    {
        self.old
    }

    /// The return value set so far for the upload.
    pub fn retval(&self) -> (r: i32)
        ensures
            r == self@.retval,
    {
        self.retval
    }

    /// Sets the return value to answer the upload with; nothing else changes.
    pub fn set_retval(&mut self, value: i32)
        ensures
            final(self)@.retval == value,
            final(self)@.request_id == old(self)@.request_id,
            final(self)@.effect == old(self)@.effect,
            final(self)@.old == old(self)@.old,
    {
        self.retval = value;
    }
}

/// What a force feedback erase request holds: the request it answers, the
/// effect to erase and the value it is answered with.
pub struct FFEraseView {
    pub request_id: u32,
    pub effect_id: u32,
    pub retval: i32,
}

/// A force feedback erasure that a virtual device is processing.
pub struct FFEraseEvent {
    request_id: u32,
    effect_id: u32,
    retval: i32,
}

impl View for FFEraseEvent {
    type V = FFEraseView;

    closed spec fn view(&self) -> FFEraseView {
        FFEraseView { request_id: self.request_id, effect_id: self.effect_id, retval: self.retval }
    }
}

impl FFEraseEvent {
    /// The erasure of request `request_id` of effect `effect_id`, with the
    /// return value still 0.
    pub fn new(request_id: u32, effect_id: u32) -> (r: Self)
        ensures
            r@.request_id == request_id,
            r@.effect_id == effect_id,
            r@.retval == 0,
    {
        FFEraseEvent { request_id, effect_id, retval: 0 }
    }

    /// The id of the request this erasure answers.
    pub fn request_id(&self) -> (r: u32)
        ensures
            r == self@.request_id,
    {
        self.request_id
    }

    /// The effect ID to erase.
    pub fn effect_id(&self) -> (r: u32)
        ensures
            r == self@.effect_id,
    {
        self.effect_id
    }

    /// The return value set so far for the erasure.
    pub fn retval(&self) -> (r: i32)
        ensures
            r == self@.retval,
    {
        self.retval
    }

    /// Sets the return value to answer the erasure with; nothing else changes.
    pub fn set_retval(&mut self, value: i32)
        ensures
            final(self)@.retval == value,
            final(self)@.request_id == old(self)@.request_id,
            final(self)@.effect_id == old(self)@.effect_id,
    {
        self.retval = value;
    }
}

} // verus!
