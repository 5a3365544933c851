use crate::compat::{ff_condition_effect, ff_effect, ff_envelope, ff_replay, ff_trigger};
use crate::constants::FFEffectType;
use vstd::prelude::*;

verus! {

/// Describes a generic force feedback effect envelope.
#[derive(Clone, Copy, Debug, Eq, PartialEq, Structural)]
pub struct FFEnvelope {
    /// How long the attack should last in milliseconds.
    pub attack_length: u16,
    /// The level of the attack at the beginning of the attack.
    pub attack_level: u16,
    /// How long the fade should last in milliseconds.
    pub fade_length: u16,
    /// The level of the fade at the end of the fade.
    pub fade_level: u16,
}

impl From<ff_envelope> for FFEnvelope {
    fn from(value: ff_envelope) -> (r: Self)
        ensures
            r == (FFEnvelope {
                attack_length: value.attack_length,
                attack_level: value.attack_level,
                fade_length: value.fade_length,
                fade_level: value.fade_level,
            }),
    {
        Self {
            attack_length: value.attack_length,
            attack_level: value.attack_level,
            fade_length: value.fade_length,
            fade_level: value.fade_level,
        }
    }
}

impl vstd::std_specs::convert::FromSpecImpl<ff_envelope> for FFEnvelope {
    open spec fn obeys_from_spec() -> bool {
        true
    }

    open spec fn from_spec(value: ff_envelope) -> FFEnvelope {
        FFEnvelope {
            attack_length: value.attack_length,
            attack_level: value.attack_level,
            fade_length: value.fade_length,
            fade_level: value.fade_level,
        }
    }
}

impl From<FFEnvelope> for ff_envelope {
    fn from(other: FFEnvelope) -> (r: Self)
        ensures
            r == (ff_envelope {
                attack_length: other.attack_length,
                attack_level: other.attack_level,
                fade_length: other.fade_length,
                fade_level: other.fade_level,
            }),
    {
        ff_envelope {
            attack_length: other.attack_length,
            attack_level: other.attack_level,
            fade_length: other.fade_length,
            fade_level: other.fade_level,
        }
    }
}

impl vstd::std_specs::convert::FromSpecImpl<FFEnvelope> for ff_envelope {
    open spec fn obeys_from_spec() -> bool {
        true
    }

    open spec fn from_spec(other: FFEnvelope) -> ff_envelope {
        ff_envelope {
            attack_length: other.attack_length,
            attack_level: other.attack_level,
            fade_length: other.fade_length,
            fade_level: other.fade_level,
        }
    }
}

/// Describes the waveform for periodic force feedback effects.
#[derive(Clone, Copy, Debug, Eq, PartialEq, Structural)]
pub enum FFWaveform {
    /// Square waveform.
    Square,
    /// Triangle waveform.
    Triangle,
    /// Sine waveform.
    Sine,
    /// Sawtooth up waveform.
    SawUp,
    /// Sawtooth down waveform.
    SawDown,
}

/// The force feedback code of a waveform.
pub open spec fn waveform_code(w: FFWaveform) -> u16 {
    match w {
        FFWaveform::Square => FFEffectType::FF_SQUARE,
        FFWaveform::Triangle => FFEffectType::FF_TRIANGLE,
        FFWaveform::Sine => FFEffectType::FF_SINE,
        FFWaveform::SawUp => FFEffectType::FF_SAW_UP,
        FFWaveform::SawDown => FFEffectType::FF_SAW_DOWN,
    }
}

impl From<FFWaveform> for FFEffectType {
    fn from(other: FFWaveform) -> (r: Self)
        ensures
            r.0 == waveform_code(other),
    {
        match other {
            FFWaveform::Square => FFEffectType(FFEffectType::FF_SQUARE),
            FFWaveform::Triangle => FFEffectType(FFEffectType::FF_TRIANGLE),
            FFWaveform::Sine => FFEffectType(FFEffectType::FF_SINE),
            FFWaveform::SawUp => FFEffectType(FFEffectType::FF_SAW_UP),
            FFWaveform::SawDown => FFEffectType(FFEffectType::FF_SAW_DOWN),
        }
    }
}

impl vstd::std_specs::convert::FromSpecImpl<FFWaveform> for FFEffectType {
    open spec fn obeys_from_spec() -> bool {
        true
    }

    open spec fn from_spec(other: FFWaveform) -> FFEffectType {
        FFEffectType(waveform_code(other))
    }
}

/// Describes a spring or friction force feedback effect.
#[derive(Clone, Copy, Debug, Eq, PartialEq, Structural)]
pub struct FFCondition {
    /// The maximum level when the joystick is moved all the way to the right.
    pub right_saturation: u16,
    /// The maximum level when the joystick is moved all the way to the left.
    pub left_saturation: u16,
    /// The coefficient that controls how fast the force grows when the joystick moves to the
    /// right.
    pub right_coefficient: i16,
    /// The coefficient that controls how fast the force grows when the joystick moves to the left.
    pub left_coefficient: i16,
    /// The size of the dead zone, which is the zone where no force is produced.
    pub deadband: u16,
    /// The position of the dead zone.
    pub center: i16,
}

impl From<ff_condition_effect> for FFCondition {
    fn from(value: ff_condition_effect) -> (r: Self)
        ensures
            r == (FFCondition {
                right_saturation: value.right_saturation,
                left_saturation: value.left_saturation,
                right_coefficient: value.right_coeff,
                left_coefficient: value.left_coeff,
                deadband: value.deadband,
                center: value.center,
            }),
    {
        Self {
            right_saturation: value.right_saturation,
            left_saturation: value.left_saturation,
            right_coefficient: value.right_coeff,
            left_coefficient: value.left_coeff,
            deadband: value.deadband,
            center: value.center,
        }
    }
}

impl vstd::std_specs::convert::FromSpecImpl<ff_condition_effect> for FFCondition {
    open spec fn obeys_from_spec() -> bool {
        true
    }

    open spec fn from_spec(value: ff_condition_effect) -> FFCondition {
        FFCondition {
            right_saturation: value.right_saturation,
            left_saturation: value.left_saturation,
            right_coefficient: value.right_coeff,
            left_coefficient: value.left_coeff,
            deadband: value.deadband,
            center: value.center,
        }
    }
}

impl From<FFCondition> for ff_condition_effect {
    fn from(other: FFCondition) -> (r: Self)
        ensures
            r == (ff_condition_effect {
                right_saturation: other.right_saturation,
                left_saturation: other.left_saturation,
                right_coeff: other.right_coefficient,
                left_coeff: other.left_coefficient,
                deadband: other.deadband,
                center: other.center,
            }),
    {
        ff_condition_effect {
            right_saturation: other.right_saturation,
            left_saturation: other.left_saturation,
            right_coeff: other.right_coefficient,
            left_coeff: other.left_coefficient,
            deadband: other.deadband,
            center: other.center,
        }
    }
}

impl vstd::std_specs::convert::FromSpecImpl<FFCondition> for ff_condition_effect {
    open spec fn obeys_from_spec() -> bool {
        true
    }

    open spec fn from_spec(other: FFCondition) -> ff_condition_effect {
        ff_condition_effect {
            right_saturation: other.right_saturation,
            left_saturation: other.left_saturation,
            right_coeff: other.right_coefficient,
            left_coeff: other.left_coefficient,
            deadband: other.deadband,
            center: other.center,
        }
    }
}

/// The type of force feedback effect and any associated parameters.
#[derive(Clone, Copy, Debug, Eq, PartialEq)]
pub enum FFEffectKind {
    Damper,
    Inertia,
    Constant {
        /// The strength of the effect.
        level: i16,
        /// Envelope data.
        envelope: FFEnvelope,
    },
    Ramp {
        /// The strength at the beginning of the effect.
        start_level: i16,
        /// The strength at the end of the effect.
        end_level: i16,
        /// Envelope data.
        envelope: FFEnvelope,
    },
    Periodic {
        /// The kind of waveform to use for the force feedback effect.
        waveform: FFWaveform,
        /// The period of the wave in milliseconds.
        period: u16,
        /// The peak value or amplitude of the wave.
        magnitude: i16,
        /// The mean value of the wave (roughly).
        offset: i16,
        /// The horizontal shift.
        phase: u16,
        /// Envelope data.
        envelope: FFEnvelope,
    },
    Spring {
        /// Condition data for each axis.
        condition: [FFCondition; 2],
    },
    Friction {
        /// Condition data for each axis.
        condition: [FFCondition; 2],
    },
    Rumble {
        /// The magnitude of the heavy motor.
        strong_magnitude: u16,
        /// The magnitude of the light motor.
        weak_magnitude: u16,
    },
}

/// The force feedback code of an effect kind.
pub open spec fn kind_code(k: FFEffectKind) -> u16 {
    match k {
        FFEffectKind::Damper => FFEffectType::FF_DAMPER,
        FFEffectKind::Inertia => FFEffectType::FF_INERTIA,
        FFEffectKind::Constant { .. } => FFEffectType::FF_CONSTANT,
        FFEffectKind::Ramp { .. } => FFEffectType::FF_RAMP,
        FFEffectKind::Periodic { .. } => FFEffectType::FF_PERIODIC,
        FFEffectKind::Spring { .. } => FFEffectType::FF_SPRING,
        FFEffectKind::Friction { .. } => FFEffectType::FF_FRICTION,
        FFEffectKind::Rumble { .. } => FFEffectType::FF_RUMBLE,
    }
}

impl From<FFEffectKind> for FFEffectType {
    fn from(other: FFEffectKind) -> (r: Self)
        ensures
            r.0 == kind_code(other),
    {
        match other {
            FFEffectKind::Damper => FFEffectType(FFEffectType::FF_DAMPER),
            FFEffectKind::Inertia => FFEffectType(FFEffectType::FF_INERTIA),
            FFEffectKind::Constant { .. } => FFEffectType(FFEffectType::FF_CONSTANT),
            FFEffectKind::Ramp { .. } => FFEffectType(FFEffectType::FF_RAMP),
            FFEffectKind::Periodic { .. } => FFEffectType(FFEffectType::FF_PERIODIC),
            FFEffectKind::Spring { .. } => FFEffectType(FFEffectType::FF_SPRING),
            FFEffectKind::Friction { .. } => FFEffectType(FFEffectType::FF_FRICTION),
            FFEffectKind::Rumble { .. } => FFEffectType(FFEffectType::FF_RUMBLE),
        }
    }
}

impl vstd::std_specs::convert::FromSpecImpl<FFEffectKind> for FFEffectType {
    open spec fn obeys_from_spec() -> bool {
        true
    }

    open spec fn from_spec(other: FFEffectKind) -> FFEffectType {
        FFEffectType(kind_code(other))
    }
}

/// Trigger information for the force feedback effect.
#[derive(Clone, Copy, Debug, Eq, PartialEq, Structural)]
pub struct FFTrigger {
    /// The button number that triggers the force feedback effect.
    pub button: u16,
    /// How long to wait before the force feedback effect can be triggered again in milliseconds.
    pub interval: u16,
}

impl Default for FFTrigger {
    fn default() -> (r: Self)
        ensures
            r == (FFTrigger { button: 0, interval: 0 }),
    {
        FFTrigger { button: 0, interval: 0 }
    }
}

impl From<ff_trigger> for FFTrigger {
    fn from(value: ff_trigger) -> (r: Self)
        ensures
            r == (FFTrigger { button: value.button, interval: value.interval }),
    {
        Self { button: value.button, interval: value.interval }
    }
}

impl vstd::std_specs::convert::FromSpecImpl<ff_trigger> for FFTrigger {
    open spec fn obeys_from_spec() -> bool {
        true
    }

    open spec fn from_spec(value: ff_trigger) -> FFTrigger {
        FFTrigger { button: value.button, interval: value.interval }
    }
}

impl From<FFTrigger> for ff_trigger {
    fn from(other: FFTrigger) -> (r: Self)
        ensures
            r == (ff_trigger { button: other.button, interval: other.interval }),
    {
        ff_trigger { button: other.button, interval: other.interval }
    }
}

impl vstd::std_specs::convert::FromSpecImpl<FFTrigger> for ff_trigger {
    open spec fn obeys_from_spec() -> bool {
        true
    }

    open spec fn from_spec(other: FFTrigger) -> ff_trigger {
        ff_trigger { button: other.button, interval: other.interval }
    }
}

/// Scheduling information for the force feedback effect.
#[derive(Clone, Copy, Debug, Eq, PartialEq, Structural)]
pub struct FFReplay {
    /// How long the force feedback effect should last in milliseconds.
    pub length: u16,
    /// How long to wait before the force feedback effect should play in milliseconds.
    pub delay: u16,
}

impl Default for FFReplay {
    fn default() -> (r: Self)
        ensures
            r == (FFReplay { length: 0, delay: 0 }),
    {
        FFReplay { length: 0, delay: 0 }
    }
}

impl From<ff_replay> for FFReplay {
    fn from(value: ff_replay) -> (r: Self)
        ensures
            r == (FFReplay { length: value.length, delay: value.delay }),
    {
        Self { length: value.length, delay: value.delay }
    }
}

impl vstd::std_specs::convert::FromSpecImpl<ff_replay> for FFReplay {
    open spec fn obeys_from_spec() -> bool {
        true
    }

    open spec fn from_spec(value: ff_replay) -> FFReplay {
        FFReplay { length: value.length, delay: value.delay }
    }
}

impl From<FFReplay> for ff_replay {
    fn from(other: FFReplay) -> (r: Self)
        ensures
            r == (ff_replay { length: other.length, delay: other.delay }),
    {
        ff_replay { length: other.length, delay: other.delay }
    }
}

impl vstd::std_specs::convert::FromSpecImpl<FFReplay> for ff_replay {
    open spec fn obeys_from_spec() -> bool {
        true
    }

    open spec fn from_spec(other: FFReplay) -> ff_replay {
        ff_replay { length: other.length, delay: other.delay }
    }
}

/// A force feedback effect: direction, trigger, scheduling and kind.
#[derive(Clone, Copy, Debug, Eq, PartialEq)]
pub struct FFEffectData {
    /// The direction of the force feedback effect.
    pub direction: u16,
    /// Trigger conditions.
    pub trigger: FFTrigger,
    /// Scheduling of the effect.
    pub replay: FFReplay,
    /// The type of force feedback effect and any associated parameters.
    pub kind: FFEffectKind,
}


// ---------------------------------------------------------------------------
// The effect as the kernel sees it: the parameters of its kind are laid out in
// the words of a union.
// ---------------------------------------------------------------------------

pub open spec fn zero_words(n: nat) -> Seq<u16> {
    Seq::new(n, |i: int| 0u16)
}

pub open spec fn envelope_words(e: FFEnvelope) -> Seq<u16> {
    seq![e.attack_length, e.attack_level, e.fade_length, e.fade_level]
}

pub open spec fn condition_words(c: FFCondition) -> Seq<u16> {
    seq![c.right_saturation, c.left_saturation, c.right_coefficient as u16, c.left_coefficient as u16, c.deadband, c.center as u16]
}

/// The union words that carry the parameters of `k`, as the kernel lays out
/// `ff_constant_effect`, `ff_ramp_effect`, `ff_periodic_effect`, two
/// `ff_condition_effect`s and `ff_rumble_effect`; every other word is zero.
pub open spec fn kind_words(k: FFEffectKind) -> Seq<u16> {
    match k {
        FFEffectKind::Damper => zero_words(16),
        FFEffectKind::Inertia => zero_words(16),
        FFEffectKind::Constant { level, envelope } => seq![level as u16] + envelope_words(envelope) + zero_words(11),
        FFEffectKind::Ramp { start_level, end_level, envelope } =>
            seq![start_level as u16, end_level as u16] + envelope_words(envelope) + zero_words(10),
        FFEffectKind::Periodic { waveform, period, magnitude, offset, phase, envelope } =>
            seq![waveform_code(waveform), period, magnitude as u16, offset as u16, phase] + envelope_words(envelope) + zero_words(7),
        FFEffectKind::Spring { condition } =>
            condition_words(condition[0]) + condition_words(condition[1]) + zero_words(4),
        FFEffectKind::Friction { condition } =>
            condition_words(condition[0]) + condition_words(condition[1]) + zero_words(4),
        FFEffectKind::Rumble { strong_magnitude, weak_magnitude } =>
            seq![strong_magnitude, weak_magnitude] + zero_words(14),
    }
}

/// `r` is the kernel's form of `d`, with effect id 0.
pub open spec fn encodes(d: FFEffectData, r: ff_effect) -> bool {
    &&& r.type_ == kind_code(d.kind)
    &&& r.id == 0
    &&& r.direction == d.direction
    &&& r.trigger == (ff_trigger { button: d.trigger.button, interval: d.trigger.interval })
    &&& r.replay == (ff_replay { length: d.replay.length, delay: d.replay.delay })
    &&& r.u@ == kind_words(d.kind)
}

/// The kernel's form of `d`.
pub closed spec fn encode_effect(d: FFEffectData) -> ff_effect {
    choose|r: ff_effect| encodes(d, r)
}

/// The waveform a periodic effect names, if it names one.
pub open spec fn waveform_from_code(c: u16) -> Option<FFWaveform> {
    if c == FFEffectType::FF_SQUARE {
        Some(FFWaveform::Square)
    } else if c == FFEffectType::FF_TRIANGLE {
        Some(FFWaveform::Triangle)
    } else if c == FFEffectType::FF_SINE {
        Some(FFWaveform::Sine)
    } else if c == FFEffectType::FF_SAW_UP {
        Some(FFWaveform::SawUp)
    } else if c == FFEffectType::FF_SAW_DOWN {
        Some(FFWaveform::SawDown)
    } else {
        None
    }
}

pub open spec fn envelope_at(u: Seq<u16>, i: int) -> FFEnvelope {
    FFEnvelope { attack_length: u[i], attack_level: u[i + 1], fade_length: u[i + 2], fade_level: u[i + 3] }
}

pub open spec fn condition_at(u: Seq<u16>, i: int) -> FFCondition {
    FFCondition {
        right_saturation: u[i],
        left_saturation: u[i + 1],
        right_coefficient: u[i + 2] as i16,
        left_coefficient: u[i + 3] as i16,
        deadband: u[i + 4],
        center: u[i + 5] as i16,
    }
}

/// The effect type names one of the eight effect kinds, and a periodic effect
/// names one of the five waveforms.
pub open spec fn raw_is_valid(raw: ff_effect) -> bool {
    let t = raw.type_;
    ||| t == FFEffectType::FF_DAMPER
    ||| t == FFEffectType::FF_INERTIA
    ||| t == FFEffectType::FF_CONSTANT
    ||| t == FFEffectType::FF_RAMP
    ||| t == FFEffectType::FF_PERIODIC && waveform_from_code(raw.u@[0]) is Some
    ||| t == FFEffectType::FF_SPRING
    ||| t == FFEffectType::FF_FRICTION
    ||| t == FFEffectType::FF_RUMBLE
}

/// The effect kind a valid kernel effect describes, read from the union member
/// its type selects.
pub open spec fn decode_kind(t: u16, u: Seq<u16>) -> FFEffectKind {
    if t == FFEffectType::FF_DAMPER {
        FFEffectKind::Damper
    } else if t == FFEffectType::FF_INERTIA {
        FFEffectKind::Inertia
    } else if t == FFEffectType::FF_CONSTANT {
        FFEffectKind::Constant { level: u[0] as i16, envelope: envelope_at(u, 1) }
    } else if t == FFEffectType::FF_RAMP {
        FFEffectKind::Ramp { start_level: u[0] as i16, end_level: u[1] as i16, envelope: envelope_at(u, 2) }
    } else if t == FFEffectType::FF_PERIODIC {
        FFEffectKind::Periodic {
            waveform: waveform_from_code(u[0])->0,
            period: u[1],
            magnitude: u[2] as i16,
            offset: u[3] as i16,
            phase: u[4],
            envelope: envelope_at(u, 5),
        }
    } else if t == FFEffectType::FF_SPRING {
        FFEffectKind::Spring { condition: [condition_at(u, 0), condition_at(u, 6)] }
    } else if t == FFEffectType::FF_FRICTION {
        FFEffectKind::Friction { condition: [condition_at(u, 0), condition_at(u, 6)] }
    } else {
        FFEffectKind::Rumble { strong_magnitude: u[0], weak_magnitude: u[1] }
    }
}

/// The effect a valid kernel effect describes.
pub open spec fn decode_effect(raw: ff_effect) -> FFEffectData {
    FFEffectData {
        direction: raw.direction,
        trigger: FFTrigger { button: raw.trigger.button, interval: raw.trigger.interval },
        replay: FFReplay { length: raw.replay.length, delay: raw.replay.delay },
        kind: decode_kind(raw.type_, raw.u@),
    }
}

fn envelope_from_words(u: &[u16; 16], i: usize) -> (r: FFEnvelope)
    requires
        i + 4 <= 16,
    ensures
        r == envelope_at(u@, i as int),
{
    FFEnvelope { attack_length: u[i], attack_level: u[i + 1], fade_length: u[i + 2], fade_level: u[i + 3] }
}

fn condition_from_words(u: &[u16; 16], i: usize) -> (r: FFCondition)
    requires
        i + 6 <= 16,
    ensures
        r == condition_at(u@, i as int),
{
    FFCondition {
        right_saturation: u[i],
        left_saturation: u[i + 1],
        right_coefficient: u[i + 2] as i16,
        left_coefficient: u[i + 3] as i16,
        deadband: u[i + 4],
        center: u[i + 5] as i16,
    }
}

impl FFEffectData {
    /// The effect a kernel effect describes.
    pub fn from_raw(value: ff_effect) -> (r: Self)
        requires
            raw_is_valid(value),
        ensures
            r == decode_effect(value),
    {
        let t = value.type_;
        let u = value.u;
        let kind = if t == FFEffectType::FF_DAMPER {
            FFEffectKind::Damper
        } else if t == FFEffectType::FF_INERTIA {
            FFEffectKind::Inertia
        } else if t == FFEffectType::FF_CONSTANT {
            FFEffectKind::Constant { level: u[0] as i16, envelope: envelope_from_words(&u, 1) }
        } else if t == FFEffectType::FF_RAMP {
            FFEffectKind::Ramp { start_level: u[0] as i16, end_level: u[1] as i16, envelope: envelope_from_words(&u, 2) }
        } else if t == FFEffectType::FF_PERIODIC {
            let w = u[0];
            let waveform = if w == FFEffectType::FF_SQUARE {
                FFWaveform::Square
            } else if w == FFEffectType::FF_TRIANGLE {
                FFWaveform::Triangle
            } else if w == FFEffectType::FF_SINE {
                FFWaveform::Sine
            } else if w == FFEffectType::FF_SAW_UP {
                FFWaveform::SawUp
            } else {
                FFWaveform::SawDown
            };
            FFEffectKind::Periodic {
                waveform,
                period: u[1],
                magnitude: u[2] as i16,
                offset: u[3] as i16,
                phase: u[4],
                envelope: envelope_from_words(&u, 5),
            }
        } else if t == FFEffectType::FF_SPRING {
            FFEffectKind::Spring { condition: [condition_from_words(&u, 0), condition_from_words(&u, 6)] }
        } else if t == FFEffectType::FF_FRICTION {
            FFEffectKind::Friction { condition: [condition_from_words(&u, 0), condition_from_words(&u, 6)] }
        } else {
            FFEffectKind::Rumble { strong_magnitude: u[0], weak_magnitude: u[1] }
        };
        FFEffectData {
            direction: value.direction,
            trigger: FFTrigger::from(value.trigger),
            replay: FFReplay::from(value.replay),
            kind,
        }
    }

    /// The effect a kernel effect describes, or `None` if its type or waveform
    /// is not one this library knows.
    pub fn try_from_raw(value: ff_effect) -> (r: Option<Self>)
        ensures
            r == (if raw_is_valid(value) { Some(decode_effect(value)) } else { None }),
    {
        let t = value.type_;
        let w = value.u[0];
        let periodic_ok = w == FFEffectType::FF_SQUARE || w == FFEffectType::FF_TRIANGLE || w == FFEffectType::FF_SINE
            || w == FFEffectType::FF_SAW_UP || w == FFEffectType::FF_SAW_DOWN;
        if t == FFEffectType::FF_DAMPER || t == FFEffectType::FF_INERTIA || t == FFEffectType::FF_CONSTANT
            || t == FFEffectType::FF_RAMP || (t == FFEffectType::FF_PERIODIC && periodic_ok)
            || t == FFEffectType::FF_SPRING || t == FFEffectType::FF_FRICTION || t == FFEffectType::FF_RUMBLE {
            Some(Self::from_raw(value))
        } else {
            None
        }
    }

    /// The kernel's form of the effect, with effect id 0.
    pub fn to_raw(&self) -> (r: ff_effect)
        ensures
            encodes(*self, r),
    {
        let k = self.kind;
        let u: [u16; 16] = match k {
            FFEffectKind::Damper => [0u16; 16],
            FFEffectKind::Inertia => [0u16; 16],
            FFEffectKind::Constant { level, envelope: e } => [
                level as u16, e.attack_length, e.attack_level, e.fade_length, e.fade_level,
                0, 0, 0, 0, 0, 0, 0, 0, 0, 0, 0,
            ],
            FFEffectKind::Ramp { start_level, end_level, envelope: e } => [
                start_level as u16, end_level as u16, e.attack_length, e.attack_level, e.fade_length, e.fade_level,
                0, 0, 0, 0, 0, 0, 0, 0, 0, 0,
            ],
            FFEffectKind::Periodic { waveform, period, magnitude, offset, phase, envelope: e } => {
                let wf: FFEffectType = FFEffectType::from(waveform);
                [
                    wf.0, period, magnitude as u16, offset as u16, phase,
                    e.attack_length, e.attack_level, e.fade_length, e.fade_level,
                    0, 0, 0, 0, 0, 0, 0,
                ]
            },
            FFEffectKind::Spring { condition: c } | FFEffectKind::Friction { condition: c } => [
                c[0].right_saturation, c[0].left_saturation, c[0].right_coefficient as u16, c[0].left_coefficient as u16,
                c[0].deadband, c[0].center as u16,
                c[1].right_saturation, c[1].left_saturation, c[1].right_coefficient as u16, c[1].left_coefficient as u16,
                c[1].deadband, c[1].center as u16,
                0, 0, 0, 0,
            ],
            FFEffectKind::Rumble { strong_magnitude, weak_magnitude } => [
                strong_magnitude, weak_magnitude, 0, 0, 0, 0, 0, 0, 0, 0, 0, 0, 0, 0, 0, 0,
            ],
        };
        let type_: FFEffectType = FFEffectType::from(k);
        let r = ff_effect {
            type_: type_.0,
            id: 0,
            direction: self.direction,
            trigger: ff_trigger::from(self.trigger),
            replay: ff_replay::from(self.replay),
            u,
        };
        assert(r.u@ =~= kind_words(k));
        r
    }
}

impl From<FFEffectData> for ff_effect {
    fn from(other: FFEffectData) -> (r: Self)
        ensures
            encodes(other, r),
            r == encode_effect(other),
    {
        let r = other.to_raw();
        proof {
            broadcast use vstd::array::axiom_array_ext_equal;
            let c = encode_effect(other);
            assert(encodes(other, c));
            assert(r.u =~= c.u);
        }
        r
    }
}

impl vstd::std_specs::convert::FromSpecImpl<FFEffectData> for ff_effect {
    open spec fn obeys_from_spec() -> bool {
        true
    }

    open spec fn from_spec(other: FFEffectData) -> ff_effect {
        encode_effect(other)
    }
}


proof fn lemma_i16_roundtrip(x: i16)
    ensures
        (x as u16) as i16 == x,
{
    assert((x as u16) as i16 == x) by (bit_vector);
}

/// A force feedback effect survives the trip to the kernel's form and back:
/// its form is valid, and reading it gives the same effect.
pub proof fn law_effect_roundtrip(d: FFEffectData, r: ff_effect)
    requires
        encodes(d, r),
    ensures
        raw_is_valid(r),
        decode_effect(r) == d,
{
    broadcast use vstd::array::axiom_array_ext_equal;
    let u = r.u@;
    match d.kind {
        FFEffectKind::Constant { level, envelope } => {
            lemma_i16_roundtrip(level);
            assert(u[0] == level as u16);
            assert(envelope_at(u, 1) == envelope);
        },
        FFEffectKind::Ramp { start_level, end_level, envelope } => {
            lemma_i16_roundtrip(start_level);
            lemma_i16_roundtrip(end_level);
            assert(envelope_at(u, 2) == envelope);
        },
        FFEffectKind::Periodic { waveform, period, magnitude, offset, phase, envelope } => {
            lemma_i16_roundtrip(magnitude);
            lemma_i16_roundtrip(offset);
            assert(u[0] == waveform_code(waveform));
            assert(envelope_at(u, 5) == envelope);
        },
        FFEffectKind::Spring { condition } => {
            let c0 = condition[0];
            let c1 = condition[1];
            lemma_i16_roundtrip(c0.right_coefficient);
            lemma_i16_roundtrip(c0.left_coefficient);
            lemma_i16_roundtrip(c0.center);
            lemma_i16_roundtrip(c1.right_coefficient);
            lemma_i16_roundtrip(c1.left_coefficient);
            lemma_i16_roundtrip(c1.center);
            assert(condition_at(u, 0) == c0);
            assert(condition_at(u, 6) == c1);
            assert([condition_at(u, 0), condition_at(u, 6)] =~= condition);
        },
        FFEffectKind::Friction { condition } => {
            let c0 = condition[0];
            let c1 = condition[1];
            lemma_i16_roundtrip(c0.right_coefficient);
            lemma_i16_roundtrip(c0.left_coefficient);
            lemma_i16_roundtrip(c0.center);
            lemma_i16_roundtrip(c1.right_coefficient);
            lemma_i16_roundtrip(c1.left_coefficient);
            lemma_i16_roundtrip(c1.center);
            assert(condition_at(u, 0) == c0);
            assert(condition_at(u, 6) == c1);
            assert([condition_at(u, 0), condition_at(u, 6)] =~= condition);
        },
        _ => {},
    }
}

/// The kernel's form of an effect carries the type code of the effect's own
/// kind, and a periodic effect the code of its own waveform.
pub proof fn law_effect_type_codes(d: FFEffectData, r: ff_effect)
    requires
        encodes(d, r),
    ensures
        d.kind is Damper ==> r.type_ == FFEffectType::FF_DAMPER,
        d.kind is Inertia ==> r.type_ == FFEffectType::FF_INERTIA,
        d.kind is Constant ==> r.type_ == FFEffectType::FF_CONSTANT,
        d.kind is Ramp ==> r.type_ == FFEffectType::FF_RAMP,
        d.kind is Periodic ==> r.type_ == FFEffectType::FF_PERIODIC,
        d.kind is Spring ==> r.type_ == FFEffectType::FF_SPRING,
        d.kind is Friction ==> r.type_ == FFEffectType::FF_FRICTION,
        d.kind is Rumble ==> r.type_ == FFEffectType::FF_RUMBLE,
        d.kind matches FFEffectKind::Periodic { waveform: FFWaveform::Square, .. } ==> r.u[0] == FFEffectType::FF_SQUARE,
        d.kind matches FFEffectKind::Periodic { waveform: FFWaveform::Triangle, .. } ==> r.u[0] == FFEffectType::FF_TRIANGLE,
        d.kind matches FFEffectKind::Periodic { waveform: FFWaveform::Sine, .. } ==> r.u[0] == FFEffectType::FF_SINE,
        d.kind matches FFEffectKind::Periodic { waveform: FFWaveform::SawUp, .. } ==> r.u[0] == FFEffectType::FF_SAW_UP,
        d.kind matches FFEffectKind::Periodic { waveform: FFWaveform::SawDown, .. } ==> r.u[0] == FFEffectType::FF_SAW_DOWN,
{
}

/// Reading a kernel effect gives the kind that its type code names, and for a
/// periodic effect the waveform that its first word names.
pub proof fn law_effect_kind_of_type_code(raw: ff_effect)
    requires
        raw_is_valid(raw),
    ensures
        raw.type_ == FFEffectType::FF_DAMPER <==> decode_effect(raw).kind is Damper,
        raw.type_ == FFEffectType::FF_INERTIA <==> decode_effect(raw).kind is Inertia,
        raw.type_ == FFEffectType::FF_CONSTANT <==> decode_effect(raw).kind is Constant,
        raw.type_ == FFEffectType::FF_RAMP <==> decode_effect(raw).kind is Ramp,
        raw.type_ == FFEffectType::FF_PERIODIC <==> decode_effect(raw).kind is Periodic,
        raw.type_ == FFEffectType::FF_SPRING <==> decode_effect(raw).kind is Spring,
        raw.type_ == FFEffectType::FF_FRICTION <==> decode_effect(raw).kind is Friction,
        raw.type_ == FFEffectType::FF_RUMBLE <==> decode_effect(raw).kind is Rumble,
        raw.type_ == FFEffectType::FF_PERIODIC && raw.u[0] == FFEffectType::FF_SQUARE
            <==> decode_effect(raw).kind matches FFEffectKind::Periodic { waveform: FFWaveform::Square, .. },
        raw.type_ == FFEffectType::FF_PERIODIC && raw.u[0] == FFEffectType::FF_TRIANGLE
            <==> decode_effect(raw).kind matches FFEffectKind::Periodic { waveform: FFWaveform::Triangle, .. },
        raw.type_ == FFEffectType::FF_PERIODIC && raw.u[0] == FFEffectType::FF_SINE
            <==> decode_effect(raw).kind matches FFEffectKind::Periodic { waveform: FFWaveform::Sine, .. },
        raw.type_ == FFEffectType::FF_PERIODIC && raw.u[0] == FFEffectType::FF_SAW_UP
            <==> decode_effect(raw).kind matches FFEffectKind::Periodic { waveform: FFWaveform::SawUp, .. },
        raw.type_ == FFEffectType::FF_PERIODIC && raw.u[0] == FFEffectType::FF_SAW_DOWN
            <==> decode_effect(raw).kind matches FFEffectKind::Periodic { waveform: FFWaveform::SawDown, .. },
{
}

/// The kernel's form of an effect lays the effect's parameters out as the
/// kernel's effect structures do: a constant effect's level and then its
/// envelope, a ramp's start and end levels and then its envelope, a periodic
/// effect's waveform, period, magnitude, offset and phase and then its envelope,
/// the two axes' conditions of a spring or friction effect one after the
/// other, and a rumble's strong and then weak magnitude.
pub proof fn law_effect_parameter_layout(d: FFEffectData, r: ff_effect)
    requires
        encodes(d, r),
    ensures
        d.kind matches FFEffectKind::Constant { level, envelope } ==> r.u[0] == level as u16
            && r.u[1] == envelope.attack_length && r.u[2] == envelope.attack_level
                && r.u[3] == envelope.fade_length && r.u[4] == envelope.fade_level,
        d.kind matches FFEffectKind::Ramp { start_level, end_level, envelope } ==> r.u[0] == start_level as u16
            && r.u[1] == end_level as u16 && r.u[2] == envelope.attack_length && r.u[3] == envelope.attack_level
                && r.u[4] == envelope.fade_length && r.u[5] == envelope.fade_level,
        d.kind matches FFEffectKind::Periodic { waveform, period, magnitude, offset, phase, envelope } ==> r.u[1] == period
            && r.u[2] == magnitude as u16 && r.u[3] == offset as u16 && r.u[4] == phase && r.u[5] == envelope.attack_length && r.u[6] == envelope.attack_level
                && r.u[7] == envelope.fade_length && r.u[8] == envelope.fade_level,
        d.kind matches FFEffectKind::Spring { condition } ==> r.u[0] == condition[0].right_saturation && r.u[1] == condition[0].left_saturation
                && r.u[2] == condition[0].right_coefficient as u16 && r.u[3] == condition[0].left_coefficient as u16
                && r.u[4] == condition[0].deadband && r.u[5] == condition[0].center as u16
                && r.u[6] == condition[1].right_saturation && r.u[7] == condition[1].left_saturation
                && r.u[8] == condition[1].right_coefficient as u16 && r.u[9] == condition[1].left_coefficient as u16
                && r.u[10] == condition[1].deadband && r.u[11] == condition[1].center as u16,
        d.kind matches FFEffectKind::Friction { condition } ==> r.u[0] == condition[0].right_saturation && r.u[1] == condition[0].left_saturation
                && r.u[2] == condition[0].right_coefficient as u16 && r.u[3] == condition[0].left_coefficient as u16
                && r.u[4] == condition[0].deadband && r.u[5] == condition[0].center as u16
                && r.u[6] == condition[1].right_saturation && r.u[7] == condition[1].left_saturation
                && r.u[8] == condition[1].right_coefficient as u16 && r.u[9] == condition[1].left_coefficient as u16
                && r.u[10] == condition[1].deadband && r.u[11] == condition[1].center as u16,
        d.kind matches FFEffectKind::Rumble { strong_magnitude, weak_magnitude } ==> r.u[0] == strong_magnitude
            && r.u[1] == weak_magnitude,
{
}

} // verus!
