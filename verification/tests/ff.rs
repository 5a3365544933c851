use evdev::compat::{ff_effect, ff_replay, ff_trigger};
use evdev::raw_stream::{
    ff_autocenter_event, ff_effect_for_update, ff_effect_for_upload, ff_gain_event, ff_play_event,
    ff_stop_event, uploaded_effect_id,
};
use evdev::uinput::{FFEraseEvent, FFUploadEvent};
use evdev::{
    EventType, FFCondition, FFEffectData, FFEffectKind, FFEffectType, FFEnvelope, FFReplay,
    FFTrigger, FFWaveform, InputEvent,
};

fn envelope() -> FFEnvelope {
    FFEnvelope { attack_length: 10, attack_level: 20, fade_length: 30, fade_level: 40 }
}

fn condition(k: u16) -> FFCondition {
    FFCondition {
        right_saturation: k,
        left_saturation: k + 1,
        right_coefficient: -(k as i16),
        left_coefficient: 7,
        deadband: 8,
        center: -9,
    }
}

fn data(kind: FFEffectKind) -> FFEffectData {
    FFEffectData {
        direction: 0x4000,
        trigger: FFTrigger { button: 1, interval: 2 },
        replay: FFReplay { length: 500, delay: 3 },
        kind,
    }
}

fn all_kinds() -> Vec<FFEffectKind> {
    vec![
        FFEffectKind::Damper,
        FFEffectKind::Inertia,
        FFEffectKind::Constant { level: -300, envelope: envelope() },
        FFEffectKind::Ramp { start_level: -5, end_level: 6, envelope: envelope() },
        FFEffectKind::Periodic {
            waveform: FFWaveform::Triangle,
            period: 100,
            magnitude: -200,
            offset: 300,
            phase: 400,
            envelope: envelope(),
        },
        FFEffectKind::Spring { condition: [condition(1), condition(2)] },
        FFEffectKind::Friction { condition: [condition(3), condition(4)] },
        FFEffectKind::Rumble { strong_magnitude: 0xffff, weak_magnitude: 0x8000 },
    ]
}

#[test]
fn every_kind_survives_the_kernel_form() {
    for kind in all_kinds() {
        let d = data(kind);
        let raw = d.to_raw();
        assert_eq!(FFEffectData::from_raw(raw), d);
        assert_eq!(FFEffectData::try_from_raw(raw), Some(d));
        let via_from: ff_effect = d.into();
        assert_eq!(via_from, raw);
    }
}

#[test]
fn kernel_form_layout() {
    let raw = data(FFEffectKind::Rumble { strong_magnitude: 11, weak_magnitude: 22 }).to_raw();
    assert_eq!(raw.type_, FFEffectType::FF_RUMBLE);
    assert_eq!(raw.id, 0);
    assert_eq!(raw.direction, 0x4000);
    assert_eq!(raw.trigger, ff_trigger { button: 1, interval: 2 });
    assert_eq!(raw.replay, ff_replay { length: 500, delay: 3 });
    assert_eq!(&raw.u[..3], &[11, 22, 0]);

    let raw = data(FFEffectKind::Periodic {
        waveform: FFWaveform::SawDown,
        period: 1,
        magnitude: -1,
        offset: 2,
        phase: 3,
        envelope: envelope(),
    })
    .to_raw();
    assert_eq!(raw.type_, FFEffectType::FF_PERIODIC);
    assert_eq!(&raw.u[..9], &[FFEffectType::FF_SAW_DOWN, 1, 0xffff, 2, 3, 10, 20, 30, 40]);
}

#[test]
fn unknown_types_are_refused() {
    let mut raw = data(FFEffectKind::Damper).to_raw();
    raw.type_ = FFEffectType::FF_GAIN;
    assert_eq!(FFEffectData::try_from_raw(raw), None);
    let mut raw = data(FFEffectKind::Periodic {
        waveform: FFWaveform::Sine,
        period: 1,
        magnitude: 1,
        offset: 1,
        phase: 1,
        envelope: envelope(),
    })
    .to_raw();
    raw.u[0] = FFEffectType::FF_CUSTOM;
    assert_eq!(FFEffectData::try_from_raw(raw), None);
}

#[test]
fn upload_and_update_ids() {
    let d = data(FFEffectKind::Inertia);
    let up = ff_effect_for_upload(d);
    assert_eq!(up.id, -1);
    assert_eq!(up.type_, FFEffectType::FF_INERTIA);
    let upd = ff_effect_for_update(d, 5);
    assert_eq!(upd.id, 5);
    assert_eq!(uploaded_effect_id(&upd), 5);
}

#[test]
fn control_events() {
    assert_eq!(ff_gain_event(0x7fff), InputEvent::new(EventType::FORCEFEEDBACK, 0x60, 0x7fff));
    assert_eq!(ff_autocenter_event(3), InputEvent::new(EventType::FORCEFEEDBACK, 0x61, 3));
    assert_eq!(ff_play_event(4, 2), InputEvent::new(EventType::FORCEFEEDBACK, 4, 2));
    assert_eq!(ff_stop_event(4), InputEvent::new(EventType::FORCEFEEDBACK, 4, 0));
}

#[test]
fn upload_request_round() {
    let new = ff_effect_for_upload(data(FFEffectKind::Constant { level: 9, envelope: envelope() }));
    let old = data(FFEffectKind::Damper).to_raw();
    let mut ev = FFUploadEvent::new(77, new, old);
    assert_eq!(ev.request_id(), 77);
    assert_eq!(ev.retval(), 0);
    assert_eq!(ev.effect_id(), -1);
    ev.set_effect_id(3);
    ev.set_retval(-22);
    assert_eq!(ev.effect_id(), 3);
    assert_eq!(ev.retval(), -22);
    assert_eq!(ev.effect(), data(FFEffectKind::Constant { level: 9, envelope: envelope() }));
    assert_eq!(ev.old_effect(), data(FFEffectKind::Damper));
    assert_eq!(ev.raw_effect().id, 3);
    assert_eq!(ev.raw_old_effect(), old);
}

#[test]
fn erase_request_round() {
    let mut ev = FFEraseEvent::new(5, 2);
    assert_eq!(ev.request_id(), 5);
    assert_eq!(ev.effect_id(), 2);
    assert_eq!(ev.retval(), 0);
    ev.set_retval(1);
    assert_eq!(ev.retval(), 1);
    assert_eq!(ev.effect_id(), 2);
}
