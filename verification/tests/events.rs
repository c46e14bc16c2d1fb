//! Note-on / note-off handling and the per-block event dispatch.

use monosynth::voice::{MidiMsg, Voice};

fn held_voice(note: u8) -> Voice {
    let mut v = Voice::default();
    v.note_on(note, 100);
    v
}

#[test]
fn note_off_ignored_if_note_mismatches() {
    let mut v = held_voice(60);
    v.note_off(61);
    assert!(v.gate);
    assert_eq!(v.note, 60);
}

#[test]
fn note_off_of_the_sounding_note_drops_the_gate() {
    let mut v = held_voice(60);
    v.note_off(60);
    assert!(!v.gate);
    // the elapsed time keeps running into the release: it is not reset
    assert_eq!(v.time, 0);
    assert_eq!(v.note, 60);
}

#[test]
fn note_on_resets_time_and_replaces_note() {
    let mut v = Voice::default();
    v.time = 1.25f32.to_bits();
    v.note_on(72, 0);
    assert_eq!(v.note, 72);
    assert!(v.gate);
    assert_eq!(f32::from_bits(v.time), 0.0);

    // a second note-on while the `gate` is still up pre-empts the first
    v.time = 0.5f32.to_bits();
    v.note_on(40, 127);
    assert_eq!(v.note, 40);
    assert!(v.gate);
    assert_eq!(f32::from_bits(v.time), 0.0);
}

#[test]
fn velocity_has_no_effect() {
    let mut a = Voice::default();
    let mut b = Voice::default();
    a.note_on(64, 1);
    b.note_on(64, 127);
    assert_eq!(a.note, b.note);
    assert_eq!(a.gate, b.gate);
    assert_eq!(a.time, b.time);
}

#[test]
fn events_apply_in_arrival_order() {
    let mut v = Voice::default();
    let msgs = vec![
        MidiMsg { status: 144, data1: 60, data2: 90 },
        MidiMsg { status: 128, data1: 61, data2: 0 },
        MidiMsg { status: 144, data1: 62, data2: 90 },
    ];
    v.process_events(&msgs);
    assert_eq!(v.note, 62);
    assert!(v.gate);

    let msgs = vec![MidiMsg { status: 128, data1: 62, data2: 0 }];
    v.process_events(&msgs);
    assert!(!v.gate);
    assert_eq!(v.note, 62);
}

#[test]
fn unrecognized_status_bytes_are_ignored() {
    let mut v = held_voice(60);
    let before_time = v.time;
    // only the exact status bytes 128 and 144 act; other channels' note
    // messages and unrelated statuses fall through
    let msgs = vec![
        MidiMsg { status: 129, data1: 60, data2: 0 },
        MidiMsg { status: 145, data1: 70, data2: 90 },
        MidiMsg { status: 0, data1: 60, data2: 0 },
        MidiMsg { status: 176, data1: 1, data2: 64 },
    ];
    v.process_events(&msgs);
    assert!(v.gate);
    assert_eq!(v.note, 60);
    assert_eq!(v.time, before_time);
}

#[test]
fn default_voice_is_silent_at_the_default_rate() {
    let v = Voice::default();
    assert_eq!(f32::from_bits(v.sample_rate), 44100.0);
    assert_eq!(f32::from_bits(v.time), 0.0);
    assert_eq!(v.note, 0);
    assert!(!v.gate);
}

#[test]
fn init_restores_the_default_sample_rate() {
    let mut v = Voice::default();
    v.sample_rate = 48000.0f32.to_bits();
    v.init();
    assert_eq!(f32::from_bits(v.sample_rate), 44100.0);
}

#[test]
fn an_empty_event_block_changes_nothing() {
    let mut v = held_voice(60);
    let before = (v.sample_rate, v.time, v.note, v.gate);
    v.process_events(&Vec::new());
    assert_eq!(before, (v.sample_rate, v.time, v.note, v.gate));
}
