//! The ADSR envelope, evaluated directly as the stateless function of
//! (gate, time, parameters) that the voice re-derives every sample.

use monosynth::params::Params;
use monosynth::voice::{Voice, DEFAULT_RATE_BITS};

/// Evaluates the envelope at one point, converting to and from raw bits.
fn envelope(gate: bool, time: f32, attack: f32, decay: f32, sustain: f32, release: f32) -> f32 {
    let v = Voice {
        sample_rate: DEFAULT_RATE_BITS,
        time: time.to_bits(),
        note: 60,
        gate,
    };
    let p = Params {
        volume: 1.0f32.to_bits(),
        attack: attack.to_bits(),
        decay: decay.to_bits(),
        sustain: sustain.to_bits(),
        release: release.to_bits(),
    };
    f32::from_bits(v.apply_envelope(&p))
}

#[test]
fn envelope_attack_phase() {
    // half-way through the attack ramp: half amplitude
    assert_eq!(envelope(true, 0.25, 0.5, 0.2, 0.3, 0.4), 0.5);
    assert_eq!(envelope(true, 0.0, 0.5, 0.2, 0.3, 0.4), 0.0);
}

#[test]
fn envelope_decay_phase() {
    let got = envelope(true, 0.6, 0.5, 0.2, 0.3, 0.4);
    let expected = 1.0f32 - (1.0f32 - 0.3) * (0.6f32 - 0.5) / 0.2;
    assert_eq!(got.to_bits(), expected.to_bits());
    assert!((got - 0.65).abs() < 1e-6);
}

#[test]
fn envelope_decay_start_is_full_amplitude() {
    // exactly at the attack boundary the decay ramp starts at one
    assert_eq!(envelope(true, 0.5, 0.5, 0.2, 0.3, 0.4), 1.0);
}

#[test]
fn envelope_sustain_phase() {
    assert_eq!(envelope(true, 10.0, 0.5, 0.2, 0.3, 0.4), 0.3);
    // the sustain level is handed back untouched, whatever its bits
    assert_eq!(
        envelope(true, 0.71, 0.5, 0.2, 0.3, 0.4).to_bits(),
        0.3f32.to_bits()
    );
}

#[test]
fn envelope_release_phase() {
    // gate down, half-way through the release: half the sustain level
    assert_eq!(envelope(false, 0.2, 0.5, 0.2, 0.3, 0.4), 0.15);
}

#[test]
fn envelope_release_boundary_and_beyond_is_silent() {
    assert_eq!(envelope(false, 0.4, 0.5, 0.2, 0.3, 0.4), 0.0);
    assert_eq!(envelope(false, 1.0, 0.5, 0.2, 0.3, 0.4), 0.0);
}

#[test]
fn envelope_zero_attack_is_not_special_cased() {
    // with a zero attack the ramp test `time < attack` fails at once and the
    // unguarded computation falls through, never dividing: at time zero with
    // zero decay the output is already the sustain level
    assert_eq!(envelope(true, 0.0, 0.0, 0.0, 0.5, 0.1), 0.5);
    assert_eq!(envelope(true, 1e-9, 0.0, 0.0, 0.5, 0.1), 0.5);
}

#[test]
fn envelope_negative_time_divides_by_zero_attack() {
    // a negative elapsed time does reach the attack ramp: with a zero attack
    // the unguarded division produces an infinite ramp value
    let got = envelope(true, -1.0, 0.0, 0.0, 0.5, 0.1);
    assert!(got.is_infinite());
}

#[test]
fn envelope_zero_release_cuts_to_silence() {
    assert_eq!(envelope(false, 0.0, 0.5, 0.2, 0.3, 0.0), 0.0);
}

#[test]
fn envelope_matches_unguarded_float_formula_bit_for_bit() {
    let params = [
        (0.5f32, 0.2f32, 0.3f32, 0.4f32),
        (0.01, 0.1, 0.5, 0.1),
        (0.0, 0.0, 0.5, 0.0),
        (0.3, 0.0, 0.9, 2.0),
    ];
    let times = [0.0f32, 1e-4, 0.005, 0.25, 0.3, 0.5, 0.6, 0.7, 1.0, 10.0];
    for &(a, d, s, r) in params.iter() {
        for &t in times.iter() {
            for &gate in [true, false].iter() {
                let expected = if gate {
                    if t < a {
                        t / a
                    } else if t < a + d {
                        1.0 - (1.0 - s) * (t - a) / d
                    } else {
                        s
                    }
                } else {
                    if t < r {
                        s * (1.0 - t / r)
                    } else {
                        0.0
                    }
                };
                let got = envelope(gate, t, a, d, s, r);
                assert!(
                    got.to_bits() == expected.to_bits() || (got.is_nan() && expected.is_nan()),
                    "gate={} t={} a={} d={} s={} r={}: got {:?} expected {:?}",
                    gate, t, a, d, s, r, got, expected
                );
            }
        }
    }
}
