//! The single synthesizer voice: note state, envelope, oscillator phase and
//! the per-block render loop.
//!
//! The voice is monophonic: a note-on replaces whatever was sounding and
//! resets the elapsed time; a note-off only drops the `gate`, and only when it
//! names the sounding note. The envelope is stateless: each sample re-derives
//! the ADSR stage from the `gate` and the elapsed time alone. Degenerate
//! parameters (a zero attack, decay or release) are not guarded: the division
//! they cause propagates as an infinite or NaN bit pattern, exactly as IEEE
//! 754 prescribes.
//!
//! The sine itself cannot be taken deterministically (the platform's `sin`
//! varies in precision from machine to machine), so the voice exposes the
//! oscillator's phase argument per sample and takes the sine results back as
//! an argument to the render step; the caller computes the sines in between.

use vstd::prelude::*;
use crate::fbits::{
    fadd, fsub, fmul, fdiv, flt, f_from_i32,
    add_bits, sub_bits, mul_bits, div_bits, lt_bits, from_i32_bits,
    ONE_BITS, TWO_BITS, PI_BITS, TWELVE_BITS, ZERO_BITS,
};
use crate::params::Params;

verus! {

/// Bit pattern of 44100 (Hz): the default sample rate.
pub const DEFAULT_RATE_BITS: u32 = 0x472C_4400;

/// Bit pattern of 440 (Hz): the frequency of A4, MIDI note 69.
pub const A4_FREQ_BITS: u32 = 0x43DC_0000;

/// A MIDI channel message as its three raw bytes: the status byte and the
/// two data bytes. A status of 144 is note-on (data1 the note, data2 the
/// velocity), a status of 128 is note-off (data1 the note); anything else is
/// ignored by the voice.
#[derive(Clone, Copy)]
pub struct MidiMsg {
    pub status: u8,
    pub data1: u8,
    pub data2: u8,
}

/// The transient state of the one voice. `time` is the elapsed time in
/// seconds since the last trigger, `note` the last triggered MIDI note
/// number, `gate` whether that note is still held; `sample_rate` is in Hz.
/// All single-precision values are carried as raw bits.
#[derive(Clone, Copy)]
pub struct Voice {
    pub sample_rate: u32,
    pub time: u32,
    pub note: u8,
    pub gate: bool,
}

/// The note's offset in semitones from A4 (MIDI note 69), after the note
/// byte is reinterpreted as a signed byte: bytes above 127 wrap negative.
pub open spec fn semitone_offset_spec(note: u8) -> i32 {
    if note < 128 {
        (note - 69) as i32
    } else {
        (note - 256 - 69) as i32
    }
}

/// The oscillator exponent for a note: its semitone offset from A4 divided
/// by twelve, so that A4 itself maps to zero and an octave to one.
pub open spec fn freq_exponent_spec(note: u8) -> u32 {
    div_bits(from_i32_bits(semitone_offset_spec(note)), TWELVE_BITS)
}

/// The note frequency in Hz: two raised to the oscillator exponent (handed
/// in by the caller), times 440.
pub open spec fn freq_from_exp2_spec(e2: u32) -> u32 {
    mul_bits(e2, A4_FREQ_BITS)
}

/// The sine oscillator's phase argument at elapsed time `t` for frequency
/// `f`: t · f · 2 · π, multiplied left to right.
pub open spec fn phase_spec(t: u32, f: u32) -> u32 {
    mul_bits(mul_bits(mul_bits(t, f), TWO_BITS), PI_BITS)
}

/// The ADSR amplitude at elapsed time `t`. While the `gate` is held: a linear
/// ramp from zero to one over the attack, then a linear ramp from one down
/// to the sustain level over the decay, then the sustain level. After the
/// gate drops: a linear ramp from the sustain level toward zero over the
/// release, then zero. Every comparison and ramp is IEEE 754 single
/// precision on the raw bits, divisions by zero included.
pub open spec fn envelope_spec(
    gate: bool,
    t: u32,
    attack: u32,
    decay: u32,
    sustain: u32,
    release: u32,
) -> u32 {
    if gate {
        if lt_bits(t, attack) {
            div_bits(t, attack)
        } else if lt_bits(t, add_bits(attack, decay)) {
            sub_bits(ONE_BITS, div_bits(mul_bits(sub_bits(ONE_BITS, sustain), sub_bits(t, attack)), decay))
        } else {
            sustain
        }
    } else {
        if lt_bits(t, release) {
            mul_bits(sustain, sub_bits(ONE_BITS, div_bits(t, release)))
        } else {
            ZERO_BITS
        }
    }
}

/// The time per sample at sample rate `sr`: the reciprocal of `sr`.
pub open spec fn tps_spec(sr: u32) -> u32 {
    div_bits(ONE_BITS, sr)
}

/// The elapsed time after `n` further samples: `t0` with the per-sample
/// increment `per` added `n` times over, one IEEE 754 addition per sample.
pub open spec fn time_after(t0: u32, per: u32, n: nat) -> u32
    decreases n,
{
    if n == 0 {
        t0
    } else {
        add_bits(time_after(t0, per, (n - 1) as nat), per)
    }
}

/// One output sample: the raw waveform `w` times the envelope amplitude `e`
/// times the volume `v`, multiplied left to right.
pub open spec fn mix_spec(w: u32, e: u32, v: u32) -> u32 {
    mul_bits(mul_bits(w, e), v)
}

/// The voice after one MIDI message: note-on (status 144) stores the note,
/// raises the `gate` and resets the elapsed time; note-off (status 128) drops
/// the `gate` only when it names the stored note; any other status leaves the
/// voice unchanged.
pub open spec fn event_step(v: Voice, m: MidiMsg) -> Voice {
    if m.status == 144 {
        Voice { note: m.data1, gate: true, time: ZERO_BITS, ..v }
    } else if m.status == 128 {
        if v.note == m.data1 {
            Voice { gate: false, ..v }
        } else {
            v
        }
    } else {
        v
    }
}

/// The voice after a whole block's messages, applied in arrival order.
pub open spec fn events_fold(v: Voice, msgs: Seq<MidiMsg>) -> Voice
    decreases msgs.len(),
{
    if msgs.len() == 0 {
        v
    } else {
        event_step(events_fold(v, msgs.drop_last()), msgs.last())
    }
}

/// The note's semitone offset from A4, the note byte reinterpreted signed.
pub fn semitone_offset(note: u8) -> (r: i32)
    ensures
        r == semitone_offset_spec(note),
{
    if note < 128 {
        note as i32 - 69
    } else {
        note as i32 - 256 - 69
    }
}

/// The oscillator exponent for a note: semitone offset over twelve. The
/// caller raises two to this value and hands the result to
/// [`freq_from_exp2`].
pub fn freq_exponent(note: u8) -> (r: u32)
    ensures
        r == freq_exponent_spec(note),
{
    fdiv(f_from_i32(semitone_offset(note)), TWELVE_BITS)
}

/// The note frequency: the caller's two-to-the-exponent result times 440.
pub fn freq_from_exp2(e2: u32) -> (r: u32)
    ensures
        r == freq_from_exp2_spec(e2),
{
    fmul(e2, A4_FREQ_BITS)
}

/// The oscillator phase at elapsed time `t` for frequency `f`.
pub fn phase_value(t: u32, f: u32) -> (r: u32)
    ensures
        r == phase_spec(t, f),
{
    fmul(fmul(fmul(t, f), TWO_BITS), PI_BITS)
}

impl Voice {
    /// Corrects the sample rate to the default the host renders at.
    pub fn init(&mut self)
        ensures
            final(self).sample_rate == DEFAULT_RATE_BITS,
            final(self).time == old(self).time,
            final(self).note == old(self).note,
            final(self).gate == old(self).gate,
    {
        self.sample_rate = DEFAULT_RATE_BITS;
    }

    /// Triggers a note: stores it, raises the `gate` and resets the elapsed
    /// time to zero, whatever the prior state. The velocity is accepted but
    /// has no effect on amplitude.
    pub fn note_on(&mut self, note: u8, _velocity: u8)
        ensures
            final(self).note == note,
            final(self).gate == true,
            final(self).time == ZERO_BITS,
            final(self).sample_rate == old(self).sample_rate,
    {
        self.note = note;
        self.gate = true;
        self.time = ZERO_BITS;
    }

    /// Releases a note: drops the `gate` only when the given note is the one
    /// stored, so a stale note-off cannot silence a newer note. The elapsed
    /// time keeps running into the release phase.
    pub fn note_off(&mut self, note: u8)
        ensures
            final(self).gate == (if old(self).note == note { false } else { old(self).gate }),
            final(self).note == old(self).note,
            final(self).time == old(self).time,
            final(self).sample_rate == old(self).sample_rate,
    {
        if self.note == note {
            self.gate = false;
        }
    }

    /// Applies one MIDI message to the voice.
    pub fn process_event(&mut self, msg: MidiMsg)
        ensures
            *final(self) == event_step(*old(self), msg),
    {
        match msg.status {
            128 => self.note_off(msg.data1),
            144 => self.note_on(msg.data1, msg.data2),
            _ => (),
        }
    }

    /// Applies a whole block's MIDI messages in arrival order, before the
    /// block's samples are rendered.
    pub fn process_events(&mut self, msgs: &Vec<MidiMsg>)
        ensures
            *final(self) == events_fold(*old(self), msgs@),
    {
        let ghost orig = *self;
        let n = msgs.len();
        let mut i: usize = 0;
        while i < n
            invariant
                i <= n,
                n == msgs@.len(),
                *self == events_fold(orig, msgs@.take(i as int)),
            decreases n - i,
        {
            self.process_event(msgs[i]);
            proof {
                assert(msgs@.take(i + 1).drop_last() =~= msgs@.take(i as int));
                assert(msgs@.take(i + 1).last() == msgs@[i as int]);
            }
            i += 1;
        }
        proof {
            assert(msgs@.take(n as int) =~= msgs@);
        }
    }

    /// The elapsed-time increment between consecutive samples.
    pub fn time_per_sample(&self) -> (r: u32)
        ensures
            r == tps_spec(self.sample_rate),
    {
        fdiv(ONE_BITS, self.sample_rate)
    }

    /// The oscillator phase at the voice's current elapsed time.
    pub fn phase(&self, freq_bits: u32) -> (r: u32)
        ensures
            r == phase_spec(self.time, freq_bits),
    {
        phase_value(self.time, freq_bits)
    }

    /// The ADSR amplitude at the voice's current elapsed time, from the
    /// gate and the four envelope parameters.
    pub fn apply_envelope(&self, params: &Params) -> (r: u32)
        ensures
            r == envelope_spec(
                self.gate,
                self.time,
                params.attack,
                params.decay,
                params.sustain,
                params.release,
            ),
    {
        let attack = params.attack;
        let decay = params.decay;
        let sustain = params.sustain;
        let release = params.release;

        if self.gate {
            if flt(self.time, attack) {
                fdiv(self.time, attack)
            } else if flt(self.time, fadd(attack, decay)) {
                fsub(ONE_BITS, fdiv(fmul(fsub(ONE_BITS, sustain), fsub(self.time, attack)), decay))
            } else {
                sustain
            }
        } else {
            if flt(self.time, release) {
                fmul(sustain, fsub(ONE_BITS, fdiv(self.time, release)))
            } else {
                ZERO_BITS
            }
        }
    }

    /// The oscillator phase of each of the next `count` samples, at the
    /// elapsed times the render loop will step through, without advancing
    /// the voice. The caller computes the sine of each phase and hands the
    /// results to [`Voice::render_block`].
    pub fn block_phases(&self, freq_bits: u32, count: usize) -> (r: Vec<u32>)
        ensures
            r@.len() == count,
            forall|j: int|
                0 <= j < count ==> r@[j] == phase_spec(
                    time_after(self.time, tps_spec(self.sample_rate), j as nat),
                    freq_bits,
                ),
    {
        let per = self.time_per_sample();
        let mut t = self.time;
        let mut r: Vec<u32> = Vec::new();
        let mut i: usize = 0;
        while i < count
            invariant
                i <= count,
                per == tps_spec(self.sample_rate),
                t == time_after(self.time, per, i as nat),
                r@.len() == i,
                forall|j: int|
                    0 <= j < i ==> r@[j] == phase_spec(
                        time_after(self.time, per, j as nat),
                        freq_bits,
                    ),
            decreases count - i,
        {
            let p = phase_value(t, freq_bits);
            r.push(p);
            t = fadd(t, per);
            i += 1;
        }
        r
    }

    /// Renders one block. `sins` holds the sine of each sample's oscillator
    /// phase, as produced for [`Voice::block_phases`]. While the `gate` is
    /// held the block's output samples are returned: per sample, the sine
    /// value times the envelope amplitude at that sample's elapsed time,
    /// times the volume. While the `gate` is down nothing is written — the
    /// release tail never reaches the output — and `None` is returned.
    /// Either way the elapsed time advances by one per-sample increment for
    /// every entry of `sins`.
    pub fn render_block(&mut self, sins: &Vec<u32>, params: &Params) -> (out: Option<Vec<u32>>)
        ensures
            final(self).note == old(self).note,
            final(self).gate == old(self).gate,
            final(self).sample_rate == old(self).sample_rate,
            final(self).time == time_after(
                old(self).time,
                tps_spec(old(self).sample_rate),
                sins@.len(),
            ),
            out is Some <==> old(self).gate,
            out matches Some(o) ==> (o@.len() == sins@.len() && forall|j: int|
                0 <= j < sins@.len() ==> o@[j] == mix_spec(
                    sins@[j],
                    envelope_spec(
                        true,
                        time_after(old(self).time, tps_spec(old(self).sample_rate), j as nat),
                        params.attack,
                        params.decay,
                        params.sustain,
                        params.release,
                    ),
                    params.volume,
                )),
    {
        let ghost orig = *self;
        let per = self.time_per_sample();
        let n = sins.len();
        let mut i: usize = 0;
        if self.gate {
            let mut o: Vec<u32> = Vec::new();
            while i < n
                invariant
                    i <= n,
                    n == sins@.len(),
                    self.gate == orig.gate,
                    self.note == orig.note,
                    self.sample_rate == orig.sample_rate,
                    self.gate == true,
                    per == tps_spec(orig.sample_rate),
                    self.time == time_after(orig.time, per, i as nat),
                    o@.len() == i,
                    forall|j: int|
                        0 <= j < i ==> o@[j] == mix_spec(
                            sins@[j],
                            envelope_spec(
                                true,
                                time_after(orig.time, per, j as nat),
                                params.attack,
                                params.decay,
                                params.sustain,
                                params.release,
                            ),
                            params.volume,
                        ),
                decreases n - i,
            {
                let env = self.apply_envelope(params);
                let sample = fmul(fmul(sins[i], env), params.volume);
                o.push(sample);
                self.time = fadd(self.time, per);
                i += 1;
            }
            Some(o)
        } else {
            while i < n
                invariant
                    i <= n,
                    n == sins@.len(),
                    self.gate == orig.gate,
                    self.note == orig.note,
                    self.sample_rate == orig.sample_rate,
                    per == tps_spec(orig.sample_rate),
                    self.time == time_after(orig.time, per, i as nat),
                decreases n - i,
            {
                self.time = fadd(self.time, per);
                i += 1;
            }
            None
        }
    }
}

impl Default for Voice {
    /// A fresh voice: default sample rate, zero elapsed time, note zero,
    /// gate off.
    fn default() -> (r: Voice)
        ensures
            r.sample_rate == DEFAULT_RATE_BITS,
            r.time == ZERO_BITS,
            r.note == 0,
            r.gate == false,
    {
        Voice {
            sample_rate: DEFAULT_RATE_BITS,
            time: ZERO_BITS,
            note: 0,
            gate: false,
        }
    }
}

} // verus!
