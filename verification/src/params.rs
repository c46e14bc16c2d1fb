//! The five voice control parameters and their host-facing index mapping.
//!
//! The store holds volume, attack, decay, sustain and release, each an IEEE
//! 754 single-precision value carried as its raw bits. A host addresses them
//! by index: zero through four in that order; any other index reads as zero
//! and writes are no-ops.

use vstd::prelude::*;
use crate::fbits::ZERO_BITS;

verus! {

/// Bit pattern of one half: the default volume and sustain.
pub const DEFAULT_VOLUME_BITS: u32 = 0x3F00_0000;

/// Bit pattern of a hundredth (of a second): the default attack.
pub const DEFAULT_ATTACK_BITS: u32 = 0x3C23_D70A;

/// Bit pattern of a tenth (of a second): the default decay and release.
pub const DEFAULT_DECAY_BITS: u32 = 0x3DCC_CCCD;

/// Bit pattern of one half: the default sustain.
pub const DEFAULT_SUSTAIN_BITS: u32 = 0x3F00_0000;

/// Bit pattern of a tenth (of a second): the default release.
pub const DEFAULT_RELEASE_BITS: u32 = 0x3DCC_CCCD;

/// The voice's control parameters, each a single-precision value carried as
/// its raw bits. `volume` and `sustain` are meant as gain fractions between
/// zero and one, `attack`, `decay` and `release` as times in seconds, but no
/// range is enforced: any bit pattern may be stored.
pub struct Params {
    pub volume: u32,
    pub attack: u32,
    pub decay: u32,
    pub sustain: u32,
    pub release: u32,
}

/// The parameter slot a host index addresses: indices zero through four map
/// to volume, attack, decay, sustain and release; any other index to none.
pub open spec fn param_slot_spec(index: i32) -> Option<usize> {
    if 0 <= index <= 4 {
        Some(index as usize)
    } else {
        None
    }
}

/// The value read for a host index: the addressed parameter, or zero bits
/// where the index addresses none.
pub open spec fn param_get_spec(p: Params, index: i32) -> u32 {
    if index == 0 {
        p.volume
    } else if index == 1 {
        p.attack
    } else if index == 2 {
        p.decay
    } else if index == 3 {
        p.sustain
    } else if index == 4 {
        p.release
    } else {
        ZERO_BITS
    }
}

/// The store after a write to a host index: the addressed parameter replaced
/// by `value`, or the store unchanged where the index addresses none.
pub open spec fn param_set_spec(p: Params, index: i32, value: u32) -> Params {
    if index == 0 {
        Params { volume: value, ..p }
    } else if index == 1 {
        Params { attack: value, ..p }
    } else if index == 2 {
        Params { decay: value, ..p }
    } else if index == 3 {
        Params { sustain: value, ..p }
    } else if index == 4 {
        Params { release: value, ..p }
    } else {
        p
    }
}

impl Params {
    /// The parameter slot, if any, that a host index addresses. Lets callers
    /// that keep the five values in per-slot cells dispatch a read or write
    /// without repeating the index rule.
    pub fn param_slot(index: i32) -> (r: Option<usize>)
        ensures
            r == param_slot_spec(index),
    {
        if 0 <= index && index <= 4 {
            Some(index as usize)
        } else {
            None
        }
    }

    /// Reads the parameter a host index addresses; any unmapped index reads
    /// as zero bits.
    pub fn get_parameter(&self, index: i32) -> (r: u32)
        ensures
            r == param_get_spec(*self, index),
    {
        match index {
            0 => self.volume,
            1 => self.attack,
            2 => self.decay,
            3 => self.sustain,
            4 => self.release,
            _ => ZERO_BITS,
        }
    }

    /// Writes the parameter a host index addresses; a write to an unmapped
    /// index is a no-op.
    pub fn set_parameter(&mut self, index: i32, value: u32)
        ensures
            *final(self) == param_set_spec(*old(self), index, value),
    {
        match index {
            0 => self.volume = value,
            1 => self.attack = value,
            2 => self.decay = value,
            3 => self.sustain = value,
            4 => self.release = value,
            _ => (),
        }
    }

    /// The host-facing display name of the parameter an index addresses;
    /// empty for an unmapped index.
    pub fn get_parameter_name(&self, index: i32) -> (r: String)
        ensures
            index == 0 ==> r@ == "Volume"@,
            index == 1 ==> r@ == "Attack"@,
            index == 2 ==> r@ == "Decay"@,
            index == 3 ==> r@ == "Sustain"@,
            index == 4 ==> r@ == "Release"@,
            !(0 <= index <= 4) ==> r@ == ""@,
    {
        match index {
            0 => String::from_str("Volume"),
            1 => String::from_str("Attack"),
            2 => String::from_str("Decay"),
            3 => String::from_str("Sustain"),
            4 => String::from_str("Release"),
            _ => String::from_str(""),
        }
    }

    /// The host-facing unit label of the parameter an index addresses: a
    /// percent sign for the gain fractions, an `s` for the times in seconds;
    /// empty for an unmapped index.
    pub fn get_parameter_label(&self, index: i32) -> (r: String)
        ensures
            (index == 0 || index == 3) ==> r@ == "%"@,
            (index == 1 || index == 2 || index == 4) ==> r@ == "s"@,
            !(0 <= index <= 4) ==> r@ == ""@,
    {
        match index {
            0 | 3 => String::from_str("%"),
            1 | 2 | 4 => String::from_str("s"),
            _ => String::from_str(""),
        }
    }
}

impl Default for Params {
    /// A fresh store: volume and sustain one half, attack a hundredth of a
    /// second, decay and release a tenth of a second.
    fn default() -> (r: Params)
        ensures
            r.volume == DEFAULT_VOLUME_BITS,
            r.attack == DEFAULT_ATTACK_BITS,
            r.decay == DEFAULT_DECAY_BITS,
            r.sustain == DEFAULT_SUSTAIN_BITS,
            r.release == DEFAULT_RELEASE_BITS,
    {
        Params {
            volume: DEFAULT_VOLUME_BITS,
            attack: DEFAULT_ATTACK_BITS,
            decay: DEFAULT_DECAY_BITS,
            sustain: DEFAULT_SUSTAIN_BITS,
            release: DEFAULT_RELEASE_BITS,
        }
    }
}

} // verus!
