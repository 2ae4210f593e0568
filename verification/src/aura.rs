//! Lighting modes and LED brightness levels of the keyboard.
//!
//! The firmware selects a lighting effect by a one-byte code. The codes run
//! from `0x00` to [`LAST_MODE_CODE`]; [`RESERVED_MODE_CODE`] is reserved by
//! the firmware and is never selected.

use vstd::prelude::*;

verus! {

/// The highest mode code.
pub const LAST_MODE_CODE: u8 = 0x0c;

/// The code that the firmware keeps for itself.
pub const RESERVED_MODE_CODE: u8 = 0x09;

/// The lighting effects built into the keyboard firmware.
#[derive(Clone, Copy, Debug, PartialEq, Eq, Structural)]
pub enum BuiltInModeByte {
    Stable,
    Breathe,
    Cycle,
    Rainbow,
    Rain,
    Random,
    Highlight,
    Laser,
    Ripple,
    Pulse,
    ThinZoomy,
    WideZoomy,
}

impl BuiltInModeByte {
    /// The code by which the firmware knows this effect.
    pub open spec fn code(self) -> u8 {
        match self {
            BuiltInModeByte::Stable => 0x00,
            BuiltInModeByte::Breathe => 0x01,
            BuiltInModeByte::Cycle => 0x02,
            BuiltInModeByte::Rainbow => 0x03,
            BuiltInModeByte::Rain => 0x04,
            BuiltInModeByte::Random => 0x05,
            BuiltInModeByte::Highlight => 0x06,
            BuiltInModeByte::Laser => 0x07,
            BuiltInModeByte::Ripple => 0x08,
            BuiltInModeByte::Pulse => 0x0a,
            BuiltInModeByte::ThinZoomy => 0x0b,
            BuiltInModeByte::WideZoomy => 0x0c,
        }
    }

    /// The code by which the firmware knows this effect.
    pub fn to_byte(self) -> (byte: u8)
        ensures
            byte == self.code(),
            is_mode_code(byte),
    {
        match self {
            BuiltInModeByte::Stable => 0x00,
            BuiltInModeByte::Breathe => 0x01,
            BuiltInModeByte::Cycle => 0x02,
            BuiltInModeByte::Rainbow => 0x03,
            BuiltInModeByte::Rain => 0x04,
            BuiltInModeByte::Random => 0x05,
            BuiltInModeByte::Highlight => 0x06,
            BuiltInModeByte::Laser => 0x07,
            BuiltInModeByte::Ripple => 0x08,
            BuiltInModeByte::Pulse => 0x0a,
            BuiltInModeByte::ThinZoomy => 0x0b,
            BuiltInModeByte::WideZoomy => 0x0c,
        }
    }
}

/// Whether `code` selects a lighting effect.
pub open spec fn is_mode_code(code: u8) -> bool {
    code <= LAST_MODE_CODE && code != RESERVED_MODE_CODE
}

/// Whether one of `modes` has the code `code`.
pub open spec fn supports(modes: Seq<BuiltInModeByte>, code: u8) -> bool {
    exists|i: int| 0 <= i < modes.len() && #[trigger] modes[i].code() == code
}

/// The mode code that follows `current` when cycling forwards.
pub open spec fn mode_after(current: u8) -> u8 {
    if current + 1 > LAST_MODE_CODE {
        0x00
    } else if current + 1 == RESERVED_MODE_CODE {
        0x0a
    } else {
        (current + 1) as u8
    }
}

/// The mode code that precedes `current` when cycling backwards.
pub open spec fn mode_before(current: u8) -> u8 {
    if current == 0x00 {
        LAST_MODE_CODE
    } else if current - 1 == RESERVED_MODE_CODE {
        0x08
    } else {
        (current - 1) as u8
    }
}

/// The brightness level after one step up, with `max` as the highest level.
pub open spec fn brightness_up(level: u8, max: u8) -> u8 {
    if level < max {
        (level + 1) as u8
    } else {
        level
    }
}

/// The brightness level after one step down, with `min` as the lowest level.
pub open spec fn brightness_down(level: u8, min: u8) -> u8 {
    if level > min {
        (level - 1) as u8
    } else {
        level
    }
}

/// The mode code to select when cycling forwards from `current`.
pub fn next_mode(current: u8) -> (mode: u8)
    ensures
        mode == mode_after(current),
        is_mode_code(mode),
{
    if current >= LAST_MODE_CODE {
        0x00
    } else if current + 1 == RESERVED_MODE_CODE {
        0x0a
    } else {
        current + 1
    }
}

/// The mode code to select when cycling backwards from `current`.
pub fn previous_mode(current: u8) -> (mode: u8)
    ensures
        mode == mode_before(current),
        is_mode_code(current) ==> is_mode_code(mode),
{
    if current == 0x00 {
        LAST_MODE_CODE
    } else if current - 1 == RESERVED_MODE_CODE {
        0x08
    } else {
        current - 1
    }
}

/// One step up from `level`, never beyond `max`.
pub fn step_up(level: u8, max: u8) -> (next: u8)
    ensures
        next == brightness_up(level, max),
{
    if level < max {
        level + 1
    } else {
        level
    }
}

/// One step down from `level`, never below `min`.
pub fn step_down(level: u8, min: u8) -> (next: u8)
    ensures
        next == brightness_down(level, min),
{
    if level > min {
        level - 1
    } else {
        level
    }
}

/// Cycling forwards always arrives at a mode code, whatever the code before
/// was: the reserved code is never selected.
pub proof fn lemma_mode_after_is_mode_code(current: u8)
    ensures
        is_mode_code(mode_after(current)),
        mode_after(current) != RESERVED_MODE_CODE,
{
}

/// Cycling backwards from a mode code arrives at a mode code.
pub proof fn lemma_mode_before_is_mode_code(current: u8)
    requires
        is_mode_code(current),
    ensures
        is_mode_code(mode_before(current)),
        mode_before(current) != RESERVED_MODE_CODE,
{
}

/// On mode codes, cycling backwards undoes cycling forwards, and the other
/// way round.
pub proof fn lemma_mode_cycle_inverse(current: u8)
    requires
        is_mode_code(current),
    ensures
        mode_before(mode_after(current)) == current,
        mode_after(mode_before(current)) == current,
{
}

/// The brightness level after `presses` steps up from `level`.
pub open spec fn brightness_after_ups(level: u8, max: u8, presses: nat) -> u8
    decreases presses,
{
    if presses == 0 {
        level
    } else {
        brightness_up(brightness_after_ups(level, max, (presses - 1) as nat), max)
    }
}

/// The brightness level after `presses` steps down from `level`.
pub open spec fn brightness_after_downs(level: u8, min: u8, presses: nat) -> u8
    decreases presses,
{
    if presses == 0 {
        level
    } else {
        brightness_down(brightness_after_downs(level, min, (presses - 1) as nat), min)
    }
}

/// However often the level is stepped up, it rises by one per step until it
/// reaches `max` and then stays. A level that is beyond `max` to begin with
/// is left as it is.
pub proof fn lemma_brightness_ups(level: u8, max: u8, presses: nat)
    ensures
        brightness_after_ups(level, max, presses) == if level >= max {
            level as int
        } else if level + presses <= max {
            level + presses
        } else {
            max as int
        },
        level <= max ==> brightness_after_ups(level, max, presses) <= max,
    decreases presses,
{
    if presses > 0 {
        lemma_brightness_ups(level, max, (presses - 1) as nat);
    }
}

/// However often the level is stepped down, it falls by one per step until
/// it reaches `min` and then stays. A level that is below `min` to begin
/// with is left as it is.
pub proof fn lemma_brightness_downs(level: u8, min: u8, presses: nat)
    ensures
        brightness_after_downs(level, min, presses) == if level <= min {
            level as int
        } else if level - presses >= min {
            level - presses
        } else {
            min as int
        },
        level >= min ==> brightness_after_downs(level, min, presses) >= min,
    decreases presses,
{
    if presses > 0 {
        lemma_brightness_downs(level, min, (presses - 1) as nat);
    }
}

} // verus!
