//! What a hotkey leaves for the rest of the daemon to do.
//!
//! Handling a key changes the [`CoreState`] at once and names one
//! [`Effect`]: the work on the machine that only the caller can do. The
//! caller carries the effect out, reports the [`Outcome`], and learns from
//! [`Effect::follow_up`] whether more is to be done or the key has failed.

use vstd::prelude::*;

verus! {

/// Number of bytes in a report to the virtual keyboard.
pub const REPORT_LEN: usize = 8;

/// First byte of a report of ordinary keys.
pub const KEYBOARD_REPORT: u8 = 0x01;

/// First byte of a report of consumer-control keys.
pub const CONSUMER_REPORT: u8 = 0x02;

/// Position of the mode code in the record of the current lighting mode.
pub const MODE_INDEX: usize = 3;

/// The persisted settings that hotkeys change.
#[derive(Clone, Copy, Debug, PartialEq, Eq)]
pub struct CoreState {
    /// The LED brightness level.
    pub brightness: u8,
    /// The record of the current lighting mode; the byte at [`MODE_INDEX`] is the mode code.
    pub current_mode: [u8; 4],
}

impl CoreState {
    /// The code of the current lighting mode.
    pub open spec fn mode(self) -> u8 {
        self.current_mode[MODE_INDEX as int]
    }

    /// This state with the brightness level `level`.
    pub open spec fn with_brightness(self, level: u8) -> CoreState {
        CoreState { brightness: level, current_mode: self.current_mode }
    }

    /// This state with the mode code `mode`; the other bytes of the record stay.
    pub open spec fn with_mode(self, mode: u8) -> CoreState {
        CoreState {
            brightness: self.brightness,
            current_mode: [self.current_mode[0], self.current_mode[1], self.current_mode[2], mode],
        }
    }
}

/// Work on the machine that handling a key asks of the caller.
#[derive(Clone, Copy, Debug, PartialEq, Eq)]
pub enum Effect {
    /// Nothing is left to do.
    Done,
    /// Send the brightness `level` to the keyboard LEDs.
    SetLedBrightness { level: u8 },
    /// Send the stored settings of the lighting mode `mode` to the keyboard.
    /// Where the configuration holds no settings for it, nothing is sent and
    /// the effect counts as [`Outcome::Skipped`]. `save` asks for the
    /// configuration to be written out once the settings were sent.
    SetLedMode { mode: u8, save: bool },
    /// Write the configuration to durable storage.
    SaveConfig,
    /// Raise the screen backlight by one step.
    ScreenBrightnessUp,
    /// Lower the screen backlight by one step.
    ScreenBrightnessDown,
    /// Suspend the machine.
    Suspend,
    /// Switch airplane mode on or off.
    ToggleAirplaneMode,
    /// Hand `report` to the virtual keyboard.
    PressKeys { report: [u8; REPORT_LEN] },
}

/// How carrying out an [`Effect`] ended.
#[derive(Clone, Copy, Debug, PartialEq, Eq, Structural)]
pub enum Outcome {
    /// The work was done.
    Completed,
    /// There was nothing to do.
    Skipped,
    /// The work was tried and failed.
    Failed,
}

/// The part of handling a key that failed.
#[derive(Clone, Copy, Debug, PartialEq, Eq, Structural)]
pub enum AuraError {
    /// The brightness could not be sent to the keyboard LEDs.
    LedBrightness,
    /// The lighting mode could not be sent to the keyboard.
    LedMode,
    /// The machine could not be suspended.
    Suspend,
    /// Airplane mode could not be switched.
    AirplaneMode,
}

impl Effect {
    /// What follows once this effect has ended with `outcome`: the next
    /// effect, or the error with which the key has failed.
    ///
    /// A failure to reach the keyboard LEDs, to suspend or to switch airplane
    /// mode fails the key. The configuration is written out after the
    /// settings of a mode were sent with `save` set. Nothing else has a
    /// sequel.
    pub open spec fn after(self, outcome: Outcome) -> Result<Effect, AuraError> {
        match (self, outcome) {
            (Effect::SetLedBrightness { .. }, Outcome::Failed) => Err(AuraError::LedBrightness),
            (Effect::SetLedMode { .. }, Outcome::Failed) => Err(AuraError::LedMode),
            (Effect::Suspend, Outcome::Failed) => Err(AuraError::Suspend),
            (Effect::ToggleAirplaneMode, Outcome::Failed) => Err(AuraError::AirplaneMode),
            (Effect::SetLedMode { save: true, .. }, Outcome::Completed) => Ok(Effect::SaveConfig),
            _ => Ok(Effect::Done),
        }
    }

    /// What follows once this effect has ended with `outcome`.
    pub fn follow_up(self, outcome: Outcome) -> (next: Result<Effect, AuraError>)
        ensures
            next == self.after(outcome),
    {
        match (self, outcome) {
            (Effect::SetLedBrightness { .. }, Outcome::Failed) => Err(AuraError::LedBrightness),
            (Effect::SetLedMode { .. }, Outcome::Failed) => Err(AuraError::LedMode),
            (Effect::Suspend, Outcome::Failed) => Err(AuraError::Suspend),
            (Effect::ToggleAirplaneMode, Outcome::Failed) => Err(AuraError::AirplaneMode),
            (Effect::SetLedMode { save: true, .. }, Outcome::Completed) => Ok(Effect::SaveConfig),
            _ => Ok(Effect::Done),
        }
    }

    /// No key sets off more than two effects: whatever follows a first
    /// effect has itself no sequel.
    pub proof fn lemma_second_effect_is_last(self, first: Outcome, second: Outcome)
        ensures
            self.after(first) matches Ok(next) ==> next.after(second) == Ok::<Effect, AuraError>(
                Effect::Done,
            ),
    {
    }
}

/// The report of the ordinary key `key`, pressed alone.
pub open spec fn keyboard_report(key: u8) -> [u8; REPORT_LEN] {
    [KEYBOARD_REPORT, 0u8, 0u8, key, 0u8, 0u8, 0u8, 0u8]
}

/// The report of the consumer-control key `key`.
pub open spec fn consumer_report(key: u8) -> [u8; REPORT_LEN] {
    [CONSUMER_REPORT, key, 0u8, 0u8, 0u8, 0u8, 0u8, 0u8]
}

/// Builds the report of the ordinary key `key`, pressed alone.
pub fn make_keyboard_report(key: u8) -> (report: [u8; REPORT_LEN])
    ensures
        report == keyboard_report(key),
{
    let report = [KEYBOARD_REPORT, 0u8, 0u8, key, 0u8, 0u8, 0u8, 0u8];
    assert(report =~= keyboard_report(key));
    report
}

/// Builds the report of the consumer-control key `key`.
pub fn make_consumer_report(key: u8) -> (report: [u8; REPORT_LEN])
    ensures
        report == consumer_report(key),
{
    let report = [CONSUMER_REPORT, key, 0u8, 0u8, 0u8, 0u8, 0u8, 0u8];
    assert(report =~= consumer_report(key));
    report
}

} // verus!
