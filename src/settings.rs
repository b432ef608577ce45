//! Settings of the timer: the lengths of the work phase and the break, in
//! minutes, and the credential for the lighting bridge, if lights are used.
use vstd::prelude::*;
use crate::cycle::CycleConfig;

verus! {

#[verifier::external_type_specification]
#[verifier::external_body]
pub struct ExConfig(config::Config);

#[verifier::external_type_specification]
#[verifier::external_body]
pub struct ExConfigError(config::ConfigError);

/// A key made of ASCII letters, digits, `_`, `-` and `.` only: a path of
/// plain names, with no subscript.
pub open spec fn is_plain_key(key: Seq<char>) -> bool {
    forall|i: int|
        0 <= i < key.len() ==> ('a' <= #[trigger] key[i] <= 'z') || ('A' <= key[i] <= 'Z') || (
        '0' <= key[i] <= '9') || key[i] == '_' || key[i] == '-' || key[i] == '.'
}

/// The integer that a loaded configuration holds under `key`, if it holds one
/// that reads as an integer.
pub uninterp spec fn config_int_of(c: config::Config, key: Seq<char>) -> Option<i64>;

/// The text that a loaded configuration holds under `key`, if it holds a value
/// that reads as text.
pub uninterp spec fn config_str_of(c: config::Config, key: Seq<char>) -> Option<Seq<char>>;

/// Relies on config::Config::get_int: a lookup of `key` in the configuration's
/// values, converted to an integer, so the result depends on the configuration
/// and the key alone. A key with a negative subscript can make the lookup
/// panic, so only plain keys are admitted.
pub assume_specification[ config::Config::get_int ](
    c: &config::Config,
    key: &str,
) -> (r: Result<i64, config::ConfigError>)
    requires
        is_plain_key(key@),
    ensures
        r is Ok <==> config_int_of(*c, key@) is Some,
        r is Ok ==> r->Ok_0 == config_int_of(*c, key@)->Some_0,
;

/// Relies on config::Config::get_str: a lookup of `key` in the configuration's
/// values, converted to text, so the result depends on the configuration and
/// the key alone. A key with a negative subscript can make the lookup panic,
/// so only plain keys are admitted.
pub assume_specification[ config::Config::get_str ](
    c: &config::Config,
    key: &str,
) -> (r: Result<String, config::ConfigError>)
    requires
        is_plain_key(key@),
    ensures
        r is Ok <==> config_str_of(*c, key@) is Some,
        r is Ok ==> r->Ok_0@ == config_str_of(*c, key@)->Some_0,
;

/// The largest number of minutes whose length in seconds fits in a `u64`.
pub const MAX_MINUTES: u64 = 307445734561825860;

/// A setting that holds a length in minutes.
#[derive(Clone, Copy, Debug, PartialEq, Eq, Structural)]
pub enum SettingsField {
    Minutes,
    BreakDuration,
}

/// Why settings could not be formed.
#[derive(Clone, Copy, Debug, PartialEq, Eq, Structural)]
pub enum SettingsError {
    /// The setting is absent or is not an integer.
    Missing(SettingsField),
    /// The setting is below zero.
    Negative(SettingsField),
    /// The setting's length in seconds does not fit in 64 bits.
    TooLarge(SettingsField),
}

/// The validated settings of the timer.
#[derive(Debug)]
pub struct Settings {
    /// Length of the work phase, in minutes.
    pub minutes: u64,
    /// Length of the break, in minutes.
    pub break_duration: u64,
    /// Credential for the lighting bridge; lights are signalled only when it
    /// is present.
    pub api_key: Option<String>,
}

impl Settings {
    /// Both lengths fit in seconds.
    pub open spec fn wf(&self) -> bool {
        self.minutes <= MAX_MINUTES && self.break_duration <= MAX_MINUTES
    }
}

/// The length in minutes that a raw setting gives, or why it gives none.
pub open spec fn minutes_of(v: Option<i64>, field: SettingsField) -> Result<u64, SettingsError> {
    match v {
        None => Err(SettingsError::Missing(field)),
        Some(m) => if m < 0 {
            Err(SettingsError::Negative(field))
        } else if m > MAX_MINUTES {
            Err(SettingsError::TooLarge(field))
        } else {
            Ok(m as u64)
        },
    }
}

/// The settings that raw values give: the work length is checked first, then
/// the break length; the credential is taken as it is.
pub open spec fn settings_of(
    minutes: Option<i64>,
    break_duration: Option<i64>,
    api_key: Option<String>,
) -> Result<Settings, SettingsError> {
    match minutes_of(minutes, SettingsField::Minutes) {
        Err(e) => Err(e),
        Ok(m) => match minutes_of(break_duration, SettingsField::BreakDuration) {
            Err(e) => Err(e),
            Ok(b) => Ok(Settings { minutes: m, break_duration: b, api_key }),
        },
    }
}

fn check_minutes(v: Option<i64>, field: SettingsField) -> (r: Result<u64, SettingsError>)
    ensures
        r == minutes_of(v, field),
{
    match v {
        None => Err(SettingsError::Missing(field)),
        Some(m) => if m < 0 {
            Err(SettingsError::Negative(field))
        } else if m as u64 > MAX_MINUTES {
            Err(SettingsError::TooLarge(field))
        } else {
            Ok(m as u64)
        },
    }
}

impl Settings {
    /// Forms settings from raw values: a length that is absent, negative or
    /// too large for its seconds to fit in 64 bits is refused, the work
    /// length before the break length.
    pub fn from_values(
        minutes: Option<i64>,
        break_duration: Option<i64>,
        api_key: Option<String>,
    ) -> (r: Result<Settings, SettingsError>)
        ensures
            r == settings_of(minutes, break_duration, api_key),
            r is Ok ==> r->Ok_0.wf(),
    {
        match check_minutes(minutes, SettingsField::Minutes) {
            Err(e) => Err(e),
            Ok(m) => match check_minutes(break_duration, SettingsField::BreakDuration) {
                Err(e) => Err(e),
                Ok(b) => Ok(Settings { minutes: m, break_duration: b, api_key }),
            },
        }
    }

    /// Reads `minutes`, `break_duration` and `api_key` from a loaded
    /// configuration and forms settings from them; a key that cannot be read
    /// counts as absent.
    pub fn from_config(c: &config::Config) -> (r: Result<Settings, SettingsError>)
        ensures
            exists|k: Option<String>|
                r == settings_of(
                    config_int_of(*c, "minutes"@),
                    config_int_of(*c, "break_duration"@),
                    k,
                ) && (k is Some <==> config_str_of(*c, "api_key"@) is Some) && (k is Some
                    ==> k->Some_0@ == config_str_of(*c, "api_key"@)->Some_0),
    {
        proof {
            reveal_strlit("minutes");
            reveal_strlit("break_duration");
            reveal_strlit("api_key");
        }
        let minutes = match c.get_int("minutes") {
            Ok(v) => Some(v),
            Err(_) => None,
        };
        let break_duration = match c.get_int("break_duration") {
            Ok(v) => Some(v),
            Err(_) => None,
        };
        let api_key = match c.get_str("api_key") {
            Ok(v) => Some(v),
            Err(_) => None,
        };
        Settings::from_values(minutes, break_duration, api_key)
    }

    /// Whether lights are to be signalled.
    pub fn lighting(&self) -> (r: bool)
        ensures
            r == self.api_key.is_some(),
    {
        self.api_key.is_some()
    }

    /// The cycle these settings describe, with countdown checks every
    /// `tick_secs` seconds.
    pub fn cycle_config(&self, tick_secs: u64) -> (c: CycleConfig)
        requires
            self.wf(),
        ensures
            c.work_secs == self.minutes * 60,
            c.break_secs == self.break_duration * 60,
            c.tick_secs == tick_secs,
            c.lighting == self.api_key.is_some(),
    {
        CycleConfig {
            work_secs: self.minutes * 60,
            break_secs: self.break_duration * 60,
            tick_secs,
            lighting: self.api_key.is_some(),
        }
    }
}

} // verus!
