//! The settings record that outlives a session.
//!
//! The record holds the label, the numeric value, the visibility of the
//! settings window, the credential in its obscured form and the download
//! directory. The credential in clear text has no field here, so it cannot be
//! persisted. A record written by an earlier version may lack fields that
//! were added since; each missing field takes its default when the record is
//! read back.
//!
//! The numeric value is a single-precision number that this library only
//! carries: it is held as its 32 bits.

use vstd::prelude::*;
use vstd::string::*;

verus! {

/// The bits of 2.7 in single precision, the numeric value of a first run.
pub const DEFAULT_VALUE_BITS: u32 = 0x402C_CCCD;

/// The persisted settings.
#[derive(Clone, Debug, PartialEq, Eq)]
pub struct Settings {
    /// The label that the user typed.
    pub label: String,
    /// The numeric value, as the bits of a single-precision number.
    pub value_bits: u32,
    /// Whether the settings window is open.
    pub show_settings: bool,
    /// The credential, obscured.
    pub stored_discord_token: String,
    /// The directory that downloads go to.
    pub download_to: String,
}

/// The settings as plain values.
pub struct SettingsModel {
    pub label: Seq<char>,
    pub value_bits: u32,
    pub show_settings: bool,
    pub stored_discord_token: Seq<char>,
    pub download_to: Seq<char>,
}

impl View for Settings {
    type V = SettingsModel;

    open spec fn view(&self) -> SettingsModel {
        SettingsModel {
            label: self.label@,
            value_bits: self.value_bits,
            show_settings: self.show_settings,
            stored_discord_token: self.stored_discord_token@,
            download_to: self.download_to@,
        }
    }
}

/// A settings record as it was read back: a field that the record lacks is
/// `None`.
#[derive(Clone, Debug, PartialEq, Eq)]
pub struct StoredSettings {
    pub label: Option<String>,
    pub value_bits: Option<u32>,
    pub show_settings: Option<bool>,
    pub stored_discord_token: Option<String>,
    pub download_to: Option<String>,
}

/// The settings of a first run in `working_dir`: the greeting as label, the
/// value 2.7, the settings window closed, no credential stored, downloads to
/// the working directory.
pub open spec fn default_settings(working_dir: Seq<char>) -> SettingsModel {
    SettingsModel {
        label: "Hello World!"@,
        value_bits: DEFAULT_VALUE_BITS,
        show_settings: false,
        stored_discord_token: Seq::empty(),
        download_to: working_dir,
    }
}

/// The text that a field holds, or `fallback` where the field is missing.
pub open spec fn text_or(field: Option<String>, fallback: Seq<char>) -> Seq<char> {
    match field {
        Some(text) => text@,
        None => fallback,
    }
}

/// The bits that a field holds, or `fallback` where the field is missing.
pub open spec fn bits_or(field: Option<u32>, fallback: u32) -> u32 {
    match field {
        Some(bits) => bits,
        None => fallback,
    }
}

/// The flag that a field holds, or `fallback` where the field is missing.
pub open spec fn flag_or(field: Option<bool>, fallback: bool) -> bool {
    match field {
        Some(flag) => flag,
        None => fallback,
    }
}

/// The settings that a stored record stands for: each field that it has, and
/// the fallback's value for each field that it lacks.
pub open spec fn completed(stored: StoredSettings, fallback: SettingsModel) -> SettingsModel {
    SettingsModel {
        label: text_or(stored.label, fallback.label),
        value_bits: bits_or(stored.value_bits, fallback.value_bits),
        show_settings: flag_or(stored.show_settings, fallback.show_settings),
        stored_discord_token: text_or(stored.stored_discord_token, fallback.stored_discord_token),
        download_to: text_or(stored.download_to, fallback.download_to),
    }
}

/// The settings that reading gives: those of the record read, completed, or
/// the fallback where no record could be read.
pub open spec fn loaded(read: Option<StoredSettings>, fallback: SettingsModel) -> SettingsModel {
    match read {
        Some(stored) => completed(stored, fallback),
        None => fallback,
    }
}

impl Settings {
    /// The settings of a first run in `working_dir`.
    pub fn defaults(working_dir: String) -> (settings: Settings)
        ensures
            settings@ == default_settings(working_dir@),
    {
        Settings {
            label: "Hello World!".to_owned(),
            value_bits: DEFAULT_VALUE_BITS,
            show_settings: false,
            stored_discord_token: String::new(),
            download_to: working_dir,
        }
    }

    /// The record that holds every field of these settings.
    pub fn to_stored(self) -> (stored: StoredSettings)
        ensures
            stored.is_complete(),
            forall|fallback: SettingsModel| completed(stored, fallback) == self@,
    {
        StoredSettings {
            label: Some(self.label),
            value_bits: Some(self.value_bits),
            show_settings: Some(self.show_settings),
            stored_discord_token: Some(self.stored_discord_token),
            download_to: Some(self.download_to),
        }
    }
}

impl StoredSettings {
    /// Whether the record has every field.
    pub open spec fn is_complete(self) -> bool {
        &&& self.label is Some
        &&& self.value_bits is Some
        &&& self.show_settings is Some
        &&& self.stored_discord_token is Some
        &&& self.download_to is Some
    }

    /// Whether the record has no field at all.
    pub open spec fn is_blank(self) -> bool {
        &&& self.label is None
        &&& self.value_bits is None
        &&& self.show_settings is None
        &&& self.stored_discord_token is None
        &&& self.download_to is None
    }

    /// The record without any field, as a version before all of them would
    /// have written it.
    pub fn blank() -> (stored: StoredSettings)
        ensures
            stored.is_blank(),
    {
        StoredSettings {
            label: None,
            value_bits: None,
            show_settings: None,
            stored_discord_token: None,
            download_to: None,
        }
    }

    /// Completes the record: each missing field takes the fallback's value.
    /// This succeeds on every record.
    pub fn complete(self, fallback: Settings) -> (settings: Settings)
        ensures
            settings@ == completed(self, fallback@),
    {
        let label = match self.label {
            Some(text) => text,
            None => fallback.label,
        };
        let value_bits = match self.value_bits {
            Some(bits) => bits,
            None => fallback.value_bits,
        };
        let show_settings = match self.show_settings {
            Some(flag) => flag,
            None => fallback.show_settings,
        };
        let stored_discord_token = match self.stored_discord_token {
            Some(text) => text,
            None => fallback.stored_discord_token,
        };
        let download_to = match self.download_to {
            Some(text) => text,
            None => fallback.download_to,
        };
        Settings { label, value_bits, show_settings, stored_discord_token, download_to }
    }
}

/// Settles what a session starts from: the record that was read, completed
/// from `fallback`, or `fallback` itself where no record could be read.
pub fn load_settings(read: Option<StoredSettings>, fallback: Settings) -> (settings: Settings)
    ensures
        settings@ == loaded(read, fallback@),
{
    match read {
        Some(stored) => stored.complete(fallback),
        None => fallback,
    }
}

/// A record that lacks every field is completed to the fallback, and a
/// record that has every field owes nothing to it.
pub proof fn lemma_completed_extremes(
    stored: StoredSettings,
    fallback: SettingsModel,
    other: SettingsModel,
)
    ensures
        stored.is_blank() ==> completed(stored, fallback) == fallback,
        stored.is_complete() ==> completed(stored, fallback) == completed(stored, other),
{
}

} // verus!
