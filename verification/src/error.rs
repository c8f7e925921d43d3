//! Error types of the application and their conversion to the plain-text errors
//! that frontend commands return.

use vstd::prelude::*;
use vstd::string::*;

use crate::text::{concat2, concat3};

verus! {

/// `std::io::Error`, carried opaquely.
#[verifier::external_type_specification]
#[verifier::external_body]
pub struct ExIoError(std::io::Error);

/// `t` is the text `Display` gives of the I/O error `e`.
pub open spec fn io_text(e: std::io::Error, t: Seq<char>) -> bool {
    exists|s: String| vstd::string::to_string_from_display_ensures::<std::io::Error>(&e, s) && s@ == t
}

/// Main error type of the application.
#[derive(Debug)]
pub enum FocustError {
    /// I/O errors (file operations, etc.).
    Io(std::io::Error),
    /// Configuration errors.
    Config(String),
    /// Audio playback errors.
    Audio(String),
    /// Path resolution errors.
    Path(String),
    /// Serialization errors.
    Serialization(String),
    /// Other errors.
    Other(String),
}

/// Configuration errors.
#[derive(Debug)]
pub enum ConfigError {
    ReadError { path: String, source: std::io::Error },
    WriteError { path: String, source: std::io::Error },
    ParseError { path: String, message: String },
    DirectoryError(String),
    ValidationError(String),
}

/// Audio errors.
#[derive(Debug)]
pub enum AudioError {
    DeviceError(String),
    DecodeError { path: String, message: String },
    PlaybackError(String),
    FileNotFound(String),
    InvalidFormat(String),
}

/// Whether `s` is the message of an application error.
pub open spec fn focust_text(e: FocustError, s: Seq<char>) -> bool {
    match e {
        FocustError::Io(io) => exists|t: Seq<char>| io_text(io, t) && s == "IO error: "@ + t,
        FocustError::Config(m) => s == "Configuration error: "@ + m@,
        FocustError::Audio(m) => s == "Audio error: "@ + m@,
        FocustError::Path(m) => s == "Path error: "@ + m@,
        FocustError::Serialization(m) => s == "Serialization error: "@ + m@,
        FocustError::Other(m) => s == m@,
    }
}

/// Whether `s` is the message of a configuration error.
pub open spec fn config_text(e: ConfigError, s: Seq<char>) -> bool {
    match e {
        ConfigError::ReadError { path, source } => exists|t: Seq<char>|
            io_text(source, t) && s == "Failed to read config file at "@ + path@ + ": "@ + t,
        ConfigError::WriteError { path, source } => exists|t: Seq<char>|
            io_text(source, t) && s == "Failed to write config file at "@ + path@ + ": "@ + t,
        ConfigError::ParseError { path, message } => s == "Failed to parse config file at "@ + path@ + ": "@ + message@,
        ConfigError::DirectoryError(m) => s == "Failed to get config directory: "@ + m@,
        ConfigError::ValidationError(m) => s == "Invalid config value: "@ + m@,
    }
}

/// The message of an audio error.
pub open spec fn audio_text(e: AudioError) -> Seq<char> {
    match e {
        AudioError::DeviceError(m) => "Failed to initialize audio device: "@ + m@,
        AudioError::DecodeError { path, message } => "Failed to decode audio file at "@ + path@ + ": "@ + message@,
        AudioError::PlaybackError(m) => "Failed to play audio: "@ + m@,
        AudioError::FileNotFound(p) => "Audio file not found: "@ + p@,
        AudioError::InvalidFormat(m) => "Invalid audio format: "@ + m@,
    }
}

fn io_message(e: &std::io::Error) -> (s: String)
    ensures
        io_text(*e, s@),
{
    e.to_string()
}

impl FocustError {
    /// The message of the error.
    pub fn message(&self) -> (s: String)
        ensures
            focust_text(*self, s@),
    {
        match self {
            FocustError::Io(e) => {
                let t = io_message(e);
                concat2("IO error: ", t.as_str())
            },
            FocustError::Config(m) => concat2("Configuration error: ", m.as_str()),
            FocustError::Audio(m) => concat2("Audio error: ", m.as_str()),
            FocustError::Path(m) => concat2("Path error: ", m.as_str()),
            FocustError::Serialization(m) => concat2("Serialization error: ", m.as_str()),
            FocustError::Other(m) => m.clone(),
        }
    }
}

impl ConfigError {
    /// The message of the error.
    pub fn message(&self) -> (s: String)
        ensures
            config_text(*self, s@),
    {
        match self {
            ConfigError::ReadError { path, source } => {
                let t = io_message(source);
                let mut s = concat3("Failed to read config file at ", path.as_str(), ": ");
                s.append(t.as_str());
                s
            },
            ConfigError::WriteError { path, source } => {
                let t = io_message(source);
                let mut s = concat3("Failed to write config file at ", path.as_str(), ": ");
                s.append(t.as_str());
                s
            },
            ConfigError::ParseError { path, message } => {
                let mut s = concat3("Failed to parse config file at ", path.as_str(), ": ");
                s.append(message.as_str());
                s
            },
            ConfigError::DirectoryError(m) => concat2("Failed to get config directory: ", m.as_str()),
            ConfigError::ValidationError(m) => concat2("Invalid config value: ", m.as_str()),
        }
    }
}

impl AudioError {
    /// The message of the error.
    pub fn message(&self) -> (s: String)
        ensures
            s@ == audio_text(*self),
    {
        match self {
            AudioError::DeviceError(m) => concat2("Failed to initialize audio device: ", m.as_str()),
            AudioError::DecodeError { path, message } => {
                let mut s = concat3("Failed to decode audio file at ", path.as_str(), ": ");
                s.append(message.as_str());
                s
            },
            AudioError::PlaybackError(m) => concat2("Failed to play audio: ", m.as_str()),
            AudioError::FileNotFound(p) => concat2("Audio file not found: ", p.as_str()),
            AudioError::InvalidFormat(m) => concat2("Invalid audio format: ", m.as_str()),
        }
    }
}

/// Conversion of an error to the plain-text error of a frontend command.
pub trait IntoTauriError: Sized {
    /// Whether `s` is a message of the error.
    spec fn describes(&self, s: Seq<char>) -> bool;

    /// The error's message.
    fn into_tauri_error(self) -> (s: String)
        ensures
            self.describes(s@),
    ;
}

impl IntoTauriError for FocustError {
    open spec fn describes(&self, s: Seq<char>) -> bool {
        focust_text(*self, s)
    }

    fn into_tauri_error(self) -> (s: String) {
        self.message()
    }
}

impl IntoTauriError for ConfigError {
    open spec fn describes(&self, s: Seq<char>) -> bool {
        config_text(*self, s)
    }

    fn into_tauri_error(self) -> (s: String) {
        self.message()
    }
}

impl IntoTauriError for AudioError {
    open spec fn describes(&self, s: Seq<char>) -> bool {
        s == audio_text(*self)
    }

    fn into_tauri_error(self) -> (s: String) {
        self.message()
    }
}

/// Converts a result to the result of a frontend command: the value is kept, an
/// error becomes its message.
pub fn to_tauri_result<T, E: IntoTauriError>(result: Result<T, E>) -> (r: Result<T, String>)
    ensures
        match result {
            Ok(v) => r == Ok::<T, String>(v),
            Err(e) => r matches Err(s) && e.describes(s@),
        },
{
    match result {
        Ok(v) => Ok(v),
        Err(e) => Err(e.into_tauri_error()),
    }
}

} // verus!
