//! Error taxonomy of a capture session.
//!
//! Configuration errors are rejected synchronously at a configuration
//! boundary; capture errors are either returned synchronously (device and
//! filter changes) or queued on the control block for later inspection (read
//! failures inside the capture loop). Each error carries the collaborator's
//! message as plain text.

use vstd::prelude::*;
use vstd::string::StringExecFns;

verus! {

/// A configuration was rejected before it took effect.
#[derive(Debug, Clone)]
pub enum ConfigError {
    InvalidDeviceId(String),
    InvalidTimeout(String),
    InvalidFilePath(String),
    InvalidFilter(String),
}

/// The capture layer failed while a session was live.
#[derive(Debug, Clone)]
pub enum CaptureError {
    DeviceError(String),
    CaptureError(String),
    FilterError(String),
}

/// Any error a session can surface: one of the two classes above.
#[derive(Debug, Clone)]
pub enum SnifferError {
    ConfigError(ConfigError),
    CaptureError(CaptureError),
}

impl ConfigError {
    /// The rendered message of this error.
    pub open spec fn spec_message(self) -> Seq<char> {
        match self {
            ConfigError::InvalidDeviceId(m) => "Invalid device id: "@ + m@,
            ConfigError::InvalidTimeout(m) => "Invalid timeout: "@ + m@,
            ConfigError::InvalidFilePath(m) => "Invalid file path: "@ + m@,
            ConfigError::InvalidFilter(m) => "Invalid filter: "@ + m@,
        }
    }

    /// Renders the error as one line of text.
    pub fn message(&self) -> (s: String)
        ensures
            s@ == self.spec_message(),
    {
        match self {
            ConfigError::InvalidDeviceId(m) => {
                let mut s = "Invalid device id: ".to_owned();
                s.append(m.as_str());
                s
            },
            ConfigError::InvalidTimeout(m) => {
                let mut s = "Invalid timeout: ".to_owned();
                s.append(m.as_str());
                s
            },
            ConfigError::InvalidFilePath(m) => {
                let mut s = "Invalid file path: ".to_owned();
                s.append(m.as_str());
                s
            },
            ConfigError::InvalidFilter(m) => {
                let mut s = "Invalid filter: ".to_owned();
                s.append(m.as_str());
                s
            },
        }
    }
}

impl CaptureError {
    /// The rendered message of this error.
    pub open spec fn spec_message(self) -> Seq<char> {
        match self {
            CaptureError::DeviceError(m) => "Error getting device: "@ + m@,
            CaptureError::CaptureError(m) => "Error capturing packets: "@ + m@,
            CaptureError::FilterError(m) => "Error setting filter: "@ + m@,
        }
    }

    /// Renders the error as one line of text.
    pub fn message(&self) -> (s: String)
        ensures
            s@ == self.spec_message(),
    {
        match self {
            CaptureError::DeviceError(m) => {
                let mut s = "Error getting device: ".to_owned();
                s.append(m.as_str());
                s
            },
            CaptureError::CaptureError(m) => {
                let mut s = "Error capturing packets: ".to_owned();
                s.append(m.as_str());
                s
            },
            CaptureError::FilterError(m) => {
                let mut s = "Error setting filter: ".to_owned();
                s.append(m.as_str());
                s
            },
        }
    }
}

impl SnifferError {
    /// The rendered message of this error.
    pub open spec fn spec_message(self) -> Seq<char> {
        match self {
            SnifferError::ConfigError(e) => "Error in configuration: "@ + e.spec_message(),
            SnifferError::CaptureError(e) => "Error in capture: "@ + e.spec_message(),
        }
    }

    /// Renders the error as one line of text.
    pub fn message(&self) -> (s: String)
        ensures
            s@ == self.spec_message(),
    {
        match self {
            SnifferError::ConfigError(e) => {
                let mut s = "Error in configuration: ".to_owned();
                let inner = e.message();
                s.append(inner.as_str());
                s
            },
            SnifferError::CaptureError(e) => {
                let mut s = "Error in capture: ".to_owned();
                let inner = e.message();
                s.append(inner.as_str());
                s
            },
        }
    }
}

} // verus!
