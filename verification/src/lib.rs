//! Core logic of a presence agent that mirrors the window state of the ImHex
//! editor into a presence broker: window-title observation, the presence state
//! machine, the broker session lifecycle, and the self-update protocol.

use vstd::prelude::*;
use vstd::string::StringExecFns;

pub mod imhex;
pub mod presence;
pub mod updater;
mod utils;

pub use utils::get_current_timestamp;

verus! {

/// Errors of the agent, by fault domain: broker failures, filesystem
/// failures, and fatal configuration failures.
#[derive(Debug)]
pub enum AppError {
    Discord(String),
    Filesystem(String),
    Configuration(String),
}

/// The one-line rendering of an error.
pub open spec fn spec_error_message(e: AppError) -> Seq<char> {
    match e {
        AppError::Discord(m) => "Discord error: "@ + m@,
        AppError::Filesystem(m) => "Filesystem error: "@ + m@,
        AppError::Configuration(m) => "Configuration error: "@ + m@,
    }
}

impl AppError {
    /// Renders the error as one line naming its fault domain.
    pub fn message(&self) -> (r: String)
        ensures
            r@ == spec_error_message(*self),
    {
        match self {
            AppError::Discord(m) => {
                let mut r = String::from_str("Discord error: ");
                r.append(m.as_str());
                r
            },
            AppError::Filesystem(m) => {
                let mut r = String::from_str("Filesystem error: ");
                r.append(m.as_str());
                r
            },
            AppError::Configuration(m) => {
                let mut r = String::from_str("Configuration error: ");
                r.append(m.as_str());
                r
            },
        }
    }
}

/// Application identifier under which activities are published to the broker.
pub const CLIENT_ID: &'static str = "1060827018196955177";

/// Version of this build, compared against the remote release tag.
pub const VERSION: &'static str = "0.1.0";

/// Cadence of the main polling loop, in milliseconds.
pub const UPDATE_INTERVAL_MILLIS: u64 = 100;

/// Fixed delay before another broker connection attempt, in seconds.
pub const RECONNECT_DELAY_SECS: u64 = 5;

/// Period of the self-update check, in seconds.
pub const UPDATE_CHECK_INTERVAL_SECS: u64 = 60 * 60 * 4;

/// Tray icon image (a 1x1 32-bit ICO).
pub const ICON: [u8; 70] = [
    0, 0, 1, 0, 1, 0, 1, 1, 0, 0, 1, 0, 32, 0, 48, 0, 0, 0, 22, 0, 0, 0, 40, 0, 0, 0, 1, 0, 0, 0,
    2, 0, 0, 0, 1, 0, 32, 0, 0, 0, 0, 0, 8, 0, 0, 0, 0, 0, 0, 0, 0, 0, 0, 0, 0, 0, 0, 0, 0, 0,
    0, 0, 255, 255, 255, 255, 0, 0, 0, 0,
];

} // verus!
