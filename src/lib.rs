//! A logging front end that gates message construction behind a severity
//! threshold and a mute flag, and hands the writing itself to a sink.
pub mod level;
pub mod prefs;

pub use log::Level;
pub use prefs::LogPrefs;
