//! Verified core of the `warmlitectl` command-line tool: argument handling,
//! monitor selection, brightness arithmetic and notification requests.

pub mod cli;
pub mod error;
pub mod logging;
pub mod monitor;
pub mod notify;
pub mod number;
pub mod session;
pub mod text;
