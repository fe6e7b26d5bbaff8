//! A logging and panic bridge for a sandboxed guest.
//!
//! Records are filtered by severity, rendered into one line and handed to the
//! host as a wire code plus the line; fatal failures are handed over as their
//! description. A registry takes at most one logger.
pub mod bridge;
pub mod level;
pub mod line;
pub mod logger;

pub use bridge::{connect, connect_once, connect_once_with, connect_with, ConnectError, Registry};
pub use level::{Level, LevelFilter};
pub use line::format_line;
pub use logger::{Autput, LogReport, Record};
