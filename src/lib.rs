//! A polling daemon's library: the strict reader of required settings, and the
//! decisions of the ticker that counts new events once per second and reports
//! the count as one structured log record per tick.

mod clock;
pub mod config;
pub mod ticker;
