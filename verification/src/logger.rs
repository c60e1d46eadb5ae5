//! The application's logger.

use crate::ngx_log::LogFilter;
use vstd::prelude::*;

verus! {

/// `log::max_level`: the application's current maximum level. It can be changed at any time, so
/// nothing is claimed of what comes back.
#[verifier::external_body]
pub fn log_max_level() -> LogFilter {
    match log::max_level() {
        log::LevelFilter::Off => LogFilter::Off,
        log::LevelFilter::Error => LogFilter::Error,
        log::LevelFilter::Warn => LogFilter::Warn,
        log::LevelFilter::Info => LogFilter::Info,
        log::LevelFilter::Debug => LogFilter::Debug,
        log::LevelFilter::Trace => LogFilter::Trace,
    }
}

} // verus!
