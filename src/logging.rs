//! The pluggable structured logger.
use vstd::prelude::*;

verus! {

/// A sink for log lines at four levels of severity.
pub trait Logger {
    fn debug(&self, msg: &str);

    fn info(&self, msg: &str);

    fn warn(&self, msg: &str);

    fn error(&self, msg: &str);
}

/// The logger that drops every line.
pub struct NopLogger;

impl Logger for NopLogger {
    fn debug(&self, _msg: &str) {
    }

    fn info(&self, _msg: &str) {
    }

    fn warn(&self, _msg: &str) {
    }

    fn error(&self, _msg: &str) {
    }
}

} // verus!
