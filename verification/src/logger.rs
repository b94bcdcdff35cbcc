//! The silent logger: accepted wherever a logger is wanted and does
//! nothing.  The file-writing logger lives with the application.

use vstd::prelude::*;

verus! {

/// A logger that drops every message.
pub struct NullLogger;

impl NullLogger {
    pub fn new() -> NullLogger {
        NullLogger
    }

    pub fn info(&self, _message: &str) {
    }

    pub fn warn(&self, _message: &str) {
    }

    pub fn error(&self, _message: &str) {
    }

    pub fn debug(&self, _message: &str) {
    }

    pub fn step(&self, _step: u32, _total: u32, _message: &str) {
    }

    pub fn command(&self, _cmd: &str) {
    }

    pub fn command_output(&self, _stdout: &str, _stderr: &str, _exit_code: Option<i32>) {
    }
}

} // verus!
