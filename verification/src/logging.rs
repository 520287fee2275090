//! Logging destinations and levels of the underlying runtime, as plain values.

use vstd::prelude::*;

verus! {

/// Log destination type.
#[derive(Debug, Clone, Copy, PartialEq, Eq, Structural)]
pub enum LoggingTarget {
    Discard,
    Syslog,
}

impl LoggingTarget {
    /// The native code of each target.
    pub open spec fn spec_code(self) -> u32 {
        match self {
            LoggingTarget::Discard => 0,
            LoggingTarget::Syslog => 1,
        }
    }

    pub fn code(&self) -> (r: u32)
        ensures
            r == self.spec_code(),
    {
        match self {
            LoggingTarget::Discard => 0,
            LoggingTarget::Syslog => 1,
        }
    }
}

/// Log severity level.
#[derive(Debug, Clone, Copy, PartialEq, Eq, Structural)]
pub enum LoggingLevel {
    Debug,
    Info,
    Warn,
    Error,
    Fatal,
}

impl LoggingLevel {
    /// The name the runtime's log filter knows each level by.
    pub open spec fn spec_name(self) -> Seq<char> {
        match self {
            LoggingLevel::Debug => "DEBUG"@,
            LoggingLevel::Info => "INFO"@,
            LoggingLevel::Warn => "WARN"@,
            LoggingLevel::Error => "ERROR"@,
            LoggingLevel::Fatal => "FATAL"@,
        }
    }

    pub fn name(&self) -> (r: &'static str)
        ensures
            r@ == self.spec_name(),
    {
        match self {
            LoggingLevel::Debug => "DEBUG",
            LoggingLevel::Info => "INFO",
            LoggingLevel::Warn => "WARN",
            LoggingLevel::Error => "ERROR",
            LoggingLevel::Fatal => "FATAL",
        }
    }
}

/// Standard stream logging can be directed to.
#[derive(Debug, Clone, Copy, PartialEq, Eq, Structural)]
pub enum LoggingStream {
    StdOut,
    StdErr,
}

impl LoggingStream {
    /// The native code of each stream.
    pub open spec fn spec_code(self) -> u32 {
        match self {
            LoggingStream::StdOut => 0,
            LoggingStream::StdErr => 1,
        }
    }

    pub fn code(&self) -> (r: u32)
        ensures
            r == self.spec_code(),
    {
        match self {
            LoggingStream::StdOut => 0,
            LoggingStream::StdErr => 1,
        }
    }
}

} // verus!
