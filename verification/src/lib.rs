//! A leveled logging facility built around a rotating, self-archiving file sink.
//!
//! The crate holds the decisions of the sink (when to rotate, how an archive is
//! named, what a write does to the files of one logical path, what becomes of a
//! retired file once it was compressed) together with the text helpers of the
//! logger facade. Every function carries a contract that Verus proves; the few
//! calls into `chrono`, `flate2` and `std` that Verus cannot read are confined
//! to small wrappers whose contracts are stated beside them.

use vstd::prelude::*;

#[allow(non_snake_case)]
pub mod Format;
pub mod clock;
pub mod compress;
pub mod filepath;
pub mod logger;
pub mod naming;
pub mod policy;
pub mod sink;
pub mod store;
pub mod template;
pub mod text;

pub use clock::{timenow, timesec};
pub use compress::{gzip, zlib};
pub use filepath::get_short_file_path;
pub use naming::getbackup_with_time;
pub use policy::passtimemode;
pub use template::parse_and_format_log;

verus! {

/// The three parts of a rendered time prefix.
pub enum DateType {
    Date,
    Time,
    Microseconds,
}

/// Failures that the facade reports by name.
#[derive(PartialEq, Eq, Structural, PartialOrd, Clone, Copy, Debug)]
pub enum ErrCode {
    NotFound,
}

impl ErrCode {
    /// The name of the variant, as `Debug` prints it.
    pub open spec fn name(self) -> Seq<char> {
        match self {
            ErrCode::NotFound => "NotFound"@,
        }
    }

    /// The name of the variant.
    pub fn to_string(&self) -> (text: String)
        ensures
            text@ == self.name(),
    {
        match self {
            ErrCode::NotFound => "NotFound".to_string(),
        }
    }
}

/// The handle through which the threshold of a logger is set, call after
/// call.
pub struct AA;

impl AA {
    /// Sets the threshold of `logger` to `level`.
    pub fn set_level<'a>(&'a self, logger: &mut logger::Logger, level: LEVEL) -> (me: &'a Self)
        ensures
            *final(logger) == (logger::Logger { level, ..*old(logger) }),
    {
        logger.set_level(level);
        self
    }
}

/// Whether lines are written at once or handed to a background writer.
#[allow(non_camel_case_types)]
#[derive(PartialEq, Eq, Structural, PartialOrd)]
pub enum PRINTMODE {
    DELAY,
    PUNCTUAL,
}

/// Severity of a log line, ordered from `Trace` (lowest) to `Off` (highest).
#[allow(non_camel_case_types)]
#[derive(PartialEq, Eq, Structural, PartialOrd, Clone, Copy)]
pub enum LEVEL {
    Trace,
    Debug,
    Info,
    Warn,
    Error,
    Fatal,
    Off,
}

impl LEVEL {
    /// The position of the level in the order of severity, from 1 to 7.
    pub open spec fn rank_spec(&self) -> u8 {
        match *self {
            LEVEL::Trace => 1,
            LEVEL::Debug => 2,
            LEVEL::Info => 3,
            LEVEL::Warn => 4,
            LEVEL::Error => 5,
            LEVEL::Fatal => 6,
            LEVEL::Off => 7,
        }
    }

    #[verifier::when_used_as_spec(rank_spec)]
    pub fn rank(&self) -> (r: u8)
        ensures
            r == self.rank_spec(),
            1 <= r <= 7,
    {
        match self {
            LEVEL::Trace => 1,
            LEVEL::Debug => 2,
            LEVEL::Info => 3,
            LEVEL::Warn => 4,
            LEVEL::Error => 5,
            LEVEL::Fatal => 6,
            LEVEL::Off => 7,
        }
    }
}

/// The columns of a rendered line.
#[allow(non_camel_case_types)]
pub enum COLUMN {
    LOGFLAG,
    TIME,
    FILEFLAG,
    COLON,
    MESSAGE,
}

/// Calendar granularity of a time-based rotation.
#[allow(non_camel_case_types)]
#[derive(Copy, Clone)]
pub enum MODE {
    HOUR,
    DAY,
    MONTH,
}

/// What triggers a rotation: a calendar boundary or a byte threshold.
#[allow(non_camel_case_types)]
#[derive(Copy, Clone)]
pub enum CUTMODE {
    TIME,
    SIZE,
}

} // verus!
