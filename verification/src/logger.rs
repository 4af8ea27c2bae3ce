//! The logger facade: a level threshold and a formatter in front of a sink.
//!
//! The facade rejects a line below its threshold before anything is
//! formatted. A line that passes is rendered from the template, with the
//! parts of the prefix that the format flags select, and handed to the sink
//! as one whole write.

use vstd::prelude::*;
use vstd::string::StringExecFns;
use vstd::utf8::encode_utf8;

use crate::filepath::{get_short_file_path, short_name};
use crate::sink::{FileSink, IoError};
use crate::template::{parse_and_format_log, rendered, Parts};
use crate::{Format, LEVEL};

verus! {

/// The level threshold and the formatter of one logger.
pub struct Logger {
    /// Lines below this level are rejected.
    pub level: LEVEL,
    /// The parts of the prefix that are shown, as a sum of the format flags.
    pub format: u8,
    /// The template of a line.
    pub template: String,
}

/// The format flags of a fresh logger: `LevelFlag`, `Date`, `Time` and
/// `ShortFileName` together.
pub const DEFAULT_FORMAT: u8 = 51;

/// The text that stands for a level in a line.
pub open spec fn label_of(level: LEVEL) -> Seq<char> {
    match level {
        LEVEL::Trace => "[TRACE]"@,
        LEVEL::Debug => "[DEBUG]"@,
        LEVEL::Info => "[INFO]"@,
        LEVEL::Warn => "[WARN]"@,
        LEVEL::Error => "[ERROR]"@,
        LEVEL::Fatal => "[FATAL]"@,
        LEVEL::Off => ""@,
    }
}

/// The text that stands for a level in a line.
pub fn level_label(level: LEVEL) -> (label: &'static str)
    ensures
        label@ == label_of(level),
{
    match level {
        LEVEL::Trace => "[TRACE]",
        LEVEL::Debug => "[DEBUG]",
        LEVEL::Info => "[INFO]",
        LEVEL::Warn => "[WARN]",
        LEVEL::Error => "[ERROR]",
        LEVEL::Fatal => "[FATAL]",
        LEVEL::Off => "",
    }
}

/// Whether `format` holds the flag `flag`.
pub open spec fn shows(format: u8, flag: u8) -> bool {
    format & flag != 0
}

/// The level as the flags show it: its label under `LevelFlag`, else
/// nothing.
pub open spec fn shown_level(format: u8, level: LEVEL) -> Seq<char> {
    if shows(format, Format::LevelFlag) {
        label_of(level)
    } else {
        Seq::empty()
    }
}

/// The source file as the flags show it: its last component under
/// `ShortFileName`, else the whole path under `LongFileName`, else nothing.
pub open spec fn shown_file(format: u8, file: Seq<char>) -> Seq<char> {
    if shows(format, Format::ShortFileName) {
        short_name(file)
    } else if shows(format, Format::LongFileName) {
        file
    } else {
        Seq::empty()
    }
}

/// The moment as the flags show it: the date under `Date`, the time of day
/// under `Time`, a blank between the two where both are shown, and the
/// microseconds behind the time under `Microseconds`.
pub open spec fn shown_time(
    format: u8,
    date: Seq<char>,
    time: Seq<char>,
    micros: Seq<char>,
) -> Seq<char> {
    let day = if shows(format, Format::Date) {
        date
    } else {
        Seq::empty()
    };
    let gap = if shows(format, Format::Date) && shows(format, Format::Time) {
        seq![' ']
    } else {
        Seq::empty()
    };
    let clock = if shows(format, Format::Time) {
        time
    } else {
        Seq::empty()
    };
    let fraction = if shows(format, Format::Time) && shows(format, Format::Microseconds) {
        micros
    } else {
        Seq::empty()
    };
    day + gap + clock + fraction
}

/// The moment as the flags of `format` show it.
pub fn time_text(format: u8, date: &str, time: &str, micros: &str) -> (text: String)
    ensures
        text@ == shown_time(format, date@, time@, micros@),
{
    let mut text = String::new();
    if format & Format::Date != 0 {
        text.append(date);
    }
    if format & Format::Time != 0 {
        if format & Format::Date != 0 {
            text.append(" ");
        }
        text.append(time);
        if format & Format::Microseconds != 0 {
            text.append(micros);
        }
    }
    proof {
        reveal_strlit(" ");
        assert(" "@ =~= seq![' ']);
        assert(text@ =~= shown_time(format, date@, time@, micros@));
    }
    text
}

impl Logger {
    /// The template of a fresh logger: level, time, a blank, the file, a
    /// colon, the message and a line feed.
    pub open spec fn default_template() -> Seq<char> {
        "{level}{time} {file}:{message}\n"@
    }

    /// Whether a line of `level` passes the threshold.
    pub open spec fn accepts_spec(&self, level: LEVEL) -> bool {
        self.level.rank_spec() <= level.rank_spec()
    }

    /// The line that the logger renders.
    pub open spec fn line_of(
        &self,
        level: LEVEL,
        time: Seq<char>,
        file: Seq<char>,
        message: Seq<char>,
    ) -> Seq<char> {
        rendered(
            self.template@,
            Parts {
                level: shown_level(self.format, level),
                time,
                file: shown_file(self.format, file),
                message,
            },
        )
    }

    /// A logger that lets every level from `Debug` on pass and shows the
    /// level, the date, the time and the short file name.
    pub fn new() -> (logger: Logger)
        ensures
            logger.level == LEVEL::Debug,
            logger.format == DEFAULT_FORMAT,
            logger.template@ == Logger::default_template(),
    {
        Logger {
            level: LEVEL::Debug,
            format: DEFAULT_FORMAT,
            template: "{level}{time} {file}:{message}\n".to_string(),
        }
    }

    /// Sets the threshold.
    pub fn set_level(&mut self, level: LEVEL)
        ensures
            *final(self) == (Logger { level, ..*old(self) }),
    {
        self.level = level;
    }

    /// The threshold.
    pub fn get_level(&self) -> (level: LEVEL)
        ensures
            level == self.level,
    {
        self.level
    }

    /// Sets the format flags.
    pub fn set_format(&mut self, format: u8)
        ensures
            *final(self) == (Logger { format, ..*old(self) }),
    {
        self.format = format;
    }

    /// Sets the template of a line.
    pub fn set_formatter(&mut self, template: &str)
        ensures
            final(self).level == old(self).level,
            final(self).format == old(self).format,
            final(self).template@ == template@,
    {
        self.template = template.to_string();
    }

    /// Whether a line of `level` passes the threshold.
    #[verifier::when_used_as_spec(accepts_spec)]
    pub fn accepts(&self, level: LEVEL) -> (passes: bool)
        ensures
            passes == self.accepts_spec(level),
    {
        self.level.rank() <= level.rank()
    }

    /// Renders one line, or nothing where `level` is below the threshold.
    pub fn fmt(&self, level: LEVEL, time: &str, file: &str, message: &str) -> (line: Option<String>)
        ensures
            !self.accepts_spec(level) ==> line is None,
            self.accepts_spec(level) ==> (line matches Some(text) && text@ == self.line_of(
                level,
                time@,
                file@,
                message@,
            )),
    {
        if !self.accepts(level) {
            return None;
        }
        let label = if self.format & Format::LevelFlag != 0 {
            level_label(level)
        } else {
            ""
        };
        let source = if self.format & Format::ShortFileName != 0 {
            get_short_file_path(file)
        } else if self.format & Format::LongFileName != 0 {
            file
        } else {
            ""
        };
        proof {
            reveal_strlit("");
            assert(""@ =~= Seq::<char>::empty());
        }
        Some(parse_and_format_log(self.template.as_str(), label, time, source, message))
    }

    /// Renders one line and writes it to `sink` at the second `now`. A line
    /// below the threshold is dropped and leaves the sink as it is.
    pub fn print(
        &self,
        sink: &mut FileSink,
        level: LEVEL,
        time: &str,
        file: &str,
        message: &str,
        now: u64,
    ) -> (result: Result<bool, IoError>)
        requires
            old(sink)@.wf(),
        ensures
            final(sink)@.wf(),
            !self.accepts_spec(level) ==> result == Ok::<bool, IoError>(false) && final(sink)@
                == old(sink)@,
            self.accepts_spec(level) ==> final(sink)@ == old(sink)@.written(
                encode_utf8(self.line_of(level, time@, file@, message@)),
                now,
            ),
            self.accepts_spec(level) && !old(sink)@.files.deny_append ==> result == Ok::<
                bool,
                IoError,
            >(true),
            self.accepts_spec(level) && old(sink)@.files.deny_append ==> result == Err::<
                bool,
                IoError,
            >(IoError::Write),
    {
        match self.fmt(level, time, file, message) {
            None => Ok(false),
            Some(line) => match sink.write(line.as_str().as_bytes(), now) {
                Ok(()) => Ok(true),
                Err(error) => Err(error),
            },
        }
    }
}

} // verus!
