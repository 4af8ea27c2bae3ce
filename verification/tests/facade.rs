use tklog::logger::{level_label, time_text, Logger, DEFAULT_FORMAT};
use tklog::policy::SinkConfig;
use tklog::sink::{FileSink, IoError};
use tklog::{Format, AA, CUTMODE, LEVEL, MODE};

fn sink() -> FileSink {
    FileSink::new(
        SinkConfig {
            path: "app.log".to_string(),
            cut: CUTMODE::SIZE,
            timemode: MODE::DAY,
            size_threshold: 64,
            compress_on_rotate: false,
        },
        0,
    )
}

#[test]
fn fresh_logger() {
    let logger = Logger::new();
    assert!(logger.get_level() == LEVEL::Debug);
    assert_eq!(logger.format, DEFAULT_FORMAT);
    assert_eq!(DEFAULT_FORMAT, Format::LevelFlag | Format::Date | Format::Time | Format::ShortFileName);
    assert_eq!(logger.template, "{level}{time} {file}:{message}\n");
}

#[test]
fn labels_of_the_levels() {
    assert_eq!(level_label(LEVEL::Trace), "[TRACE]");
    assert_eq!(level_label(LEVEL::Debug), "[DEBUG]");
    assert_eq!(level_label(LEVEL::Info), "[INFO]");
    assert_eq!(level_label(LEVEL::Warn), "[WARN]");
    assert_eq!(level_label(LEVEL::Error), "[ERROR]");
    assert_eq!(level_label(LEVEL::Fatal), "[FATAL]");
    assert_eq!(level_label(LEVEL::Off), "");
}

#[test]
fn threshold_lets_its_own_level_and_higher_ones_pass() {
    let mut logger = Logger::new();
    logger.set_level(LEVEL::Warn);
    assert!(!logger.accepts(LEVEL::Trace));
    assert!(!logger.accepts(LEVEL::Info));
    assert!(logger.accepts(LEVEL::Warn));
    assert!(logger.accepts(LEVEL::Fatal));
    logger.set_level(LEVEL::Off);
    assert!(!logger.accepts(LEVEL::Fatal));
}

#[test]
fn handle_sets_the_threshold_and_chains() {
    let mut logger = Logger::new();
    let handle = AA;
    handle.set_level(&mut logger, LEVEL::Error).set_level(&mut logger, LEVEL::Info);
    assert!(logger.get_level() == LEVEL::Info);
    assert_eq!(logger.format, 51);
    assert_eq!(logger.template, "{level}{time} {file}:{message}\n");
}

#[test]
fn line_below_the_threshold_is_not_rendered() {
    let mut logger = Logger::new();
    logger.set_level(LEVEL::Info);
    assert_eq!(logger.fmt(LEVEL::Debug, "t", "f", "m"), None);
}

#[test]
fn line_is_rendered_with_the_short_file_name() {
    let logger = Logger::new();
    let line = logger.fmt(LEVEL::Info, "2024-01-01 10:00:00", "src/bin/main.rs", "started");
    assert_eq!(line, Some("[INFO]2024-01-01 10:00:00 main.rs:started\n".to_string()));
}

#[test]
fn flags_select_the_parts_of_the_prefix() {
    let mut logger = Logger::new();
    logger.set_format(Format::LongFileName);
    assert_eq!(logger.fmt(LEVEL::Info, "T", "src/main.rs", "m"), Some("T src/main.rs:m\n".to_string()));
    logger.set_format(Format::LevelFlag);
    assert_eq!(logger.fmt(LEVEL::Warn, "T", "src/main.rs", "m"), Some("[WARN]T :m\n".to_string()));
    logger.set_format(Format::Nano);
    assert_eq!(logger.fmt(LEVEL::Warn, "T", "src/main.rs", "m"), Some("T :m\n".to_string()));
    logger.set_format(Format::ShortFileName | Format::LongFileName);
    assert_eq!(logger.fmt(LEVEL::Warn, "T", "src/main.rs", "m"), Some("T main.rs:m\n".to_string()));
}

#[test]
fn template_can_be_replaced() {
    let mut logger = Logger::new();
    logger.set_formatter("{message} <{level}>");
    assert_eq!(logger.fmt(LEVEL::Error, "t", "f", "boom"), Some("boom <[ERROR]>".to_string()));
    assert!(logger.get_level() == LEVEL::Debug);
    assert_eq!(logger.format, 51);
}

#[test]
fn time_is_shown_as_the_flags_say() {
    let all = Format::Date | Format::Time | Format::Microseconds;
    assert_eq!(time_text(all, "2024-01-01", "10:00:00", ".000123"), "2024-01-01 10:00:00.000123");
    assert_eq!(time_text(Format::Date | Format::Time, "2024-01-01", "10:00:00", ".000123"), "2024-01-01 10:00:00");
    assert_eq!(time_text(Format::Date, "2024-01-01", "10:00:00", ".000123"), "2024-01-01");
    assert_eq!(time_text(Format::Time, "2024-01-01", "10:00:00", ".000123"), "10:00:00");
    assert_eq!(time_text(Format::Time | Format::Microseconds, "2024-01-01", "10:00:00", ".000123"), "10:00:00.000123");
    assert_eq!(time_text(Format::Date | Format::Microseconds, "2024-01-01", "10:00:00", ".000123"), "2024-01-01");
    assert_eq!(time_text(Format::Nano, "2024-01-01", "10:00:00", ".000123"), "");
    assert_eq!(time_text(Format::LevelFlag, "2024-01-01", "10:00:00", ".000123"), "");
}

#[test]
fn printed_line_reaches_the_sink_whole() {
    let logger = Logger::new();
    let mut sink = sink();
    assert_eq!(logger.print(&mut sink, LEVEL::Info, "T", "a/b.rs", "héllo", 1), Ok(true));
    assert_eq!(sink.files().active(), "[INFO]T b.rs:héllo\n".as_bytes());
    assert_eq!(sink.sink().current_size, "[INFO]T b.rs:héllo\n".len() as u64);
}

#[test]
fn rejected_line_leaves_the_sink_alone() {
    let mut logger = Logger::new();
    logger.set_level(LEVEL::Error);
    let mut sink = sink();
    assert_eq!(logger.print(&mut sink, LEVEL::Info, "T", "a/b.rs", "m", 1), Ok(false));
    assert!(sink.files().active().is_empty());
    assert_eq!(sink.sink().current_size, 0);
}

#[test]
fn printed_lines_rotate_the_sink() {
    let logger = Logger::new();
    let mut sink = sink();
    let message = "0123456789012345678901234567890123456789";
    assert_eq!(logger.print(&mut sink, LEVEL::Info, "T", "b.rs", message, 1), Ok(true));
    assert_eq!(logger.print(&mut sink, LEVEL::Info, "T", "b.rs", message, 2), Ok(true));
    assert_eq!(sink.files().archives().len(), 1);
    assert_eq!(sink.files().archives()[0].name, "app.log.1");
    assert_eq!(sink.files().archives()[0].data, sink.files().active().clone());
}

#[test]
fn failure_of_the_append_is_returned_to_the_caller() {
    let logger = Logger::new();
    let mut sink = sink();
    sink.set_deny_append(true);
    assert_eq!(logger.print(&mut sink, LEVEL::Info, "T", "b.rs", "m", 1), Err(IoError::Write));
}
