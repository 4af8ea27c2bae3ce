use tklog::filepath::get_short_file_path;
use tklog::template::parse_and_format_log;
use tklog::text::split_text;
use tklog::{ErrCode, Format, LEVEL};

#[test]
fn template_fills_the_four_placeholders() {
    let line = parse_and_format_log(
        "{level}{time} {file}:{message}\n",
        "[INFO]",
        "2024-01-01 10:00:00",
        "main.rs 12",
        "started",
    );
    assert_eq!(line, "[INFO]2024-01-01 10:00:00 main.rs 12:started\n");
}

#[test]
fn template_keeps_plain_text() {
    assert_eq!(parse_and_format_log("no placeholders", "L", "T", "F", "M"), "no placeholders");
    assert_eq!(parse_and_format_log("", "L", "T", "F", "M"), "");
}

#[test]
fn template_repeats_and_reorders() {
    let line = parse_and_format_log("{message}|{message}|{level}", "L", "T", "F", "M");
    assert_eq!(line, "M|M|L");
}

#[test]
fn template_drops_an_unknown_placeholder() {
    assert_eq!(parse_and_format_log("a{nothing}b", "L", "T", "F", "M"), "ab");
    assert_eq!(parse_and_format_log("a{}b", "L", "T", "F", "M"), "ab");
    assert_eq!(parse_and_format_log("a{Level}b", "L", "T", "F", "M"), "ab");
    assert_eq!(parse_and_format_log("a{ level }b", "L", "T", "F", "M"), "ab");
}

#[test]
fn template_swallows_an_open_placeholder() {
    assert_eq!(parse_and_format_log("head {level and tail", "L", "T", "F", "M"), "head ");
    assert_eq!(parse_and_format_log("{", "L", "T", "F", "M"), "");
}

#[test]
fn template_takes_a_brace_inside_a_name_as_part_of_it() {
    assert_eq!(parse_and_format_log("x{a{level}y", "L", "T", "F", "M"), "xy");
}

#[test]
fn template_keeps_a_closing_brace_outside_a_placeholder() {
    assert_eq!(parse_and_format_log("a}b{time}}", "L", "T", "F", "M"), "a}bT}");
}

#[test]
fn template_does_not_expand_what_it_put_in() {
    assert_eq!(parse_and_format_log("{message}", "L", "T", "F", "{level}"), "{level}");
}

#[test]
fn template_handles_text_beyond_ascii() {
    let line = parse_and_format_log("→{file}← {message}", "L", "T", "源.rs", "héllo");
    assert_eq!(line, "→源.rs← héllo");
}

#[test]
fn short_path_after_a_slash() {
    assert_eq!(get_short_file_path("/home/user/src/main.rs"), "main.rs");
    assert_eq!(get_short_file_path("src/lib.rs"), "lib.rs");
}

#[test]
fn short_path_after_a_backslash() {
    assert_eq!(get_short_file_path("C:\\work\\src\\main.rs"), "main.rs");
}

#[test]
fn short_path_takes_the_last_separator_of_either_kind() {
    assert_eq!(get_short_file_path("a/b\\c.rs"), "c.rs");
    assert_eq!(get_short_file_path("a\\b/c.rs"), "c.rs");
}

#[test]
fn short_path_without_a_separator_is_the_whole() {
    assert_eq!(get_short_file_path("main.rs"), "main.rs");
    assert_eq!(get_short_file_path(""), "");
}

#[test]
fn short_path_of_a_directory_is_empty() {
    assert_eq!(get_short_file_path("src/"), "");
    assert_eq!(get_short_file_path("/"), "");
}

#[test]
fn short_path_counts_characters_not_bytes() {
    assert_eq!(get_short_file_path("dépôt/源码/文件.rs"), "文件.rs");
}

#[test]
fn split_cuts_at_every_separator() {
    assert_eq!(split_text("2024-01-01|10:00:00|.000123", '|'), vec!["2024-01-01", "10:00:00", ".000123"]);
}

#[test]
fn split_keeps_empty_fields() {
    assert_eq!(split_text("", '|'), vec![""]);
    assert_eq!(split_text("a|", '|'), vec!["a", ""]);
    assert_eq!(split_text("|a", '|'), vec!["", "a"]);
    assert_eq!(split_text("||", '|'), vec!["", "", ""]);
}

#[test]
fn split_without_a_separator_gives_one_field() {
    assert_eq!(split_text("plain", '|'), vec!["plain"]);
}

#[test]
fn error_code_prints_its_name() {
    assert_eq!(ErrCode::NotFound.to_string(), "NotFound");
}

#[test]
fn levels_are_ranked_from_trace_to_off() {
    assert_eq!(LEVEL::Trace.rank(), 1);
    assert_eq!(LEVEL::Debug.rank(), 2);
    assert_eq!(LEVEL::Info.rank(), 3);
    assert_eq!(LEVEL::Warn.rank(), 4);
    assert_eq!(LEVEL::Error.rank(), 5);
    assert_eq!(LEVEL::Fatal.rank(), 6);
    assert_eq!(LEVEL::Off.rank(), 7);
    assert!(LEVEL::Trace < LEVEL::Debug);
    assert!(LEVEL::Fatal < LEVEL::Off);
    assert!(LEVEL::Warn >= LEVEL::Info);
}

#[test]
fn format_flags_are_distinct_bits() {
    assert_eq!(Format::Nano, 0);
    assert_eq!(Format::Date, 1);
    assert_eq!(Format::Time, 2);
    assert_eq!(Format::Microseconds, 4);
    assert_eq!(Format::LongFileName, 8);
    assert_eq!(Format::ShortFileName, 16);
    assert_eq!(Format::LevelFlag, 32);
}
