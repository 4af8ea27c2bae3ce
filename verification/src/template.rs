//! Rendering of a line from a template with named placeholders.
//!
//! A template is plain text in which `{level}`, `{time}`, `{file}` and
//! `{message}` stand for the parts of a log line. A placeholder opens at `{`
//! and runs to the next `}`; a name that is none of the four stands for
//! nothing, and a placeholder that is never closed swallows the rest of the
//! template.

use vstd::prelude::*;

use crate::text::push_char;

verus! {

/// The four texts that a template can refer to.
pub struct Parts {
    pub level: Seq<char>,
    pub time: Seq<char>,
    pub file: Seq<char>,
    pub message: Seq<char>,
}

/// The text that a placeholder of the given name stands for.
pub open spec fn substitution(name: Seq<char>, parts: Parts) -> Seq<char> {
    if name == "level"@ {
        parts.level
    } else if name == "time"@ {
        parts.time
    } else if name == "file"@ {
        parts.file
    } else if name == "message"@ {
        parts.message
    } else {
        Seq::empty()
    }
}

/// The index of the first `}` of `fmt` at or after `from`; the length of
/// `fmt` where there is none.
pub open spec fn closing(fmt: Seq<char>, from: int) -> int
    decreases fmt.len() - from,
{
    if from < 0 || from >= fmt.len() {
        fmt.len() as int
    } else if fmt[from] == '}' {
        from
    } else {
        closing(fmt, from + 1)
    }
}

/// `closing` never points before its starting index nor past the end.
pub proof fn lemma_closing_bounds(fmt: Seq<char>, from: int)
    requires
        0 <= from <= fmt.len(),
    ensures
        from <= closing(fmt, from) <= fmt.len(),
        closing(fmt, from) < fmt.len() ==> fmt[closing(fmt, from)] == '}',
        forall|k: int| from <= k < closing(fmt, from) ==> fmt[k] != '}',
    decreases fmt.len() - from,
{
    if from < fmt.len() && fmt[from] != '}' {
        lemma_closing_bounds(fmt, from + 1);
    }
}

/// What the template renders to from index `at` on, outside any placeholder.
pub open spec fn rendered_from(fmt: Seq<char>, at: int, parts: Parts) -> Seq<char>
    decreases fmt.len() - at,
{
    if at < 0 || at >= fmt.len() {
        Seq::empty()
    } else if fmt[at] == '{' {
        let end = closing(fmt, at + 1);
        if end >= fmt.len() {
            Seq::empty()
        } else {
            proof {
                lemma_closing_bounds(fmt, at + 1);
            }
            substitution(fmt.subrange(at + 1, end), parts) + rendered_from(fmt, end + 1, parts)
        }
    } else {
        seq![fmt[at]] + rendered_from(fmt, at + 1, parts)
    }
}

/// What the whole template renders to.
pub open spec fn rendered(fmt: Seq<char>, parts: Parts) -> Seq<char> {
    rendered_from(fmt, 0, parts)
}

/// Whether a placeholder's name is the given word.
fn is_word(name: &String, word: &str) -> (same: bool)
    ensures
        same == (name@ == word@),
{
    let other = word.to_string();
    *name == other
}

/// Renders `format_str`, putting `level`, `time`, `file` and `message` in the
/// place of the placeholders that name them.
pub fn parse_and_format_log(
    format_str: &str,
    level: &str,
    time: &str,
    file: &str,
    message: &str,
) -> (line: String)
    ensures
        line@ == rendered(
            format_str@,
            Parts { level: level@, time: time@, file: file@, message: message@ },
        ),
{
    let ghost fmt = format_str@;
    let ghost parts = Parts { level: level@, time: time@, file: file@, message: message@ };
    let ghost mut opened: int = 0;
    let mut result = String::new();
    let mut in_placeholder = false;
    let mut placeholder = String::new();
    for c in iter: format_str.chars()
        invariant
            iter.seq() == fmt,
            parts == (Parts { level: level@, time: time@, file: file@, message: message@ }),
            in_placeholder ==> 0 < opened <= iter.index() && fmt[opened - 1] == '{'
                && placeholder@ == fmt.subrange(opened, iter.index())
                && closing(fmt, opened) == closing(fmt, iter.index())
                && result@ + rendered_from(fmt, opened - 1, parts) == rendered(fmt, parts),
            !in_placeholder ==> placeholder@ == Seq::<char>::empty() && result@ + rendered_from(
                fmt,
                iter.index(),
                parts,
            ) == rendered(fmt, parts),
    {
        let ghost at = iter.index();
        assert(c == fmt[at]);
        if in_placeholder {
            if c == '}' {
                in_placeholder = false;
                if is_word(&placeholder, "level") {
                    result.append(level);
                } else if is_word(&placeholder, "time") {
                    result.append(time);
                } else if is_word(&placeholder, "file") {
                    result.append(file);
                } else if is_word(&placeholder, "message") {
                    result.append(message);
                }
                placeholder = String::new();
            } else {
                push_char(&mut placeholder, c);
                assert(placeholder@ == fmt.subrange(opened, at + 1));
            }
        } else if c == '{' {
            in_placeholder = true;
            proof {
                opened = at + 1;
                assert(placeholder@ == fmt.subrange(opened, at + 1));
            }
        } else {
            push_char(&mut result, c);
        }
    }
    result
}

} // verus!
