//! When a sink must rotate.
//!
//! The decision reads the state of the sink and the moment and length of the
//! write that is about to happen. It touches no file.

use vstd::prelude::*;

use crate::clock::{calendar_field, field_of, timesec, MAX_TIMESTAMP};
use crate::{CUTMODE, MODE};

verus! {

/// What a sink is set up with.
pub struct SinkConfig {
    /// The stable, logical name of the live file.
    pub path: String,
    /// Whether the sink rotates by time or by size.
    pub cut: CUTMODE,
    /// The granularity of a rotation by time.
    pub timemode: MODE,
    /// The size in bytes that the live file may not pass under a rotation by
    /// size.
    pub size_threshold: u64,
    /// Whether a retired file is handed on for compression.
    pub compress_on_rotate: bool,
}

/// The rotation state of one managed file.
pub struct Sink {
    pub config: SinkConfig,
    /// The second at which the live file was created or last rotated.
    pub opened_at: u64,
    /// The bytes written to the live file since then.
    pub current_size: u64,
    /// The number that the next archive carries under a rotation by size.
    pub sequence: u64,
}

/// Why a rotation is due.
#[derive(PartialEq, Eq, Structural, Clone, Copy, Debug)]
pub enum RotationReason {
    TimeBoundaryCrossed,
    SizeExceeded,
}

/// What the rotation policy decides.
#[derive(PartialEq, Eq, Structural, Clone, Copy, Debug)]
pub enum RotationDecision {
    NoOp,
    Rotate { reason: RotationReason },
}

/// A calendar boundary lies between `start` and `now` when the watched field
/// of `now` is greater than that of `start`. Only that one field is compared:
/// a later hour counts under `HOUR`, whatever the day, and the step from hour
/// 23 to hour 0 does not. Past the end of the calendar no boundary is seen.
pub open spec fn boundary_crossed(start: int, now: int, mode: MODE) -> bool {
    &&& 0 <= start <= MAX_TIMESTAMP
    &&& 0 <= now <= MAX_TIMESTAMP
    &&& calendar_field(now, mode) > calendar_field(start, mode)
}

/// The rotation that is due before `len` bytes are written at `now`: under a
/// rotation by time, when a calendar boundary was crossed since the file was
/// opened; under a rotation by size, when the write would take the file past
/// the threshold.
pub open spec fn rotation_due(sink: Sink, now: int, len: int) -> RotationDecision {
    match sink.config.cut {
        CUTMODE::TIME => if boundary_crossed(sink.opened_at as int, now, sink.config.timemode) {
            RotationDecision::Rotate { reason: RotationReason::TimeBoundaryCrossed }
        } else {
            RotationDecision::NoOp
        },
        CUTMODE::SIZE => if sink.current_size + len > sink.config.size_threshold {
            RotationDecision::Rotate { reason: RotationReason::SizeExceeded }
        } else {
            RotationDecision::NoOp
        },
    }
}

/// Under a rotation by size the decision goes by the bytes alone, whatever
/// the clock reads: a rotation is due exactly when the bytes already written
/// and the bytes about to be written together pass the threshold.
pub proof fn lemma_size_rotation(sink: Sink, now: int, len: int)
    requires
        sink.config.cut is SIZE,
    ensures
        sink.current_size + len > sink.config.size_threshold ==> rotation_due(sink, now, len) == (
        RotationDecision::Rotate { reason: RotationReason::SizeExceeded }),
        sink.current_size + len <= sink.config.size_threshold ==> rotation_due(sink, now, len)
            == RotationDecision::NoOp,
{
}

/// Under `HOUR` a file that was opened in the last hour of a day never sees
/// a boundary, not even on a later day: no hour is greater than 23.
pub proof fn lemma_last_hour_sees_no_boundary(start: int, now: int)
    requires
        calendar_field(start, MODE::HOUR) == 23,
    ensures
        !boundary_crossed(start, now, MODE::HOUR),
{
}

/// Under `HOUR` a boundary is seen exactly when the hour of the day of `now`
/// is greater than that of `start`, whatever the days of the two.
pub proof fn lemma_hour_boundary(start: int, now: int)
    requires
        0 <= start <= MAX_TIMESTAMP,
        0 <= now <= MAX_TIMESTAMP,
    ensures
        boundary_crossed(start, now, MODE::HOUR) <==> (now % 86_400) / 3_600 > (start % 86_400)
            / 3_600,
{
}

/// Whether the watched field has grown from `before` to `after`. A field
/// that the calendar could not give has not grown.
pub fn field_grew(before: Option<u32>, after: Option<u32>) -> (grew: bool)
    ensures
        grew == (before matches Some(b) && after matches Some(a) && a > b),
{
    match before {
        Some(b) => match after {
            Some(a) => a > b,
            None => false,
        },
        None => false,
    }
}

/// Whether a calendar boundary of granularity `timemode` lies between the
/// seconds `startsec` and `nowsec`.
pub fn time_passed(startsec: u64, nowsec: u64, timemode: MODE) -> (due: bool)
    ensures
        due == boundary_crossed(startsec as int, nowsec as int, timemode),
{
    field_grew(field_of(startsec, timemode), field_of(nowsec, timemode))
}

/// Whether a calendar boundary of granularity `timemode` was crossed between
/// `startsec` and the present moment of the local wall clock.
pub fn passtimemode(startsec: u64, timemode: MODE) -> (due: bool)
    requires
        startsec <= MAX_TIMESTAMP,
    ensures
        exists|now: int| 0 <= now && due == #[trigger] boundary_crossed(startsec as int, now, timemode),
{
    let now = timesec();
    let due = time_passed(startsec, now, timemode);
    assert(due == boundary_crossed(startsec as int, now as int, timemode));
    due
}

/// Decides whether `sink` must rotate before a write of `about_to_write_len`
/// bytes at the second `now`.
pub fn should_rotate(sink: &Sink, now: u64, about_to_write_len: u64) -> (decision: RotationDecision)
    ensures
        decision == rotation_due(*sink, now as int, about_to_write_len as int),
{
    match sink.config.cut {
        CUTMODE::TIME => {
            if time_passed(sink.opened_at, now, sink.config.timemode) {
                RotationDecision::Rotate { reason: RotationReason::TimeBoundaryCrossed }
            } else {
                RotationDecision::NoOp
            }
        },
        CUTMODE::SIZE => {
            let exceeded = match sink.current_size.checked_add(about_to_write_len) {
                Some(total) => total > sink.config.size_threshold,
                None => true,
            };
            if exceeded {
                RotationDecision::Rotate { reason: RotationReason::SizeExceeded }
            } else {
                RotationDecision::NoOp
            }
        },
    }
}

} // verus!
