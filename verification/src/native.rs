//! The backend for a desktop session that can be asked.
//!
//! Each function takes what the session answered, as plain values, and gives
//! the probe's value for it. Reading the foreground title takes up to three
//! questions, each depending on the answer before; [`active_window_title`]
//! decides after every answer what is asked next.

use crate::error::ProbeError;
use crate::text::{decode_utf16_lossy, utf16_lossy};
use vstd::prelude::*;
use vstd::slice::slice_subrange;

verus! {

/// Milliseconds between the last input, at tick `last_input_tick`, and the
/// tick `now_tick`; zero where the last input seems to lie in the future.
pub open spec fn idle_span(last_input_tick: u32, now_tick: u64) -> int {
    if now_tick >= last_input_tick {
        now_tick - last_input_tick
    } else {
        0
    }
}

/// The diagnostic of a failed last-input query.
pub open spec fn last_input_failure() -> Seq<char> {
    "GetLastInputInfo failed"@
}

/// The idle span is never negative and never exceeds the current tick, so it
/// fits the unsigned 64-bit result whatever the two ticks are.
pub proof fn idle_span_in_range(last_input_tick: u32, now_tick: u64)
    ensures
        0 <= idle_span(last_input_tick, now_tick) <= now_tick,
        now_tick >= last_input_tick ==> idle_span(last_input_tick, now_tick) == now_tick
            - last_input_tick,
        now_tick < last_input_tick ==> idle_span(last_input_tick, now_tick) == 0,
{
}

/// Time since the last keyboard or mouse input, in milliseconds.
///
/// `status` is what the session's last-input query returned, and
/// `last_input_tick` the tick it reported; `now_tick` is the session's tick
/// count, read after that query. A `status` of zero means that the query
/// failed, and is the one failure that any probe reports.
pub fn idle_time_ms(status: i32, last_input_tick: u32, now_tick: u64) -> (outcome: Result<u64, ProbeError>)
    ensures
        status != 0 ==> outcome == Ok::<u64, ProbeError>(
            idle_span(last_input_tick, now_tick) as u64,
        ),
        status == 0 ==> outcome is Err && outcome->Err_0.detail_text() == last_input_failure(),
{
    if status == 0 {
        return Err(ProbeError::PlatformQueryFailed { detail: "GetLastInputInfo failed".to_owned() });
    }
    Ok(now_tick.saturating_sub(last_input_tick as u64))
}

/// What the session has answered so far while the foreground title is read.
#[derive(Debug, PartialEq, Eq)]
pub enum TitleReading {
    /// The handle of the foreground window; zero where there is none.
    Foreground { window: isize },
    /// The length that the session reports for the title of `window`.
    Length { window: isize, length: i32 },
    /// The buffer that the session wrote the title to, and the number of code
    /// units that it says it wrote.
    Text { buffer: Vec<u16>, copied: i32 },
}

/// What follows an answer: one more question, or the title.
#[derive(Debug, PartialEq, Eq)]
pub enum TitleStep {
    /// Ask for the length of the title of `window`.
    MeasureText { window: isize },
    /// Ask for the title of `window`, into a buffer of `capacity` code units.
    CopyText { window: isize, capacity: usize },
    /// The title is known.
    Done { title: String },
}

/// A [`TitleStep`] with its title as a sequence of characters.
pub enum TitleStepView {
    MeasureText { window: isize },
    CopyText { window: isize, capacity: int },
    Done { title: Seq<char> },
}

impl View for TitleStep {
    type V = TitleStepView;

    open spec fn view(&self) -> TitleStepView {
        match *self {
            TitleStep::MeasureText { window } => TitleStepView::MeasureText { window },
            TitleStep::CopyText { window, capacity } => TitleStepView::CopyText {
                window,
                capacity: capacity as int,
            },
            TitleStep::Done { title } => TitleStepView::Done { title: title@ },
        }
    }
}

/// The code units of `buffer` that count as written when the session says it
/// wrote `copied` of them: the first `copied`, and no more than the buffer
/// holds.
pub open spec fn copied_units(buffer: Seq<u16>, copied: i32) -> Seq<u16> {
    if copied <= 0 {
        Seq::empty()
    } else if copied <= buffer.len() {
        buffer.subrange(0, copied as int)
    } else {
        buffer
    }
}

/// The title that a filled buffer stands for: empty where nothing was
/// written, else the lossy decoding of what was.
pub open spec fn copied_title(buffer: Seq<u16>, copied: i32) -> Seq<char> {
    if copied <= 0 {
        Seq::empty()
    } else {
        utf16_lossy(copied_units(buffer, copied))
    }
}

/// The step that follows `reading`.
///
/// No foreground window, a title of no length and a copy of no code units
/// each end the reading with the empty title. A title of `length` code units
/// is copied into a buffer with room for one more.
pub open spec fn title_step(reading: TitleReading) -> TitleStepView {
    match reading {
        TitleReading::Foreground { window } => if window == 0 {
            TitleStepView::Done { title: Seq::empty() }
        } else {
            TitleStepView::MeasureText { window }
        },
        TitleReading::Length { window, length } => if length <= 0 {
            TitleStepView::Done { title: Seq::empty() }
        } else {
            TitleStepView::CopyText { window, capacity: length + 1 }
        },
        TitleReading::Text { buffer, copied } => TitleStepView::Done {
            title: copied_title(buffer@, copied),
        },
    }
}

/// How many answers a reading may still need after `step`.
pub open spec fn answers_left(step: TitleStepView) -> nat {
    match step {
        TitleStepView::MeasureText { .. } => 2,
        TitleStepView::CopyText { .. } => 1,
        TitleStepView::Done { .. } => 0,
    }
}

/// How many answers a reading may need from `reading` on, itself included.
pub open spec fn answers_from(reading: TitleReading) -> nat {
    match reading {
        TitleReading::Foreground { .. } => 3,
        TitleReading::Length { .. } => 2,
        TitleReading::Text { .. } => 1,
    }
}

/// Every answer brings the reading nearer to its title: after the handle at
/// most two more answers are needed, after the length at most one, and the
/// copied text always ends it.
pub proof fn title_reading_ends(reading: TitleReading)
    ensures
        answers_left(title_step(reading)) < answers_from(reading),
        reading is Text ==> title_step(reading) is Done,
{
}

/// A reading with nothing to read gives the empty title: no foreground
/// window, a window whose title has no length, and a copy that wrote no code
/// units all end in `Done` with the empty text, whatever else was answered.
pub proof fn nothing_to_read_is_empty_title(window: isize, length: i32, buffer: Vec<u16>, copied: i32)
    ensures
        title_step(TitleReading::Foreground { window: 0 }) == (TitleStepView::Done {
            title: Seq::empty(),
        }),
        length <= 0 ==> title_step(TitleReading::Length { window, length }) == (
        TitleStepView::Done { title: Seq::empty() }),
        copied <= 0 ==> title_step(TitleReading::Text { buffer, copied }) == (TitleStepView::Done {
            title: Seq::empty(),
        }),
{
}

/// The first `copied` code units of `buffer`, and no more than it holds.
pub fn written_units(buffer: &[u16], copied: i32) -> (units: &[u16])
    ensures
        units@ == copied_units(buffer@, copied),
{
    if copied <= 0 {
        slice_subrange(buffer, 0, 0)
    } else if (copied as usize) <= buffer.len() {
        slice_subrange(buffer, 0, copied as usize)
    } else {
        assert(buffer@.subrange(0, buffer@.len() as int) == buffer@);
        slice_subrange(buffer, 0, buffer.len())
    }
}

/// Title of the foreground window, one answer at a time.
///
/// The caller starts with the handle of the foreground window, asks the
/// session what the returned step says, and comes back with the answer until
/// the step is `Done`. The reading never fails: a missing window and an empty
/// title are values, not errors.
pub fn active_window_title(reading: TitleReading) -> (outcome: Result<TitleStep, ProbeError>)
    ensures
        outcome is Ok,
        outcome->Ok_0@ == title_step(reading),
{
    match reading {
        TitleReading::Foreground { window } => {
            if window == 0 {
                Ok(TitleStep::Done { title: String::new() })
            } else {
                Ok(TitleStep::MeasureText { window })
            }
        },
        TitleReading::Length { window, length } => {
            if length <= 0 {
                Ok(TitleStep::Done { title: String::new() })
            } else {
                Ok(TitleStep::CopyText { window, capacity: (length as usize) + 1 })
            }
        },
        TitleReading::Text { buffer, copied } => {
            if copied <= 0 {
                Ok(TitleStep::Done { title: String::new() })
            } else {
                let units = written_units(buffer.as_slice(), copied);
                Ok(TitleStep::Done { title: decode_utf16_lossy(units) })
            }
        },
    }
}

/// Whether the session accepted the request to lock it.
///
/// `status` is what the session's lock request returned: anything but zero
/// means that it was accepted. A declined request is a value, not a failure.
pub fn lock_workstation(status: i32) -> (outcome: Result<bool, ProbeError>)
    ensures
        outcome == Ok::<bool, ProbeError>(status != 0),
{
    Ok(status != 0)
}

} // verus!
