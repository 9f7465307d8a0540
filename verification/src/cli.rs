//! The interactive command-line run's pure half: volume validation, the
//! decision taken on each tick of the blocking play loop, and the count of
//! terminal lines the progress display occupies and must clear on exit.

use vstd::prelude::*;

verus! {

/// The highest volume a caller may request, in percent.
pub const MAX_VOLUME_PERCENT: u16 = 100;

/// What a requested volume maps to: the default when none was given, the
/// value itself when it lies in `1..=100`, and the offending value back as
/// an error otherwise.
pub open spec fn volume_verdict(requested: Option<u16>) -> Result<u16, u16> {
    match requested {
        None => Ok(100u16),
        Some(v) => if 1 <= v && v <= 100 {
            Ok(v)
        } else {
            Err(v)
        },
    }
}

/// Validate the volume given on the command line, in percent.
pub fn validate_volume(requested: Option<u16>) -> (r: Result<u16, u16>)
    ensures
        r == volume_verdict(requested),
{
    match requested {
        None => Ok(MAX_VOLUME_PERCENT),
        Some(v) => if 1 <= v && v <= MAX_VOLUME_PERCENT {
            Ok(v)
        } else {
            Err(v)
        },
    }
}

/// What the interactive loop does on one tick.
#[derive(Clone, Copy, Debug, PartialEq, Eq, Structural)]
pub enum CliAction {
    /// The input task finished or the session drained: leave the loop and
    /// restore the terminal.
    Exit,
    /// Redraw the progress display at this position.
    Redraw { position_secs: u64 },
    /// Nothing to do this tick.
    Idle,
}

/// The tick decision: exit as soon as the input task is done or the
/// session has drained; otherwise redraw only when an update is due and
/// the position actually moved since the last drawn one.
pub open spec fn cli_step_spec(
    input_done: bool,
    drained: bool,
    update_due: bool,
    last_pos: u64,
    current_pos: u64,
) -> CliAction {
    if input_done || drained {
        CliAction::Exit
    } else if update_due && current_pos != last_pos {
        CliAction::Redraw { position_secs: current_pos }
    } else {
        CliAction::Idle
    }
}

/// One tick of the interactive play loop, as `cli_step_spec` states it.
pub fn cli_step(
    input_done: bool,
    drained: bool,
    update_due: bool,
    last_pos: u64,
    current_pos: u64,
) -> (a: CliAction)
    ensures
        a == cli_step_spec(input_done, drained, update_due, last_pos, current_pos),
{
    if input_done || drained {
        CliAction::Exit
    } else if update_due && current_pos != last_pos {
        CliAction::Redraw { position_secs: current_pos }
    } else {
        CliAction::Idle
    }
}

/// Display width of a string in terminal columns. The width is a function
/// of the characters alone.
pub uninterp spec fn text_width(s: Seq<char>) -> nat;

/// Relies on `unicode_width::UnicodeWidthStr::width`: the displayed width
/// of a string in columns, a sum of table-driven per-character widths, so
/// zero for the empty string.
#[verifier::external_body]
fn display_width(s: &str) -> (r: usize)
    ensures
        r == text_width(s@),
        s@.len() == 0 ==> r == 0,
{
    unicode_width::UnicodeWidthStr::width(s)
}

/// How many lines above the last one a text of the given width occupies on
/// a terminal of `cols` columns: one line holds up to `cols` columns, and
/// a text always occupies at least the line it starts on.
pub open spec fn lines_above_spec(width: nat, cols: u16) -> int {
    if width == 0 {
        0
    } else {
        (width - 1) / (cols as int)
    }
}

/// The extra lines a text of the given width spills onto, beyond its
/// first. The exit path clears exactly these before the progress line.
pub fn lines_above(width: usize, cols: u16) -> (r: usize)
    requires
        cols > 0,
    ensures
        r == lines_above_spec(width as nat, cols),
{
    if width == 0 {
        0
    } else {
        (width - 1) / (cols as usize)
    }
}

/// The extra lines the given text occupies on a terminal of `cols`
/// columns, measured by display width.
pub fn lines_for_text(s: &str, cols: u16) -> (r: usize)
    requires
        cols > 0,
    ensures
        r == lines_above_spec(text_width(s@), cols),
{
    let w = display_width(s);
    lines_above(w, cols)
}

} // verus!
