//! Renders the log lines the organizer writes: one line per processed entry
//! and one trailing summary line per completed run. Every renderer's output
//! is pinned down character by character.

use vstd::prelude::*;
use vstd::string::StrSliceExecFns;
use vstd::string::StringExecFns;
use crate::clock::RunSummary;
use crate::plan::Action;
use crate::plan::ActionModel;
use crate::text::join_path;
use crate::text::spec_join;
use crate::text::dec4_seq;
use crate::text::dec_seq;
use crate::text::push_decimal;
use crate::text::push_decimal_pad4;
use crate::text::push_two_digits;
use crate::text::two_digit_seq;

verus! {

/// The English name of a weekday, counted in days since Monday.
pub open spec fn spec_weekday_name(w: u8) -> Seq<char> {
    if w == 0 {
        "Monday"@
    } else if w == 1 {
        "Tuesday"@
    } else if w == 2 {
        "Wednesday"@
    } else if w == 3 {
        "Thursday"@
    } else if w == 4 {
        "Friday"@
    } else if w == 5 {
        "Saturday"@
    } else {
        "Sunday"@
    }
}

/// The English name of a weekday, as spelled out by [`spec_weekday_name`].
pub fn weekday_name(w: u8) -> (r: &'static str)
    requires
        w < 7,
    ensures
        r@ == spec_weekday_name(w),
{
    if w == 0 {
        "Monday"
    } else if w == 1 {
        "Tuesday"
    } else if w == 2 {
        "Wednesday"
    } else if w == 3 {
        "Thursday"
    } else if w == 4 {
        "Friday"
    } else if w == 5 {
        "Saturday"
    } else {
        "Sunday"
    }
}

/// The English name of a month, counted from 1.
pub open spec fn spec_month_name(m: u8) -> Seq<char> {
    if m == 1 {
        "January"@
    } else if m == 2 {
        "February"@
    } else if m == 3 {
        "March"@
    } else if m == 4 {
        "April"@
    } else if m == 5 {
        "May"@
    } else if m == 6 {
        "June"@
    } else if m == 7 {
        "July"@
    } else if m == 8 {
        "August"@
    } else if m == 9 {
        "September"@
    } else if m == 10 {
        "October"@
    } else if m == 11 {
        "November"@
    } else {
        "December"@
    }
}

/// The English name of a month, as spelled out by [`spec_month_name`].
pub fn month_name(m: u8) -> (r: &'static str)
    requires
        1 <= m <= 12,
    ensures
        r@ == spec_month_name(m),
{
    if m == 1 {
        "January"
    } else if m == 2 {
        "February"
    } else if m == 3 {
        "March"
    } else if m == 4 {
        "April"
    } else if m == 5 {
        "May"
    } else if m == 6 {
        "June"
    } else if m == 7 {
        "July"
    } else if m == 8 {
        "August"
    } else if m == 9 {
        "September"
    } else if m == 10 {
        "October"
    } else if m == 11 {
        "November"
    } else {
        "December"
    }
}

/// A count of hundredths rendered as a decimal with two fractional digits.
pub open spec fn hundredths_seq(h: nat) -> Seq<char> {
    dec_seq(h / 100) + seq!['.'] + two_digit_seq(h % 100)
}

/// A duration rendered with two fractional digits in the nearest unit:
/// microseconds below one millisecond, milliseconds below one second,
/// seconds above.
pub open spec fn duration_seq(micros: nat) -> Seq<char> {
    if micros < 1000 {
        dec_seq(micros) + "us"@
    } else if micros < 1000000 {
        hundredths_seq(micros / 10) + "ms"@
    } else {
        hundredths_seq(micros / 10000) + "s"@
    }
}

/// Appends a count of hundredths as a decimal with two fractional digits.
fn push_hundredths(out: &mut String, h: u64)
    ensures
        final(out)@ == old(out)@ + hundredths_seq(h as nat),
{
    push_decimal(out, h / 100);
    out.push('.');
    push_two_digits(out, h % 100);
    proof {
        assert(out@ =~= old(out)@ + hundredths_seq(h as nat));
    }
}

/// Renders a duration, as spelled out by [`duration_seq`].
pub fn duration_text(elapsed_micros: u64) -> (r: String)
    ensures
        r@ == duration_seq(elapsed_micros as nat),
{
    let mut out = String::new();
    if elapsed_micros < 1000 {
        push_decimal(&mut out, elapsed_micros);
        out.append("us");
    } else if elapsed_micros < 1000000 {
        push_hundredths(&mut out, elapsed_micros / 10);
        out.append("ms");
    } else {
        push_hundredths(&mut out, elapsed_micros / 10000);
        out.append("s");
    }
    proof {
        assert(out@ =~= duration_seq(elapsed_micros as nat));
    }
    out
}

/// The log line for a skipped subdirectory.
pub open spec fn spec_skip_directory_line(path: Seq<char>) -> Seq<char> {
    "Skipping subdirectory: "@ + path
}

/// Renders the log line for a skipped subdirectory.
pub fn render_skip_directory_line(path: &str) -> (r: String)
    ensures
        r@ == spec_skip_directory_line(path@),
{
    let mut out = String::from_str("Skipping subdirectory: ");
    out.append(path);
    out
}

/// The log line for a skipped hidden file.
pub open spec fn spec_skip_hidden_line(path: Seq<char>) -> Seq<char> {
    "Skipping hidden file: "@ + path
}

/// Renders the log line for a skipped hidden file.
pub fn render_skip_hidden_line(path: &str) -> (r: String)
    ensures
        r@ == spec_skip_hidden_line(path@),
{
    let mut out = String::from_str("Skipping hidden file: ");
    out.append(path);
    out
}

/// The log line for one completed move or copy: the verb, the entry's name,
/// the destination directory and the elapsed time.
pub open spec fn spec_transfer_line(
    copy: bool,
    name: Seq<char>,
    dest_dir: Seq<char>,
    micros: nat,
) -> Seq<char> {
    (if copy {
        "Copied "@
    } else {
        "Moved "@
    }) + name + " to "@ + dest_dir + " in "@ + duration_seq(micros)
}

/// Renders the log line for one completed move or copy, as spelled out by
/// [`spec_transfer_line`].
pub fn render_transfer_line(copy: bool, name: &str, dest_dir: &str, elapsed_micros: u64) -> (r:
    String)
    ensures
        r@ == spec_transfer_line(copy, name@, dest_dir@, elapsed_micros as nat),
{
    let mut out = if copy {
        String::from_str("Copied ")
    } else {
        String::from_str("Moved ")
    };
    out.append(name);
    out.append(" to ");
    out.append(dest_dir);
    out.append(" in ");
    let d = duration_text(elapsed_micros);
    out.append(d.as_str());
    proof {
        assert(out@ =~= spec_transfer_line(copy, name@, dest_dir@, elapsed_micros as nat));
    }
    out
}

/// The log line one action over an entry of `directory` produces, if any:
/// skips are logged with the entry's full path, a transfer with the entry's
/// name, the destination directory and the elapsed time, and an in-place
/// entry with nothing.
pub open spec fn spec_action_log_line(
    directory: Seq<char>,
    name: Seq<char>,
    a: ActionModel,
    micros: nat,
) -> Option<Seq<char>> {
    match a {
        ActionModel::SkipDirectory => Some(spec_skip_directory_line(spec_join(directory, name))),
        ActionModel::SkipHidden => Some(spec_skip_hidden_line(spec_join(directory, name))),
        ActionModel::AlreadyInPlace => None,
        ActionModel::Transfer { dest_subdir, copy } => Some(
            spec_transfer_line(copy, name, spec_join(directory, dest_subdir), micros),
        ),
    }
}

/// Renders the log line for one action over the named entry of `directory`,
/// as spelled out by [`spec_action_log_line`]. For a transfer,
/// `elapsed_micros` is the measured duration of the move or copy; for any
/// other action it is ignored.
pub fn action_log_line(directory: &str, name: &str, action: &Action, elapsed_micros: u64) -> (r:
    Option<String>)
    ensures
        match spec_action_log_line(directory@, name@, action@, elapsed_micros as nat) {
            Some(line) => r matches Some(s) && s@ == line,
            None => r is None,
        },
{
    match action {
        Action::SkipDirectory => {
            let path = join_path(directory, name);
            Some(render_skip_directory_line(path.as_str()))
        },
        Action::SkipHidden => {
            let path = join_path(directory, name);
            Some(render_skip_hidden_line(path.as_str()))
        },
        Action::AlreadyInPlace => None,
        Action::Transfer { dest_subdir, copy } => {
            let dest_dir = join_path(directory, dest_subdir.as_str());
            Some(render_transfer_line(*copy, name, dest_dir.as_str(), elapsed_micros))
        },
    }
}

/// A calendar year rendered as a decimal, zero-padded to four digits, with a
/// leading minus sign for years before year zero.
pub open spec fn spec_year_seq(y: int) -> Seq<char> {
    if y < 0 {
        seq!['-'] + dec4_seq((-y) as nat)
    } else {
        dec4_seq(y as nat)
    }
}

/// Appends a calendar year, as spelled out by [`spec_year_seq`].
fn push_year(out: &mut String, y: i32)
    ensures
        final(out)@ == old(out)@ + spec_year_seq(y as int),
{
    if y < 0 {
        out.push('-');
        let m: u64 = (-(y as i64)) as u64;
        push_decimal_pad4(out, m);
        proof {
            assert(out@ =~= old(out)@ + spec_year_seq(y as int));
        }
    } else {
        push_decimal_pad4(out, y as u64);
    }
}

/// The trailing summary line of one completed run: the completion time, the
/// date, the total elapsed time, and the count of entries enumerated at the
/// start of the run.
pub open spec fn spec_summary_line(s: RunSummary) -> Seq<char> {
    "Operation completed successfully at "@ + two_digit_seq(s.completed_at.hour as nat) + ":"@
        + two_digit_seq(s.completed_at.minute as nat) + ":"@ + two_digit_seq(
        s.completed_at.second as nat,
    ) + " on "@ + spec_weekday_name(s.completed_at.weekday) + ", "@ + spec_month_name(
        s.completed_at.month,
    ) + " "@ + two_digit_seq(s.completed_at.day as nat) + ", "@ + spec_year_seq(
        s.completed_at.year as int,
    ) + ". Total time taken: "@ + duration_seq(s.total_micros as nat) + ", "@ + dec_seq(
        s.files_processed as nat,
    ) + " files processed."@
}

/// Renders the trailing summary line of one completed run, as spelled out by
/// [`spec_summary_line`].
pub fn render_summary_line(s: &RunSummary) -> (r: String)
    requires
        s.completed_at.wf(),
    ensures
        r@ == spec_summary_line(*s),
{
    let mut out = String::from_str("Operation completed successfully at ");
    push_two_digits(&mut out, s.completed_at.hour as u64);
    out.append(":");
    push_two_digits(&mut out, s.completed_at.minute as u64);
    out.append(":");
    push_two_digits(&mut out, s.completed_at.second as u64);
    out.append(" on ");
    out.append(weekday_name(s.completed_at.weekday));
    out.append(", ");
    out.append(month_name(s.completed_at.month));
    out.append(" ");
    push_two_digits(&mut out, s.completed_at.day as u64);
    out.append(", ");
    push_year(&mut out, s.completed_at.year);
    out.append(". Total time taken: ");
    let d = duration_text(s.total_micros);
    out.append(d.as_str());
    out.append(", ");
    push_decimal(&mut out, s.files_processed);
    out.append(" files processed.");
    proof {
        assert(out@ =~= spec_summary_line(*s));
    }
    out
}

} // verus!
