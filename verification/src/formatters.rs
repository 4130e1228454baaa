use crate::text::{decimal, u64_to_decimal};
use crate::uint::Uint256;
use crate::units::zero_pad;
use vstd::prelude::*;

verus! {

/// `text` in the terminal colour `code` when colour is on, else `text` itself.
pub open spec fn painted(text: Seq<char>, code: Seq<char>, color: bool) -> Seq<char> {
    if color {
        "\x1b["@ + code + "m"@ + text + "\x1b[0m"@
    } else {
        text
    }
}

/// Wraps `text` in the escape sequence of the colour `code` when colour is on.
pub fn paint(text: &str, code: &str, color: bool) -> (s: String)
    ensures
        s@ == painted(text@, code@, color),
{
    if color {
        let mut s = "\x1b[".to_owned();
        s.append(code);
        s.append("m");
        s.append(text);
        s.append("\x1b[0m");
        s
    } else {
        text.to_owned()
    }
}

/// A heading (bold cyan when colour is on).
pub fn header(text: &str, color: bool) -> (s: String)
    ensures
        s@ == painted(text@, "1;36"@, color),
{
    paint(text, "1;36", color)
}

/// A field label (bold blue when colour is on).
pub fn key(text: &str, color: bool) -> (s: String)
    ensures
        s@ == painted(text@, "1;34"@, color),
{
    paint(text, "1;34", color)
}

/// A warning label (bold yellow when colour is on).
pub fn warn(text: &str, color: bool) -> (s: String)
    ensures
        s@ == painted(text@, "1;33"@, color),
{
    paint(text, "1;33", color)
}

/// Basis points and the percentage they stand for, to two decimal places:
/// `150 (1.50%)`.
pub open spec fn bps_text(bps: nat) -> Seq<char> {
    decimal(bps) + " ("@ + decimal(bps / 100) + "."@ + zero_pad(decimal(bps % 100), 2) + "%)"@
}

/// Formats basis points with their percentage. Every number of basis points
/// is a percentage with at most two decimals, so the exact digits are those
/// that a two-place rendering of `bps / 100` gives.
pub fn format_bps(bps: u16) -> (s: String)
    ensures
        s@ == bps_text(bps as nat),
{
    let mut s = u64_to_decimal(bps as u64);
    s.append(" (");
    let whole = u64_to_decimal((bps / 100) as u64);
    s.append(whole.as_str());
    s.append(".");
    let cents = (bps % 100) as u64;
    if cents < 10 {
        s.append("0");
    }
    let c = u64_to_decimal(cents);
    s.append(c.as_str());
    s.append("%)");
    proof {
        reveal_strlit("0");
        if cents < 10 {
            assert(decimal(cents as nat).len() == 1);
            assert(zero_pad(decimal(cents as nat), 2) =~= "0"@ + decimal(cents as nat));
        } else {
            assert(decimal(cents as nat) =~= decimal(cents as nat / 10).push(
                crate::text::digit_char(cents as nat % 10),
            ));
            assert(decimal(cents as nat / 10).len() == 1);
            assert(zero_pad(decimal(cents as nat), 2) =~= decimal(cents as nat));
        }
    }
    s
}

/// The name of a project's operational status code.
pub open spec fn status_name(code: u8) -> Seq<char> {
    if code == 0 {
        "raising"@
    } else if code == 1 {
        "deploying"@
    } else if code == 2 {
        "operating"@
    } else if code == 3 {
        "paused"@
    } else if code == 4 {
        "closed"@
    } else {
        "unknown"@
    }
}

/// Names an operational status code; codes past 4 are `unknown`.
pub fn format_status(code: u8) -> (s: &'static str)
    ensures
        s@ == status_name(code),
{
    match code {
        0 => "raising",
        1 => "deploying",
        2 => "operating",
        3 => "paused",
        4 => "closed",
        _ => "unknown",
    }
}

/// Formats a timestamp as its decimal number, whether or not it fits in
/// 64 bits.
pub fn format_ts(ts: &Uint256) -> (s: String)
    ensures
        s@ == decimal(ts@),
{
    if !ts.fits_u64() {
        return ts.to_decimal_string();
    }
    u64_to_decimal(ts.as_u64())
}

/// Words joined by single spaces.
pub open spec fn join_with_spaces(parts: Seq<Seq<char>>) -> Seq<char>
    decreases parts.len(),
{
    if parts.len() == 0 {
        seq![]
    } else if parts.len() == 1 {
        parts[0]
    } else {
        join_with_spaces(parts.drop_last()) + " "@ + parts.last()
    }
}

/// Joins strings with single spaces.
pub fn join_words(parts: &Vec<String>) -> (s: String)
    ensures
        s@ == join_with_spaces(parts@.map_values(|p: String| p@)),
{
    let ghost views = parts@.map_values(|p: String| p@);
    let mut s = String::new();
    let mut i: usize = 0;
    while i < parts.len()
        invariant
            i <= parts@.len(),
            views == parts@.map_values(|p: String| p@),
            s@ == join_with_spaces(views.take(i as int)),
        decreases parts@.len() - i,
    {
        assert(views.take(i + 1).drop_last() =~= views.take(i as int));
        if i != 0 {
            s.append(" ");
        } else {
            assert(s@ =~= seq![]);
        }
        s.append(parts[i].as_str());
        proof {
            if i == 0 {
                assert(s@ =~= views.take(1)[0]);
            }
        }
        i = i + 1;
    }
    assert(views.take(parts@.len() as int) =~= views);
    s
}

/// The day, hour, minute and second parts of a duration: each nonzero one with
/// its unit letter, and the seconds also when every other part is zero.
pub open spec fn duration_parts(secs: nat) -> Seq<Seq<char>> {
    let days = secs / 86400;
    let hours = (secs % 86400) / 3600;
    let minutes = (secs % 3600) / 60;
    let seconds = secs % 60;
    let p1: Seq<Seq<char>> = if days > 0 {
        seq![decimal(days) + "d"@]
    } else {
        seq![]
    };
    let p2 = if hours > 0 {
        p1.push(decimal(hours) + "h"@)
    } else {
        p1
    };
    let p3 = if minutes > 0 {
        p2.push(decimal(minutes) + "m"@)
    } else {
        p2
    };
    if seconds > 0 || p3.len() == 0 {
        p3.push(decimal(seconds) + "s"@)
    } else {
        p3
    }
}

/// A duration in seconds with its reading in days, hours, minutes and seconds:
/// `3700 sec (1h 1m 40s)`; past 64 bits only `<n> sec`.
pub open spec fn duration_text(secs: nat) -> Seq<char> {
    if secs > u64::MAX {
        decimal(secs) + " sec"@
    } else {
        decimal(secs) + " sec ("@ + join_with_spaces(duration_parts(secs)) + ")"@
    }
}

/// The number with a one-letter unit after it.
fn with_unit(n: u64, unit: &str) -> (s: String)
    ensures
        s@ == decimal(n as nat) + unit@,
{
    let mut s = u64_to_decimal(n);
    s.append(unit);
    s
}

/// Formats a duration in seconds as the raw number and its human reading.
pub fn format_duration_human(seconds: &Uint256) -> (s: String)
    ensures
        s@ == duration_text(seconds@),
{
    let raw = seconds.to_decimal_string();
    if !seconds.fits_u64() {
        let mut s = raw;
        s.append(" sec");
        return s;
    }
    let mut rest = seconds.as_u64();
    let ghost total = rest as nat;
    let days = rest / 86_400;
    rest = rest % 86_400;
    let hours = rest / 3_600;
    rest = rest % 3_600;
    let minutes = rest / 60;
    let secs = rest % 60;
    assert((total % 86400) % 3600 == total % 3600) by (nonlinear_arith);
    assert((total % 3600) % 60 == total % 60) by (nonlinear_arith);
    let mut parts: Vec<String> = Vec::new();
    if days > 0 {
        parts.push(with_unit(days, "d"));
    }
    if hours > 0 {
        parts.push(with_unit(hours, "h"));
    }
    if minutes > 0 {
        parts.push(with_unit(minutes, "m"));
    }
    if secs > 0 || parts.len() == 0 {
        parts.push(with_unit(secs, "s"));
    }
    assert(parts@.map_values(|p: String| p@) =~= duration_parts(total));
    let joined = join_words(&parts);
    let mut s = raw;
    s.append(" sec (");
    s.append(joined.as_str());
    s.append(")");
    s
}

/// The parts of a duration add back up to it, and each is within its unit:
/// `days * 86400 + hours * 3600 + minutes * 60 + seconds == secs`.
pub proof fn lemma_duration_breakdown(secs: nat)
    ensures
        (secs / 86400) * 86400 + ((secs % 86400) / 3600) * 3600 + ((secs % 3600) / 60) * 60 + secs
            % 60 == secs,
        (secs % 86400) / 3600 < 24,
        (secs % 3600) / 60 < 60,
        secs % 60 < 60,
{
    assert((secs % 86400) % 3600 == secs % 3600) by (nonlinear_arith);
    assert((secs / 86400) * 86400 + secs % 86400 == secs) by (nonlinear_arith);
    assert(((secs % 86400) / 3600) * 3600 + (secs % 86400) % 3600 == secs % 86400) by (
    nonlinear_arith);
    assert(((secs % 3600) / 60) * 60 + (secs % 3600) % 60 == secs % 3600) by (nonlinear_arith);
    assert((secs % 3600) % 60 == secs % 60) by (nonlinear_arith);
    assert((secs % 86400) / 3600 < 24) by (nonlinear_arith);
    assert((secs % 3600) / 60 < 60) by (nonlinear_arith);
}

} // verus!
