//! Invite codes: how an invite code's status is shown.
use vstd::prelude::*;

use crate::models::misc::InviteCodeStatus;
use crate::text::{int_decimal, push_i64_decimal, push_str};

verus! {

/// Milliseconds in a day.
pub const DAY_MILLIS: i64 = 86400000;

/// `a / b` as Rust computes it for integers: the quotient rounded toward zero.
pub open spec fn div_toward_zero(a: int, b: int) -> int {
    if a >= 0 {
        a / b
    } else {
        -((-a) / b)
    }
}

/// The whole days in a duration given in milliseconds, rounded toward zero.
pub open spec fn duration_days(duration: i64) -> int {
    div_toward_zero(duration as int, DAY_MILLIS as int)
}

/// The line that shows an invite code's session duration: `Duration: 1 day`, or
/// `Duration: {days} days` for any other number of whole days.
pub open spec fn duration_line_text(duration: i64) -> Seq<char> {
    if duration_days(duration) == 1 {
        "Duration: 1 day"@
    } else {
        "Duration: "@ + int_decimal(duration_days(duration)) + " days"@
    }
}

/// The line that shows an invite code's session duration (see `duration_line_text`).
pub fn duration_line(duration: i64) -> (r: String)
    ensures
        r@ == duration_line_text(duration),
{
    let days = duration / DAY_MILLIS;
    assert(days as int == duration_days(duration));
    if days == 1 {
        String::from_str("Duration: 1 day")
    } else {
        let mut r = String::from_str("Duration: ");
        push_i64_decimal(&mut r, days);
        push_str(&mut r, " days");
        assert(r@ =~= duration_line_text(duration));
        r
    }
}


/// The line that shows when an invite code expires: expired when no time remains,
/// else `Expires in: ` and the remaining time as written by the caller.
pub open spec fn expiration_line_text(remaining: i64, expires_in: Seq<char>) -> Seq<char> {
    if remaining <= 0 {
        "THIS CODE HAS ALREADY EXPIRED"@
    } else {
        "Expires in: "@ + expires_in
    }
}

/// The lines that show an invite code's status: with a code, the code, its session
/// duration and its expiration where known, between two separator lines; without one,
/// a line that says so. `expires_in` is the remaining time, as written by the caller.
pub open spec fn invite_status_spec(s: InviteCodeStatus, expires_in: Seq<char>) -> Seq<Seq<char>> {
    if s.has_code {
        seq!["---------------------------"@] + (match s.code {
            Some(c) => seq!["Invite code: "@ + c@],
            None => Seq::<Seq<char>>::empty(),
        }) + (match s.duration {
            Some(d) => seq![duration_line_text(d)],
            None => Seq::<Seq<char>>::empty(),
        }) + (match s.expiration_remaining {
            Some(e) => seq![expiration_line_text(e, expires_in)],
            None => Seq::<Seq<char>>::empty(),
        }) + seq!["---------------------------"@]
    } else {
        seq!["Your account does not have any active invite code"@]
    }
}

/// The texts of a list of strings.
pub open spec fn line_texts(v: Seq<String>) -> Seq<Seq<char>> {
    v.map_values(|s: String| s@)
}

/// The lines that show an invite code's status (see `invite_status_spec`).
pub fn invite_status_lines(status: &InviteCodeStatus, expires_in: &str) -> (r: Vec<String>)
    ensures
        line_texts(r@) == invite_status_spec(*status, expires_in@),
{
    let mut lines: Vec<String> = Vec::new();
    if !status.has_code {
        lines.push(String::from_str("Your account does not have any active invite code"));
        assert(line_texts(lines@) =~= invite_status_spec(*status, expires_in@));
        return lines;
    }
    lines.push(String::from_str("---------------------------"));
    let ghost p1 = seq!["---------------------------"@];
    assert(line_texts(lines@) =~= p1);
    if let Some(code) = &status.code {
        let mut line = String::from_str("Invite code: ");
        push_str(&mut line, code.as_str());
        lines.push(line);
    }
    let ghost p2 = p1 + (match status.code@ {
        Some(c) => seq!["Invite code: "@ + c@],
        None => Seq::<Seq<char>>::empty(),
    });
    assert(line_texts(lines@) =~= p2);
    if let Some(d) = status.duration {
        lines.push(duration_line(d));
    }
    let ghost p3 = p2 + (match status.duration {
        Some(d) => seq![duration_line_text(d)],
        None => Seq::<Seq<char>>::empty(),
    });
    assert(line_texts(lines@) =~= p3);
    if let Some(e) = status.expiration_remaining {
        if e <= 0 {
            lines.push(String::from_str("THIS CODE HAS ALREADY EXPIRED"));
        } else {
            let mut line = String::from_str("Expires in: ");
            push_str(&mut line, expires_in);
            lines.push(line);
        }
    }
    let ghost p4 = p3 + (match status.expiration_remaining {
        Some(e) => seq![expiration_line_text(e, expires_in@)],
        None => Seq::<Seq<char>>::empty(),
    });
    assert(line_texts(lines@) =~= p4);
    lines.push(String::from_str("---------------------------"));
    assert(line_texts(lines@) =~= invite_status_spec(*status, expires_in@));
    lines
}


/// The invite subcommands.
pub enum InvitesCommand {
    /// Prints the current invite code.
    Check,
    /// Generates an invite code (duration: day, week, month or year).
    Generate { duration: Option<String> },
    /// Clears the current invite code.
    Clear,
    /// Lists the invited sessions.
    ListSessions { csv: bool },
    /// Closes an invited session.
    CloseSession { index: u64 },
}

} // verus!
