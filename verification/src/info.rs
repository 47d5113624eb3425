//! Facts about the current user and computer, as the rest of the suite uses them.
use vstd::prelude::*;
use crate::text::{lemma_trim_keeps_printable_ends, trim, trim_chars, TrimSet};
use chrono::NaiveDate;

verus! {

/// The user's name with surrounding whitespace removed, from the name that
/// the operating system reports.
pub fn get_user(reported: &str) -> (user: String)
    ensures
        user@ == trim(reported@, TrimSet::WhiteSpace),
        reported@.len() > 0 && ('!' <= reported@[0] <= '~') && ('!' <= reported@.last() <= '~')
            ==> user@ == reported@,
{
    proof {
        if reported@.len() > 0 && ('!' <= reported@[0] <= '~') && ('!' <= reported@.last() <= '~') {
            lemma_trim_keeps_printable_ends(reported@);
        }
    }
    trim_chars(reported, TrimSet::WhiteSpace)
}

/// The computer's name with surrounding whitespace removed, from the name
/// that the operating system reports.
pub fn get_pc_name(reported: &str) -> (pc_name: String)
    ensures
        pc_name@ == trim(reported@, TrimSet::WhiteSpace),
        reported@.len() > 0 && ('!' <= reported@[0] <= '~') && ('!' <= reported@.last() <= '~')
            ==> pc_name@ == reported@,
{
    proof {
        if reported@.len() > 0 && ('!' <= reported@[0] <= '~') && ('!' <= reported@.last() <= '~') {
            lemma_trim_keeps_printable_ends(reported@);
        }
    }
    trim_chars(reported, TrimSet::WhiteSpace)
}

/// The folder that receives the log of `user`: `C:/Users/<user>/AppData/Local/ShamRock-it-log/`.
pub fn log_builder(user: &str) -> (dir: String)
    ensures
        dir@ == "C:/Users/"@ + user@ + "/AppData/Local/ShamRock-it-log/"@,
{
    let mut dir = String::from_str("C:/Users/");
    dir.append(user);
    dir.append("/AppData/Local/ShamRock-it-log/");
    dir
}

/// Where an encrypted asset is written for `user`: `C:/Users/<user>/Downloads/assets`.
pub fn asset_destination(user: &str) -> (path: String)
    ensures
        path@ == "C:/Users/"@ + user@ + "/Downloads/assets"@,
{
    let mut path = String::from_str("C:/Users/");
    path.append(user);
    path.append("/Downloads/assets");
    path
}

/// A local date and time, read from the system clock.
#[derive(Debug, Clone, Copy)]
pub struct LocalDateTime {
    pub year: i32,
    pub month: u32,
    pub day: u32,
    pub hour: u32,
    pub minute: u32,
    pub second: u32,
}

/// The text that chrono's `NaiveDateTime::format(format).to_string()` gives for
/// a date and time, or `None` when the fields do not form one.
pub uninterp spec fn chrono_format(
    year: int,
    month: int,
    day: int,
    hour: int,
    minute: int,
    second: int,
    format: Seq<char>,
) -> Option<Seq<char>>;

/// How ticket subjects show the time, e.g. `Mon, Jan 01, 2024 at 09:05 AM`.
pub open spec fn ticket_time_format() -> Seq<char> {
    "%a, %b %d, %Y at %I:%M %p"@
}

/// The ticket time is written `%a, %b %d, %Y at %I:%M %p`: after the colon
/// comes `%M`, the minute as exactly two digits, then a space and `%p`
/// (AM or PM); no directive carries a padding or width modifier (`-`, `_`,
/// `0` after `%`), so every field has chrono's default two-digit padding.
pub proof fn lemma_ticket_time_format()
    ensures
        ticket_time_format() == "%a, %b %d, %Y at %I:%M %p"@,
        ticket_time_format().len() == 25,
        ticket_time_format().subrange(19, 25) == seq![':', '%', 'M', ' ', '%', 'p'],
        forall|i: int|
            0 <= i < ticket_time_format().len() - 1 && ticket_time_format()[i] == '%' ==> {
                let next = #[trigger] ticket_time_format()[i + 1];
                next != '-' && next != '_' && next != '0'
            },
{
    reveal_strlit("%a, %b %d, %Y at %I:%M %p");
    assert(ticket_time_format().subrange(19, 25) =~= seq![':', '%', 'M', ' ', '%', 'p']);
}

/// chrono's `NaiveDate::from_ymd_opt` and `NaiveDate::and_hms_opt`, then
/// `NaiveDateTime::format` rendered with `to_string`. Rendering panics on an
/// ill-formed format string; the precondition admits only the ticket format.
#[verifier::external_body]
fn format_date_time(
    year: i32,
    month: u32,
    day: u32,
    hour: u32,
    minute: u32,
    second: u32,
    format: &str,
) -> (res: Option<String>)
    requires
        format@ == ticket_time_format(),
    ensures
        match res {
            Some(text) => chrono_format(
                year as int,
                month as int,
                day as int,
                hour as int,
                minute as int,
                second as int,
                format@,
            ) == Some(text@),
            None => chrono_format(
                year as int,
                month as int,
                day as int,
                hour as int,
                minute as int,
                second as int,
                format@,
            ) is None,
        },
{
    match NaiveDate::from_ymd_opt(year, month, day) {
        Some(date) => match date.and_hms_opt(hour, minute, second) {
            Some(date_time) => Some(date_time.format(format).to_string()),
            None => None,
        },
        None => None,
    }
}

/// The time shown in a ticket's subject, such as `Mon, Jan 01, 2024 at 09:05 AM`;
/// `None` when the fields do not form a date and time.
pub fn get_datetime(now: &LocalDateTime) -> (res: Option<String>)
    ensures
        match res {
            Some(text) => chrono_format(
                now.year as int,
                now.month as int,
                now.day as int,
                now.hour as int,
                now.minute as int,
                now.second as int,
                "%a, %b %d, %Y at %I:%M %p"@,
            ) == Some(text@),
            None => chrono_format(
                now.year as int,
                now.month as int,
                now.day as int,
                now.hour as int,
                now.minute as int,
                now.second as int,
                "%a, %b %d, %Y at %I:%M %p"@,
            ) is None,
        },
{
    proof {
        lemma_ticket_time_format();
    }
    format_date_time(
        now.year,
        now.month,
        now.day,
        now.hour,
        now.minute,
        now.second,
        "%a, %b %d, %Y at %I:%M %p",
    )
}

} // verus!
