//! Names and directory paths for recording artifacts.
//!
//! Each recording is written to `base/guild/channel/year/month/file`, where
//! the file name joins the start timestamp, the speaker's user id and the
//! speaker's name; the file name doubles as the join key of the recording's
//! metadata record, so it must be unique per recording.

use vstd::prelude::*;

use crate::calendar::{utc_month, utc_month_of, utc_year, utc_year_of, MAX_TIMESTAMP_MILLIS};

verus! {

/// The decimal digit character for `d` (meaningful for `0 <= d <= 9`).
pub open spec fn digit_char(d: int) -> char {
    if d == 0 {
        '0'
    } else if d == 1 {
        '1'
    } else if d == 2 {
        '2'
    } else if d == 3 {
        '3'
    } else if d == 4 {
        '4'
    } else if d == 5 {
        '5'
    } else if d == 6 {
        '6'
    } else if d == 7 {
        '7'
    } else if d == 8 {
        '8'
    } else {
        '9'
    }
}

/// The decimal digit string of a non-negative integer, without leading
/// zeros (a single zero for zero itself).
pub open spec fn dec_str(n: int) -> Seq<char>
    decreases n,
{
    if n < 10 {
        seq![digit_char(n)]
    } else {
        dec_str(n / 10) + seq![digit_char(n % 10)]
    }
}

/// The English month name for month `m`, 1 through 12.
pub open spec fn month_name_spec(m: int) -> Seq<char> {
    if m == 1 {
        "January"@
    } else if m == 2 {
        "February"@
    } else if m == 3 {
        "March"@
    } else if m == 4 {
        "April"@
    } else if m == 5 {
        "May"@
    } else if m == 6 {
        "June"@
    } else if m == 7 {
        "July"@
    } else if m == 8 {
        "August"@
    } else if m == 9 {
        "September"@
    } else if m == 10 {
        "October"@
    } else if m == 11 {
        "November"@
    } else {
        "December"@
    }
}

/// The directory a recording is filed under.
pub open spec fn dir_path_spec(
    base: Seq<char>,
    guild_id: u64,
    channel_id: u64,
    year: int,
    month: int,
) -> Seq<char> {
    base + "/"@ + dec_str(guild_id as int) + "/"@ + dec_str(channel_id as int) + "/"@ + dec_str(
        year,
    ) + "/"@ + month_name_spec(month)
}

/// The artifact file name: start timestamp, user id and user name, joined
/// with dashes.
pub open spec fn file_name_spec(ts_millis: i64, user_id: u64, user_name: Seq<char>) -> Seq<char> {
    dec_str(ts_millis as int) + "-"@ + dec_str(user_id as int) + "-"@ + user_name
}

fn digit_str(d: u64) -> (s: &'static str)
    requires
        d < 10,
    ensures
        s@ == seq![digit_char(d as int)],
{
    proof {
        reveal_strlit("0");
        reveal_strlit("1");
        reveal_strlit("2");
        reveal_strlit("3");
        reveal_strlit("4");
        reveal_strlit("5");
        reveal_strlit("6");
        reveal_strlit("7");
        reveal_strlit("8");
        reveal_strlit("9");
    }
    match d {
        0 => "0",
        1 => "1",
        2 => "2",
        3 => "3",
        4 => "4",
        5 => "5",
        6 => "6",
        7 => "7",
        8 => "8",
        _ => "9",
    }
}

/// Renders a number as its decimal digit string.
pub fn dec_u64(n: u64) -> (s: String)
    ensures
        s@ == dec_str(n as int),
    decreases n,
{
    if n < 10 {
        String::from_str(digit_str(n))
    } else {
        let mut s = dec_u64(n / 10);
        s.append(digit_str(n % 10));
        s
    }
}

/// The directory for a recording that starts at `ts_millis` UTC.
pub fn recording_dir(base: &str, guild_id: u64, channel_id: u64, ts_millis: i64) -> (p: String)
    requires
        0 <= ts_millis <= MAX_TIMESTAMP_MILLIS,
    ensures
        p@ == dir_path_spec(
            base@,
            guild_id,
            channel_id,
            utc_year_of(ts_millis),
            utc_month_of(ts_millis),
        ),
{
    let y = utc_year(ts_millis);
    let m = utc_month(ts_millis);
    let mut p = String::from_str(base);
    p.append("/");
    let g = dec_u64(guild_id);
    p.append(g.as_str());
    p.append("/");
    let c = dec_u64(channel_id);
    p.append(c.as_str());
    p.append("/");
    let ys = dec_u64(y as u64);
    p.append(ys.as_str());
    p.append("/");
    p.append(month_name(m));
    p
}

/// The artifact file name for a recording: unique per recording, because it
/// starts with the start timestamp and user id.
pub fn recording_file_name(ts_millis: i64, user_id: u64, user_name: &str) -> (s: String)
    requires
        0 <= ts_millis,
    ensures
        s@ == file_name_spec(ts_millis, user_id, user_name@),
{
    let mut s = dec_u64(ts_millis as u64);
    s.append("-");
    let u = dec_u64(user_id);
    s.append(u.as_str());
    s.append("-");
    s.append(user_name);
    s
}

/// The full artifact path: directory, separator, file name.
pub fn recording_path(base: &str, guild_id: u64, channel_id: u64, ts_millis: i64, file_name: &str)
    -> (p: String)
    requires
        0 <= ts_millis <= MAX_TIMESTAMP_MILLIS,
    ensures
        p@ == dir_path_spec(
            base@,
            guild_id,
            channel_id,
            utc_year_of(ts_millis),
            utc_month_of(ts_millis),
        ) + "/"@ + file_name@,
{
    let mut p = recording_dir(base, guild_id, channel_id, ts_millis);
    p.append("/");
    p.append(file_name);
    p
}

/// The English month name, 1 through 12.
pub fn month_name(m: u32) -> (s: &'static str)
    requires
        1 <= m <= 12,
    ensures
        s@ == month_name_spec(m as int),
{
    match m {
        1 => "January",
        2 => "February",
        3 => "March",
        4 => "April",
        5 => "May",
        6 => "June",
        7 => "July",
        8 => "August",
        9 => "September",
        10 => "October",
        11 => "November",
        _ => {
            proof {
                assert(m == 12);
            }
            "December"
        },
    }
}

/// The path of a stored clip: base directory, clip name, `.ogg` extension.
pub fn clip_path(base: &str, clip_name: &str) -> (p: String)
    ensures
        p@ == base@ + "/"@ + clip_name@ + ".ogg"@,
{
    let mut p = String::from_str(base);
    p.append("/");
    p.append(clip_name);
    p.append(".ogg");
    p
}

} // verus!
