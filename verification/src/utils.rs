//! Shared helpers: date parsing and game-time formatting, score and record
//! rendering, record parsing, winner determination, name formatting, string
//! truncation and batting-average calculation.

use vstd::prelude::*;

verus! {

use crate::error::SportError;
use crate::strutil::{
    concat2,
    digit_char,
    digit_val,
    is_digit,
    parse_u32,
    spec_dec,
    spec_parse_u32,
    spec_split_once,
    split_once_char,
    contains_char,
    to_upper,
    u32_string,
    upper_of,
};
use vstd::string::StrSliceExecFns;

/// A calendar timestamp in UTC, held as plain field values.
#[derive(Debug, Clone, Copy, PartialEq, Eq, Structural)]
pub struct DateTime {
    pub year: u32,
    pub month: u32,
    pub day: u32,
    pub hour: u32,
    pub minute: u32,
    pub second: u32,
}

/// The Gregorian leap-year rule.
pub open spec fn is_leap_year(y: nat) -> bool {
    y % 4 == 0 && (y % 100 != 0 || y % 400 == 0)
}

/// How many days the month has in the given year.
pub open spec fn days_in_month(y: nat, m: nat) -> nat {
    if m == 1 || m == 3 || m == 5 || m == 7 || m == 8 || m == 10 || m == 12 {
        31
    } else if m == 4 || m == 6 || m == 9 || m == 11 {
        30
    } else if is_leap_year(y) {
        29
    } else {
        28
    }
}

impl DateTime {
    /// A valid calendar date and time of day.
    pub open spec fn wf(&self) -> bool {
        &&& 1 <= self.month <= 12
        &&& 1 <= self.day <= days_in_month(self.year as nat, self.month as nat)
        &&& self.hour <= 23
        &&& self.minute <= 59
        &&& self.second <= 59
    }
}

/// The value of two decimal digits at the given offset.
pub open spec fn spec_num2(s: Seq<char>, i: int) -> nat {
    digit_val(s[i]) * 10 + digit_val(s[i + 1])
}

/// The value of four decimal digits at the given offset.
pub open spec fn spec_num4(s: Seq<char>, i: int) -> nat {
    digit_val(s[i]) * 1000 + digit_val(s[i + 1]) * 100 + digit_val(s[i + 2]) * 10 + digit_val(
        s[i + 3],
    )
}

/// Whether the string has the exact shape `YYYY-MM-DDTHH:MM:SSZ`.
pub open spec fn iso_shape_ok(s: Seq<char>) -> bool {
    &&& s.len() == 20
    &&& s[4] == '-' && s[7] == '-' && s[10] == 'T' && s[13] == ':' && s[16] == ':' && s[19] == 'Z'
    &&& is_digit(s[0]) && is_digit(s[1]) && is_digit(s[2]) && is_digit(s[3])
    &&& is_digit(s[5]) && is_digit(s[6])
    &&& is_digit(s[8]) && is_digit(s[9])
    &&& is_digit(s[11]) && is_digit(s[12])
    &&& is_digit(s[14]) && is_digit(s[15])
    &&& is_digit(s[17]) && is_digit(s[18])
}

/// How an ISO-8601 UTC timestamp string parses, if the shape and the
/// calendar both accept it.
pub open spec fn spec_parse_iso8601(s: Seq<char>) -> Option<DateTime> {
    if !iso_shape_ok(s) {
        None
    } else {
        let dt = DateTime {
            year: spec_num4(s, 0) as u32,
            month: spec_num2(s, 5) as u32,
            day: spec_num2(s, 8) as u32,
            hour: spec_num2(s, 11) as u32,
            minute: spec_num2(s, 14) as u32,
            second: spec_num2(s, 17) as u32,
        };
        if dt.wf() {
            Some(dt)
        } else {
            None
        }
    }
}

fn digit_at(s: &str, i: usize) -> (r: Option<u32>)
    requires
        i < s@.len(),
    ensures
        r matches Some(d) ==> is_digit(s@[i as int]) && d == digit_val(s@[i as int]) && d <= 9,
        r is None ==> !is_digit(s@[i as int]),
{
    let c = s.get_char(i);
    if c >= '0' && c <= '9' {
        Some((c as u32) - 48)
    } else {
        None
    }
}

fn num2_at(s: &str, i: usize) -> (r: Option<u32>)
    requires
        i + 1 < s@.len(),
        s@.len() <= usize::MAX,
    ensures
        r matches Some(v) ==> is_digit(s@[i as int]) && is_digit(s@[i + 1]) && v == spec_num2(
            s@,
            i as int,
        ),
        r is None ==> !(is_digit(s@[i as int]) && is_digit(s@[i + 1])),
{
    match (digit_at(s, i), digit_at(s, i + 1)) {
        (Some(a), Some(b)) => Some(a * 10 + b),
        _ => None,
    }
}

/// Parses an ISO-8601 date string of the shape `YYYY-MM-DDTHH:MM:SSZ` into a
/// calendar-checked timestamp.
pub fn parse_iso8601_date(date_str: &str) -> (r: Result<DateTime, SportError>)
    ensures
        (r is Ok) == (spec_parse_iso8601(date_str@) is Some),
        r matches Ok(dt) ==> Some(dt) == spec_parse_iso8601(date_str@) && dt.wf(),
        r matches Err(e) ==> e is DateError,
{
    let len = date_str.unicode_len();
    if len != 20 {
        return Err(SportError::DateError(concat2("unparsable timestamp: ", date_str)));
    }
    if !(date_str.get_char(4) == '-' && date_str.get_char(7) == '-' && date_str.get_char(10) == 'T'
        && date_str.get_char(13) == ':' && date_str.get_char(16) == ':' && date_str.get_char(19)
        == 'Z') {
        return Err(SportError::DateError(concat2("unparsable timestamp: ", date_str)));
    }
    let year = match (num2_at(date_str, 0), num2_at(date_str, 2)) {
        (Some(hi), Some(lo)) => hi * 100 + lo,
        _ => {
            return Err(SportError::DateError(concat2("unparsable timestamp: ", date_str)));
        },
    };
    let month = match num2_at(date_str, 5) {
        Some(v) => v,
        None => {
            return Err(SportError::DateError(concat2("unparsable timestamp: ", date_str)));
        },
    };
    let day = match num2_at(date_str, 8) {
        Some(v) => v,
        None => {
            return Err(SportError::DateError(concat2("unparsable timestamp: ", date_str)));
        },
    };
    let hour = match num2_at(date_str, 11) {
        Some(v) => v,
        None => {
            return Err(SportError::DateError(concat2("unparsable timestamp: ", date_str)));
        },
    };
    let minute = match num2_at(date_str, 14) {
        Some(v) => v,
        None => {
            return Err(SportError::DateError(concat2("unparsable timestamp: ", date_str)));
        },
    };
    let second = match num2_at(date_str, 17) {
        Some(v) => v,
        None => {
            return Err(SportError::DateError(concat2("unparsable timestamp: ", date_str)));
        },
    };
    let dt = DateTime { year, month, day, hour, minute, second };
    let days: u32 = if month == 1 || month == 3 || month == 5 || month == 7 || month == 8 || month
        == 10 || month == 12 {
        31
    } else if month == 4 || month == 6 || month == 9 || month == 11 {
        30
    } else if year % 4 == 0 && (year % 100 != 0 || year % 400 == 0) {
        29
    } else {
        28
    };
    if !(1 <= month && month <= 12 && 1 <= day && day <= days && hour <= 23 && minute <= 59
        && second <= 59) {
        return Err(SportError::DateError(concat2("invalid calendar date: ", date_str)));
    }
    Ok(dt)
}

/// Renders an optional score, `-` when there is none.
pub fn format_score(score: Option<u32>) -> (r: String)
    ensures
        score matches Some(v) ==> r@ == spec_dec(v as nat),
        score is None ==> r@ == "-"@,
{
    match score {
        Some(v) => u32_string(v),
        None => "-".to_owned(),
    }
}

/// The truncation of a string to at most `max_len` characters, a trailing
/// `...` marking the cut.
pub open spec fn spec_truncate(s: Seq<char>, max_len: nat) -> Seq<char> {
    if s.len() <= max_len {
        s
    } else {
        s.subrange(0, if max_len >= 3 {
            max_len - 3
        } else {
            0
        }) + "..."@
    }
}

/// Truncates a string to a maximum number of characters, appending `...`
/// when anything was cut.
pub fn truncate_string(s: &str, max_len: usize) -> (r: String)
    ensures
        r@ == spec_truncate(s@, max_len as nat),
{
    let len = s.unicode_len();
    if len <= max_len {
        s.to_owned()
    } else {
        let keep: usize = if max_len >= 3 {
            max_len - 3
        } else {
            0
        };
        let head = s.substring_char(0, keep);
        concat2(head, "...")
    }
}

/// Renders a win-loss record as `wins-losses`.
pub fn format_record(wins: u32, losses: u32) -> (r: String)
    ensures
        r@ == spec_dec(wins as nat) + "-"@ + spec_dec(losses as nat),
{
    let mut out = u32_string(wins);
    out.append("-");
    let l = u32_string(losses);
    out.append(l.as_str());
    out
}

/// How a record string parses: `wins-losses`, both unsigned decimal, and the
/// exact failure message otherwise.
pub open spec fn spec_parse_record(s: Seq<char>) -> Result<(u32, u32), Seq<char>> {
    match spec_split_once(s, '-') {
        None => Err("Invalid record format: "@ + s),
        Some(parts) => if parts.1.contains('-') {
            Err("Invalid record format: "@ + s)
        } else {
            match spec_parse_u32(parts.0) {
                None => Err("Invalid wins in record: "@ + s),
                Some(w) => match spec_parse_u32(parts.1) {
                    None => Err("Invalid losses in record: "@ + s),
                    Some(l) => Ok((w, l)),
                },
            }
        },
    }
}

/// Parses a win-loss record string such as `42-34`.
pub fn parse_record(record: &str) -> (r: Result<(u32, u32), SportError>)
    ensures
        (r is Ok) == (spec_parse_record(record@) is Ok),
        r matches Ok(v) ==> spec_parse_record(record@) == Ok::<(u32, u32), Seq<char>>(v),
        r matches Err(e) ==> (e matches SportError::FetchError(m) && spec_parse_record(record@)
            == Err::<(u32, u32), Seq<char>>(m@)),
{
    match split_once_char(record, '-') {
        None => Err(SportError::FetchError(concat2("Invalid record format: ", record))),
        Some(parts) => {
            if contains_char(parts.1.as_str(), '-') {
                return Err(SportError::FetchError(concat2("Invalid record format: ", record)));
            }
            let wins = match parse_u32(parts.0.as_str()) {
                Some(w) => w,
                None => {
                    return Err(
                        SportError::FetchError(concat2("Invalid wins in record: ", record)),
                    );
                },
            };
            let losses = match parse_u32(parts.1.as_str()) {
                Some(l) => l,
                None => {
                    return Err(
                        SportError::FetchError(concat2("Invalid losses in record: ", record)),
                    );
                },
            };
            Ok((wins, losses))
        },
    }
}

/// Which side won, by score: `0` for away, `1` for home, nothing on a tie or
/// when either score is missing.
pub open spec fn spec_determine_winner(away: Option<u32>, home: Option<u32>) -> Option<usize> {
    match (away, home) {
        (Some(a), Some(h)) => if a > h {
            Some(0usize)
        } else if a < h {
            Some(1usize)
        } else {
            None
        },
        _ => None,
    }
}

/// Compares two optional scores; returns the index of the winning side
/// (0 away, 1 home), or nothing on a tie or missing score.
pub fn determine_winner(away_score: Option<u32>, home_score: Option<u32>) -> (r: Option<usize>)
    ensures
        r == spec_determine_winner(away_score, home_score),
{
    match (away_score, home_score) {
        (Some(a), Some(h)) => if a > h {
            Some(0)
        } else if a < h {
            Some(1)
        } else {
            None
        },
        _ => None,
    }
}

/// Formats a player's name as `LAST, First`.
pub fn format_player_name(first: &str, last: &str) -> (r: String)
    ensures
        r@ == upper_of(last@) + ", "@ + first@,
{
    let upper_last = to_upper(last);
    let mut out = upper_last;
    out.append(", ");
    out.append(first);
    out
}

/// A number zero-padded to two digits.
pub open spec fn spec_pad2(n: nat) -> Seq<char> {
    if n < 10 {
        seq!['0', digit_char(n)]
    } else {
        spec_dec(n)
    }
}

fn pad2(n: u32) -> (r: String)
    ensures
        r@ == spec_pad2(n as nat),
{
    if n < 10 {
        let out = u32_string(n);
        let r = concat2("0", out.as_str());
        proof {
            reveal_strlit("0");
            assert(r@ =~= spec_pad2(n as nat));
        }
        r
    } else {
        u32_string(n)
    }
}

/// The twelve-hour clock rendering `HH:MM AM|PM` of a timestamp.
pub open spec fn spec_game_time(dt: DateTime) -> Seq<char> {
    let h12 = if dt.hour % 12 == 0 {
        12nat
    } else {
        (dt.hour % 12) as nat
    };
    spec_pad2(h12) + ":"@ + spec_pad2(dt.minute as nat) + " "@ + (if dt.hour < 12 {
        "AM"@
    } else {
        "PM"@
    })
}

/// Formats a game's start time on the twelve-hour clock.
pub fn format_game_time(date_str: &str) -> (r: Result<String, SportError>)
    ensures
        (r is Ok) == (spec_parse_iso8601(date_str@) is Some),
        r matches Ok(t) ==> (spec_parse_iso8601(date_str@) matches Some(dt) && t@ == spec_game_time(
            dt,
        )),
        r matches Err(e) ==> e is DateError,
{
    let dt = match parse_iso8601_date(date_str) {
        Ok(dt) => dt,
        Err(e) => {
            return Err(e);
        },
    };
    let rem = dt.hour % 12;
    let h12: u32 = if rem == 0 {
        12
    } else {
        rem
    };
    let mut out = pad2(h12);
    out.append(":");
    let m = pad2(dt.minute);
    out.append(m.as_str());
    out.append(" ");
    if dt.hour < 12 {
        out.append("AM");
    } else {
        out.append("PM");
    }
    Ok(out)
}

/// A permille value rendered as a rate statistic: a dot, then the value
/// zero-padded to three digits.
pub open spec fn spec_rate_string(p: nat) -> Seq<char> {
    "."@ + (if p < 10 {
        seq!['0', '0', digit_char(p)]
    } else if p < 100 {
        seq!['0'] + spec_dec(p)
    } else {
        spec_dec(p)
    })
}

/// The batting average of `hits` in `at_bats`, in permille, rounded half up.
pub open spec fn spec_average_permille(hits: nat, at_bats: nat) -> nat {
    (2000 * hits + at_bats) / (2 * at_bats)
}

/// Calculates a batting average as the formatted three-digit string, such as
/// `".333"`. Nothing is returned when there is no at-bat to divide by, or
/// when hits exceed at-bats (a rate above one is out of range).
pub fn calculate_average(hits: u32, at_bats: u32) -> (r: Option<String>)
    ensures
        (r is Some) == (at_bats > 0 && hits <= at_bats),
        r matches Some(s) ==> s@ == spec_rate_string(spec_average_permille(hits as nat, at_bats as nat)),
{
    if at_bats == 0 || hits > at_bats {
        return None;
    }
    let num: u64 = 2000u64 * (hits as u64) + (at_bats as u64);
    let den: u64 = 2u64 * (at_bats as u64);
    let p64: u64 = num / den;
    proof {
        assert(p64 <= 1000) by (nonlinear_arith)
            requires
                num == 2000 * (hits as u64) + (at_bats as u64),
                den == 2 * (at_bats as u64),
                p64 == num / den,
                hits <= at_bats,
                at_bats > 0,
        ;
    }
    let p = p64 as u32;
    let mut out = ".".to_owned();
    proof {
        assert(p64 == spec_average_permille(hits as nat, at_bats as nat)) by (nonlinear_arith)
            requires
                num == 2000 * (hits as u64) + (at_bats as u64),
                den == 2 * (at_bats as u64),
                p64 == num / den,
                at_bats > 0,
        ;
    }
    if p < 10 {
        out.append("00");
        let d = u32_string(p);
        out.append(d.as_str());
        proof {
            reveal_strlit(".");
            reveal_strlit("00");
            assert(out@ =~= spec_rate_string(p as nat));
        }
    } else if p < 100 {
        out.append("0");
        let d = u32_string(p);
        out.append(d.as_str());
        proof {
            reveal_strlit(".");
            reveal_strlit("0");
            assert(out@ =~= spec_rate_string(p as nat));
        }
    } else {
        let d = u32_string(p);
        out.append(d.as_str());
        proof {
            reveal_strlit(".");
            assert(out@ =~= spec_rate_string(p as nat));
        }
    }
    Some(out)
}

} // verus!
