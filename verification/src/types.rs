//! Small value types shared by the providers: identifiers, scores, innings
//! pitched, positions, handedness, win-loss records and uniform numbers.

use vstd::prelude::*;

verus! {

use crate::error::SportError;
use crate::strutil::{
    all_digits,
    concat2,
    contains_char,
    parse_u32,
    spec_dec,
    spec_parse_u32,
    spec_split_once,
    split_once_char,
    str_eq,
    to_upper,
    u32_string,
    upper_of,
};

/// A team identifier.
#[derive(Debug, Clone, Copy, PartialEq, Eq, Hash, Structural)]
pub struct TeamId(pub u32);

impl core::str::FromStr for TeamId {
    type Err = SportError;

    fn from_str(s: &str) -> Result<TeamId, SportError> {
        match parse_u32(s) {
            Some(v) => Ok(TeamId(v)),
            None => Err(SportError::TeamNotFound(concat2("Invalid team ID: ", s))),
        }
    }
}

/// A game identifier.
#[derive(Debug, Clone, Copy, PartialEq, Eq, Hash, Structural)]
pub struct GameId(pub u32);

impl core::str::FromStr for GameId {
    type Err = SportError;

    fn from_str(s: &str) -> Result<GameId, SportError> {
        match parse_u32(s) {
            Some(v) => Ok(GameId(v)),
            None => Err(SportError::FetchError(concat2("Invalid game ID: ", s))),
        }
    }
}

/// A game score.
#[derive(Debug, Clone, Copy, PartialEq, Eq, Structural)]
pub struct Score(pub u32);

impl Score {
    /// Renders the score in decimal.
    pub fn display(&self) -> (r: String)
        ensures
            r@ == spec_dec(self.0 as nat),
    {
        u32_string(self.0)
    }
}

/// Innings pitched: complete innings plus outs of the unfinished inning.
#[derive(Debug, Clone, PartialEq, Eq, Structural)]
pub struct InningsPitched {
    pub complete: u32,
    pub partial: u32,
}

impl InningsPitched {
    /// How an innings-pitched string parses: either a bare number of complete
    /// innings, or `complete.partial` with the partial count below three.
    pub open spec fn spec_parse(s: Seq<char>) -> Option<(u32, u32)> {
        match spec_split_once(s, '.') {
            None => match spec_parse_u32(s) {
                Some(c) => Some((c, 0)),
                None => None,
            },
            Some(parts) => if parts.1.contains('.') {
                None
            } else {
                match (spec_parse_u32(parts.0), spec_parse_u32(parts.1)) {
                    (Some(c), Some(p)) => if p < 3 {
                        Some((c, p))
                    } else {
                        None
                    },
                    _ => None,
                }
            },
        }
    }

    /// Parses an innings-pitched string such as `"6.2"`.
    pub fn new(innings: &str) -> (r: Result<InningsPitched, SportError>)
        ensures
            (r is Ok) == (Self::spec_parse(innings@) is Some),
            r matches Ok(ip) ==> Some((ip.complete, ip.partial)) == Self::spec_parse(innings@),
            r matches Err(e) ==> e is FetchError,
    {
        match split_once_char(innings, '.') {
            None => match parse_u32(innings) {
                Some(c) => Ok(InningsPitched { complete: c, partial: 0 }),
                None => Err(
                    SportError::FetchError(concat2("Invalid innings format: ", innings)),
                ),
            },
            Some(parts) => {
                if contains_char(parts.1.as_str(), '.') {
                    return Err(
                        SportError::FetchError(concat2("Invalid innings format: ", innings)),
                    );
                }
                let complete = match parse_u32(parts.0.as_str()) {
                    Some(c) => c,
                    None => {
                        return Err(
                            SportError::FetchError(concat2("Invalid innings format: ", innings)),
                        );
                    },
                };
                let partial = match parse_u32(parts.1.as_str()) {
                    Some(p) => p,
                    None => {
                        return Err(
                            SportError::FetchError(concat2("Invalid innings format: ", innings)),
                        );
                    },
                };
                if partial >= 3 {
                    let mut msg = concat2("Invalid partial innings: ", u32_string(partial).as_str());
                    msg.append(". Must be less than 3");
                    return Err(SportError::FetchError(msg));
                }
                Ok(InningsPitched { complete, partial })
            },
        }
    }

    /// The rendering of innings pitched: always one digit after the dot.
    pub open spec fn spec_display(&self) -> Seq<char> {
        if self.partial == 0 {
            spec_dec(self.complete as nat) + ".0"@
        } else {
            spec_dec(self.complete as nat) + "."@ + spec_dec(self.partial as nat)
        }
    }

    /// Renders innings pitched, `"6.0"` rather than `"6"` for whole innings.
    pub fn display(&self) -> (r: String)
        ensures
            r@ == self.spec_display(),
    {
        if self.partial == 0 {
            let mut out = u32_string(self.complete);
            out.append(".0");
            out
        } else {
            let mut out = u32_string(self.complete);
            out.append(".");
            let p = u32_string(self.partial);
            out.append(p.as_str());
            out
        }
    }
}

/// Innings pitched render and parse back to the same counts: `"6.2"` style
/// strings round-trip, and whole innings keep their `".0"` suffix.
pub proof fn lemma_innings_roundtrip(ip: InningsPitched)
    requires
        ip.partial < 3,
    ensures
        InningsPitched::spec_parse(ip.spec_display()) == Some((ip.complete, ip.partial)),
{
    let s = ip.spec_display();
    let c = spec_dec(ip.complete as nat);
    crate::strutil::lemma_dec_props(ip.complete as nat);
    crate::strutil::lemma_dec_props(ip.partial as nat);
    let dot = c.len() as int;
    if ip.partial == 0 {
        reveal_strlit(".0");
        assert(s =~= c + ".0"@);
    } else {
        reveal_strlit(".");
        assert(s =~= c + "."@ + spec_dec(ip.partial as nat));
    }
    assert(s[dot] == '.');
    assert forall|j: int| 0 <= j < dot implies s[j] != '.' by {
        assert(s[j] == c[j]);
        assert(crate::strutil::is_digit(c[j]));
    }
    s.index_of_first_ensures('.');
    assert(s.contains('.')) by {
        assert(s[dot] == '.');
    }
    let idx = s.index_of_first('.')->Some_0;
    assert(idx == dot);
    let part0 = s.subrange(0, dot);
    let part1 = s.subrange(dot + 1, s.len() as int);
    assert(part0 =~= c);
    if ip.partial == 0 {
        assert(part1 =~= spec_dec(0));
    } else {
        assert(part1 =~= spec_dec(ip.partial as nat));
    }
    assert(!part1.contains('.')) by {
        assert forall|j: int| 0 <= j < part1.len() implies part1[j] != '.' by {
            assert(crate::strutil::is_digit(part1[j]));
        }
    }
    crate::strutil::lemma_parse_u32_of_dec(ip.complete as nat);
    crate::strutil::lemma_parse_u32_of_dec(ip.partial as nat);
    crate::strutil::lemma_parse_u32_of_dec(0);
}

/// A fielding position.
#[derive(Debug, Clone, Copy, PartialEq, Eq, Structural)]
pub enum Position {
    Pitcher,
    Catcher,
    FirstBase,
    SecondBase,
    ThirdBase,
    Shortstop,
    LeftField,
    CenterField,
    RightField,
    DesignatedHitter,
    Unknown,
}

impl Position {
    /// The standard abbreviation of the position.
    pub open spec fn spec_abbreviation(&self) -> Seq<char> {
        match self {
            Position::Pitcher => "P"@,
            Position::Catcher => "C"@,
            Position::FirstBase => "1B"@,
            Position::SecondBase => "2B"@,
            Position::ThirdBase => "3B"@,
            Position::Shortstop => "SS"@,
            Position::LeftField => "LF"@,
            Position::CenterField => "CF"@,
            Position::RightField => "RF"@,
            Position::DesignatedHitter => "DH"@,
            Position::Unknown => "??"@,
        }
    }

    /// Returns the abbreviation for the position.
    pub fn abbreviation(&self) -> (r: &'static str)
        ensures
            r@ == self.spec_abbreviation(),
    {
        match self {
            Position::Pitcher => "P",
            Position::Catcher => "C",
            Position::FirstBase => "1B",
            Position::SecondBase => "2B",
            Position::ThirdBase => "3B",
            Position::Shortstop => "SS",
            Position::LeftField => "LF",
            Position::CenterField => "CF",
            Position::RightField => "RF",
            Position::DesignatedHitter => "DH",
            Position::Unknown => "??",
        }
    }

    /// Which position an uppercased abbreviation denotes; anything
    /// unrecognized is `Unknown`.
    pub open spec fn spec_of_upper(u: Seq<char>) -> Position {
        if u == "P"@ {
            Position::Pitcher
        } else if u == "C"@ {
            Position::Catcher
        } else if u == "1B"@ {
            Position::FirstBase
        } else if u == "2B"@ {
            Position::SecondBase
        } else if u == "3B"@ {
            Position::ThirdBase
        } else if u == "SS"@ {
            Position::Shortstop
        } else if u == "LF"@ {
            Position::LeftField
        } else if u == "CF"@ {
            Position::CenterField
        } else if u == "RF"@ {
            Position::RightField
        } else if u == "DH"@ {
            Position::DesignatedHitter
        } else {
            Position::Unknown
        }
    }

    /// Parses a position abbreviation, case-insensitively; never fails.
    pub fn parse(s: &str) -> (r: Position)
        ensures
            r == Self::spec_of_upper(upper_of(s@)),
    {
        let u = to_upper(s);
        let us = u.as_str();
        if str_eq(us, "P") {
            Position::Pitcher
        } else if str_eq(us, "C") {
            Position::Catcher
        } else if str_eq(us, "1B") {
            Position::FirstBase
        } else if str_eq(us, "2B") {
            Position::SecondBase
        } else if str_eq(us, "3B") {
            Position::ThirdBase
        } else if str_eq(us, "SS") {
            Position::Shortstop
        } else if str_eq(us, "LF") {
            Position::LeftField
        } else if str_eq(us, "CF") {
            Position::CenterField
        } else if str_eq(us, "RF") {
            Position::RightField
        } else if str_eq(us, "DH") {
            Position::DesignatedHitter
        } else {
            Position::Unknown
        }
    }
}

impl core::str::FromStr for Position {
    type Err = SportError;

    fn from_str(s: &str) -> Result<Position, SportError> {
        Ok(Position::parse(s))
    }
}

/// A batter's side of the plate.
#[derive(Debug, Clone, Copy, PartialEq, Eq, Structural)]
pub enum BattingSide {
    Left,
    Right,
    Switch,
    Unknown,
}

impl BattingSide {
    /// Which side an uppercased code denotes; anything unrecognized is
    /// `Unknown`.
    pub open spec fn spec_of_upper(u: Seq<char>) -> BattingSide {
        if u == "L"@ || u == "LEFT"@ {
            BattingSide::Left
        } else if u == "R"@ || u == "RIGHT"@ {
            BattingSide::Right
        } else if u == "S"@ || u == "SWITCH"@ {
            BattingSide::Switch
        } else {
            BattingSide::Unknown
        }
    }

    /// Parses a batting-side code, case-insensitively; never fails.
    pub fn parse(s: &str) -> (r: BattingSide)
        ensures
            r == Self::spec_of_upper(upper_of(s@)),
    {
        let u = to_upper(s);
        let us = u.as_str();
        if str_eq(us, "L") || str_eq(us, "LEFT") {
            BattingSide::Left
        } else if str_eq(us, "R") || str_eq(us, "RIGHT") {
            BattingSide::Right
        } else if str_eq(us, "S") || str_eq(us, "SWITCH") {
            BattingSide::Switch
        } else {
            BattingSide::Unknown
        }
    }
}

impl core::str::FromStr for BattingSide {
    type Err = SportError;

    fn from_str(s: &str) -> Result<BattingSide, SportError> {
        Ok(BattingSide::parse(s))
    }
}

/// A pitcher's throwing hand.
#[derive(Debug, Clone, Copy, PartialEq, Eq, Structural)]
pub enum ThrowingSide {
    Left,
    Right,
    Unknown,
}

impl ThrowingSide {
    /// Which hand an uppercased code denotes; anything unrecognized is
    /// `Unknown`.
    pub open spec fn spec_of_upper(u: Seq<char>) -> ThrowingSide {
        if u == "L"@ || u == "LEFT"@ {
            ThrowingSide::Left
        } else if u == "R"@ || u == "RIGHT"@ {
            ThrowingSide::Right
        } else {
            ThrowingSide::Unknown
        }
    }

    /// Parses a throwing-hand code, case-insensitively; never fails.
    pub fn parse(s: &str) -> (r: ThrowingSide)
        ensures
            r == Self::spec_of_upper(upper_of(s@)),
    {
        let u = to_upper(s);
        let us = u.as_str();
        if str_eq(us, "L") || str_eq(us, "LEFT") {
            ThrowingSide::Left
        } else if str_eq(us, "R") || str_eq(us, "RIGHT") {
            ThrowingSide::Right
        } else {
            ThrowingSide::Unknown
        }
    }
}

impl core::str::FromStr for ThrowingSide {
    type Err = SportError;

    fn from_str(s: &str) -> Result<ThrowingSide, SportError> {
        Ok(ThrowingSide::parse(s))
    }
}

/// A win-loss record.
#[derive(Debug, Clone, Copy, PartialEq, Eq, Structural)]
pub struct Record {
    pub wins: u32,
    pub losses: u32,
}

impl Record {
    /// Creates a new record.
    pub fn new(wins: u32, losses: u32) -> (r: Record)
        ensures
            r.wins == wins,
            r.losses == losses,
    {
        Record { wins, losses }
    }

    /// Renders the record as `wins-losses`.
    pub fn display(&self) -> (r: String)
        ensures
            r@ == spec_dec(self.wins as nat) + "-"@ + spec_dec(self.losses as nat),
    {
        let mut out = u32_string(self.wins);
        out.append("-");
        let l = u32_string(self.losses);
        out.append(l.as_str());
        out
    }
}

impl core::str::FromStr for Record {
    type Err = SportError;

    fn from_str(s: &str) -> Result<Record, SportError> {
        match crate::utils::parse_record(s) {
            Ok(wl) => Ok(Record { wins: wl.0, losses: wl.1 }),
            Err(e) => Err(e),
        }
    }
}

/// A player's uniform number, kept as the digit string shown on the jersey.
#[derive(Debug, Clone, PartialEq, Eq)]
pub struct UniformNumber(pub String);

impl UniformNumber {
    /// Accepts a number made of ASCII digits only (the empty string counts,
    /// as there is no digit to object to).
    pub fn new(number: &str) -> (r: Result<UniformNumber, SportError>)
        ensures
            (r is Ok) == all_digits(number@),
            r matches Ok(u) ==> u.0@ == number@,
            r matches Err(e) ==> (e matches SportError::FetchError(m) && m@ == "Invalid uniform number: "@
                + number@),
    {
        let len = number.unicode_len();
        let mut i: usize = 0;
        while i < len
            invariant
                len == number@.len(),
                i <= len,
                forall|j: int| 0 <= j < i ==> crate::strutil::is_digit(#[trigger] number@[j]),
            decreases len - i,
        {
            let c = number.get_char(i);
            if c < '0' || c > '9' {
                return Err(SportError::FetchError(concat2("Invalid uniform number: ", number)));
            }
            i = i + 1;
        }
        Ok(UniformNumber(number.to_owned()))
    }

    /// Renders the number with its leading `#`.
    pub fn display(&self) -> (r: String)
        ensures
            r@ == "#"@ + self.0@,
    {
        concat2("#", self.0.as_str())
    }
}

} // verus!
