//! Rendering of the MLB domain model into plain text. Every method states
//! the exact text it produces.

use vstd::prelude::*;

verus! {

use crate::mlb::{
    BattingStats,
    Game,
    GameInnings,
    GameStats,
    InningData,
    PitchingStats,
    Player,
    PlayerBattingStats,
    PlayerPitchingStats,
    Team,
    TeamStats,
};
use crate::strutil::{
    concat2,
    spec_dec,
    spec_pad_left,
    spec_pad_right,
    spec_parse_u32,
    spec_repeat,
    spec_split_once,
    split_once_char,
    pad_left,
    pad_right,
    str_repeat,
    u32_string,
};
use crate::utils::{spec_pad2, spec_truncate, truncate_string};
use vstd::string::StringExecFns;

/// An optional labelled line: nothing when the value is absent.
pub open spec fn opt_str_line(label: Seq<char>, v: Option<String>) -> Seq<char> {
    match v {
        Some(s) => label + s@ + "\n"@,
        None => Seq::empty(),
    }
}

/// The words the yes-no rendering uses.
pub open spec fn yes_no(b: bool) -> Seq<char> {
    if b {
        "Yes"@
    } else {
        "No"@
    }
}

fn push_opt_line(out: &mut String, label: &str, v: &Option<String>)
    ensures
        final(out)@ == old(out)@ + opt_str_line(label@, *v),
{
    match v {
        Some(s) => {
            out.append(label);
            out.append(s.as_str());
            out.append("\n");
        },
        None => {
            proof {
                assert(old(out)@ + opt_str_line(label@, *v) =~= old(out)@);
            }
        },
    }
}

/// The date part of a timestamp string: everything before the first `T`,
/// or the whole string when there is none.
pub open spec fn date_part(s: Seq<char>) -> Seq<char> {
    match spec_split_once(s, 'T') {
        Some(p) => p.0,
        None => s,
    }
}

fn date_part_exec(s: &str) -> (r: String)
    ensures
        r@ == date_part(s@),
{
    match split_once_char(s, 'T') {
        Some(p) => p.0,
        None => s.to_owned(),
    }
}

impl Player {
    /// The rendered player card, one labelled line per known fact.
    pub open spec fn spec_display(&self) -> Seq<char> {
        "Name: "@ + self.full_name@ + "\n"@ + opt_str_line("Number: "@, self.primary_number) + (
        match self.position {
            Some(pos) => "Position: "@ + pos.name@ + " ("@ + pos.abbreviation@ + ")\n"@,
            None => Seq::empty(),
        }) + (match self.current_age {
            Some(a) => "Age: "@ + spec_dec(a as nat) + "\n"@,
            None => Seq::empty(),
        }) + opt_str_line("Birth Date: "@, self.birth_date) + (match (
            self.birth_city,
            self.birth_country,
        ) {
            (Some(c), Some(k)) => "Birthplace: "@ + c@ + ", "@ + k@ + "\n"@,
            _ => Seq::empty(),
        }) + (match (self.height, self.weight) {
            (Some(h), Some(w)) => "Height/Weight: "@ + h@ + " / "@ + spec_dec(w as nat)
                + " lbs\n"@,
            _ => Seq::empty(),
        }) + (match self.bat_side {
            Some(b) => "Bats: "@ + b.description@ + "\n"@,
            None => Seq::empty(),
        }) + (match self.pitch_hand {
            Some(b) => "Throws: "@ + b.description@ + "\n"@,
            None => Seq::empty(),
        }) + opt_str_line("MLB Debut: "@, self.mlb_debut_date) + opt_str_line(
            "Nickname: "@,
            self.nick_name,
        ) + (match self.active {
            Some(a) => "Active: "@ + yes_no(a) + "\n"@,
            None => Seq::empty(),
        })
    }

    /// Renders the player as a card of labelled lines.
    #[verifier::rlimit(100)]
    pub fn display(&self) -> (r: String)
        ensures
            r@ == self.spec_display(),
    {
        let mut out = "Name: ".to_owned();
        out.append(self.full_name.as_str());
        out.append("\n");
        let ghost mut acc: Seq<char> = "Name: "@ + self.full_name@ + "\n"@;
        proof {
            assert(out@ =~= acc);
        }
        push_opt_line(&mut out, "Number: ", &self.primary_number);
        proof {
            acc = acc + opt_str_line("Number: "@, self.primary_number);
        }
        match &self.position {
            Some(pos) => {
                let mut seg = "Position: ".to_owned();
                seg.append(pos.name.as_str());
                seg.append(" (");
                seg.append(pos.abbreviation.as_str());
                seg.append(")\n");
                proof {
                    assert(seg@ =~= "Position: "@ + pos.name@ + " ("@ + pos.abbreviation@
                        + ")\n"@);
                }
                out.append(seg.as_str());
            },
            None => {},
        }
        proof {
            acc = acc + (match &self.position {
                Some(pos) => "Position: "@ + pos.name@ + " ("@ + pos.abbreviation@ + ")\n"@,
                None => Seq::empty(),
            });
            assert(out@ == acc);
        }
        match self.current_age {
            Some(a) => {
                let mut seg = "Age: ".to_owned();
                let d = u32_string(a);
                seg.append(d.as_str());
                seg.append("\n");
                proof {
                    assert(seg@ =~= "Age: "@ + spec_dec(a as nat) + "\n"@);
                }
                out.append(seg.as_str());
            },
            None => {},
        }
        proof {
            acc = acc + (match self.current_age {
                Some(a) => "Age: "@ + spec_dec(a as nat) + "\n"@,
                None => Seq::empty(),
            });
            assert(out@ == acc);
        }
        push_opt_line(&mut out, "Birth Date: ", &self.birth_date);
        proof {
            acc = acc + opt_str_line("Birth Date: "@, self.birth_date);
        }
        match (&self.birth_city, &self.birth_country) {
            (Some(c), Some(k)) => {
                let mut seg = "Birthplace: ".to_owned();
                seg.append(c.as_str());
                seg.append(", ");
                seg.append(k.as_str());
                seg.append("\n");
                proof {
                    assert(seg@ =~= "Birthplace: "@ + c@ + ", "@ + k@ + "\n"@);
                }
                out.append(seg.as_str());
            },
            _ => {},
        }
        proof {
            acc = acc + (match (&self.birth_city, &self.birth_country) {
                (Some(c), Some(k)) => "Birthplace: "@ + c@ + ", "@ + k@ + "\n"@,
                _ => Seq::empty(),
            });
            assert(out@ == acc);
        }
        match (&self.height, self.weight) {
            (Some(h), Some(w)) => {
                let mut seg = "Height/Weight: ".to_owned();
                seg.append(h.as_str());
                seg.append(" / ");
                let d = u32_string(w);
                seg.append(d.as_str());
                seg.append(" lbs\n");
                proof {
                    assert(seg@ =~= "Height/Weight: "@ + h@ + " / "@ + spec_dec(w as nat)
                        + " lbs\n"@);
                }
                out.append(seg.as_str());
            },
            _ => {},
        }
        proof {
            acc = acc + (match (&self.height, self.weight) {
                (Some(h), Some(w)) => "Height/Weight: "@ + h@ + " / "@ + spec_dec(w as nat)
                    + " lbs\n"@,
                _ => Seq::empty(),
            });
            assert(out@ == acc);
        }
        match &self.bat_side {
            Some(b) => {
                let mut seg = "Bats: ".to_owned();
                seg.append(b.description.as_str());
                seg.append("\n");
                proof {
                    assert(seg@ =~= "Bats: "@ + b.description@ + "\n"@);
                }
                out.append(seg.as_str());
            },
            None => {},
        }
        proof {
            acc = acc + (match &self.bat_side {
                Some(b) => "Bats: "@ + b.description@ + "\n"@,
                None => Seq::empty(),
            });
            assert(out@ == acc);
        }
        match &self.pitch_hand {
            Some(b) => {
                let mut seg = "Throws: ".to_owned();
                seg.append(b.description.as_str());
                seg.append("\n");
                proof {
                    assert(seg@ =~= "Throws: "@ + b.description@ + "\n"@);
                }
                out.append(seg.as_str());
            },
            None => {},
        }
        proof {
            acc = acc + (match &self.pitch_hand {
                Some(b) => "Throws: "@ + b.description@ + "\n"@,
                None => Seq::empty(),
            });
            assert(out@ == acc);
        }
        push_opt_line(&mut out, "MLB Debut: ", &self.mlb_debut_date);
        proof {
            acc = acc + opt_str_line("MLB Debut: "@, self.mlb_debut_date);
        }
        push_opt_line(&mut out, "Nickname: ", &self.nick_name);
        proof {
            acc = acc + opt_str_line("Nickname: "@, self.nick_name);
        }
        match self.active {
            Some(a) => {
                let mut seg = "Active: ".to_owned();
                if a {
                    seg.append("Yes");
                } else {
                    seg.append("No");
                }
                seg.append("\n");
                proof {
                    assert(seg@ =~= "Active: "@ + yes_no(a) + "\n"@);
                }
                out.append(seg.as_str());
            },
            None => {},
        }
        proof {
            acc = acc + (match self.active {
                Some(a) => "Active: "@ + yes_no(a) + "\n"@,
                None => Seq::empty(),
            });
            assert(out@ == acc);
            assert(acc == self.spec_display());
        }
        out
    }
}

impl Team {
    /// The rendered team card.
    pub open spec fn spec_display(&self) -> Seq<char> {
        "Team: "@ + self.name@ + "\n"@ + (match (self.location_name, self.team_name) {
            (Some(l), Some(t)) => "Location/Name: "@ + l@ + " "@ + t@ + "\n"@,
            _ => Seq::empty(),
        }) + opt_str_line("Abbreviation: "@, self.abbreviation) + (match self.venue {
            Some(v) => "Venue: "@ + v.name@ + "\n"@,
            None => Seq::empty(),
        }) + (match (self.league, self.division) {
            (Some(l), Some(d)) => "League/Division: "@ + l.name@ + " / "@ + d.name@ + "\n"@,
            _ => Seq::empty(),
        }) + opt_str_line("First Year of Play: "@, self.first_year_of_play) + (
        match self.active {
            Some(a) => "Active: "@ + yes_no(a) + "\n"@,
            None => Seq::empty(),
        })
    }

    /// Renders the team as a card of labelled lines.
    #[verifier::rlimit(100)]
    pub fn display(&self) -> (r: String)
        ensures
            r@ == self.spec_display(),
    {
        let mut out = "Team: ".to_owned();
        out.append(self.name.as_str());
        out.append("\n");
        let ghost mut acc: Seq<char> = "Team: "@ + self.name@ + "\n"@;
        proof {
            assert(out@ =~= acc);
        }
        match (&self.location_name, &self.team_name) {
            (Some(l), Some(t)) => {
                let mut seg = "Location/Name: ".to_owned();
                seg.append(l.as_str());
                seg.append(" ");
                seg.append(t.as_str());
                seg.append("\n");
                proof {
                    assert(seg@ =~= "Location/Name: "@ + l@ + " "@ + t@ + "\n"@);
                }
                out.append(seg.as_str());
            },
            _ => {},
        }
        proof {
            acc = acc + (match (&self.location_name, &self.team_name) {
                (Some(l), Some(t)) => "Location/Name: "@ + l@ + " "@ + t@ + "\n"@,
                _ => Seq::empty(),
            });
            assert(out@ == acc);
        }
        push_opt_line(&mut out, "Abbreviation: ", &self.abbreviation);
        proof {
            acc = acc + opt_str_line("Abbreviation: "@, self.abbreviation);
        }
        match &self.venue {
            Some(v) => {
                let mut seg = "Venue: ".to_owned();
                seg.append(v.name.as_str());
                seg.append("\n");
                proof {
                    assert(seg@ =~= "Venue: "@ + v.name@ + "\n"@);
                }
                out.append(seg.as_str());
            },
            None => {},
        }
        proof {
            acc = acc + (match &self.venue {
                Some(v) => "Venue: "@ + v.name@ + "\n"@,
                None => Seq::empty(),
            });
            assert(out@ == acc);
        }
        match (&self.league, &self.division) {
            (Some(l), Some(d)) => {
                let mut seg = "League/Division: ".to_owned();
                seg.append(l.name.as_str());
                seg.append(" / ");
                seg.append(d.name.as_str());
                seg.append("\n");
                proof {
                    assert(seg@ =~= "League/Division: "@ + l.name@ + " / "@ + d.name@ + "\n"@);
                }
                out.append(seg.as_str());
            },
            _ => {},
        }
        proof {
            acc = acc + (match (&self.league, &self.division) {
                (Some(l), Some(d)) => "League/Division: "@ + l.name@ + " / "@ + d.name@ + "\n"@,
                _ => Seq::empty(),
            });
            assert(out@ == acc);
        }
        push_opt_line(&mut out, "First Year of Play: ", &self.first_year_of_play);
        proof {
            acc = acc + opt_str_line("First Year of Play: "@, self.first_year_of_play);
        }
        match self.active {
            Some(a) => {
                let mut seg = "Active: ".to_owned();
                if a {
                    seg.append("Yes");
                } else {
                    seg.append("No");
                }
                seg.append("\n");
                proof {
                    assert(seg@ =~= "Active: "@ + yes_no(a) + "\n"@);
                }
                out.append(seg.as_str());
            },
            None => {},
        }
        proof {
            acc = acc + (match self.active {
                Some(a) => "Active: "@ + yes_no(a) + "\n"@,
                None => Seq::empty(),
            });
            assert(out@ == acc);
            assert(acc == self.spec_display());
        }
        out
    }
}

impl Game {
    /// The rendered game summary: id, date, status, both sides with their
    /// locations and scores (zero when unknown), and the venue if any.
    pub open spec fn spec_display(&self) -> Seq<char> {
        let away_loc = match self.teams.away.team.location_name {
            Some(l) => l@,
            None => Seq::empty(),
        };
        let home_loc = match self.teams.home.team.location_name {
            Some(l) => l@,
            None => Seq::empty(),
        };
        let away_score = match self.teams.away.score {
            Some(s) => s,
            None => 0,
        };
        let home_score = match self.teams.home.score {
            Some(s) => s,
            None => 0,
        };
        "Game ID: "@ + spec_dec(self.game_pk as nat) + "\n"@ + "Date: "@ + date_part(
            self.game_date@,
        ) + "\n"@ + "Status: "@ + self.status.spec_name() + "\n"@ + "Teams:\n"@ + "  Away: "@
            + away_loc + " "@ + self.teams.away.team.name@ + " ("@ + spec_dec(away_score as nat)
            + ")\n"@ + "  Home: "@ + home_loc + " "@ + self.teams.home.team.name@ + " ("@
            + spec_dec(home_score as nat) + ")\n"@ + (match self.venue {
            Some(v) => "Venue: "@ + v.name@ + "\n"@,
            None => Seq::empty(),
        })
    }

    /// Renders the game summary.
    #[verifier::rlimit(100)]
    pub fn display(&self) -> (r: String)
        ensures
            r@ == self.spec_display(),
    {
        let mut out = "Game ID: ".to_owned();
        let pk = u32_string(self.game_pk);
        out.append(pk.as_str());
        out.append("\n");
        out.append("Date: ");
        let date = date_part_exec(self.game_date.as_str());
        out.append(date.as_str());
        out.append("\n");
        out.append("Status: ");
        out.append(self.status.abstract_game_state());
        out.append("\n");
        out.append("Teams:\n");
        out.append("  Away: ");
        match &self.teams.away.team.location_name {
            Some(l) => {
                out.append(l.as_str());
            },
            None => {},
        }
        out.append(" ");
        out.append(self.teams.away.team.name.as_str());
        out.append(" (");
        let ascore = u32_string(
            match self.teams.away.score {
                Some(s) => s,
                None => 0,
            },
        );
        out.append(ascore.as_str());
        out.append(")\n");
        out.append("  Home: ");
        match &self.teams.home.team.location_name {
            Some(l) => {
                out.append(l.as_str());
            },
            None => {},
        }
        out.append(" ");
        out.append(self.teams.home.team.name.as_str());
        out.append(" (");
        let hscore = u32_string(
            match self.teams.home.score {
                Some(s) => s,
                None => 0,
            },
        );
        out.append(hscore.as_str());
        out.append(")\n");
        match &self.venue {
            Some(v) => {
                out.append("Venue: ");
                out.append(v.name.as_str());
                out.append("\n");
            },
            None => {},
        }
        proof {
            assert(out@ =~= self.spec_display());
        }
        out
    }
}

impl BattingStats {
    /// The rendered aggregate batting line.
    pub open spec fn spec_display(&self) -> Seq<char> {
        "R: "@ + spec_dec(self.runs as nat) + ", H: "@ + spec_dec(self.hits as nat) + ", HR: "@
            + spec_dec(self.home_runs as nat) + ", RBI: "@ + spec_dec(self.rbi as nat) + ", SB: "@
            + spec_dec(self.stolen_bases as nat) + ", AVG: "@ + self.avg@ + ", OBP: "@ + self.obp@
            + ", SLG: "@ + self.slg@ + ", OPS: "@ + self.ops@
    }

    /// Renders the aggregate batting line.
    pub fn display(&self) -> (r: String)
        ensures
            r@ == self.spec_display(),
    {
        let mut out = "R: ".to_owned();
        let d = u32_string(self.runs);
        out.append(d.as_str());
        out.append(", H: ");
        let d = u32_string(self.hits);
        out.append(d.as_str());
        out.append(", HR: ");
        let d = u32_string(self.home_runs);
        out.append(d.as_str());
        out.append(", RBI: ");
        let d = u32_string(self.rbi);
        out.append(d.as_str());
        out.append(", SB: ");
        let d = u32_string(self.stolen_bases);
        out.append(d.as_str());
        out.append(", AVG: ");
        out.append(self.avg.as_str());
        out.append(", OBP: ");
        out.append(self.obp.as_str());
        out.append(", SLG: ");
        out.append(self.slg.as_str());
        out.append(", OPS: ");
        out.append(self.ops.as_str());
        proof {
            assert(out@ =~= self.spec_display());
        }
        out
    }
}

impl PitchingStats {
    /// The rendered aggregate pitching line.
    pub open spec fn spec_display(&self) -> Seq<char> {
        "IP: "@ + self.innings_pitched@ + ", H: "@ + spec_dec(self.hits_allowed as nat) + ", R: "@
            + spec_dec(self.runs_allowed as nat) + ", ER: "@ + spec_dec(self.earned_runs as nat)
            + ", BB: "@ + spec_dec(self.walks as nat) + ", SO: "@ + spec_dec(self.strikeouts as nat)
            + ", HR: "@ + spec_dec(self.home_runs_allowed as nat) + ", ERA: "@ + self.era@
    }

    /// Renders the aggregate pitching line.
    pub fn display(&self) -> (r: String)
        ensures
            r@ == self.spec_display(),
    {
        let mut out = "IP: ".to_owned();
        out.append(self.innings_pitched.as_str());
        out.append(", H: ");
        let d = u32_string(self.hits_allowed);
        out.append(d.as_str());
        out.append(", R: ");
        let d = u32_string(self.runs_allowed);
        out.append(d.as_str());
        out.append(", ER: ");
        let d = u32_string(self.earned_runs);
        out.append(d.as_str());
        out.append(", BB: ");
        let d = u32_string(self.walks);
        out.append(d.as_str());
        out.append(", SO: ");
        let d = u32_string(self.strikeouts);
        out.append(d.as_str());
        out.append(", HR: ");
        let d = u32_string(self.home_runs_allowed);
        out.append(d.as_str());
        out.append(", ERA: ");
        out.append(self.era.as_str());
        proof {
            assert(out@ =~= self.spec_display());
        }
        out
    }
}

/// A number of complete innings and outs read from an innings string as the
/// fallback ERA computation reads it: `complete.partial` gives thirds, a
/// bare number gives whole innings, anything unreadable gives zero.
pub open spec fn spec_innings_thirds(s: Seq<char>) -> nat {
    match spec_split_once(s, '.') {
        Some(p) => {
            let c = match spec_parse_u32(p.0) {
                Some(v) => v as nat,
                None => 0,
            };
            let f = match spec_parse_u32(p.1) {
                Some(v) => v as nat,
                None => 0,
            };
            if p.1.contains('.') {
                0
            } else {
                3 * c + f
            }
        },
        None => match spec_parse_u32(s) {
            Some(v) => 3 * (v as nat),
            None => 0,
        },
    }
}

fn innings_thirds(s: &str) -> (r: u64)
    ensures
        r == spec_innings_thirds(s@),
{
    match split_once_char(s, '.') {
        Some(p) => {
            if crate::strutil::contains_char(p.1.as_str(), '.') {
                return 0;
            }
            let c: u64 = match crate::strutil::parse_u32(p.0.as_str()) {
                Some(v) => v as u64,
                None => 0,
            };
            let f: u64 = match crate::strutil::parse_u32(p.1.as_str()) {
                Some(v) => v as u64,
                None => 0,
            };
            3 * c + f
        },
        None => match crate::strutil::parse_u32(s) {
            Some(v) => 3 * (v as u64),
            None => 0,
        },
    }
}

/// A count of hundredths rendered with two decimals, as `{:.2}` renders an
/// exact value.
pub open spec fn spec_two_dec(h: nat) -> Seq<char> {
    spec_dec(h / 100) + "."@ + spec_pad2(h % 100)
}

impl PlayerBattingStats {
    /// The batting average column: the provided string, else the average
    /// computed from hits and at-bats in permille rounded half up (with the
    /// empty `.000` collapsed to the placeholder), else the placeholder.
    pub open spec fn spec_avg_text(&self) -> Seq<char> {
        match self.avg {
            Some(a) => a@,
            None => {
                if self.at_bats > 0 {
                    let p = (2000 * self.hits + self.at_bats) as nat / (2 * self.at_bats) as nat;
                    if p == 0 {
                        "---"@
                    } else {
                        crate::utils::spec_rate_string(p)
                    }
                } else {
                    "---"@
                }
            },
        }
    }

    /// The rendered batter line: padded columns in roster-card order.
    pub open spec fn spec_display(&self) -> Seq<char> {
        let obp = match self.obp {
            Some(o) => o@,
            None => "---"@,
        };
        let slg = match self.slg {
            Some(o) => o@,
            None => "---"@,
        };
        spec_pad_right(spec_truncate(self.name@, 25), 25) + " "@ + spec_pad_right(
            spec_dec(self.at_bats as nat),
            7,
        ) + " "@ + spec_pad_right(spec_dec(self.hits as nat), 3) + " "@ + spec_pad_right(
            spec_dec(self.runs as nat),
            3,
        ) + " "@ + spec_pad_right(spec_dec(self.home_runs as nat), 3) + " "@ + spec_pad_right(
            spec_dec(self.rbi as nat),
            3,
        ) + " "@ + spec_pad_right(self.spec_avg_text(), 5) + " "@ + spec_pad_right(obp, 5) + " "@
            + spec_pad_right(slg, 5)
    }

    /// Renders the batter line.
    #[verifier::rlimit(100)]
    pub fn display(&self) -> (r: String)
        ensures
            r@ == self.spec_display(),
    {
        let avg: String = match &self.avg {
            Some(a) => a.clone(),
            None => {
                if self.at_bats > 0 {
                    let num: u64 = 2000u64 * (self.hits as u64) + (self.at_bats as u64);
                    let den: u64 = 2u64 * (self.at_bats as u64);
                    let p64: u64 = num / den;
                    proof {
                        assert(p64 == (2000 * self.hits + self.at_bats) as nat / (2
                            * self.at_bats) as nat) by (nonlinear_arith)
                            requires
                                num == 2000 * (self.hits as u64) + (self.at_bats as u64),
                                den == 2 * (self.at_bats as u64),
                                p64 == num / den,
                                self.at_bats > 0,
                        ;
                        assert(p64 <= 2000 * 0x1_0000_0000) by (nonlinear_arith)
                            requires
                                num == 2000 * (self.hits as u64) + (self.at_bats as u64),
                                den == 2 * (self.at_bats as u64),
                                p64 == num / den,
                                self.at_bats > 0,
                                self.hits <= u32::MAX,
                                self.at_bats <= u32::MAX,
                        ;
                    }
                    if p64 == 0 {
                        "---".to_owned()
                    } else {
                        rate_string_u64(p64)
                    }
                } else {
                    "---".to_owned()
                }
            },
        };
        let name = truncate_string(self.name.as_str(), 25);
        let mut out = pad_right(name.as_str(), 25);
        out.append(" ");
        let c = u32_string(self.at_bats);
        let c = pad_right(c.as_str(), 7);
        out.append(c.as_str());
        out.append(" ");
        let c = u32_string(self.hits);
        let c = pad_right(c.as_str(), 3);
        out.append(c.as_str());
        out.append(" ");
        let c = u32_string(self.runs);
        let c = pad_right(c.as_str(), 3);
        out.append(c.as_str());
        out.append(" ");
        let c = u32_string(self.home_runs);
        let c = pad_right(c.as_str(), 3);
        out.append(c.as_str());
        out.append(" ");
        let c = u32_string(self.rbi);
        let c = pad_right(c.as_str(), 3);
        out.append(c.as_str());
        out.append(" ");
        let c = pad_right(avg.as_str(), 5);
        out.append(c.as_str());
        out.append(" ");
        let obp: String = match &self.obp {
            Some(o) => o.clone(),
            None => "---".to_owned(),
        };
        let c = pad_right(obp.as_str(), 5);
        out.append(c.as_str());
        out.append(" ");
        let slg: String = match &self.slg {
            Some(o) => o.clone(),
            None => "---".to_owned(),
        };
        let c = pad_right(slg.as_str(), 5);
        out.append(c.as_str());
        proof {
            assert(out@ =~= self.spec_display());
        }
        out
    }
}

fn rate_string_u64(p: u64) -> (r: String)
    ensures
        r@ == crate::utils::spec_rate_string(p as nat),
{
    let mut out = ".".to_owned();
    if p < 10 {
        out.append("00");
        let d = crate::strutil::u64_string(p);
        out.append(d.as_str());
        proof {
            reveal_strlit(".");
            reveal_strlit("00");
            assert(out@ =~= crate::utils::spec_rate_string(p as nat));
        }
    } else if p < 100 {
        out.append("0");
        let d = crate::strutil::u64_string(p);
        out.append(d.as_str());
        proof {
            reveal_strlit(".");
            reveal_strlit("0");
            assert(out@ =~= crate::utils::spec_rate_string(p as nat));
        }
    } else {
        let d = crate::strutil::u64_string(p);
        out.append(d.as_str());
        proof {
            reveal_strlit(".");
            assert(out@ =~= crate::utils::spec_rate_string(p as nat));
        }
    }
    out
}

impl PlayerPitchingStats {
    /// The ERA column: the provided string, else the earned-run average
    /// computed from earned runs over the innings string, in hundredths
    /// rounded half up, else the placeholder when no innings were pitched.
    pub open spec fn spec_era_text(&self) -> Seq<char> {
        match self.era {
            Some(e) => e@,
            None => {
                let thirds = spec_innings_thirds(self.innings_pitched@);
                if thirds > 0 {
                    spec_two_dec(
                        ((2 * 2700 * self.earned_runs) as nat + thirds) / (2 * thirds),
                    )
                } else {
                    "-.--"@
                }
            },
        }
    }

    /// The rendered pitcher line: padded columns in roster-card order.
    pub open spec fn spec_display(&self) -> Seq<char> {
        spec_pad_right(spec_truncate(self.name@, 25), 25) + " "@ + spec_pad_right(
            self.innings_pitched@,
            5,
        ) + " "@ + spec_pad_right(spec_dec(self.hits_allowed as nat), 3) + " "@ + spec_pad_right(
            spec_dec(self.runs_allowed as nat),
            3,
        ) + " "@ + spec_pad_right(spec_dec(self.earned_runs as nat), 3) + " "@ + spec_pad_right(
            spec_dec(self.walks as nat),
            3,
        ) + " "@ + spec_pad_right(spec_dec(self.strikeouts as nat), 3) + " "@ + spec_pad_right(
            self.spec_era_text(),
            5,
        )
    }

    /// Renders the pitcher line.
    #[verifier::rlimit(100)]
    pub fn display(&self) -> (r: String)
        ensures
            r@ == self.spec_display(),
    {
        let era: String = match &self.era {
            Some(e) => e.clone(),
            None => {
                let thirds = innings_thirds(self.innings_pitched.as_str());
                if thirds > 0 {
                    let num: u64 = 2u64 * 2700u64 * (self.earned_runs as u64) + thirds;
                    let den: u64 = 2u64 * thirds;
                    let h: u64 = num / den;
                    proof {
                        assert(h == ((2 * 2700 * self.earned_runs) as nat + thirds as nat) / (2
                            * thirds as nat)) by (nonlinear_arith)
                            requires
                                num == 2 * 2700 * (self.earned_runs as u64) + thirds,
                                den == 2 * thirds,
                                h == num / den,
                                thirds > 0,
                        ;
                    }
                    two_dec(h)
                } else {
                    "-.--".to_owned()
                }
            },
        };
        let name = truncate_string(self.name.as_str(), 25);
        let mut out = pad_right(name.as_str(), 25);
        out.append(" ");
        let c = pad_right(self.innings_pitched.as_str(), 5);
        out.append(c.as_str());
        out.append(" ");
        let c = u32_string(self.hits_allowed);
        let c = pad_right(c.as_str(), 3);
        out.append(c.as_str());
        out.append(" ");
        let c = u32_string(self.runs_allowed);
        let c = pad_right(c.as_str(), 3);
        out.append(c.as_str());
        out.append(" ");
        let c = u32_string(self.earned_runs);
        let c = pad_right(c.as_str(), 3);
        out.append(c.as_str());
        out.append(" ");
        let c = u32_string(self.walks);
        let c = pad_right(c.as_str(), 3);
        out.append(c.as_str());
        out.append(" ");
        let c = u32_string(self.strikeouts);
        let c = pad_right(c.as_str(), 3);
        out.append(c.as_str());
        out.append(" ");
        let c = pad_right(era.as_str(), 5);
        out.append(c.as_str());
        proof {
            assert(out@ =~= self.spec_display());
        }
        out
    }
}

fn two_dec(h: u64) -> (r: String)
    ensures
        r@ == spec_two_dec(h as nat),
{
    let mut out = crate::strutil::u64_string(h / 100);
    out.append(".");
    let rem = (h % 100) as u32;
    if rem < 10 {
        out.append("0");
        let d = u32_string(rem);
        out.append(d.as_str());
    } else {
        let d = u32_string(rem);
        out.append(d.as_str());
    }
    proof {
        reveal_strlit(".");
        reveal_strlit("0");
        assert(out@ =~= spec_two_dec(h as nat));
    }
    out
}

/// The batter rows of a team's card, one indented line each.
pub open spec fn batter_rows(batters: Seq<PlayerBattingStats>, i: int) -> Seq<char>
    decreases batters.len() - i,
{
    if i < 0 || i >= batters.len() {
        Seq::empty()
    } else {
        "    "@ + batters[i].spec_display() + "\n"@ + batter_rows(batters, i + 1)
    }
}

fn batter_rows_exec(batters: &Vec<PlayerBattingStats>, i: usize) -> (r: String)
    requires
        i <= batters@.len(),
    ensures
        r@ == batter_rows(batters@, i as int),
    decreases batters@.len() - i,
{
    if i >= batters.len() {
        String::new()
    } else {
        let mut out = "    ".to_owned();
        let line = batters[i].display();
        out.append(line.as_str());
        out.append("\n");
        let rest = batter_rows_exec(batters, i + 1);
        out.append(rest.as_str());
        proof {
            assert(out@ =~= batter_rows(batters@, i as int));
        }
        out
    }
}

/// The pitcher rows of a team's card, one indented line each.
pub open spec fn pitcher_rows(pitchers: Seq<PlayerPitchingStats>, i: int) -> Seq<char>
    decreases pitchers.len() - i,
{
    if i < 0 || i >= pitchers.len() {
        Seq::empty()
    } else {
        "    "@ + pitchers[i].spec_display() + "\n"@ + pitcher_rows(pitchers, i + 1)
    }
}

fn pitcher_rows_exec(pitchers: &Vec<PlayerPitchingStats>, i: usize) -> (r: String)
    requires
        i <= pitchers@.len(),
    ensures
        r@ == pitcher_rows(pitchers@, i as int),
    decreases pitchers@.len() - i,
{
    if i >= pitchers.len() {
        String::new()
    } else {
        let mut out = "    ".to_owned();
        let line = pitchers[i].display();
        out.append(line.as_str());
        out.append("\n");
        let rest = pitcher_rows_exec(pitchers, i + 1);
        out.append(rest.as_str());
        proof {
            assert(out@ =~= pitcher_rows(pitchers@, i as int));
        }
        out
    }
}

impl TeamStats {
    /// The rendered team card: name, aggregate lines, then the batter and
    /// pitcher tables when they have rows.
    pub open spec fn spec_display(&self) -> Seq<char> {
        self.team_name@ + "\n"@ + "  BATTING: "@ + self.batting.spec_display() + "\n"@
            + "  PITCHING: "@ + self.pitching.spec_display() + "\n"@ + (if self.batters@.len()
            > 0 {
            "  BATTERS:\n"@ + "    "@ + spec_pad_right("NAME"@, 25) + " "@ + spec_pad_right(
                "AB"@,
                7,
            ) + " "@ + spec_pad_right("H"@, 3) + " "@ + spec_pad_right("R"@, 3) + " "@
                + spec_pad_right("HR"@, 3) + " "@ + spec_pad_right("RBI"@, 3) + " "@
                + spec_pad_right("AVG"@, 5) + " "@ + spec_pad_right("OBP"@, 5) + " "@
                + spec_pad_right("SLG"@, 5) + "\n"@ + "    "@ + spec_repeat("-"@, 70) + "\n"@
                + batter_rows(self.batters@, 0)
        } else {
            Seq::empty()
        }) + (if self.pitchers@.len() > 0 {
            "  PITCHERS:\n"@ + "    "@ + spec_pad_right("NAME"@, 25) + " "@ + spec_pad_right(
                "IP"@,
                5,
            ) + " "@ + spec_pad_right("H"@, 3) + " "@ + spec_pad_right("R"@, 3) + " "@
                + spec_pad_right("ER"@, 3) + " "@ + spec_pad_right("BB"@, 3) + " "@
                + spec_pad_right("K"@, 3) + " "@ + spec_pad_right("ERA"@, 5) + "\n"@ + "    "@
                + spec_repeat("-"@, 60) + "\n"@ + pitcher_rows(self.pitchers@, 0)
        } else {
            Seq::empty()
        })
    }

    /// Renders the team card.
    #[verifier::rlimit(100)]
    pub fn display(&self) -> (r: String)
        ensures
            r@ == self.spec_display(),
    {
        let mut out = self.team_name.clone();
        out.append("\n");
        out.append("  BATTING: ");
        let line = self.batting.display();
        out.append(line.as_str());
        out.append("\n");
        out.append("  PITCHING: ");
        let line = self.pitching.display();
        out.append(line.as_str());
        out.append("\n");
        let ghost mut acc: Seq<char> = self.team_name@ + "\n"@ + "  BATTING: "@
            + self.batting.spec_display() + "\n"@ + "  PITCHING: "@ + self.pitching.spec_display()
            + "\n"@;
        proof {
            assert(out@ =~= acc);
        }
        if self.batters.len() > 0 {
            let mut seg = "  BATTERS:\n".to_owned();
            seg.append("    ");
            let c = pad_right("NAME", 25);
            seg.append(c.as_str());
            seg.append(" ");
            let c = pad_right("AB", 7);
            seg.append(c.as_str());
            seg.append(" ");
            let c = pad_right("H", 3);
            seg.append(c.as_str());
            seg.append(" ");
            let c = pad_right("R", 3);
            seg.append(c.as_str());
            seg.append(" ");
            let c = pad_right("HR", 3);
            seg.append(c.as_str());
            seg.append(" ");
            let c = pad_right("RBI", 3);
            seg.append(c.as_str());
            seg.append(" ");
            let c = pad_right("AVG", 5);
            seg.append(c.as_str());
            seg.append(" ");
            let c = pad_right("OBP", 5);
            seg.append(c.as_str());
            seg.append(" ");
            let c = pad_right("SLG", 5);
            seg.append(c.as_str());
            seg.append("\n");
            seg.append("    ");
            let dashes = str_repeat("-", 70);
            seg.append(dashes.as_str());
            seg.append("\n");
            let rows = batter_rows_exec(&self.batters, 0);
            seg.append(rows.as_str());
            proof {
                assert(seg@ =~= "  BATTERS:\n"@ + "    "@ + spec_pad_right("NAME"@, 25) + " "@
                    + spec_pad_right("AB"@, 7) + " "@ + spec_pad_right("H"@, 3) + " "@
                    + spec_pad_right("R"@, 3) + " "@ + spec_pad_right("HR"@, 3) + " "@
                    + spec_pad_right("RBI"@, 3) + " "@ + spec_pad_right("AVG"@, 5) + " "@
                    + spec_pad_right("OBP"@, 5) + " "@ + spec_pad_right("SLG"@, 5) + "\n"@
                    + "    "@ + spec_repeat("-"@, 70) + "\n"@ + batter_rows(self.batters@, 0));
            }
            out.append(seg.as_str());
        }
        proof {
            acc = acc + (if self.batters@.len() > 0 {
                "  BATTERS:\n"@ + "    "@ + spec_pad_right("NAME"@, 25) + " "@ + spec_pad_right(
                    "AB"@,
                    7,
                ) + " "@ + spec_pad_right("H"@, 3) + " "@ + spec_pad_right("R"@, 3) + " "@
                    + spec_pad_right("HR"@, 3) + " "@ + spec_pad_right("RBI"@, 3) + " "@
                    + spec_pad_right("AVG"@, 5) + " "@ + spec_pad_right("OBP"@, 5) + " "@
                    + spec_pad_right("SLG"@, 5) + "\n"@ + "    "@ + spec_repeat("-"@, 70) + "\n"@
                    + batter_rows(self.batters@, 0)
            } else {
                Seq::empty()
            });
            assert(out@ == acc);
        }
        if self.pitchers.len() > 0 {
            let mut seg = "  PITCHERS:\n".to_owned();
            seg.append("    ");
            let c = pad_right("NAME", 25);
            seg.append(c.as_str());
            seg.append(" ");
            let c = pad_right("IP", 5);
            seg.append(c.as_str());
            seg.append(" ");
            let c = pad_right("H", 3);
            seg.append(c.as_str());
            seg.append(" ");
            let c = pad_right("R", 3);
            seg.append(c.as_str());
            seg.append(" ");
            let c = pad_right("ER", 3);
            seg.append(c.as_str());
            seg.append(" ");
            let c = pad_right("BB", 3);
            seg.append(c.as_str());
            seg.append(" ");
            let c = pad_right("K", 3);
            seg.append(c.as_str());
            seg.append(" ");
            let c = pad_right("ERA", 5);
            seg.append(c.as_str());
            seg.append("\n");
            seg.append("    ");
            let dashes = str_repeat("-", 60);
            seg.append(dashes.as_str());
            seg.append("\n");
            let rows = pitcher_rows_exec(&self.pitchers, 0);
            seg.append(rows.as_str());
            proof {
                assert(seg@ =~= "  PITCHERS:\n"@ + "    "@ + spec_pad_right("NAME"@, 25) + " "@
                    + spec_pad_right("IP"@, 5) + " "@ + spec_pad_right("H"@, 3) + " "@
                    + spec_pad_right("R"@, 3) + " "@ + spec_pad_right("ER"@, 3) + " "@
                    + spec_pad_right("BB"@, 3) + " "@ + spec_pad_right("K"@, 3) + " "@
                    + spec_pad_right("ERA"@, 5) + "\n"@ + "    "@ + spec_repeat("-"@, 60) + "\n"@
                    + pitcher_rows(self.pitchers@, 0));
            }
            out.append(seg.as_str());
        }
        proof {
            acc = acc + (if self.pitchers@.len() > 0 {
                "  PITCHERS:\n"@ + "    "@ + spec_pad_right("NAME"@, 25) + " "@ + spec_pad_right(
                    "IP"@,
                    5,
                ) + " "@ + spec_pad_right("H"@, 3) + " "@ + spec_pad_right("R"@, 3) + " "@
                    + spec_pad_right("ER"@, 3) + " "@ + spec_pad_right("BB"@, 3) + " "@
                    + spec_pad_right("K"@, 3) + " "@ + spec_pad_right("ERA"@, 5) + "\n"@ + "    "@
                    + spec_repeat("-"@, 60) + "\n"@ + pitcher_rows(self.pitchers@, 0)
            } else {
                Seq::empty()
            });
            assert(out@ == acc);
            assert(acc == self.spec_display());
        }
        out
    }
}

impl GameStats {
    /// The rendered box score: the away card, then the home card.
    pub open spec fn spec_display(&self) -> Seq<char> {
        "AWAY: "@ + self.away_team_stats.spec_display() + "\n"@ + "HOME: "@
            + self.home_team_stats.spec_display() + "\n"@
    }

    /// Renders the box score.
    pub fn display(&self) -> (r: String)
        ensures
            r@ == self.spec_display(),
    {
        let mut out = "AWAY: ".to_owned();
        let card = self.away_team_stats.display();
        out.append(card.as_str());
        out.append("\n");
        out.append("HOME: ");
        let card = self.home_team_stats.display();
        out.append(card.as_str());
        out.append("\n");
        proof {
            assert(out@ =~= self.spec_display());
        }
        out
    }
}

/// One score cell of the innings grid: the runs right-aligned to two
/// columns after a space, or a dash for a half inning not yet recorded.
pub open spec fn inning_cell(v: Option<u32>) -> Seq<char> {
    match v {
        Some(runs) => " "@ + spec_pad_left(spec_dec(runs as nat), 2),
        None => "  -"@,
    }
}

/// The away cells of the innings grid from index `i` on.
pub open spec fn away_cells(innings: Seq<InningData>, i: int) -> Seq<char>
    decreases innings.len() - i,
{
    if i < 0 || i >= innings.len() {
        Seq::empty()
    } else {
        inning_cell(innings[i].away) + away_cells(innings, i + 1)
    }
}

/// The home cells of the innings grid from index `i` on.
pub open spec fn home_cells(innings: Seq<InningData>, i: int) -> Seq<char>
    decreases innings.len() - i,
{
    if i < 0 || i >= innings.len() {
        Seq::empty()
    } else {
        inning_cell(innings[i].home) + home_cells(innings, i + 1)
    }
}

/// The header cells of the innings grid: the inning numbers from `i + 1`.
pub open spec fn header_cells(len: int, i: int) -> Seq<char>
    decreases len - i,
{
    if i < 0 || i >= len {
        Seq::empty()
    } else {
        " "@ + spec_pad_left(spec_dec(((i + 1) as u32) as nat), 2) + header_cells(len, i + 1)
    }
}

fn inning_cell_exec(v: Option<u32>) -> (r: String)
    ensures
        r@ == inning_cell(v),
{
    match v {
        Some(runs) => {
            let d = u32_string(runs);
            concat2(" ", pad_left(d.as_str(), 2).as_str())
        },
        None => "  -".to_owned(),
    }
}

fn away_cells_exec(innings: &Vec<InningData>, i: usize) -> (r: String)
    requires
        i <= innings@.len(),
    ensures
        r@ == away_cells(innings@, i as int),
    decreases innings@.len() - i,
{
    if i >= innings.len() {
        String::new()
    } else {
        let mut out = inning_cell_exec(innings[i].away);
        let rest = away_cells_exec(innings, i + 1);
        out.append(rest.as_str());
        out
    }
}

fn home_cells_exec(innings: &Vec<InningData>, i: usize) -> (r: String)
    requires
        i <= innings@.len(),
    ensures
        r@ == home_cells(innings@, i as int),
    decreases innings@.len() - i,
{
    if i >= innings.len() {
        String::new()
    } else {
        let mut out = inning_cell_exec(innings[i].home);
        let rest = home_cells_exec(innings, i + 1);
        out.append(rest.as_str());
        out
    }
}

fn header_cells_exec(len: usize, i: usize) -> (r: String)
    requires
        i <= len,
    ensures
        r@ == header_cells(len as int, i as int),
    decreases len - i,
{
    if i >= len {
        String::new()
    } else {
        let n: u32 = #[verifier::truncate] ((i + 1) as u32);
        let d = u32_string(n);
        let mut out = concat2(" ", pad_left(d.as_str(), 2).as_str());
        let rest = header_cells_exec(len, i + 1);
        out.append(rest.as_str());
        proof {
            assert(out@ =~= header_cells(len as int, i as int));
        }
        out
    }
}

impl GameInnings {
    /// The rendered inning grid: header row, separator, then the away and
    /// home lines with their totals (zero when unknown).
    pub open spec fn spec_display(&self) -> Seq<char> {
        let away_total = match self.away_runs {
            Some(v) => v,
            None => 0,
        };
        let home_total = match self.home_runs {
            Some(v) => v,
            None => 0,
        };
        "Game: "@ + self.home_team.name@ + " vs "@ + self.away_team.name@ + "\n"@ + "Date: "@
            + date_part(self.game_date@) + "\n"@ + "Status: "@ + self.status.spec_name() + "\n"@
            + "     "@ + header_cells(self.innings@.len() as int, 0) + "  | R\n"@ + "-----"@
            + spec_repeat("---"@, self.innings@.len()) + "--+--\n"@ + "Awa |"@ + away_cells(
            self.innings@,
            0,
        ) + "  | "@ + spec_dec(away_total as nat) + "\n"@ + "Hom |"@ + home_cells(self.innings@, 0)
            + "  | "@ + spec_dec(home_total as nat) + "\n"@
    }

    /// Renders the inning grid.
    #[verifier::rlimit(100)]
    pub fn display(&self) -> (r: String)
        ensures
            r@ == self.spec_display(),
    {
        let mut out = "Game: ".to_owned();
        out.append(self.home_team.name.as_str());
        out.append(" vs ");
        out.append(self.away_team.name.as_str());
        out.append("\n");
        out.append("Date: ");
        let date = date_part_exec(self.game_date.as_str());
        out.append(date.as_str());
        out.append("\n");
        out.append("Status: ");
        out.append(self.status.abstract_game_state());
        out.append("\n");
        out.append("     ");
        let header = header_cells_exec(self.innings.len(), 0);
        out.append(header.as_str());
        out.append("  | R\n");
        out.append("-----");
        let dashes = str_repeat("---", self.innings.len());
        out.append(dashes.as_str());
        out.append("--+--\n");
        out.append("Awa |");
        let cells = away_cells_exec(&self.innings, 0);
        out.append(cells.as_str());
        out.append("  | ");
        let total = u32_string(
            match self.away_runs {
                Some(v) => v,
                None => 0,
            },
        );
        out.append(total.as_str());
        out.append("\n");
        out.append("Hom |");
        let cells = home_cells_exec(&self.innings, 0);
        out.append(cells.as_str());
        out.append("  | ");
        let total = u32_string(
            match self.home_runs {
                Some(v) => v,
                None => 0,
            },
        );
        out.append(total.as_str());
        out.append("\n");
        proof {
            assert(out@ =~= self.spec_display());
        }
        out
    }
}

} // verus!
