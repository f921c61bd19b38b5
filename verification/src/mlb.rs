//! The MLB-side canonical domain model: game state, teams, players, games,
//! box-score statistics and inning breakdowns, with the provider status
//! mapper. Endpoint normalizers live in the `normalize` submodule and the
//! rendering helpers in `display`.

use vstd::prelude::*;

pub mod display;
pub mod innings;
pub mod normalize;

verus! {

use crate::strutil::str_eq;

/// The canonical state of a game. Every provider status string maps to
/// exactly one variant; unrecognized strings map to `Unknown`, never an
/// error.
#[derive(Debug, Clone, Copy, PartialEq, Eq, Structural)]
pub enum GameState {
    Scheduled,
    Live,
    Final,
    Postponed,
    Cancelled,
    Suspended,
    Unknown,
}

/// The fixed table from the provider's `abstractGameState` vocabulary onto
/// the canonical state: `Preview` means scheduled, the five final-form words
/// map to their namesakes, and anything else is `Unknown`.
pub open spec fn spec_map_status(s: Seq<char>) -> GameState {
    if s == "Final"@ {
        GameState::Final
    } else if s == "Live"@ {
        GameState::Live
    } else if s == "Preview"@ {
        GameState::Scheduled
    } else if s == "Postponed"@ {
        GameState::Postponed
    } else if s == "Cancelled"@ {
        GameState::Cancelled
    } else if s == "Suspended"@ {
        GameState::Suspended
    } else {
        GameState::Unknown
    }
}

/// Maps a provider status string onto the canonical game state. Total: every
/// string, the empty one included, gets a state.
pub fn map_status(s: &str) -> (r: GameState)
    ensures
        r == spec_map_status(s@),
{
    if str_eq(s, "Final") {
        GameState::Final
    } else if str_eq(s, "Live") {
        GameState::Live
    } else if str_eq(s, "Preview") {
        GameState::Scheduled
    } else if str_eq(s, "Postponed") {
        GameState::Postponed
    } else if str_eq(s, "Cancelled") {
        GameState::Cancelled
    } else if str_eq(s, "Suspended") {
        GameState::Suspended
    } else {
        GameState::Unknown
    }
}

/// Every string outside the documented vocabulary maps to `Unknown`: the
/// mapper is a total function with no failure case.
pub proof fn lemma_map_status_unrecognized(s: Seq<char>)
    requires
        s != "Final"@,
        s != "Live"@,
        s != "Preview"@,
        s != "Postponed"@,
        s != "Cancelled"@,
        s != "Suspended"@,
    ensures
        spec_map_status(s) == GameState::Unknown,
{
}

impl GameState {
    /// The state's canonical name.
    pub open spec fn spec_name(&self) -> Seq<char> {
        match self {
            GameState::Scheduled => "Scheduled"@,
            GameState::Live => "Live"@,
            GameState::Final => "Final"@,
            GameState::Postponed => "Postponed"@,
            GameState::Cancelled => "Cancelled"@,
            GameState::Suspended => "Suspended"@,
            GameState::Unknown => "Unknown"@,
        }
    }

    /// Returns true if the game has been completed.
    pub fn is_final(&self) -> (r: bool)
        ensures
            r == (*self is Final),
    {
        matches!(self, GameState::Final)
    }

    /// The state's name, as the provider's abstract game state word.
    pub fn abstract_game_state(&self) -> (r: &'static str)
        ensures
            r@ == self.spec_name(),
    {
        match self {
            GameState::Scheduled => "Scheduled",
            GameState::Live => "Live",
            GameState::Final => "Final",
            GameState::Postponed => "Postponed",
            GameState::Cancelled => "Cancelled",
            GameState::Suspended => "Suspended",
            GameState::Unknown => "Unknown",
        }
    }

    /// Renders the state's name.
    pub fn display(&self) -> (r: String)
        ensures
            r@ == self.spec_name(),
    {
        self.abstract_game_state().to_owned()
    }
}

/// A ballpark.
#[derive(Debug, Clone)]
pub struct Venue {
    pub id: u32,
    pub name: String,
}

/// A league.
#[derive(Debug, Clone)]
pub struct League {
    pub id: u32,
    pub name: String,
}

/// A division.
#[derive(Debug, Clone)]
pub struct Division {
    pub id: u32,
    pub name: String,
}

/// A player's position as the provider describes it.
#[derive(Debug, Clone)]
pub struct Position {
    pub code: String,
    pub name: String,
    pub position_type: String,
    pub abbreviation: String,
}

/// A batting side.
#[derive(Debug, Clone)]
pub struct BatSide {
    pub code: String,
    pub description: String,
}

/// A pitching hand.
#[derive(Debug, Clone)]
pub struct PitchHand {
    pub code: String,
    pub description: String,
}

/// A team. Only `id` and `name` are guaranteed; every other field is
/// provider-dependent and optional.
#[derive(Debug, Clone)]
pub struct Team {
    pub id: u32,
    pub name: String,
    pub team_code: Option<String>,
    pub file_code: Option<String>,
    pub team_name: Option<String>,
    pub location_name: Option<String>,
    pub short_name: Option<String>,
    pub abbreviation: Option<String>,
    pub franchise_name: Option<String>,
    pub club_name: Option<String>,
    pub first_year_of_play: Option<String>,
    pub active: Option<bool>,
    pub venue: Option<Venue>,
    pub league: Option<League>,
    pub division: Option<Division>,
}

impl Team {
    /// Creates a new team with the required fields, every optional one
    /// absent.
    pub fn new(id: u32, name: String) -> (r: Team)
        ensures
            r.id == id,
            r.name == name,
            r.team_code is None,
            r.file_code is None,
            r.team_name is None,
            r.location_name is None,
            r.short_name is None,
            r.abbreviation is None,
            r.franchise_name is None,
            r.club_name is None,
            r.first_year_of_play is None,
            r.active is None,
            r.venue is None,
            r.league is None,
            r.division is None,
    {
        Team {
            id,
            name,
            team_code: None,
            file_code: None,
            team_name: None,
            location_name: None,
            short_name: None,
            abbreviation: None,
            franchise_name: None,
            club_name: None,
            first_year_of_play: None,
            active: None,
            venue: None,
            league: None,
            division: None,
        }
    }

    /// The team's display name: the full name.
    pub fn display_name(&self) -> (r: &str)
        ensures
            r@ == self.name@,
    {
        self.name.as_str()
    }

    /// Whether the team is active; a team that does not say is taken to be.
    pub fn is_active(&self) -> (r: bool)
        ensures
            r == (match self.active {
                Some(b) => b,
                None => true,
            }),
    {
        match self.active {
            Some(b) => b,
            None => true,
        }
    }
}

/// A player.
#[derive(Debug, Clone)]
pub struct Player {
    pub id: u32,
    pub full_name: String,
    pub first_name: String,
    pub last_name: String,
    pub primary_number: Option<String>,
    pub current_team: Option<Team>,
    pub position: Option<Position>,
    pub bat_side: Option<BatSide>,
    pub pitch_hand: Option<PitchHand>,
    pub birth_date: Option<String>,
    pub birth_city: Option<String>,
    pub birth_country: Option<String>,
    pub height: Option<String>,
    pub weight: Option<u32>,
    pub current_age: Option<u32>,
    pub mlb_debut_date: Option<String>,
    pub nick_name: Option<String>,
    pub active: Option<bool>,
}

/// One side of a game: the team, its optional score, and whether it won.
#[derive(Debug, Clone)]
pub struct GameTeam {
    pub score: Option<u32>,
    pub team: Team,
    pub is_winner: Option<bool>,
}

/// The two sides of a game.
#[derive(Debug, Clone)]
pub struct GameTeams {
    pub away: GameTeam,
    pub home: GameTeam,
}

/// A single game.
#[derive(Debug, Clone)]
pub struct Game {
    pub game_pk: u32,
    pub game_date: String,
    pub status: GameState,
    pub teams: GameTeams,
    pub venue: Option<Venue>,
}

impl Game {
    /// Creates a new game from its parts.
    pub fn new(game_pk: u32, game_date: String, status: GameState, teams: GameTeams, venue: Option<
        Venue,
    >) -> (r: Game)
        ensures
            r.game_pk == game_pk,
            r.game_date == game_date,
            r.status == status,
            r.teams == teams,
            r.venue == venue,
    {
        Game { game_pk, game_date, status, teams, venue }
    }

    /// Whether the game has started: it is live or over.
    pub fn has_started(&self) -> (r: bool)
        ensures
            r == (self.status is Live || self.status is Final),
    {
        matches!(self.status, GameState::Live | GameState::Final)
    }

    /// Whether the game is finished.
    pub fn is_finished(&self) -> (r: bool)
        ensures
            r == (self.status is Final),
    {
        matches!(self.status, GameState::Final)
    }

    /// The winning team of a finished game: the home side when it is flagged
    /// the winner, else the away side when flagged, else nobody.
    pub open spec fn spec_winner(&self) -> Option<Team> {
        if !(self.status is Final) {
            None
        } else if self.teams.home.is_winner == Some(true) {
            Some(self.teams.home.team)
        } else if self.teams.away.is_winner == Some(true) {
            Some(self.teams.away.team)
        } else {
            None
        }
    }

    /// Returns the winning team, if the game is finished and a side is
    /// flagged as the winner.
    pub fn winner(&self) -> (r: Option<&Team>)
        ensures
            r matches Some(t) ==> self.spec_winner() == Some(*t),
            r is None ==> self.spec_winner() is None,
    {
        if self.is_finished() {
            if matches!(self.teams.home.is_winner, Some(true)) {
                Some(&self.teams.home.team)
            } else if matches!(self.teams.away.is_winner, Some(true)) {
                Some(&self.teams.away.team)
            } else {
                None
            }
        } else {
            None
        }
    }
}

/// A schedule: games grouped by date.
#[derive(Debug, Clone)]
pub struct Schedule {
    pub dates: Vec<ScheduleDate>,
}

/// One schedule day.
#[derive(Debug, Clone)]
pub struct ScheduleDate {
    pub date: String,
    pub games: Vec<Game>,
}

/// Both teams' box-score statistics for one game.
#[derive(Debug, Clone)]
pub struct GameStats {
    pub away_team_stats: TeamStats,
    pub home_team_stats: TeamStats,
}

/// One team's box-score: aggregate batting and pitching lines plus ordered
/// per-player lines.
#[derive(Debug, Clone)]
pub struct TeamStats {
    pub team_name: String,
    pub batting: BattingStats,
    pub pitching: PitchingStats,
    pub batters: Vec<PlayerBattingStats>,
    pub pitchers: Vec<PlayerPitchingStats>,
}

/// Aggregate batting statistics. Numeric fields default to zero and the
/// rate strings to `".000"` when the provider omits them.
#[derive(Debug, Clone)]
pub struct BattingStats {
    pub runs: u32,
    pub hits: u32,
    pub home_runs: u32,
    pub rbi: u32,
    pub stolen_bases: u32,
    pub avg: String,
    pub obp: String,
    pub slg: String,
    pub ops: String,
}

impl Default for BattingStats {
    /// An empty batting line: zeros, with the `".000"` sentinel rates.
    fn default() -> (r: BattingStats)
        ensures
            r.runs == 0,
            r.hits == 0,
            r.home_runs == 0,
            r.rbi == 0,
            r.stolen_bases == 0,
            r.avg@ == ".000"@,
            r.obp@ == ".000"@,
            r.slg@ == ".000"@,
            r.ops@ == ".000"@,
    {
        BattingStats {
            runs: 0,
            hits: 0,
            home_runs: 0,
            rbi: 0,
            stolen_bases: 0,
            avg: ".000".to_owned(),
            obp: ".000".to_owned(),
            slg: ".000".to_owned(),
            ops: ".000".to_owned(),
        }
    }
}

/// Aggregate pitching statistics. The innings string defaults to `"0.0"`
/// and the ERA to `"0.00"` when absent.
#[derive(Debug, Clone)]
pub struct PitchingStats {
    pub innings_pitched: String,
    pub hits_allowed: u32,
    pub runs_allowed: u32,
    pub earned_runs: u32,
    pub walks: u32,
    pub strikeouts: u32,
    pub home_runs_allowed: u32,
    pub era: String,
}

impl Default for PitchingStats {
    /// An empty pitching line: zeros, with the sentinel innings and ERA.
    fn default() -> (r: PitchingStats)
        ensures
            r.innings_pitched@ == "0.0"@,
            r.hits_allowed == 0,
            r.runs_allowed == 0,
            r.earned_runs == 0,
            r.walks == 0,
            r.strikeouts == 0,
            r.home_runs_allowed == 0,
            r.era@ == "0.00"@,
    {
        PitchingStats {
            innings_pitched: "0.0".to_owned(),
            hits_allowed: 0,
            runs_allowed: 0,
            earned_runs: 0,
            walks: 0,
            strikeouts: 0,
            home_runs_allowed: 0,
            era: "0.00".to_owned(),
        }
    }
}

/// One batter's line.
#[derive(Debug, Clone)]
pub struct PlayerBattingStats {
    pub name: String,
    pub hits: u32,
    pub at_bats: u32,
    pub home_runs: u32,
    pub rbi: u32,
    pub runs: u32,
    pub doubles: u32,
    pub triples: u32,
    pub stolen_bases: u32,
    pub walks: u32,
    pub strikeouts: u32,
    pub avg: Option<String>,
    pub obp: Option<String>,
    pub slg: Option<String>,
}

/// One pitcher's line.
#[derive(Debug, Clone)]
pub struct PlayerPitchingStats {
    pub name: String,
    pub innings_pitched: String,
    pub strikeouts: u32,
    pub earned_runs: u32,
    pub hits_allowed: u32,
    pub runs_allowed: u32,
    pub walks: u32,
    pub home_runs_allowed: u32,
    pub era: Option<String>,
}

/// Runs scored in one inning, each side independently optional: a half
/// inning still to be played has no recorded runs.
#[derive(Debug, Clone)]
pub struct InningData {
    pub inning: u32,
    pub home: Option<u32>,
    pub away: Option<u32>,
}

/// A game with its inning-by-inning breakdown. The innings are ordered by
/// increasing inning number from one; a short array simply stops.
#[derive(Debug, Clone)]
pub struct GameInnings {
    pub game_pk: u32,
    pub game_date: String,
    pub status: GameState,
    pub home_team: Team,
    pub away_team: Team,
    pub innings: Vec<InningData>,
    pub home_runs: Option<u32>,
    pub away_runs: Option<u32>,
}

} // verus!
