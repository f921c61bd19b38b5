//! The NBA-side canonical domain model and its endpoint normalizers. The
//! provider answers JSON envelopes: a single item under `data`, or a page
//! under `data` with its `meta`.

use vstd::prelude::*;

verus! {

use crate::error::SportError;
use crate::json::{
    spec_arr_at,
    spec_bool_at,
    spec_get,
    spec_str_at,
    spec_u32_at,
    JsonValue,
};
use crate::strutil::{spec_dec, str_eq, u32_string};

/// An NBA team; every descriptive field is provided by the upstream.
#[derive(Debug, Clone)]
pub struct Team {
    pub id: u32,
    pub abbreviation: String,
    pub city: String,
    pub conference: String,
    pub division: String,
    pub full_name: String,
    pub name: String,
}

/// An NBA player, with the optional measured fields.
#[derive(Debug, Clone)]
pub struct Player {
    pub id: u32,
    pub first_name: String,
    pub last_name: String,
    pub position: String,
    pub height_feet: Option<u32>,
    pub height_inches: Option<u32>,
    pub weight_pounds: Option<u32>,
    pub team: Team,
}

/// An NBA game with both teams and their scores.
#[derive(Debug, Clone)]
pub struct Game {
    pub id: u32,
    pub date: String,
    pub home_team: Team,
    pub home_team_score: u32,
    pub period: u32,
    pub postseason: bool,
    pub season: u32,
    pub status: String,
    pub time: Option<String>,
    pub visitor_team: Team,
    pub visitor_team_score: u32,
}

/// Paging metadata of a page envelope.
#[derive(Debug, Clone)]
pub struct Meta {
    pub next_cursor: Option<u32>,
    pub per_page: u32,
}

/// A page envelope: the items and their paging metadata.
#[derive(Debug, Clone)]
pub struct PaginatedResponse<T> {
    pub data: Vec<T>,
    pub meta: Meta,
}

/// A single-item envelope.
#[derive(Debug, Clone)]
pub struct SingleResponse<T> {
    pub data: T,
}

/// The player identity carried inside a statistics line.
#[derive(Debug, Clone)]
pub struct PlayerStatsPlayer {
    pub id: u32,
    pub first_name: String,
    pub last_name: String,
    pub position: String,
    pub team_id: u32,
}

/// The game header carried inside a statistics line.
#[derive(Debug, Clone)]
pub struct GameSummary {
    pub id: u32,
    pub date: String,
    pub home_team_id: u32,
    pub visitor_team_id: u32,
    pub home_team_score: u32,
    pub visitor_team_score: u32,
    pub season: u32,
    pub status: String,
    pub period: u32,
    pub time: Option<String>,
    pub postseason: bool,
}

/// A team object holds all its required fields.
pub open spec fn team_shape_ok(j: JsonValue) -> bool {
    &&& spec_u32_at(j, seq!["id"@]) is Some
    &&& spec_str_at(j, seq!["abbreviation"@]) is Some
    &&& spec_str_at(j, seq!["city"@]) is Some
    &&& spec_str_at(j, seq!["conference"@]) is Some
    &&& spec_str_at(j, seq!["division"@]) is Some
    &&& spec_str_at(j, seq!["full_name"@]) is Some
    &&& spec_str_at(j, seq!["name"@]) is Some
}

/// A team extracted from its object.
pub open spec fn team_matches(t: Team, j: JsonValue) -> bool {
    &&& Some(t.id) == spec_u32_at(j, seq!["id"@])
    &&& Some(t.abbreviation@) == spec_str_at(j, seq!["abbreviation"@])
    &&& Some(t.city@) == spec_str_at(j, seq!["city"@])
    &&& Some(t.conference@) == spec_str_at(j, seq!["conference"@])
    &&& Some(t.division@) == spec_str_at(j, seq!["division"@])
    &&& Some(t.full_name@) == spec_str_at(j, seq!["full_name"@])
    &&& Some(t.name@) == spec_str_at(j, seq!["name"@])
}

/// Extracts a team; every field is required.
pub fn team_from_json(j: &JsonValue) -> (r: Result<Team, SportError>)
    ensures
        (r is Ok) == team_shape_ok(*j),
        r matches Ok(t) ==> team_matches(t, *j),
        r matches Err(e) ==> e is FetchError,
{
    let id = match j.u32_key1("id") {
        Some(v) => v,
        None => {
            return Err(SportError::FetchError("missing required team field: id".to_owned()));
        },
    };
    let abbreviation = match j.str_key1("abbreviation") {
        Some(v) => v,
        None => {
            return Err(
                SportError::FetchError("missing required team field: abbreviation".to_owned()),
            );
        },
    };
    let city = match j.str_key1("city") {
        Some(v) => v,
        None => {
            return Err(SportError::FetchError("missing required team field: city".to_owned()));
        },
    };
    let conference = match j.str_key1("conference") {
        Some(v) => v,
        None => {
            return Err(
                SportError::FetchError("missing required team field: conference".to_owned()),
            );
        },
    };
    let division = match j.str_key1("division") {
        Some(v) => v,
        None => {
            return Err(
                SportError::FetchError("missing required team field: division".to_owned()),
            );
        },
    };
    let full_name = match j.str_key1("full_name") {
        Some(v) => v,
        None => {
            return Err(
                SportError::FetchError("missing required team field: full_name".to_owned()),
            );
        },
    };
    let name = match j.str_key1("name") {
        Some(v) => v,
        None => {
            return Err(SportError::FetchError("missing required team field: name".to_owned()));
        },
    };
    Ok(Team { id, abbreviation, city, conference, division, full_name, name })
}

/// A player object holds its required fields, its team included.
pub open spec fn player_shape_ok(j: JsonValue) -> bool {
    &&& spec_u32_at(j, seq!["id"@]) is Some
    &&& spec_str_at(j, seq!["first_name"@]) is Some
    &&& spec_str_at(j, seq!["last_name"@]) is Some
    &&& spec_str_at(j, seq!["position"@]) is Some
    &&& (spec_get(j, "team"@) matches Some(tj) && team_shape_ok(tj))
}

/// A player extracted from its object.
pub open spec fn player_matches(p: Player, j: JsonValue) -> bool {
    &&& Some(p.id) == spec_u32_at(j, seq!["id"@])
    &&& Some(p.first_name@) == spec_str_at(j, seq!["first_name"@])
    &&& Some(p.last_name@) == spec_str_at(j, seq!["last_name"@])
    &&& Some(p.position@) == spec_str_at(j, seq!["position"@])
    &&& p.height_feet == spec_u32_at(j, seq!["height_feet"@])
    &&& p.height_inches == spec_u32_at(j, seq!["height_inches"@])
    &&& p.weight_pounds == spec_u32_at(j, seq!["weight_pounds"@])
    &&& (spec_get(j, "team"@) matches Some(tj) && team_matches(p.team, tj))
}

/// Extracts a player; the identity fields and the team are required, the
/// measurements optional.
pub fn player_from_json(j: &JsonValue) -> (r: Result<Player, SportError>)
    ensures
        (r is Ok) == player_shape_ok(*j),
        r matches Ok(p) ==> player_matches(p, *j),
        r matches Err(e) ==> e is FetchError,
{
    let id = match j.u32_key1("id") {
        Some(v) => v,
        None => {
            return Err(SportError::FetchError("missing required player field: id".to_owned()));
        },
    };
    let first_name = match j.str_key1("first_name") {
        Some(v) => v,
        None => {
            return Err(
                SportError::FetchError("missing required player field: first_name".to_owned()),
            );
        },
    };
    let last_name = match j.str_key1("last_name") {
        Some(v) => v,
        None => {
            return Err(
                SportError::FetchError("missing required player field: last_name".to_owned()),
            );
        },
    };
    let position = match j.str_key1("position") {
        Some(v) => v,
        None => {
            return Err(
                SportError::FetchError("missing required player field: position".to_owned()),
            );
        },
    };
    let team_json = match j.get("team") {
        Some(v) => v,
        None => {
            return Err(SportError::FetchError("missing required player field: team".to_owned()));
        },
    };
    let team = match team_from_json(team_json) {
        Ok(t) => t,
        Err(e) => {
            return Err(e);
        },
    };
    Ok(
        Player {
            id,
            first_name,
            last_name,
            position,
            height_feet: j.u32_key1("height_feet"),
            height_inches: j.u32_key1("height_inches"),
            weight_pounds: j.u32_key1("weight_pounds"),
            team,
        },
    )
}

/// A game object holds its required fields, both teams included.
pub open spec fn game_shape_ok(j: JsonValue) -> bool {
    &&& spec_u32_at(j, seq!["id"@]) is Some
    &&& spec_str_at(j, seq!["date"@]) is Some
    &&& (spec_get(j, "home_team"@) matches Some(h) && team_shape_ok(h))
    &&& spec_u32_at(j, seq!["home_team_score"@]) is Some
    &&& spec_u32_at(j, seq!["period"@]) is Some
    &&& spec_bool_at(j, seq!["postseason"@]) is Some
    &&& spec_u32_at(j, seq!["season"@]) is Some
    &&& spec_str_at(j, seq!["status"@]) is Some
    &&& (spec_get(j, "visitor_team"@) matches Some(v) && team_shape_ok(v))
    &&& spec_u32_at(j, seq!["visitor_team_score"@]) is Some
}

/// A game extracted from its object.
pub open spec fn game_matches(g: Game, j: JsonValue) -> bool {
    &&& Some(g.id) == spec_u32_at(j, seq!["id"@])
    &&& Some(g.date@) == spec_str_at(j, seq!["date"@])
    &&& (spec_get(j, "home_team"@) matches Some(h) && team_matches(g.home_team, h))
    &&& Some(g.home_team_score) == spec_u32_at(j, seq!["home_team_score"@])
    &&& Some(g.period) == spec_u32_at(j, seq!["period"@])
    &&& Some(g.postseason) == spec_bool_at(j, seq!["postseason"@])
    &&& Some(g.season) == spec_u32_at(j, seq!["season"@])
    &&& Some(g.status@) == spec_str_at(j, seq!["status"@])
    &&& (match spec_str_at(j, seq!["time"@]) {
        Some(t) => g.time matches Some(x) && x@ == t,
        None => g.time is None,
    })
    &&& (spec_get(j, "visitor_team"@) matches Some(v) && team_matches(g.visitor_team, v))
    &&& Some(g.visitor_team_score) == spec_u32_at(j, seq!["visitor_team_score"@])
}

/// Extracts a game; everything but the clock time is required.
pub fn game_from_json(j: &JsonValue) -> (r: Result<Game, SportError>)
    ensures
        (r is Ok) == game_shape_ok(*j),
        r matches Ok(g) ==> game_matches(g, *j),
        r matches Err(e) ==> e is FetchError,
{
    let id = match j.u32_key1("id") {
        Some(v) => v,
        None => {
            return Err(SportError::FetchError("missing required game field: id".to_owned()));
        },
    };
    let date = match j.str_key1("date") {
        Some(v) => v,
        None => {
            return Err(SportError::FetchError("missing required game field: date".to_owned()));
        },
    };
    let home_json = match j.get("home_team") {
        Some(v) => v,
        None => {
            return Err(
                SportError::FetchError("missing required game field: home_team".to_owned()),
            );
        },
    };
    let home_team = match team_from_json(home_json) {
        Ok(t) => t,
        Err(e) => {
            return Err(e);
        },
    };
    let home_team_score = match j.u32_key1("home_team_score") {
        Some(v) => v,
        None => {
            return Err(
                SportError::FetchError("missing required game field: home_team_score".to_owned()),
            );
        },
    };
    let period = match j.u32_key1("period") {
        Some(v) => v,
        None => {
            return Err(SportError::FetchError("missing required game field: period".to_owned()));
        },
    };
    let postseason = match j.bool_key1("postseason") {
        Some(v) => v,
        None => {
            return Err(
                SportError::FetchError("missing required game field: postseason".to_owned()),
            );
        },
    };
    let season = match j.u32_key1("season") {
        Some(v) => v,
        None => {
            return Err(SportError::FetchError("missing required game field: season".to_owned()));
        },
    };
    let status = match j.str_key1("status") {
        Some(v) => v,
        None => {
            return Err(SportError::FetchError("missing required game field: status".to_owned()));
        },
    };
    let visitor_json = match j.get("visitor_team") {
        Some(v) => v,
        None => {
            return Err(
                SportError::FetchError("missing required game field: visitor_team".to_owned()),
            );
        },
    };
    let visitor_team = match team_from_json(visitor_json) {
        Ok(t) => t,
        Err(e) => {
            return Err(e);
        },
    };
    let visitor_team_score = match j.u32_key1("visitor_team_score") {
        Some(v) => v,
        None => {
            return Err(
                SportError::FetchError(
                    "missing required game field: visitor_team_score".to_owned(),
                ),
            );
        },
    };
    Ok(
        Game {
            id,
            date,
            home_team,
            home_team_score,
            period,
            postseason,
            season,
            status,
            time: j.str_key1("time"),
            visitor_team,
            visitor_team_score,
        },
    )
}

/// Paging metadata holds its page size; the cursor is optional.
pub open spec fn meta_shape_ok(j: JsonValue) -> bool {
    spec_u32_at(j, seq!["per_page"@]) is Some
}

/// Paging metadata extracted from its object.
pub open spec fn meta_matches(m: Meta, j: JsonValue) -> bool {
    &&& m.next_cursor == spec_u32_at(j, seq!["next_cursor"@])
    &&& Some(m.per_page) == spec_u32_at(j, seq!["per_page"@])
}

fn meta_from_json(j: &JsonValue) -> (r: Result<Meta, SportError>)
    ensures
        (r is Ok) == meta_shape_ok(*j),
        r matches Ok(m) ==> meta_matches(m, *j),
        r matches Err(e) ==> e is FetchError,
{
    let per_page = match j.u32_key1("per_page") {
        Some(v) => v,
        None => {
            return Err(
                SportError::FetchError("missing required meta field: per_page".to_owned()),
            );
        },
    };
    Ok(Meta { next_cursor: j.u32_key1("next_cursor"), per_page })
}

/// A single-team envelope is well-shaped: `data` holds a full team.
pub open spec fn single_team_shape_ok(doc: JsonValue) -> bool {
    spec_get(doc, "data"@) matches Some(d) && team_shape_ok(d)
}

/// Normalizes the team-by-id response: the team under `data`.
pub fn normalize_single_team(doc: &JsonValue) -> (r: Result<SingleResponse<Team>, SportError>)
    ensures
        (r is Ok) == single_team_shape_ok(*doc),
        r matches Ok(s) ==> (spec_get(*doc, "data"@) matches Some(d) && team_matches(s.data, d)),
        r matches Err(e) ==> e is FetchError,
{
    let data = match doc.get("data") {
        Some(v) => v,
        None => {
            return Err(SportError::FetchError("missing response field: data".to_owned()));
        },
    };
    match team_from_json(data) {
        Ok(t) => Ok(SingleResponse { data: t }),
        Err(e) => Err(e),
    }
}

/// A single-player envelope is well-shaped: `data` holds a full player.
pub open spec fn single_player_shape_ok(doc: JsonValue) -> bool {
    spec_get(doc, "data"@) matches Some(d) && player_shape_ok(d)
}

/// Normalizes the player-by-id response: the player under `data`.
pub fn normalize_single_player(doc: &JsonValue) -> (r: Result<
    SingleResponse<Player>,
    SportError,
>)
    ensures
        (r is Ok) == single_player_shape_ok(*doc),
        r matches Ok(s) ==> (spec_get(*doc, "data"@) matches Some(d) && player_matches(s.data, d)),
        r matches Err(e) ==> e is FetchError,
{
    let data = match doc.get("data") {
        Some(v) => v,
        None => {
            return Err(SportError::FetchError("missing response field: data".to_owned()));
        },
    };
    match player_from_json(data) {
        Ok(p) => Ok(SingleResponse { data: p }),
        Err(e) => Err(e),
    }
}

/// A games-page envelope is well-shaped: a `data` array of full games and
/// the paging metadata.
pub open spec fn games_page_shape_ok(doc: JsonValue) -> bool {
    &&& (spec_arr_at(doc, seq!["data"@]) matches Some(items) && (forall|i: int|
        0 <= i < items.len() ==> game_shape_ok(#[trigger] items[i])))
    &&& (spec_get(doc, "meta"@) matches Some(m) && meta_shape_ok(m))
}

/// Normalizes a games-page response: every listed game, in order, plus the
/// paging metadata; any malformed entry fails the whole page.
pub fn normalize_games_page(doc: &JsonValue) -> (r: Result<PaginatedResponse<Game>, SportError>)
    ensures
        (r is Ok) == games_page_shape_ok(*doc),
        r matches Ok(p) ==> (spec_arr_at(*doc, seq!["data"@]) matches Some(items) && p.data@.len()
            == items.len() && (forall|i: int|
            0 <= i < items.len() ==> game_matches(#[trigger] p.data@[i], items[i])) && (spec_get(
            *doc,
            "meta"@,
        ) matches Some(m) && meta_matches(p.meta, m))),
        r matches Err(e) ==> e is FetchError,
{
    let items = match doc.arr_key1("data") {
        Some(v) => v,
        None => {
            return Err(SportError::FetchError("missing response field: data".to_owned()));
        },
    };
    let n = items.len();
    let mut data: Vec<Game> = Vec::new();
    let mut i: usize = 0;
    while i < n
        invariant
            n == items@.len(),
            i <= n,
            spec_arr_at(*doc, seq!["data"@]) == Some(items@),
            data@.len() == i,
            forall|k: int| 0 <= k < i ==> game_shape_ok(#[trigger] items@[k]),
            forall|k: int| 0 <= k < i ==> game_matches(#[trigger] data@[k], items@[k]),
        decreases n - i,
    {
        let g = match game_from_json(&items[i]) {
            Ok(g) => g,
            Err(e) => {
                return Err(e);
            },
        };
        data.push(g);
        i = i + 1;
    }
    let meta_json = match doc.get("meta") {
        Some(v) => v,
        None => {
            return Err(SportError::FetchError("missing response field: meta".to_owned()));
        },
    };
    let meta = match meta_from_json(meta_json) {
        Ok(m) => m,
        Err(e) => {
            return Err(e);
        },
    };
    Ok(PaginatedResponse { data, meta })
}

/// Parses and normalizes the team-by-id response body.
pub fn normalize_single_team_response(body: &str) -> (r: Result<SingleResponse<Team>, SportError>)
    ensures
        crate::json::parsed_json(body@) matches Some(doc) ==> {
            &&& (r is Ok) == single_team_shape_ok(doc)
            &&& (r matches Ok(s) ==> (spec_get(doc, "data"@) matches Some(d) && team_matches(
                s.data,
                d,
            )))
        },
        crate::json::parsed_json(body@) is None ==> r is Err,
        r matches Err(e) ==> e is FetchError,
{
    match crate::json::parse_json(body) {
        Some(doc) => normalize_single_team(&doc),
        None => Err(SportError::FetchError("invalid JSON body".to_owned())),
    }
}

/// Parses and normalizes the player-by-id response body.
pub fn normalize_single_player_response(body: &str) -> (r: Result<
    SingleResponse<Player>,
    SportError,
>)
    ensures
        crate::json::parsed_json(body@) matches Some(doc) ==> {
            &&& (r is Ok) == single_player_shape_ok(doc)
            &&& (r matches Ok(s) ==> (spec_get(doc, "data"@) matches Some(d) && player_matches(
                s.data,
                d,
            )))
        },
        crate::json::parsed_json(body@) is None ==> r is Err,
        r matches Err(e) ==> e is FetchError,
{
    match crate::json::parse_json(body) {
        Some(doc) => normalize_single_player(&doc),
        None => Err(SportError::FetchError("invalid JSON body".to_owned())),
    }
}

/// Parses and normalizes a games-page response body.
pub fn normalize_games_page_response(body: &str) -> (r: Result<
    PaginatedResponse<Game>,
    SportError,
>)
    ensures
        crate::json::parsed_json(body@) matches Some(doc) ==> {
            &&& (r is Ok) == games_page_shape_ok(doc)
            &&& (r matches Ok(p) ==> (spec_arr_at(doc, seq!["data"@]) matches Some(items)
                && p.data@.len() == items.len() && (forall|i: int|
                0 <= i < items.len() ==> game_matches(#[trigger] p.data@[i], items[i]))))
        },
        crate::json::parsed_json(body@) is None ==> r is Err,
        r matches Err(e) ==> e is FetchError,
{
    match crate::json::parse_json(body) {
        Some(doc) => normalize_games_page(&doc),
        None => Err(SportError::FetchError("invalid JSON body".to_owned())),
    }
}

impl Team {
    /// The rendered team card.
    pub open spec fn spec_display(&self) -> Seq<char> {
        self.city@ + " "@ + self.name@ + " ("@ + self.abbreviation@ + ")\n"@ + "Conference: "@
            + self.conference@ + ", Division: "@ + self.division@
    }

    /// Renders the team card.
    pub fn display(&self) -> (r: String)
        ensures
            r@ == self.spec_display(),
    {
        let mut out = self.city.clone();
        out.append(" ");
        out.append(self.name.as_str());
        out.append(" (");
        out.append(self.abbreviation.as_str());
        out.append(")\n");
        out.append("Conference: ");
        out.append(self.conference.as_str());
        out.append(", Division: ");
        out.append(self.division.as_str());
        proof {
            assert(out@ =~= self.spec_display());
        }
        out
    }
}

impl Player {
    /// The rendered height, `feet'inches"` or the unknown word.
    pub open spec fn spec_height(&self) -> Seq<char> {
        match (self.height_feet, self.height_inches) {
            (Some(f), Some(i)) => spec_dec(f as nat) + "'"@ + spec_dec(i as nat) + "\""@,
            _ => "Unknown"@,
        }
    }

    /// The rendered weight, `pounds lbs` or the unknown word.
    pub open spec fn spec_weight(&self) -> Seq<char> {
        match self.weight_pounds {
            Some(p) => spec_dec(p as nat) + " lbs"@,
            None => "Unknown"@,
        }
    }

    /// The rendered player card.
    pub open spec fn spec_display(&self) -> Seq<char> {
        self.first_name@ + " "@ + self.last_name@ + "\n"@ + "Position: "@ + self.position@ + "\n"@
            + "Height: "@ + self.spec_height() + "\n"@ + "Weight: "@ + self.spec_weight() + "\n"@
            + "Team: "@ + self.team.full_name@
    }

    /// Renders the player card.
    pub fn display(&self) -> (r: String)
        ensures
            r@ == self.spec_display(),
    {
        let height: String = match (self.height_feet, self.height_inches) {
            (Some(f), Some(i)) => {
                let mut h = u32_string(f);
                h.append("'");
                let inches = u32_string(i);
                h.append(inches.as_str());
                h.append("\"");
                h
            },
            _ => "Unknown".to_owned(),
        };
        let weight: String = match self.weight_pounds {
            Some(p) => {
                let mut w = u32_string(p);
                w.append(" lbs");
                w
            },
            None => "Unknown".to_owned(),
        };
        let mut out = self.first_name.clone();
        out.append(" ");
        out.append(self.last_name.as_str());
        out.append("\n");
        out.append("Position: ");
        out.append(self.position.as_str());
        out.append("\n");
        out.append("Height: ");
        out.append(height.as_str());
        out.append("\n");
        out.append("Weight: ");
        out.append(weight.as_str());
        out.append("\n");
        out.append("Team: ");
        out.append(self.team.full_name.as_str());
        proof {
            assert(height@ =~= self.spec_height());
            assert(weight@ =~= self.spec_weight());
            assert(out@ =~= self.spec_display());
        }
        out
    }
}

impl Game {
    /// The rendered status tail: the final word, or the in-progress period
    /// and clock.
    pub open spec fn spec_status_text(&self) -> Seq<char> {
        if self.status@ == "Final"@ {
            "Final"@
        } else {
            "In Progress - "@ + spec_dec(self.period as nat) + " "@ + (match self.time {
                Some(t) => t@,
                None => Seq::empty(),
            })
        }
    }

    /// The rendered game card.
    pub open spec fn spec_display(&self) -> Seq<char> {
        self.visitor_team.abbreviation@ + " @ "@ + self.home_team.abbreviation@ + " - "@
            + self.date@ + "\n"@ + self.visitor_team.name@ + ": "@ + spec_dec(
            self.visitor_team_score as nat,
        ) + "\n"@ + self.home_team.name@ + ": "@ + spec_dec(self.home_team_score as nat) + "\n"@
            + "Season: "@ + spec_dec(self.season as nat) + ", "@ + self.spec_status_text()
    }

    /// Renders the game card.
    #[verifier::rlimit(30)]
    pub fn display(&self) -> (r: String)
        ensures
            r@ == self.spec_display(),
    {
        let status_text: String = if str_eq(self.status.as_str(), "Final") {
            "Final".to_owned()
        } else {
            let mut t = "In Progress - ".to_owned();
            let p = u32_string(self.period);
            t.append(p.as_str());
            t.append(" ");
            match &self.time {
                Some(clock) => {
                    t.append(clock.as_str());
                },
                None => {},
            }
            t
        };
        proof {
            assert(status_text@ =~= self.spec_status_text());
        }
        let mut out = self.visitor_team.abbreviation.clone();
        out.append(" @ ");
        out.append(self.home_team.abbreviation.as_str());
        out.append(" - ");
        out.append(self.date.as_str());
        out.append("\n");
        out.append(self.visitor_team.name.as_str());
        out.append(": ");
        let d = u32_string(self.visitor_team_score);
        out.append(d.as_str());
        out.append("\n");
        out.append(self.home_team.name.as_str());
        out.append(": ");
        let d = u32_string(self.home_team_score);
        out.append(d.as_str());
        out.append("\n");
        out.append("Season: ");
        let d = u32_string(self.season);
        out.append(d.as_str());
        out.append(", ");
        out.append(status_text.as_str());
        proof {
            assert(out@ =~= self.spec_display());
        }
        out
    }
}

} // verus!
