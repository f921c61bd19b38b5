//! Endpoint normalizers: defensive extraction from each upstream JSON shape
//! into the canonical domain model. Every field goes through the JSON field
//! extractor; optional fields fall back to their documented defaults, and a
//! missing required field is a structural error.

use vstd::prelude::*;

verus! {

use crate::error::SportError;
use crate::json::{
    spec_arr_at,
    spec_as_u64,
    spec_at,
    spec_bool_at,
    spec_first_under,
    spec_get,
    spec_str_at,
    spec_str_or,
    spec_u32_at,
    spec_u32_or,
    JsonValue,
};
use crate::mlb::{
    map_status,
    spec_map_status,
    BatSide,
    BattingStats,
    Division,
    Game,
    GameInnings,
    GameState,
    GameStats,
    GameTeam,
    GameTeams,
    InningData,
    League,
    PitchHand,
    PitchingStats,
    Player,
    PlayerBattingStats,
    PlayerPitchingStats,
    Position,
    Schedule,
    ScheduleDate,
    Team,
    TeamStats,
    Venue,
};
use crate::strutil::{concat2, concat3, spec_dec, u32_string, u64_string};

/// An optional owned string agrees with an optional extracted one.
pub open spec fn opt_str_eq(a: Option<String>, b: Option<Seq<char>>) -> bool {
    match (a, b) {
        (Some(x), Some(y)) => x@ == y,
        (None, None) => true,
        _ => false,
    }
}

/// An id-and-name object holds both required fields.
pub open spec fn id_name_shape_ok(j: JsonValue) -> bool {
    spec_u32_at(j, seq!["id"@]) is Some && spec_str_at(j, seq!["name"@]) is Some
}

/// A venue extracted from an id-and-name object.
pub open spec fn venue_matches(v: Venue, j: JsonValue) -> bool {
    Some(v.id) == spec_u32_at(j, seq!["id"@]) && Some(v.name@) == spec_str_at(j, seq!["name"@])
}

/// A league extracted from an id-and-name object.
pub open spec fn league_matches(v: League, j: JsonValue) -> bool {
    Some(v.id) == spec_u32_at(j, seq!["id"@]) && Some(v.name@) == spec_str_at(j, seq!["name"@])
}

/// A division extracted from an id-and-name object.
pub open spec fn division_matches(v: Division, j: JsonValue) -> bool {
    Some(v.id) == spec_u32_at(j, seq!["id"@]) && Some(v.name@) == spec_str_at(j, seq!["name"@])
}

/// An optional venue follows the extractor policy: present and well-shaped
/// gives the extracted value, anything else gives nothing.
pub open spec fn opt_venue_matches(o: Option<Venue>, m: Option<JsonValue>) -> bool {
    match m {
        Some(j) => if id_name_shape_ok(j) {
            o matches Some(v) && venue_matches(v, j)
        } else {
            o is None
        },
        None => o is None,
    }
}

/// An optional league under the same policy.
pub open spec fn opt_league_matches(o: Option<League>, m: Option<JsonValue>) -> bool {
    match m {
        Some(j) => if id_name_shape_ok(j) {
            o matches Some(v) && league_matches(v, j)
        } else {
            o is None
        },
        None => o is None,
    }
}

/// An optional division under the same policy.
pub open spec fn opt_division_matches(o: Option<Division>, m: Option<JsonValue>) -> bool {
    match m {
        Some(j) => if id_name_shape_ok(j) {
            o matches Some(v) && division_matches(v, j)
        } else {
            o is None
        },
        None => o is None,
    }
}

fn venue_from_json(j: &JsonValue) -> (r: Option<Venue>)
    ensures
        id_name_shape_ok(*j) ==> (r matches Some(v) && venue_matches(v, *j)),
        !id_name_shape_ok(*j) ==> r is None,
{
    match (j.u32_key1("id"), j.str_key1("name")) {
        (Some(id), Some(name)) => Some(Venue { id, name }),
        _ => None,
    }
}

fn league_from_json(j: &JsonValue) -> (r: Option<League>)
    ensures
        id_name_shape_ok(*j) ==> (r matches Some(v) && league_matches(v, *j)),
        !id_name_shape_ok(*j) ==> r is None,
{
    match (j.u32_key1("id"), j.str_key1("name")) {
        (Some(id), Some(name)) => Some(League { id, name }),
        _ => None,
    }
}

fn division_from_json(j: &JsonValue) -> (r: Option<Division>)
    ensures
        id_name_shape_ok(*j) ==> (r matches Some(v) && division_matches(v, *j)),
        !id_name_shape_ok(*j) ==> r is None,
{
    match (j.u32_key1("id"), j.str_key1("name")) {
        (Some(id), Some(name)) => Some(Division { id, name }),
        _ => None,
    }
}

/// A team object holds its two required fields, id and name.
pub open spec fn team_shape_ok(j: JsonValue) -> bool {
    spec_u32_at(j, seq!["id"@]) is Some && spec_str_at(j, seq!["name"@]) is Some
}

/// A team extracted from a full team object: required id and name, each
/// descriptive field optional, the nested venue, league and division under
/// the optional-object policy.
pub open spec fn team_matches(t: Team, j: JsonValue) -> bool {
    &&& Some(t.id) == spec_u32_at(j, seq!["id"@])
    &&& Some(t.name@) == spec_str_at(j, seq!["name"@])
    &&& opt_str_eq(t.team_code, spec_str_at(j, seq!["teamCode"@]))
    &&& opt_str_eq(t.file_code, spec_str_at(j, seq!["fileCode"@]))
    &&& opt_str_eq(t.team_name, spec_str_at(j, seq!["teamName"@]))
    &&& opt_str_eq(t.location_name, spec_str_at(j, seq!["locationName"@]))
    &&& opt_str_eq(t.short_name, spec_str_at(j, seq!["shortName"@]))
    &&& opt_str_eq(t.abbreviation, spec_str_at(j, seq!["abbreviation"@]))
    &&& opt_str_eq(t.franchise_name, spec_str_at(j, seq!["franchiseName"@]))
    &&& opt_str_eq(t.club_name, spec_str_at(j, seq!["clubName"@]))
    &&& opt_str_eq(t.first_year_of_play, spec_str_at(j, seq!["firstYearOfPlay"@]))
    &&& t.active == spec_bool_at(j, seq!["active"@])
    &&& opt_venue_matches(t.venue, spec_get(j, "venue"@))
    &&& opt_league_matches(t.league, spec_get(j, "league"@))
    &&& opt_division_matches(t.division, spec_get(j, "division"@))
}

/// Extracts a team from a full team object. The id and the name are
/// required; everything else is optional and defaults to absent.
pub fn team_from_json(j: &JsonValue) -> (r: Result<Team, SportError>)
    ensures
        (r is Ok) == team_shape_ok(*j),
        r matches Ok(t) ==> team_matches(t, *j),
        r matches Err(e) ==> e is FetchError,
{
    let id = match j.u32_key1("id") {
        Some(v) => v,
        None => {
            return Err(SportError::FetchError("missing required team field: id".to_owned()));
        },
    };
    let name = match j.str_key1("name") {
        Some(v) => v,
        None => {
            return Err(SportError::FetchError("missing required team field: name".to_owned()));
        },
    };
    let venue = match j.get("venue") {
        Some(vj) => venue_from_json(vj),
        None => None,
    };
    let league = match j.get("league") {
        Some(vj) => league_from_json(vj),
        None => None,
    };
    let division = match j.get("division") {
        Some(vj) => division_from_json(vj),
        None => None,
    };
    Ok(
        Team {
            id,
            name,
            team_code: j.str_key1("teamCode"),
            file_code: j.str_key1("fileCode"),
            team_name: j.str_key1("teamName"),
            location_name: j.str_key1("locationName"),
            short_name: j.str_key1("shortName"),
            abbreviation: j.str_key1("abbreviation"),
            franchise_name: j.str_key1("franchiseName"),
            club_name: j.str_key1("clubName"),
            first_year_of_play: j.str_key1("firstYearOfPlay"),
            active: j.bool_key1("active"),
            venue,
            league,
            division,
        },
    )
}

/// A position object holds all four descriptive fields.
pub open spec fn position_shape_ok(j: JsonValue) -> bool {
    &&& spec_str_at(j, seq!["code"@]) is Some
    &&& spec_str_at(j, seq!["name"@]) is Some
    &&& spec_str_at(j, seq!["type"@]) is Some
    &&& spec_str_at(j, seq!["abbreviation"@]) is Some
}

/// A position extracted from its object.
pub open spec fn position_matches(p: Position, j: JsonValue) -> bool {
    &&& Some(p.code@) == spec_str_at(j, seq!["code"@])
    &&& Some(p.name@) == spec_str_at(j, seq!["name"@])
    &&& Some(p.position_type@) == spec_str_at(j, seq!["type"@])
    &&& Some(p.abbreviation@) == spec_str_at(j, seq!["abbreviation"@])
}

fn position_from_json(j: &JsonValue) -> (r: Option<Position>)
    ensures
        position_shape_ok(*j) ==> (r matches Some(p) && position_matches(p, *j)),
        !position_shape_ok(*j) ==> r is None,
{
    match (j.str_key1("code"), j.str_key1("name"), j.str_key1("type"), j.str_key1("abbreviation")) {
        (Some(code), Some(name), Some(position_type), Some(abbreviation)) => Some(
            Position { code, name, position_type, abbreviation },
        ),
        _ => None,
    }
}

/// A code-and-description object holds both fields.
pub open spec fn code_desc_shape_ok(j: JsonValue) -> bool {
    spec_str_at(j, seq!["code"@]) is Some && spec_str_at(j, seq!["description"@]) is Some
}

/// A batting side extracted from its object.
pub open spec fn bat_side_matches(b: BatSide, j: JsonValue) -> bool {
    Some(b.code@) == spec_str_at(j, seq!["code"@]) && Some(b.description@) == spec_str_at(
        j,
        seq!["description"@],
    )
}

/// A pitching hand extracted from its object.
pub open spec fn pitch_hand_matches(b: PitchHand, j: JsonValue) -> bool {
    Some(b.code@) == spec_str_at(j, seq!["code"@]) && Some(b.description@) == spec_str_at(
        j,
        seq!["description"@],
    )
}

fn bat_side_from_json(j: &JsonValue) -> (r: Option<BatSide>)
    ensures
        code_desc_shape_ok(*j) ==> (r matches Some(b) && bat_side_matches(b, *j)),
        !code_desc_shape_ok(*j) ==> r is None,
{
    match (j.str_key1("code"), j.str_key1("description")) {
        (Some(code), Some(description)) => Some(BatSide { code, description }),
        _ => None,
    }
}

fn pitch_hand_from_json(j: &JsonValue) -> (r: Option<PitchHand>)
    ensures
        code_desc_shape_ok(*j) ==> (r matches Some(b) && pitch_hand_matches(b, *j)),
        !code_desc_shape_ok(*j) ==> r is None,
{
    match (j.str_key1("code"), j.str_key1("description")) {
        (Some(code), Some(description)) => Some(PitchHand { code, description }),
        _ => None,
    }
}

/// A player object holds its required identity fields.
pub open spec fn player_shape_ok(j: JsonValue) -> bool {
    &&& spec_u32_at(j, seq!["id"@]) is Some
    &&& spec_str_at(j, seq!["fullName"@]) is Some
    &&& spec_str_at(j, seq!["firstName"@]) is Some
    &&& spec_str_at(j, seq!["lastName"@]) is Some
}

/// A player extracted from a full player object.
pub open spec fn player_matches(p: Player, j: JsonValue) -> bool {
    &&& Some(p.id) == spec_u32_at(j, seq!["id"@])
    &&& Some(p.full_name@) == spec_str_at(j, seq!["fullName"@])
    &&& Some(p.first_name@) == spec_str_at(j, seq!["firstName"@])
    &&& Some(p.last_name@) == spec_str_at(j, seq!["lastName"@])
    &&& opt_str_eq(p.primary_number, spec_str_at(j, seq!["primaryNumber"@]))
    &&& (match spec_get(j, "currentTeam"@) {
        Some(tj) => if team_shape_ok(tj) {
            p.current_team matches Some(t) && team_matches(t, tj)
        } else {
            p.current_team is None
        },
        None => p.current_team is None,
    })
    &&& (match spec_get(j, "primaryPosition"@) {
        Some(pj) => if position_shape_ok(pj) {
            p.position matches Some(v) && position_matches(v, pj)
        } else {
            p.position is None
        },
        None => p.position is None,
    })
    &&& (match spec_get(j, "batSide"@) {
        Some(bj) => if code_desc_shape_ok(bj) {
            p.bat_side matches Some(v) && bat_side_matches(v, bj)
        } else {
            p.bat_side is None
        },
        None => p.bat_side is None,
    })
    &&& (match spec_get(j, "pitchHand"@) {
        Some(bj) => if code_desc_shape_ok(bj) {
            p.pitch_hand matches Some(v) && pitch_hand_matches(v, bj)
        } else {
            p.pitch_hand is None
        },
        None => p.pitch_hand is None,
    })
    &&& opt_str_eq(p.birth_date, spec_str_at(j, seq!["birthDate"@]))
    &&& opt_str_eq(p.birth_city, spec_str_at(j, seq!["birthCity"@]))
    &&& opt_str_eq(p.birth_country, spec_str_at(j, seq!["birthCountry"@]))
    &&& opt_str_eq(p.height, spec_str_at(j, seq!["height"@]))
    &&& p.weight == spec_u32_at(j, seq!["weight"@])
    &&& p.current_age == spec_u32_at(j, seq!["currentAge"@])
    &&& opt_str_eq(p.mlb_debut_date, spec_str_at(j, seq!["mlbDebutDate"@]))
    &&& opt_str_eq(p.nick_name, spec_str_at(j, seq!["nickName"@]))
    &&& p.active == spec_bool_at(j, seq!["active"@])
}

/// Extracts a player from a full player object. The id and the three name
/// fields are required; everything else is optional.
pub fn player_from_json(j: &JsonValue) -> (r: Result<Player, SportError>)
    ensures
        (r is Ok) == player_shape_ok(*j),
        r matches Ok(p) ==> player_matches(p, *j),
        r matches Err(e) ==> e is FetchError,
{
    let id = match j.u32_key1("id") {
        Some(v) => v,
        None => {
            return Err(SportError::FetchError("missing required player field: id".to_owned()));
        },
    };
    let full_name = match j.str_key1("fullName") {
        Some(v) => v,
        None => {
            return Err(
                SportError::FetchError("missing required player field: fullName".to_owned()),
            );
        },
    };
    let first_name = match j.str_key1("firstName") {
        Some(v) => v,
        None => {
            return Err(
                SportError::FetchError("missing required player field: firstName".to_owned()),
            );
        },
    };
    let last_name = match j.str_key1("lastName") {
        Some(v) => v,
        None => {
            return Err(
                SportError::FetchError("missing required player field: lastName".to_owned()),
            );
        },
    };
    let current_team = match j.get("currentTeam") {
        Some(tj) => match team_from_json(tj) {
            Ok(t) => Some(t),
            Err(_) => None,
        },
        None => None,
    };
    let position = match j.get("primaryPosition") {
        Some(pj) => position_from_json(pj),
        None => None,
    };
    let bat_side = match j.get("batSide") {
        Some(bj) => bat_side_from_json(bj),
        None => None,
    };
    let pitch_hand = match j.get("pitchHand") {
        Some(bj) => pitch_hand_from_json(bj),
        None => None,
    };
    Ok(
        Player {
            id,
            full_name,
            first_name,
            last_name,
            primary_number: j.str_key1("primaryNumber"),
            current_team,
            position,
            bat_side,
            pitch_hand,
            birth_date: j.str_key1("birthDate"),
            birth_city: j.str_key1("birthCity"),
            birth_country: j.str_key1("birthCountry"),
            height: j.str_key1("height"),
            weight: j.u32_key1("weight"),
            current_age: j.u32_key1("currentAge"),
            mlb_debut_date: j.str_key1("mlbDebutDate"),
            nick_name: j.str_key1("nickName"),
            active: j.bool_key1("active"),
        },
    )
}

/// Normalizes the player-by-id response: the first entry of the `people`
/// array, extracted as a player.
pub fn normalize_player(doc: &JsonValue, player_id: u32) -> (r: Result<Player, SportError>)
    ensures
        (r is Ok) == (spec_first_under(*doc, "people"@) matches Some(e) && player_shape_ok(e)),
        r matches Ok(p) ==> (spec_first_under(*doc, "people"@) matches Some(e) && player_matches(
            p,
            e,
        )),
        r matches Err(e) ==> e is FetchError,
{
    let people = match doc.get("people") {
        Some(v) => v,
        None => {
            let msg = concat3("Player with ID ", u32_string(player_id).as_str(), " not found");
            return Err(SportError::FetchError(msg));
        },
    };
    let entry = match people.idx(0) {
        Some(v) => v,
        None => {
            let msg = concat3("Player with ID ", u32_string(player_id).as_str(), " not found");
            return Err(SportError::FetchError(msg));
        },
    };
    player_from_json(entry)
}

/// Normalizes the team-by-id response: the first entry of the `teams`
/// array, extracted as a team.
pub fn normalize_team(doc: &JsonValue, team_id: u32) -> (r: Result<Team, SportError>)
    ensures
        (r is Ok) == (spec_first_under(*doc, "teams"@) matches Some(e) && team_shape_ok(e)),
        r matches Ok(t) ==> (spec_first_under(*doc, "teams"@) matches Some(e) && team_matches(
            t,
            e,
        )),
        r matches Err(e) ==> e is FetchError,
{
    let teams = match doc.get("teams") {
        Some(v) => v,
        None => {
            let msg = concat3("Team with ID ", u32_string(team_id).as_str(), " not found");
            return Err(SportError::FetchError(msg));
        },
    };
    let entry = match teams.idx(0) {
        Some(v) => v,
        None => {
            let msg = concat3("Team with ID ", u32_string(team_id).as_str(), " not found");
            return Err(SportError::FetchError(msg));
        },
    };
    team_from_json(entry)
}

/// One side of a schedule-endpoint game: score, winner flag and the team's
/// descriptive fields, everything optional and defaulted.
pub open spec fn sched_team_matches(gt: GameTeam, j: JsonValue, key: Seq<char>) -> bool {
    &&& gt.score == spec_u32_at(j, seq!["teams"@, key, "score"@])
    &&& gt.team.id == spec_u32_or(j, seq!["teams"@, key, "team"@, "id"@], 0)
    &&& gt.team.name@ == spec_str_or(j, seq!["teams"@, key, "team"@, "name"@], ""@)
    &&& opt_str_eq(gt.team.team_code, spec_str_at(j, seq!["teams"@, key, "team"@, "teamCode"@]))
    &&& opt_str_eq(gt.team.file_code, spec_str_at(j, seq!["teams"@, key, "team"@, "fileCode"@]))
    &&& opt_str_eq(gt.team.team_name, spec_str_at(j, seq!["teams"@, key, "team"@, "teamName"@]))
    &&& opt_str_eq(
        gt.team.location_name,
        spec_str_at(j, seq!["teams"@, key, "team"@, "locationName"@]),
    )
    &&& opt_str_eq(gt.team.short_name, spec_str_at(j, seq!["teams"@, key, "team"@, "shortName"@]))
    &&& opt_str_eq(
        gt.team.abbreviation,
        spec_str_at(j, seq!["teams"@, key, "team"@, "abbreviation"@]),
    )
    &&& gt.team.franchise_name is None
    &&& gt.team.club_name is None
    &&& gt.team.first_year_of_play is None
    &&& gt.team.active is None
    &&& gt.team.venue is None
    &&& gt.team.league is None
    &&& gt.team.division is None
    &&& gt.is_winner == spec_bool_at(j, seq!["teams"@, key, "isWinner"@])
}

/// A game extracted from one schedule entry: nothing is required, every
/// field has its documented default, and the status comes through the
/// status mapper.
pub open spec fn sched_game_matches(g: Game, j: JsonValue) -> bool {
    &&& g.game_pk == spec_u32_or(j, seq!["gamePk"@], 0)
    &&& g.game_date@ == spec_str_or(j, seq!["gameDate"@], ""@)
    &&& g.status == spec_map_status(
        spec_str_or(j, seq!["status"@, "abstractGameState"@], "Unknown"@),
    )
    &&& sched_team_matches(g.teams.away, j, "away"@)
    &&& sched_team_matches(g.teams.home, j, "home"@)
    &&& (g.venue matches Some(v) && v.id == spec_u32_or(j, seq!["venue"@, "id"@], 0) && v.name@
        == spec_str_or(j, seq!["venue"@, "name"@], ""@))
}

fn sched_team_from_json(j: &JsonValue, key: &str) -> (r: GameTeam)
    ensures
        sched_team_matches(r, *j, key@),
{
    GameTeam {
        score: j.u32_key3("teams", key, "score"),
        team: Team {
            id: j.u32_def4("teams", key, "team", "id", 0),
            name: j.str_def4("teams", key, "team", "name", ""),
            team_code: j.str_key4("teams", key, "team", "teamCode"),
            file_code: j.str_key4("teams", key, "team", "fileCode"),
            team_name: j.str_key4("teams", key, "team", "teamName"),
            location_name: j.str_key4("teams", key, "team", "locationName"),
            short_name: j.str_key4("teams", key, "team", "shortName"),
            abbreviation: j.str_key4("teams", key, "team", "abbreviation"),
            franchise_name: None,
            club_name: None,
            first_year_of_play: None,
            active: None,
            venue: None,
            league: None,
            division: None,
        },
        is_winner: j.bool_key3("teams", key, "isWinner"),
    }
}

/// Extracts a game from one schedule entry. Total: absent fields take their
/// defaults, an unrecognized status maps to `Unknown`.
pub fn game_from_schedule_json(j: &JsonValue) -> (r: Game)
    ensures
        sched_game_matches(r, *j),
{
    let status_word = j.str_def2("status", "abstractGameState", "Unknown");
    Game {
        game_pk: j.u32_def1("gamePk", 0),
        game_date: j.str_def1("gameDate", ""),
        status: map_status(status_word.as_str()),
        teams: GameTeams {
            away: sched_team_from_json(j, "away"),
            home: sched_team_from_json(j, "home"),
        },
        venue: Some(
            Venue { id: j.u32_def2("venue", "id", 0), name: j.str_def2("venue", "name", "") },
        ),
    }
}

/// The games listed under one schedule day, an empty run where the day has
/// none.
pub open spec fn games_of_date(d: JsonValue) -> Seq<JsonValue> {
    match spec_arr_at(d, seq!["games"@]) {
        Some(g) => g,
        None => Seq::empty(),
    }
}

/// All games of a run of schedule days, in day order.
pub open spec fn games_of_dates(dates: Seq<JsonValue>) -> Seq<JsonValue>
    decreases dates.len(),
{
    if dates.len() == 0 {
        Seq::empty()
    } else {
        games_of_date(dates[0]) + games_of_dates(dates.drop_first())
    }
}

/// The flattened game list of a whole schedule document.
pub open spec fn daily_game_list(doc: JsonValue) -> Seq<JsonValue> {
    match spec_arr_at(doc, seq!["dates"@]) {
        Some(d) => games_of_dates(d),
        None => Seq::empty(),
    }
}

proof fn lemma_games_of_dates_push(dates: Seq<JsonValue>, x: JsonValue)
    ensures
        games_of_dates(dates.push(x)) == games_of_dates(dates) + games_of_date(x),
    decreases dates.len(),
{
    if dates.len() == 0 {
        assert(dates.push(x).drop_first() =~= Seq::<JsonValue>::empty());
        assert(dates.push(x)[0] == x);
        assert(games_of_dates(Seq::<JsonValue>::empty()) =~= Seq::<JsonValue>::empty());
        assert(games_of_dates(dates.push(x)) == games_of_date(x) + games_of_dates(
            Seq::<JsonValue>::empty(),
        ));
        assert(games_of_dates(dates) =~= Seq::<JsonValue>::empty());
        assert(games_of_dates(dates.push(x)) =~= games_of_dates(dates) + games_of_date(x));
    } else {
        assert(dates.push(x).drop_first() =~= dates.drop_first().push(x));
        assert(dates.push(x)[0] == dates[0]);
        lemma_games_of_dates_push(dates.drop_first(), x);
        assert(games_of_dates(dates.push(x)) == games_of_date(dates[0]) + games_of_dates(
            dates.drop_first().push(x),
        ));
        assert(games_of_date(dates[0]) + (games_of_dates(dates.drop_first()) + games_of_date(x))
            =~= (games_of_date(dates[0]) + games_of_dates(dates.drop_first())) + games_of_date(x));
        assert(games_of_dates(dates.push(x)) =~= games_of_dates(dates) + games_of_date(x));
    }
}

/// Normalizes a whole daily-schedule document into its flattened game list,
/// in day order then game order. Total: days without games contribute
/// nothing, and a document without days gives the empty list.
pub fn normalize_daily_schedule(doc: &JsonValue) -> (r: Vec<Game>)
    ensures
        r@.len() == daily_game_list(*doc).len(),
        forall|i: int|
            0 <= i < r@.len() ==> sched_game_matches(#[trigger] r@[i], daily_game_list(*doc)[i]),
{
    let mut out: Vec<Game> = Vec::new();
    let dates = match doc.arr_key1("dates") {
        Some(d) => d,
        None => {
            return out;
        },
    };
    let n = dates.len();
    let mut i: usize = 0;
    proof {
        assert(dates@.take(0) =~= Seq::<JsonValue>::empty());
    }
    while i < n
        invariant
            n == dates@.len(),
            i <= n,
            spec_arr_at(*doc, seq!["dates"@]) == Some(dates@),
            out@.len() == games_of_dates(dates@.take(i as int)).len(),
            forall|k: int|
                0 <= k < out@.len() ==> sched_game_matches(
                    #[trigger] out@[k],
                    games_of_dates(dates@.take(i as int))[k],
                ),
        decreases n - i,
    {
        let ghost prefix = games_of_dates(dates@.take(i as int));
        let date = &dates[i];
        match date.arr_key1("games") {
            Some(games) => {
                let m = games.len();
                let mut jx: usize = 0;
                while jx < m
                    invariant
                        m == games@.len(),
                        jx <= m,
                        games_of_date(dates@[i as int]) == games@,
                        out@.len() == prefix.len() + jx,
                        forall|k: int|
                            0 <= k < prefix.len() ==> sched_game_matches(
                                #[trigger] out@[k],
                                prefix[k],
                            ),
                        forall|k: int|
                            prefix.len() <= k < out@.len() ==> sched_game_matches(
                                #[trigger] out@[k],
                                games@[k - prefix.len()],
                            ),
                    decreases m - jx,
                {
                    let g = game_from_schedule_json(&games[jx]);
                    out.push(g);
                    jx = jx + 1;
                }
            },
            None => {
                proof {
                    assert(games_of_date(dates@[i as int]) =~= Seq::<JsonValue>::empty());
                }
            },
        }
        proof {
            assert(dates@.take(i as int).push(dates@[i as int]) =~= dates@.take(i + 1));
            lemma_games_of_dates_push(dates@.take(i as int), dates@[i as int]);
        }
        i = i + 1;
    }
    proof {
        assert(dates@.take(n as int) =~= dates@);
    }
    out
}

/// A schedule document is well-shaped: it has its day list, and every day
/// carries a date and a game list.
pub open spec fn sched_dates_ok(doc: JsonValue) -> bool {
    match spec_arr_at(doc, seq!["dates"@]) {
        Some(dates) => forall|i: int|
            0 <= i < dates.len() ==> (spec_str_at(#[trigger] dates[i], seq!["date"@]) is Some
                && spec_arr_at(dates[i], seq!["games"@]) is Some),
        None => false,
    }
}

/// One schedule day extracted with its date and its games, in order.
pub open spec fn sched_date_matches(d: ScheduleDate, j: JsonValue) -> bool {
    &&& Some(d.date@) == spec_str_at(j, seq!["date"@])
    &&& (match spec_arr_at(j, seq!["games"@]) {
        Some(games) => d.games@.len() == games.len() && (forall|k: int|
            0 <= k < games.len() ==> sched_game_matches(#[trigger] d.games@[k], games[k])),
        None => false,
    })
}

/// A schedule extracted day by day.
pub open spec fn schedule_matches(s: Schedule, doc: JsonValue) -> bool {
    match spec_arr_at(doc, seq!["dates"@]) {
        Some(dates) => s.dates@.len() == dates.len() && (forall|i: int|
            0 <= i < dates.len() ==> sched_date_matches(#[trigger] s.dates@[i], dates[i])),
        None => false,
    }
}

/// Normalizes a schedule document into its day-by-day structure. The day
/// list, and each day's date and game list, are required; the games
/// themselves are extracted defensively.
pub fn normalize_team_schedule(doc: &JsonValue) -> (r: Result<Schedule, SportError>)
    ensures
        (r is Ok) == sched_dates_ok(*doc),
        r matches Ok(s) ==> schedule_matches(s, *doc),
        r matches Err(e) ==> e is FetchError,
{
    let dates = match doc.arr_key1("dates") {
        Some(d) => d,
        None => {
            return Err(SportError::FetchError("missing required schedule field: dates".to_owned()));
        },
    };
    let n = dates.len();
    let mut out: Vec<ScheduleDate> = Vec::new();
    let mut i: usize = 0;
    while i < n
        invariant
            n == dates@.len(),
            i <= n,
            spec_arr_at(*doc, seq!["dates"@]) == Some(dates@),
            out@.len() == i,
            forall|k: int|
                0 <= k < i ==> (spec_str_at(#[trigger] dates@[k], seq!["date"@]) is Some
                    && spec_arr_at(dates@[k], seq!["games"@]) is Some),
            forall|k: int| 0 <= k < i ==> sched_date_matches(#[trigger] out@[k], dates@[k]),
        decreases n - i,
    {
        let dj = &dates[i];
        let date = match dj.str_key1("date") {
            Some(v) => v,
            None => {
                return Err(
                    SportError::FetchError("missing required schedule field: date".to_owned()),
                );
            },
        };
        let games_json = match dj.arr_key1("games") {
            Some(v) => v,
            None => {
                return Err(
                    SportError::FetchError("missing required schedule field: games".to_owned()),
                );
            },
        };
        let m = games_json.len();
        let mut games: Vec<Game> = Vec::new();
        let mut jx: usize = 0;
        while jx < m
            invariant
                m == games_json@.len(),
                jx <= m,
                games@.len() == jx,
                forall|k: int|
                    0 <= k < jx ==> sched_game_matches(#[trigger] games@[k], games_json@[k]),
            decreases m - jx,
        {
            let g = game_from_schedule_json(&games_json[jx]);
            games.push(g);
            jx = jx + 1;
        }
        out.push(ScheduleDate { date, games });
        i = i + 1;
    }
    Ok(Schedule { dates: out })
}

/// One side of a live-feed game, read from the document's top-level side
/// object: required presence of the object, every field inside defaulted.
pub open spec fn live_team_matches(gt: GameTeam, doc: JsonValue, key: Seq<char>) -> bool {
    match spec_get(doc, key) {
        Some(td) => {
            &&& gt.score == spec_u32_at(td, seq!["runs"@])
            &&& gt.team.id == spec_u32_or(td, seq!["id"@], 0)
            &&& gt.team.name@ == spec_str_or(td, seq!["name"@], ""@)
            &&& opt_str_eq(gt.team.team_code, spec_str_at(td, seq!["teamCode"@]))
            &&& opt_str_eq(gt.team.file_code, spec_str_at(td, seq!["fileCode"@]))
            &&& opt_str_eq(gt.team.team_name, spec_str_at(td, seq!["teamName"@]))
            &&& opt_str_eq(gt.team.location_name, spec_str_at(td, seq!["locationName"@]))
            &&& opt_str_eq(gt.team.short_name, spec_str_at(td, seq!["shortName"@]))
            &&& opt_str_eq(gt.team.abbreviation, spec_str_at(td, seq!["abbreviation"@]))
            &&& gt.team.franchise_name is None
            &&& gt.team.club_name is None
            &&& gt.team.first_year_of_play is None
            &&& gt.team.active is None
            &&& gt.team.venue is None
            &&& gt.team.league is None
            &&& gt.team.division is None
            &&& gt.is_winner == spec_bool_at(td, seq!["isWinner"@])
        },
        None => false,
    }
}

fn extract_game_team(doc: &JsonValue, team_type: &str) -> (r: Result<GameTeam, SportError>)
    ensures
        (r is Ok) == (spec_get(*doc, team_type@) is Some),
        r matches Ok(gt) ==> live_team_matches(gt, *doc, team_type@),
        r matches Err(e) ==> (e matches SportError::FetchError(m) && m@ == "Missing "@ + team_type@
            + " team data"@),
{
    let td = match doc.get(team_type) {
        Some(v) => v,
        None => {
            return Err(SportError::FetchError(concat3("Missing ", team_type, " team data")));
        },
    };
    Ok(
        GameTeam {
            score: td.u32_key1("runs"),
            team: Team {
                id: td.u32_def1("id", 0),
                name: td.str_def1("name", ""),
                team_code: td.str_key1("teamCode"),
                file_code: td.str_key1("fileCode"),
                team_name: td.str_key1("teamName"),
                location_name: td.str_key1("locationName"),
                short_name: td.str_key1("shortName"),
                abbreviation: td.str_key1("abbreviation"),
                franchise_name: None,
                club_name: None,
                first_year_of_play: None,
                active: None,
                venue: None,
                league: None,
                division: None,
            },
            is_winner: td.bool_key1("isWinner"),
        },
    )
}

/// Normalizes the game-by-id (live feed) response: the game header comes
/// from `gameData`, each side from the document's top-level side object,
/// and the status through the status mapper.
pub fn normalize_live_feed_game(doc: &JsonValue) -> (r: Result<Game, SportError>)
    ensures
        (r is Ok) == (spec_get(*doc, "gameData"@) is Some && spec_get(*doc, "away"@) is Some
            && spec_get(*doc, "home"@) is Some),
        r matches Ok(g) ==> (spec_get(*doc, "gameData"@) matches Some(gd) && {
            &&& g.game_pk == spec_u32_or(gd, seq!["gamePk"@], 0)
            &&& g.game_date@ == spec_str_or(gd, seq!["gameDate"@], ""@)
            &&& g.status == spec_map_status(
                spec_str_or(gd, seq!["status"@, "abstractGameState"@], "Unknown"@),
            )
            &&& live_team_matches(g.teams.away, *doc, "away"@)
            &&& live_team_matches(g.teams.home, *doc, "home"@)
            &&& (g.venue matches Some(v) && v.id == spec_u32_or(gd, seq!["venue"@, "id"@], 0)
                && v.name@ == spec_str_or(gd, seq!["venue"@, "name"@], ""@))
        }),
        r matches Err(e) ==> e is FetchError,
{
    let gd = match doc.get("gameData") {
        Some(v) => v,
        None => {
            return Err(SportError::FetchError("Missing game data".to_owned()));
        },
    };
    let status_word = gd.str_def2("status", "abstractGameState", "Unknown");
    let away = match extract_game_team(doc, "away") {
        Ok(v) => v,
        Err(e) => {
            return Err(e);
        },
    };
    let home = match extract_game_team(doc, "home") {
        Ok(v) => v,
        Err(e) => {
            return Err(e);
        },
    };
    Ok(
        Game {
            game_pk: gd.u32_def1("gamePk", 0),
            game_date: gd.str_def1("gameDate", ""),
            status: map_status(status_word.as_str()),
            teams: GameTeams { away, home },
            venue: Some(
                Venue { id: gd.u32_def2("venue", "id", 0), name: gd.str_def2("venue", "name", "") },
            ),
        },
    )
}

/// An aggregate batting line read from a box-score team object, every field
/// defaulted: zeros for counts, `".000"` for the rate strings.
pub open spec fn batting_matches(b: BattingStats, td: JsonValue) -> bool {
    &&& b.runs == spec_u32_or(td, seq!["teamStats"@, "batting"@, "runs"@], 0)
    &&& b.hits == spec_u32_or(td, seq!["teamStats"@, "batting"@, "hits"@], 0)
    &&& b.home_runs == spec_u32_or(td, seq!["teamStats"@, "batting"@, "homeRuns"@], 0)
    &&& b.rbi == spec_u32_or(td, seq!["teamStats"@, "batting"@, "rbi"@], 0)
    &&& b.stolen_bases == spec_u32_or(td, seq!["teamStats"@, "batting"@, "stolenBases"@], 0)
    &&& b.avg@ == spec_str_or(td, seq!["teamStats"@, "batting"@, "avg"@], ".000"@)
    &&& b.obp@ == spec_str_or(td, seq!["teamStats"@, "batting"@, "obp"@], ".000"@)
    &&& b.slg@ == spec_str_or(td, seq!["teamStats"@, "batting"@, "slg"@], ".000"@)
    &&& b.ops@ == spec_str_or(td, seq!["teamStats"@, "batting"@, "ops"@], ".000"@)
}

/// An aggregate pitching line read from a box-score team object, defaulted:
/// zeros for counts, `"0"` innings and `"0.00"` ERA.
pub open spec fn pitching_matches(p: PitchingStats, td: JsonValue) -> bool {
    &&& p.innings_pitched@ == spec_str_or(td, seq!["teamStats"@, "pitching"@, "inningsPitched"@], "0"@)
    &&& p.hits_allowed == spec_u32_or(td, seq!["teamStats"@, "pitching"@, "hits"@], 0)
    &&& p.runs_allowed == spec_u32_or(td, seq!["teamStats"@, "pitching"@, "runs"@], 0)
    &&& p.earned_runs == spec_u32_or(td, seq!["teamStats"@, "pitching"@, "earnedRuns"@], 0)
    &&& p.walks == spec_u32_or(td, seq!["teamStats"@, "pitching"@, "baseOnBalls"@], 0)
    &&& p.strikeouts == spec_u32_or(td, seq!["teamStats"@, "pitching"@, "strikeOuts"@], 0)
    &&& p.home_runs_allowed == spec_u32_or(td, seq!["teamStats"@, "pitching"@, "homeRuns"@], 0)
    &&& p.era@ == spec_str_or(td, seq!["teamStats"@, "pitching"@, "era"@], "0.00"@)
}

/// The ids listed under a key, an empty run where there is no array.
pub open spec fn ids_under(td: JsonValue, key: Seq<char>) -> Seq<JsonValue> {
    match spec_arr_at(td, seq![key]) {
        Some(v) => v,
        None => Seq::empty(),
    }
}

/// The player object a roster id leads to, provided the id is readable, the
/// object exists under `players` as `ID<id>`, and it carries the named
/// stats group.
pub open spec fn player_source(td: JsonValue, idj: JsonValue, group: Seq<char>) -> Option<
    JsonValue,
> {
    match spec_as_u64(idj) {
        Some(id) => match spec_get(td, "players"@) {
            Some(players) => match spec_get(players, "ID"@ + spec_dec(id as nat)) {
                Some(pobj) => if spec_at(pobj, seq!["stats"@, group]) is Some {
                    Some(pobj)
                } else {
                    None
                },
                None => None,
            },
            None => None,
        },
        None => None,
    }
}

/// The player objects of all listed ids that resolve for the named stats
/// group, in roster order.
pub open spec fn player_sources(td: JsonValue, ids: Seq<JsonValue>, group: Seq<char>) -> Seq<
    JsonValue,
>
    decreases ids.len(),
{
    if ids.len() == 0 {
        Seq::empty()
    } else {
        let rest = player_sources(td, ids.drop_first(), group);
        match player_source(td, ids[0], group) {
            Some(p) => seq![p] + rest,
            None => rest,
        }
    }
}

proof fn lemma_player_sources_push(td: JsonValue, ids: Seq<JsonValue>, x: JsonValue, group: Seq<
    char,
>)
    ensures
        player_sources(td, ids.push(x), group) == player_sources(td, ids, group) + (
        match player_source(td, x, group) {
            Some(p) => seq![p],
            None => Seq::<JsonValue>::empty(),
        }),
    decreases ids.len(),
{
    let tail = match player_source(td, x, group) {
        Some(p) => seq![p],
        None => Seq::<JsonValue>::empty(),
    };
    if ids.len() == 0 {
        assert(ids.push(x).drop_first() =~= Seq::<JsonValue>::empty());
        assert(ids.push(x)[0] == x);
        assert(player_sources(td, Seq::<JsonValue>::empty(), group) =~= Seq::<JsonValue>::empty());
        assert(player_sources(td, ids.push(x), group) =~= player_sources(td, ids, group) + tail);
    } else {
        assert(ids.push(x).drop_first() =~= ids.drop_first().push(x));
        assert(ids.push(x)[0] == ids[0]);
        lemma_player_sources_push(td, ids.drop_first(), x, group);
        assert(player_sources(td, ids.push(x), group) =~= player_sources(td, ids, group) + tail);
    }
}

/// One batter's line read from its player object, every field defaulted.
pub open spec fn batter_line_matches(b: PlayerBattingStats, pobj: JsonValue) -> bool {
    &&& b.name@ == spec_str_or(pobj, seq!["person"@, "fullName"@], "Unknown Player"@)
    &&& b.hits == spec_u32_or(pobj, seq!["stats"@, "batting"@, "hits"@], 0)
    &&& b.at_bats == spec_u32_or(pobj, seq!["stats"@, "batting"@, "atBats"@], 0)
    &&& b.home_runs == spec_u32_or(pobj, seq!["stats"@, "batting"@, "homeRuns"@], 0)
    &&& b.rbi == spec_u32_or(pobj, seq!["stats"@, "batting"@, "rbi"@], 0)
    &&& b.runs == spec_u32_or(pobj, seq!["stats"@, "batting"@, "runs"@], 0)
    &&& b.doubles == spec_u32_or(pobj, seq!["stats"@, "batting"@, "doubles"@], 0)
    &&& b.triples == spec_u32_or(pobj, seq!["stats"@, "batting"@, "triples"@], 0)
    &&& b.stolen_bases == spec_u32_or(pobj, seq!["stats"@, "batting"@, "stolenBases"@], 0)
    &&& b.walks == spec_u32_or(pobj, seq!["stats"@, "batting"@, "baseOnBalls"@], 0)
    &&& b.strikeouts == spec_u32_or(pobj, seq!["stats"@, "batting"@, "strikeOuts"@], 0)
    &&& opt_str_eq(b.avg, spec_str_at(pobj, seq!["stats"@, "batting"@, "avg"@]))
    &&& opt_str_eq(b.obp, spec_str_at(pobj, seq!["stats"@, "batting"@, "obp"@]))
    &&& opt_str_eq(b.slg, spec_str_at(pobj, seq!["stats"@, "batting"@, "slg"@]))
}

/// One pitcher's line read from its player object, every field defaulted.
pub open spec fn pitcher_line_matches(p: PlayerPitchingStats, pobj: JsonValue) -> bool {
    &&& p.name@ == spec_str_or(pobj, seq!["person"@, "fullName"@], "Unknown Player"@)
    &&& p.innings_pitched@ == spec_str_or(pobj, seq!["stats"@, "pitching"@, "inningsPitched"@], "0"@)
    &&& p.strikeouts == spec_u32_or(pobj, seq!["stats"@, "pitching"@, "strikeOuts"@], 0)
    &&& p.earned_runs == spec_u32_or(pobj, seq!["stats"@, "pitching"@, "earnedRuns"@], 0)
    &&& p.hits_allowed == spec_u32_or(pobj, seq!["stats"@, "pitching"@, "hits"@], 0)
    &&& p.runs_allowed == spec_u32_or(pobj, seq!["stats"@, "pitching"@, "runs"@], 0)
    &&& p.walks == spec_u32_or(pobj, seq!["stats"@, "pitching"@, "baseOnBalls"@], 0)
    &&& p.home_runs_allowed == spec_u32_or(pobj, seq!["stats"@, "pitching"@, "homeRuns"@], 0)
    &&& opt_str_eq(p.era, spec_str_at(pobj, seq!["stats"@, "pitching"@, "era"@]))
}

fn lookup_player<'a>(td: &'a JsonValue, idj: &JsonValue, group: &str) -> (r: Option<
    &'a JsonValue,
>)
    ensures
        r matches Some(p) ==> player_source(*td, *idj, group@) == Some(*p),
        r is None ==> player_source(*td, *idj, group@) is None,
{
    let id = match idj.as_u64() {
        Some(v) => v,
        None => {
            return None;
        },
    };
    let players = match td.get("players") {
        Some(v) => v,
        None => {
            return None;
        },
    };
    let key = concat2("ID", u64_string(id).as_str());
    let pobj = match players.get(key.as_str()) {
        Some(v) => v,
        None => {
            return None;
        },
    };
    match pobj.key2("stats", group) {
        Some(_) => Some(pobj),
        None => None,
    }
}

fn batter_line_from(pobj: &JsonValue) -> (r: PlayerBattingStats)
    ensures
        batter_line_matches(r, *pobj),
{
    PlayerBattingStats {
        name: pobj.str_def2("person", "fullName", "Unknown Player"),
        hits: pobj.u32_def3("stats", "batting", "hits", 0),
        at_bats: pobj.u32_def3("stats", "batting", "atBats", 0),
        home_runs: pobj.u32_def3("stats", "batting", "homeRuns", 0),
        rbi: pobj.u32_def3("stats", "batting", "rbi", 0),
        runs: pobj.u32_def3("stats", "batting", "runs", 0),
        doubles: pobj.u32_def3("stats", "batting", "doubles", 0),
        triples: pobj.u32_def3("stats", "batting", "triples", 0),
        stolen_bases: pobj.u32_def3("stats", "batting", "stolenBases", 0),
        walks: pobj.u32_def3("stats", "batting", "baseOnBalls", 0),
        strikeouts: pobj.u32_def3("stats", "batting", "strikeOuts", 0),
        avg: pobj.str_key3("stats", "batting", "avg"),
        obp: pobj.str_key3("stats", "batting", "obp"),
        slg: pobj.str_key3("stats", "batting", "slg"),
    }
}

fn pitcher_line_from(pobj: &JsonValue) -> (r: PlayerPitchingStats)
    ensures
        pitcher_line_matches(r, *pobj),
{
    PlayerPitchingStats {
        name: pobj.str_def2("person", "fullName", "Unknown Player"),
        innings_pitched: pobj.str_def3("stats", "pitching", "inningsPitched", "0"),
        strikeouts: pobj.u32_def3("stats", "pitching", "strikeOuts", 0),
        earned_runs: pobj.u32_def3("stats", "pitching", "earnedRuns", 0),
        hits_allowed: pobj.u32_def3("stats", "pitching", "hits", 0),
        runs_allowed: pobj.u32_def3("stats", "pitching", "runs", 0),
        walks: pobj.u32_def3("stats", "pitching", "baseOnBalls", 0),
        home_runs_allowed: pobj.u32_def3("stats", "pitching", "homeRuns", 0),
        era: pobj.str_key3("stats", "pitching", "era"),
    }
}

/// A whole team's box score extracted from its team object.
pub open spec fn team_stats_matches(ts: TeamStats, td: JsonValue) -> bool {
    &&& Some(ts.team_name@) == spec_str_at(td, seq!["team"@, "name"@])
    &&& batting_matches(ts.batting, td)
    &&& pitching_matches(ts.pitching, td)
    &&& ts.batters@.len() == player_sources(td, ids_under(td, "batters"@), "batting"@).len()
    &&& (forall|k: int|
        0 <= k < ts.batters@.len() ==> batter_line_matches(
            #[trigger] ts.batters@[k],
            player_sources(td, ids_under(td, "batters"@), "batting"@)[k],
        ))
    &&& ts.pitchers@.len() == player_sources(td, ids_under(td, "pitchers"@), "pitching"@).len()
    &&& (forall|k: int|
        0 <= k < ts.pitchers@.len() ==> pitcher_line_matches(
            #[trigger] ts.pitchers@[k],
            player_sources(td, ids_under(td, "pitchers"@), "pitching"@)[k],
        ))
}

/// Extracts one team's box score. The team name is required; the aggregate
/// lines take their defaults, and the per-player lines follow the roster id
/// lists in order, keeping exactly the players whose stats group exists.
pub fn extract_team_stats(td: &JsonValue) -> (r: Result<TeamStats, SportError>)
    ensures
        (r is Ok) == (spec_str_at(*td, seq!["team"@, "name"@]) is Some),
        r matches Ok(ts) ==> team_stats_matches(ts, *td),
        r matches Err(e) ==> (e matches SportError::FetchError(m) && m@ == "Missing team name"@),
{
    let team_name = match td.str_key2("team", "name") {
        Some(v) => v,
        None => {
            return Err(SportError::FetchError("Missing team name".to_owned()));
        },
    };
    let batting = BattingStats {
        runs: td.u32_def3("teamStats", "batting", "runs", 0),
        hits: td.u32_def3("teamStats", "batting", "hits", 0),
        home_runs: td.u32_def3("teamStats", "batting", "homeRuns", 0),
        rbi: td.u32_def3("teamStats", "batting", "rbi", 0),
        stolen_bases: td.u32_def3("teamStats", "batting", "stolenBases", 0),
        avg: td.str_def3("teamStats", "batting", "avg", ".000"),
        obp: td.str_def3("teamStats", "batting", "obp", ".000"),
        slg: td.str_def3("teamStats", "batting", "slg", ".000"),
        ops: td.str_def3("teamStats", "batting", "ops", ".000"),
    };
    let pitching = PitchingStats {
        innings_pitched: td.str_def3("teamStats", "pitching", "inningsPitched", "0"),
        hits_allowed: td.u32_def3("teamStats", "pitching", "hits", 0),
        runs_allowed: td.u32_def3("teamStats", "pitching", "runs", 0),
        earned_runs: td.u32_def3("teamStats", "pitching", "earnedRuns", 0),
        walks: td.u32_def3("teamStats", "pitching", "baseOnBalls", 0),
        strikeouts: td.u32_def3("teamStats", "pitching", "strikeOuts", 0),
        home_runs_allowed: td.u32_def3("teamStats", "pitching", "homeRuns", 0),
        era: td.str_def3("teamStats", "pitching", "era", "0.00"),
    };
    let mut batters: Vec<PlayerBattingStats> = Vec::new();
    match td.arr_key1("batters") {
        Some(ids) => {
            let n = ids.len();
            let mut i: usize = 0;
            proof {
                assert(ids@.take(0) =~= Seq::<JsonValue>::empty());
            }
            while i < n
                invariant
                    n == ids@.len(),
                    ids_under(*td, "batters"@) == ids@,
                    i <= n,
                    batters@.len() == player_sources(*td, ids@.take(i as int), "batting"@).len(),
                    forall|k: int|
                        0 <= k < batters@.len() ==> batter_line_matches(
                            #[trigger] batters@[k],
                            player_sources(*td, ids@.take(i as int), "batting"@)[k],
                        ),
                decreases n - i,
            {
                match lookup_player(td, &ids[i], "batting") {
                    Some(pobj) => {
                        batters.push(batter_line_from(pobj));
                    },
                    None => {},
                }
                proof {
                    assert(ids@.take(i as int).push(ids@[i as int]) =~= ids@.take(i + 1));
                    lemma_player_sources_push(*td, ids@.take(i as int), ids@[i as int], "batting"@);
                }
                i = i + 1;
            }
            proof {
                assert(ids@.take(n as int) =~= ids@);
            }
        },
        None => {
            proof {
                assert(ids_under(*td, "batters"@) =~= Seq::<JsonValue>::empty());
            }
        },
    }
    let mut pitchers: Vec<PlayerPitchingStats> = Vec::new();
    match td.arr_key1("pitchers") {
        Some(ids) => {
            let n = ids.len();
            let mut i: usize = 0;
            proof {
                assert(ids@.take(0) =~= Seq::<JsonValue>::empty());
            }
            while i < n
                invariant
                    n == ids@.len(),
                    ids_under(*td, "pitchers"@) == ids@,
                    i <= n,
                    pitchers@.len() == player_sources(*td, ids@.take(i as int), "pitching"@).len(),
                    forall|k: int|
                        0 <= k < pitchers@.len() ==> pitcher_line_matches(
                            #[trigger] pitchers@[k],
                            player_sources(*td, ids@.take(i as int), "pitching"@)[k],
                        ),
                decreases n - i,
            {
                match lookup_player(td, &ids[i], "pitching") {
                    Some(pobj) => {
                        pitchers.push(pitcher_line_from(pobj));
                    },
                    None => {},
                }
                proof {
                    assert(ids@.take(i as int).push(ids@[i as int]) =~= ids@.take(i + 1));
                    lemma_player_sources_push(
                        *td,
                        ids@.take(i as int),
                        ids@[i as int],
                        "pitching"@,
                    );
                }
                i = i + 1;
            }
            proof {
                assert(ids@.take(n as int) =~= ids@);
            }
        },
        None => {
            proof {
                assert(ids_under(*td, "pitchers"@) =~= Seq::<JsonValue>::empty());
            }
        },
    }
    Ok(TeamStats { team_name, batting, pitching, batters, pitchers })
}

/// Normalizes the box-score response into both teams' statistics. The
/// `teams` object and both sides are required, as is each side's team name.
pub fn normalize_game_stats(doc: &JsonValue) -> (r: Result<GameStats, SportError>)
    ensures
        (r is Ok) == (spec_at(*doc, seq!["teams"@, "away"@]) matches Some(a) && spec_at(
            *doc,
            seq!["teams"@, "home"@],
        ) matches Some(h) && spec_str_at(a, seq!["team"@, "name"@]) is Some && spec_str_at(
            h,
            seq!["team"@, "name"@],
        ) is Some),
        r matches Ok(gs) ==> (spec_at(*doc, seq!["teams"@, "away"@]) matches Some(a) && spec_at(
            *doc,
            seq!["teams"@, "home"@],
        ) matches Some(h) && team_stats_matches(gs.away_team_stats, a) && team_stats_matches(
            gs.home_team_stats,
            h,
        )),
        r matches Err(e) ==> e is FetchError,
{
    proof {
        crate::json::lemma_at2(*doc, "teams"@, "away"@);
        crate::json::lemma_at2(*doc, "teams"@, "home"@);
    }
    let teams = match doc.get("teams") {
        Some(v) => v,
        None => {
            return Err(SportError::FetchError("Missing teams data".to_owned()));
        },
    };
    let away = match teams.get("away") {
        Some(v) => v,
        None => {
            return Err(SportError::FetchError("Missing away team data".to_owned()));
        },
    };
    let home = match teams.get("home") {
        Some(v) => v,
        None => {
            return Err(SportError::FetchError("Missing home team data".to_owned()));
        },
    };
    let away_team_stats = match extract_team_stats(away) {
        Ok(v) => v,
        Err(e) => {
            return Err(e);
        },
    };
    let home_team_stats = match extract_team_stats(home) {
        Ok(v) => v,
        Err(e) => {
            return Err(e);
        },
    };
    Ok(GameStats { away_team_stats, home_team_stats })
}

/// A run of inning rows read from a linescore array: the inning numbers
/// count from one, each side's runs independently optional.
pub open spec fn inning_rows_match(innings: Seq<InningData>, src: Seq<JsonValue>) -> bool {
    innings.len() == src.len() && (forall|i: int|
        0 <= i < src.len() ==> {
            &&& (#[trigger] innings[i]).inning == ((i + 1) as u32)
            &&& innings[i].home == spec_u32_at(src[i], seq!["home"@, "runs"@])
            &&& innings[i].away == spec_u32_at(src[i], seq!["away"@, "runs"@])
        })
}

fn innings_from_array(arr: &Vec<JsonValue>) -> (r: Vec<InningData>)
    ensures
        inning_rows_match(r@, arr@),
{
    let n = arr.len();
    let mut out: Vec<InningData> = Vec::new();
    let mut i: usize = 0;
    while i < n
        invariant
            n == arr@.len(),
            i <= n,
            out@.len() == i,
            forall|k: int|
                0 <= k < i ==> {
                    &&& (#[trigger] out@[k]).inning == ((k + 1) as u32)
                    &&& out@[k].home == spec_u32_at(arr@[k], seq!["home"@, "runs"@])
                    &&& out@[k].away == spec_u32_at(arr@[k], seq!["away"@, "runs"@])
                },
        decreases n - i,
    {
        let inning = &arr[i];
        let row = InningData {
            inning: #[verifier::truncate] ((i + 1) as u32),
            home: inning.u32_key2("home", "runs"),
            away: inning.u32_key2("away", "runs"),
        };
        out.push(row);
        i = i + 1;
    }
    out
}

/// The innings array under a linescore object, an empty run where there is
/// none.
pub open spec fn innings_src(linescore: JsonValue) -> Seq<JsonValue> {
    match spec_arr_at(linescore, seq!["innings"@]) {
        Some(v) => v,
        None => Seq::empty(),
    }
}

/// A team of the live-feed header, read under `gameData.teams`: id and name
/// defaulted, descriptive fields optional, everything else absent.
pub open spec fn feed_team_matches(t: Team, gd: JsonValue, key: Seq<char>) -> bool {
    &&& t.id == spec_u32_or(gd, seq!["teams"@, key, "id"@], 0)
    &&& t.name@ == spec_str_or(gd, seq!["teams"@, key, "name"@], ""@)
    &&& opt_str_eq(t.team_code, spec_str_at(gd, seq!["teams"@, key, "teamCode"@]))
    &&& opt_str_eq(t.file_code, spec_str_at(gd, seq!["teams"@, key, "fileCode"@]))
    &&& opt_str_eq(t.team_name, spec_str_at(gd, seq!["teams"@, key, "teamName"@]))
    &&& opt_str_eq(t.location_name, spec_str_at(gd, seq!["teams"@, key, "locationName"@]))
    &&& opt_str_eq(t.short_name, spec_str_at(gd, seq!["teams"@, key, "shortName"@]))
    &&& opt_str_eq(t.abbreviation, spec_str_at(gd, seq!["teams"@, key, "abbreviation"@]))
    &&& t.franchise_name is None
    &&& t.club_name is None
    &&& t.first_year_of_play is None
    &&& t.active is None
    &&& t.venue is None
    &&& t.league is None
    &&& t.division is None
}

fn feed_team_from(gd: &JsonValue, key: &str) -> (r: Team)
    ensures
        feed_team_matches(r, *gd, key@),
{
    Team {
        id: gd.u32_def3("teams", key, "id", 0),
        name: gd.str_def3("teams", key, "name", ""),
        team_code: gd.str_key3("teams", key, "teamCode"),
        file_code: gd.str_key3("teams", key, "fileCode"),
        team_name: gd.str_key3("teams", key, "teamName"),
        location_name: gd.str_key3("teams", key, "locationName"),
        short_name: gd.str_key3("teams", key, "shortName"),
        abbreviation: gd.str_key3("teams", key, "abbreviation"),
        franchise_name: None,
        club_name: None,
        first_year_of_play: None,
        active: None,
        venue: None,
        league: None,
        division: None,
    }
}

/// The live-feed document carries everything the innings breakdown needs:
/// the game header with its status, and the linescore with both sides.
pub open spec fn feed_live_shape_ok(doc: JsonValue) -> bool {
    &&& spec_get(doc, "gameData"@) is Some
    &&& spec_at(doc, seq!["gameData"@, "status"@]) is Some
    &&& spec_at(doc, seq!["liveData"@, "linescore"@]) is Some
    &&& spec_at(doc, seq!["liveData"@, "linescore"@, "teams"@, "away"@]) is Some
    &&& spec_at(doc, seq!["liveData"@, "linescore"@, "teams"@, "home"@]) is Some
}

/// Normalizes the live-feed response into the inning breakdown. The game
/// header, its status object and the linescore's two sides are required;
/// innings and totals are extracted defensively.
/// The inning breakdown the live-feed normalizer produces for a well-shaped
/// document.
pub open spec fn feed_live_result_matches(gi: GameInnings, doc: JsonValue) -> bool {
    spec_get(doc, "gameData"@) matches Some(gd) && spec_at(
        doc,
        seq!["liveData"@, "linescore"@],
    ) matches Some(ls) && spec_at(
        doc,
        seq!["liveData"@, "linescore"@, "teams"@, "away"@],
    ) matches Some(aw) && spec_at(
        doc,
        seq!["liveData"@, "linescore"@, "teams"@, "home"@],
    ) matches Some(hm) && {
        &&& gi.game_pk == spec_u32_or(gd, seq!["game"@, "pk"@], 0)
        &&& gi.game_date@ == spec_str_or(gd, seq!["datetime"@, "dateTime"@], ""@)
        &&& gi.status == spec_map_status(
            spec_str_or(gd, seq!["status"@, "abstractGameState"@], "Unknown"@),
        )
        &&& feed_team_matches(gi.home_team, gd, "home"@)
        &&& feed_team_matches(gi.away_team, gd, "away"@)
        &&& inning_rows_match(gi.innings@, innings_src(ls))
        &&& gi.home_runs == spec_u32_at(hm, seq!["runs"@])
        &&& gi.away_runs == spec_u32_at(aw, seq!["runs"@])
    }
}

pub fn normalize_feed_live_innings(doc: &JsonValue) -> (r: Result<GameInnings, SportError>)
    ensures
        (r is Ok) == feed_live_shape_ok(*doc),
        r matches Ok(gi) ==> feed_live_result_matches(gi, *doc),
        r matches Err(e) ==> e is FetchError,
{
    proof {
        crate::json::lemma_at2(*doc, "gameData"@, "status"@);
        crate::json::lemma_at2(*doc, "liveData"@, "linescore"@);
    }
    let gd = match doc.get("gameData") {
        Some(v) => v,
        None => {
            return Err(SportError::FetchError("Missing game data".to_owned()));
        },
    };
    if gd.get("status").is_none() {
        return Err(SportError::FetchError("Missing status data".to_owned()));
    }
    let status_word = gd.str_def2("status", "abstractGameState", "Unknown");
    let ld = match doc.get("liveData") {
        Some(v) => v,
        None => {
            return Err(SportError::FetchError("Missing live data".to_owned()));
        },
    };
    let ls = match ld.get("linescore") {
        Some(v) => v,
        None => {
            return Err(SportError::FetchError("Missing linescore data".to_owned()));
        },
    };
    proof {
        let head = seq!["liveData"@, "linescore"@];
        assert(head + seq!["teams"@, "away"@] =~= seq![
            "liveData"@,
            "linescore"@,
            "teams"@,
            "away"@,
        ]);
        assert(head + seq!["teams"@, "home"@] =~= seq![
            "liveData"@,
            "linescore"@,
            "teams"@,
            "home"@,
        ]);
        crate::json::lemma_at_concat(*doc, head, seq!["teams"@, "away"@]);
        crate::json::lemma_at_concat(*doc, head, seq!["teams"@, "home"@]);
        crate::json::lemma_at2(*ls, "teams"@, "away"@);
        crate::json::lemma_at2(*ls, "teams"@, "home"@);
    }
    let teams = match ls.get("teams") {
        Some(v) => v,
        None => {
            return Err(SportError::FetchError("Missing teams data".to_owned()));
        },
    };
    let away = match teams.get("away") {
        Some(v) => v,
        None => {
            return Err(SportError::FetchError("Missing away team data".to_owned()));
        },
    };
    let home = match teams.get("home") {
        Some(v) => v,
        None => {
            return Err(SportError::FetchError("Missing home team data".to_owned()));
        },
    };
    let innings = match ls.arr_key1("innings") {
        Some(arr) => innings_from_array(arr),
        None => {
            let empty: Vec<InningData> = Vec::new();
            proof {
                assert(innings_src(*ls) =~= Seq::<JsonValue>::empty());
            }
            empty
        },
    };
    Ok(
        GameInnings {
            game_pk: gd.u32_def2("game", "pk", 0),
            game_date: gd.str_def2("datetime", "dateTime", ""),
            status: map_status(status_word.as_str()),
            home_team: feed_team_from(gd, "home"),
            away_team: feed_team_from(gd, "away"),
            innings,
            home_runs: home.u32_key1("runs"),
            away_runs: away.u32_key1("runs"),
        },
    )
}

/// A team of the linescore fallback, read from the boxscore document under
/// `teams.<side>.team`: id and name defaulted, nothing else carried.
pub open spec fn box_team_matches(t: Team, boxscore: JsonValue, key: Seq<char>) -> bool {
    &&& t.id == spec_u32_or(boxscore, seq!["teams"@, key, "team"@, "id"@], 0)
    &&& t.name@ == spec_str_or(boxscore, seq!["teams"@, key, "team"@, "name"@], ""@)
    &&& t.team_code is None
    &&& t.file_code is None
    &&& t.team_name is None
    &&& t.location_name is None
    &&& t.short_name is None
    &&& t.abbreviation is None
    &&& t.franchise_name is None
    &&& t.club_name is None
    &&& t.first_year_of_play is None
    &&& t.active is None
    &&& t.venue is None
    &&& t.league is None
    &&& t.division is None
}

fn box_team_from(boxscore: &JsonValue, key: &str) -> (r: Team)
    ensures
        box_team_matches(r, *boxscore, key@),
{
    Team {
        id: boxscore.u32_def4("teams", key, "team", "id", 0),
        name: boxscore.str_def4("teams", key, "team", "name", ""),
        team_code: None,
        file_code: None,
        team_name: None,
        location_name: None,
        short_name: None,
        abbreviation: None,
        franchise_name: None,
        club_name: None,
        first_year_of_play: None,
        active: None,
        venue: None,
        league: None,
        division: None,
    }
}

/// The linescore document carries both sides' totals objects.
pub open spec fn linescore_shape_ok(linescore: JsonValue) -> bool {
    &&& spec_at(linescore, seq!["teams"@, "away"@]) is Some
    &&& spec_at(linescore, seq!["teams"@, "home"@]) is Some
}

/// Normalizes the linescore fallback into the inning breakdown: innings and
/// totals from the linescore, team identities from the boxscore, and the
/// status taken to be `Final` as a policy choice — this endpoint reports no
/// status of its own and is only consulted for games known to be over.
/// The inning breakdown the linescore fallback produces for a well-shaped
/// pair of documents.
pub open spec fn linescore_result_matches(
    gi: GameInnings,
    linescore: JsonValue,
    boxscore: JsonValue,
    game_id: u32,
) -> bool {
    spec_at(linescore, seq!["teams"@, "away"@]) matches Some(aw) && spec_at(
        linescore,
        seq!["teams"@, "home"@],
    ) matches Some(hm) && {
        &&& gi.game_pk == game_id
        &&& gi.game_date@ == spec_str_or(linescore, seq!["gameDate"@], ""@)
        &&& gi.status is Final
        &&& box_team_matches(gi.home_team, boxscore, "home"@)
        &&& box_team_matches(gi.away_team, boxscore, "away"@)
        &&& inning_rows_match(gi.innings@, innings_src(linescore))
        &&& gi.home_runs == spec_u32_at(hm, seq!["runs"@])
        &&& gi.away_runs == spec_u32_at(aw, seq!["runs"@])
    }
}

pub fn normalize_linescore_innings(linescore: &JsonValue, boxscore: &JsonValue, game_id: u32) -> (r:
    Result<GameInnings, SportError>)
    ensures
        (r is Ok) == linescore_shape_ok(*linescore),
        r matches Ok(gi) ==> linescore_result_matches(gi, *linescore, *boxscore, game_id),
        r matches Err(e) ==> e is FetchError,
{
    proof {
        crate::json::lemma_at2(*linescore, "teams"@, "away"@);
        crate::json::lemma_at2(*linescore, "teams"@, "home"@);
    }
    let teams = match linescore.get("teams") {
        Some(v) => v,
        None => {
            return Err(SportError::FetchError("Missing teams data in linescore".to_owned()));
        },
    };
    let away = match teams.get("away") {
        Some(v) => v,
        None => {
            return Err(SportError::FetchError("Missing away team data in linescore".to_owned()));
        },
    };
    let home = match teams.get("home") {
        Some(v) => v,
        None => {
            return Err(SportError::FetchError("Missing home team data in linescore".to_owned()));
        },
    };
    let innings = match linescore.arr_key1("innings") {
        Some(arr) => innings_from_array(arr),
        None => {
            let empty: Vec<InningData> = Vec::new();
            proof {
                assert(innings_src(*linescore) =~= Seq::<JsonValue>::empty());
            }
            empty
        },
    };
    Ok(
        GameInnings {
            game_pk: game_id,
            game_date: linescore.str_def1("gameDate", ""),
            status: GameState::Final,
            home_team: box_team_from(boxscore, "home"),
            away_team: box_team_from(boxscore, "away"),
            innings,
            home_runs: home.u32_key1("runs"),
            away_runs: away.u32_key1("runs"),
        },
    )
}

/// A missing optional field comes out as its documented default: a team
/// object without the batting-average path yields the `".000"` sentinel.
pub proof fn lemma_missing_avg_defaults(ts: TeamStats, td: JsonValue)
    requires
        team_stats_matches(ts, td),
        spec_str_at(td, seq!["teamStats"@, "batting"@, "avg"@]) is None,
    ensures
        ts.batting.avg@ == ".000"@,
{
}

/// A missing optional field comes out absent, not zero: a schedule game
/// without a recorded score keeps the side's score unset.
pub proof fn lemma_missing_score_is_none(g: Game, j: JsonValue)
    requires
        sched_game_matches(g, j),
        spec_u32_at(j, seq!["teams"@, "away"@, "score"@]) is None,
    ensures
        g.teams.away.score is None,
{
}

/// A missing required field is a structural error, never a default: a team
/// object without its id is rejected by the team normalizer.
pub proof fn lemma_missing_required_id_rejected(j: JsonValue)
    requires
        spec_u32_at(j, seq!["id"@]) is None,
    ensures
        !team_shape_ok(j),
{
}

/// The whole-body entry points: each parses the response text and hands the
/// document to its normalizer; a body that is not JSON is itself a
/// structural error.
pub fn normalize_player_response(body: &str, player_id: u32) -> (r: Result<Player, SportError>)
    ensures
        crate::json::parsed_json(body@) matches Some(doc) ==> {
            &&& (r is Ok) == (spec_first_under(doc, "people"@) matches Some(e) && player_shape_ok(
                e,
            ))
            &&& (r matches Ok(p) ==> (spec_first_under(doc, "people"@) matches Some(e)
                && player_matches(p, e)))
        },
        crate::json::parsed_json(body@) is None ==> r is Err,
        r matches Err(e) ==> e is FetchError,
{
    match crate::json::parse_json(body) {
        Some(doc) => normalize_player(&doc, player_id),
        None => Err(SportError::FetchError("invalid JSON body".to_owned())),
    }
}

/// Parses and normalizes the team-by-id response body.
pub fn normalize_team_response(body: &str, team_id: u32) -> (r: Result<Team, SportError>)
    ensures
        crate::json::parsed_json(body@) matches Some(doc) ==> {
            &&& (r is Ok) == (spec_first_under(doc, "teams"@) matches Some(e) && team_shape_ok(e))
            &&& (r matches Ok(t) ==> (spec_first_under(doc, "teams"@) matches Some(e)
                && team_matches(t, e)))
        },
        crate::json::parsed_json(body@) is None ==> r is Err,
        r matches Err(e) ==> e is FetchError,
{
    match crate::json::parse_json(body) {
        Some(doc) => normalize_team(&doc, team_id),
        None => Err(SportError::FetchError("invalid JSON body".to_owned())),
    }
}

/// Parses and normalizes the game-by-id (live feed) response body.
pub fn normalize_live_feed_game_response(body: &str) -> (r: Result<Game, SportError>)
    ensures
        crate::json::parsed_json(body@) matches Some(doc) ==> {
            &&& (r is Ok) == (spec_get(doc, "gameData"@) is Some && spec_get(doc, "away"@) is Some
                && spec_get(doc, "home"@) is Some)
            &&& (r matches Ok(g) ==> (spec_get(doc, "gameData"@) matches Some(gd) && {
                &&& g.game_pk == spec_u32_or(gd, seq!["gamePk"@], 0)
                &&& g.game_date@ == spec_str_or(gd, seq!["gameDate"@], ""@)
                &&& g.status == spec_map_status(
                    spec_str_or(gd, seq!["status"@, "abstractGameState"@], "Unknown"@),
                )
                &&& live_team_matches(g.teams.away, doc, "away"@)
                &&& live_team_matches(g.teams.home, doc, "home"@)
            }))
        },
        crate::json::parsed_json(body@) is None ==> r is Err,
        r matches Err(e) ==> e is FetchError,
{
    match crate::json::parse_json(body) {
        Some(doc) => normalize_live_feed_game(&doc),
        None => Err(SportError::FetchError("invalid JSON body".to_owned())),
    }
}

/// Parses a daily-schedule response body and normalizes its game list.
pub fn normalize_daily_schedule_response(body: &str) -> (r: Result<Vec<Game>, SportError>)
    ensures
        crate::json::parsed_json(body@) matches Some(doc) ==> (r matches Ok(games) && games@.len()
            == daily_game_list(doc).len() && (forall|i: int|
            0 <= i < games@.len() ==> sched_game_matches(
                #[trigger] games@[i],
                daily_game_list(doc)[i],
            ))),
        crate::json::parsed_json(body@) is None ==> (r matches Err(e) && e is FetchError),
{
    match crate::json::parse_json(body) {
        Some(doc) => Ok(normalize_daily_schedule(&doc)),
        None => Err(SportError::FetchError("invalid JSON body".to_owned())),
    }
}

/// Parses a team-schedule response body and normalizes it day by day.
pub fn normalize_team_schedule_response(body: &str) -> (r: Result<Schedule, SportError>)
    ensures
        crate::json::parsed_json(body@) matches Some(doc) ==> {
            &&& (r is Ok) == sched_dates_ok(doc)
            &&& (r matches Ok(s) ==> schedule_matches(s, doc))
        },
        crate::json::parsed_json(body@) is None ==> r is Err,
        r matches Err(e) ==> e is FetchError,
{
    match crate::json::parse_json(body) {
        Some(doc) => normalize_team_schedule(&doc),
        None => Err(SportError::FetchError("invalid JSON body".to_owned())),
    }
}

/// Parses a boxscore response body and normalizes both teams' statistics.
pub fn normalize_game_stats_response(body: &str) -> (r: Result<GameStats, SportError>)
    ensures
        crate::json::parsed_json(body@) matches Some(doc) ==> {
            &&& (r is Ok) == (spec_at(doc, seq!["teams"@, "away"@]) matches Some(a) && spec_at(
                doc,
                seq!["teams"@, "home"@],
            ) matches Some(h) && spec_str_at(a, seq!["team"@, "name"@]) is Some && spec_str_at(
                h,
                seq!["team"@, "name"@],
            ) is Some)
            &&& (r matches Ok(gs) ==> (spec_at(doc, seq!["teams"@, "away"@]) matches Some(a)
                && spec_at(doc, seq!["teams"@, "home"@]) matches Some(h) && team_stats_matches(
                gs.away_team_stats,
                a,
            ) && team_stats_matches(gs.home_team_stats, h)))
        },
        crate::json::parsed_json(body@) is None ==> r is Err,
        r matches Err(e) ==> e is FetchError,
{
    match crate::json::parse_json(body) {
        Some(doc) => normalize_game_stats(&doc),
        None => Err(SportError::FetchError("invalid JSON body".to_owned())),
    }
}

} // verus!
