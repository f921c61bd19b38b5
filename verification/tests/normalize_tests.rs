use plaintext_sports::mlb::normalize::{
    normalize_daily_schedule_response, normalize_game_stats_response,
    normalize_live_feed_game_response, normalize_player_response, normalize_team_response,
    normalize_team_schedule_response,
};
use plaintext_sports::mlb::GameState;
use plaintext_sports::SportError;

#[test]
fn test_normalize_team_ok() {
    let body = r#"{"teams":[{"id":145,"name":"Chicago White Sox","teamCode":"cws","abbreviation":"CWS","venue":{"id":4,"name":"Guaranteed Rate Field"},"league":{"id":103,"name":"American League"}}]}"#;
    let team = normalize_team_response(body, 145).unwrap();
    assert_eq!(team.id, 145);
    assert_eq!(team.name, "Chicago White Sox");
    assert_eq!(team.team_code, Some("cws".to_string()));
    assert_eq!(team.file_code, None);
    assert_eq!(team.venue.as_ref().unwrap().name, "Guaranteed Rate Field");
    assert_eq!(team.league.as_ref().unwrap().id, 103);
    assert!(team.division.is_none());
}

#[test]
fn test_normalize_team_missing_required() {
    // Absent team id on a normalizer that treats it as mandatory: a
    // structural error, not a defaulted value.
    let body = r#"{"teams":[{"name":"Nameless"}]}"#;
    let r = normalize_team_response(body, 7);
    assert!(r.is_err());

    let empty = r#"{"teams":[]}"#;
    match normalize_team_response(empty, 7) {
        Err(SportError::FetchError(m)) => assert_eq!(m, "Team with ID 7 not found"),
        other => panic!("unexpected: {:?}", other),
    }
}

#[test]
fn test_normalize_player_defaults() {
    // Missing optional fields come back absent, not invented.
    let body = r#"{"people":[{"id":547989,"fullName":"Jose Abreu","firstName":"Jose","lastName":"Abreu","weight":255}]}"#;
    let p = normalize_player_response(body, 547989).unwrap();
    assert_eq!(p.id, 547989);
    assert_eq!(p.full_name, "Jose Abreu");
    assert_eq!(p.weight, Some(255));
    assert_eq!(p.primary_number, None);
    assert!(p.current_team.is_none());
    assert!(p.position.is_none());
}

#[test]
fn test_normalize_live_feed_game() {
    let body = r#"{
        "gameData": {
            "gamePk": 777,
            "gameDate": "2024-03-28T20:10:00Z",
            "status": {"abstractGameState": "Final", "detailedState": "Final"},
            "venue": {"id": 31, "name": "Wrigley Field"}
        },
        "away": {"runs": 3, "id": 1, "name": "White Sox", "locationName": "Chicago", "isWinner": false},
        "home": {"runs": 5, "id": 2, "name": "Cubs", "locationName": "Chicago", "isWinner": true}
    }"#;
    let g = normalize_live_feed_game_response(body).unwrap();
    assert_eq!(g.game_pk, 777);
    assert_eq!(g.status, GameState::Final);
    assert_eq!(g.teams.away.score, Some(3));
    assert_eq!(g.teams.home.score, Some(5));
    assert_eq!(g.teams.home.is_winner, Some(true));
    assert_eq!(g.venue.as_ref().unwrap().name, "Wrigley Field");

    // The away side object is required.
    let missing = r#"{"gameData": {"gamePk": 777}, "home": {}}"#;
    match normalize_live_feed_game_response(missing) {
        Err(SportError::FetchError(m)) => assert_eq!(m, "Missing away team data"),
        other => panic!("unexpected: {:?}", other),
    }
}

#[test]
fn test_normalize_daily_schedule() {
    let body = r#"{
        "dates": [
            {"date": "2024-03-28", "games": [
                {"gamePk": 1, "gameDate": "2024-03-28T17:00:00Z",
                 "status": {"abstractGameState": "Preview"},
                 "teams": {
                    "away": {"team": {"id": 10, "name": "Away Co"}},
                    "home": {"score": 4, "team": {"id": 11, "name": "Home Co"}, "isWinner": true}
                 }}
            ]},
            {"date": "2024-03-29"}
        ]
    }"#;
    let games = normalize_daily_schedule_response(body).unwrap();
    assert_eq!(games.len(), 1);
    assert_eq!(games[0].game_pk, 1);
    assert_eq!(games[0].status, GameState::Scheduled);
    // Missing score stays absent for a game not yet started, not zero.
    assert_eq!(games[0].teams.away.score, None);
    assert_eq!(games[0].teams.home.score, Some(4));
    assert_eq!(games[0].teams.away.team.name, "Away Co");

    // A schedule for the strict endpoint requires its day list.
    assert!(normalize_team_schedule_response(r#"{}"#).is_err());
    let sched = normalize_team_schedule_response(body);
    // The second day has no game list, which the strict form requires.
    assert!(sched.is_err());
}

#[test]
fn test_normalize_game_stats() {
    let body = r#"{
        "teams": {
            "away": {
                "team": {"name": "Away Co"},
                "teamStats": {"batting": {"runs": 3, "hits": 8, "homeRuns": 1},
                               "pitching": {"inningsPitched": "9.0", "strikeOuts": 10}},
                "batters": [7],
                "players": {"ID7": {"person": {"fullName": "Slugger"},
                                     "stats": {"batting": {"hits": 2, "atBats": 4}}}}
            },
            "home": {
                "team": {"name": "Home Co"}
            }
        }
    }"#;
    let gs = normalize_game_stats_response(body).unwrap();
    assert_eq!(gs.away_team_stats.team_name, "Away Co");
    assert_eq!(gs.away_team_stats.batting.runs, 3);
    // Missing optional rate fields take their sentinels.
    assert_eq!(gs.away_team_stats.batting.avg, ".000");
    assert_eq!(gs.away_team_stats.pitching.era, "0.00");
    assert_eq!(gs.away_team_stats.batters.len(), 1);
    assert_eq!(gs.away_team_stats.batters[0].name, "Slugger");
    assert_eq!(gs.away_team_stats.batters[0].hits, 2);
    assert_eq!(gs.home_team_stats.batters.len(), 0);

    // A side without its team name is a structural error.
    let missing = r#"{"teams": {"away": {"team": {"name": "A"}}, "home": {}}}"#;
    match normalize_game_stats_response(missing) {
        Err(SportError::FetchError(m)) => assert_eq!(m, "Missing team name"),
        other => panic!("unexpected: {:?}", other),
    }
}

#[test]
fn test_invalid_json_is_structural_error() {
    assert!(normalize_team_response("{not json", 1).is_err());
    assert!(normalize_live_feed_game_response("", ).is_err());
    assert!(normalize_daily_schedule_response("[1,").is_err());
}
