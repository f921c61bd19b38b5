use plaintext_sports::mlb::{map_status, Game, GameState, GameTeam, GameTeams, Team, Venue};

#[test]
fn test_team_creation() {
    let team = Team {
        id: 1,
        name: String::from("New York Yankees"),
        team_code: Some("nyy".to_string()),
        file_code: Some("nyy".to_string()),
        team_name: Some("Yankees".to_string()),
        location_name: Some("New York".to_string()),
        short_name: Some("Yankees".to_string()),
        abbreviation: Some("NYY".to_string()),
        franchise_name: None,
        club_name: None,
        first_year_of_play: None,
        active: None,
        venue: None,
        league: None,
        division: None,
    };

    assert_eq!(team.name, "New York Yankees");
    assert_eq!(team.team_code, Some("nyy".to_string()));
    assert_eq!(team.abbreviation, Some("NYY".to_string()));
}

#[test]
fn test_game_creation() {
    let home_team = Team {
        id: 2,
        name: String::from("Boston Red Sox"),
        team_code: Some("bos".to_string()),
        file_code: Some("bos".to_string()),
        team_name: Some("Red Sox".to_string()),
        location_name: Some("Boston".to_string()),
        short_name: Some("Red Sox".to_string()),
        abbreviation: Some("BOS".to_string()),
        franchise_name: None,
        club_name: None,
        first_year_of_play: None,
        active: None,
        venue: None,
        league: None,
        division: None,
    };

    let away_team = Team {
        id: 1,
        name: String::from("New York Yankees"),
        team_code: Some("nyy".to_string()),
        file_code: Some("nyy".to_string()),
        team_name: Some("Yankees".to_string()),
        location_name: Some("New York".to_string()),
        short_name: Some("Yankees".to_string()),
        abbreviation: Some("NYY".to_string()),
        franchise_name: None,
        club_name: None,
        first_year_of_play: None,
        active: None,
        venue: None,
        league: None,
        division: None,
    };

    let game = Game {
        game_pk: 12345,
        game_date: String::from("2024-03-14T19:05:00Z"),
        status: GameState::Final,
        teams: GameTeams {
            home: GameTeam { score: Some(6), team: home_team, is_winner: Some(true) },
            away: GameTeam { score: Some(5), team: away_team, is_winner: Some(false) },
        },
        venue: Some(Venue { id: 1, name: String::from("Fenway Park") }),
    };

    assert_eq!(game.game_pk, 12345);
    assert_eq!(game.status, GameState::Final);
    assert_eq!(game.teams.home.score, Some(6));
    assert_eq!(game.teams.away.score, Some(5));
}

#[test]
fn test_map_status_table() {
    // Every recognized provider word maps to its documented state, and
    // anything else, the empty string included, maps to Unknown.
    assert_eq!(map_status("Final"), GameState::Final);
    assert_eq!(map_status("Live"), GameState::Live);
    assert_eq!(map_status("Preview"), GameState::Scheduled);
    assert_eq!(map_status("Postponed"), GameState::Postponed);
    assert_eq!(map_status("Cancelled"), GameState::Cancelled);
    assert_eq!(map_status("Suspended"), GameState::Suspended);
    assert_eq!(map_status(""), GameState::Unknown);
    assert_eq!(map_status("In Progress"), GameState::Unknown);
    assert_eq!(map_status("final"), GameState::Unknown);
}

#[test]
fn test_game_winner_exclusive() {
    // A completed game with home 5, away 3: exactly one side carries the
    // winner flag, never both.
    let mk_team = |id: u32, name: &str| Team {
        id,
        name: name.to_string(),
        team_code: None,
        file_code: None,
        team_name: None,
        location_name: None,
        short_name: None,
        abbreviation: None,
        franchise_name: None,
        club_name: None,
        first_year_of_play: None,
        active: None,
        venue: None,
        league: None,
        division: None,
    };
    let game = Game {
        game_pk: 7,
        game_date: "2024-05-01T19:00:00Z".to_string(),
        status: GameState::Final,
        teams: GameTeams {
            away: GameTeam { score: Some(3), team: mk_team(1, "Away"), is_winner: Some(false) },
            home: GameTeam { score: Some(5), team: mk_team(2, "Home"), is_winner: Some(true) },
        },
        venue: None,
    };
    let home_won = game.teams.home.is_winner == Some(true);
    let away_won = game.teams.away.is_winner == Some(true);
    assert!(home_won ^ away_won);
    assert_eq!(game.winner().map(|t| t.id), Some(2));

    // The score comparison agrees: index 1 is the home side.
    assert_eq!(
        plaintext_sports::utils::determine_winner(game.teams.away.score, game.teams.home.score),
        Some(1)
    );
}
