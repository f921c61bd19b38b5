use plaintext_sports::mlb::{
    BatSide, BattingStats, Division, Game, GameInnings, GameState, GameStats, GameTeam, GameTeams,
    InningData, League, PitchHand, PitchingStats, Player, PlayerBattingStats, PlayerPitchingStats,
    Position, Team, TeamStats, Venue,
};

fn mock_player() -> Player {
    Player {
        id: 1,
        full_name: "Test Player".to_string(),
        first_name: "Test".to_string(),
        last_name: "Player".to_string(),
        primary_number: Some("42".to_string()),
        current_team: Some(Team {
            id: 1,
            name: "Test Team".to_string(),
            team_code: Some("tst".to_string()),
            file_code: Some("tst".to_string()),
            team_name: Some("Test".to_string()),
            location_name: Some("Test City".to_string()),
            short_name: Some("Test".to_string()),
            abbreviation: Some("TST".to_string()),
            franchise_name: Some("Test".to_string()),
            club_name: Some("Test".to_string()),
            first_year_of_play: Some("2024".to_string()),
            active: Some(true),
            venue: Some(Venue { id: 1, name: "Test Venue".to_string() }),
            league: Some(League { id: 1, name: "Test League".to_string() }),
            division: Some(Division { id: 1, name: "Test Division".to_string() }),
        }),
        position: Some(Position {
            code: "P".to_string(),
            name: "Pitcher".to_string(),
            position_type: "Pitcher".to_string(),
            abbreviation: "P".to_string(),
        }),
        bat_side: Some(BatSide { code: "R".to_string(), description: "Right".to_string() }),
        pitch_hand: Some(PitchHand { code: "R".to_string(), description: "Right".to_string() }),
        birth_date: None,
        birth_city: None,
        birth_country: None,
        height: None,
        weight: None,
        current_age: None,
        mlb_debut_date: None,
        nick_name: None,
        active: Some(true),
    }
}

fn mock_team() -> Team {
    Team {
        id: 1,
        name: "Test Team".to_string(),
        team_code: Some("tst".to_string()),
        file_code: Some("tst".to_string()),
        team_name: Some("Test".to_string()),
        location_name: Some("Test City".to_string()),
        short_name: Some("Test".to_string()),
        abbreviation: Some("TST".to_string()),
        franchise_name: Some("Test".to_string()),
        club_name: Some("Test".to_string()),
        first_year_of_play: Some("2024".to_string()),
        active: Some(true),
        venue: Some(Venue { id: 1, name: "Test Venue".to_string() }),
        league: Some(League { id: 1, name: "Test League".to_string() }),
        division: Some(Division { id: 1, name: "Test Division".to_string() }),
    }
}

fn mock_game() -> Game {
    Game {
        game_pk: 12345,
        game_date: "2024-03-28T13:05:00Z".to_string(),
        status: GameState::Final,
        teams: GameTeams {
            away: GameTeam {
                score: Some(3),
                team: Team {
                    id: 1,
                    name: "White Sox".to_string(),
                    team_code: Some("cws".to_string()),
                    file_code: Some("cws".to_string()),
                    team_name: Some("White Sox".to_string()),
                    location_name: Some("Chicago".to_string()),
                    short_name: Some("White Sox".to_string()),
                    abbreviation: Some("CWS".to_string()),
                    franchise_name: None,
                    club_name: None,
                    first_year_of_play: None,
                    active: None,
                    venue: None,
                    league: None,
                    division: None,
                },
                is_winner: Some(false),
            },
            home: GameTeam {
                score: Some(5),
                team: Team {
                    id: 2,
                    name: "Cubs".to_string(),
                    team_code: Some("chc".to_string()),
                    file_code: Some("chc".to_string()),
                    team_name: Some("Cubs".to_string()),
                    location_name: Some("Chicago".to_string()),
                    short_name: Some("Cubs".to_string()),
                    abbreviation: Some("CHC".to_string()),
                    franchise_name: None,
                    club_name: None,
                    first_year_of_play: None,
                    active: None,
                    venue: None,
                    league: None,
                    division: None,
                },
                is_winner: Some(true),
            },
        },
        venue: Some(Venue { id: 1, name: "Wrigley Field".to_string() }),
    }
}

#[test]
fn mlb_test_get_player() {
    let player = mock_player();
    let display = player.display();
    assert!(display.contains("Test Player"));
    assert!(display.contains("Pitcher"));
}

#[test]
fn mlb_test_get_team() {
    let team = mock_team();
    let display = team.display();
    assert!(display.contains("Test Team"));
    assert!(display.contains("TST"));
    assert!(display.contains("Test League"));
    assert!(display.contains("Test Venue"));
}

#[test]
fn mlb_test_get_team_schedule() {
    let game = mock_game();
    let display = game.display();
    assert!(display.contains("Chicago White Sox"));
    assert!(display.contains("Chicago Cubs"));
}

#[test]
fn mlb_test_get_game() {
    let game = mock_game();
    let display = game.display();
    assert!(display.contains("Chicago White Sox"));
    assert!(display.contains("Chicago Cubs"));
}

#[test]
fn mlb_test_game_stats_display() {
    let game_stats = GameStats {
        away_team_stats: TeamStats {
            team_name: "Test Away Team".to_string(),
            batting: BattingStats {
                runs: 3,
                hits: 8,
                home_runs: 1,
                rbi: 3,
                stolen_bases: 2,
                avg: ".267".to_string(),
                obp: ".333".to_string(),
                slg: ".400".to_string(),
                ops: ".733".to_string(),
            },
            pitching: PitchingStats {
                innings_pitched: "9.0".to_string(),
                hits_allowed: 6,
                runs_allowed: 2,
                earned_runs: 2,
                walks: 3,
                strikeouts: 10,
                home_runs_allowed: 0,
                era: "2.00".to_string(),
            },
            batters: vec![
                PlayerBattingStats {
                    name: "Test Batter 1".to_string(),
                    hits: 3,
                    at_bats: 4,
                    home_runs: 1,
                    rbi: 2,
                    runs: 1,
                    doubles: 1,
                    triples: 0,
                    stolen_bases: 1,
                    walks: 0,
                    strikeouts: 1,
                    avg: Some(".750".to_string()),
                    obp: Some(".750".to_string()),
                    slg: Some("1.500".to_string()),
                },
                PlayerBattingStats {
                    name: "Test Batter 2".to_string(),
                    hits: 2,
                    at_bats: 4,
                    home_runs: 0,
                    rbi: 1,
                    runs: 1,
                    doubles: 1,
                    triples: 0,
                    stolen_bases: 0,
                    walks: 0,
                    strikeouts: 1,
                    avg: Some(".500".to_string()),
                    obp: Some(".500".to_string()),
                    slg: Some(".750".to_string()),
                },
                PlayerBattingStats {
                    name: "Test Batter 3".to_string(),
                    hits: 1,
                    at_bats: 3,
                    home_runs: 0,
                    rbi: 0,
                    runs: 1,
                    doubles: 0,
                    triples: 0,
                    stolen_bases: 1,
                    walks: 1,
                    strikeouts: 0,
                    avg: Some(".333".to_string()),
                    obp: Some(".500".to_string()),
                    slg: Some(".333".to_string()),
                },
            ],
            pitchers: vec![
                PlayerPitchingStats {
                    name: "Test Pitcher 1".to_string(),
                    innings_pitched: "6.0".to_string(),
                    strikeouts: 7,
                    earned_runs: 1,
                    hits_allowed: 4,
                    runs_allowed: 1,
                    walks: 2,
                    home_runs_allowed: 0,
                    era: Some("1.50".to_string()),
                },
                PlayerPitchingStats {
                    name: "Test Pitcher 2".to_string(),
                    innings_pitched: "3.0".to_string(),
                    strikeouts: 3,
                    earned_runs: 1,
                    hits_allowed: 2,
                    runs_allowed: 1,
                    walks: 1,
                    home_runs_allowed: 0,
                    era: Some("3.00".to_string()),
                },
            ],
        },
        home_team_stats: TeamStats {
            team_name: "Test Home Team".to_string(),
            batting: BattingStats {
                runs: 2,
                hits: 6,
                home_runs: 0,
                rbi: 2,
                stolen_bases: 1,
                avg: ".222".to_string(),
                obp: ".300".to_string(),
                slg: ".333".to_string(),
                ops: ".633".to_string(),
            },
            pitching: PitchingStats {
                innings_pitched: "9.0".to_string(),
                hits_allowed: 8,
                runs_allowed: 3,
                earned_runs: 3,
                walks: 2,
                strikeouts: 8,
                home_runs_allowed: 1,
                era: "3.00".to_string(),
            },
            batters: vec![
                PlayerBattingStats {
                    name: "Test Batter 3".to_string(),
                    hits: 2,
                    at_bats: 4,
                    home_runs: 0,
                    rbi: 1,
                    runs: 1,
                    doubles: 1,
                    triples: 0,
                    stolen_bases: 0,
                    walks: 0,
                    strikeouts: 1,
                    avg: Some(".500".to_string()),
                    obp: Some(".500".to_string()),
                    slg: Some(".750".to_string()),
                },
                PlayerBattingStats {
                    name: "Test Batter 4".to_string(),
                    hits: 1,
                    at_bats: 3,
                    home_runs: 0,
                    rbi: 1,
                    runs: 0,
                    doubles: 0,
                    triples: 0,
                    stolen_bases: 1,
                    walks: 1,
                    strikeouts: 1,
                    avg: Some(".333".to_string()),
                    obp: Some(".500".to_string()),
                    slg: Some(".333".to_string()),
                },
            ],
            pitchers: vec![
                PlayerPitchingStats {
                    name: "Test Pitcher 1".to_string(),
                    innings_pitched: "6.0".to_string(),
                    strikeouts: 7,
                    earned_runs: 1,
                    hits_allowed: 4,
                    runs_allowed: 1,
                    walks: 2,
                    home_runs_allowed: 0,
                    era: Some("1.50".to_string()),
                },
                PlayerPitchingStats {
                    name: "Test Pitcher 2".to_string(),
                    innings_pitched: "3.0".to_string(),
                    strikeouts: 3,
                    earned_runs: 1,
                    hits_allowed: 2,
                    runs_allowed: 1,
                    walks: 1,
                    home_runs_allowed: 0,
                    era: Some("3.00".to_string()),
                },
            ],
        },
    };

    let display = game_stats.display();

    assert!(display.contains("Test Away Team"));
    assert!(display.contains("Test Home Team"));
    assert!(display.contains("R: 3, H: 8, HR: 1"));
    assert!(display.contains("IP: 9.0, H: 6, R: 2"));
    assert!(display.contains("BATTERS:"));
    assert!(display.contains("PITCHERS:"));
    assert!(display.contains("Test Batter 1"));
    assert!(display.contains("Test Pitcher 1"));
    assert!(display.contains("Test Batter 3"));
    assert!(display.contains("Test Pitcher 2"));
}

#[test]
fn mlb_test_game_innings_display() {
    let game_innings = GameInnings {
        game_pk: 1,
        game_date: "2024-03-28T13:05:00Z".to_string(),
        status: GameState::Final,
        home_team: Team {
            id: 1,
            name: "Home Team".to_string(),
            team_code: None,
            file_code: None,
            team_name: None,
            location_name: None,
            short_name: None,
            abbreviation: None,
            franchise_name: None,
            club_name: None,
            first_year_of_play: None,
            active: None,
            venue: None,
            league: None,
            division: None,
        },
        away_team: Team {
            id: 2,
            name: "Away Team".to_string(),
            team_code: None,
            file_code: None,
            team_name: None,
            location_name: None,
            short_name: None,
            abbreviation: None,
            franchise_name: None,
            club_name: None,
            first_year_of_play: None,
            active: None,
            venue: None,
            league: None,
            division: None,
        },
        innings: vec![
            InningData { inning: 1, home: Some(1), away: Some(0) },
            InningData { inning: 2, home: Some(0), away: Some(2) },
        ],
        home_runs: Some(1),
        away_runs: Some(2),
    };

    let display = game_innings.display();

    assert!(display.contains("Game: Home Team vs Away Team"));
    assert!(display.contains("Date: 2024-03-28"));
    assert!(display.contains("Status: Final"));
    assert!(display.contains("Awa |  0  2  | 2"));
    assert!(display.contains("Hom |  1  0  | 1"));
}

#[test]
fn print_game_stats_display() {
    let game_stats = GameStats {
        away_team_stats: TeamStats {
            team_name: "Test Away Team".to_string(),
            batting: BattingStats {
                runs: 3,
                hits: 8,
                home_runs: 1,
                rbi: 3,
                stolen_bases: 2,
                avg: ".267".to_string(),
                obp: ".333".to_string(),
                slg: ".400".to_string(),
                ops: ".733".to_string(),
            },
            pitching: PitchingStats {
                innings_pitched: "9.0".to_string(),
                hits_allowed: 6,
                runs_allowed: 2,
                earned_runs: 2,
                walks: 3,
                strikeouts: 10,
                home_runs_allowed: 0,
                era: "2.00".to_string(),
            },
            batters: vec![
                PlayerBattingStats {
                    name: "Test Batter 1".to_string(),
                    hits: 3,
                    at_bats: 4,
                    home_runs: 1,
                    rbi: 2,
                    runs: 1,
                    doubles: 1,
                    triples: 0,
                    stolen_bases: 1,
                    walks: 0,
                    strikeouts: 1,
                    avg: Some(".750".to_string()),
                    obp: Some(".750".to_string()),
                    slg: Some("1.500".to_string()),
                },
                PlayerBattingStats {
                    name: "Test Batter 2".to_string(),
                    hits: 2,
                    at_bats: 4,
                    home_runs: 0,
                    rbi: 1,
                    runs: 1,
                    doubles: 1,
                    triples: 0,
                    stolen_bases: 0,
                    walks: 0,
                    strikeouts: 1,
                    avg: Some(".500".to_string()),
                    obp: Some(".500".to_string()),
                    slg: Some(".750".to_string()),
                },
            ],
            pitchers: vec![PlayerPitchingStats {
                name: "Test Pitcher 1".to_string(),
                innings_pitched: "6.0".to_string(),
                strikeouts: 7,
                earned_runs: 1,
                hits_allowed: 4,
                runs_allowed: 1,
                walks: 2,
                home_runs_allowed: 0,
                era: Some("1.50".to_string()),
            }],
        },
        home_team_stats: TeamStats {
            team_name: "Test Home Team".to_string(),
            batting: BattingStats {
                runs: 2,
                hits: 6,
                home_runs: 0,
                rbi: 2,
                stolen_bases: 1,
                avg: ".222".to_string(),
                obp: ".300".to_string(),
                slg: ".333".to_string(),
                ops: ".633".to_string(),
            },
            pitching: PitchingStats {
                innings_pitched: "9.0".to_string(),
                hits_allowed: 8,
                runs_allowed: 3,
                earned_runs: 3,
                walks: 2,
                strikeouts: 8,
                home_runs_allowed: 1,
                era: "3.00".to_string(),
            },
            batters: vec![PlayerBattingStats {
                name: "Test Batter 3".to_string(),
                hits: 2,
                at_bats: 4,
                home_runs: 0,
                rbi: 1,
                runs: 1,
                doubles: 1,
                triples: 0,
                stolen_bases: 0,
                walks: 0,
                strikeouts: 1,
                avg: Some(".500".to_string()),
                obp: Some(".500".to_string()),
                slg: Some(".750".to_string()),
            }],
            pitchers: vec![PlayerPitchingStats {
                name: "Test Pitcher 2".to_string(),
                innings_pitched: "7.0".to_string(),
                strikeouts: 5,
                earned_runs: 3,
                hits_allowed: 6,
                runs_allowed: 3,
                walks: 1,
                home_runs_allowed: 1,
                era: Some("3.86".to_string()),
            }],
        },
    };

    let game_innings = GameInnings {
        game_pk: 1,
        game_date: "2024-03-28T13:05:00Z".to_string(),
        status: GameState::Final,
        home_team: Team {
            id: 1,
            name: "Home Team".to_string(),
            team_code: None,
            file_code: None,
            team_name: None,
            location_name: None,
            short_name: None,
            abbreviation: None,
            franchise_name: None,
            club_name: None,
            first_year_of_play: None,
            active: None,
            venue: None,
            league: None,
            division: None,
        },
        away_team: Team {
            id: 2,
            name: "Away Team".to_string(),
            team_code: None,
            file_code: None,
            team_name: None,
            location_name: None,
            short_name: None,
            abbreviation: None,
            franchise_name: None,
            club_name: None,
            first_year_of_play: None,
            active: None,
            venue: None,
            league: None,
            division: None,
        },
        innings: vec![
            InningData { inning: 1, home: Some(0), away: Some(1) },
            InningData { inning: 2, home: Some(2), away: Some(0) },
            InningData { inning: 3, home: Some(0), away: Some(0) },
            InningData { inning: 4, home: Some(1), away: Some(0) },
            InningData { inning: 5, home: Some(0), away: Some(2) },
            InningData { inning: 6, home: Some(0), away: Some(0) },
            InningData { inning: 7, home: Some(0), away: Some(0) },
            InningData { inning: 8, home: Some(0), away: Some(0) },
            InningData { inning: 9, home: Some(0), away: Some(0) },
        ],
        home_runs: Some(3),
        away_runs: Some(3),
    };

    println!("\n=== SAMPLE OUTPUT IN NEW ORDER ===");
    println!("\nInning-by-Inning Breakdown:");
    println!("{}", game_innings.display());
    println!("\nDetailed Statistics:");
    println!("{}", game_stats.display());
}
