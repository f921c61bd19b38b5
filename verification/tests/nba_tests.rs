use plaintext_sports::nba::{Game, Team};

fn nba_mock_team() -> Team {
    Team {
        id: 14,
        abbreviation: "LAL".to_string(),
        city: "Los Angeles".to_string(),
        conference: "West".to_string(),
        division: "Pacific".to_string(),
        full_name: "Los Angeles Lakers".to_string(),
        name: "Lakers".to_string(),
    }
}

fn nba_mock_game() -> Game {
    Game {
        id: 12345,
        date: "2024-03-28".to_string(),
        home_team: nba_mock_team(),
        home_team_score: 110,
        period: 4,
        postseason: false,
        season: 2023,
        status: "Final".to_string(),
        time: None,
        visitor_team: Team {
            id: 2,
            abbreviation: "BOS".to_string(),
            city: "Boston".to_string(),
            conference: "East".to_string(),
            division: "Atlantic".to_string(),
            full_name: "Boston Celtics".to_string(),
            name: "Celtics".to_string(),
        },
        visitor_team_score: 108,
    }
}

#[test]
fn test_team_display() {
    let team = nba_mock_team();
    let display = team.display();

    assert!(display.contains("Los Angeles Lakers"));
    assert!(display.contains("LAL"));
    assert!(display.contains("West"));
    assert!(display.contains("Pacific"));
}

#[test]
fn test_game_display() {
    let game = nba_mock_game();
    let display = game.display();

    assert!(display.contains("BOS @ LAL"));
    assert!(display.contains("Celtics: 108"));
    assert!(display.contains("Lakers: 110"));
    assert!(display.contains("Final"));
}

#[test]
fn test_nba_team_creation() {
    let team = Team {
        id: 1,
        abbreviation: String::from("GSW"),
        city: String::from("Golden State"),
        conference: String::from("Western"),
        division: String::from("Pacific"),
        full_name: String::from("Golden State Warriors"),
        name: String::from("Warriors"),
    };

    assert_eq!(team.abbreviation, "GSW");
    assert_eq!(team.full_name, "Golden State Warriors");
    assert_eq!(team.conference, "Western");
    assert_eq!(team.division, "Pacific");
}

#[test]
fn test_nba_game_creation() {
    let home_team = Team {
        id: 2,
        abbreviation: String::from("LAL"),
        city: String::from("Los Angeles"),
        conference: String::from("Western"),
        division: String::from("Pacific"),
        full_name: String::from("Los Angeles Lakers"),
        name: String::from("Lakers"),
    };

    let visitor_team = Team {
        id: 1,
        abbreviation: String::from("GSW"),
        city: String::from("Golden State"),
        conference: String::from("Western"),
        division: String::from("Pacific"),
        full_name: String::from("Golden State Warriors"),
        name: String::from("Warriors"),
    };

    let game = Game {
        id: 12345,
        date: String::from("2024-03-14T22:30:00Z"),
        home_team,
        home_team_score: 115,
        period: 4,
        postseason: false,
        season: 2024,
        status: String::from("Final"),
        time: None,
        visitor_team,
        visitor_team_score: 110,
    };

    assert_eq!(game.id, 12345);
    assert_eq!(game.status, "Final");
    assert_eq!(game.home_team_score, 115);
    assert_eq!(game.visitor_team_score, 110);
}

#[test]
fn test_nba_normalizers() {
    // A well-formed single-team envelope normalizes; a missing required
    // field is a structural error.
    let body = r#"{"data":{"id":14,"abbreviation":"LAL","city":"Los Angeles","conference":"West","division":"Pacific","full_name":"Los Angeles Lakers","name":"Lakers"}}"#;
    let team = plaintext_sports::nba::normalize_single_team_response(body).unwrap().data;
    assert_eq!(team.id, 14);
    assert_eq!(team.full_name, "Los Angeles Lakers");

    let missing_name = r#"{"data":{"id":14,"abbreviation":"LAL","city":"Los Angeles","conference":"West","division":"Pacific","full_name":"Los Angeles Lakers"}}"#;
    assert!(plaintext_sports::nba::normalize_single_team_response(missing_name).is_err());

    assert!(plaintext_sports::nba::normalize_single_team_response("not json").is_err());
}
