use plaintext_sports::types::{
    BattingSide, GameId, InningsPitched, Position, Record, Score, TeamId, ThrowingSide,
    UniformNumber,
};
use std::str::FromStr;

#[test]
fn test_team_id_from_str() {
    assert!(TeamId::from_str("123").is_ok());
    assert!(TeamId::from_str("invalid").is_err());
}

#[test]
fn test_game_id_from_str() {
    assert!(GameId::from_str("456").is_ok());
    assert!(GameId::from_str("invalid").is_err());
}

#[test]
fn test_score_display() {
    assert_eq!(Score(5).display(), "5");
}

#[test]
fn test_position_from_str() {
    assert_eq!(Position::from_str("P").unwrap(), Position::Pitcher);
    assert_eq!(Position::from_str("SS").unwrap(), Position::Shortstop);
    assert_eq!(Position::from_str("invalid").unwrap(), Position::Unknown);
}

#[test]
fn test_position_abbreviation() {
    assert_eq!(Position::Pitcher.abbreviation(), "P");
    assert_eq!(Position::Shortstop.abbreviation(), "SS");
    assert_eq!(Position::Unknown.abbreviation(), "??");
}

#[test]
fn test_batting_side() {
    assert_eq!(BattingSide::from_str("L").unwrap(), BattingSide::Left);
    assert_eq!(BattingSide::from_str("RIGHT").unwrap(), BattingSide::Right);
    assert_eq!(BattingSide::from_str("Switch").unwrap(), BattingSide::Switch);
    assert_eq!(BattingSide::from_str("invalid").unwrap(), BattingSide::Unknown);
}

#[test]
fn test_throwing_side() {
    assert_eq!(ThrowingSide::from_str("L").unwrap(), ThrowingSide::Left);
    assert_eq!(ThrowingSide::from_str("RIGHT").unwrap(), ThrowingSide::Right);
    assert_eq!(ThrowingSide::from_str("invalid").unwrap(), ThrowingSide::Unknown);
}

#[test]
fn test_uniform_number() {
    assert!(UniformNumber::new("42").is_ok());
    assert!(UniformNumber::new("ABC").is_err());

    let number = UniformNumber::new("27").unwrap();
    assert_eq!(number.display(), "#27");
}

#[test]
fn test_record_display_and_parse() {
    let record = Record::new(42, 34);
    assert_eq!(record.display(), "42-34");
    assert_eq!(Record::from_str("42-34").unwrap(), Record { wins: 42, losses: 34 });
    assert!(Record::from_str("invalid").is_err());
    assert!(Record::from_str("42-").is_err());
}

#[test]
fn test_innings_pitched_parse() {
    let ip = InningsPitched::new("6.2").unwrap();
    assert_eq!(ip.complete, 6);
    assert_eq!(ip.partial, 2);
    assert_eq!(ip.display(), "6.2");

    assert!(InningsPitched::new("6.3").is_err());
    assert!(InningsPitched::new("invalid").is_err());
    assert!(InningsPitched::new("1.2.3").is_err());
}

#[test]
fn test_innings_pitched_roundtrip() {
    // A whole-innings value keeps its trailing ".0" through the round trip,
    // and the fractional form converts to thirds exactly.
    let ip = InningsPitched::new("6.0").unwrap();
    assert_eq!(ip.display(), "6.0");
    let back = InningsPitched::new(&ip.display()).unwrap();
    assert_eq!(back, ip);

    let ip = InningsPitched::new("6.2").unwrap();
    let as_float = ip.complete as f32 + ip.partial as f32 / 3.0;
    assert!((as_float - 6.6666667).abs() < 0.0001);
    assert_eq!(ip.display(), "6.2");
    let back = InningsPitched::new(&ip.display()).unwrap();
    assert_eq!(back, ip);
}
