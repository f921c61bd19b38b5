use plaintext_sports::mlb::innings::{FetchOutcome, InningsFetch, InningsRequest};
use plaintext_sports::mlb::GameState;
use plaintext_sports::resolver::FallbackResolver;
use plaintext_sports::SportError;

fn labels(names: &[&str]) -> Vec<String> {
    names.iter().map(|s| s.to_string()).collect()
}

#[test]
fn test_resolver_first_success_short_circuits() {
    // With the first two candidates failing and the third succeeding, the
    // resolver returns the third's value and offers no candidate after it.
    let mut r: FallbackResolver<u32> = FallbackResolver::new(labels(&["a", "b", "c", "d"]));
    assert_eq!(r.next_index(), Some(0));
    r.record_failure("first broke".to_string());
    assert_eq!(r.next_index(), Some(1));
    r.record_failure("second broke".to_string());
    assert_eq!(r.next_index(), Some(2));
    r.record_success(99);
    assert_eq!(r.next_index(), None);
    assert_eq!(r.finish("ctx: ").unwrap(), 99);
}

#[test]
fn test_resolver_aggregates_all_failures_in_order() {
    // With every candidate failing, the aggregated error carries each
    // candidate's label and message, in candidate order.
    let mut r: FallbackResolver<u32> = FallbackResolver::new(labels(&["a", "b", "c"]));
    r.record_failure("m1".to_string());
    r.record_failure("m2".to_string());
    r.record_failure("m3".to_string());
    assert_eq!(r.next_index(), None);
    match r.finish("all failed: ") {
        Err(SportError::FetchError(m)) => {
            assert_eq!(m, "all failed: a: m1, b: m2, c: m3");
            let p1 = m.find("m1").unwrap();
            let p2 = m.find("m2").unwrap();
            let p3 = m.find("m3").unwrap();
            assert!(p1 < p2 && p2 < p3);
        },
        other => panic!("unexpected: {:?}", other),
    }
}

const LINESCORE_BODY: &str = r#"{
    "gameDate": "2024-03-28T20:10:00Z",
    "teams": {"away": {"runs": 2}, "home": {"runs": 6}},
    "innings": [
        {"home": {"runs": 1}, "away": {"runs": 0}},
        {"home": {"runs": 5}, "away": {"runs": 2}}
    ]
}"#;

const BOXSCORE_BODY: &str = r#"{
    "teams": {
        "away": {"team": {"id": 1, "name": "Away Co"}},
        "home": {"team": {"id": 2, "name": "Home Co"}}
    }
}"#;

#[test]
fn test_innings_fallback_secondary_succeeds() {
    // The primary live-feed endpoint answers 404; the linescore candidate
    // succeeds; the play-by-play endpoint is never asked for.
    let mut fetch = InningsFetch::new(42);
    assert_eq!(fetch.request(), Some(InningsRequest::FeedLive));
    fetch.on_response(FetchOutcome::Response(404, String::new()));
    assert_eq!(fetch.request(), Some(InningsRequest::Linescore));
    fetch.on_response(FetchOutcome::Response(200, LINESCORE_BODY.to_string()));
    assert_eq!(fetch.request(), Some(InningsRequest::Boxscore));
    fetch.on_response(FetchOutcome::Response(200, BOXSCORE_BODY.to_string()));
    assert_eq!(fetch.request(), None);

    let gi = fetch.finish().unwrap();
    // The result is what the linescore normalizer alone would produce.
    assert_eq!(gi.game_pk, 42);
    assert_eq!(gi.status, GameState::Final);
    assert_eq!(gi.home_team.name, "Home Co");
    assert_eq!(gi.away_team.name, "Away Co");
    assert_eq!(gi.innings.len(), 2);
    assert_eq!(gi.innings[0].inning, 1);
    assert_eq!(gi.innings[0].home, Some(1));
    assert_eq!(gi.innings[1].away, Some(2));
    assert_eq!(gi.home_runs, Some(6));
    assert_eq!(gi.away_runs, Some(2));
}

#[test]
fn test_innings_fallback_all_fail() {
    // Every endpoint fails: the aggregated error lists each endpoint's
    // label with its own failure message, in the order they were tried.
    let mut fetch = InningsFetch::new(9);
    fetch.on_response(FetchOutcome::Response(404, String::new()));
    assert_eq!(fetch.request(), Some(InningsRequest::Linescore));
    fetch.on_response(FetchOutcome::Transport("connection refused".to_string()));
    assert_eq!(fetch.request(), Some(InningsRequest::PlayByPlay));
    fetch.on_response(FetchOutcome::Response(200, String::new()));
    assert_eq!(fetch.request(), None);

    match fetch.finish() {
        Err(SportError::FetchError(m)) => {
            assert_eq!(
                m,
                "Could not retrieve inning data from any endpoint. Errors: \
                 feed/live: HTTP error: 404, linescore: connection refused, \
                 playByPlay: Play-by-play endpoint found but not implemented for inning extraction"
            );
        },
        other => panic!("unexpected: {:?}", other),
    }
}

#[test]
fn test_innings_fallback_primary_succeeds() {
    let body = r#"{
        "gameData": {
            "game": {"pk": 42},
            "datetime": {"dateTime": "2024-03-28T20:10:00Z"},
            "status": {"abstractGameState": "Live"},
            "teams": {"home": {"id": 2, "name": "Home Co"}, "away": {"id": 1, "name": "Away Co"}}
        },
        "liveData": {"linescore": {
            "teams": {"away": {"runs": 1}, "home": {"runs": 0}},
            "innings": [{"home": {}, "away": {"runs": 1}}]
        }}
    }"#;
    let mut fetch = InningsFetch::new(42);
    fetch.on_response(FetchOutcome::Response(200, body.to_string()));
    assert_eq!(fetch.request(), None);
    let gi = fetch.finish().unwrap();
    assert_eq!(gi.game_pk, 42);
    assert_eq!(gi.status, GameState::Live);
    assert_eq!(gi.innings.len(), 1);
    assert_eq!(gi.innings[0].home, None);
    assert_eq!(gi.innings[0].away, Some(1));
    assert_eq!(gi.home_runs, Some(0));
    assert_eq!(gi.away_runs, Some(1));
}

#[test]
fn test_innings_fallback_boxscore_http_failure() {
    // A linescore candidate whose boxscore fetch fails records one failure
    // for the candidate and moves on to play-by-play.
    let mut fetch = InningsFetch::new(5);
    fetch.on_response(FetchOutcome::Transport("no route".to_string()));
    fetch.on_response(FetchOutcome::Response(200, LINESCORE_BODY.to_string()));
    assert_eq!(fetch.request(), Some(InningsRequest::Boxscore));
    fetch.on_response(FetchOutcome::Response(500, String::new()));
    assert_eq!(fetch.request(), Some(InningsRequest::PlayByPlay));
    fetch.on_response(FetchOutcome::Transport("still no route".to_string()));
    let err = fetch.finish().unwrap_err();
    let msg = match err {
        SportError::FetchError(m) => m,
        other => panic!("unexpected: {:?}", other),
    };
    assert!(msg.contains("no route"));
    assert!(msg.contains("Failed to fetch game data from boxscore: HTTP 500"));
    assert!(msg.contains("still no route"));
}
