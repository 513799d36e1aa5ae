use scrbrd::model::{
    Competition, Competitor, GameEvent, GameState, Record, Sport, Status, StatusType, Team,
};
use scrbrd::state::{AppState, KeyInput, KeyOutcome};

fn team(display: &str, short: &str, abbr: &str) -> Team {
    Team {
        display_name: display.to_string(),
        short_display_name: short.to_string(),
        abbreviation: abbr.to_string(),
    }
}

fn competitor(t: Team, score: &str) -> Competitor {
    Competitor {
        team: t,
        score: score.to_string(),
        records: vec![Record {
            name: "overall".to_string(),
            summary: "1-0".to_string(),
        }],
    }
}

fn game(id: &str, away: Competitor, home: Competitor) -> GameEvent {
    GameEvent {
        id: id.to_string(),
        name: format!("{} at {}", away.team.display_name, home.team.display_name),
        competitions: vec![Competition {
            competitors: vec![away, home],
            status: Status {
                status_type: StatusType {
                    state: GameState::Pre,
                    completed: false,
                    description: String::new(),
                    detail: String::new(),
                    short_detail: "7:05 PM ET".to_string(),
                },
                display_clock: String::new(),
                period: 0,
            },
            broadcasts: Vec::new(),
        }],
    }
}

fn sample_games() -> Vec<GameEvent> {
    let guardians = game(
        "g1",
        competitor(team("Cleveland Guardians", "Guardians", "CLE"), "3"),
        competitor(team("New York Yankees", "Yankees", "NYY"), "5"),
    );
    let tigers = game(
        "g2",
        competitor(team("Detroit Tigers", "Tigers", "DET"), "1"),
        competitor(team("Kansas City Royals", "Royals", "KC"), "2"),
    );
    vec![guardians, tigers]
}

fn app_with(filter: Option<&str>) -> AppState {
    let mut app = AppState::new(Sport::Baseball, filter.map(|s| s.to_string()), 100);
    app.apply_fetch_success(sample_games(), 100);
    app
}

#[test]
fn filter_matches_display_name_case_insensitively() {
    let app = app_with(Some("guardians"));
    assert_eq!(app.get_filtered_events(), vec![0]);
}

#[test]
fn filter_matches_abbreviation() {
    let app = app_with(Some("kc"));
    assert_eq!(app.get_filtered_events(), vec![1]);
}

#[test]
fn filter_matches_short_display_name() {
    let app = app_with(Some("Tigers"));
    assert_eq!(app.get_filtered_events(), vec![1]);
}

#[test]
fn no_filter_keeps_every_game_in_order() {
    let app = app_with(None);
    assert_eq!(app.get_filtered_events(), vec![0, 1]);
}

#[test]
fn unmatched_filter_is_empty_but_not_an_error() {
    let app = app_with(Some("xyz"));
    assert_eq!(app.get_filtered_events(), Vec::<usize>::new());
    // An empty result is a valid state, distinguished from a failed or
    // missing fetch by the separate error field.
    assert!(app.error_message.is_none());
    assert_eq!(app.events.len(), 2);
}

#[test]
fn scroll_up_stops_at_zero() {
    let mut app = app_with(None);
    app.scroll_up();
    assert_eq!(app.scroll_offset, 0);
}

#[test]
fn scroll_down_stops_when_last_page_is_visible() {
    let mut app = app_with(None);
    // 5 games, page of 2: offsets may reach 3 and no further.
    for step in [1, 2, 3, 3, 3] {
        app.scroll_down(5, 2);
        assert_eq!(app.scroll_offset, step);
    }
    app.scroll_up();
    assert_eq!(app.scroll_offset, 2);
}

#[test]
fn scroll_down_is_a_no_op_when_everything_fits() {
    let mut app = app_with(None);
    app.scroll_down(2, 4);
    assert_eq!(app.scroll_offset, 0);
}

#[test]
fn clamp_offset_pulls_a_stale_offset_back() {
    let mut app = app_with(None);
    app.scroll_offset = 10;
    app.clamp_offset(3, 2);
    assert_eq!(app.scroll_offset, 1);
    app.clamp_offset(3, 4);
    assert_eq!(app.scroll_offset, 0);
}

#[test]
fn should_refresh_only_after_full_period() {
    let app = AppState::new(Sport::Baseball, None, 100);
    assert!(!app.should_refresh(100));
    assert!(!app.should_refresh(129));
    assert!(app.should_refresh(130));
    assert!(app.should_refresh(1000));
}

#[test]
fn inflight_fetch_blocks_refresh() {
    let mut app = AppState::new(Sport::Baseball, None, 100);
    app.begin_fetch();
    assert!(app.is_refreshing);
    assert!(!app.should_refresh(131));
    assert!(!app.should_refresh(100000));
}

#[test]
fn time_until_next_refresh_counts_down_to_zero() {
    let app = AppState::new(Sport::Baseball, None, 100);
    assert_eq!(app.time_until_next_refresh(100), 30);
    assert_eq!(app.time_until_next_refresh(115), 15);
    assert_eq!(app.time_until_next_refresh(130), 0);
    assert_eq!(app.time_until_next_refresh(500), 0);
}

#[test]
fn fetch_success_replaces_the_game_list_wholesale() {
    let mut app = app_with(None);
    app.error_message = Some("stale error".to_string());
    let replacement = vec![game(
        "g9",
        competitor(team("Seattle Mariners", "Mariners", "SEA"), "0"),
        competitor(team("Texas Rangers", "Rangers", "TEX"), "0"),
    )];
    app.begin_fetch();
    app.apply_fetch_success(replacement, 200);
    let ids: Vec<&str> = app.events.iter().map(|g| g.id.as_str()).collect();
    // No merge or patch: entries absent from the payload are gone.
    assert_eq!(ids, vec!["g9"]);
    assert!(app.error_message.is_none());
    assert_eq!(app.last_refresh, 200);
    assert!(!app.is_refreshing);
}

#[test]
fn fetch_failure_keeps_the_stale_list_and_restarts_the_clock() {
    let mut app = app_with(None);
    app.begin_fetch();
    app.apply_fetch_failure("refresh failed: timeout".to_string(), 250);
    assert_eq!(app.events.len(), 2);
    assert_eq!(
        app.error_message.as_deref(),
        Some("refresh failed: timeout")
    );
    assert_eq!(app.last_refresh, 250);
    assert!(!app.is_refreshing);
    assert!(!app.should_refresh(260));
    assert!(app.should_refresh(280));
}

#[test]
fn keys_drive_the_expected_transitions() {
    let mut app = app_with(None);
    assert_eq!(app.apply_key(KeyInput::Quit, 5, 2), KeyOutcome::Exit);
    assert_eq!(app.apply_key(KeyInput::Refresh, 5, 2), KeyOutcome::StartFetch);
    assert_eq!(app.scroll_offset, 0);
    assert_eq!(app.apply_key(KeyInput::ScrollDown, 5, 2), KeyOutcome::Continue);
    assert_eq!(app.scroll_offset, 1);
    assert_eq!(app.apply_key(KeyInput::ScrollUp, 5, 2), KeyOutcome::Continue);
    assert_eq!(app.scroll_offset, 0);
    assert_eq!(app.apply_key(KeyInput::Other, 5, 2), KeyOutcome::Continue);
    assert_eq!(app.scroll_offset, 0);
}

#[test]
fn new_state_starts_empty_and_idle() {
    let app = AppState::new(Sport::Football, Some("lions".to_string()), 42);
    assert!(app.events.is_empty());
    assert_eq!(app.sport, Sport::Football);
    assert_eq!(app.team_filter.as_deref(), Some("lions"));
    assert!(app.error_message.is_none());
    assert_eq!(app.scroll_offset, 0);
    assert_eq!(app.last_refresh, 42);
    assert!(!app.is_refreshing);
}
