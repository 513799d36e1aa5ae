use scrbrd::model::{get_sport_code, GameState, Sport, Status, StatusType};
use scrbrd::state::AppState;
use scrbrd::status::{
    format_baseball_status, format_basketball_status, format_football_status,
    format_hockey_status, format_soccer_status,
};

fn status(
    state: GameState,
    completed: bool,
    description: &str,
    detail: &str,
    short_detail: &str,
    clock: &str,
    period: u32,
) -> Status {
    Status {
        status_type: StatusType {
            state,
            completed,
            description: description.to_string(),
            detail: detail.to_string(),
            short_detail: short_detail.to_string(),
        },
        display_clock: clock.to_string(),
        period,
    }
}

fn live(short_detail: &str, detail: &str, clock: &str, period: u32) -> Status {
    status(GameState::In, false, "", detail, short_detail, clock, period)
}

#[test]
fn football_quarters_and_overtime() {
    assert_eq!(format_football_status(&live("", "", "7:32", 1)), "Q1");
    assert_eq!(format_football_status(&live("", "", "7:32", 4)), "Q4");
    assert_eq!(format_football_status(&live("", "", "7:32", 5)), "OT");
    assert_eq!(format_football_status(&live("", "", "7:32", 6)), "OT");
}

#[test]
fn basketball_quarters_and_overtime() {
    assert_eq!(format_basketball_status(&live("", "", "2:01", 4)), "Q4");
    assert_eq!(format_basketball_status(&live("", "", "2:01", 5)), "OT");
    assert_eq!(format_basketball_status(&live("", "", "2:01", 7)), "OT");
}

#[test]
fn hockey_periods_and_overtime() {
    assert_eq!(format_hockey_status(&live("", "", "10:00", 1)), "P1");
    assert_eq!(format_hockey_status(&live("", "", "10:00", 3)), "P3");
    assert_eq!(format_hockey_status(&live("", "", "10:00", 4)), "OT");
}

#[test]
fn soccer_halves_and_extra_time() {
    assert_eq!(format_soccer_status(&live("", "", "45", 1)), "45' 1H");
    assert_eq!(format_soccer_status(&live("", "", "67", 2)), "67' 2H");
    assert_eq!(format_soccer_status(&live("", "", "104", 3)), "104' ET");
}

#[test]
fn baseball_top_from_short_detail() {
    assert_eq!(format_baseball_status(&live("Top 7th", "", "", 7)), "T7");
}

#[test]
fn baseball_bottom_from_detail() {
    assert_eq!(
        format_baseball_status(&live("", "Bottom of the 9th", "", 9)),
        "B9"
    );
}

#[test]
fn baseball_middle_and_end() {
    assert_eq!(format_baseball_status(&live("Mid 5th", "", "", 5)), "M5");
    assert_eq!(format_baseball_status(&live("End of 3rd", "", "", 3)), "E3");
}

#[test]
fn baseball_fallback_bare_period() {
    let s = status(GameState::In, false, "in progress", "game on", "live", "", 3);
    assert_eq!(format_baseball_status(&s), "3");
}

#[test]
fn baseball_two_digit_inning() {
    assert_eq!(format_baseball_status(&live("Top 12th", "", "", 12)), "T12");
}

#[test]
fn label_pre_is_short_detail_verbatim() {
    let app = AppState::new(Sport::Football, None, 0);
    let s = status(GameState::Pre, false, "", "", "7:05 PM ET", "", 0);
    assert_eq!(app.format_status(&s), "7:05 PM ET");
}

#[test]
fn label_post_completed_is_final() {
    let app = AppState::new(Sport::Baseball, None, 0);
    let s = status(GameState::Post, true, "", "", "Final", "", 9);
    assert_eq!(app.format_status(&s), "FINAL");
}

#[test]
fn label_post_not_completed_falls_back() {
    let app = AppState::new(Sport::Baseball, None, 0);
    let s = status(GameState::Post, false, "", "", "Postponed", "", 0);
    assert_eq!(app.format_status(&s), "Postponed");
}

#[test]
fn label_unknown_state_is_short_detail() {
    let app = AppState::new(Sport::IceHockey, None, 0);
    let s = status(GameState::Other, false, "", "", "Delayed", "", 1);
    assert_eq!(app.format_status(&s), "Delayed");
}

#[test]
fn label_live_composes_marker_and_sport_label() {
    let app = AppState::new(Sport::Football, None, 0);
    assert_eq!(app.format_status(&live("", "", "7:32", 3)), "LIVE | Q3");
    let mlb = AppState::new(Sport::Baseball, None, 0);
    assert_eq!(mlb.format_status(&live("Top 7th", "", "", 7)), "LIVE | T7");
}

#[test]
fn format_live_status_dispatches_by_sport() {
    let app = AppState::new(Sport::SoccerPremier, None, 0);
    assert_eq!(app.format_live_status(&live("", "", "88", 2)), "88' 2H");
}

#[test]
fn sport_codes_resolve_case_insensitively() {
    assert_eq!(get_sport_code("mlb"), Ok(Sport::Baseball));
    assert_eq!(get_sport_code("MLB"), Ok(Sport::Baseball));
    assert_eq!(get_sport_code("nba"), Ok(Sport::BasketballMen));
    assert_eq!(get_sport_code("wnba"), Ok(Sport::BasketballWomen));
    assert_eq!(get_sport_code("nfl"), Ok(Sport::Football));
    assert_eq!(get_sport_code("nhl"), Ok(Sport::IceHockey));
    assert_eq!(get_sport_code("mls"), Ok(Sport::SoccerMls));
    assert_eq!(get_sport_code("nwsl"), Ok(Sport::SoccerNwsl));
    assert_eq!(get_sport_code("premier"), Ok(Sport::SoccerPremier));
    assert_eq!(get_sport_code("epl"), Ok(Sport::SoccerPremier));
    assert_eq!(get_sport_code("prem"), Ok(Sport::SoccerPremier));
    assert_eq!(get_sport_code("premier-league"), Ok(Sport::SoccerPremier));
}

#[test]
fn unknown_league_is_a_configuration_error() {
    assert_eq!(
        get_sport_code("xyz"),
        Err("unsupported league: xyz".to_string())
    );
}

#[test]
fn sport_api_paths() {
    assert_eq!(Sport::Baseball.code(), "baseball/mlb");
    assert_eq!(Sport::Football.code(), "football/nfl");
    assert_eq!(Sport::SoccerPremier.code(), "soccer/eng.1");
    assert_eq!(Sport::SoccerNwsl.code(), "soccer/usa.nwsl");
}
