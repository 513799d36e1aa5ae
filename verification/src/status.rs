//! The status labeler: turns a sport and a raw game status into the short
//! display label the dashboard shows (`"Q3"`, `"T7"`, `"45' 1H"`,
//! `"FINAL"`, ...).

use vstd::prelude::*;
use vstd::string::*;
use crate::model::{GameState, Sport, Status};
use crate::text::{contains_ci, dec_digits, str_contains, u32_to_string};

verus! {

/// Label for a live american-football game: `Q<period>` through the fourth
/// quarter, `OT` from the fifth period on.
pub open spec fn spec_football_label(period: u32) -> Seq<char> {
    if period >= 5 {
        "OT"@
    } else {
        "Q"@ + dec_digits(period as nat)
    }
}

/// Label for a live basketball game: the same rule as football, with no
/// distinct overtime numbering.
pub open spec fn spec_basketball_label(period: u32) -> Seq<char> {
    if period >= 5 {
        "OT"@
    } else {
        "Q"@ + dec_digits(period as nat)
    }
}

/// Label for a live ice-hockey game: `P<period>` through the third period,
/// `OT` from the fourth on.
pub open spec fn spec_hockey_label(period: u32) -> Seq<char> {
    if period >= 4 {
        "OT"@
    } else {
        "P"@ + dec_digits(period as nat)
    }
}

/// Label for a live soccer game: the display clock with the half it falls
/// in, or `ET` for extra time.
pub open spec fn spec_soccer_label(clock: Seq<char>, period: u32) -> Seq<char> {
    if period == 1 {
        clock + "' 1H"@
    } else if period == 2 {
        clock + "' 2H"@
    } else {
        clock + "' ET"@
    }
}

/// The half-inning prefix one free-text field yields: the first of `top`,
/// `bot`, `mid`, `end` it contains (up to ASCII case) picks the letter;
/// `bottom` and `middle` are covered by their prefixes.
pub open spec fn half_prefix(field: Seq<char>) -> Option<Seq<char>> {
    if contains_ci(field, "top"@) {
        Some("T"@)
    } else if contains_ci(field, "bot"@) {
        Some("B"@)
    } else if contains_ci(field, "mid"@) {
        Some("M"@)
    } else if contains_ci(field, "end"@) {
        Some("E"@)
    } else {
        None
    }
}

/// The half-inning prefix of a baseball status: the first of `shortDetail`,
/// `detail`, `description`, `displayClock` that yields one decides.
pub open spec fn baseball_half(status: Status) -> Option<Seq<char>> {
    if half_prefix(status.status_type.short_detail@) is Some {
        half_prefix(status.status_type.short_detail@)
    } else if half_prefix(status.status_type.detail@) is Some {
        half_prefix(status.status_type.detail@)
    } else if half_prefix(status.status_type.description@) is Some {
        half_prefix(status.status_type.description@)
    } else {
        half_prefix(status.display_clock@)
    }
}

/// Label for a live baseball game: half-inning letter plus inning number,
/// or the bare inning number when no half can be determined.
pub open spec fn spec_baseball_label(status: Status) -> Seq<char> {
    match baseball_half(status) {
        Some(p) => p + dec_digits(status.period as nat),
        None => dec_digits(status.period as nat),
    }
}

/// The sport-specific part of a live label.
pub open spec fn spec_live_label(sport: Sport, status: Status) -> Seq<char> {
    match sport {
        Sport::Football => spec_football_label(status.period),
        Sport::BasketballMen => spec_basketball_label(status.period),
        Sport::BasketballWomen => spec_basketball_label(status.period),
        Sport::IceHockey => spec_hockey_label(status.period),
        Sport::Baseball => spec_baseball_label(status),
        Sport::SoccerMls => spec_soccer_label(status.display_clock@, status.period),
        Sport::SoccerNwsl => spec_soccer_label(status.display_clock@, status.period),
        Sport::SoccerPremier => spec_soccer_label(status.display_clock@, status.period),
    }
}

/// The full display label of a status: `shortDetail` verbatim before the
/// game and for any unknown phase, a live marker plus the sport label while
/// it runs, `FINAL` once completed, `shortDetail` again for a post state
/// that never completed (postponed, suspended).
pub open spec fn spec_status_label(sport: Sport, status: Status) -> Seq<char> {
    match status.status_type.state {
        GameState::Pre => status.status_type.short_detail@,
        GameState::In => "LIVE | "@ + spec_live_label(sport, status),
        GameState::Post => if status.status_type.completed {
            "FINAL"@
        } else {
            status.status_type.short_detail@
        },
        GameState::Other => status.status_type.short_detail@,
    }
}

pub fn format_football_status(status: &Status) -> (r: String)
    ensures
        r@ == spec_football_label(status.period),
        1 <= status.period <= 4 ==> r@ == "Q"@ + dec_digits(status.period as nat),
        status.period >= 5 ==> r@ == "OT"@,
{
    if status.period >= 5 {
        String::from_str("OT")
    } else {
        String::from_str("Q").concat(u32_to_string(status.period).as_str())
    }
}

pub fn format_basketball_status(status: &Status) -> (r: String)
    ensures
        r@ == spec_basketball_label(status.period),
        1 <= status.period <= 4 ==> r@ == "Q"@ + dec_digits(status.period as nat),
        status.period >= 5 ==> r@ == "OT"@,
{
    if status.period >= 5 {
        String::from_str("OT")
    } else {
        String::from_str("Q").concat(u32_to_string(status.period).as_str())
    }
}

pub fn format_hockey_status(status: &Status) -> (r: String)
    ensures
        r@ == spec_hockey_label(status.period),
        1 <= status.period <= 3 ==> r@ == "P"@ + dec_digits(status.period as nat),
        status.period >= 4 ==> r@ == "OT"@,
{
    if status.period >= 4 {
        String::from_str("OT")
    } else {
        String::from_str("P").concat(u32_to_string(status.period).as_str())
    }
}

pub fn format_soccer_status(status: &Status) -> (r: String)
    ensures
        r@ == spec_soccer_label(status.display_clock@, status.period),
        status.period == 1 ==> r@ == status.display_clock@ + "' 1H"@,
        status.period == 2 ==> r@ == status.display_clock@ + "' 2H"@,
        status.period >= 3 || status.period == 0 ==> r@ == status.display_clock@ + "' ET"@,
{
    let clock = status.display_clock.clone();
    if status.period == 1 {
        clock.concat("' 1H")
    } else if status.period == 2 {
        clock.concat("' 2H")
    } else {
        clock.concat("' ET")
    }
}

fn half_prefix_of(field: &str) -> (r: Option<&'static str>)
    ensures
        match r {
            Some(p) => half_prefix(field@) == Some(p@),
            None => half_prefix(field@) is None,
        },
{
    if str_contains(field, "top", true) {
        Some("T")
    } else if str_contains(field, "bot", true) {
        Some("B")
    } else if str_contains(field, "mid", true) {
        Some("M")
    } else if str_contains(field, "end", true) {
        Some("E")
    } else {
        None
    }
}

pub fn format_baseball_status(status: &Status) -> (r: String)
    ensures
        r@ == spec_baseball_label(*status),
        baseball_half(*status) is None ==> r@ == dec_digits(status.period as nat),
{
    let prefix = match half_prefix_of(status.status_type.short_detail.as_str()) {
        Some(p) => Some(p),
        None => match half_prefix_of(status.status_type.detail.as_str()) {
            Some(p) => Some(p),
            None => match half_prefix_of(status.status_type.description.as_str()) {
                Some(p) => Some(p),
                None => half_prefix_of(status.display_clock.as_str()),
            },
        },
    };
    let number = u32_to_string(status.period);
    match prefix {
        Some(p) => String::from_str(p).concat(number.as_str()),
        None => number,
    }
}

/// The sport-specific label for a live status.
pub fn format_live(sport: Sport, status: &Status) -> (r: String)
    ensures
        r@ == spec_live_label(sport, *status),
{
    match sport {
        Sport::Football => format_football_status(status),
        Sport::BasketballMen => format_basketball_status(status),
        Sport::BasketballWomen => format_basketball_status(status),
        Sport::IceHockey => format_hockey_status(status),
        Sport::Baseball => format_baseball_status(status),
        Sport::SoccerMls => format_soccer_status(status),
        Sport::SoccerNwsl => format_soccer_status(status),
        Sport::SoccerPremier => format_soccer_status(status),
    }
}

/// The full display label of a status for the given sport.
pub fn format_label(sport: Sport, status: &Status) -> (r: String)
    ensures
        r@ == spec_status_label(sport, *status),
        status.status_type.state == GameState::In ==> r@ == "LIVE | "@ + spec_live_label(
            sport,
            *status,
        ),
        status.status_type.state == GameState::Post && status.status_type.completed ==> r@
            == "FINAL"@,
        status.status_type.state == GameState::Post && !status.status_type.completed ==> r@
            == status.status_type.short_detail@,
        status.status_type.state == GameState::Pre || status.status_type.state == GameState::Other
            ==> r@ == status.status_type.short_detail@,
{
    match status.status_type.state {
        GameState::Pre => status.status_type.short_detail.clone(),
        GameState::In => String::from_str("LIVE | ").concat(format_live(sport, status).as_str()),
        GameState::Post => {
            if status.status_type.completed {
                String::from_str("FINAL")
            } else {
                status.status_type.short_detail.clone()
            }
        },
        GameState::Other => status.status_type.short_detail.clone(),
    }
}

} // verus!
