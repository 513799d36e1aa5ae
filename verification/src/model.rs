//! The data model: games as fetched from the scoreboard source, reduced to
//! the plain fields the engine reads, and the closed enumeration of sports.

use vstd::prelude::*;
use vstd::string::*;
use crate::text::{eq_ci, str_eq_ci};

verus! {

/// The sports the scoreboard knows, one per selectable league.
#[derive(Clone, Copy, Debug, PartialEq, Eq, Structural)]
pub enum Sport {
    Football,
    BasketballMen,
    BasketballWomen,
    Baseball,
    IceHockey,
    SoccerMls,
    SoccerNwsl,
    SoccerPremier,
}

/// The coarse phase of a game as reported upstream: scheduled, live,
/// finished, or anything else.
#[derive(Clone, Copy, Debug, PartialEq, Eq, Structural)]
pub enum GameState {
    Pre,
    In,
    Post,
    Other,
}

/// One win-loss summary line for a team.
#[derive(Debug, Clone)]
pub struct Record {
    pub name: String,
    pub summary: String,
}

/// Team identity as displayed: full name, short name, abbreviation.
#[derive(Debug, Clone)]
pub struct Team {
    pub display_name: String,
    pub short_display_name: String,
    pub abbreviation: String,
}

/// One side of a competition. The score is opaque display text, not
/// guaranteed numeric.
#[derive(Debug, Clone)]
pub struct Competitor {
    pub team: Team,
    pub score: String,
    pub records: Vec<Record>,
}

/// The descriptive part of a game status: the phase tag, whether the game
/// completed, and three free-text fields whose content varies by sport.
#[derive(Debug, Clone)]
pub struct StatusType {
    pub state: GameState,
    pub completed: bool,
    pub description: String,
    pub detail: String,
    pub short_detail: String,
}

/// A full game status: descriptive fields, the display clock (free text),
/// and the numeric period / quarter / inning counter.
#[derive(Debug, Clone)]
pub struct Status {
    pub status_type: StatusType,
    pub display_clock: String,
    pub period: u32,
}

/// One competition: its competitors in upstream order (position 0 is the
/// away side, position 1 the home side), a status, and broadcast names the
/// engine ignores.
#[derive(Debug, Clone)]
pub struct Competition {
    pub competitors: Vec<Competitor>,
    pub status: Status,
    pub broadcasts: Vec<String>,
}

/// One fetched game: identifier, display name, and its competitions
/// (typically exactly one).
#[derive(Debug, Clone)]
pub struct GameEvent {
    pub id: String,
    pub name: String,
    pub competitions: Vec<Competition>,
}

/// The sport a league token selects, compared up to ASCII case; `None` for
/// an unrecognized token.
pub open spec fn league_sport(league: Seq<char>) -> Option<Sport> {
    if eq_ci(league, "mlb"@) {
        Some(Sport::Baseball)
    } else if eq_ci(league, "nba"@) {
        Some(Sport::BasketballMen)
    } else if eq_ci(league, "wnba"@) {
        Some(Sport::BasketballWomen)
    } else if eq_ci(league, "nfl"@) {
        Some(Sport::Football)
    } else if eq_ci(league, "nhl"@) {
        Some(Sport::IceHockey)
    } else if eq_ci(league, "mls"@) {
        Some(Sport::SoccerMls)
    } else if eq_ci(league, "nwsl"@) {
        Some(Sport::SoccerNwsl)
    } else if eq_ci(league, "premier"@) || eq_ci(league, "epl"@) || eq_ci(league, "prem"@)
        || eq_ci(league, "premier-league"@) {
        Some(Sport::SoccerPremier)
    } else {
        None
    }
}

/// Resolves a user-supplied league token to its sport; an unrecognized
/// token is a configuration error, reported in the message.
pub fn get_sport_code(league: &str) -> (r: Result<Sport, String>)
    ensures
        match r {
            Ok(s) => league_sport(league@) == Some(s),
            Err(m) => league_sport(league@) is None && m@ == "unsupported league: "@ + league@,
        },
{
    if str_eq_ci(league, "mlb") {
        Ok(Sport::Baseball)
    } else if str_eq_ci(league, "nba") {
        Ok(Sport::BasketballMen)
    } else if str_eq_ci(league, "wnba") {
        Ok(Sport::BasketballWomen)
    } else if str_eq_ci(league, "nfl") {
        Ok(Sport::Football)
    } else if str_eq_ci(league, "nhl") {
        Ok(Sport::IceHockey)
    } else if str_eq_ci(league, "mls") {
        Ok(Sport::SoccerMls)
    } else if str_eq_ci(league, "nwsl") {
        Ok(Sport::SoccerNwsl)
    } else if str_eq_ci(league, "premier") || str_eq_ci(league, "epl") || str_eq_ci(league, "prem")
        || str_eq_ci(league, "premier-league") {
        Ok(Sport::SoccerPremier)
    } else {
        Err(String::from_str("unsupported league: ").concat(league))
    }
}

impl Sport {
    /// The path fragment the scoreboard source keys this sport by.
    pub open spec fn code_spec(self) -> Seq<char> {
        match self {
            Sport::Football => "football/nfl"@,
            Sport::BasketballMen => "basketball/nba"@,
            Sport::BasketballWomen => "basketball/wnba"@,
            Sport::Baseball => "baseball/mlb"@,
            Sport::IceHockey => "hockey/nhl"@,
            Sport::SoccerMls => "soccer/usa.1"@,
            Sport::SoccerNwsl => "soccer/usa.nwsl"@,
            Sport::SoccerPremier => "soccer/eng.1"@,
        }
    }

    /// The path fragment the scoreboard source keys this sport by.
    pub fn code(&self) -> (r: String)
        ensures
            r@ == self.code_spec(),
    {
        match self {
            Sport::Football => String::from_str("football/nfl"),
            Sport::BasketballMen => String::from_str("basketball/nba"),
            Sport::BasketballWomen => String::from_str("basketball/wnba"),
            Sport::Baseball => String::from_str("baseball/mlb"),
            Sport::IceHockey => String::from_str("hockey/nhl"),
            Sport::SoccerMls => String::from_str("soccer/usa.1"),
            Sport::SoccerNwsl => String::from_str("soccer/usa.nwsl"),
            Sport::SoccerPremier => String::from_str("soccer/eng.1"),
        }
    }
}

} // verus!
