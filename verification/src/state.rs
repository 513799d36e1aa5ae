//! The application state: the fetched game list, the team filter, scroll
//! and refresh bookkeeping, and the transitions the control loop applies.
//!
//! Time reaches this module only as plain seconds handed in by the caller,
//! so every transition is a pure function of its arguments.

use vstd::prelude::*;
use vstd::string::*;
use crate::layout::{spec_max_offset, spec_page_size, GAME_SLOT_ROWS, TWO_COLUMN_MIN_WIDTH};
use crate::model::{Competition, GameEvent, Sport, Status, Team};
use crate::status::{format_label, format_live, spec_live_label, spec_status_label};
use crate::text::{contains_ci, str_contains};

verus! {

/// Seconds between automatic refreshes.
pub const REFRESH_PERIOD_SECS: u64 = 30;

/// A keystroke the control loop recognizes; anything else is `Other`.
#[derive(Clone, Copy, Debug, PartialEq, Eq, Structural)]
pub enum KeyInput {
    Quit,
    Refresh,
    ScrollUp,
    ScrollDown,
    Other,
}

/// What the control loop must do after a keystroke.
#[derive(Clone, Copy, Debug, PartialEq, Eq, Structural)]
pub enum KeyOutcome {
    Exit,
    StartFetch,
    Continue,
}

/// The whole mutable state of the dashboard.
#[derive(Debug, Clone)]
pub struct AppState {
    /// The most recently fetched game list, replaced wholesale on success.
    pub events: Vec<GameEvent>,
    /// The sport of the league selected at startup.
    pub sport: Sport,
    /// Optional team substring filter, fixed at startup.
    pub team_filter: Option<String>,
    /// The message shown instead of the game list after a failed fetch.
    pub error_message: Option<String>,
    /// Scroll offset into the filtered game list.
    pub scroll_offset: usize,
    /// When the last fetch attempt finished, in the caller's seconds.
    pub last_refresh: u64,
    /// A fetch is in flight; blocks further refreshes until cleared.
    pub is_refreshing: bool,
}

/// `s` is the state right after startup: no games, no error, offset zero,
/// the refresh clock started at `now`, nothing in flight.
pub open spec fn spec_fresh(s: AppState, sport: Sport, team_filter: Option<String>, now: u64) -> bool {
    &&& s.events@ == Seq::<GameEvent>::empty()
    &&& s.sport == sport
    &&& s.team_filter == team_filter
    &&& s.error_message is None
    &&& s.scroll_offset == 0
    &&& s.last_refresh == now
    &&& s.is_refreshing == false
}

/// A team matches the filter text when any of its three display names
/// contains it, up to ASCII case.
pub open spec fn team_matches(team: Team, filter: Seq<char>) -> bool {
    ||| contains_ci(team.display_name@, filter)
    ||| contains_ci(team.short_display_name@, filter)
    ||| contains_ci(team.abbreviation@, filter)
}

/// A competition matches when any competitor's team does.
pub open spec fn competition_matches(comp: Competition, filter: Seq<char>) -> bool {
    exists|j: int|
        0 <= j < comp.competitors@.len() && team_matches(
            #[trigger] comp.competitors@[j].team,
            filter,
        )
}

/// A game matches when any of its competitions does.
pub open spec fn game_matches(game: GameEvent, filter: Seq<char>) -> bool {
    exists|i: int|
        0 <= i < game.competitions@.len() && competition_matches(
            #[trigger] game.competitions@[i],
            filter,
        )
}

/// A game passes the filter: always when none is set, else when it matches.
pub open spec fn game_passes(game: GameEvent, filter: Option<String>) -> bool {
    match filter {
        None => true,
        Some(f) => game_matches(game, f@),
    }
}

/// Seconds elapsed from `last` to `now`, zero if the clock ran backwards.
pub open spec fn spec_elapsed(last: u64, now: u64) -> int {
    if now >= last {
        now - last
    } else {
        0
    }
}

/// A refresh is due: the period has passed and no fetch is in flight.
pub open spec fn spec_should_refresh(s: AppState, now: u64) -> bool {
    spec_elapsed(s.last_refresh, now) >= REFRESH_PERIOD_SECS && !s.is_refreshing
}

/// Seconds left until the next refresh is due, zero once it is.
pub open spec fn spec_time_until(s: AppState, now: u64) -> int {
    if spec_elapsed(s.last_refresh, now) >= REFRESH_PERIOD_SECS {
        0
    } else {
        REFRESH_PERIOD_SECS - spec_elapsed(s.last_refresh, now)
    }
}

/// Scroll offset after one step up: down by one, floored at zero.
pub open spec fn spec_scroll_up(offset: usize) -> usize {
    if offset > 0 {
        (offset - 1) as usize
    } else {
        0
    }
}

/// Scroll offset after one step down: up by one only while the last game
/// is not yet visible.
pub open spec fn spec_scroll_down(offset: usize, total: usize, page_size: usize) -> usize {
    if offset + page_size < total {
        (offset + 1) as usize
    } else {
        offset
    }
}

fn competition_matches_exec(comp: &Competition, filter: &str) -> (r: bool)
    ensures
        r == competition_matches(*comp, filter@),
{
    let mut j: usize = 0;
    while j < comp.competitors.len()
        invariant
            j <= comp.competitors@.len(),
            forall|k: int| 0 <= k < j ==> !team_matches(#[trigger] comp.competitors@[k].team, filter@),
        decreases comp.competitors@.len() - j,
    {
        let team = &comp.competitors[j].team;
        if str_contains(team.display_name.as_str(), filter, true) || str_contains(
            team.short_display_name.as_str(),
            filter,
            true,
        ) || str_contains(team.abbreviation.as_str(), filter, true) {
            return true;
        }
        j += 1;
    }
    false
}

fn game_matches_exec(game: &GameEvent, filter: &str) -> (r: bool)
    ensures
        r == game_matches(*game, filter@),
{
    let mut i: usize = 0;
    while i < game.competitions.len()
        invariant
            i <= game.competitions@.len(),
            forall|k: int|
                0 <= k < i ==> !competition_matches(#[trigger] game.competitions@[k], filter@),
        decreases game.competitions@.len() - i,
    {
        if competition_matches_exec(&game.competitions[i], filter) {
            return true;
        }
        i += 1;
    }
    false
}

impl AppState {
    /// The state right after startup.
    pub fn new(sport: Sport, team_filter: Option<String>, now: u64) -> (r: AppState)
        ensures
            spec_fresh(r, sport, team_filter, now),
    {
        AppState {
            events: Vec::new(),
            sport: sport,
            team_filter: team_filter,
            error_message: None,
            scroll_offset: 0,
            last_refresh: now,
            is_refreshing: false,
        }
    }

    /// The positions, in original order, of the games that pass the team
    /// filter; the whole list when no filter is set.
    pub fn get_filtered_events(&self) -> (r: Vec<usize>)
        ensures
            forall|k: int|
                0 <= k < r@.len() ==> #[trigger] r@[k] < self.events@.len() && game_passes(
                    self.events@[r@[k] as int],
                    self.team_filter,
                ),
            forall|k1: int, k2: int| 0 <= k1 < k2 < r@.len() ==> r@[k1] < r@[k2],
            forall|i: int|
                0 <= i < self.events@.len() && game_passes(#[trigger] self.events@[i], self.team_filter)
                    ==> r@.contains(i as usize),
    {
        let mut out: Vec<usize> = Vec::new();
        let mut i: usize = 0;
        while i < self.events.len()
            invariant
                i <= self.events@.len(),
                forall|k: int|
                    0 <= k < out@.len() ==> #[trigger] out@[k] < i && game_passes(
                        self.events@[out@[k] as int],
                        self.team_filter,
                    ),
                forall|k1: int, k2: int| 0 <= k1 < k2 < out@.len() ==> out@[k1] < out@[k2],
                forall|j: int|
                    0 <= j < i && game_passes(#[trigger] self.events@[j], self.team_filter)
                        ==> out@.contains(j as usize),
            decreases self.events@.len() - i,
        {
            let keep = match &self.team_filter {
                None => true,
                Some(f) => game_matches_exec(&self.events[i], f.as_str()),
            };
            let ghost prev = out@;
            if keep {
                out.push(i);
            }
            proof {
                assert forall|j: int|
                    0 <= j < i + 1 && game_passes(#[trigger] self.events@[j], self.team_filter)
                        implies out@.contains(j as usize) by {
                    if j < i {
                        let k = choose|k: int| 0 <= k < prev.len() && prev[k] == j as usize;
                        assert(out@[k] == j as usize);
                    } else {
                        assert(keep);
                        assert(out@[out@.len() - 1] == i as usize);
                    }
                }
            }
            i += 1;
        }
        out
    }

    /// One scroll step towards the top.
    pub fn scroll_up(&mut self)
        ensures
            *final(self) == (AppState {
                scroll_offset: spec_scroll_up(old(self).scroll_offset),
                ..*old(self)
            }),
    {
        if self.scroll_offset > 0 {
            self.scroll_offset = self.scroll_offset - 1;
        }
    }

    /// One scroll step towards the end, stopping exactly when the last
    /// page is fully visible.
    pub fn scroll_down(&mut self, total_filtered: usize, page_size: usize)
        ensures
            *final(self) == (AppState {
                scroll_offset: spec_scroll_down(
                    old(self).scroll_offset,
                    total_filtered,
                    page_size,
                ),
                ..*old(self)
            }),
    {
        if total_filtered > page_size && self.scroll_offset < total_filtered - page_size {
            self.scroll_offset = self.scroll_offset + 1;
        }
    }

    /// Pulls an offset that a shrunken filtered list left out of range back
    /// to the furthest position that still shows a full page.
    pub fn clamp_offset(&mut self, total_filtered: usize, page_size: usize)
        ensures
            *final(self) == (AppState {
                scroll_offset: if old(self).scroll_offset <= spec_max_offset(
                    total_filtered,
                    page_size,
                ) {
                    old(self).scroll_offset
                } else {
                    spec_max_offset(total_filtered, page_size) as usize
                },
                ..*old(self)
            }),
            final(self).scroll_offset <= spec_max_offset(total_filtered, page_size),
    {
        let max_offset = if total_filtered > page_size {
            total_filtered - page_size
        } else {
            0
        };
        if self.scroll_offset > max_offset {
            self.scroll_offset = max_offset;
        }
    }

    /// A refresh is due: the period has passed and no fetch is in flight.
    pub fn should_refresh(&self, now: u64) -> (r: bool)
        ensures
            r == spec_should_refresh(*self, now),
    {
        let elapsed = if now >= self.last_refresh {
            now - self.last_refresh
        } else {
            0
        };
        elapsed >= REFRESH_PERIOD_SECS && !self.is_refreshing
    }

    /// Seconds left until the next refresh is due, for display only.
    pub fn time_until_next_refresh(&self, now: u64) -> (r: u64)
        ensures
            r == spec_time_until(*self, now),
    {
        let elapsed = if now >= self.last_refresh {
            now - self.last_refresh
        } else {
            0
        };
        if elapsed >= REFRESH_PERIOD_SECS {
            0
        } else {
            REFRESH_PERIOD_SECS - elapsed
        }
    }

    /// Marks a fetch as in flight; nothing else changes.
    pub fn begin_fetch(&mut self)
        ensures
            *final(self) == (AppState { is_refreshing: true, ..*old(self) }),
    {
        self.is_refreshing = true;
    }

    /// A fetch succeeded: the payload replaces the game list wholesale (no
    /// merge - a game absent from the payload is gone), the error is
    /// cleared, the refresh clock restarts, and the in-flight flag drops.
    pub fn apply_fetch_success(&mut self, events: Vec<GameEvent>, now: u64)
        ensures
            final(self).events == events,
            final(self).error_message is None,
            final(self).last_refresh == now,
            final(self).is_refreshing == false,
            final(self).sport == old(self).sport,
            final(self).team_filter == old(self).team_filter,
            final(self).scroll_offset == old(self).scroll_offset,
    {
        self.events = events;
        self.error_message = None;
        self.last_refresh = now;
        self.is_refreshing = false;
    }

    /// A fetch failed: the message replaces the content area, the stale
    /// game list is kept, the refresh clock still restarts (so a failing
    /// endpoint is retried no faster than the period), and the in-flight
    /// flag drops.
    pub fn apply_fetch_failure(&mut self, message: String, now: u64)
        ensures
            *final(self) == (AppState {
                error_message: Some(message),
                last_refresh: now,
                is_refreshing: false,
                ..*old(self)
            }),
    {
        self.error_message = Some(message);
        self.last_refresh = now;
        self.is_refreshing = false;
    }

    /// Applies one keystroke: scroll keys move the offset, quit and manual
    /// refresh are handed back to the control loop, anything else is
    /// ignored.
    pub fn apply_key(&mut self, key: KeyInput, total_filtered: usize, page_size: usize) -> (r:
        KeyOutcome)
        ensures
            key == KeyInput::Quit ==> r == KeyOutcome::Exit && *final(self) == *old(self),
            key == KeyInput::Refresh ==> r == KeyOutcome::StartFetch && *final(self) == *old(self),
            key == KeyInput::ScrollUp ==> r == KeyOutcome::Continue && *final(self) == (AppState {
                scroll_offset: spec_scroll_up(old(self).scroll_offset),
                ..*old(self)
            }),
            key == KeyInput::ScrollDown ==> r == KeyOutcome::Continue && *final(self) == (AppState {
                scroll_offset: spec_scroll_down(
                    old(self).scroll_offset,
                    total_filtered,
                    page_size,
                ),
                ..*old(self)
            }),
            key == KeyInput::Other ==> r == KeyOutcome::Continue && *final(self) == *old(self),
    {
        match key {
            KeyInput::Quit => KeyOutcome::Exit,
            KeyInput::Refresh => KeyOutcome::StartFetch,
            KeyInput::ScrollUp => {
                self.scroll_up();
                KeyOutcome::Continue
            },
            KeyInput::ScrollDown => {
                self.scroll_down(total_filtered, page_size);
                KeyOutcome::Continue
            },
            KeyInput::Other => KeyOutcome::Continue,
        }
    }

    /// The full display label of one status for the selected sport.
    pub fn format_status(&self, status: &Status) -> (r: String)
        ensures
            r@ == spec_status_label(self.sport, *status),
    {
        format_label(self.sport, status)
    }

    /// The sport-specific part of a live label for the selected sport.
    pub fn format_live_status(&self, status: &Status) -> (r: String)
        ensures
            r@ == spec_live_label(self.sport, *status),
    {
        format_live(self.sport, status)
    }

    /// Games visible on one screen for the given content area: one fixed
    /// six-row slot per game, doubled when two columns fit, never zero.
    pub fn calculate_games_per_screen(&self, content_width: u16, content_height: u16) -> (r: usize)
        ensures
            r == spec_page_size(content_width, content_height),
            r >= 1,
    {
        let per_column = (content_height / GAME_SLOT_ROWS) as usize;
        let games_per_column = if per_column < 1 {
            1
        } else {
            per_column
        };
        if content_width >= TWO_COLUMN_MIN_WIDTH {
            games_per_column * 2
        } else {
            games_per_column
        }
    }
}

} // verus!
