//! Laws of the scroll and refresh bookkeeping, proved once over every
//! state rather than checked on samples.

use vstd::prelude::*;
use crate::state::{
    spec_fresh, spec_scroll_down, spec_scroll_up, spec_should_refresh, AppState,
    REFRESH_PERIOD_SECS,
};
use crate::model::Sport;

verus! {

/// Scrolling down is idempotent at the boundary: once the last page is
/// fully visible (`offset + page_size >= total`), a scroll step leaves the
/// offset where it is, so repeated steps never push it further.
pub proof fn lemma_scroll_down_stops_at_end(offset: usize, total: usize, page_size: usize)
    requires
        offset + page_size >= total,
    ensures
        spec_scroll_down(offset, total, page_size) == offset,
        spec_scroll_down(spec_scroll_down(offset, total, page_size), total, page_size) == offset,
{
}

/// Scrolling up at the top stays at the top.
pub proof fn lemma_scroll_up_stops_at_zero()
    ensures
        spec_scroll_up(0) == 0,
{
}

/// A freshly constructed state never refreshes at once: a refresh becomes
/// due exactly when the full period has passed since construction.
pub proof fn lemma_fresh_clock_waits_full_period(
    s: AppState,
    sport: Sport,
    team_filter: Option<String>,
    start: u64,
    now: u64,
)
    requires
        spec_fresh(s, sport, team_filter, start),
    ensures
        spec_should_refresh(s, now) <==> now >= start + REFRESH_PERIOD_SECS,
        !spec_should_refresh(s, start),
{
}

/// An in-flight fetch blocks a refresh however much time has passed.
pub proof fn lemma_inflight_blocks_refresh(s: AppState, now: u64)
    requires
        s.is_refreshing,
    ensures
        !spec_should_refresh(s, now),
{
}

} // verus!
