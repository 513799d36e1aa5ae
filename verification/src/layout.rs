//! The layout planner: given the terminal's content area, how many columns
//! of games to draw and how many games fit on one screen, plus the window
//! arithmetic for the visible slice.

use vstd::prelude::*;

verus! {

/// A rendered game always occupies this many text rows.
pub const GAME_SLOT_ROWS: u16 = 6;

/// Side-by-side columns need at least this many character cells.
pub const TWO_COLUMN_MIN_WIDTH: u16 = 80;

/// Two columns when the content area is wide enough, one otherwise.
pub open spec fn spec_column_count(content_width: u16) -> int {
    if content_width >= TWO_COLUMN_MIN_WIDTH {
        2
    } else {
        1
    }
}

/// Games stacked in one column: one fixed slot per game, never less than
/// one even on a degenerate terminal.
pub open spec fn spec_rows_per_column(content_height: u16) -> int {
    if content_height as int / GAME_SLOT_ROWS as int >= 1 {
        content_height as int / GAME_SLOT_ROWS as int
    } else {
        1
    }
}

/// Games visible on one screen before scrolling is required.
pub open spec fn spec_page_size(content_width: u16, content_height: u16) -> int {
    spec_rows_per_column(content_height) * spec_column_count(content_width)
}

/// Two columns when the content area is wide enough, one otherwise.
pub fn column_count(content_width: u16) -> (r: usize)
    ensures
        r == spec_column_count(content_width),
        content_width >= 80 ==> r == 2,
        content_width < 80 ==> r == 1,
{
    if content_width >= TWO_COLUMN_MIN_WIDTH {
        2
    } else {
        1
    }
}

/// The furthest scroll offset that still shows a full page (zero when
/// everything already fits).
pub open spec fn spec_max_offset(total: usize, page_size: usize) -> int {
    if total > page_size {
        total - page_size
    } else {
        0
    }
}

/// The half-open index window `[start, end)` of the visible slice:
/// `filtered[offset .. min(offset + page_size, total)]`, with the lower
/// bound clamped so it can never pass the end of the list.
pub fn visible_range(offset: usize, page_size: usize, total: usize) -> (r: (usize, usize))
    ensures
        r.0 == if offset <= total {
            offset as int
        } else {
            total as int
        },
        r.1 == if offset + page_size <= total {
            offset as int + page_size as int
        } else {
            total as int
        },
        r.0 <= r.1 <= total,
{
    let start = if offset < total {
        offset
    } else {
        total
    };
    let remaining = total - start;
    let end = if page_size < remaining {
        start + page_size
    } else {
        total
    };
    (start, end)
}

} // verus!
