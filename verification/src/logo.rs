//! Logo tiers for the welcome screen: which braille art fits a window, and
//! the line counts and widths that surrounding layouts budget for it.
//!
//! Whether the terminal can show braille at all (a legacy Windows console
//! cannot) is a fact about the environment; every function here takes it as
//! the `hidden` flag.

use vstd::prelude::*;

verus! {

/// Braille art footprint in terminal cells (cols x rows).
#[derive(Debug, Clone, Copy, PartialEq, Eq, Structural)]
pub struct Art {
    pub cols: u16,
    pub rows: u16,
}

impl Art {
    pub open spec fn spec_logo() -> Art {
        Art { cols: 14, rows: 7 }
    }

    pub open spec fn spec_small() -> Art {
        Art { cols: 11, rows: 5 }
    }

    /// The full logo (14 x 7 cells).
    #[verifier::when_used_as_spec(spec_logo)]
    pub fn logo() -> (art: Art)
        ensures
            art == Art::spec_logo(),
    {
        Art { cols: 14, rows: 7 }
    }

    /// The small logo (11 x 5 cells).
    #[verifier::when_used_as_spec(spec_small)]
    pub fn small() -> (art: Art)
        ensures
            art == Art::spec_small(),
    {
        Art { cols: 11, rows: 5 }
    }
}

/// Height at or above which the small logo is shown (below it, no logo).
pub const SMALL_LOGO_MIN_HEIGHT: u16 = 22;

/// Height at or above which the full logo is shown.
pub const FULL_LOGO_MIN_HEIGHT: u16 = 26;

/// Width reported for layouts when no logo is shown.
pub const NO_LOGO_WIDTH: u16 = 24;

/// Which art the stacked layout shows for a window height.
pub open spec fn spec_pick_logo(window_height: u16, hidden: bool) -> Option<Art> {
    if hidden || window_height < SMALL_LOGO_MIN_HEIGHT {
        None
    } else if window_height < FULL_LOGO_MIN_HEIGHT {
        Some(Art::spec_small())
    } else {
        Some(Art::spec_logo())
    }
}

/// Tier selection by window height; no logo at all when it is hidden.
pub fn pick_logo_for(window_height: u16, hidden: bool) -> (art: Option<Art>)
    ensures
        art == spec_pick_logo(window_height, hidden),
{
    if hidden || window_height < SMALL_LOGO_MIN_HEIGHT {
        None
    } else if window_height < FULL_LOGO_MIN_HEIGHT {
        Some(Art::small())
    } else {
        Some(Art::logo())
    }
}

/// Rows of the logo the stacked layout shows (0 when none fits).
pub open spec fn spec_logo_line_count(window_height: u16, hidden: bool) -> u16 {
    match spec_pick_logo(window_height, hidden) {
        Some(art) => art.rows,
        None => 0,
    }
}

/// Width the stacked layout budgets for the logo column.
pub open spec fn spec_logo_visual_width(window_height: u16, hidden: bool) -> u16 {
    match spec_pick_logo(window_height, hidden) {
        Some(art) => art.cols,
        None => NO_LOGO_WIDTH,
    }
}

/// Rows of the logo the stacked layout shows (0 when none fits).
pub fn logo_line_count(window_height: u16, hidden: bool) -> (n: u16)
    ensures
        n == spec_logo_line_count(window_height, hidden),
{
    match pick_logo_for(window_height, hidden) {
        Some(art) => art.rows,
        None => 0,
    }
}

/// Width the stacked layout budgets for the logo column.
pub fn logo_visual_width(window_height: u16, hidden: bool) -> (n: u16)
    ensures
        n == spec_logo_visual_width(window_height, hidden),
{
    match pick_logo_for(window_height, hidden) {
        Some(art) => art.cols,
        None => NO_LOGO_WIDTH,
    }
}

/// Rows of the hero box logo: always the full logo, unless hidden.
pub fn full_logo_line_count_for(hidden: bool) -> (n: u16)
    ensures
        n == if hidden { 0 } else { Art::spec_logo().rows },
{
    if hidden {
        0
    } else {
        Art::logo().rows
    }
}

/// Rows of the hero box logo for a terminal whose braille support is `!hidden`.
pub fn full_logo_line_count(hidden: bool) -> (n: u16)
    ensures
        n == if hidden { 0 } else { Art::spec_logo().rows },
{
    full_logo_line_count_for(hidden)
}

/// Width of the hero box logo: always the full logo, unless hidden.
pub fn full_logo_visual_width_for(hidden: bool) -> (n: u16)
    ensures
        n == if hidden { 0 } else { Art::spec_logo().cols },
{
    if hidden {
        0
    } else {
        Art::logo().cols
    }
}

/// Width of the hero box logo for a terminal whose braille support is `!hidden`.
pub fn full_logo_visual_width(hidden: bool) -> (n: u16)
    ensures
        n == if hidden { 0 } else { Art::spec_logo().cols },
{
    full_logo_visual_width_for(hidden)
}

/// Rows of the small logo in the minimal welcome card (0 when hidden).
pub fn compact_logo_line_count(hidden: bool) -> (n: u16)
    ensures
        n == if hidden { 0 } else { Art::spec_small().rows },
{
    if hidden {
        0
    } else {
        Art::small().rows
    }
}

/// Redraw cadence of the welcome animation, in frames per second.
pub const SHIMMER_FPS: u64 = 12;

/// The animation frame after `elapsed_ns` nanoseconds.
pub open spec fn spec_shimmer_frame(hidden: bool, elapsed_ns: u64) -> int {
    if hidden { 0 } else { elapsed_ns * SHIMMER_FPS / 1_000_000_000 }
}

/// Animation frame number after `elapsed_ns` nanoseconds: the number of
/// whole `1 / SHIMMER_FPS` second periods elapsed, pinned to 0 when the logo
/// is hidden. The welcome screen redraws only when it advances.
pub fn shimmer_frame(hidden: bool, elapsed_ns: u64) -> (frame: u64)
    ensures
        frame == spec_shimmer_frame(hidden, elapsed_ns),
{
    if hidden {
        return 0;
    }
    let whole = elapsed_ns / 1_000_000_000;
    let part = elapsed_ns % 1_000_000_000;
    assert(elapsed_ns * 12 / 1_000_000_000 == whole * 12 + part * 12 / 1_000_000_000)
        by (nonlinear_arith)
        requires
            whole == elapsed_ns / 1_000_000_000,
            part == elapsed_ns % 1_000_000_000,
    ;
    whole * SHIMMER_FPS + part * SHIMMER_FPS / 1_000_000_000
}

// ---------------------------------------------------------------------------
// Laws

/// Where braille cannot be shown, no window height shows a logo: every
/// stacked-layout budget is 0 rows.
pub proof fn lemma_hidden_logo_never_shown(window_height: u16)
    ensures
        spec_pick_logo(window_height, true) is None,
        spec_logo_line_count(window_height, true) == 0,
{
}

/// A taller window never shows a shorter logo.
pub proof fn lemma_logo_rows_grow_with_height(h1: u16, h2: u16, hidden: bool)
    requires
        h1 <= h2,
    ensures
        spec_logo_line_count(h1, hidden) <= spec_logo_line_count(h2, hidden),
{
}

/// The full logo (hero box) is larger than the small one in both
/// dimensions, and the small one (compact card) is not empty.
pub proof fn lemma_full_logo_exceeds_small()
    ensures
        Art::spec_logo().rows > Art::spec_small().rows,
        Art::spec_logo().cols > Art::spec_small().cols,
        Art::spec_small().rows > 0,
{
}

/// The width budget is the width of the art the same height shows, and it
/// belongs to the same art as the row budget: 14 columns with the full
/// logo's 7 rows, 11 with the small logo's 5, and 24 when no logo is shown.
pub proof fn lemma_width_is_the_picked_arts(window_height: u16, hidden: bool)
    ensures
        spec_logo_visual_width(window_height, hidden) == match spec_pick_logo(window_height, hidden) {
            Some(art) => art.cols,
            None => 24,
        },
        spec_logo_line_count(window_height, hidden) == 7 <==> spec_logo_visual_width(window_height, hidden) == 14,
        spec_logo_line_count(window_height, hidden) == 5 <==> spec_logo_visual_width(window_height, hidden) == 11,
        spec_logo_line_count(window_height, hidden) == 0 <==> spec_logo_visual_width(window_height, hidden) == 24,
        !hidden && SMALL_LOGO_MIN_HEIGHT <= window_height < FULL_LOGO_MIN_HEIGHT ==> spec_logo_visual_width(
            window_height,
            hidden,
        ) == 11,
        !hidden && FULL_LOGO_MIN_HEIGHT <= window_height ==> spec_logo_visual_width(window_height, hidden) == 14,
{
}

/// The animation frame never runs backward as time passes.
pub proof fn lemma_shimmer_frame_monotone(hidden: bool, t1: u64, t2: u64)
    requires
        t1 <= t2,
    ensures
        spec_shimmer_frame(hidden, t1) <= spec_shimmer_frame(hidden, t2),
{
    assert(t1 * 12 / 1_000_000_000 <= t2 * 12 / 1_000_000_000) by (nonlinear_arith)
        requires
            t1 <= t2,
    ;
}

} // verus!
