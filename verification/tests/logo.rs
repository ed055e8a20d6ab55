use grok_welcome_billing::spans::equal_runs;
use grok_welcome_billing::logo::{
    compact_logo_line_count, full_logo_line_count, full_logo_line_count_for,
    full_logo_visual_width, full_logo_visual_width_for, logo_line_count, logo_visual_width,
    pick_logo_for, shimmer_frame, Art, FULL_LOGO_MIN_HEIGHT, NO_LOGO_WIDTH,
    SMALL_LOGO_MIN_HEIGHT,
};
use grok_welcome_billing::moon::{cell_bits, dot_on_disc, moon_glyph_lines, BRAILLE_BASE};

#[test]
fn logo_sizes_by_height() {
    assert!(pick_logo_for(SMALL_LOGO_MIN_HEIGHT - 1, false).is_none());
    assert_eq!(pick_logo_for(SMALL_LOGO_MIN_HEIGHT, false), Some(Art::small()));
    assert_eq!(pick_logo_for(FULL_LOGO_MIN_HEIGHT - 1, false), Some(Art::small()));
    assert_eq!(pick_logo_for(FULL_LOGO_MIN_HEIGHT, false), Some(Art::logo()));
}

// The braille art has no legacy-safe stand-in, so every height tier must
// collapse to no logo when the legacy-console flag is set.
#[test]
fn logo_hidden_on_legacy_console_at_every_height() {
    for h in [0, SMALL_LOGO_MIN_HEIGHT, FULL_LOGO_MIN_HEIGHT, u16::MAX] {
        assert!(pick_logo_for(h, true).is_none(), "height {h}");
    }
}

#[test]
fn hero_box_always_uses_full_logo() {
    assert_eq!(full_logo_line_count_for(false), Art::logo().rows);
    assert_eq!(full_logo_visual_width_for(false), Art::logo().cols);
    assert!(full_logo_line_count_for(false) > Art::small().rows);
    assert!(full_logo_visual_width_for(false) > Art::small().cols);
}

#[test]
fn full_logo_helpers_collapse_when_hidden() {
    assert_eq!(full_logo_line_count_for(true), 0);
    assert_eq!(full_logo_visual_width_for(true), 0);
}

#[test]
fn compact_logo_line_count_matches_small_logo_when_visible() {
    for hidden in [false, true] {
        if !hidden {
            assert_eq!(compact_logo_line_count(hidden), Art::small().rows);
            assert!(compact_logo_line_count(hidden) < Art::logo().rows);
            assert!(compact_logo_line_count(hidden) > 0);
        } else {
            assert_eq!(compact_logo_line_count(hidden), 0);
        }
    }
}

#[test]
fn moon_frame_dimensions_match_art() {
    for art in [Art::logo(), Art::small()] {
        let lines = moon_glyph_lines(art);
        assert_eq!(lines.len(), art.rows as usize);
        for line in lines.iter() {
            assert_eq!(line.chars().count(), art.cols as usize);
        }
    }
}

#[test]
fn art_dimensions_are_exact() {
    assert_eq!(Art::logo(), Art { cols: 14, rows: 7 });
    assert_eq!(Art::small(), Art { cols: 11, rows: 5 });
}

#[test]
fn stacked_layout_budgets_follow_the_tiers() {
    assert_eq!(logo_line_count(21, false), 0);
    assert_eq!(logo_visual_width(21, false), NO_LOGO_WIDTH);
    assert_eq!(logo_visual_width(21, false), 24);
    assert_eq!(logo_line_count(22, false), 5);
    assert_eq!(logo_visual_width(22, false), 11);
    assert_eq!(logo_line_count(25, false), 5);
    assert_eq!(logo_line_count(26, false), 7);
    assert_eq!(logo_visual_width(26, false), 14);
    assert_eq!(logo_line_count(100, true), 0);
    assert_eq!(logo_visual_width(100, true), 24);
}

#[test]
fn logo_rows_never_shrink_as_the_window_grows() {
    let mut last = 0;
    for h in 0..=40u16 {
        let rows = logo_line_count(h, false);
        assert!(rows >= last, "height {h}");
        last = rows;
    }
}

#[test]
fn hero_box_counts_follow_the_hidden_flag() {
    assert_eq!(full_logo_line_count(false), 7);
    assert_eq!(full_logo_visual_width(false), 14);
    assert_eq!(full_logo_line_count(true), 0);
    assert_eq!(full_logo_visual_width(true), 0);
}

#[test]
fn shimmer_frame_counts_twelfths_of_a_second() {
    assert_eq!(shimmer_frame(false, 0), 0);
    assert_eq!(shimmer_frame(false, 83_333_333), 0);
    assert_eq!(shimmer_frame(false, 83_333_334), 1);
    assert_eq!(shimmer_frame(false, 83_500_000), 1);
    assert_eq!(shimmer_frame(false, 1_000_000_000), 12);
    assert_eq!(shimmer_frame(false, 2_500_000_000), 30);
    assert_eq!(shimmer_frame(true, 2_500_000_000), 0);
    assert_eq!(shimmer_frame(false, u64::MAX), ((u64::MAX as u128) * 12 / 1_000_000_000) as u64);
}

#[test]
fn shimmer_frame_never_runs_backward() {
    let mut last = 0;
    for t in (0..5_000_000_000u64).step_by(7_000_001) {
        let f = shimmer_frame(false, t);
        assert!(f >= last);
        last = f;
    }
}

#[test]
fn moon_disc_covers_the_centre_and_spares_the_corners() {
    let art = Art::logo();
    assert!(dot_on_disc(art, 13, 13));
    assert!(dot_on_disc(art, 14, 14));
    assert!(!dot_on_disc(art, 0, 0));
    assert!(!dot_on_disc(art, 27, 27));
    assert!(!dot_on_disc(art, 0, 27));
    // The full logo's centre cell is covered entirely.
    assert_eq!(cell_bits(art, 3, 7), 0xFF);
    // Its corner cells are blank.
    assert_eq!(cell_bits(art, 0, 0), 0);
    assert_eq!(cell_bits(art, 6, 13), 0);
}

#[test]
fn moon_glyphs_stay_in_the_braille_block() {
    for art in [Art::logo(), Art::small()] {
        let lines = moon_glyph_lines(art);
        for line in lines.iter() {
            for ch in line.chars() {
                let c = ch as u32;
                assert!((BRAILLE_BASE..=BRAILLE_BASE + 0xFF).contains(&c));
            }
        }
        // The centre of the middle line is drawn.
        let mid: Vec<char> = lines[art.rows as usize / 2].chars().collect();
        assert_ne!(mid[art.cols as usize / 2], '\u{2800}');
    }
    let lines = moon_glyph_lines(Art::logo());
    assert_eq!(lines[3].chars().nth(7), Some('\u{28FF}'));
}

#[test]
fn empty_art_has_no_lines() {
    assert!(moon_glyph_lines(Art { cols: 0, rows: 0 }).is_empty());
    let lines = moon_glyph_lines(Art { cols: 0, rows: 2 });
    assert_eq!(lines.len(), 2);
    assert!(lines.iter().all(|l| l.is_empty()));
    // A one-column art has a zero radius: nothing is drawn.
    let lines = moon_glyph_lines(Art { cols: 1, rows: 3 });
    assert!(lines.iter().all(|l| l == "\u{2800}"));
}

#[test]
fn equal_runs_group_neighbouring_cells_of_one_colour() {
    assert!(equal_runs(&vec![]).is_empty());
    assert_eq!(equal_runs(&vec![7]), vec![(0, 1)]);
    assert_eq!(equal_runs(&vec![1, 1, 2, 2, 2, 1]), vec![(0, 2), (2, 5), (5, 6)]);
    assert_eq!(equal_runs(&vec![3, 3, 3]), vec![(0, 3)]);
    assert_eq!(equal_runs(&vec![1, 2, 3]), vec![(0, 1), (1, 2), (2, 3)]);
}
