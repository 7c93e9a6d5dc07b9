use splitpane::content::{
    Color, LEFT_TEXT, MAIN_TITLE, PANEL_TITLE, RIGHT_LINE_ONE, RIGHT_LINE_THREE, RIGHT_LINE_TWO,
};
use splitpane::frame::{render_frame, BorderKind};

#[test]
fn rendering_twice_gives_identical_frames() {
    for (w, h) in [(80u16, 24u16), (20, 11), (3, 3), (0, 0), (200, 60)] {
        let first = render_frame(w, h);
        let second = render_frame(w, h);
        assert_eq!(first, second);
    }
}

#[test]
fn a_frame_draws_five_widgets_in_order() {
    let f = render_frame(80, 24);
    assert_eq!(f.len(), 5);
    assert_eq!(f[0].title, MAIN_TITLE);
    assert_eq!(f[0].border, BorderKind::Rounded);
    assert!(f[0].lines.is_empty());
    for p in &f[1..] {
        assert_eq!(p.title, PANEL_TITLE);
        assert_eq!(p.border, BorderKind::Plain);
        assert_eq!(p.base_fg, Color::White);
        assert_eq!(p.base_bg, Color::Black);
        assert!(p.wrapped);
    }
    assert_eq!(f[1].lines.len(), 1);
    assert_eq!(f[1].lines[0].text, LEFT_TEXT);
    assert_eq!(f[1].lines[0].fg, Color::Inherit);
}

#[test]
fn the_three_right_panels_are_identical_apart_from_position() {
    for (w, h) in [(80u16, 24u16), (11, 9), (40, 13), (7, 30)] {
        let f = render_frame(w, h);
        for i in [2usize, 3, 4] {
            assert_eq!(f[i].lines, f[2].lines);
            assert_eq!(f[i].title, f[2].title);
            assert_eq!(f[i].border, f[2].border);
            assert_eq!(f[i].base_fg, f[2].base_fg);
            assert_eq!(f[i].base_bg, f[2].base_bg);
            assert_eq!(f[i].wrapped, f[2].wrapped);
        }
    }
}

#[test]
fn right_panel_text_and_colors_match_the_fixed_content() {
    let f = render_frame(80, 24);
    let lines = &f[2].lines;
    assert_eq!(lines.len(), 3);
    assert_eq!(lines[0].text, RIGHT_LINE_ONE);
    assert_eq!(lines[0].fg, Color::Green);
    assert_eq!(lines[1].text, RIGHT_LINE_TWO);
    assert_eq!(lines[1].fg, Color::Green);
    assert_eq!(lines[2].text, RIGHT_LINE_THREE);
    assert_eq!(lines[2].fg, Color::Yellow);
}

#[test]
fn the_fixed_content_is_the_expected_text() {
    assert_eq!(MAIN_TITLE, "Main block with round corners");
    assert_eq!(PANEL_TITLE, "Paragraph");
    assert_eq!(LEFT_TEXT, "Sussy baka");
    assert_eq!(RIGHT_LINE_ONE, "Sussy text goes in here");
    assert_eq!(RIGHT_LINE_TWO, "Look at me, Hector");
    assert!(RIGHT_LINE_THREE.starts_with("he FitnessGram\u{2122} Pacer Test"));
    assert!(RIGHT_LINE_THREE.ends_with("On your mark, get ready, start."));
}

#[test]
fn panel_regions_follow_the_layout() {
    let f = render_frame(20, 11);
    let l = splitpane::layout::compute_layout(20, 11);
    assert_eq!(f[0].region, l.full);
    assert_eq!(f[1].region, l.left);
    assert_eq!(f[2].region, l.right_top);
    assert_eq!(f[3].region, l.right_middle);
    assert_eq!(f[4].region, l.right_bottom);
}
