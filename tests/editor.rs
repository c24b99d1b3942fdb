use rui::{text_editor, GlyphBox, KeyPress, LineSpan, Padding, Point, TextEditorState};

fn state_at(cursor: usize) -> TextEditorState {
    let mut s = TextEditorState::new();
    s.cursor = cursor;
    s
}

fn glyph(x: i32, y: i32, width: i32, height: i32) -> GlyphBox {
    GlyphBox { x, y, width, height }
}

fn span(glyph_start: usize, glyph_end: usize) -> LineSpan {
    LineSpan { glyph_start, glyph_end }
}

/// Nine glyphs on two lines: five of width 10 on top, four of width 12 below.
fn two_lines(cursor: usize) -> TextEditorState {
    let mut s = state_at(cursor);
    for i in 0..5 {
        s.glyph_rects.push(glyph(10 * i, 0, 10, 20));
    }
    for i in 0..4 {
        s.glyph_rects.push(glyph(12 * i, 20, 12, 20));
    }
    s.lines = vec![span(0, 5), span(5, 9)];
    s
}

#[test]
fn character_inserts_at_cursor() {
    let mut s = state_at(0);
    let t = s.key(&KeyPress::Character("x".to_string()), "ab".to_string());
    assert_eq!(t, "xab");
    assert_eq!(s.cursor, 1);
}

#[test]
fn backspace_removes_character_before_cursor() {
    let mut s = state_at(1);
    let t = s.key(&KeyPress::Backspace, "ab".to_string());
    assert_eq!(t, "b");
    assert_eq!(s.cursor, 0);
}

#[test]
fn empty_text_keeps_cursor_at_start() {
    for k in [KeyPress::ArrowRight, KeyPress::ArrowLeft, KeyPress::Backspace] {
        let mut s = state_at(0);
        let t = s.key(&k, String::new());
        assert_eq!(t, "");
        assert_eq!(s.cursor, 0);
    }
}

#[test]
fn arrow_down_moves_to_closest_glyph_below() {
    // Glyph 2 is centered at x = 25; the lower centers are at 6, 18, 30, 42.
    let mut s = two_lines(2);
    let t = s.key(&KeyPress::ArrowDown, "abcdefghi".to_string());
    assert_eq!(t, "abcdefghi");
    assert_eq!(s.cursor, 7);
}

#[test]
fn home_and_end() {
    let mut s = state_at(5);
    let t = s.key(&KeyPress::Home, "hello world".to_string());
    assert_eq!(t, "hello world");
    assert_eq!(s.cursor, 0);
    let mut s = state_at(5);
    let t = s.key(&KeyPress::End, "hello world".to_string());
    assert_eq!(t, "hello world");
    assert_eq!(s.cursor, 11);
}

#[test]
fn arrows_keep_cursor_in_text() {
    let keys = [
        KeyPress::ArrowRight,
        KeyPress::ArrowRight,
        KeyPress::ArrowRight,
        KeyPress::ArrowRight,
        KeyPress::ArrowLeft,
        KeyPress::ArrowRight,
        KeyPress::ArrowLeft,
        KeyPress::ArrowLeft,
        KeyPress::ArrowLeft,
        KeyPress::ArrowLeft,
        KeyPress::ArrowLeft,
    ];
    let mut s = state_at(1);
    let mut seen = Vec::new();
    for k in keys.iter() {
        let t = s.key(k, "abc".to_string());
        assert_eq!(t, "abc");
        assert!(s.cursor < 3);
        seen.push(s.cursor);
    }
    assert_eq!(seen, vec![2, 2, 2, 2, 1, 2, 1, 0, 0, 0, 0]);
}

#[test]
fn forward_clamps_to_last_character() {
    let mut s = state_at(4);
    s.fwd(5);
    assert_eq!(s.cursor, 4);
    let mut s = state_at(9);
    s.fwd(5);
    assert_eq!(s.cursor, 4);
    let mut s = state_at(2);
    s.fwd(5);
    assert_eq!(s.cursor, 3);
    let mut s = state_at(usize::MAX);
    s.fwd(usize::MAX);
    assert_eq!(s.cursor, usize::MAX - 1);
}

#[test]
fn back_and_forward_undo_each_other() {
    let mut s = state_at(2);
    s.back();
    assert_eq!(s.cursor, 1);
    s.fwd(5);
    assert_eq!(s.cursor, 2);
    s.fwd(5);
    assert_eq!(s.cursor, 3);
    s.back();
    assert_eq!(s.cursor, 2);
    let mut s = state_at(0);
    s.back();
    assert_eq!(s.cursor, 0);
}

#[test]
fn find_line_returns_line_holding_cursor() {
    for (c, line) in [(0, 0), (4, 0), (5, 1), (8, 1)] {
        let s = two_lines(c);
        assert_eq!(s.find_line(), line);
    }
    let s = two_lines(9);
    assert_eq!(s.find_line(), 2);
    let s = state_at(0);
    assert_eq!(s.find_line(), 0);
}

#[test]
fn closest_in_range_takes_first_of_equal_distances() {
    let s = state_at(0);
    let rects = vec![glyph(0, 0, 10, 10), glyph(10, 0, 10, 10), glyph(20, 0, 10, 10)];
    // x = 20 in half units lies halfway between the first two centers.
    let p = Point { x: 20, y: 10 };
    assert_eq!(s.closest_in_range(p, 0..3, &rects), 0);
    assert_eq!(s.closest_in_range(p, 1..3, &rects), 1);
    let far = Point { x: 1000, y: -1000 };
    assert_eq!(s.closest_in_range(far, 0..3, &rects), 2);
    assert_eq!(s.closest_in_range(far, 1..2, &rects), 1);
    assert_eq!(s.closest_in_range(far, 0..1, &rects), 0);
}

#[test]
fn glyph_center_and_distance() {
    let g = glyph(3, 4, 5, 7);
    assert_eq!(g.center(), Point { x: 11, y: 15 });
    assert_eq!(g.distance_sq_to(Point { x: 8, y: 11 }), 25);
    let far = glyph(i32::MIN, i32::MIN, i32::MIN, i32::MIN);
    let p = Point { x: i64::MAX, y: i64::MAX };
    let d = (i64::MAX as i128 + 3 * (1i128 << 31)) as u128;
    assert_eq!(far.distance_sq_to(p), 2 * d * d);
}

#[test]
fn arrow_up_moves_to_closest_glyph_above() {
    // Glyph 8 is centered at x = 42; the upper centers are at 5, 15, 25, 35, 45.
    let mut s = two_lines(8);
    s.up();
    assert_eq!(s.cursor, 4);
    let mut s = two_lines(5);
    s.up();
    assert_eq!(s.cursor, 0);
}

#[test]
fn vertical_moves_stop_at_first_and_last_line() {
    let mut s = two_lines(3);
    s.up();
    assert_eq!(s.cursor, 3);
    let mut s = two_lines(6);
    s.down();
    assert_eq!(s.cursor, 6);
}

#[test]
fn vertical_moves_without_layout_for_cursor_do_nothing() {
    let mut s = two_lines(9);
    s.down();
    assert_eq!(s.cursor, 9);
    s.up();
    assert_eq!(s.cursor, 9);
    let mut s = state_at(0);
    s.down();
    s.up();
    assert_eq!(s.cursor, 0);
    // The next line is empty.
    let mut s = two_lines(1);
    s.lines = vec![span(0, 5), span(5, 5), span(5, 9)];
    s.down();
    assert_eq!(s.cursor, 1);
}

#[test]
fn space_inserts_blank_at_cursor() {
    let mut s = state_at(2);
    let t = s.key(&KeyPress::Space, "abcd".to_string());
    assert_eq!(t, "ab cd");
    assert_eq!(s.cursor, 3);
}

#[test]
fn character_counts_characters_not_bytes() {
    let mut s = state_at(1);
    let t = s.key(&KeyPress::Character("éü".to_string()), "añb".to_string());
    assert_eq!(t, "aéüñb");
    assert_eq!(s.cursor, 3);
    let t = s.key(&KeyPress::Backspace, t);
    assert_eq!(t, "aéñb");
    assert_eq!(s.cursor, 2);
    let t = s.key(&KeyPress::End, t);
    assert_eq!(t, "aéñb");
    assert_eq!(s.cursor, 4);
}

#[test]
fn character_at_end_appends() {
    let mut s = state_at(2);
    let t = s.key(&KeyPress::Character("yz".to_string()), "ab".to_string());
    assert_eq!(t, "abyz");
    assert_eq!(s.cursor, 4);
}

#[test]
fn edits_past_end_of_text_are_not_made() {
    for k in [KeyPress::Backspace, KeyPress::Space, KeyPress::Character("q".to_string())] {
        let mut s = state_at(7);
        let t = s.key(&k, "abc".to_string());
        assert_eq!(t, "abc");
        assert_eq!(s.cursor, 7);
    }
}

#[test]
fn backspace_at_start_does_nothing() {
    let mut s = state_at(0);
    let t = s.key(&KeyPress::Backspace, "ab".to_string());
    assert_eq!(t, "ab");
    assert_eq!(s.cursor, 0);
}

#[test]
fn other_keys_change_nothing() {
    for k in [KeyPress::Enter, KeyPress::Tab, KeyPress::Escape, KeyPress::Delete] {
        let mut s = state_at(1);
        let t = s.key(&k, "ab".to_string());
        assert_eq!(t, "ab");
        assert_eq!(s.cursor, 1);
    }
}

#[test]
fn caret_sits_at_glyph_origin() {
    let s = two_lines(6);
    assert_eq!(s.caret(true), Some(glyph(12, 20, 2, 20)));
    assert_eq!(s.caret(false), None);
    let s = two_lines(9);
    assert_eq!(s.caret(true), None);
}

#[test]
fn editor_applies_keys_only_with_focus() {
    let editor = text_editor("ab".to_string(), |t: String| t.len());
    assert_eq!(editor.text(), "ab");
    assert_eq!((editor.set_text())("abc".to_string()), 3);
    let mut s = state_at(1);
    assert_eq!(editor.handle_key(&mut s, &KeyPress::Character("x".to_string()), false), None);
    assert_eq!(s.cursor, 1);
    let t = editor.handle_key(&mut s, &KeyPress::Character("x".to_string()), true);
    assert_eq!(t, Some("axb".to_string()));
    assert_eq!(s.cursor, 2);
    // The editor still holds "ab": the caller owns the text.
    let t = editor.handle_key(&mut s, &KeyPress::Backspace, true);
    assert_eq!(t, Some("a".to_string()));
    assert_eq!(s.cursor, 1);
}

#[test]
fn padding_holds_its_child() {
    let p = Padding::new(42u8);
    assert_eq!(*p.child(), 42);
}
