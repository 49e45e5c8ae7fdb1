use ted_core::buffer::Buffer;
use ted_core::input::{InputEvent, Key};
use ted_core::mode::{CursorStyle, Mode};
use ted_core::state::VimState;

fn k(c: char) -> InputEvent {
    InputEvent::Key(Key::Char(c))
}

fn esc() -> InputEvent {
    InputEvent::Key(Key::Esc)
}

fn buf(lines: &[&str]) -> Buffer {
    Buffer::from_lines(lines.iter().map(|s| s.chars().collect()).collect())
}

fn text(b: &Buffer) -> Vec<String> {
    b.lines.iter().map(|l| l.iter().collect()).collect()
}

fn feed(st: &mut VimState, b: &mut Buffer, keys: &str) -> bool {
    let mut quit = false;
    for c in keys.chars() {
        quit = st.process_event(k(c), b);
    }
    quit
}

#[test]
fn esc_returns_to_normal_from_every_mode() {
    for mode in [
        Mode::Normal,
        Mode::Insert,
        Mode::Replace,
        Mode::Visual,
        Mode::VisualLine,
        Mode::Command,
    ] {
        let mut st = VimState::new(mode);
        let mut b = buf(&["abc"]);
        let quit = st.process_event(esc(), &mut b);
        assert!(!quit);
        assert_eq!(st.mode(), Mode::Normal);
        assert_eq!(st.pending, ted_core::pending::PendingInput::empty());
        let quit2 = st.process_event(esc(), &mut b);
        assert!(!quit2);
        assert_eq!(st.mode(), Mode::Normal);
        assert_eq!(text(&b), vec!["abc"]);
    }
}

#[test]
fn esc_drops_pending_count_and_operator() {
    let mut st = VimState::new(Mode::Normal);
    let mut b = buf(&["abc", "def"]);
    feed(&mut st, &mut b, "3d");
    assert!(st.pending.count.is_some());
    st.process_event(esc(), &mut b);
    assert_eq!(st.pending, ted_core::pending::PendingInput::empty());
    assert_eq!(text(&b), vec!["abc", "def"]);
}

#[test]
fn dd_deletes_cursor_line_regardless_of_column() {
    let mut st = VimState::new(Mode::Normal);
    let mut b = buf(&["abc", "def", "ghi"]);
    b.line = 1;
    b.col = 2;
    feed(&mut st, &mut b, "dd");
    assert_eq!(text(&b), vec!["abc", "ghi"]);
    assert_eq!(st.mode(), Mode::Normal);
    assert_eq!(st.pending, ted_core::pending::PendingInput::empty());
    assert_eq!((b.line, b.col), (1, 0));
}

#[test]
fn dd_on_the_only_line_leaves_one_empty_line() {
    let mut st = VimState::new(Mode::Normal);
    let mut b = buf(&["abc"]);
    feed(&mut st, &mut b, "dd");
    assert_eq!(text(&b), vec![""]);
    assert_eq!((b.line, b.col), (0, 0));
}

#[test]
fn count_dd_deletes_three_lines() {
    let mut st = VimState::new(Mode::Normal);
    let mut b = buf(&["a", "b", "c", "d", "e"]);
    b.line = 1;
    feed(&mut st, &mut b, "3dd");
    assert_eq!(text(&b), vec!["a", "e"]);
}

#[test]
fn count_dd_clamps_to_what_remains() {
    let mut st = VimState::new(Mode::Normal);
    let mut b = buf(&["a", "b"]);
    feed(&mut st, &mut b, "3dd");
    assert_eq!(text(&b), vec![""]);
}

#[test]
fn count_j_moves_down_clamped() {
    let mut st = VimState::new(Mode::Normal);
    let mut b = buf(&["a", "b", "c", "d", "e"]);
    feed(&mut st, &mut b, "12j");
    assert_eq!(b.line, 4);
}

#[test]
fn count_j_equals_repeated_j() {
    let lines: Vec<String> = (0..20).map(|i| format!("line{}", i)).collect();
    let strs: Vec<&str> = lines.iter().map(|s| s.as_str()).collect();

    let mut st1 = VimState::new(Mode::Normal);
    let mut b1 = buf(&strs);
    feed(&mut st1, &mut b1, "12j");

    let mut st2 = VimState::new(Mode::Normal);
    let mut b2 = buf(&strs);
    for _ in 0..12 {
        feed(&mut st2, &mut b2, "j");
    }
    assert_eq!(b1.line, 12);
    assert_eq!((b1.line, b1.col), (b2.line, b2.col));
    assert_eq!(text(&b1), text(&b2));
}

#[test]
fn zero_after_count_is_a_digit_not_a_motion() {
    let mut st = VimState::new(Mode::Normal);
    let lines: Vec<String> = (0..15).map(|i| format!("l{}", i)).collect();
    let strs: Vec<&str> = lines.iter().map(|s| s.as_str()).collect();
    let mut b = buf(&strs);
    feed(&mut st, &mut b, "10j");
    assert_eq!(b.line, 10);
}

#[test]
fn zero_without_count_moves_to_line_start() {
    let mut st = VimState::new(Mode::Normal);
    let mut b = buf(&["hello"]);
    b.col = 4;
    feed(&mut st, &mut b, "0");
    assert_eq!(b.col, 0);
}

#[test]
fn insert_abc_lands_before_old_cursor() {
    let mut st = VimState::new(Mode::Normal);
    let mut b = buf(&["xy"]);
    b.col = 1;
    feed(&mut st, &mut b, "iabc");
    st.process_event(esc(), &mut b);
    assert_eq!(text(&b), vec!["xabcy"]);
    assert_eq!(st.mode(), Mode::Normal);
    assert_eq!(b.col, 3);
    assert_eq!(b.lines[0][b.col], 'c');
}

#[test]
fn doubled_operator_must_match_exactly() {
    let mut st = VimState::new(Mode::Normal);
    let mut b = buf(&["abc", "def"]);
    feed(&mut st, &mut b, "dy");
    assert_eq!(text(&b), vec!["abc", "def"]);
    assert_eq!(st.mode(), Mode::Normal);
    assert_eq!(st.pending, ted_core::pending::PendingInput::empty());
}

#[test]
fn visual_selection_then_operator() {
    let mut st = VimState::new(Mode::Normal);
    let mut b = buf(&["hello"]);
    b.col = 1;
    feed(&mut st, &mut b, "vlld");
    assert_eq!(text(&b), vec!["hlo"]);
    assert_eq!(st.mode(), Mode::Normal);
    assert_eq!(st.pending, ted_core::pending::PendingInput::empty());
    assert!(b.anchor.is_none());
    assert_eq!((b.line, b.col), (0, 1));
}

#[test]
fn visual_esc_clears_anchor() {
    let mut st = VimState::new(Mode::Normal);
    let mut b = buf(&["hello"]);
    feed(&mut st, &mut b, "v");
    assert_eq!(b.anchor, Some((0, 0)));
    st.process_event(esc(), &mut b);
    assert!(b.anchor.is_none());
    assert_eq!(st.mode(), Mode::Normal);
}

#[test]
fn visual_line_delete() {
    let mut st = VimState::new(Mode::Normal);
    let mut b = buf(&["a", "b", "c"]);
    feed(&mut st, &mut b, "Vjd");
    assert_eq!(text(&b), vec!["c"]);
    assert_eq!(st.mode(), Mode::Normal);
    assert!(b.anchor.is_none());
}

#[test]
fn yank_line_then_paste() {
    let mut st = VimState::new(Mode::Normal);
    let mut b = buf(&["ab", "cd"]);
    feed(&mut st, &mut b, "yyp");
    assert_eq!(text(&b), vec!["ab", "ab", "cd"]);
    assert_eq!((b.line, b.col), (1, 0));
}

#[test]
fn named_register_round_trip() {
    let mut st = VimState::new(Mode::Normal);
    let mut b = buf(&["one", "two"]);
    feed(&mut st, &mut b, "\"ayyj\"ap");
    assert_eq!(text(&b), vec!["one", "two", "one"]);
}

#[test]
fn delete_with_motion_span_is_exclusive() {
    let mut st = VimState::new(Mode::Normal);
    let mut b = buf(&["hello"]);
    feed(&mut st, &mut b, "dfl");
    assert_eq!(text(&b), vec!["llo"]);
}

#[test]
fn charwise_delete_then_paste_restores() {
    let mut st = VimState::new(Mode::Normal);
    let mut b = buf(&["hello"]);
    b.col = 1;
    feed(&mut st, &mut b, "vlldp");
    assert_eq!(text(&b), vec!["hello"]);
}

#[test]
fn find_char_moves_to_it() {
    let mut st = VimState::new(Mode::Normal);
    let mut b = buf(&["hello"]);
    feed(&mut st, &mut b, "fl");
    assert_eq!(b.col, 2);
}

#[test]
fn find_missing_char_stays() {
    let mut st = VimState::new(Mode::Normal);
    let mut b = buf(&["hello"]);
    feed(&mut st, &mut b, "fz");
    assert_eq!(b.col, 0);
}

#[test]
fn gg_and_capital_g() {
    let mut st = VimState::new(Mode::Normal);
    let mut b = buf(&["a", "b", "c"]);
    feed(&mut st, &mut b, "G");
    assert_eq!(b.line, 2);
    feed(&mut st, &mut b, "gg");
    assert_eq!(b.line, 0);
}

#[test]
fn word_motions() {
    let mut st = VimState::new(Mode::Normal);
    let mut b = buf(&["foo bar baz"]);
    feed(&mut st, &mut b, "w");
    assert_eq!(b.col, 4);
    feed(&mut st, &mut b, "w");
    assert_eq!(b.col, 8);
    feed(&mut st, &mut b, "b");
    assert_eq!(b.col, 4);
    let mut st2 = VimState::new(Mode::Normal);
    let mut b2 = buf(&["foo bar"]);
    feed(&mut st2, &mut b2, "e");
    assert_eq!(b2.col, 2);
}

#[test]
fn dollar_moves_to_line_end() {
    let mut st = VimState::new(Mode::Normal);
    let mut b = buf(&["hello"]);
    feed(&mut st, &mut b, "$");
    assert_eq!(b.col, 5);
}

#[test]
fn insert_mode_enter_splits_line() {
    let mut st = VimState::new(Mode::Normal);
    let mut b = buf(&["abcd"]);
    b.col = 2;
    feed(&mut st, &mut b, "i");
    st.process_event(InputEvent::Key(Key::Enter), &mut b);
    assert_eq!(text(&b), vec!["ab", "cd"]);
    assert_eq!((b.line, b.col), (1, 0));
}

#[test]
fn insert_mode_backspace_joins_lines() {
    let mut st = VimState::new(Mode::Normal);
    let mut b = buf(&["ab", "cd"]);
    b.line = 1;
    feed(&mut st, &mut b, "i");
    st.process_event(InputEvent::Key(Key::Backspace), &mut b);
    assert_eq!(text(&b), vec!["abcd"]);
    assert_eq!((b.line, b.col), (0, 2));
}

#[test]
fn open_below_and_above() {
    let mut st = VimState::new(Mode::Normal);
    let mut b = buf(&["ab"]);
    feed(&mut st, &mut b, "o");
    assert_eq!(st.mode(), Mode::Insert);
    assert_eq!(text(&b), vec!["ab", ""]);
    st.process_event(esc(), &mut b);
    feed(&mut st, &mut b, "O");
    assert_eq!(text(&b), vec!["ab", "", ""]);
    assert_eq!(b.line, 1);
}

#[test]
fn append_moves_right_before_insert() {
    let mut st = VimState::new(Mode::Normal);
    let mut b = buf(&["ab"]);
    feed(&mut st, &mut b, "ax");
    assert_eq!(text(&b), vec!["axb"]);
    let mut st2 = VimState::new(Mode::Normal);
    let mut b2 = buf(&["ab"]);
    feed(&mut st2, &mut b2, "Ax");
    assert_eq!(text(&b2), vec!["abx"]);
}

#[test]
fn replace_mode_overwrites() {
    let mut st = VimState::new(Mode::Normal);
    let mut b = buf(&["abcd"]);
    feed(&mut st, &mut b, "Rxy");
    assert_eq!(text(&b), vec!["xycd"]);
    assert_eq!(st.mode(), Mode::Replace);
    st.process_event(esc(), &mut b);
    assert_eq!(st.mode(), Mode::Normal);
}

#[test]
fn change_line_enters_insert_with_empty_line() {
    let mut st = VimState::new(Mode::Normal);
    let mut b = buf(&["abc", "def"]);
    feed(&mut st, &mut b, "cc");
    assert_eq!(st.mode(), Mode::Insert);
    assert_eq!(text(&b), vec!["", "def"]);
}

#[test]
fn change_word_deletes_span_and_enters_insert() {
    let mut st = VimState::new(Mode::Normal);
    let mut b = buf(&["foo bar"]);
    feed(&mut st, &mut b, "cw");
    assert_eq!(st.mode(), Mode::Insert);
    assert_eq!(text(&b), vec!["bar"]);
}

#[test]
fn zz_requests_quit() {
    let mut st = VimState::new(Mode::Normal);
    let mut b = buf(&["ab"]);
    let quit = feed(&mut st, &mut b, "ZZ");
    assert!(quit);
    assert_eq!(st.mode(), Mode::Normal);
}

#[test]
fn z_followed_by_other_key_aborts() {
    let mut st = VimState::new(Mode::Normal);
    let mut b = buf(&["ab"]);
    let quit = feed(&mut st, &mut b, "Zq");
    assert!(!quit);
    assert_eq!(st.pending, ted_core::pending::PendingInput::empty());
}

#[test]
fn unrecognized_key_is_a_noop() {
    let mut st = VimState::new(Mode::Normal);
    let mut b = buf(&["ab"]);
    feed(&mut st, &mut b, "q");
    assert_eq!(text(&b), vec!["ab"]);
    assert_eq!(st.mode(), Mode::Normal);
    assert_eq!(st.pending, ted_core::pending::PendingInput::empty());
}

#[test]
fn command_mode_enter_and_esc_return_to_normal() {
    let mut st = VimState::new(Mode::Normal);
    let mut b = buf(&["ab"]);
    feed(&mut st, &mut b, ":");
    assert_eq!(st.mode(), Mode::Command);
    st.process_event(InputEvent::Key(Key::Enter), &mut b);
    assert_eq!(st.mode(), Mode::Normal);
    feed(&mut st, &mut b, ":");
    st.process_event(esc(), &mut b);
    assert_eq!(st.mode(), Mode::Normal);
}

#[test]
fn mode_rendering_hints() {
    assert_eq!(Mode::Normal.cursor_style(), CursorStyle::Block);
    assert_eq!(Mode::Insert.cursor_style(), CursorStyle::Bar);
    assert_eq!(Mode::Replace.cursor_style(), CursorStyle::Underline);
    assert_eq!(Mode::Visual.cursor_style(), CursorStyle::Block);
    assert_eq!(Mode::Normal.title(), "NORMAL");
    assert_eq!(Mode::VisualLine.title(), "VISUAL LINE");
}

#[test]
fn saturating_count_does_not_overflow() {
    let mut st = VimState::new(Mode::Normal);
    let mut b = buf(&["a", "b"]);
    feed(&mut st, &mut b, "99999999999999999999j");
    assert_eq!(b.line, 1);
}

#[test]
fn multiline_visual_delete_joins_lines() {
    let mut st = VimState::new(Mode::Normal);
    let mut b = buf(&["abcd", "efgh"]);
    b.col = 2;
    feed(&mut st, &mut b, "vjd");
    assert_eq!(text(&b), vec!["abgh"]);
    assert_eq!((b.line, b.col), (0, 2));
}

#[test]
fn other_events_are_ignored() {
    let mut st = VimState::new(Mode::Normal);
    let mut b = buf(&["ab"]);
    let quit = st.process_event(InputEvent::Other, &mut b);
    assert!(!quit);
    assert_eq!(text(&b), vec!["ab"]);
    assert_eq!(st.mode(), Mode::Normal);
}
