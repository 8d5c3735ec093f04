use greetly::TextInput;

fn typed(width: usize, text: &str) -> TextInput {
    let mut input = TextInput::new(width, false, (0, 0));
    for c in text.chars() {
        input.push(c);
    }
    input
}

#[test]
fn clear_then_push_reads_back() {
    let mut input = typed(10, "old text");
    input.clear();
    for c in "héllo wörld".chars() {
        input.push(c);
    }
    assert_eq!(input.text(), "héllo wörld");
}

#[test]
fn push_inserts_at_cursor() {
    let mut input = typed(10, "ac");
    input.cursor_left();
    input.push('b');
    assert_eq!(input.text(), "abc");
    assert_eq!(input.cursor_column(), 2);
}

#[test]
fn pop_backward_and_forward() {
    let mut input = typed(10, "abcd");
    input.pop(false);
    assert_eq!(input.text(), "abc");
    input.cursor_start();
    input.pop(false);
    assert_eq!(input.text(), "abc");
    input.pop(true);
    assert_eq!(input.text(), "bc");
    input.cursor_end();
    input.pop(true);
    assert_eq!(input.text(), "bc");
    assert!(!input.is_empty());
    input.pop(false);
    input.pop(false);
    assert!(input.is_empty());
}

#[test]
fn move_cursor_clamps() {
    let mut input = typed(10, "abc");
    input.move_cursor(-100);
    assert_eq!(input.cursor_column(), 0);
    input.move_cursor(100);
    assert_eq!(input.cursor_column(), 3);
    input.set_cursor(1);
    assert_eq!(input.cursor_column(), 1);
    input.set_cursor(50);
    assert_eq!(input.cursor_column(), 3);
}

#[test]
fn window_follows_cursor_to_the_right() {
    let input = typed(5, "abcdefgh");
    // the cursor sits after 'h', in the last visible column
    assert_eq!(input.visible(), "efgh");
    assert!(input.clipped_left());
    assert!(!input.clipped_right());
    assert_eq!(input.cursor_column(), 4);
}

#[test]
fn window_keeps_two_characters_left_of_cursor() {
    let mut input = typed(5, "abcdefgh");
    for _ in 0..3 {
        input.cursor_left();
    }
    // cursor at 5, window started at 4: slides so two characters show before the cursor
    assert_eq!(input.visible(), "defgh");
    assert_eq!(input.cursor_column(), 2);
    input.cursor_start();
    assert_eq!(input.visible(), "abcde");
    assert!(!input.clipped_left());
    assert!(input.clipped_right());
}

#[test]
fn cursor_stays_in_view_after_edits() {
    let mut input = typed(4, "");
    let ops = "abcdefghij";
    for (i, c) in ops.chars().enumerate() {
        input.push(c);
        if i % 3 == 0 {
            input.cursor_left();
        }
        if i % 4 == 0 {
            input.pop(false);
        }
        assert!(input.cursor_column() <= input.width());
    }
}

#[test]
fn masked_field_shows_only_glyphs() {
    let mut input = TextInput::new(10, false, (0, 0));
    input.set_secret(true);
    for c in "hunter2".chars() {
        input.push(c);
    }
    assert_eq!(input.visible(), "*******");
    input.cursor_left();
    input.pop(false);
    assert_eq!(input.visible(), "******");
    input.toggle();
    assert_eq!(input.visible(), "hunte2");
    input.toggle();
    assert_eq!(input.visible(), "******");
    input.clear();
    input.push('x');
    assert_eq!(input.visible(), "x");
}

#[test]
fn toggle_does_nothing_on_plain_field() {
    let mut input = typed(10, "abc");
    input.toggle();
    assert_eq!(input.visible(), "abc");
}

#[test]
fn new_secret_field_is_masked() {
    let mut input = TextInput::new(8, true, (7, 3));
    input.push('a');
    assert_eq!(input.visible(), "*");
    assert_eq!(input.position(), (7, 3));
    assert_eq!(input.width(), 8);
}
