use greetly::message::{split_line, wrap_line, MAX_WIDTH};
use greetly::label::truncate_text;
use greetly::{BorderCharacters, BorderType, Container, Label, Message};

fn chars(s: &str) -> Vec<char> {
    s.chars().collect()
}

fn text(v: &[char]) -> String {
    v.iter().collect()
}

#[test]
fn short_line_is_not_split() {
    let (head, rest) = split_line(&chars("hello world"));
    assert_eq!(text(&head), "hello world");
    assert!(rest.is_none());
}

#[test]
fn long_line_splits_at_last_space_in_reach() {
    let line = format!("{} {} tail", "a".repeat(50), "b".repeat(25));
    let (head, rest) = split_line(&chars(&line));
    assert_eq!(text(&head), format!("{} {}", "a".repeat(50), "b".repeat(25)));
    assert_eq!(text(&rest.unwrap()), "tail");
}

#[test]
fn split_trims_whitespace_runs() {
    let line = format!("{}   {}", "a".repeat(70), "b".repeat(20));
    let (head, rest) = split_line(&chars(&line));
    assert_eq!(text(&head), "a".repeat(70));
    assert_eq!(text(&rest.unwrap()), "b".repeat(20));
}

#[test]
fn line_without_space_stays_whole() {
    let line = "x".repeat(120);
    let rows = wrap_line(&chars(&line));
    assert_eq!(rows.len(), 1);
    assert_eq!(text(&rows[0]), line);
}

#[test]
fn wrapped_rows_rejoin_and_fit() {
    let words: Vec<String> = (0..60).map(|i| format!("word{}", i)).collect();
    let line = words.join(" ");
    let rows = wrap_line(&chars(&line));
    assert!(rows.len() > 1);
    for row in &rows {
        assert!(row.len() <= MAX_WIDTH as usize);
    }
    let joined: Vec<String> = rows.iter().map(|r| text(r)).collect();
    assert_eq!(joined.join(" "), line);
}

#[test]
fn truncate_keeps_short_text() {
    assert_eq!(truncate_text("abc", Some(3)), "abc");
    assert_eq!(truncate_text("abc", None), "abc");
    assert_eq!(truncate_text("abcdef", Some(0)), "abcdef");
}

#[test]
fn truncate_ends_in_ellipsis() {
    assert_eq!(truncate_text("abcdef", Some(4)), "abc…");
    assert_eq!(truncate_text("abcdef", Some(1)), "…");
}

#[test]
fn label_cuts_to_its_width() {
    let mut label = Label::new_truncated("a long title", (2, 1), 6);
    assert_eq!(label.text(), "a lon…");
    label.set_text("short");
    assert_eq!(label.text(), "short");
    let plain = Label::new("anything at all", (0, 0));
    assert_eq!(plain.text(), "anything at all");
    assert_eq!(plain.position(), (0, 0));
}

#[test]
fn message_of_short_lines() {
    let msg = Message::new("Info:", "first\r\nsecond\n", (0, 0));
    let lines: Vec<&str> = msg.lines().iter().map(|l| l.text()).collect();
    assert_eq!(lines, vec!["first", "second"]);
    assert_eq!(msg.lines()[1].position(), (2, 3));
    // width 40 (the minimum) + 4; height 2 lines + 1 + 2
    assert_eq!(msg.container().size(), (44, 5));
    assert_eq!(msg.height(), 5);
    assert_eq!(msg.title().text(), "Info:");
}

#[test]
fn message_width_follows_wrapped_lines() {
    let body = format!("{} {}", "a".repeat(60), "b".repeat(30));
    let msg = Message::new("T", &body, (1, 2));
    assert_eq!(msg.lines().len(), 2);
    // the longest wrapped line has 60 characters
    assert_eq!(msg.container().size(), (64, 5));
    assert_eq!(msg.position(), (1, 2));
}

#[test]
fn message_title_is_cut_at_max_width() {
    let title = "t".repeat(100);
    let msg = Message::new(&title, "x", (0, 0));
    assert_eq!(msg.title().text().chars().count(), 80);
    assert!(msg.title().text().ends_with('…'));
    assert_eq!(msg.container().size(), (84, 4));
}

#[test]
fn empty_message_has_no_lines() {
    let msg = Message::new("Error:", "", (0, 0));
    assert_eq!(msg.lines().len(), 0);
    assert_eq!(msg.height(), 3);
}

#[test]
fn unicode_frame_edges() {
    let frame = Container::new(BorderType::Unicode, (0, 0), (5, 3));
    assert_eq!(frame.edge(false), "┌───┐");
    assert_eq!(frame.edge(true), "└───┘");
    assert_eq!(frame.characters().east, '│');
}

#[test]
fn border_characters_default_to_blanks() {
    let blank = BorderCharacters::default();
    assert_eq!(blank.northwest, ' ');
    let custom = BorderCharacters::new('+', '-', '+', '|', '+', '-', '+', '|');
    assert_eq!(custom.north, '-');
    assert_eq!(custom.west, '|');
}

#[test]
fn leading_space_counts_as_cut_point() {
    let line = format!(" {}", "x".repeat(90));
    let (head, rest) = split_line(&chars(&line));
    assert_eq!(text(&head), "");
    assert_eq!(text(&rest.unwrap()), "x".repeat(90));
    let rows = wrap_line(&chars(&line));
    assert_eq!(rows.len(), 2);
    assert_eq!(text(&rows[1]), "x".repeat(90));
}

#[test]
fn space_at_width_limit_is_a_cut_point() {
    let line = format!("{} {}", "a".repeat(80), "b".repeat(10));
    let (head, rest) = split_line(&chars(&line));
    assert_eq!(text(&head), "a".repeat(80));
    assert_eq!(text(&rest.unwrap()), "b".repeat(10));
}
