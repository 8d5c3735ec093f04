use greetly::{FormElement, Key, LoginAction, LoginForm};

fn form() -> LoginForm {
    LoginForm::with_host_name((1, 1), (64, 11), "myhost")
}

fn type_text(form: &mut LoginForm, s: &str) {
    for c in s.chars() {
        assert!(form.handle_key(Key::Char(c)).is_none());
    }
}

#[test]
fn host_name_is_centred() {
    let form = form();
    assert_eq!(form.host_label().text(), "myhost");
    assert_eq!(form.host_label().position(), (29, 2));
    assert_eq!(form.prompt_label().text(), "Login:");
    assert_eq!(form.prompt_input().width(), 54);
    assert_eq!(form.prompt_input().position(), (7, 8));
}

#[test]
fn wide_host_name_starts_at_left_edge() {
    let form = LoginForm::with_host_name((0, 0), (20, 8), &"h".repeat(30));
    assert_eq!(form.host_label().position(), (0, 2));
}

#[test]
fn enter_submits_typed_text() {
    let mut form = form();
    type_text(&mut form, "alice");
    match form.handle_key(Key::Char('\n')) {
        Some(LoginAction::Submit(s)) => assert_eq!(s, "alice"),
        _ => panic!("expected a submission"),
    }
}

#[test]
fn control_characters_are_not_typed() {
    let mut form = form();
    type_text(&mut form, "a\tb");
    assert_eq!(form.text(), "ab");
}

#[test]
fn editing_keys_route_to_prompt() {
    let mut form = form();
    type_text(&mut form, "abc");
    form.handle_key(Key::Left);
    form.handle_key(Key::Backspace);
    assert_eq!(form.text(), "ac");
    form.handle_key(Key::Home);
    form.handle_key(Key::Delete);
    assert_eq!(form.text(), "c");
    form.handle_key(Key::End);
    type_text(&mut form, "d");
    form.handle_key(Key::Right);
    assert_eq!(form.text(), "cd");
    form.handle_key(Key::Up);
    form.handle_key(Key::Down);
    assert!(*form.focus() == FormElement::Prompt);
}

#[test]
fn escape_quits_and_f1_cancels() {
    let mut form = form();
    assert!(matches!(form.handle_key(Key::Esc), Some(LoginAction::Quit)));
    assert!(matches!(form.handle_key(Key::F(1)), Some(LoginAction::Cancel)));
    assert!(form.handle_key(Key::F(2)).is_none());
    assert!(form.handle_key(Key::Other).is_none());
}

#[test]
fn secret_prompt_masks_until_toggled_or_reset() {
    let mut form = form();
    form.set_secret_prompt("Password:");
    type_text(&mut form, "pw");
    assert_eq!(form.prompt_label().text(), "Password:");
    assert_eq!(form.prompt_input().visible(), "**");
    form.handle_key(Key::F(3));
    assert_eq!(form.prompt_input().visible(), "pw");
    form.toggle();
    assert_eq!(form.prompt_input().visible(), "**");
    form.reset();
    assert_eq!(form.prompt_label().text(), "Login:");
    assert!(form.is_empty());
    type_text(&mut form, "bob");
    assert_eq!(form.prompt_input().visible(), "bob");
}

#[test]
fn set_prompt_keeps_input() {
    let mut form = form();
    type_text(&mut form, "x");
    form.set_prompt("Code:");
    assert_eq!(form.prompt_label().text(), "Code:");
    assert_eq!(form.text(), "x");
    form.clear();
    assert!(form.is_empty());
}

#[test]
fn form_on_this_machine_starts_empty() {
    let form = LoginForm::new((0, 0), (64, 11));
    assert!(form.is_empty());
    assert_eq!(form.prompt_label().text(), "Login:");
    assert_eq!(form.session_label().text(), "Session:");
    assert_eq!(form.input_label().text(), ">");
    assert_eq!(form.container().size(), (64, 11));
    assert_eq!(form.position(), (0, 0));
}

#[test]
fn f1_resets_the_form() {
    let mut form = form();
    form.set_secret_prompt("Password:");
    type_text(&mut form, "pw");
    assert!(matches!(form.handle_key(Key::F(1)), Some(LoginAction::Cancel)));
    assert!(form.is_empty());
    assert_eq!(form.prompt_label().text(), "Login:");
    type_text(&mut form, "a");
    assert_eq!(form.prompt_input().visible(), "a");
}
