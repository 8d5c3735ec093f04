use greetly::{
    AuthMessageType, ErrorType, GreetUI, Notice, Request, Response, SessionClient, SessionState,
    Step,
};

#[derive(Default)]
struct Screen {
    prompt: Option<String>,
    secret: bool,
    infos: Vec<String>,
    errors: Vec<String>,
    failures: Vec<String>,
}

impl GreetUI for Screen {
    fn set_prompt(&mut self, prompt: &str) {
        self.prompt = Some(prompt.to_string());
        self.secret = false;
    }

    fn set_secret_prompt(&mut self, prompt: &str) {
        self.prompt = Some(prompt.to_string());
        self.secret = true;
    }

    fn show_info_message(&mut self, message: &str) {
        self.infos.push(message.to_string());
    }

    fn show_error_message(&mut self, message: &str) {
        self.errors.push(message.to_string());
    }

    fn show_authentication_failure(&mut self, reason: &str) {
        self.failures.push(reason.to_string());
    }
}

/// Plays one exchange: hands each reply of `replies` to the client, in turn,
/// and returns the requests it sent after the first and the final step.
fn play(
    client: &mut SessionClient,
    screen: &mut Screen,
    replies: Vec<Option<Response>>,
) -> (Vec<Request>, Step) {
    let mut sent = Vec::new();
    let mut last = None;
    for reply in replies {
        let (notice, step) = client.receive(reply);
        if let Some(notice) = notice {
            notice.deliver(screen);
        }
        match step {
            Step::Send(request) => sent.push(request),
            other => {
                last = Some(other);
                break;
            }
        }
    }
    (sent, last.expect("the exchange did not finish"))
}

fn auth(kind: AuthMessageType, text: &str) -> Option<Response> {
    Some(Response::AuthMessage { auth_message_type: kind, auth_message: text.to_string() })
}

#[test]
fn login_then_start_reaches_started() {
    let mut client = SessionClient::new();
    let mut screen = Screen::default();

    let request = client.send_request("alice".to_string());
    assert!(matches!(request, Request::CreateSession { ref username } if username == "alice"));
    let (sent, step) = play(&mut client, &mut screen, vec![auth(AuthMessageType::Visible, "Password:")]);
    assert!(sent.is_empty());
    assert!(matches!(step, Step::Done(Response::AuthMessage { .. })));
    assert!(client.state() == SessionState::Created);
    assert_eq!(screen.prompt.as_deref(), Some("Password:"));

    let request = client.send_request("secret".to_string());
    assert!(matches!(
        request,
        Request::PostAuthMessageResponse { response: Some(ref r) } if r == "secret"
    ));
    let (sent, step) = play(&mut client, &mut screen, vec![Some(Response::Success)]);
    assert!(sent.is_empty());
    assert!(matches!(step, Step::Done(Response::Success)));
    assert!(client.state() == SessionState::Authenticated);
    assert!(screen.infos.is_empty() && screen.errors.is_empty());

    let request = client.start(vec!["/bin/bash".to_string()]);
    assert!(matches!(request, Request::StartSession { ref cmd } if cmd == &vec!["/bin/bash".to_string()]));
    let (_, step) = play(&mut client, &mut screen, vec![Some(Response::Success)]);
    assert!(matches!(step, Step::Done(Response::Success)));
    assert!(client.is_started());
}

#[test]
fn auth_error_returns_to_connected() {
    let mut client = SessionClient::new();
    let mut screen = Screen::default();

    client.send_request("bob".to_string());
    let (sent, step) = play(
        &mut client,
        &mut screen,
        vec![
            Some(Response::Error {
                error_type: ErrorType::AuthError,
                description: "invalid credentials".to_string(),
            }),
            Some(Response::Success),
        ],
    );
    assert_eq!(sent.len(), 1);
    assert!(matches!(sent[0], Request::CancelSession));
    assert!(matches!(
        step,
        Step::Done(Response::Error { error_type: ErrorType::AuthError, ref description })
            if description == "invalid credentials"
    ));
    assert!(client.state() == SessionState::Connected);
    assert_eq!(screen.failures, vec!["invalid credentials".to_string()]);

    // the operator can submit again
    let request = client.send_request("bob".to_string());
    assert!(matches!(request, Request::CreateSession { .. }));
}

#[test]
fn info_message_is_acknowledged_without_input() {
    let mut client = SessionClient::new();
    let mut screen = Screen::default();

    client.send_request("carol".to_string());
    let (sent, step) = play(
        &mut client,
        &mut screen,
        vec![
            auth(AuthMessageType::Info, "Welcome"),
            auth(AuthMessageType::Visible, "Password:"),
        ],
    );
    assert_eq!(sent.len(), 1);
    assert!(matches!(sent[0], Request::PostAuthMessageResponse { response: None }));
    assert!(matches!(
        step,
        Step::Done(Response::AuthMessage { auth_message_type: AuthMessageType::Visible, .. })
    ));
    assert_eq!(screen.infos, vec!["Welcome".to_string()]);
    assert_eq!(screen.prompt.as_deref(), Some("Password:"));
    assert!(client.state() == SessionState::Created);
}

#[test]
fn error_message_is_acknowledged_and_secret_prompt_follows() {
    let mut client = SessionClient::new();
    let mut screen = Screen::default();

    client.send_request("dave".to_string());
    let (sent, _) = play(
        &mut client,
        &mut screen,
        vec![
            auth(AuthMessageType::Error, "bad"),
            auth(AuthMessageType::Info, "again"),
            auth(AuthMessageType::Secret, "Password:"),
        ],
    );
    assert_eq!(sent.len(), 2);
    assert_eq!(screen.errors, vec!["bad".to_string()]);
    assert_eq!(screen.infos, vec!["again".to_string()]);
    assert!(screen.secret);
}

#[test]
fn generic_error_is_rejected_after_cancel() {
    let mut client = SessionClient::new();
    let mut screen = Screen::default();

    client.send_request("erin".to_string());
    let (sent, step) = play(
        &mut client,
        &mut screen,
        vec![
            Some(Response::Error { error_type: ErrorType::Error, description: "boom".to_string() }),
            Some(Response::Success),
        ],
    );
    assert!(matches!(sent[0], Request::CancelSession));
    assert!(matches!(step, Step::Rejected(ref d) if d == "boom"));
    assert!(client.state() == SessionState::Connected);
    assert!(screen.failures.is_empty());
}

#[test]
fn transport_failure_breaks_the_channel() {
    let mut client = SessionClient::new();
    let mut screen = Screen::default();

    client.send_request("frank".to_string());
    let (_, step) = play(&mut client, &mut screen, vec![None]);
    assert!(matches!(step, Step::Broken));
    assert!(client.is_failed());

    client.reconnected();
    assert!(client.state() == SessionState::Connected);
    assert!(client.is_idle());
}

#[test]
fn failed_cleanup_breaks_the_channel() {
    let mut client = SessionClient::new();
    let mut screen = Screen::default();

    client.send_request("gina".to_string());
    let (_, step) = play(
        &mut client,
        &mut screen,
        vec![
            Some(Response::Error { error_type: ErrorType::AuthError, description: "no".to_string() }),
            None,
        ],
    );
    assert!(matches!(step, Step::Broken));
    assert!(client.is_failed());
    assert!(screen.failures.is_empty());
}

#[test]
fn cancel_returns_to_connected() {
    let mut client = SessionClient::new();
    let mut screen = Screen::default();

    client.send_request("hank".to_string());
    play(&mut client, &mut screen, vec![auth(AuthMessageType::Secret, "Password:")]);
    let request = client.cancel();
    assert!(matches!(request, Request::CancelSession));
    let (_, step) = play(&mut client, &mut screen, vec![Some(Response::Success)]);
    assert!(matches!(step, Step::Cancelled));
    assert!(client.state() == SessionState::Connected);
}

#[test]
fn notices_reach_the_display() {
    let mut screen = Screen::default();
    Notice::SetSecretPrompt("Token:".to_string()).deliver(&mut screen);
    assert!(screen.secret);
    Notice::AuthenticationFailure("locked".to_string()).deliver(&mut screen);
    assert_eq!(screen.failures, vec!["locked".to_string()]);
}

use greetly::{next_step, LoginAction, LoopEvent, LoopStep};

/// Answers every request of an exchange from `replies` and returns the
/// exchange's last answer.
fn answer(client: &mut SessionClient, screen: &mut Screen, replies: Vec<Option<Response>>) -> Response {
    match play(client, screen, replies) {
        (_, Step::Done(r)) => r,
        _ => panic!("the exchange did not end in an answer"),
    }
}

#[test]
fn loop_starts_the_session_after_authentication() {
    let mut client = SessionClient::new();
    let mut screen = Screen::default();

    assert!(matches!(next_step(&mut client, LoopEvent::Ready), LoopStep::AwaitInput));
    let step = next_step(&mut client, LoopEvent::Action(LoginAction::Submit("alice".to_string())));
    assert!(matches!(step, LoopStep::Send(Request::CreateSession { .. })));
    let a = answer(&mut client, &mut screen, vec![auth(AuthMessageType::Visible, "Password:")]);
    assert!(matches!(next_step(&mut client, LoopEvent::Answered(a)), LoopStep::AwaitInput));

    let step = next_step(&mut client, LoopEvent::Action(LoginAction::Submit("secret".to_string())));
    assert!(matches!(step, LoopStep::Send(Request::PostAuthMessageResponse { response: Some(_) })));
    let a = answer(&mut client, &mut screen, vec![Some(Response::Success)]);
    match next_step(&mut client, LoopEvent::Answered(a)) {
        LoopStep::Send(Request::StartSession { cmd }) => assert_eq!(cmd, vec!["/bin/bash".to_string()]),
        _ => panic!("expected the session to be started"),
    }
    let a = answer(&mut client, &mut screen, vec![Some(Response::Success)]);
    assert!(matches!(next_step(&mut client, LoopEvent::Answered(a)), LoopStep::Finish(true)));
}

#[test]
fn loop_reconnects_a_failed_channel_first() {
    let mut client = SessionClient::new();
    let mut screen = Screen::default();
    client.send_request("x".to_string());
    play(&mut client, &mut screen, vec![None]);
    assert!(matches!(next_step(&mut client, LoopEvent::Ready), LoopStep::Reconnect));
    assert!(client.begin_reset().is_none());
    client.reconnected();
    assert!(matches!(next_step(&mut client, LoopEvent::Ready), LoopStep::AwaitInput));
}

#[test]
fn loop_cancels_and_quits() {
    let mut client = SessionClient::new();
    let mut screen = Screen::default();
    match next_step(&mut client, LoopEvent::Action(LoginAction::Cancel)) {
        LoopStep::Send(Request::CancelSession) => {}
        _ => panic!("expected a cancellation"),
    }
    let (_, step) = play(&mut client, &mut screen, vec![Some(Response::Success)]);
    assert!(matches!(step, Step::Cancelled));
    match next_step(&mut client, LoopEvent::Action(LoginAction::Quit)) {
        LoopStep::Leave(Request::CancelSession) => {}
        _ => panic!("expected to leave"),
    }
}

#[test]
fn reset_cancels_a_live_session() {
    let mut client = SessionClient::new();
    assert!(matches!(client.begin_reset(), Some(Request::CancelSession)));
    assert!(!client.is_idle());
}
