//! The client side of the session negotiation with the broker.
//!
//! `SessionClient` decides; its owner talks to the broker. Each request that
//! the client hands out is to be sent, and the broker's reply (or the failure
//! to get one) handed back to `receive`, which says what to show and what
//! comes next.

use vstd::prelude::*;

use crate::{GreetUI, LoginAction};

verus! {

/// Where the negotiation stands.
#[derive(PartialEq, Eq, Structural, Clone, Copy)]
pub enum SessionState {
    /// Connected, no session.
    Connected,
    /// A session exists; authentication is going on.
    Created,
    /// Authentication is done; the session has not started.
    Authenticated,
    /// The session's command was started.
    Started,
    /// The channel is unusable and must be opened anew.
    Failed,
}

/// What an authentication message asks of the operator.
#[derive(PartialEq, Eq, Structural, Clone, Copy)]
pub enum AuthMessageType {
    Visible,
    Secret,
    Info,
    Error,
}

/// The kind of a refusal by the broker.
#[derive(PartialEq, Eq, Structural, Clone, Copy)]
pub enum ErrorType {
    AuthError,
    Error,
}

/// A message to the broker.
pub enum Request {
    CreateSession { username: String },
    PostAuthMessageResponse { response: Option<String> },
    StartSession { cmd: Vec<String> },
    CancelSession,
}

/// A message from the broker.
pub enum Response {
    Success,
    AuthMessage { auth_message_type: AuthMessageType, auth_message: String },
    Error { error_type: ErrorType, description: String },
}

/// What the display is to show.
pub enum Notice {
    SetPrompt(String),
    SetSecretPrompt(String),
    ShowInfo(String),
    ShowError(String),
    AuthenticationFailure(String),
}

/// What comes after a reply.
pub enum Step {
    /// Send this request and hand its reply to `receive`.
    Send(Request),
    /// The exchange is over; this is the broker's last answer.
    Done(Response),
    /// The cancellation went through.
    Cancelled,
    /// The broker refused with this description; the session was cancelled.
    Rejected(String),
    /// No reply could be had; the channel is unusable.
    Broken,
}

/// The reply the client waits for.
pub enum Pending {
    /// Nothing was sent.
    Idle,
    /// The answer to a request of the exchange.
    Exchange,
    /// The answer to the cancellation that follows a refusal.
    Cleanup(ErrorType, String),
    /// The answer to a cancellation asked for by the owner.
    Cancel,
}

/// The moves the negotiation can make from one state to the next: nothing
/// leaves `Started`; `Failed` is left only for a fresh connection; a session
/// starts only once authenticated.
pub open spec fn allowed(from: SessionState, to: SessionState) -> bool {
    from == to || match to {
        SessionState::Connected => from != SessionState::Started,
        SessionState::Created => from == SessionState::Connected || from == SessionState::Created
            || from == SessionState::Authenticated,
        SessionState::Authenticated => from == SessionState::Connected || from
            == SessionState::Created,
        SessionState::Started => from == SessionState::Authenticated,
        SessionState::Failed => from == SessionState::Connected || from == SessionState::Created
            || from == SessionState::Authenticated,
    }
}

/// The state after a successful answer in state `s`: the first success
/// authenticates, the one after that starts the session.
pub open spec fn after_success(s: SessionState) -> SessionState {
    if s == SessionState::Authenticated {
        SessionState::Started
    } else {
        SessionState::Authenticated
    }
}

/// What `receive` does: `b` and the result `r` follow from `a` and the
/// broker's `reply` (`None`: no reply could be had).
pub open spec fn answered(
    a: SessionClient,
    reply: Option<Response>,
    b: SessionClient,
    r: (Option<Notice>, Step),
) -> bool {
    &&& (allowed(a.phase(), b.phase()))
    &&& (reply is None ==> {
            &&& b.phase() == SessionState::Failed
            &&& b.awaiting() is Idle
            &&& r == (None::<Notice>, Step::Broken)
        })
    &&& (a.awaiting() is Cancel && reply is Some ==> {
            &&& b.phase() == SessionState::Connected
            &&& b.awaiting() is Idle
            &&& r == (None::<Notice>, Step::Cancelled)
        })
    &&& (reply is Some ==> match a.awaiting() {
            Pending::Cleanup(kind, description) => {
                &&& b.phase() == SessionState::Connected
                &&& b.awaiting() is Idle
                &&& kind == ErrorType::AuthError ==> r == (
                    Some(Notice::AuthenticationFailure(description)),
                    Step::Done(Response::Error { error_type: kind, description: description }),
                )
                &&& kind == ErrorType::Error ==> r == (
                    None::<Notice>,
                    Step::Rejected(description),
                )
            },
            _ => true,
        })
    &&& (a.awaiting() is Exchange ==> match reply {
            None => true,
            Some(Response::Success) => {
                &&& b.phase() == after_success(a.phase())
                &&& b.awaiting() is Idle
                &&& r == (None::<Notice>, Step::Done(Response::Success))
            },
            Some(Response::Error { error_type, description }) => {
                &&& b.phase() == a.phase()
                &&& b.awaiting() == Pending::Cleanup(error_type, description)
                &&& r == (None::<Notice>, Step::Send(Request::CancelSession))
            },
            Some(Response::AuthMessage { auth_message_type, auth_message }) => {
                &&& b.phase() == SessionState::Created
                &&& match auth_message_type {
                    AuthMessageType::Visible => {
                        &&& b.awaiting() is Idle
                        &&& r == (
                            Some(Notice::SetPrompt(auth_message)),
                            Step::Done(
                                Response::AuthMessage {
                                    auth_message_type: auth_message_type,
                                    auth_message: auth_message,
                                },
                            ),
                        )
                    },
                    AuthMessageType::Secret => {
                        &&& b.awaiting() is Idle
                        &&& r == (
                            Some(Notice::SetSecretPrompt(auth_message)),
                            Step::Done(
                                Response::AuthMessage {
                                    auth_message_type: auth_message_type,
                                    auth_message: auth_message,
                                },
                            ),
                        )
                    },
                    AuthMessageType::Info => {
                        &&& b.awaiting() is Exchange
                        &&& r == (
                            Some(Notice::ShowInfo(auth_message)),
                            Step::Send(Request::PostAuthMessageResponse { response: None }),
                        )
                    },
                    AuthMessageType::Error => {
                        &&& b.awaiting() is Exchange
                        &&& r == (
                            Some(Notice::ShowError(auth_message)),
                            Step::Send(Request::PostAuthMessageResponse { response: None }),
                        )
                    },
                }
            },
        })
}

pub struct SessionClient {
    state: SessionState,
    pending: Pending,
}

impl SessionClient {
    /// Where the negotiation stands.
    pub closed spec fn phase(&self) -> SessionState {
        self.state
    }

    /// The reply the client waits for.
    pub closed spec fn awaiting(&self) -> Pending {
        self.pending
    }

    /// A client on a fresh connection.
    pub fn new() -> (r: Self)
        ensures
            r.phase() == SessionState::Connected,
            r.awaiting() is Idle,
    {
        SessionClient { state: SessionState::Connected, pending: Pending::Idle }
    }

    /// Where the negotiation stands.
    pub fn state(&self) -> (r: SessionState)
        ensures
            r == self.phase(),
    {
        self.state
    }

    pub fn is_started(&self) -> (r: bool)
        ensures
            r == (self.phase() == SessionState::Started),
    {
        self.state == SessionState::Started
    }

    pub fn is_failed(&self) -> (r: bool)
        ensures
            r == (self.phase() == SessionState::Failed),
    {
        self.state == SessionState::Failed
    }

    /// Whether nothing was sent that waits for a reply.
    pub fn is_idle(&self) -> (r: bool)
        ensures
            r == (self.awaiting() is Idle),
    {
        match self.pending {
            Pending::Idle => true,
            _ => false,
        }
    }

    /// The request that carries `data`: a user name to open a session with,
    /// or the answer to the current authentication message.
    pub fn send_request(&mut self, data: String) -> (r: Request)
        requires
            old(self).phase() == SessionState::Connected || old(self).phase()
                == SessionState::Created,
            old(self).awaiting() is Idle,
        ensures
            final(self).phase() == old(self).phase(),
            final(self).awaiting() is Exchange,
            old(self).phase() == SessionState::Connected ==> r == (Request::CreateSession {
                username: data,
            }),
            old(self).phase() == SessionState::Created ==> r == (Request::PostAuthMessageResponse {
                response: Some(data),
            }),
    {
        self.pending = Pending::Exchange;
        match self.state {
            SessionState::Connected => Request::CreateSession { username: data },
            _ => Request::PostAuthMessageResponse { response: Some(data) },
        }
    }

    /// The request that starts the authenticated session with `command`.
    pub fn start(&mut self, command: Vec<String>) -> (r: Request)
        requires
            old(self).phase() == SessionState::Authenticated,
            old(self).awaiting() is Idle,
        ensures
            final(self).phase() == old(self).phase(),
            final(self).awaiting() is Exchange,
            r == (Request::StartSession { cmd: command }),
    {
        self.pending = Pending::Exchange;
        Request::StartSession { cmd: command }
    }

    /// The request that cancels the session.
    pub fn cancel(&mut self) -> (r: Request)
        requires
            old(self).phase() != SessionState::Started,
            old(self).phase() != SessionState::Failed,
            old(self).awaiting() is Idle,
        ensures
            final(self).phase() == old(self).phase(),
            final(self).awaiting() is Cancel,
            r is CancelSession,
    {
        self.pending = Pending::Cancel;
        Request::CancelSession
    }

    /// The first move of a reset: the cancellation to send, or none where the
    /// channel has failed and a fresh connection is all that is needed.
    pub fn begin_reset(&mut self) -> (r: Option<Request>)
        requires
            old(self).phase() != SessionState::Started,
            old(self).awaiting() is Idle,
        ensures
            old(self).phase() == SessionState::Failed ==> r is None && *final(self) == *old(self),
            old(self).phase() != SessionState::Failed ==> {
                &&& r == Some(Request::CancelSession)
                &&& final(self).phase() == old(self).phase()
                &&& final(self).awaiting() is Cancel
            },
    {
        if self.state == SessionState::Failed {
            None
        } else {
            Some(self.cancel())
        }
    }

    /// The owner opened a fresh connection.
    pub fn reconnected(&mut self)
        requires
            old(self).phase() != SessionState::Started,
        ensures
            final(self).phase() == SessionState::Connected,
            final(self).awaiting() is Idle,
            allowed(old(self).phase(), final(self).phase()),
    {
        self.state = SessionState::Connected;
        self.pending = Pending::Idle;
    }

    /// Takes the broker's reply (`None`: none could be had) to the request
    /// sent last, and says what to show and what comes next.
    pub fn receive(&mut self, reply: Option<Response>) -> (r: (Option<Notice>, Step))
        requires
            !(old(self).awaiting() is Idle),
            old(self).phase() != SessionState::Started,
            old(self).phase() != SessionState::Failed,
        ensures
            answered(*old(self), reply, *final(self), r),
    {
        let reply = match reply {
            None => {
                self.state = SessionState::Failed;
                self.pending = Pending::Idle;
                return (None, Step::Broken);
            },
            Some(reply) => reply,
        };
        let mut pending = Pending::Idle;
        core::mem::swap(&mut pending, &mut self.pending);
        match pending {
            Pending::Idle => (None, Step::Broken),
            Pending::Cancel => {
                self.state = SessionState::Connected;
                (None, Step::Cancelled)
            },
            Pending::Cleanup(kind, description) => {
                self.state = SessionState::Connected;
                match kind {
                    ErrorType::AuthError => (
                        Some(Notice::AuthenticationFailure(description.clone())),
                        Step::Done(Response::Error { error_type: kind, description }),
                    ),
                    ErrorType::Error => (None, Step::Rejected(description)),
                }
            },
            Pending::Exchange => match reply {
                Response::Success => {
                    self.state = if self.state == SessionState::Authenticated {
                        SessionState::Started
                    } else {
                        SessionState::Authenticated
                    };
                    (None, Step::Done(Response::Success))
                },
                Response::Error { error_type, description } => {
                    self.pending = Pending::Cleanup(error_type, description);
                    (None, Step::Send(Request::CancelSession))
                },
                Response::AuthMessage { auth_message_type, auth_message } => {
                    self.state = SessionState::Created;
                    match auth_message_type {
                        AuthMessageType::Visible => (
                            Some(Notice::SetPrompt(auth_message.clone())),
                            Step::Done(Response::AuthMessage { auth_message_type, auth_message }),
                        ),
                        AuthMessageType::Secret => (
                            Some(Notice::SetSecretPrompt(auth_message.clone())),
                            Step::Done(Response::AuthMessage { auth_message_type, auth_message }),
                        ),
                        AuthMessageType::Info => {
                            self.pending = Pending::Exchange;
                            (
                                Some(Notice::ShowInfo(auth_message)),
                                Step::Send(Request::PostAuthMessageResponse { response: None }),
                            )
                        },
                        AuthMessageType::Error => {
                            self.pending = Pending::Exchange;
                            (
                                Some(Notice::ShowError(auth_message)),
                                Step::Send(Request::PostAuthMessageResponse { response: None }),
                            )
                        },
                    }
                },
            },
        }
    }
}

/// One whole exchange, acknowledgments and cleanup included: `clients[i + 1]`
/// is `clients[i]` after `receive(replies[i])` gave `steps[i]`; every step but
/// the last asks for another request, and the last does not.
pub open spec fn is_exchange(
    clients: Seq<SessionClient>,
    replies: Seq<Option<Response>>,
    steps: Seq<(Option<Notice>, Step)>,
) -> bool {
    &&& replies.len() >= 1
    &&& clients.len() == replies.len() + 1
    &&& steps.len() == replies.len()
    &&& clients[0].awaiting() is Exchange
    &&& clients[0].phase() != SessionState::Started
    &&& clients[0].phase() != SessionState::Failed
    &&& forall|i: int|
        0 <= i < replies.len() ==> answered(
            #[trigger] clients[i],
            replies[i],
            clients[i + 1],
            steps[i],
        )
    &&& forall|i: int| 0 <= i < replies.len() - 1 ==> (#[trigger] steps[i]).1 is Send
    &&& !(steps.last().1 is Send)
}

proof fn exchange_middle(
    clients: Seq<SessionClient>,
    replies: Seq<Option<Response>>,
    steps: Seq<(Option<Notice>, Step)>,
    i: int,
)
    requires
        is_exchange(clients, replies, steps),
        0 <= i < replies.len(),
    ensures
        clients[i].phase() != SessionState::Started,
        clients[i].phase() != SessionState::Failed,
        clients[i].awaiting() is Exchange || clients[i].awaiting() is Cleanup,
        i > 0 && clients[i].awaiting() is Exchange ==> clients[i].phase() == SessionState::Created,
    decreases i,
{
    if i > 0 {
        exchange_middle(clients, replies, steps, i - 1);
        assert(answered(clients[i - 1], replies[i - 1], clients[i], steps[i - 1]));
        assert(steps[i - 1].1 is Send);
    }
}

/// Over a whole exchange the session starts exactly when it was authenticated
/// and the first answer is a success; the channel fails exactly when the last
/// reply could not be had; and the client ends with nothing outstanding.
pub proof fn lemma_exchange_outcome(
    clients: Seq<SessionClient>,
    replies: Seq<Option<Response>>,
    steps: Seq<(Option<Notice>, Step)>,
)
    requires
        is_exchange(clients, replies, steps),
    ensures
        clients.last().phase() == SessionState::Started <==> (clients[0].phase()
            == SessionState::Authenticated && replies[0] == Some(Response::Success)),
        clients.last().phase() == SessionState::Failed <==> replies.last() is None,
        clients.last().awaiting() is Idle,
        is_run(clients.map_values(|c: SessionClient| c.phase())),
{
    let n = replies.len() - 1;
    exchange_middle(clients, replies, steps, n);
    assert(answered(clients[n], replies[n], clients[n + 1], steps[n]));
    assert(clients.last() == clients[n + 1]);
    if replies.len() > 1 {
        assert(answered(clients[0], replies[0], clients[1], steps[0]));
        assert(steps[0].1 is Send);
        assert(replies[0] != Some(Response::Success));
    }
    let phases = clients.map_values(|c: SessionClient| c.phase());
    assert forall|i: int| 0 <= i < phases.len() - 1 implies allowed(
        #[trigger] phases[i],
        phases[i + 1],
    ) by {
        assert(answered(clients[i], replies[i], clients[i + 1], steps[i]));
    }
}

/// The command a successfully authenticated session runs.
pub const SESSION_COMMAND: &'static str = "/bin/bash";

/// What the front-end's loop hands to `next_step`.
pub enum LoopEvent {
    /// Nothing happened yet; the loop is about to wait for the operator.
    Ready,
    /// The operator asked for this.
    Action(LoginAction),
    /// An exchange ended with this answer.
    Answered(Response),
}

/// What the front-end's loop does next.
pub enum LoopStep {
    /// Open a fresh connection, then hand `Ready` back.
    Reconnect,
    /// Wait for the operator's next action.
    AwaitInput,
    /// Run the exchange that this request opens, and hand its answer back
    /// (`Ready` after a cancellation).
    Send(Request),
    /// Send this cancellation, then finish without a started session.
    Leave(Request),
    /// Finish; whether the session was started.
    Finish(bool),
}

/// The decisions of the front-end's loop: reconnect a failed channel before
/// anything else, finish once started, turn the operator's actions into
/// requests, and start the session right after authentication succeeds.
pub fn next_step(client: &mut SessionClient, event: LoopEvent) -> (r: LoopStep)
    requires
        old(client).awaiting() is Idle,
        (event matches LoopEvent::Action(LoginAction::Submit(_))) ==> old(client).phase()
            != SessionState::Authenticated,
    ensures
        old(client).phase() == SessionState::Failed ==> r is Reconnect && *final(client) == *old(
            client,
        ),
        old(client).phase() == SessionState::Started ==> r == LoopStep::Finish(true)
            && *final(client) == *old(client),
        old(client).phase() != SessionState::Failed && old(client).phase()
            != SessionState::Started ==> match event {
            LoopEvent::Ready => r is AwaitInput && *final(client) == *old(client),
            LoopEvent::Action(LoginAction::Submit(s)) => {
                &&& r == LoopStep::Send(
                    if old(client).phase() == SessionState::Connected {
                        Request::CreateSession { username: s }
                    } else {
                        Request::PostAuthMessageResponse { response: Some(s) }
                    },
                )
                &&& final(client).phase() == old(client).phase()
                &&& final(client).awaiting() is Exchange
            },
            LoopEvent::Action(LoginAction::Cancel) => {
                &&& r == LoopStep::Send(Request::CancelSession)
                &&& final(client).phase() == old(client).phase()
                &&& final(client).awaiting() is Cancel
            },
            LoopEvent::Action(LoginAction::Quit) => {
                &&& r == LoopStep::Leave(Request::CancelSession)
                &&& final(client).phase() == old(client).phase()
                &&& final(client).awaiting() is Cancel
            },
            LoopEvent::Answered(answer) => if answer is Success && old(client).phase()
                == SessionState::Authenticated {
                &&& r matches LoopStep::Send(Request::StartSession { cmd }) && cmd@.len() == 1
                    && cmd@[0]@ == SESSION_COMMAND@
                &&& final(client).phase() == old(client).phase()
                &&& final(client).awaiting() is Exchange
            } else {
                r is AwaitInput && *final(client) == *old(client)
            },
        },
{
    match client.state {
        SessionState::Failed => return LoopStep::Reconnect,
        SessionState::Started => return LoopStep::Finish(true),
        _ => {},
    }
    match event {
        LoopEvent::Ready => LoopStep::AwaitInput,
        LoopEvent::Action(LoginAction::Submit(data)) => LoopStep::Send(client.send_request(data)),
        LoopEvent::Action(LoginAction::Cancel) => LoopStep::Send(client.cancel()),
        LoopEvent::Action(LoginAction::Quit) => LoopStep::Leave(client.cancel()),
        LoopEvent::Answered(answer) => {
            let success = match answer {
                Response::Success => true,
                _ => false,
            };
            if success && client.state == SessionState::Authenticated {
                let command = vec![SESSION_COMMAND.to_owned()];
                LoopStep::Send(client.start(command))
            } else {
                LoopStep::AwaitInput
            }
        },
    }
}

impl Notice {
    /// Shows the notice on `ui`.
    pub fn deliver<U: GreetUI>(&self, ui: &mut U) {
        match self {
            Notice::SetPrompt(text) => ui.set_prompt(text.as_str()),
            Notice::SetSecretPrompt(text) => ui.set_secret_prompt(text.as_str()),
            Notice::ShowInfo(text) => ui.show_info_message(text.as_str()),
            Notice::ShowError(text) => ui.show_error_message(text.as_str()),
            Notice::AuthenticationFailure(text) => ui.show_authentication_failure(text.as_str()),
        }
    }
}

/// Each state of `states` is followed by one that `allowed` admits.
pub open spec fn is_run(states: Seq<SessionState>) -> bool {
    forall|i: int| 0 <= i < states.len() - 1 ==> allowed(#[trigger] states[i], states[i + 1])
}

/// Once started, a negotiation stays started.
pub proof fn lemma_started_is_final(states: Seq<SessionState>)
    requires
        is_run(states),
        states.len() > 0,
        states[0] == SessionState::Started,
    ensures
        forall|i: int| 0 <= i < states.len() ==> #[trigger] states[i] == SessionState::Started,
{
    assert forall|i: int| 0 <= i < states.len() implies #[trigger] states[i]
        == SessionState::Started by {
        started_prefix(states, i);
    }
}

proof fn started_prefix(states: Seq<SessionState>, k: int)
    requires
        is_run(states),
        0 <= k < states.len(),
        states[0] == SessionState::Started,
    ensures
        states[k] == SessionState::Started,
    decreases k,
{
    if k > 0 {
        started_prefix(states, k - 1);
        assert(allowed(states[k - 1], states[k]));
    }
}

/// A negotiation that ends started but did not begin so went from
/// `Authenticated` straight to `Started` at some step.
pub proof fn lemma_start_needs_authentication(states: Seq<SessionState>)
    requires
        is_run(states),
        states.len() > 0,
        states[0] != SessionState::Started,
        states.last() == SessionState::Started,
    ensures
        exists|i: int|
            0 <= i < states.len() - 1 && #[trigger] states[i] == SessionState::Authenticated
                && states[i + 1] == SessionState::Started,
    decreases states.len(),
{
    let n = states.len() - 1;
    if states[n - 1] == SessionState::Started {
        let prefix = states.drop_last();
        assert(is_run(prefix)) by {
            assert forall|i: int| 0 <= i < prefix.len() - 1 implies allowed(
                #[trigger] prefix[i],
                prefix[i + 1],
            ) by {
                assert(prefix[i] == states[i] && prefix[i + 1] == states[i + 1]);
            }
        }
        lemma_start_needs_authentication(prefix);
        let i = choose|i: int|
            0 <= i < prefix.len() - 1 && #[trigger] prefix[i] == SessionState::Authenticated
                && prefix[i + 1] == SessionState::Started;
        assert(states[i] == prefix[i]);
    } else {
        assert(allowed(states[n - 1], states[n]));
        assert(states[n - 1] == SessionState::Authenticated);
    }
}

} // verus!
