//! A text-mode login front-end for a session broker: the negotiation state
//! machine, and the text-input form that it drives.

use vstd::prelude::*;

pub mod container;
pub mod form;
pub mod input;
pub mod label;
pub mod message;
pub mod session;
pub mod text;

pub use container::{BorderCharacters, BorderType, Container};
pub use form::{FormElement, Key, LoginForm};
pub use input::TextInput;
pub use label::Label;
pub use message::Message;
pub use session::{
    next_step, AuthMessageType, ErrorType, LoopEvent, LoopStep, Notice, Pending, Request,
    Response, SessionClient, SessionState, Step,
};

verus! {

/// An I/O error, carried through unchanged.
#[verifier::external_type_specification]
#[verifier::external_body]
pub struct ExIoError(std::io::Error);

/// What the operator asked for at the login form.
pub enum LoginAction {
    Quit,
    Cancel,
    Submit(String),
}

/// Why the terminal front-end could not run.
pub enum LoginError {
    NotATTY,
    IoError(std::io::Error),
}

/// The display that the negotiation reports to.
pub trait GreetUI {
    fn set_prompt(&mut self, prompt: &str);

    fn set_secret_prompt(&mut self, prompt: &str);

    fn show_info_message(&mut self, message: &str);

    fn show_error_message(&mut self, message: &str);

    fn show_authentication_failure(&mut self, reason: &str);
}

} // verus!
