//! The login form: static labels around one input field, and the routing of
//! keystrokes to the field that has focus.

use vstd::prelude::*;

use crate::container::{BorderCharacters, BorderType, Container};
use crate::input::TextInput;
use crate::label::Label;
use crate::text::chars_of;
use crate::LoginAction;

verus! {

/// The prompt shown while no exchange has asked for anything else.
pub const DEFAULT_PROMPT: &'static str = "Login:";

/// Relies on `nix::sys::utsname::uname`: the node name of this machine, or
/// nothing where the system call fails.
#[verifier::external_body]
fn host_name() -> Option<String> {
    match nix::sys::utsname::uname() {
        Ok(uts) => Some(uts.nodename().to_string_lossy().into_owned()),
        Err(_) => None,
    }
}

/// A control character (general category Cc).
pub open spec fn is_control_char(c: char) -> bool {
    (c as u32) <= 0x1F || (0x7F <= (c as u32) <= 0x9F)
}

fn is_control(c: char) -> (r: bool)
    ensures
        r == is_control_char(c),
{
    (c as u32) <= 0x1F || (0x7F <= (c as u32) && (c as u32) <= 0x9F)
}

/// The fields of the form that can take focus.
#[derive(PartialEq, Eq, Structural, Clone, Copy)]
pub enum FormElement {
    Prompt,
}

/// A keystroke, as the form sees it.
pub enum Key {
    Esc,
    F(u8),
    Left,
    Right,
    Up,
    Down,
    Home,
    End,
    Char(char),
    Backspace,
    Delete,
    Other,
}

pub struct LoginForm {
    position: (u16, u16),
    size: (u16, u16),
    host_label: Label,
    session_label: Label,
    input_label: Label,
    prompt_label: Label,
    prompt_input: TextInput,
    container: Container,
    focus: FormElement,
}

impl LoginForm {
    /// The input field.
    pub closed spec fn input(&self) -> TextInput {
        self.prompt_input
    }

    /// The label above the input field.
    pub closed spec fn prompt(&self) -> Label {
        self.prompt_label
    }

    /// The host name label.
    pub closed spec fn host(&self) -> Label {
        self.host_label
    }

    /// The label of the session line.
    pub closed spec fn session(&self) -> Label {
        self.session_label
    }

    /// The marker before the input field.
    pub closed spec fn marker(&self) -> Label {
        self.input_label
    }

    /// The frame.
    pub closed spec fn frame(&self) -> Container {
        self.container
    }

    /// Where the form stands on the screen.
    pub closed spec fn at(&self) -> (u16, u16) {
        self.position
    }

    /// The field with focus.
    pub closed spec fn focused(&self) -> FormElement {
        self.focus
    }

    /// Width and height of the form.
    pub closed spec fn extent(&self) -> (u16, u16) {
        self.size
    }

    /// `b` keeps the static parts of `a`: host, session and marker labels,
    /// frame, position and size.
    pub open spec fn same_frame(a: LoginForm, b: LoginForm) -> bool {
        &&& b.host() == a.host()
        &&& b.session() == a.session()
        &&& b.marker() == a.marker()
        &&& b.frame() == a.frame()
        &&& b.at() == a.at()
        &&& b.extent() == a.extent()
    }

    /// `b` is `a` with only its input field changed.
    pub open spec fn same_but_input(a: LoginForm, b: LoginForm) -> bool {
        &&& Self::same_frame(a, b)
        &&& b.prompt() == a.prompt()
        &&& b.focused() == a.focused()
    }

    /// `b` is `a` reset: the default prompt, an empty plain field with the
    /// cursor and window at the start, focus on the prompt, the rest kept.
    pub open spec fn reset_of(a: LoginForm, b: LoginForm) -> bool {
        &&& Self::same_frame(a, b)
        &&& b.prompt().shown() == DEFAULT_PROMPT@
        &&& b.prompt().at() == a.prompt().at()
        &&& b.input().chars() == Seq::<char>::empty()
        &&& b.input().cursor_at() == 0
        &&& b.input().view_start() == 0
        &&& b.input().view_width() == a.input().view_width()
        &&& b.input().at() == a.input().at()
        &&& !b.input().is_masked()
        &&& !b.input().is_maskable()
        &&& b.focused() == FormElement::Prompt
    }

    /// The layout of a fresh form at `position` of the given size, but for
    /// the host name.
    pub open spec fn laid_out(r: LoginForm, position: (u16, u16), size: (u16, u16)) -> bool {
        &&& r.wf()
        &&& r.at() == position
        &&& r.extent() == size
        &&& r.input().chars() == Seq::<char>::empty()
        &&& r.input().cursor_at() == 0
        &&& r.input().view_start() == 0
        &&& r.input().view_width() == size.0 - 10
        &&& r.input().at() == (7u16, (size.1 - 3) as u16)
        &&& !r.input().is_masked()
        &&& !r.input().is_maskable()
        &&& r.prompt().shown() == DEFAULT_PROMPT@
        &&& r.prompt().at() == (3u16, (size.1 - 5) as u16)
        &&& r.session().shown() == "Session:"@
        &&& r.session().at() == (3u16, (size.1 - 7) as u16)
        &&& r.marker().shown() == ">"@
        &&& r.marker().at() == (4u16, (size.1 - 3) as u16)
        &&& r.frame().at() == (0u16, 0u16)
        &&& r.frame().extent() == size
        &&& r.frame().glyphs() == (BorderCharacters {
            northwest: '┌',
            north: '─',
            northeast: '┐',
            east: '│',
            southeast: '┘',
            south: '─',
            southwest: '└',
            west: '│',
        })
        &&& r.focused() == FormElement::Prompt
    }

    pub open spec fn wf(&self) -> bool {
        &&& self.input().wf()
        &&& self.prompt().limit() == None::<usize>
    }

    /// A form at `position` of the given size, with the host name centred at the top.
    pub fn new(position: (u16, u16), size: (u16, u16)) -> (r: Self)
        requires
            size.0 > 10,
            size.1 >= 7,
        ensures
            Self::laid_out(r, position, size),
    {
        let host = match host_name() {
            Some(name) => name,
            None => String::new(),
        };
        Self::with_host_name(position, size, host.as_str())
    }

    /// A form at `position` of the given size, showing `host` centred at the
    /// top (at the left edge where it is wider than the form).
    pub fn with_host_name(position: (u16, u16), size: (u16, u16), host: &str) -> (r: Self)
        requires
            size.0 > 10,
            size.1 >= 7,
        ensures
            Self::laid_out(r, position, size),
            r.host().shown() == host@,
            r.host().at() == (if host@.len() <= size.0 {
                ((size.0 - host@.len()) / 2) as u16
            } else {
                0u16
            }, 2u16),
    {
        let host_len = chars_of(host).len();
        let column: u16 = if host_len <= size.0 as usize {
            ((size.0 as usize - host_len) / 2) as u16
        } else {
            0
        };
        let host_label = Label::new(host, (column, 2));
        let session_label = Label::new("Session:", (3, size.1 - 7));
        let input_label = Label::new(">", (4, size.1 - 3));
        let prompt_label = Label::new(DEFAULT_PROMPT, (3, size.1 - 5));
        let prompt_input = TextInput::new(size.0 as usize - 10, false, (7, size.1 - 3));
        let container = Container::new(BorderType::Unicode, (0, 0), size);
        LoginForm {
            position,
            size,
            host_label,
            session_label,
            input_label,
            prompt_label,
            prompt_input,
            container,
            focus: FormElement::Prompt,
        }
    }

    /// Back to the default prompt, an empty plain field, and focus on it.
    pub fn reset(&mut self)
        requires
            old(self).wf(),
        ensures
            final(self).wf(),
            Self::reset_of(*old(self), *final(self)),
    {
        self.prompt_label.set_text(DEFAULT_PROMPT);
        self.prompt_input.clear();
        self.focus = FormElement::Prompt;
    }

    /// Shows `prompt` above the field.
    pub fn set_prompt(&mut self, prompt: &str)
        requires
            old(self).wf(),
        ensures
            final(self).wf(),
            final(self).prompt().shown() == prompt@,
            final(self).prompt().at() == old(self).prompt().at(),
            final(self).input() == old(self).input(),
            final(self).focused() == old(self).focused(),
            Self::same_frame(*old(self), *final(self)),
    {
        self.prompt_label.set_text(prompt);
    }

    /// Shows `prompt` above the field and masks what is typed.
    pub fn set_secret_prompt(&mut self, prompt: &str)
        requires
            old(self).wf(),
        ensures
            final(self).wf(),
            final(self).prompt().shown() == prompt@,
            final(self).input().is_masked(),
            final(self).input().is_maskable(),
            final(self).input().chars() == old(self).input().chars(),
            final(self).input().cursor_at() == old(self).input().cursor_at(),
            final(self).input().view_start() == old(self).input().view_start(),
            final(self).input().view_width() == old(self).input().view_width(),
            final(self).input().at() == old(self).input().at(),
            final(self).prompt().at() == old(self).prompt().at(),
            final(self).focused() == old(self).focused(),
            Self::same_frame(*old(self), *final(self)),
    {
        self.prompt_label.set_text(prompt);
        self.prompt_input.set_secret(true);
    }

    /// The field with focus.
    pub fn focus(&self) -> (r: &FormElement)
        ensures
            *r == self.focused(),
    {
        &self.focus
    }

    /// Moves focus to the field before; the prompt is the first.
    pub fn focus_prev(&mut self)
        ensures
            final(self).focused() == FormElement::Prompt,
            *final(self) == *old(self),
    {
        self.focus = match self.focus {
            FormElement::Prompt => FormElement::Prompt,
        };
    }

    /// Moves focus to the field after; the prompt is the last.
    pub fn focus_next(&mut self)
        ensures
            final(self).focused() == FormElement::Prompt,
            *final(self) == *old(self),
    {
        self.focus = match self.focus {
            FormElement::Prompt => FormElement::Prompt,
        };
    }

    /// Empties the field with focus.
    pub fn clear(&mut self)
        requires
            old(self).wf(),
        ensures
            final(self).wf(),
            Self::same_but_input(*old(self), *final(self)),
            final(self).input().chars() == Seq::<char>::empty(),
            final(self).input().cursor_at() == 0,
            !final(self).input().is_masked(),
    {
        match self.focus {
            FormElement::Prompt => self.prompt_input.clear(),
        }
    }

    /// Types `c` into the field with focus.
    pub fn push(&mut self, c: char)
        requires
            old(self).wf(),
        ensures
            final(self).wf(),
            Self::same_but_input(*old(self), *final(self)),
            TextInput::pushed(old(self).input(), c, final(self).input()),
    {
        match self.focus {
            FormElement::Prompt => self.prompt_input.push(c),
        }
    }

    /// Deletes a character of the field with focus, after the cursor (`right`) or before it.
    pub fn pop(&mut self, right: bool)
        requires
            old(self).wf(),
        ensures
            final(self).wf(),
            Self::same_but_input(*old(self), *final(self)),
            right ==> final(self).input().chars() == (if old(self).input().cursor_at()
                < old(self).input().chars().len() {
                old(self).input().chars().remove(old(self).input().cursor_at() as int)
            } else {
                old(self).input().chars()
            }),
            !right ==> final(self).input().chars() == (if old(self).input().cursor_at() > 0 {
                old(self).input().chars().remove(old(self).input().cursor_at() - 1)
            } else {
                old(self).input().chars()
            }),
            final(self).input().is_masked() == old(self).input().is_masked(),
    {
        match self.focus {
            FormElement::Prompt => self.prompt_input.pop(right),
        }
    }

    /// Whether the field holds no text.
    pub fn is_empty(&self) -> (r: bool)
        ensures
            r == (self.input().chars().len() == 0),
    {
        self.prompt_input.is_empty()
    }

    /// Flips masking of the field, where it allows it.
    pub fn toggle(&mut self)
        requires
            old(self).wf(),
        ensures
            final(self).wf(),
            Self::same_but_input(*old(self), *final(self)),
            final(self).input().is_masked() == (if old(self).input().is_maskable() {
                !old(self).input().is_masked()
            } else {
                old(self).input().is_masked()
            }),
            final(self).input().chars() == old(self).input().chars(),
    {
        self.prompt_input.toggle();
    }

    /// Moves the cursor of the field with focus one character back.
    pub fn cursor_left(&mut self)
        requires
            old(self).wf(),
        ensures
            final(self).wf(),
            Self::same_but_input(*old(self), *final(self)),
            TextInput::placed(
                old(self).input(),
                final(self).input(),
                if old(self).input().cursor_at() > 0 {
                    (old(self).input().cursor_at() - 1) as nat
                } else {
                    0
                },
            ),
    {
        match self.focus {
            FormElement::Prompt => self.prompt_input.cursor_left(),
        }
    }

    /// Moves the cursor of the field with focus one character ahead.
    pub fn cursor_right(&mut self)
        requires
            old(self).wf(),
        ensures
            final(self).wf(),
            Self::same_but_input(*old(self), *final(self)),
            TextInput::placed(
                old(self).input(),
                final(self).input(),
                if old(self).input().cursor_at() < old(self).input().chars().len() {
                    old(self).input().cursor_at() + 1
                } else {
                    old(self).input().chars().len()
                },
            ),
    {
        match self.focus {
            FormElement::Prompt => self.prompt_input.cursor_right(),
        }
    }

    /// Moves the cursor of the field with focus before its first character.
    pub fn cursor_start(&mut self)
        requires
            old(self).wf(),
        ensures
            final(self).wf(),
            Self::same_but_input(*old(self), *final(self)),
            TextInput::placed(old(self).input(), final(self).input(), 0),
    {
        match self.focus {
            FormElement::Prompt => self.prompt_input.cursor_start(),
        }
    }

    /// Moves the cursor of the field with focus after its last character.
    pub fn cursor_end(&mut self)
        requires
            old(self).wf(),
        ensures
            final(self).wf(),
            Self::same_but_input(*old(self), *final(self)),
            TextInput::placed(
                old(self).input(),
                final(self).input(),
                old(self).input().chars().len(),
            ),
    {
        match self.focus {
            FormElement::Prompt => self.prompt_input.cursor_end(),
        }
    }

    /// The text typed so far.
    pub fn text(&self) -> (r: String)
        ensures
            r@ == self.input().chars(),
    {
        self.prompt_input.text()
    }

    /// Acts on one keystroke: edits the field with focus, or says what the
    /// operator asked for (Esc quits, F1 resets the form and cancels, Enter submits
    /// the text).
    pub fn handle_key(&mut self, key: Key) -> (r: Option<LoginAction>)
        requires
            old(self).wf(),
        ensures
            final(self).wf(),
            match key {
                Key::Esc => r == Some(LoginAction::Quit) && *final(self) == *old(self),
                Key::F(n) => if n == 1 {
                    r == Some(LoginAction::Cancel) && Self::reset_of(*old(self), *final(self))
                } else if n == 3 {
                    r is None && Self::same_but_input(*old(self), *final(self))
                        && final(self).input().chars() == old(self).input().chars()
                        && final(self).input().is_masked() == (if old(self).input().is_maskable() {
                        !old(self).input().is_masked()
                    } else {
                        old(self).input().is_masked()
                    })
                } else {
                    r is None && *final(self) == *old(self)
                },
                Key::Up | Key::Down | Key::Other => r is None && *final(self) == *old(self),
                Key::Char(c) => {
                    &&& Self::same_but_input(*old(self), *final(self))
                    &&& is_control_char(c) ==> final(self).input() == old(self).input()
                    &&& !is_control_char(c) ==> TextInput::pushed(
                        old(self).input(),
                        c,
                        final(self).input(),
                    )
                    &&& c == '\n' ==> (r matches Some(LoginAction::Submit(s)) && s@
                        == final(self).input().chars())
                    &&& c != '\n' ==> r is None
                },
                Key::Left => r is None && Self::same_but_input(*old(self), *final(self))
                    && TextInput::placed(
                    old(self).input(),
                    final(self).input(),
                    if old(self).input().cursor_at() > 0 {
                        (old(self).input().cursor_at() - 1) as nat
                    } else {
                        0
                    },
                ),
                Key::Right => r is None && Self::same_but_input(*old(self), *final(self))
                    && TextInput::placed(
                    old(self).input(),
                    final(self).input(),
                    if old(self).input().cursor_at() < old(self).input().chars().len() {
                        old(self).input().cursor_at() + 1
                    } else {
                        old(self).input().chars().len()
                    },
                ),
                Key::Home => r is None && Self::same_but_input(*old(self), *final(self))
                    && TextInput::placed(old(self).input(), final(self).input(), 0),
                Key::End => r is None && Self::same_but_input(*old(self), *final(self))
                    && TextInput::placed(
                    old(self).input(),
                    final(self).input(),
                    old(self).input().chars().len(),
                ),
                Key::Backspace => r is None && Self::same_but_input(*old(self), *final(self))
                    && final(self).input().is_masked() == old(self).input().is_masked()
                    && final(self).input().chars() == (if old(self).input().cursor_at() > 0 {
                    old(self).input().chars().remove(old(self).input().cursor_at() - 1)
                } else {
                    old(self).input().chars()
                }),
                Key::Delete => r is None && Self::same_but_input(*old(self), *final(self))
                    && final(self).input().is_masked() == old(self).input().is_masked()
                    && final(self).input().chars() == (if old(self).input().cursor_at()
                    < old(self).input().chars().len() {
                    old(self).input().chars().remove(old(self).input().cursor_at() as int)
                } else {
                    old(self).input().chars()
                }),
            },
    {
        match key {
            Key::Esc => Some(LoginAction::Quit),
            Key::F(n) => {
                if n == 1 {
                    self.reset();
                    Some(LoginAction::Cancel)
                } else {
                    if n == 3 {
                        self.toggle();
                    }
                    None
                }
            },
            Key::Left => {
                self.cursor_left();
                None
            },
            Key::Right => {
                self.cursor_right();
                None
            },
            Key::Up => {
                self.focus_prev();
                None
            },
            Key::Down => {
                self.focus_next();
                None
            },
            Key::Home => {
                self.cursor_start();
                None
            },
            Key::End => {
                self.cursor_end();
                None
            },
            Key::Char(c) => {
                if !is_control(c) {
                    self.push(c);
                }
                if c == '\n' {
                    match self.focus {
                        FormElement::Prompt => Some(LoginAction::Submit(self.text())),
                    }
                } else {
                    None
                }
            },
            Key::Backspace => {
                self.pop(false);
                None
            },
            Key::Delete => {
                self.pop(true);
                None
            },
            Key::Other => None,
        }
    }

    /// Where the form stands on the screen.
    pub fn position(&self) -> (r: (u16, u16))
        ensures
            r == self.at(),
    {
        self.position
    }

    /// The host name label.
    pub fn host_label(&self) -> (r: &Label)
        ensures
            *r == self.host(),
    {
        &self.host_label
    }

    /// The label of the session line.
    pub fn session_label(&self) -> (r: &Label)
        ensures
            *r == self.session(),
    {
        &self.session_label
    }

    /// The marker before the input field.
    pub fn input_label(&self) -> (r: &Label)
        ensures
            *r == self.marker(),
    {
        &self.input_label
    }

    /// The label above the input field.
    pub fn prompt_label(&self) -> (r: &Label)
        ensures
            *r == self.prompt(),
    {
        &self.prompt_label
    }

    /// The input field.
    pub fn prompt_input(&self) -> (r: &TextInput)
        ensures
            *r == self.input(),
    {
        &self.prompt_input
    }

    /// The frame.
    pub fn container(&self) -> (r: &Container)
        ensures
            *r == self.frame(),
    {
        &self.container
    }
}

} // verus!
