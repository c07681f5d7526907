use vstd::prelude::*;
use crate::steps::{StepStack, after_advance, after_advances, current_of};

verus! {

/// The text shown once every step has been passed.
pub const COMPLETION_TEXT: &'static str = "All done :)";

/// A key, as far as the presenter tells keys apart.
#[derive(Clone, Copy, Debug, PartialEq, Eq)]
pub enum Key {
    Char(char),
    Enter,
    Other,
}

/// Whether a key event reports a press, an auto-repeat or a release.
#[derive(Clone, Copy, Debug, PartialEq, Eq)]
pub enum KeyKind {
    Press,
    Repeat,
    Release,
}

/// One terminal input event.
#[derive(Clone, Copy, Debug, PartialEq, Eq)]
pub enum Input {
    Key(Key, KeyKind),
    Other,
}

/// How a message is to be styled.
#[derive(Clone, Copy, Debug, PartialEq, Eq)]
pub enum MessageStyle {
    /// Default styling, for a step.
    Plain,
    /// An affirmative styling, for the completion text.
    Affirmative,
}

/// The text to render inside the panel, with its styling.
#[derive(Debug, PartialEq, Eq)]
pub struct Message {
    pub text: String,
    pub style: MessageStyle,
}

/// The key that quits.
pub open spec fn is_quit_key(k: Key) -> bool {
    k == Key::Char('q')
}

/// The keys that advance to the next step.
pub open spec fn is_next_key(k: Key) -> bool {
    k == Key::Char(' ') || k == Key::Enter
}

/// The message text for the remaining steps `r`.
pub open spec fn message_text_of(r: Seq<Seq<char>>) -> Seq<char> {
    if r.len() > 0 {
        r[0]
    } else {
        COMPLETION_TEXT@
    }
}

/// The message style for the remaining steps `r`.
pub open spec fn message_style_of(r: Seq<Seq<char>>) -> MessageStyle {
    if r.len() > 0 {
        MessageStyle::Plain
    } else {
        MessageStyle::Affirmative
    }
}

/// The state of the presentation: the remaining steps and the exit flag.
pub struct ChecklistApp {
    steps: StepStack,
    exit: bool,
}

impl ChecklistApp {
    /// The steps that are left, in presentation order.
    pub closed spec fn remaining(&self) -> Seq<Seq<char>> {
        self.steps@
    }

    /// Whether the quit key has been pressed.
    pub closed spec fn exit_requested(&self) -> bool {
        self.exit
    }

    /// An app that presents `steps` from first to last.
    pub fn with_steps(steps: Vec<String>) -> (r: Self)
        ensures
            r.remaining() == steps@.map_values(|s: String| s@),
            !r.exit_requested(),
    {
        ChecklistApp { steps: StepStack::from_steps(steps), exit: false }
    }

    /// Whether the presentation loop is to stop.
    pub fn should_exit(&self) -> (r: bool)
        ensures
            r == self.exit_requested(),
    {
        self.exit
    }

    /// Reacts to one terminal input event: only key presses count.
    pub fn handle_event(&mut self, event: Input)
        ensures
            match event {
                Input::Key(k, KeyKind::Press) => {
                    &&& final(self).exit_requested() == (old(self).exit_requested() || is_quit_key(k))
                    &&& final(self).remaining() == if is_next_key(k) {
                        after_advance(old(self).remaining())
                    } else {
                        old(self).remaining()
                    }
                },
                _ => *final(self) == *old(self),
            },
    {
        match event {
            Input::Key(k, KeyKind::Press) => self.handle_key_event(k),
            _ => {},
        }
    }

    /// Reacts to one key press: `q` quits, space or enter advances, any other
    /// key does nothing.
    pub fn handle_key_event(&mut self, key: Key)
        ensures
            final(self).exit_requested() == (old(self).exit_requested() || is_quit_key(key)),
            final(self).remaining() == if is_next_key(key) {
                after_advance(old(self).remaining())
            } else {
                old(self).remaining()
            },
    {
        match key {
            Key::Char('q') => self.exit(),
            Key::Char(' ') | Key::Enter => self.next_step(),
            _ => {},
        }
    }

    /// Asks the presentation loop to stop.
    pub fn exit(&mut self)
        ensures
            final(self).exit_requested(),
            final(self).remaining() == old(self).remaining(),
    {
        self.exit = true;
    }

    /// Moves to the next step; once every step is passed, nothing changes.
    pub fn next_step(&mut self)
        ensures
            final(self).remaining() == after_advance(old(self).remaining()),
            final(self).exit_requested() == old(self).exit_requested(),
    {
        self.steps.advance();
    }

    /// The step on display, or `None` once every step is passed.
    pub fn current(&self) -> (r: Option<&String>)
        ensures
            r matches Some(s) ==> current_of(self.remaining()) == Some(s@),
            r is None ==> current_of(self.remaining()) is None,
    {
        self.steps.current()
    }

    /// The message to render: the current step in plain style, or the
    /// completion text in affirmative style.
    pub fn message(&self) -> (r: Message)
        ensures
            r.text@ == message_text_of(self.remaining()),
            r.style == message_style_of(self.remaining()),
    {
        match self.steps.current() {
            Some(s) => Message { text: s.clone(), style: MessageStyle::Plain },
            None => Message {
                text: String::from_str(COMPLETION_TEXT),
                style: MessageStyle::Affirmative,
            },
        }
    }
}

impl Default for ChecklistApp {
    /// An app with no steps, which is complete from the start.
    fn default() -> (r: Self)
        ensures
            r.remaining() == Seq::<Seq<char>>::empty(),
            !r.exit_requested(),
    {
        ChecklistApp::with_steps(Vec::new())
    }
}

} // verus!
