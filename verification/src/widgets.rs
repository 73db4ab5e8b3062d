//! A text input as a component: it keeps the text that its element shows,
//! and tells when the text has changed.

use crate::component::Command;
use crate::text::same_text;
use vstd::prelude::*;
use vstd::string::*;

verus! {

/// An element that holds one text: an input or a text area.
pub trait InputOrArea: Sized {
    /// The text that the element holds. An element says here what its
    /// text is; one that does not say holds some text that is not known.
    open spec fn text(&self) -> Seq<char> {
        arbitrary()
    }

    /// Reads the text.
    fn value(&self) -> (text: String)
        ensures
            text@ == self.text(),
    ;

    /// Puts `value` in the place of the text.
    fn set_value(&mut self, value: &str)
        ensures
            final(self).text() == value@,
    ;
}

/// An element that is kept in memory: a text and nothing else.
#[derive(Debug)]
pub struct TextBox {
    pub text: String,
}

impl TextBox {
    /// An element that holds `text`.
    pub fn new(text: &str) -> (element: TextBox)
        ensures
            element.text@ == text@,
    {
        TextBox { text: String::from_str(text) }
    }
}

impl InputOrArea for TextBox {
    open spec fn text(&self) -> Seq<char> {
        self.text@
    }

    fn value(&self) -> (text: String) {
        self.text.clone()
    }

    fn set_value(&mut self, value: &str) {
        self.text = String::from_str(value);
    }
}

/// A text input.
pub struct TextInput<T> {
    /// The element, once it is built.
    pub o_input: Option<T>,
    pub value: String,
    pub placeholder: String,
}

/// What a text input is told.
pub enum TextInputIn<T> {
    /// The element is built; here it is.
    PostBuild(T),
    /// Show this text.
    SetValue(String),
    /// The element may hold another text than the input knows; look.
    UpdateValue,
}

/// What a text input tells.
#[derive(Debug)]
pub enum TextInputOut {
    /// The text is this now.
    UpdatedValue(String),
}

impl<T> TextInput<T> {
    /// An input that knows the text `value` and, while it is empty, shows
    /// `placeholder`. Its element is not built yet.
    pub fn new(value: &str, placeholder: &str) -> (input: TextInput<T>)
        ensures
            input.o_input is None,
            input.value@ == value@,
            input.placeholder@ == placeholder@,
    {
        TextInput {
            o_input: None,
            value: String::from_str(value),
            placeholder: String::from_str(placeholder),
        }
    }
}

/// Whether `after` is the input that `before` becomes by answering `msg`.
///
/// An element that is built is kept, showing the text that the input
/// knows. A text to show is put into the element, if there is one. Looking,
/// the input takes over the text of its element.
pub open spec fn settled<T: InputOrArea>(
    before: TextInput<T>,
    msg: TextInputIn<T>,
    after: TextInput<T>,
) -> bool {
    &&& after.placeholder@ == before.placeholder@
    &&& match msg {
        TextInputIn::PostBuild(_) => {
            &&& after.o_input matches Some(element) && element.text() == before.value@
            &&& after.value@ == before.value@
        },
        TextInputIn::SetValue(value) => {
            &&& match before.o_input {
                Some(_) => after.o_input matches Some(element) && element.text() == value@,
                None => after.o_input is None,
            }
            &&& after.value@ == before.value@
        },
        TextInputIn::UpdateValue => {
            &&& after.o_input == before.o_input
            &&& match before.o_input {
                Some(element) => after.value@ == element.text(),
                None => after.value@ == before.value@,
            }
        },
    }
}

/// Whether `commands` is what the input `before` asks for in answer to
/// `msg`.
///
/// After a text to show, the input looks at its element next. Looking, it
/// tells the view the text of its element if that is another than it knew.
pub open spec fn asked<T: InputOrArea>(
    before: TextInput<T>,
    msg: TextInputIn<T>,
    commands: Seq<Command<TextInputIn<T>, TextInputOut>>,
) -> bool {
    match msg {
        TextInputIn::PostBuild(_) => commands.len() == 0,
        TextInputIn::SetValue(_) => {
            &&& commands.len() == 1
            &&& commands[0] matches Command::Later(TextInputIn::UpdateValue)
        },
        TextInputIn::UpdateValue => match before.o_input {
            Some(element) => if element.text() == before.value@ {
                commands.len() == 0
            } else {
                &&& commands.len() == 1
                &&& commands[0] matches Command::Send(TextInputOut::UpdatedValue(told)) && told@
                    == element.text()
            },
            None => commands.len() == 0,
        },
    }
}

impl<T: InputOrArea> TextInput<T> {
    /// Answers one message.
    pub fn update(&mut self, msg: TextInputIn<T>) -> (commands: Vec<
        Command<TextInputIn<T>, TextInputOut>,
    >)
        ensures
            settled(*old(self), msg, *final(self)),
            asked(*old(self), msg, commands@),
    {
        let mut commands: Vec<Command<TextInputIn<T>, TextInputOut>> = Vec::new();
        match msg {
            TextInputIn::PostBuild(input) => {
                let mut input = input;
                input.set_value(self.value.as_str());
                self.o_input = Some(input);
            },
            TextInputIn::SetValue(value) => {
                match self.o_input.take() {
                    Some(input) => {
                        let mut input = input;
                        input.set_value(value.as_str());
                        self.o_input = Some(input);
                    },
                    None => {},
                }
                commands.push(Command::Later(TextInputIn::UpdateValue));
            },
            TextInputIn::UpdateValue => {
                match &self.o_input {
                    Some(input) => {
                        let now = input.value();
                        let changed = !same_text(now.as_str(), self.value.as_str());
                        self.value = now;
                        if changed {
                            commands.push(
                                Command::Send(TextInputOut::UpdatedValue(self.value.clone())),
                            );
                        }
                    },
                    None => {},
                }
            },
        }
        commands
    }
}

} // verus!
