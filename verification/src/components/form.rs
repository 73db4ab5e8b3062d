//! What the forms have in common: what they take from their elements, and
//! the list in which they show what went wrong.

use crate::component::Command;
use crate::patch::{clone_text_patch, refill, refill_with, text_patch, text_patches, Patch};
use crate::text::{opt_text, texts};
use crate::widgets::InputOrArea;
use vstd::prelude::*;
use vstd::string::*;

verus! {

/// What a form tells its view.
#[derive(Debug)]
pub enum Out {
    /// The list of errors changes so.
    Error(Patch<String>),
}

impl Out {
    /// The patch to the list of errors.
    pub fn errors(&self) -> (patch: Option<Patch<String>>)
        ensures
            match self {
                Out::Error(p) => patch matches Some(found) && text_patch(found) == text_patch(*p),
            },
    {
        match self {
            Out::Error(patch) => Some(clone_text_patch(patch)),
        }
    }
}

/// What a form takes from one of its elements: nothing where the element
/// is not built or holds no text, else the text.
pub open spec fn entry<T: InputOrArea>(o_input: Option<T>) -> Option<Seq<char>> {
    match o_input {
        Some(input) => if input.text().len() == 0 {
            None
        } else {
            Some(input.text())
        },
        None => None,
    }
}

/// Reads what a form takes from one of its elements.
pub fn read_entry<T: InputOrArea>(o_input: &Option<T>) -> (value: Option<String>)
    ensures
        opt_text(value) == entry(*o_input),
{
    match o_input {
        Some(input) => {
            let text = input.value();
            if text.as_str().unicode_len() == 0 {
                None
            } else {
                Some(text)
            }
        },
        None => None,
    }
}

/// Whether `commands` makes the list of errors show `errors` and nothing
/// else: one message to the view for each patch of the refill, in order.
pub open spec fn shows_errors<I>(commands: Seq<Command<I, Out>>, errors: Seq<Seq<char>>) -> bool {
    &&& commands.len() == refill(errors).len()
    &&& forall|i: int|
        0 <= i < commands.len() ==> ((#[trigger] commands[i]) matches Command::Send(Out::Error(p))
            && text_patch(p) == refill(errors)[i])
}

/// The commands that make the list of errors show `errors` and nothing
/// else.
pub fn show_errors<I>(errors: &Vec<String>) -> (commands: Vec<Command<I, Out>>)
    ensures
        shows_errors(commands@, texts(errors@)),
{
    let mut commands: Vec<Command<I, Out>> = Vec::new();
    let patches = refill_with(errors);
    let ghost want = refill(texts(errors@));
    for patch in it: patches
        invariant
            text_patches(it.seq()) == want,
            commands@.len() == it.index(),
            forall|i: int|
                0 <= i < commands@.len() ==> ((#[trigger] commands@[i]) matches Command::Send(
                    Out::Error(p),
                ) && text_patch(p) == want[i]),
    {
        assert(text_patches(it.seq())[it.index() as int] == text_patch(patch));
        commands.push(Command::Send(Out::Error(patch)));
    }
    commands
}

/// The patches that `commands` sends to the list of errors.
pub open spec fn error_patches<I>(commands: Seq<Command<I, Out>>) -> Seq<Patch<Seq<char>>> {
    Seq::new(
        commands.len(),
        |i: int|
            match commands[i] {
                Command::Send(Out::Error(p)) => text_patch(p),
                _ => Patch::RemoveAll,
            },
    )
}

/// A list of errors that takes the commands of a failure shows, behind
/// what was declared with it, one line for each error, in order, and
/// nothing of what it showed before.
pub proof fn lemma_errors_shown<I>(
    commands: Seq<Command<I, Out>>,
    errors: Seq<Seq<char>>,
    fixed: nat,
    children: Seq<Seq<char>>,
)
    requires
        shows_errors(commands, errors),
        fixed <= children.len(),
    ensures
        error_patches(commands) == refill(errors),
        crate::patch::fit_in_turn(fixed, children, error_patches(commands)),
        crate::patch::replayed(fixed, children, error_patches(commands)) == children.take(
            fixed as int,
        ) + errors,
{
    assert(error_patches(commands) =~= refill(errors));
    crate::patch::lemma_refill(fixed, children, errors);
}

} // verus!
