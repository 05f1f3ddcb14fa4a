//! From a delivered command to what is to be done about it.
//!
//! Nothing here talks to the platform. `respond` decides between asking the
//! platform to store a new nickname and answering at once; where the
//! platform was asked, `report_rename` turns its verdict into the answer.
//! Every command gets exactly one answer.

use vstd::prelude::*;
use vstd::string::*;
use crate::operation::{interpret, interpreted, option_texts, InterpretError, TimezoneOperation};
use crate::transform::{transform, transformed, Outcome};

verus! {

/// Said where there are no nicknames to change.
pub const ELSEWHERE_TEXT: &'static str = "Uh oh! I can't change your nickname here.";

/// Said to a command that nothing here carries out.
pub const NOT_IMPLEMENTED_TEXT: &'static str =
    "Uh oh! That command is registered but not implemented.";

/// Said to a command that came without the option value it needs.
pub const BAD_REQUEST_TEXT: &'static str =
    "Uh oh! That command reached me without the option it needs.";

/// Said where the nickname already shows what was asked for.
pub const NOTHING_TO_CHANGE_TEXT: &'static str =
    "Your nickname already shows that. Nothing to change.";

/// Said where a custom offset was not applied.
pub const CUSTOM_NOT_APPLIED_TEXT: &'static str =
    "Uh oh! Your custom offset is malformed or already applied.";

/// Said, with the new nickname behind it, where the platform stored it.
pub const RENAMED_TEXT: &'static str = "Changed your nickname to ";

/// Said where the platform refused to store the nickname.
pub const RENAME_DENIED_TEXT: &'static str =
    "Uh oh! I couldn't change your nickname. Make sure:\n1. I have permission to `Manage Nicknames`\n2. My role's position is __above__ yours. (I can't change admins' nicknames.)";

/// A command as it is delivered.
#[derive(Clone, Debug, PartialEq, Eq)]
pub struct Invocation {
    pub command_name: String,
    /// The values of the command's options, in the order given.
    pub option_values: Vec<String>,
    /// The name the member has taken in the group, if any.
    pub nickname: Option<String>,
    /// The name of the member's account, shown where there is no nickname.
    pub account_name: String,
    /// Whether the command was given inside a group.
    pub in_group: bool,
}

/// An `Invocation` as contracts see it.
pub struct InvocationView {
    pub command_name: Seq<char>,
    pub option_values: Seq<Seq<char>>,
    pub nickname: Option<Seq<char>>,
    pub account_name: Seq<char>,
    pub in_group: bool,
}

impl View for Invocation {
    type V = InvocationView;

    open spec fn view(&self) -> InvocationView {
        InvocationView {
            command_name: self.command_name@,
            option_values: option_texts(self.option_values@),
            nickname: match self.nickname {
                Some(nickname) => Some(nickname@),
                None => None,
            },
            account_name: self.account_name@,
            in_group: self.in_group,
        }
    }
}

/// An answer that is the same for everyone.
#[derive(Clone, Copy, Debug, PartialEq, Eq)]
pub enum Reply {
    /// The command was given outside a group.
    Elsewhere,
    /// The command is not one of this library's.
    NotImplemented,
    /// The command came without its option value, or with one that the
    /// platform should not have let through.
    BadRequest,
    /// `tz` or `clear` asked for what the nickname already shows.
    NothingToChange,
    /// `custom` asked for an offset that is none, or for the one that the
    /// nickname already shows.
    CustomNotApplied,
}

impl Reply {
    /// The words of the answer.
    pub open spec fn wording(self) -> Seq<char> {
        match self {
            Reply::Elsewhere => ELSEWHERE_TEXT@,
            Reply::NotImplemented => NOT_IMPLEMENTED_TEXT@,
            Reply::BadRequest => BAD_REQUEST_TEXT@,
            Reply::NothingToChange => NOTHING_TO_CHANGE_TEXT@,
            Reply::CustomNotApplied => CUSTOM_NOT_APPLIED_TEXT@,
        }
    }

    /// The words of the answer.
    pub fn text(self) -> (text: &'static str)
        ensures
            text@ == self.wording(),
    {
        match self {
            Reply::Elsewhere => ELSEWHERE_TEXT,
            Reply::NotImplemented => NOT_IMPLEMENTED_TEXT,
            Reply::BadRequest => BAD_REQUEST_TEXT,
            Reply::NothingToChange => NOTHING_TO_CHANGE_TEXT,
            Reply::CustomNotApplied => CUSTOM_NOT_APPLIED_TEXT,
        }
    }
}

/// What to do about a command.
#[derive(Clone, Debug, PartialEq, Eq)]
pub enum Step {
    /// Ask the platform to store this nickname, then answer with what
    /// `report_rename` says of the result.
    Rename(String),
    /// Answer at once.
    Say(Reply),
}

/// A `Step` as contracts see it.
pub enum StepView {
    Rename(Seq<char>),
    Say(Reply),
}

impl View for Step {
    type V = StepView;

    open spec fn view(&self) -> StepView {
        match *self {
            Step::Rename(name) => StepView::Rename(name@),
            Step::Say(reply) => StepView::Say(reply),
        }
    }
}

/// The name a member shows: the nickname, or the account's name without one.
pub open spec fn shown_name(nickname: Option<Seq<char>>, account_name: Seq<char>) -> Seq<char> {
    match nickname {
        Some(nickname) => nickname,
        None => account_name,
    }
}

/// Outside a group nothing is done. A command that cannot be read is
/// answered as such. Otherwise the shown name is transformed: a changed name
/// is to be stored, and anything else is answered at once.
pub open spec fn responded(invocation: InvocationView) -> StepView {
    if !invocation.in_group {
        StepView::Say(Reply::Elsewhere)
    } else {
        match interpreted(invocation.command_name, invocation.option_values) {
            Err(InterpretError::UnknownCommand) => StepView::Say(Reply::NotImplemented),
            Err(_) => StepView::Say(Reply::BadRequest),
            Ok(operation) => {
                let done = transformed(
                    shown_name(invocation.nickname, invocation.account_name),
                    operation,
                );
                match done.outcome {
                    Outcome::Changed => StepView::Rename(done.candidate_name),
                    Outcome::Unchanged => if operation is SetCustom {
                        StepView::Say(Reply::CustomNotApplied)
                    } else {
                        StepView::Say(Reply::NothingToChange)
                    },
                    Outcome::Invalid => StepView::Say(Reply::CustomNotApplied),
                }
            },
        }
    }
}

/// The answer after the platform was asked to store `new_name`.
pub open spec fn rename_report(new_name: Seq<char>, stored: bool) -> Seq<char> {
    if stored {
        RENAMED_TEXT@ + new_name
    } else {
        RENAME_DENIED_TEXT@
    }
}

/// The name a member shows: the nickname, or the account's name without one.
pub fn name_shown(invocation: &Invocation) -> (name: &str)
    ensures
        name@ == shown_name(invocation@.nickname, invocation@.account_name),
{
    match &invocation.nickname {
        Some(nickname) => nickname.as_str(),
        None => invocation.account_name.as_str(),
    }
}

/// Decides what to do about a command.
pub fn respond(invocation: &Invocation) -> (step: Step)
    ensures
        step@ == responded(invocation@),
{
    if !invocation.in_group {
        return Step::Say(Reply::Elsewhere);
    }
    let read = interpret(invocation.command_name.as_str(), invocation.option_values.as_slice());
    match read {
        Err(InterpretError::UnknownCommand) => Step::Say(Reply::NotImplemented),
        Err(_) => Step::Say(Reply::BadRequest),
        Ok(operation) => {
            let done = transform(name_shown(invocation), &operation);
            match done.outcome {
                Outcome::Changed => Step::Rename(done.candidate_name),
                Outcome::Unchanged => match operation {
                    TimezoneOperation::SetCustom(_) => Step::Say(Reply::CustomNotApplied),
                    _ => Step::Say(Reply::NothingToChange),
                },
                Outcome::Invalid => Step::Say(Reply::CustomNotApplied),
            }
        },
    }
}

/// Words the answer once the platform has stored `new_name`, or refused to.
pub fn report_rename(new_name: &str, stored: bool) -> (text: String)
    ensures
        text@ == rename_report(new_name@, stored),
{
    if stored {
        let mut text = String::from_str(RENAMED_TEXT);
        text.append(new_name);
        text
    } else {
        String::from_str(RENAME_DENIED_TEXT)
    }
}

} // verus!
