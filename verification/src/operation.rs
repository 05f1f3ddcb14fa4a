//! From a command to the operation it asks for.

use vstd::prelude::*;
use vstd::string::*;
use crate::offset::{is_standard_text, whole_hour_value, StandardOffset};
use crate::text::same_text;

verus! {

/// The command that sets one of the platform's whole-hour offsets.
pub const TZ_COMMAND: &'static str = "tz";

/// The command that sets an offset typed by the member.
pub const CUSTOM_COMMAND: &'static str = "custom";

/// The command that takes the timezone off the name.
pub const CLEAR_COMMAND: &'static str = "clear";

/// What a member asks to be done with the timezone on their name.
#[derive(Clone, Debug, PartialEq, Eq)]
pub enum TimezoneOperation {
    /// Show one of the platform's whole-hour offsets.
    SetStandard(StandardOffset),
    /// Show the offset that the member typed, if it turns out to be one.
    SetCustom(String),
    /// Show no timezone.
    Clear,
}

/// A `TimezoneOperation` as contracts see it: hours as an integer, text as a
/// sequence of characters.
pub enum OperationView {
    SetStandard(int),
    SetCustom(Seq<char>),
    Clear,
}

impl OperationView {
    /// A standard offset lies within twelve hours of UTC. Every
    /// `TimezoneOperation` is well formed in this sense.
    pub open spec fn well_formed(self) -> bool {
        self matches OperationView::SetStandard(hours) ==> -12 <= hours <= 12
    }
}

impl View for TimezoneOperation {
    type V = OperationView;

    open spec fn view(&self) -> OperationView {
        match *self {
            TimezoneOperation::SetStandard(offset) => OperationView::SetStandard(offset@),
            TimezoneOperation::SetCustom(raw) => OperationView::SetCustom(raw@),
            TimezoneOperation::Clear => OperationView::Clear,
        }
    }
}

/// Why a command could not be read. Each of these is a fault of whoever
/// delivered the command, not of the member.
#[derive(Clone, Copy, Debug, PartialEq, Eq)]
pub enum InterpretError {
    /// The command is none of `tz`, `custom` and `clear`.
    UnknownCommand,
    /// `tz` or `custom` came with no option value, or with more than one.
    OptionCount,
    /// The value that came with `tz` is none of the platform's choices.
    UnlistedOffset,
}

/// The characters of each option value.
pub open spec fn option_texts(values: Seq<String>) -> Seq<Seq<char>> {
    Seq::new(values.len(), |i: int| values[i]@)
}

/// What a command asks for. `tz` takes exactly one option value, one of the
/// platform's choices; `custom` takes exactly one, which may be any text and
/// is judged later; `clear` needs none and ignores what it gets.
pub open spec fn interpreted(command: Seq<char>, options: Seq<Seq<char>>) -> Result<
    OperationView,
    InterpretError,
> {
    if command == TZ_COMMAND@ {
        if options.len() != 1 {
            Err(InterpretError::OptionCount)
        } else if is_standard_text(options[0]) {
            Ok(OperationView::SetStandard(whole_hour_value(options[0])))
        } else {
            Err(InterpretError::UnlistedOffset)
        }
    } else if command == CUSTOM_COMMAND@ {
        if options.len() != 1 {
            Err(InterpretError::OptionCount)
        } else {
            Ok(OperationView::SetCustom(options[0]))
        }
    } else if command == CLEAR_COMMAND@ {
        Ok(OperationView::Clear)
    } else {
        Err(InterpretError::UnknownCommand)
    }
}

/// Reads a command and its option values.
pub fn interpret(command_name: &str, option_values: &[String]) -> (read: Result<
    TimezoneOperation,
    InterpretError,
>)
    ensures
        match read {
            Ok(operation) => operation@.well_formed() && interpreted(
                command_name@,
                option_texts(option_values@),
            ) == Ok::<OperationView, InterpretError>(operation@),
            Err(error) => interpreted(command_name@, option_texts(option_values@)) == Err::<
                OperationView,
                InterpretError,
            >(error),
        },
{
    let ghost options = option_texts(option_values@);
    if same_text(command_name, TZ_COMMAND) {
        if option_values.len() != 1 {
            return Err(InterpretError::OptionCount);
        }
        assert(options[0] == option_values@[0]@);
        match StandardOffset::parse(option_values[0].as_str()) {
            Some(offset) => Ok(TimezoneOperation::SetStandard(offset)),
            None => Err(InterpretError::UnlistedOffset),
        }
    } else if same_text(command_name, CUSTOM_COMMAND) {
        if option_values.len() != 1 {
            return Err(InterpretError::OptionCount);
        }
        assert(options[0] == option_values@[0]@);
        Ok(TimezoneOperation::SetCustom(option_values[0].clone()))
    } else if same_text(command_name, CLEAR_COMMAND) {
        Ok(TimezoneOperation::Clear)
    } else {
        Err(InterpretError::UnknownCommand)
    }
}

} // verus!
