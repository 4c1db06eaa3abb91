//! The chat platform's interaction types, as far as the commands read and
//! answer them, and the handler of each command.

use vstd::prelude::*;
use crate::catalog::TimezoneIdentifier;
use crate::search::SuggestError;

pub mod timezone;

verus! {

/// The value of one option of a submitted command.
pub enum CommandOptionValue {
    /// Text.
    String(String),
    /// A value of any other kind.
    Other,
}

/// One option of a submitted command.
pub struct CommandDataOption {
    /// The option's name.
    pub name: String,
    /// What the user gave for it.
    pub value: CommandOptionValue,
}

/// One option of a command that the user is still filling in.
pub struct AutocompleteDataOption {
    /// The option's name.
    pub name: String,
    /// What the user has typed so far, if anything.
    pub value: Option<String>,
}

/// One choice offered to a user who is filling in an option.
pub struct CommandOptionChoice {
    /// What the user is shown.
    pub name: String,
    /// What the command is given if the user picks the choice.
    pub value: String,
}

/// The data of an answer to an interaction.
pub struct InteractionResponseData {
    /// The text of the message, if the answer is a message.
    pub content: Option<String>,
    /// Whether only the user who sent the interaction sees the message.
    pub ephemeral: bool,
    /// The choices, if the answer is to a user who is still typing.
    pub choices: Option<Vec<CommandOptionChoice>>,
}

/// The kind of a command.
#[derive(Clone, Copy, Debug, PartialEq, Eq, Structural)]
pub enum CommandType {
    /// A command typed into the chat input.
    ChatInput,
}

/// A text option in the description of a command.
pub struct StringOption {
    /// The option's name.
    pub name: String,
    /// What the user is told about it.
    pub description: String,
    /// Whether the command cannot be sent without it.
    pub required: bool,
    /// Whether the user is offered suggestions while typing.
    pub autocomplete: bool,
}

/// The description of a command, as it is registered with the platform.
pub struct Command {
    /// The command's name.
    pub name: String,
    /// What the user is told about it.
    pub description: String,
    /// The command's kind.
    pub kind: CommandType,
    /// The command's options, in order.
    pub options: Vec<StringOption>,
}

/// A record to be written for a user.
pub struct WriteRequest {
    /// The user.
    pub user_id: u64,
    /// The user's timezone.
    pub timezone: TimezoneIdentifier,
}

/// What a command has decided: the record to write, if any, and the text to
/// answer with once that is done. Where writing fails, the text is not sent.
pub struct Answer {
    /// The record to write first.
    pub write: Option<WriteRequest>,
    /// The text of the answer.
    pub reply: String,
}

/// Why a command could not be run.
#[derive(Clone, Debug, PartialEq, Eq)]
pub enum CommandError {
    /// The command came without options.
    NoOptions,
    /// The timezone option is not text.
    NotString,
    /// A command was run on input that the user is still typing.
    PartialOption,
    /// Suggestions were asked for a command that was already submitted.
    CompleteOption,
    /// The submitted value is one that the index offers and the catalog does not
    /// know: the two have drifted apart, and the user is not at fault.
    DataInconsistency,
    /// The index of display names failed.
    Index(SuggestError),
}

} // verus!
