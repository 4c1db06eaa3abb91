//! The timezone command: the user types a timezone, is offered suggestions while
//! typing, and the timezone that the submitted text names is stored for them.

use vstd::prelude::*;
use vstd::std_specs::convert::TryFromSpec;
use crate::catalog::{is_catalog_name, resolve};
use crate::interaction::{
    Answer, AutocompleteDataOption, Command, CommandDataOption, CommandError, CommandOptionChoice,
    CommandOptionValue, CommandType, InteractionResponseData, StringOption, WriteRequest,
};
use crate::search::{offer_known, suggested, SuggestError, TimezoneIndex};

verus! {

/// The value of the timezone option of the timezone command.
pub enum TimezoneOption {
    /// The command was submitted with this value.
    Complete(String),
    /// The user is still typing, and this much is there.
    Partial(String),
}

/// The timezone command.
pub struct Timezone {
    /// The timezone option of the command.
    pub timezone: TimezoneOption,
}

/// The answer to a command that stored the user's timezone.
pub open spec fn stored_reply() -> Seq<char> {
    "tada! now you can use the `/time` command ^^"@
}

/// The answer to text that names no timezone: it says so, and where valid
/// names can be found.
pub open spec fn not_found_reply() -> Seq<char> {
    "i couldn't find that timezone :( you can use this website to copy-paste instead:\nhttps://kevinnovak.github.io/Time-Zone-Picker"@
}

/// What the last option of a command that the user is still filling in holds:
/// nothing, if there is no option or the option has no value yet.
pub open spec fn typed_so_far(options: Seq<AutocompleteDataOption>) -> Seq<char> {
    if options.len() == 0 {
        Seq::empty()
    } else {
        match options.last().value {
            Some(text) => text@,
            None => Seq::empty(),
        }
    }
}

/// What the command decides for a user and submitted text.
///
/// A timezone of the catalog is stored and confirmed. For other text the
/// index is asked whether it holds an entry with that very text as its display
/// string. If it does, the index and the catalog disagree, which is an error
/// and no fault of the user. If it does not, the text is a mistake of the user,
/// who is told where valid names can be found. If the index fails, its error is
/// handed on. Nothing is written in any of these cases.
pub open spec fn decides(user_id: u64, raw: Seq<char>, r: Result<Answer, CommandError>) -> bool {
    if is_catalog_name(raw) {
        &&& r matches Ok(answer)
        &&& answer.write matches Some(request)
        &&& request.user_id == user_id
        &&& request.timezone@ == raw
        &&& answer.reply@ == stored_reply()
    } else {
        exists|known: Result<bool, SuggestError>| #[trigger]
            offer_known(raw, known) && match known {
                Err(inner) => r matches Err(e) && e == CommandError::Index(inner),
                Ok(true) => r matches Err(e) && e == CommandError::DataInconsistency,
                Ok(false) => {
                    &&& r matches Ok(answer)
                    &&& answer.write.is_none()
                    &&& answer.reply@ == not_found_reply()
                },
            }
    }
}

impl Timezone {
    /// The description under which the command is registered.
    pub fn build() -> (command: Command)
        ensures
            command.name@ == "set_timezone"@,
            command.description@ == "set your time zone so that you can actually use me"@,
            command.kind == CommandType::ChatInput,
            command.options@.len() == 1,
            command.options@[0].name@ == "timezone"@,
            command.options@[0].description@ == "try typing your city, country or its capital"@,
            command.options@[0].required,
            command.options@[0].autocomplete,
    {
        let option = StringOption {
            name: "timezone".to_owned(),
            description: "try typing your city, country or its capital".to_owned(),
            required: true,
            autocomplete: true,
        };
        let mut options: Vec<StringOption> = Vec::new();
        options.push(option);
        Command {
            name: "set_timezone".to_owned(),
            description: "set your time zone so that you can actually use me".to_owned(),
            kind: CommandType::ChatInput,
            options,
        }
    }
}

impl TryFrom<Vec<CommandDataOption>> for Timezone {
    type Error = CommandError;

    /// Reads a submitted command: its last option must be there and be text.
    fn try_from(options: Vec<CommandDataOption>) -> (r: Result<Self, CommandError>) {
        let mut options = options;
        match options.pop() {
            None => Err(CommandError::NoOptions),
            Some(option) => match option.value {
                CommandOptionValue::String(tz) => Ok(Timezone { timezone: TimezoneOption::Complete(tz) }),
                CommandOptionValue::Other => Err(CommandError::NotString),
            },
        }
    }
}

impl vstd::std_specs::convert::TryFromSpecImpl<Vec<CommandDataOption>> for Timezone {
    open spec fn obeys_try_from_spec() -> bool {
        true
    }

    open spec fn try_from_spec(options: Vec<CommandDataOption>) -> Result<Self, CommandError> {
        if options@.len() == 0 {
            Err(CommandError::NoOptions)
        } else {
            match options@.last().value {
                CommandOptionValue::String(tz) => Ok(Timezone { timezone: TimezoneOption::Complete(tz) }),
                CommandOptionValue::Other => Err(CommandError::NotString),
            }
        }
    }
}

impl From<Vec<AutocompleteDataOption>> for Timezone {
    /// Reads a command that the user is still filling in.
    fn from(options: Vec<AutocompleteDataOption>) -> (command: Self)
        ensures
            command.timezone matches TimezoneOption::Partial(text) && text@ == typed_so_far(options@),
    {
        let mut options = options;
        let text = match options.pop() {
            None => String::new(),
            Some(option) => match option.value {
                Some(text) => text,
                None => String::new(),
            },
        };
        Timezone { timezone: TimezoneOption::Partial(text) }
    }
}

impl vstd::std_specs::convert::FromSpecImpl<Vec<AutocompleteDataOption>> for Timezone {
    /// The empty text of a missing value is made anew on each call, so the
    /// result is stated on `from` itself, by its view.
    open spec fn obeys_from_spec() -> bool {
        false
    }

    open spec fn from_spec(options: Vec<AutocompleteDataOption>) -> Self {
        arbitrary()
    }
}

/// Runs a submitted command for a user; the answer is for that user's eyes
/// only.
pub fn run(index: &TimezoneIndex, user_id: u64, options: Vec<CommandDataOption>) -> (r: Result<
    (Option<WriteRequest>, InteractionResponseData),
    CommandError,
>)
    ensures
        match Timezone::try_from_spec(options) {
            Err(e) => r matches Err(f) && f == e,
            Ok(command) => command.timezone matches TimezoneOption::Complete(raw) && match r {
                Ok((write, response)) => {
                    &&& response.ephemeral
                    &&& response.choices.is_none()
                    &&& response.content matches Some(reply)
                    &&& decides(user_id, raw@, Ok(Answer { write, reply }))
                },
                Err(e) => decides(user_id, raw@, Err(e)),
            },
        },
{
    let command = match Timezone::try_from(options) {
        Ok(command) => command,
        Err(e) => {
            return Err(e);
        },
    };
    match _run(index, user_id, command) {
        Ok(answer) => Ok(
            (answer.write, InteractionResponseData { content: Some(answer.reply), ephemeral: true, choices: None }),
        ),
        Err(e) => Err(e),
    }
}

/// Decides what a submitted command does.
fn _run(index: &TimezoneIndex, user_id: u64, timezone: Timezone) -> (r: Result<Answer, CommandError>)
    ensures
        match timezone.timezone {
            TimezoneOption::Partial(_) => r matches Err(e) && e == CommandError::PartialOption,
            TimezoneOption::Complete(raw) => decides(user_id, raw@, r),
        },
{
    let raw = match timezone.timezone {
        TimezoneOption::Complete(raw) => raw,
        TimezoneOption::Partial(_) => {
            return Err(CommandError::PartialOption);
        },
    };
    match resolve(raw.as_str()) {
        Ok(found) => Ok(
            Answer {
                write: Some(WriteRequest { user_id, timezone: found }),
                reply: "tada! now you can use the `/time` command ^^".to_owned(),
            },
        ),
        Err(_) => {
            let known = index.offers(raw.as_str());
            let ghost told = known;
            let r = match known {
                Err(inner) => Err(CommandError::Index(inner)),
                Ok(true) => Err(CommandError::DataInconsistency),
                Ok(false) => Ok(
                    Answer {
                        write: None,
                        reply: "i couldn't find that timezone :( you can use this website to copy-paste instead:\nhttps://kevinnovak.github.io/Time-Zone-Picker".to_owned(),
                    },
                ),
            };
            assert(offer_known(raw@, told));
            r
        },
    }
}

/// The choices that offer a list of suggestions: each is shown as it is and
/// stands for itself.
pub fn choices_for(suggestions: Vec<String>) -> (choices: Vec<CommandOptionChoice>)
    ensures
        choices@.len() == suggestions@.len(),
        forall|i: int|
            0 <= i < choices@.len() ==> (#[trigger] choices@[i]).name@ == suggestions@[i]@ && choices@[i].value@
                == suggestions@[i]@,
{
    let mut suggestions = suggestions;
    let ghost all = suggestions@;
    let mut reversed: Vec<CommandOptionChoice> = Vec::new();
    while suggestions.len() > 0
        invariant
            suggestions@.len() + reversed@.len() == all.len(),
            suggestions@ == all.take(suggestions@.len() as int),
            forall|i: int|
                0 <= i < reversed@.len() ==> (#[trigger] reversed@[i]).name@ == all[all.len() - 1 - i]@
                    && reversed@[i].value@ == all[all.len() - 1 - i]@,
        decreases suggestions@.len(),
    {
        let ghost before = suggestions@;
        let value = suggestions.pop().unwrap();
        assert(suggestions@ == all.take(suggestions@.len() as int));
        assert(value == all[suggestions@.len() as int]);
        reversed.push(CommandOptionChoice { name: value.clone(), value });
    }
    let mut choices: Vec<CommandOptionChoice> = Vec::new();
    while reversed.len() > 0
        invariant
            reversed@.len() + choices@.len() == all.len(),
            forall|i: int|
                0 <= i < reversed@.len() ==> (#[trigger] reversed@[i]).name@ == all[all.len() - 1 - i]@
                    && reversed@[i].value@ == all[all.len() - 1 - i]@,
            forall|i: int|
                0 <= i < choices@.len() ==> (#[trigger] choices@[i]).name@ == all[i]@ && choices@[i].value@
                    == all[i]@,
        decreases reversed@.len(),
    {
        let choice = reversed.pop().unwrap();
        choices.push(choice);
    }
    choices
}

/// True when the choices offer a list of suggestions, one for one and in order:
/// each is shown as the suggestion and stands for it.
pub open spec fn offers(choices: Seq<CommandOptionChoice>, suggestions: Seq<String>) -> bool {
    &&& choices.len() == suggestions.len()
    &&& forall|i: int|
        0 <= i < choices.len() ==> (#[trigger] choices[i]).name@ == suggestions[i]@ && choices[i].value@
            == suggestions[i]@
}

/// Answers a user who is still typing with the suggestions for what is typed,
/// as choices. An error of the index is handed on as it is.
pub fn run_autocomplete(index: &TimezoneIndex, timezone: Timezone) -> (r: Result<
    InteractionResponseData,
    CommandError,
>)
    ensures
        match timezone.timezone {
            TimezoneOption::Complete(_) => r matches Err(e) && e == CommandError::CompleteOption,
            TimezoneOption::Partial(partial) => match r {
                Ok(response) => {
                    &&& response.content.is_none()
                    &&& !response.ephemeral
                    &&& response.choices matches Some(choices)
                    &&& exists|found: Vec<String>| #[trigger]
                        suggested(partial@, Ok(found)) && offers(choices@, found@)
                },
                Err(e) => e matches CommandError::Index(inner) && suggested(partial@, Err(inner)),
            },
        },
{
    match _run_autocomplete(index, timezone) {
        Ok(suggestions) => {
            let ghost found = suggestions;
            let choices = choices_for(suggestions);
            assert(offers(choices@, found@));
            Ok(InteractionResponseData { content: None, ephemeral: false, choices: Some(choices) })
        },
        Err(e) => Err(e),
    }
}

/// The suggestions for a command that the user is still filling in: what
/// `suggest` gives for the text that is there.
fn _run_autocomplete(index: &TimezoneIndex, timezone: Timezone) -> (r: Result<Vec<String>, CommandError>)
    ensures
        match timezone.timezone {
            TimezoneOption::Complete(_) => r matches Err(e) && e == CommandError::CompleteOption,
            TimezoneOption::Partial(partial) => match r {
                Ok(suggestions) => suggested(partial@, Ok(suggestions)),
                Err(e) => e matches CommandError::Index(inner) && suggested(partial@, Err(inner)),
            },
        },
{
    let partial = match timezone.timezone {
        TimezoneOption::Partial(partial) => partial,
        TimezoneOption::Complete(_) => {
            return Err(CommandError::CompleteOption);
        },
    };
    match index.suggest(partial.as_str()) {
        Ok(suggestions) => Ok(suggestions),
        Err(e) => Err(CommandError::Index(e)),
    }
}

} // verus!
