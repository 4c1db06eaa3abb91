//! The command that sets the user's timezone from text that the user typed, with
//! no suggestions to choose from: the text is a timezone of the catalog, found by
//! going through the catalog, or a mistake that the answer points out.

use vstd::prelude::*;
use crate::catalog::{catalog_names, is_catalog_name, TimezoneIdentifier};
use crate::interaction::{
    Answer, Command, CommandDataOption, CommandError, CommandOptionValue, CommandType, StringOption,
    WriteRequest,
};

verus! {

/// The answer to a command that stored the user's timezone.
pub open spec fn stored_reply() -> Seq<char> {
    "tada! now you can use the `/time` command ^^"@
}

/// The answer to text that is no timezone of the catalog.
pub open spec fn not_found_reply() -> Seq<char> {
    "i couldn't find that timezone >.< if you're sure it's right see my profile to report please"@
}

/// What the command decides for a user and typed text: a timezone of the
/// catalog is stored and confirmed; anything else is answered as not found, and
/// nothing is written.
pub open spec fn decides(user_id: u64, raw: Seq<char>, answer: Answer) -> bool {
    if is_catalog_name(raw) {
        &&& answer.write matches Some(request)
        &&& request.user_id == user_id
        &&& request.timezone@ == raw
        &&& answer.reply@ == stored_reply()
    } else {
        &&& answer.write.is_none()
        &&& answer.reply@ == not_found_reply()
    }
}

/// Runs the command for a user. The value is the first option, which must be
/// text.
pub fn run(user_id: u64, options: Vec<CommandDataOption>) -> (r: Result<Answer, CommandError>)
    requires
        options@.len() > 0,
    ensures
        match options@[0].value {
            CommandOptionValue::String(raw) => r matches Ok(answer) && decides(user_id, raw@, answer),
            CommandOptionValue::Other => r matches Err(e) && e == CommandError::NotString,
        },
{
    let found = match &options[0].value {
        CommandOptionValue::String(name) => get_timezone(name.as_str()),
        CommandOptionValue::Other => {
            return Err(CommandError::NotString);
        },
    };
    match found {
        Some(timezone) => Ok(
            Answer {
                write: Some(WriteRequest { user_id, timezone }),
                reply: "tada! now you can use the `/time` command ^^".to_owned(),
            },
        ),
        None => Ok(
            Answer {
                write: None,
                reply: "i couldn't find that timezone >.< if you're sure it's right see my profile to report please".to_owned(),
            },
        ),
    }
}

/// Finds the timezone of a name by going through the whole catalog.
pub fn get_timezone(name: &str) -> (r: Option<TimezoneIdentifier>)
    ensures
        match r {
            Some(id) => is_catalog_name(name@) && id@ == name@,
            None => !is_catalog_name(name@),
        },
{
    let names = catalog_names();
    let wanted = name.to_owned();
    let mut i: usize = 0;
    while i < names.len()
        invariant
            i <= names.len(),
            wanted@ == name@,
            forall|j: int| 0 <= j < i ==> names@[j]@ != name@,
            forall|j: int| 0 <= j < names@.len() ==> is_catalog_name(#[trigger] names@[j]@),
        decreases names.len() - i,
    {
        if names[i] == wanted {
            return Some(TimezoneIdentifier::listed(wanted));
        }
        i += 1;
    }
    None
}

/// The description under which the command is registered.
pub fn build() -> (command: Command)
    ensures
        command.name@ == "set_timezone"@,
        command.description@ == "set your time zone so that you can actually use the `/time` command"@,
        command.kind == CommandType::ChatInput,
        command.options@.len() == 1,
        command.options@[0].name@ == "timezone"@,
        command.options@[0].description@
            == "see my profile to learn what to put here.. sorry for the inconvenience >.<"@,
        command.options@[0].required,
        !command.options@[0].autocomplete,
{
    let option = StringOption {
        name: "timezone".to_owned(),
        description: "see my profile to learn what to put here.. sorry for the inconvenience >.<".to_owned(),
        required: true,
        autocomplete: false,
    };
    let mut options: Vec<StringOption> = Vec::new();
    options.push(option);
    Command {
        name: "set_timezone".to_owned(),
        description: "set your time zone so that you can actually use the `/time` command".to_owned(),
        kind: CommandType::ChatInput,
        options,
    }
}

} // verus!
