use timezoner::commands::set_timezone;
use timezoner::interaction::timezone::{choices_for, run, run_autocomplete, Timezone, TimezoneOption};
use timezoner::interaction::{
    AutocompleteDataOption, CommandDataOption, CommandError, CommandOptionValue, CommandType,
};
use timezoner::search::TimezoneIndex;
use tantivy::schema::{Document, Schema, STORED, TEXT};
use tantivy::Index;

const STORED_REPLY: &str = "tada! now you can use the `/time` command ^^";
const NOT_FOUND_REPLY: &str = "i couldn't find that timezone :( you can use this website to copy-paste instead:\nhttps://kevinnovak.github.io/Time-Zone-Picker";
const OLDER_NOT_FOUND_REPLY: &str =
    "i couldn't find that timezone >.< if you're sure it's right see my profile to report please";

fn text(value: &str) -> CommandDataOption {
    CommandDataOption { name: "timezone".to_string(), value: CommandOptionValue::String(value.to_string()) }
}

fn other() -> CommandDataOption {
    CommandDataOption { name: "timezone".to_string(), value: CommandOptionValue::Other }
}

fn typed(value: Option<&str>) -> AutocompleteDataOption {
    AutocompleteDataOption { name: "timezone".to_string(), value: value.map(|v| v.to_string()) }
}

fn words() -> TimezoneIndex {
    let mut builder = Schema::builder();
    let display = builder.add_text_field("display", TEXT | STORED);
    let index = Index::create_in_ram(builder.build());
    let mut writer = index.writer_with_num_threads(1, 10_000_000).unwrap();
    for name in ["Tokyo", "Berlin", "JP", "Tok\"yo"] {
        let mut document = Document::new();
        document.add_text(display, name);
        writer.add_document(document).unwrap();
    }
    writer.commit().unwrap();
    TimezoneIndex::new(index.reader().unwrap())
}

#[test]
fn the_command_is_registered_with_autocomplete() {
    let command = Timezone::build();
    assert_eq!(command.name, "set_timezone");
    assert_eq!(command.description, "set your time zone so that you can actually use me");
    assert_eq!(command.kind, CommandType::ChatInput);
    assert_eq!(command.options.len(), 1);
    assert_eq!(command.options[0].name, "timezone");
    assert_eq!(command.options[0].description, "try typing your city, country or its capital");
    assert!(command.options[0].required);
    assert!(command.options[0].autocomplete);
}

#[test]
fn the_older_command_is_registered_without_autocomplete() {
    let command = set_timezone::build();
    assert_eq!(command.name, "set_timezone");
    assert_eq!(command.description, "set your time zone so that you can actually use the `/time` command");
    assert_eq!(command.kind, CommandType::ChatInput);
    assert_eq!(command.options.len(), 1);
    assert_eq!(command.options[0].name, "timezone");
    assert_eq!(
        command.options[0].description,
        "see my profile to learn what to put here.. sorry for the inconvenience >.<"
    );
    assert!(command.options[0].required);
    assert!(!command.options[0].autocomplete);
}

#[test]
fn a_submitted_command_is_read_from_its_last_option() {
    let command = Timezone::try_from(vec![text("Europe/Berlin"), text("Asia/Tokyo")]).ok().unwrap();
    assert!(matches!(command.timezone, TimezoneOption::Complete(ref tz) if tz == "Asia/Tokyo"));
}

#[test]
fn a_submitted_command_needs_a_text_option() {
    assert_eq!(Timezone::try_from(Vec::<CommandDataOption>::new()).err(), Some(CommandError::NoOptions));
    assert_eq!(Timezone::try_from(vec![other()]).err(), Some(CommandError::NotString));
    assert_eq!(Timezone::try_from(vec![text("Asia/Tokyo"), other()]).err(), Some(CommandError::NotString));
}

#[test]
fn a_command_in_progress_is_read_from_its_last_option() {
    let command = Timezone::from(vec![typed(Some("Ber")), typed(Some("Tok"))]);
    assert!(matches!(command.timezone, TimezoneOption::Partial(ref tz) if tz == "Tok"));
    let command = Timezone::from(vec![typed(None)]);
    assert!(matches!(command.timezone, TimezoneOption::Partial(ref tz) if tz.is_empty()));
    let command = Timezone::from(Vec::<AutocompleteDataOption>::new());
    assert!(matches!(command.timezone, TimezoneOption::Partial(ref tz) if tz.is_empty()));
}

#[test]
fn run_stores_a_timezone_of_the_catalog() {
    let (write, response) = run(&words(), 42, vec![text("Asia/Tokyo")]).ok().unwrap();
    let write = write.unwrap();
    assert_eq!(write.user_id, 42);
    assert_eq!(write.timezone.as_str(), "Asia/Tokyo");
    assert_eq!(response.content.as_deref(), Some(STORED_REPLY));
    assert!(response.ephemeral);
    assert!(response.choices.is_none());
}

#[test]
fn run_answers_an_unknown_timezone_and_writes_nothing() {
    let (write, response) = run(&words(), 42, vec![text("Narnia")]).ok().unwrap();
    assert!(write.is_none());
    assert_eq!(response.content.as_deref(), Some(NOT_FOUND_REPLY));
    assert!(response.ephemeral);
    assert!(response.choices.is_none());
}

#[test]
fn run_reports_a_value_that_the_index_offers_and_the_catalog_lacks() {
    assert_eq!(run(&words(), 42, vec![text("Tokyo")]).err(), Some(CommandError::DataInconsistency));
    assert_eq!(run(&words(), 42, vec![text("Berlin")]).err(), Some(CommandError::DataInconsistency));
    assert_eq!(run(&words(), 42, vec![text("JP")]).err(), Some(CommandError::DataInconsistency));
    assert_eq!(run(&words(), 42, vec![text("Tok\"yo")]).err(), Some(CommandError::DataInconsistency));
}

#[test]
fn run_takes_text_that_only_resembles_an_offered_value_for_a_mistake() {
    for typed in ["tokyo", "Tokyo Berlin", "To", "Tokio"] {
        let (write, response) = run(&words(), 42, vec![text(typed)]).ok().unwrap();
        assert!(write.is_none());
        assert_eq!(response.content.as_deref(), Some(NOT_FOUND_REPLY));
    }
}

#[test]
fn run_takes_text_for_a_mistake_where_the_index_is_empty() {
    let broken = TimezoneIndex::new(Index::create_in_ram(Schema::builder().build()).reader().unwrap());
    let (write, response) = run(&broken, 42, vec![text("Tokyo")]).ok().unwrap();
    assert!(write.is_none());
    assert_eq!(response.content.as_deref(), Some(NOT_FOUND_REPLY));
    let (write, _) = run(&broken, 42, vec![text("Asia/Tokyo")]).ok().unwrap();
    assert_eq!(write.unwrap().timezone.as_str(), "Asia/Tokyo");
}

#[test]
fn run_fails_on_a_command_it_cannot_read() {
    assert_eq!(run(&words(), 42, vec![]).err(), Some(CommandError::NoOptions));
    assert_eq!(run(&words(), 42, vec![other()]).err(), Some(CommandError::NotString));
}

#[test]
fn choices_stand_for_themselves() {
    let choices = choices_for(vec!["Tokyo".to_string(), "Berlin".to_string(), "Tokyo".to_string()]);
    let pairs: Vec<(&str, &str)> = choices.iter().map(|c| (c.name.as_str(), c.value.as_str())).collect();
    assert_eq!(pairs, vec![("Tokyo", "Tokyo"), ("Berlin", "Berlin"), ("Tokyo", "Tokyo")]);
    assert!(choices_for(vec![]).is_empty());
}

#[test]
fn run_autocomplete_offers_the_suggestions_as_choices() {
    let response = run_autocomplete(&words(), Timezone::from(vec![typed(Some("tokyo"))])).ok().unwrap();
    assert!(response.content.is_none());
    assert!(!response.ephemeral);
    let choices = response.choices.unwrap();
    assert_eq!(choices.len(), 1);
    assert_eq!(choices[0].name, "Tokyo");
    assert_eq!(choices[0].value, "Tokyo");
}

#[test]
fn run_autocomplete_offers_nothing_for_short_input() {
    let response = run_autocomplete(&words(), Timezone::from(vec![typed(Some("to"))])).ok().unwrap();
    assert_eq!(response.choices.map(|c| c.len()), Some(0));
    let response = run_autocomplete(&words(), Timezone::from(Vec::<AutocompleteDataOption>::new())).ok().unwrap();
    assert_eq!(response.choices.map(|c| c.len()), Some(0));
}

#[test]
fn run_autocomplete_refuses_a_submitted_command() {
    let command = Timezone::try_from(vec![text("Asia/Tokyo")]).ok().unwrap();
    assert_eq!(run_autocomplete(&words(), command).err(), Some(CommandError::CompleteOption));
}

#[test]
fn run_refuses_a_command_in_progress() {
    let command = Timezone { timezone: TimezoneOption::Partial("Tok".to_string()) };
    assert!(matches!(command.timezone, TimezoneOption::Partial(_)));
    let complete = Timezone { timezone: TimezoneOption::Complete("Asia/Tokyo".to_string()) };
    assert!(matches!(complete.timezone, TimezoneOption::Complete(_)));
}

#[test]
fn the_older_command_stores_a_timezone_of_the_catalog() {
    let answer = set_timezone::run(42, vec![text("Asia/Tokyo"), other()]).ok().unwrap();
    let write = answer.write.unwrap();
    assert_eq!(write.user_id, 42);
    assert_eq!(write.timezone.as_str(), "Asia/Tokyo");
    assert_eq!(answer.reply, STORED_REPLY);
}

#[test]
fn the_older_command_answers_an_unknown_timezone_and_writes_nothing() {
    let answer = set_timezone::run(42, vec![text("Tokyo")]).ok().unwrap();
    assert!(answer.write.is_none());
    assert_eq!(answer.reply, OLDER_NOT_FOUND_REPLY);
}

#[test]
fn the_older_command_needs_text() {
    assert_eq!(set_timezone::run(42, vec![other(), text("Asia/Tokyo")]).err(), Some(CommandError::NotString));
}
