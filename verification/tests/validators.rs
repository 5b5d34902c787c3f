use khronos_runtime::validators::{
    validate_command, validate_components, validate_embed, validate_message, validate_name_option_chatinput,
    validate_string_offensive, validate_string_safe, name_check_outcome, ActionRow, ActionRowComponent,
    CommandType, ComponentType, CreateCommand, CreateEmbed, CreateMessage, EmbedField, TextPart, ValidationError,
};

#[test]
fn test_validate_name_option_chatinput() {
    assert!(validate_name_option_chatinput("valid_name").is_ok());
    assert!(validate_name_option_chatinput("valid-name").is_ok());
    assert!(validate_name_option_chatinput("valid_name123").is_ok());
    assert!(validate_name_option_chatinput("valid'name").is_ok());
    assert!(validate_name_option_chatinput("valid'name_123").is_ok());
    assert!(validate_name_option_chatinput("valid-name_123").is_ok());

    assert!(validate_name_option_chatinput("invalid name").is_err());
    assert!(validate_name_option_chatinput("invalid@name").is_err());
    assert!(validate_name_option_chatinput(
        "too_long_name_that_exceeds_the_limit_of_thirty_two_characters"
    )
    .is_err());
}

#[test]
fn name_outcome_follows_the_match() {
    assert!(name_check_outcome("abc", Some(true)).is_ok());
    assert!(matches!(name_check_outcome("a b", Some(false)), Err(ValidationError::InvalidName(n)) if n == "a b"));
    assert!(matches!(name_check_outcome("x", None), Err(ValidationError::NamePatternUnavailable)));
}

fn embed() -> CreateEmbed {
    CreateEmbed { title: None, description: None, footer: None, author: None, fields: vec![] }
}

#[test]
fn embed_counts_characters_of_checked_texts() {
    let mut e = embed();
    e.title = Some("Hello".to_string());
    e.description = Some("é".to_string());
    e.fields.push(EmbedField { name: "n".to_string(), value: "vv".to_string() });
    assert_eq!(validate_embed(&e).unwrap(), 5 + 1 + 1 + 2);
    let mut e = embed();
    e.title = Some("é".to_string());
    assert_eq!(validate_embed(&e).unwrap(), 1);
    let mut e = embed();
    e.title = Some("é".repeat(128));
    assert_eq!(validate_embed(&e).unwrap(), 128);
    e.title = Some("é".repeat(129));
    assert!(matches!(validate_embed(&e), Err(ValidationError::TooLong(TextPart::EmbedTitle))));
}

#[test]
fn embed_refuses_empty_and_long_texts() {
    let mut e = embed();
    e.title = Some(String::new());
    assert!(matches!(validate_embed(&e), Err(ValidationError::Empty(TextPart::EmbedTitle))));
    let mut e = embed();
    e.title = Some("t".repeat(257));
    assert!(matches!(validate_embed(&e), Err(ValidationError::TooLong(TextPart::EmbedTitle))));
    let mut e = embed();
    e.title = Some("t".repeat(256));
    assert_eq!(validate_embed(&e).unwrap(), 256);
}

#[test]
fn safe_and_offensive_checks_use_the_safe_word_test() {
    let allow = |_: &str| true;
    let deny = |_: &str| false;
    assert!(validate_string_safe("anything", &allow).is_ok());
    assert!(matches!(validate_string_safe("bad", &deny), Err(ValidationError::Disallowed(s)) if s == "bad"));
    assert!(validate_string_offensive("hello there", &deny).is_ok());
}

#[test]
fn components_limits() {
    let allow = |_: &str| true;
    let button = || ActionRowComponent::Button { label: Some("ok".to_string()) };
    let row = ActionRow { kind: ComponentType::ActionRow, components: vec![button(), button()] };
    assert!(validate_components(&vec![row], &allow).is_ok());

    let six = ActionRow { kind: ComponentType::ActionRow, components: (0..6).map(|_| button()).collect() };
    assert!(matches!(validate_components(&vec![six], &allow), Err(ValidationError::TooManyButtons)));

    let mixed = ActionRow {
        kind: ComponentType::ActionRow,
        components: vec![button(), ActionRowComponent::SelectMenu { placeholder: None, option_labels: vec![] }],
    };
    assert!(matches!(validate_components(&vec![mixed], &allow), Err(ValidationError::ButtonsAndSelectMenu)));

    let not_row = ActionRow { kind: ComponentType::Button, components: vec![] };
    assert!(matches!(validate_components(&vec![not_row], &allow), Err(ValidationError::NotAnActionRow)));

    let rows: Vec<ActionRow> = (0..6).map(|_| ActionRow { kind: ComponentType::ActionRow, components: vec![] }).collect();
    assert!(matches!(validate_components(&rows, &allow), Err(ValidationError::TooManyComponents)));
}

#[test]
fn message_needs_a_payload() {
    let allow = |_: &str| true;
    let empty = CreateMessage { content: None, embeds: vec![], attachments: None, poll: None, sticker_ids: vec![], components: None };
    assert!(matches!(validate_message(&empty, &allow), Err(ValidationError::NoContent)));
    let hello = CreateMessage { content: Some("hello".to_string()), ..empty };
    assert!(validate_message(&hello, &allow).is_ok());
}

#[test]
fn command_name_is_checked_for_chat_input() {
    let allow = |_: &str| true;
    let cmd = |name: &str| CreateCommand {
        kind: Some(CommandType::ChatInput),
        name: Some(name.to_string()),
        name_localizations: vec![],
        description: Some("does things".to_string()),
        description_localizations: vec![],
        options: vec![],
    };
    assert!(validate_command(&cmd("ping"), &allow).is_ok());
    assert!(validate_command(&cmd("not valid"), &allow).is_err());
}

#[test]
fn validation_messages() {
    assert_eq!(ValidationError::Empty(TextPart::EmbedTitle).message(), "Embed title cannot be empty");
    assert_eq!(ValidationError::TooLong(TextPart::MessageContent).message(), "Message content is too long, limit is 2000");
    assert_eq!(ValidationError::TooLong(TextPart::EmbedFieldValue).message(), "Embed field value is too long, limit is 1024");
    assert_eq!(ValidationError::Disallowed("a\"b".to_string()).message(), "Input contains disallowed words: \"a\\\"b\"");
    assert_eq!(ValidationError::InvalidName("x y".to_string()).message(), "Name 'x y' does not match Discord's regex for CHAT_INPUT commands");
    let offensive = ValidationError::Offensive("hi".to_string()).message();
    assert!(offensive.starts_with("Input contains offensive words: \"hi\" "));
    assert!(offensive.ends_with("safe") || offensive.ends_with("no detections"));
    assert_eq!(ValidationError::NoContent.message(), "No content/embeds/attachments/poll/sticker_ids/components set");
}
