use discord_interaction::discord_types::{
    Component, ComponentType, GuildMember, InteractionData, InteractionRequest, InteractionType,
    Message, User,
};
use discord_interaction::{
    ApplicationCommand, DecodeError, FieldValues, MessageComponent, ModalSubmit, SourceMessage,
};

fn leaf(id: Option<&str>, value: Option<&str>) -> Component {
    Component {
        kind: ComponentType::TextInput,
        label: None,
        style: None,
        custom_id: id.map(|s| s.to_string()),
        value: value.map(|s| s.to_string()),
        components: None,
    }
}

fn row(children: Option<Vec<Component>>) -> Component {
    Component {
        kind: ComponentType::ActionRow,
        label: None,
        style: None,
        custom_id: None,
        value: None,
        components: children,
    }
}

fn modal_submit(custom_id: Option<&str>, rows: Option<Vec<Component>>) -> InteractionRequest {
    InteractionRequest {
        kind: InteractionType::ModalSubmit,
        data: Some(InteractionData {
            name: None,
            custom_id: custom_id.map(|s| s.to_string()),
            components: rows,
        }),
        member: None,
        message: Some(Message { content: "source".to_string() }),
    }
}

fn command(name: Option<&str>, user: Option<&str>) -> InteractionRequest {
    InteractionRequest {
        kind: InteractionType::ApplicationCommand,
        data: Some(InteractionData {
            name: name.map(|s| s.to_string()),
            custom_id: None,
            components: None,
        }),
        member: user.map(|id| GuildMember { user: User { id: id.to_string() } }),
        message: None,
    }
}

fn press(custom_id: Option<&str>, content: Option<&str>) -> InteractionRequest {
    InteractionRequest {
        kind: InteractionType::MessageComponent,
        data: Some(InteractionData {
            name: None,
            custom_id: custom_id.map(|s| s.to_string()),
            components: None,
        }),
        member: None,
        message: content.map(|c| Message { content: c.to_string() }),
    }
}

#[test]
fn modal_submit_with_two_rows_gives_both_values() {
    let request = modal_submit(
        Some("my_modal"),
        Some(vec![
            row(Some(vec![leaf(Some("v1"), Some("a"))])),
            row(Some(vec![leaf(Some("v2"), Some("b"))])),
        ]),
    );
    let submit = ModalSubmit::from_request(&request).unwrap();
    assert_eq!(submit.id, "my_modal");
    assert_eq!(submit.values.get("v1"), Some(&"a".to_string()));
    assert_eq!(submit.values.get("v2"), Some(&"b".to_string()));
    assert_eq!(submit.values.get("v3"), None);
    assert_eq!(submit.values.get(""), None);
    assert_eq!(submit.source, SourceMessage { text: "source".to_string() });
}

#[test]
fn modal_submit_reads_the_first_child_of_a_row() {
    let request = modal_submit(
        Some("m"),
        Some(vec![row(Some(vec![leaf(Some("first"), Some("1")), leaf(Some("second"), Some("2"))]))]),
    );
    let submit = ModalSubmit::from_request(&request).unwrap();
    assert_eq!(submit.values.get("first"), Some(&"1".to_string()));
    assert_eq!(submit.values.get("second"), None);
}

#[test]
fn modal_submit_last_row_decides_a_repeated_id() {
    let request = modal_submit(
        Some("m"),
        Some(vec![
            row(Some(vec![leaf(Some("v"), Some("old"))])),
            row(Some(vec![leaf(Some("w"), Some("other"))])),
            row(Some(vec![leaf(Some("v"), Some("new"))])),
        ]),
    );
    let submit = ModalSubmit::from_request(&request).unwrap();
    assert_eq!(submit.values.get("v"), Some(&"new".to_string()));
    assert_eq!(submit.values.get("w"), Some(&"other".to_string()));
}

#[test]
fn modal_submit_without_rows_has_no_values() {
    let request = modal_submit(Some("m"), Some(vec![]));
    let submit = ModalSubmit::from_request(&request).unwrap();
    assert_eq!(submit.values.get("v1"), None);
}

#[test]
fn modal_submit_without_message_has_empty_source() {
    let mut request = modal_submit(Some("m"), Some(vec![]));
    request.message = None;
    let submit = ModalSubmit::from_request(&request).unwrap();
    assert_eq!(submit.source.text, "");
}

#[test]
fn modal_submit_missing_fields() {
    let mut no_data = modal_submit(Some("m"), Some(vec![]));
    no_data.data = None;
    assert_eq!(ModalSubmit::from_request(&no_data).err(), Some(DecodeError::MissingField));
    let no_id = modal_submit(None, Some(vec![]));
    assert_eq!(ModalSubmit::from_request(&no_id).err(), Some(DecodeError::MissingField));
    let no_rows = modal_submit(Some("m"), None);
    assert_eq!(ModalSubmit::from_request(&no_rows).err(), Some(DecodeError::MissingField));
    // A missing field is reported before a malformed row.
    let both = modal_submit(None, Some(vec![row(None)]));
    assert_eq!(ModalSubmit::from_request(&both).err(), Some(DecodeError::MissingField));
}

#[test]
fn modal_submit_malformed_rows() {
    let good = row(Some(vec![leaf(Some("v1"), Some("a"))]));
    let bad_rows = vec![
        row(None),
        row(Some(vec![])),
        row(Some(vec![leaf(Some("v2"), None)])),
        row(Some(vec![leaf(None, Some("b"))])),
        row(Some(vec![leaf(None, None), leaf(Some("v2"), Some("b"))])),
    ];
    for bad in bad_rows {
        let first = modal_submit(Some("m"), Some(vec![bad, row(Some(vec![leaf(Some("v1"), Some("a"))]))]));
        assert_eq!(
            ModalSubmit::from_request(&first).err(),
            Some(DecodeError::MalformedComponents)
        );
    }
    let last = modal_submit(Some("m"), Some(vec![good, row(Some(vec![]))]));
    assert_eq!(ModalSubmit::from_request(&last).err(), Some(DecodeError::MalformedComponents));
}

#[test]
fn application_command_reads_name_and_user() {
    let request = command(Some("hello"), Some("42"));
    assert_eq!(
        ApplicationCommand::from_request(&request),
        Ok(ApplicationCommand { command_name: "hello".to_string(), user_id: "42".to_string() })
    );
}

#[test]
fn application_command_missing_fields() {
    assert_eq!(
        ApplicationCommand::from_request(&command(None, Some("42"))),
        Err(DecodeError::MissingField)
    );
    assert_eq!(
        ApplicationCommand::from_request(&command(Some("hello"), None)),
        Err(DecodeError::MissingField)
    );
    let mut no_data = command(Some("hello"), Some("42"));
    no_data.data = None;
    assert_eq!(ApplicationCommand::from_request(&no_data), Err(DecodeError::MissingField));
}

#[test]
fn message_component_reads_id_and_source() {
    let request = press(Some("the_button"), Some("You've clicked the button 3 times."));
    assert_eq!(
        MessageComponent::from_request(&request),
        Ok(MessageComponent {
            id: "the_button".to_string(),
            source: SourceMessage { text: "You've clicked the button 3 times.".to_string() },
        })
    );
}

#[test]
fn message_component_without_message_has_empty_source() {
    let request = press(Some("the_button"), None);
    assert_eq!(
        MessageComponent::from_request(&request),
        Ok(MessageComponent {
            id: "the_button".to_string(),
            source: SourceMessage { text: String::new() },
        })
    );
    assert_eq!(SourceMessage::from_request(&request), SourceMessage { text: String::new() });
}

#[test]
fn message_component_missing_fields() {
    assert_eq!(
        MessageComponent::from_request(&press(None, Some("text"))),
        Err(DecodeError::MissingField)
    );
    let mut no_data = press(Some("id"), Some("text"));
    no_data.data = None;
    assert_eq!(MessageComponent::from_request(&no_data), Err(DecodeError::MissingField));
}

#[test]
fn field_values_insert_and_get() {
    let mut values = FieldValues::new();
    assert_eq!(values.get("a"), None);
    values.insert("a".to_string(), "1".to_string());
    values.insert("b".to_string(), "2".to_string());
    assert_eq!(values.get("a"), Some(&"1".to_string()));
    assert_eq!(values.get("b"), Some(&"2".to_string()));
    assert_eq!(values.get("c"), None);
    values.insert("a".to_string(), "3".to_string());
    assert_eq!(values.get("a"), Some(&"3".to_string()));
    assert_eq!(values.get("b"), Some(&"2".to_string()));
    values.insert("".to_string(), "empty".to_string());
    assert_eq!(values.get(""), Some(&"empty".to_string()));
    assert_eq!(values.get("A"), None);
}
