use discord_interaction::discord_types::{
    Component, ComponentType, GuildMember, InteractionData, InteractionRequest,
    InteractionCallbackType, InteractionResponse, InteractionType, Message as WireMessage, User,
};
use discord_interaction::{
    conclude, decode, dispatch, handle_interaction, ApplicationCommand, DecodeError,
    InteractionError, InteractionHandler, Message, MessageComponent, Modal, ModalSubmit, Request,
    Response, SourceMessage,
};

struct Echo;

impl InteractionHandler for Echo {
    fn handle_application_command(ac: ApplicationCommand) -> Option<Response> {
        Some(Response::Message(
            Message::new().text(&format!("{} by {}", ac.command_name, ac.user_id)),
        ))
    }

    fn handle_message_component(mc: MessageComponent) -> Option<Response> {
        if mc.id == "modal" {
            Some(Response::Modal(Modal::new().id("my_modal").field("v1", "A value")))
        } else {
            Some(Response::Message(
                Message::new().text(&format!("{} on {}", mc.id, mc.source.text)).edit(),
            ))
        }
    }

    fn handle_modal_submit(ms: ModalSubmit) -> Option<Response> {
        if ms.id == "again" {
            Some(Response::Modal(Modal::new().id("another")))
        } else {
            let v1 = ms.values.get("v1").unwrap();
            Some(Response::Message(Message::new().text(&format!("{}: {}", ms.id, v1))))
        }
    }
}

struct Silent;

impl InteractionHandler for Silent {}

struct Faulty;

impl InteractionHandler for Faulty {
    fn handle_application_command(_ac: ApplicationCommand) -> Option<Response> {
        panic!("never asked")
    }

    fn handle_message_component(_mc: MessageComponent) -> Option<Response> {
        panic!("never asked")
    }

    fn handle_modal_submit(_ms: ModalSubmit) -> Option<Response> {
        panic!("never asked")
    }
}

fn request(kind: InteractionType) -> InteractionRequest {
    InteractionRequest {
        kind,
        data: Some(InteractionData {
            name: Some("hello".to_string()),
            custom_id: Some("the_button".to_string()),
            components: Some(vec![Component {
                kind: ComponentType::ActionRow,
                label: None,
                style: None,
                custom_id: None,
                value: None,
                components: Some(vec![Component {
                    kind: ComponentType::TextInput,
                    label: None,
                    style: None,
                    custom_id: Some("v1".to_string()),
                    value: Some("typed".to_string()),
                    components: None,
                }]),
            }]),
        }),
        member: Some(GuildMember { user: User { id: "42".to_string() } }),
        message: Some(WireMessage { content: "before".to_string() }),
    }
}

fn pong() -> InteractionResponse {
    InteractionResponse { kind: InteractionCallbackType::Pong, data: None }
}

#[test]
fn ping_is_answered_with_pong() {
    let bare = InteractionRequest {
        kind: InteractionType::Ping,
        data: None,
        member: None,
        message: None,
    };
    assert_eq!(handle_interaction::<Echo>(&bare), Ok(pong()));
    assert_eq!(handle_interaction::<Silent>(&bare), Ok(pong()));
    assert_eq!(handle_interaction::<Faulty>(&bare), Ok(pong()));
    assert_eq!(handle_interaction::<Faulty>(&request(InteractionType::Ping)), Ok(pong()));
}

#[test]
fn application_command_is_dispatched() {
    let reply = handle_interaction::<Echo>(&request(InteractionType::ApplicationCommand));
    assert_eq!(reply, Ok(Message::new().text("hello by 42").into_response()));
}

#[test]
fn message_component_is_dispatched() {
    let reply = handle_interaction::<Echo>(&request(InteractionType::MessageComponent));
    assert_eq!(reply, Ok(Message::new().text("the_button on before").edit().into_response()));
}

#[test]
fn message_component_may_open_a_modal() {
    let mut press = request(InteractionType::MessageComponent);
    press.data.as_mut().unwrap().custom_id = Some("modal".to_string());
    let reply = handle_interaction::<Echo>(&press);
    assert_eq!(reply, Ok(Modal::new().id("my_modal").field("v1", "A value").into_response()));
    assert_eq!(reply.unwrap().kind, InteractionCallbackType::Modal);
}

#[test]
fn modal_submit_is_dispatched() {
    let reply = handle_interaction::<Echo>(&request(InteractionType::ModalSubmit));
    assert_eq!(reply, Ok(Message::new().text("the_button: typed").into_response()));
}

#[test]
fn modal_after_modal_submit_is_an_invalid_transition() {
    let mut submit = request(InteractionType::ModalSubmit);
    submit.data.as_mut().unwrap().custom_id = Some("again".to_string());
    assert_eq!(
        handle_interaction::<Echo>(&submit),
        Err(InteractionError::InvalidResponseTransition)
    );
}

#[test]
fn operations_left_out_are_unhandled() {
    for kind in [
        InteractionType::ApplicationCommand,
        InteractionType::MessageComponent,
        InteractionType::ModalSubmit,
    ] {
        assert_eq!(handle_interaction::<Silent>(&request(kind)), Err(InteractionError::Unhandled));
    }
}

#[test]
fn request_that_cannot_be_translated_asks_no_handler() {
    for kind in [
        InteractionType::ApplicationCommand,
        InteractionType::MessageComponent,
        InteractionType::ModalSubmit,
    ] {
        let mut broken = request(kind);
        broken.data = None;
        assert_eq!(
            handle_interaction::<Faulty>(&broken),
            Err(InteractionError::Decode(DecodeError::MissingField))
        );
    }
    let mut malformed = request(InteractionType::ModalSubmit);
    malformed.data.as_mut().unwrap().components.as_mut().unwrap()[0].components = Some(vec![]);
    assert_eq!(
        handle_interaction::<Faulty>(&malformed),
        Err(InteractionError::Decode(DecodeError::MalformedComponents))
    );
}

#[test]
fn conclude_follows_the_outcome() {
    assert_eq!(conclude(InteractionType::ApplicationCommand, None), Err(InteractionError::Unhandled));
    assert_eq!(conclude(InteractionType::ModalSubmit, None), Err(InteractionError::Unhandled));
    assert_eq!(
        conclude(InteractionType::ModalSubmit, Some(Response::Modal(Modal::new()))),
        Err(InteractionError::InvalidResponseTransition)
    );
    assert_eq!(
        conclude(InteractionType::MessageComponent, Some(Response::Modal(Modal::new()))),
        Ok(Modal::new().into_response())
    );
    assert_eq!(
        conclude(
            InteractionType::ModalSubmit,
            Some(Response::Message(Message::new().text("done").ephemeral()))
        ),
        Ok(Message::new().text("done").ephemeral().into_response())
    );
}

#[test]
fn decode_reads_a_request_by_its_kind() {
    assert!(matches!(decode(&request(InteractionType::Ping)), Ok(None)));
    match decode(&request(InteractionType::ApplicationCommand)) {
        Ok(Some(Request::ApplicationCommand(command))) => {
            assert_eq!(command.command_name, "hello");
            assert_eq!(command.user_id, "42");
        }
        other => panic!("{:?}", other),
    }
    match decode(&request(InteractionType::MessageComponent)) {
        Ok(Some(Request::MessageComponent(component))) => {
            assert_eq!(component.id, "the_button");
            assert_eq!(component.source, SourceMessage { text: "before".to_string() });
        }
        other => panic!("{:?}", other),
    }
    match decode(&request(InteractionType::ModalSubmit)) {
        Ok(Some(Request::ModalSubmit(submit))) => {
            assert_eq!(submit.id, "the_button");
            assert_eq!(submit.values.get("v1"), Some(&"typed".to_string()));
            assert_eq!(submit.source.text, "before");
        }
        other => panic!("{:?}", other),
    }
}

#[test]
fn decode_reports_what_is_missing() {
    for kind in [
        InteractionType::ApplicationCommand,
        InteractionType::MessageComponent,
        InteractionType::ModalSubmit,
    ] {
        let mut broken = request(kind);
        broken.data = None;
        assert!(matches!(decode(&broken), Err(DecodeError::MissingField)));
    }
    let mut bare_ping = request(InteractionType::Ping);
    bare_ping.data = None;
    assert!(matches!(decode(&bare_ping), Ok(None)));
}

#[test]
fn request_kinds() {
    for kind in [
        InteractionType::ApplicationCommand,
        InteractionType::MessageComponent,
        InteractionType::ModalSubmit,
    ] {
        let read = decode(&request(kind)).unwrap().unwrap();
        assert_eq!(read.kind(), kind);
    }
}

#[test]
fn dispatch_asks_the_operation_for_the_kind() {
    let command = decode(&request(InteractionType::ApplicationCommand)).unwrap().unwrap();
    assert_eq!(dispatch::<Echo>(command), Ok(Message::new().text("hello by 42").into_response()));
    let submit = decode(&request(InteractionType::ModalSubmit)).unwrap().unwrap();
    assert_eq!(dispatch::<Silent>(submit), Err(InteractionError::Unhandled));
    let mut again = request(InteractionType::ModalSubmit);
    again.data.as_mut().unwrap().custom_id = Some("again".to_string());
    let submit = decode(&again).unwrap().unwrap();
    assert_eq!(dispatch::<Echo>(submit), Err(InteractionError::InvalidResponseTransition));
}
