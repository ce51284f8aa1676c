//! An example bot. `/hello` greets the user with three buttons under the
//! greeting: one spawns an ephemeral message, one edits the message it is
//! attached to, one opens a modal with two text fields.

use crate::field_values::same_text;
use crate::handler::{outcome_view, InteractionHandler};
use crate::user_types::{
    ApplicationCommand, ApplicationCommandView, ButtonView, Message, MessageComponent,
    MessageComponentView, MessageView, Modal, ModalSubmit, ModalSubmitView, ModalView, Response,
    ResponseView, TextFieldView,
};
use vstd::prelude::*;
use vstd::string::StringExecFns;

verus! {

/// The example bot.
pub struct DemoHandler;

/// The greeting of a user: a mention of the user by id.
pub open spec fn greeting(user_id: Seq<char>) -> Seq<char> {
    "Hello <@"@ + user_id + ">!"@
}

/// Writes the greeting of a user.
pub fn greeting_text(user_id: &str) -> (text: String)
    ensures
        text@ == greeting(user_id@),
{
    let mut text = "Hello <@".to_owned();
    text.append(user_id);
    text.append(">!");
    text
}

/// The modal that the example bots open: two text fields.
pub open spec fn input_modal_view() -> ModalView {
    ModalView {
        id: "my_modal"@,
        title: "Provide input values."@,
        fields: seq![
            TextFieldView { id: "v1"@, label: "A value"@ },
            TextFieldView { id: "v2"@, label: "Another value"@ },
        ],
    }
}

/// Builds the modal that the example bots open.
pub fn input_modal() -> (modal: Modal)
    ensures
        modal@ == input_modal_view(),
{
    let modal = Modal::new().id("my_modal").title("Provide input values.").field(
        "v1",
        "A value",
    ).field("v2", "Another value");
    assert(modal@.fields =~= input_modal_view().fields);
    modal
}

/// The three buttons that the bot puts under its greeting.
pub open spec fn demo_buttons() -> Seq<ButtonView> {
    seq![
        ButtonView { id: "new_ephemeral"@, text: "spawn quiet message"@ },
        ButtonView { id: "edit"@, text: "change this message"@ },
        ButtonView { id: "modal"@, text: "try a modal"@ },
    ]
}

/// What the bot answers to an application command: to `hello` a greeting of
/// the user with the three buttons, to any other command nothing.
pub open spec fn command_reply(command: ApplicationCommandView) -> Option<ResponseView> {
    if command.command_name == "hello"@ {
        Some(
            ResponseView::Message(
                MessageView {
                    text: greeting(command.user_id),
                    buttons: demo_buttons(),
                    ephemeral: false,
                    edit: false,
                },
            ),
        )
    } else {
        None
    }
}

/// What the bot answers to a button: an ephemeral message, an edit of the
/// message, or the modal; to any other component nothing.
pub open spec fn component_reply(component: MessageComponentView) -> Option<ResponseView> {
    if component.id == "new_ephemeral"@ {
        Some(
            ResponseView::Message(
                MessageView {
                    text: "You've spawned a new ephemeral message!"@,
                    buttons: Seq::empty(),
                    ephemeral: true,
                    edit: false,
                },
            ),
        )
    } else if component.id == "edit"@ {
        Some(
            ResponseView::Message(
                MessageView {
                    text: "You edited the existing message."@,
                    buttons: Seq::empty(),
                    ephemeral: false,
                    edit: true,
                },
            ),
        )
    } else if component.id == "modal"@ {
        Some(ResponseView::Modal(input_modal_view()))
    } else {
        None
    }
}

/// What the bot answers to a submitted modal: where it is the bot's modal
/// and holds both values, a message that states them; to any other
/// submission nothing.
pub open spec fn submit_reply(submit: ModalSubmitView) -> Option<ResponseView> {
    if submit.id == "my_modal"@ && submit.values.contains_key("v1"@) && submit.values.contains_key(
        "v2"@,
    ) {
        Some(
            ResponseView::Message(
                MessageView {
                    text: "You entered the values `"@ + submit.values["v1"@] + "` and `"@
                        + submit.values["v2"@] + "`."@,
                    buttons: Seq::empty(),
                    ephemeral: false,
                    edit: false,
                },
            ),
        )
    } else {
        None
    }
}

impl InteractionHandler for DemoHandler {
    fn handle_application_command(ac: ApplicationCommand) -> (outcome: Option<Response>)
        ensures
            outcome_view(outcome) == command_reply(ac@),
    {
        if same_text(ac.command_name.as_str(), "hello") {
            let text = greeting_text(ac.user_id.as_str());
            let message = Message::new().text(text.as_str()).button(
                "new_ephemeral",
                "spawn quiet message",
            ).button("edit", "change this message").button("modal", "try a modal");
            assert(message@.buttons =~= demo_buttons());
            Some(Response::Message(message))
        } else {
            None
        }
    }

    fn handle_message_component(mc: MessageComponent) -> (outcome: Option<Response>)
        ensures
            outcome_view(outcome) == component_reply(mc@),
    {
        if same_text(mc.id.as_str(), "new_ephemeral") {
            Some(
                Response::Message(
                    Message::new().text("You've spawned a new ephemeral message!").ephemeral(),
                ),
            )
        } else if same_text(mc.id.as_str(), "edit") {
            Some(Response::Message(Message::new().text("You edited the existing message.").edit()))
        } else if same_text(mc.id.as_str(), "modal") {
            Some(Response::Modal(input_modal()))
        } else {
            None
        }
    }

    fn handle_modal_submit(ms: ModalSubmit) -> (outcome: Option<Response>)
        ensures
            outcome_view(outcome) == submit_reply(ms@),
    {
        if !same_text(ms.id.as_str(), "my_modal") {
            return None;
        }
        let v1 = match ms.values.get("v1") {
            Some(value) => value,
            None => {
                return None;
            },
        };
        let v2 = match ms.values.get("v2") {
            Some(value) => value,
            None => {
                return None;
            },
        };
        let mut text = "You entered the values `".to_owned();
        text.append(v1.as_str());
        text.append("` and `");
        text.append(v2.as_str());
        text.append("`.");
        Some(Response::Message(Message::new().text(text.as_str())))
    }
}

} // verus!
