//! An example bot with state. `/hello` greets the user with three buttons
//! under the greeting: one counts its clicks in the message it is attached
//! to, one opens a modal with two text fields, one spawns an ephemeral
//! message.

use crate::button_clicks::{
    clicks_at, clicks_sentence, clicks_text, get_button_clicks, regex_find, CLICKS_PATTERN,
};
use crate::demo::{greeting, greeting_text, input_modal, input_modal_view};
use crate::field_values::same_text;
use crate::handler::{outcome_view, InteractionHandler};
use crate::user_types::{
    ApplicationCommand, ApplicationCommandView, ButtonView, Message, MessageComponent,
    MessageComponentView, MessageView, ModalSubmit, ModalSubmitView, Response, ResponseView,
};
use vstd::prelude::*;
use vstd::string::StringExecFns;
use vstd::utf8::encode_utf8;

verus! {

/// The example bot.
pub struct DemoHandler;

/// The three buttons that the bot puts under its messages.
pub open spec fn demo_buttons() -> Seq<ButtonView> {
    seq![
        ButtonView { id: "the_button"@, text: "the button"@ },
        ButtonView { id: "modal"@, text: "input some text"@ },
        ButtonView { id: "spawn"@, text: "spawn new message"@ },
    ]
}

/// The count that follows `clicks`: one more, but no more than a `u64`
/// holds.
pub open spec fn next_clicks(clicks: Option<u64>) -> u64 {
    match clicks {
        Some(count) => if count < u64::MAX {
            (count + 1) as u64
        } else {
            count
        },
        None => 1,
    }
}

/// What the bot answers to an application command: to `hello` a greeting of
/// the user with the three buttons, to any other command nothing.
pub open spec fn command_reply(command: ApplicationCommandView) -> Option<ResponseView> {
    if command.command_name == "hello"@ {
        Some(
            ResponseView::Message(
                MessageView {
                    text: greeting(command.user_id),
                    buttons: demo_buttons(),
                    ephemeral: false,
                    edit: false,
                },
            ),
        )
    } else {
        None
    }
}

/// What the bot answers to a button, given the count that the source message
/// states. The counting button edits its message to state the next count;
/// the spawning button answers with an ephemeral message; the modal button
/// opens the modal; any other component gets nothing.
pub open spec fn component_reply(component: MessageComponentView, clicks: Option<u64>) -> Option<
    ResponseView,
> {
    if component.id == "the_button"@ {
        Some(ResponseView::Message(counted_click(clicks)))
    } else if component.id == "spawn"@ {
        Some(
            ResponseView::Message(
                MessageView {
                    text: "This is a new message. The message is also *ephemeral*, meaning it's only visible to you."@,
                    buttons: Seq::empty(),
                    ephemeral: true,
                    edit: false,
                },
            ),
        )
    } else if component.id == "modal"@ {
        Some(ResponseView::Modal(input_modal_view()))
    } else {
        None
    }
}

/// What the bot answers to a submitted modal: where it is the bot's modal
/// and holds both values, the source message is edited to state them under
/// what it said before; any other submission gets nothing.
pub open spec fn submit_reply(submit: ModalSubmitView) -> Option<ResponseView> {
    if submit.id == "my_modal"@ && submit.values.contains_key("v1"@) && submit.values.contains_key(
        "v2"@,
    ) {
        Some(
            ResponseView::Message(
                MessageView {
                    text: submit.source.text + "\nYou entered the values `"@ + submit.values["v1"@]
                        + "` and `"@ + submit.values["v2"@] + "`."@,
                    buttons: demo_buttons(),
                    ephemeral: false,
                    edit: true,
                },
            ),
        )
    } else {
        None
    }
}

/// Puts the bot's three buttons under a message that has none.
fn with_buttons(message: Message) -> (result: Message)
    requires
        message@.buttons.len() == 0,
    ensures
        result@ == (MessageView { buttons: demo_buttons(), ..message@ }),
{
    let result = message.button("the_button", "the button").button(
        "modal",
        "input some text",
    ).button("spawn", "spawn new message");
    assert(result@.buttons =~= demo_buttons());
    result
}

/// The message that answers a click on the counting button, given the
/// count that the source message states: an edit that states the next count.
pub open spec fn counted_click(clicks: Option<u64>) -> MessageView {
    MessageView {
        text: clicks_sentence(next_clicks(clicks)),
        buttons: demo_buttons(),
        ephemeral: false,
        edit: true,
    }
}

/// Builds the message that answers a click on the counting button, given the
/// count that the source message states.
pub fn count_click(clicks: Option<u64>) -> (message: Message)
    ensures
        message@ == counted_click(clicks),
{
    let next = match clicks {
        Some(count) => if count < u64::MAX {
            count + 1
        } else {
            count
        },
        None => 1,
    };
    let text = clicks_text(next);
    with_buttons(Message::new().text(text.as_str())).edit()
}

impl InteractionHandler for DemoHandler {
    fn handle_application_command(ac: ApplicationCommand) -> (outcome: Option<Response>)
        ensures
            outcome_view(outcome) == command_reply(ac@),
    {
        if same_text(ac.command_name.as_str(), "hello") {
            let text = greeting_text(ac.user_id.as_str());
            Some(Response::Message(with_buttons(Message::new().text(text.as_str()))))
        } else {
            None
        }
    }

    fn handle_message_component(mc: MessageComponent) -> (outcome: Option<Response>)
        ensures
            outcome_view(outcome) == component_reply(
                mc@,
                clicks_at(
                    encode_utf8(mc@.source.text),
                    regex_find(CLICKS_PATTERN@, mc@.source.text),
                ),
            ),
    {
        if same_text(mc.id.as_str(), "the_button") {
            Some(Response::Message(count_click(get_button_clicks(mc.source.text.as_str()))))
        } else if same_text(mc.id.as_str(), "spawn") {
            Some(
                Response::Message(
                    Message::new().text(
                        "This is a new message. The message is also *ephemeral*, meaning it's only visible to you.",
                    ).ephemeral(),
                ),
            )
        } else if same_text(mc.id.as_str(), "modal") {
            Some(Response::Modal(input_modal()))
        } else {
            None
        }
    }

    fn handle_modal_submit(ms: ModalSubmit) -> (outcome: Option<Response>)
        ensures
            outcome_view(outcome) == submit_reply(ms@),
    {
        if !same_text(ms.id.as_str(), "my_modal") {
            return None;
        }
        let v1 = match ms.values.get("v1") {
            Some(value) => value,
            None => {
                return None;
            },
        };
        let v2 = match ms.values.get("v2") {
            Some(value) => value,
            None => {
                return None;
            },
        };
        let mut text = ms.source.text.clone();
        text.append("\nYou entered the values `");
        text.append(v1.as_str());
        text.append("` and `");
        text.append(v2.as_str());
        text.append("`.");
        Some(Response::Message(with_buttons(Message::new().text(text.as_str())).edit()))
    }
}

} // verus!
