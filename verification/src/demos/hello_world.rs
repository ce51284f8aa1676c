//! The smallest bot: it greets whoever sends it a command, and handles
//! nothing else.

use crate::demo::{greeting, greeting_text};
use crate::handler::{outcome_view, InteractionHandler};
use crate::user_types::{
    ApplicationCommand, ApplicationCommandView, Message, MessageView, Response, ResponseView,
};
use vstd::prelude::*;

verus! {

/// The greeting bot.
pub struct DemoHandler;

/// What the bot answers to an application command, whatever its name: a
/// greeting of the user.
pub open spec fn command_reply(command: ApplicationCommandView) -> Option<ResponseView> {
    Some(
        ResponseView::Message(
            MessageView {
                text: greeting(command.user_id),
                buttons: Seq::empty(),
                ephemeral: false,
                edit: false,
            },
        ),
    )
}

impl InteractionHandler for DemoHandler {
    fn handle_application_command(ac: ApplicationCommand) -> (outcome: Option<Response>)
        ensures
            outcome_view(outcome) == command_reply(ac@),
    {
        let text_content = greeting_text(ac.user_id.as_str());
        Some(Response::Message(Message::new().text(text_content.as_str())))
    }
}

} // verus!
