//! The dispatch of an interaction to the application's handler, and the way
//! back from the handler's answer to a reply.

use crate::discord_types::{
    InteractionCallbackType, InteractionRequest, InteractionResponse, InteractionResponseView,
    InteractionType,
};
use crate::user_types::{
    decode, decoded, message_response, modal_response, ApplicationCommand, DecodeError,
    MessageComponent, ModalSubmit, Request, Response, ResponseView,
};
use vstd::prelude::*;

verus! {

/// Why an interaction got no reply.
#[derive(Clone, Copy, PartialEq, Eq, Debug)]
pub enum InteractionError {
    /// The request could not be translated.
    Decode(DecodeError),
    /// The handler answered a modal submission with another modal, which
    /// Discord does not allow.
    InvalidResponseTransition,
    /// The handler does not implement the operation that the interaction
    /// asks for.
    Unhandled,
}

impl InteractionError {
    /// What went wrong, in words.
    pub open spec fn spec_describe(self) -> Seq<char> {
        match self {
            InteractionError::Decode(DecodeError::MissingField) => {
                "the request lacks a field that its kind requires"@
            },
            InteractionError::Decode(DecodeError::MalformedComponents) => {
                "the request holds a malformed component row"@
            },
            InteractionError::InvalidResponseTransition => {
                "the handler answered a modal submission with another modal"@
            },
            InteractionError::Unhandled => {
                "the handler does not implement this kind of interaction"@
            },
        }
    }

    /// What went wrong, in words.
    pub fn describe(self) -> (text: &'static str)
        ensures
            text@ == self.spec_describe(),
    {
        match self {
            InteractionError::Decode(DecodeError::MissingField) => {
                "the request lacks a field that its kind requires"
            },
            InteractionError::Decode(DecodeError::MalformedComponents) => {
                "the request holds a malformed component row"
            },
            InteractionError::InvalidResponseTransition => {
                "the handler answered a modal submission with another modal"
            },
            InteractionError::Unhandled => {
                "the handler does not implement this kind of interaction"
            },
        }
    }
}

/// General interaction handler type, to be implemented by your application.
/// Each operation answers with a response, or with `None` where the
/// application does not handle that kind of interaction. An operation that
/// an application leaves as it is here answers `None` to every request;
/// nothing is asked of the operations that an application writes.
pub trait InteractionHandler {
    /// Handles an application command (slash command).
    #[allow(unused)]
    fn handle_application_command(ac: ApplicationCommand) -> (outcome: Option<Response>)
        default_ensures
            outcome is None,
    {
        None
    }

    /// Handles the press of a button.
    #[allow(unused)]
    fn handle_message_component(mc: MessageComponent) -> (outcome: Option<Response>)
        default_ensures
            outcome is None,
    {
        None
    }

    /// Handles a submitted modal.
    #[allow(unused)]
    fn handle_modal_submit(ms: ModalSubmit) -> (outcome: Option<Response>)
        default_ensures
            outcome is None,
    {
        None
    }
}

/// The reply to a liveness ping: `Pong`, without data.
pub open spec fn pong() -> InteractionResponseView {
    InteractionResponseView { kind: InteractionCallbackType::Pong, data: None }
}

/// The reply that carries a response to an interaction of the given kind.
/// There is none for a modal that answers a modal submission.
pub open spec fn encoded(kind: InteractionType, response: ResponseView) -> Result<
    InteractionResponseView,
    InteractionError,
> {
    match response {
        ResponseView::Message(message) => Ok(message_response(message)),
        ResponseView::Modal(modal) => if kind == InteractionType::ModalSubmit {
            Err(InteractionError::InvalidResponseTransition)
        } else {
            Ok(modal_response(modal))
        },
    }
}

/// The end of an interaction of the given kind whose handler gave `outcome`:
/// the encoded response, or `Unhandled` where the handler gave none.
pub open spec fn concluded(kind: InteractionType, outcome: Option<ResponseView>) -> Result<
    InteractionResponseView,
    InteractionError,
> {
    match outcome {
        Some(response) => encoded(kind, response),
        None => Err(InteractionError::Unhandled),
    }
}

/// The view of an optional response.
pub open spec fn outcome_view(outcome: Option<Response>) -> Option<ResponseView> {
    match outcome {
        Some(response) => Some(response@),
        None => None,
    }
}

/// Whether an exec result is the given result over views.
pub open spec fn is_result(
    result: Result<InteractionResponse, InteractionError>,
    wanted: Result<InteractionResponseView, InteractionError>,
) -> bool {
    match result {
        Ok(response) => wanted == Ok::<_, InteractionError>(response@),
        Err(error) => wanted == Err::<InteractionResponseView, _>(error),
    }
}

/// Whether the operation of `T` for the request, asked with it, can give
/// the outcome.
pub open spec fn handler_gave<T: InteractionHandler>(
    request: Request,
    outcome: Option<Response>,
) -> bool {
    match request {
        Request::ApplicationCommand(command) => call_ensures(
            T::handle_application_command,
            (command,),
            outcome,
        ),
        Request::MessageComponent(component) => call_ensures(
            T::handle_message_component,
            (component,),
            outcome,
        ),
        Request::ModalSubmit(submit) => call_ensures(T::handle_modal_submit, (submit,), outcome),
    }
}

/// A modal in answer to a modal submission ends in
/// `InvalidResponseTransition`, whatever the modal holds; so no modal
/// submission is ever answered with a reply of type `Modal`.
pub proof fn lemma_modal_submit_opens_no_modal(outcome: Option<ResponseView>)
    ensures
        outcome matches Some(ResponseView::Modal(_)) ==> concluded(
            InteractionType::ModalSubmit,
            outcome,
        ) == Err::<InteractionResponseView, _>(InteractionError::InvalidResponseTransition),
        concluded(InteractionType::ModalSubmit, outcome) matches Ok(reply) ==> reply.kind
            != InteractionCallbackType::Modal,
{
}

/// Translates a handler's response into the reply that Discord expects for
/// an interaction of the given kind. A modal in answer to a modal submission
/// is refused.
pub fn encode(kind: InteractionType, response: Response) -> (reply: Result<
    InteractionResponse,
    InteractionError,
>)
    ensures
        is_result(reply, encoded(kind, response@)),
        kind == InteractionType::ModalSubmit && response is Modal ==> reply == Err::<
            InteractionResponse,
            _,
        >(InteractionError::InvalidResponseTransition),
{
    match response {
        Response::Message(message) => Ok(message.into_response()),
        Response::Modal(modal) => match kind {
            InteractionType::ModalSubmit => Err(InteractionError::InvalidResponseTransition),
            _ => Ok(modal.into_response()),
        },
    }
}

/// Ends an interaction of the given kind with what its handler gave.
pub fn conclude(kind: InteractionType, outcome: Option<Response>) -> (reply: Result<
    InteractionResponse,
    InteractionError,
>)
    ensures
        is_result(reply, concluded(kind, outcome_view(outcome))),
{
    match outcome {
        Some(response) => encode(kind, response),
        None => Err(InteractionError::Unhandled),
    }
}

/// Hands a request to the operation of `T` for its kind and concludes the
/// interaction with what the operation gives.
pub fn dispatch<T>(request: Request) -> (reply: Result<
    InteractionResponse,
    InteractionError,
>) where T: InteractionHandler
    ensures
        exists|outcome: Option<Response>|
            handler_gave::<T>(request, outcome) && is_result(
                reply,
                concluded(request.spec_kind(), outcome_view(outcome)),
            ),
        request is ModalSubmit && reply is Ok ==> reply->Ok_0.kind
            != InteractionCallbackType::Modal,
{
    let kind = request.kind();
    let outcome = match request {
        Request::ApplicationCommand(command) => T::handle_application_command(command),
        Request::MessageComponent(component) => T::handle_message_component(component),
        Request::ModalSubmit(submit) => T::handle_modal_submit(submit),
    };
    let reply = conclude(kind, outcome);
    assert(handler_gave::<T>(request, outcome) && is_result(
        reply,
        concluded(request.spec_kind(), outcome_view(outcome)),
    ));
    reply
}

/// Answers one interaction. A ping is answered with `Pong` and no handler is
/// asked. Any other request is read in application terms and handed to the
/// operation of `T` for its kind; a request that cannot be read ends in that
/// failure, and no handler is asked. What the handler gives is concluded as
/// `conclude` says.
pub fn handle_interaction<T>(req: &InteractionRequest) -> (reply: Result<
    InteractionResponse,
    InteractionError,
>) where T: InteractionHandler
    ensures
        match decoded(req@) {
            Ok(None) => is_result(reply, Ok(pong())),
            Ok(Some(wanted)) => exists|request: Request, outcome: Option<Response>|
                request@ == wanted && handler_gave::<T>(request, outcome) && is_result(
                    reply,
                    concluded(req.kind, outcome_view(outcome)),
                ),
            Err(error) => reply == Err::<InteractionResponse, _>(InteractionError::Decode(error)),
        },
        req.kind == InteractionType::Ping ==> is_result(reply, Ok(pong())),
        req.kind == InteractionType::ModalSubmit && reply is Ok ==> reply->Ok_0.kind
            != InteractionCallbackType::Modal,
{
    match decode(req) {
        Ok(None) => Ok(InteractionResponse { kind: InteractionCallbackType::Pong, data: None }),
        Ok(Some(request)) => {
            let reply = dispatch::<T>(request);
            let ghost outcome = choose|outcome: Option<Response>|
                handler_gave::<T>(request, outcome) && is_result(
                    reply,
                    concluded(request.spec_kind(), outcome_view(outcome)),
                );
            assert(request@ == decoded(req@)->Ok_0->0 && handler_gave::<T>(request, outcome)
                && is_result(reply, concluded(req.kind, outcome_view(outcome))));
            reply
        },
        Err(error) => Err(InteractionError::Decode(error)),
    }
}

} // verus!
