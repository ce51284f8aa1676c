//! Discord interactions behind a webhook.
//!
//! A Discord bot can be described with a request/response model: a slash
//! command, a button press or a submitted modal is sent to a backend as one
//! signed HTTP request, and the backend answers with a single response.
//! Discord calls this exchange an *interaction*.
//!
//! This crate holds the part of such a backend that has to be right:
//!
//! - [`auth`]: the signature check on the raw request;
//! - [`discord_types`]: the requests and replies as Discord's JSON has them;
//! - [`user_types`]: application-friendly requests and responses, and how
//!   they are read from and turned into the wire types;
//! - [`field_values`]: the values of a submitted modal by field id;
//! - [`handler`]: the handler that an application implements, and the
//!   dispatch of an interaction to it;
//! - [`http_reply`]: the status and body that go back over HTTP;
//! - [`button_clicks`]: a counter kept in the text of a message;
//! - [`demo`] and [`demos`]: example bots.

pub mod auth;
pub mod button_clicks;
pub mod demo;
pub mod demos;
pub mod discord_types;
pub mod field_values;
pub mod handler;
pub mod http_reply;
pub mod user_types;

pub use auth::{auth_outcome, verify, verify_signed, AuthError, SignatureHeaders};
pub use button_clicks::get_button_clicks;
pub use discord_types::{
    ButtonStyle, Component, ComponentType, GuildMember, InteractionCallbackData,
    InteractionCallbackType, InteractionData, InteractionRequest, InteractionResponse,
    InteractionType, TextInputStyle, User,
};
pub use field_values::FieldValues;
pub use handler::{
    conclude, dispatch, encode, handle_interaction, InteractionError, InteractionHandler,
};
pub use http_reply::{
    http_reply, outcome_of_failure, HttpReply, RequestOutcome, UnreadablePolicy,
};
pub use user_types::{
    decode, ApplicationCommand, Button, DecodeError, Message, MessageComponent, Modal,
    ModalSubmit, Request, Response, SourceMessage, TextField,
};
