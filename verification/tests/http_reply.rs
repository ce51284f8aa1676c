use discord_interaction::http_reply::{EMPTY_BODY, ERROR_BODY, STATUS_BAD_REQUEST, STATUS_OK};
use discord_interaction::{
    http_reply, outcome_of_failure, AuthError, DecodeError, HttpReply, InteractionError,
    RequestOutcome, UnreadablePolicy,
};

#[test]
fn reply_goes_out_with_status_ok() {
    for policy in [UnreadablePolicy::EmptySuccess, UnreadablePolicy::Reject] {
        assert_eq!(
            http_reply(RequestOutcome::Replied("{\"type\":1,\"data\":null}".to_string()), policy),
            HttpReply { status: 200, json: true, body: "{\"type\":1,\"data\":null}".to_string() }
        );
    }
}

#[test]
fn rejected_request_gets_the_status_of_its_failure() {
    for policy in [UnreadablePolicy::EmptySuccess, UnreadablePolicy::Reject] {
        for (error, status) in [
            (AuthError::ConfigError, 500),
            (AuthError::BadRequest, 400),
            (AuthError::Unauthorized, 401),
        ] {
            assert_eq!(
                http_reply(RequestOutcome::Rejected(error), policy),
                HttpReply { status, json: false, body: "Error when handling request.".to_string() }
            );
        }
    }
}

#[test]
fn unreadable_request_follows_the_policy() {
    assert_eq!(
        http_reply(RequestOutcome::Unreadable, UnreadablePolicy::EmptySuccess),
        HttpReply { status: 200, json: true, body: "{}".to_string() }
    );
    assert_eq!(
        http_reply(RequestOutcome::Unreadable, UnreadablePolicy::Reject),
        HttpReply { status: 400, json: false, body: "Error when handling request.".to_string() }
    );
    assert_eq!(STATUS_OK, 200);
    assert_eq!(STATUS_BAD_REQUEST, 400);
    assert_eq!(EMPTY_BODY, "{}");
    assert_eq!(ERROR_BODY, "Error when handling request.");
}

#[test]
fn failures_of_an_interaction() {
    assert_eq!(
        outcome_of_failure(InteractionError::Decode(DecodeError::MissingField)),
        Some(RequestOutcome::Unreadable)
    );
    assert_eq!(
        outcome_of_failure(InteractionError::Decode(DecodeError::MalformedComponents)),
        Some(RequestOutcome::Unreadable)
    );
    assert_eq!(outcome_of_failure(InteractionError::InvalidResponseTransition), None);
    assert_eq!(outcome_of_failure(InteractionError::Unhandled), None);
}

#[test]
fn failures_are_told_apart_in_words() {
    let texts = [
        InteractionError::Decode(DecodeError::MissingField).describe(),
        InteractionError::Decode(DecodeError::MalformedComponents).describe(),
        InteractionError::InvalidResponseTransition.describe(),
        InteractionError::Unhandled.describe(),
    ];
    for (i, text) in texts.iter().enumerate() {
        assert!(!text.is_empty());
        for other in &texts[i + 1..] {
            assert_ne!(text, other);
        }
    }
    assert_eq!(
        InteractionError::InvalidResponseTransition.describe(),
        "the handler answered a modal submission with another modal"
    );
}
