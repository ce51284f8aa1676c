use discord_interaction::button_clicks::{
    clicks_of_match, get_button_clicks, parse_decimal, MatchRange, CLICKS_PATTERN,
};

#[test]
fn count_is_read_from_the_sentence() {
    assert_eq!(get_button_clicks("You've clicked the button 3 times."), Some(3));
    assert_eq!(get_button_clicks("You've clicked the button 0 times."), Some(0));
    assert_eq!(get_button_clicks("You've clicked the button 1234567890 times."), Some(1234567890));
}

#[test]
fn count_is_found_inside_a_longer_message() {
    let message = "Hello <@42>!\nYou've clicked the button 41 times.\nYou entered `a`.";
    assert_eq!(get_button_clicks(message), Some(41));
    let message = "Gr\u{fc}\u{df}e \u{1f600} You've clicked the button 5 times.";
    assert_eq!(get_button_clicks(message), Some(5));
}

#[test]
fn first_sentence_decides() {
    let message = "You've clicked the button 7 times. You've clicked the button 9 times.";
    assert_eq!(get_button_clicks(message), Some(7));
}

#[test]
fn message_without_the_sentence_has_no_count() {
    assert_eq!(get_button_clicks(""), None);
    assert_eq!(get_button_clicks("Hello <@42>!"), None);
    assert_eq!(get_button_clicks("You've clicked the button 3 times"), None);
    assert_eq!(get_button_clicks("You've clicked the button three times."), None);
    assert_eq!(get_button_clicks("You've clicked the button -3 times."), None);
    assert_eq!(get_button_clicks("you've clicked the button 3 times."), None);
}

#[test]
fn sentence_without_digits_has_no_count() {
    assert_eq!(get_button_clicks("You've clicked the button  times."), None);
}

#[test]
fn count_up_to_the_largest_number() {
    assert_eq!(
        get_button_clicks("You've clicked the button 18446744073709551615 times."),
        Some(u64::MAX)
    );
    assert_eq!(get_button_clicks("You've clicked the button 18446744073709551616 times."), None);
    assert_eq!(
        get_button_clicks("You've clicked the button 99999999999999999999999 times."),
        None
    );
    assert_eq!(
        get_button_clicks("You've clicked the button 00000000000000000000007 times."),
        Some(7)
    );
}

#[test]
fn any_character_ends_the_sentence() {
    // The pattern's last character is a dot, which stands for any character.
    assert_eq!(CLICKS_PATTERN, "You've clicked the button [0-9]* times.");
    assert_eq!(get_button_clicks("You've clicked the button 12 times!"), Some(12));
}

#[test]
fn parse_decimal_reads_as_u64_parse_does() {
    let texts = [
        "", "0", "7", "42", "007", "+5", "+", "++5", "-5", "5+", " 5", "5 ", "5a", "a5", "1_000",
        "18446744073709551615", "18446744073709551616", "18446744073709551614",
        "+18446744073709551615", "28446744073709551615", "184467440737095516150",
        "000000000000000000000000000000018446744073709551615", "9999999999999999999",
        "99999999999999999999", "1e3", "0x10", "\u{663}", "12\u{0}",
    ];
    for text in texts {
        assert_eq!(parse_decimal(text.as_bytes()), text.parse::<u64>().ok(), "{:?}", text);
    }
    assert_eq!(parse_decimal(b"42"), Some(42));
    assert_eq!(parse_decimal(b"+42"), Some(42));
    assert_eq!(parse_decimal(&[0x34, 0xff]), None);
}

#[test]
fn clicks_of_match_reads_between_head_and_tail() {
    let message = b"You've clicked the button 15 times.";
    let whole = MatchRange { start: 0, end: message.len() };
    assert_eq!(clicks_of_match(message, Some(whole)), Some(15));
    assert_eq!(clicks_of_match(message, None), None);
    // A place that reaches beyond the message, or is too short for the sentence.
    assert_eq!(clicks_of_match(message, Some(MatchRange { start: 0, end: message.len() + 1 })), None);
    assert_eq!(clicks_of_match(message, Some(MatchRange { start: 0, end: 32 })), None);
    assert_eq!(clicks_of_match(message, Some(MatchRange { start: 10, end: 5 })), None);
    assert_eq!(clicks_of_match(message, Some(MatchRange { start: 0, end: 0 })), None);
    assert_eq!(clicks_of_match(message, Some(MatchRange { start: usize::MAX, end: usize::MAX })), None);
    // Exactly head and tail, nothing between.
    assert_eq!(clicks_of_match(message, Some(MatchRange { start: 0, end: 33 })), None);
    // One byte between head and tail.
    assert_eq!(clicks_of_match(message, Some(MatchRange { start: 0, end: 34 })), Some(1));
    assert_eq!(clicks_of_match(message, Some(MatchRange { start: 1, end: 35 })), Some(5));
}
