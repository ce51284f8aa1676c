//! State kept in a message: a bot that counts the clicks on a button can
//! write the count into the message that the button is attached to, and read
//! it back from the source message of the next click.

use regex::Regex;
use vstd::prelude::*;
use vstd::string::{StringExecFns, StringSliceAdditionalSpecFns};
use vstd::utf8::{encode_utf8, is_ascii_chars, is_ascii_chars_encode_utf8};

verus! {

/// The pattern of the sentence that states the count.
pub const CLICKS_PATTERN: &'static str = "You've clicked the button [0-9]* times.";

/// The length of what stands before the count in the sentence.
pub const CLICKS_PREFIX_LENGTH: usize = 26;

/// The length of what stands behind the count in the sentence.
pub const CLICKS_SUFFIX_LENGTH: usize = 7;

/// The place of a match in a text: the byte offsets of its start and of its
/// end.
#[derive(Clone, Copy, PartialEq, Eq, Structural, Debug)]
pub struct MatchRange {
    pub start: usize,
    pub end: usize,
}

/// The place of the first match of a pattern in a text, as `Regex::find` of
/// the regex crate gives it for the regex that `Regex::new` makes of the
/// pattern; `None` where the text holds no match or the pattern is none.
pub uninterp spec fn regex_find(pattern: Seq<char>, text: Seq<char>) -> Option<MatchRange>;

/// Calls `Regex::new` on the pattern and `Regex::find` on the text, and hands
/// on where the match starts and ends. Nothing is claimed of where that is
/// but that it depends on pattern and text alone.
#[verifier::external_body]
fn find_match(pattern: &str, text: &str) -> (found: Option<MatchRange>)
    ensures
        found == regex_find(pattern@, text@),
{
    match Regex::new(pattern) {
        Ok(regex) => match regex.find(text) {
            Some(found) => Some(MatchRange { start: found.start(), end: found.end() }),
            None => None,
        },
        Err(_) => None,
    }
}

/// Whether a byte is a decimal digit.
pub open spec fn is_digit(byte: u8) -> bool {
    0x30 <= byte <= 0x39
}

/// The number that decimal digits stand for, the last digit counting least.
pub open spec fn digits_value(digits: Seq<u8>) -> nat
    decreases digits.len(),
{
    if digits.len() == 0 {
        0
    } else {
        digits_value(digits.drop_last()) * 10 + (digits.last() - 0x30) as nat
    }
}

/// Whether all bytes are decimal digits.
pub open spec fn all_digits(digits: Seq<u8>) -> bool {
    forall|i: int| 0 <= i < digits.len() ==> is_digit(#[trigger] digits[i])
}

/// The number that a text states, read as `u64`'s `parse` reads it: an
/// optional plus sign, then at least one decimal digit and nothing else, the
/// whole no more than `u64::MAX`. `None` for any other text.
pub open spec fn decimal_number(text: Seq<u8>) -> Option<u64> {
    let digits = if text.len() > 0 && text[0] == 0x2b {
        text.skip(1)
    } else {
        text
    };
    if digits.len() > 0 && all_digits(digits) && digits_value(digits) <= u64::MAX {
        Some(digits_value(digits) as u64)
    } else {
        None
    }
}

/// The count that a message states, given where the sentence stands in it:
/// the number between the sentence's first 26 bytes and its last 7. `None`
/// where no sentence was found, where the place is too short for one or
/// reaches beyond the message, or where what stands there is no number.
pub open spec fn clicks_at(message: Seq<u8>, found: Option<MatchRange>) -> Option<u64> {
    match found {
        Some(range) => if range.start + CLICKS_PREFIX_LENGTH + CLICKS_SUFFIX_LENGTH <= range.end
            && range.end <= message.len() {
            decimal_number(
                message.subrange(
                    range.start + CLICKS_PREFIX_LENGTH,
                    range.end - CLICKS_SUFFIX_LENGTH,
                ),
            )
        } else {
            None
        },
        None => None,
    }
}

/// More digits make no smaller number.
proof fn lemma_digits_value_grows(digits: Seq<u8>, count: int)
    requires
        0 <= count <= digits.len(),
    ensures
        digits_value(digits.take(count)) <= digits_value(digits),
    decreases digits.len() - count,
{
    if count < digits.len() {
        lemma_digits_value_grows(digits, count + 1);
        assert(digits.take(count + 1).drop_last() =~= digits.take(count));
    } else {
        assert(digits.take(count) =~= digits);
    }
}

/// Reads a number as `u64`'s `parse` reads it.
pub fn parse_decimal(text: &[u8]) -> (number: Option<u64>)
    ensures
        number == decimal_number(text@),
{
    let first: usize = if text.len() > 0 && text[0] == 0x2b {
        1
    } else {
        0
    };
    let ghost digits = if first == 1 {
        text@.skip(1)
    } else {
        text@
    };
    if text.len() == first {
        return None;
    }
    let mut value: u64 = 0;
    let mut i: usize = first;
    while i < text.len()
        invariant
            first <= i <= text@.len(),
            digits == if text@.len() > 0 && text@[0] == 0x2b {
                text@.skip(1)
            } else {
                text@
            },
            digits.len() == text@.len() - first,
            forall|k: int| 0 <= k < digits.len() ==> digits[k] == text@[k + first],
            all_digits(digits.take(i - first)),
            value == digits_value(digits.take(i - first)),
        decreases text@.len() - i,
    {
        let byte = text[i];
        let ghost longer = digits.take(i - first + 1);
        assert(longer.drop_last() =~= digits.take(i - first));
        assert(longer.last() == byte);
        if byte < 0x30 || byte > 0x39 {
            assert(digits[i - first] == byte);
            assert(!is_digit(digits[i - first]));
            return None;
        }
        let digit: u64 = (byte - 0x30) as u64;
        if value > (u64::MAX - digit) / 10 {
            proof {
                assert(digits_value(longer) > u64::MAX);
                lemma_digits_value_grows(digits, i - first + 1);
            }
            return None;
        }
        value = value * 10 + digit;
        assert(all_digits(longer)) by {
            assert forall|k: int| 0 <= k < longer.len() implies is_digit(#[trigger] longer[k]) by {
                if k < i - first {
                    assert(digits.take(i - first)[k] == longer[k]);
                }
            }
        }
        i += 1;
    }
    assert(digits.take(i - first) =~= digits);
    Some(value)
}

/// The count that a message states, given where the sentence stands in it.
pub fn clicks_of_match(message: &[u8], found: Option<MatchRange>) -> (clicks: Option<u64>)
    ensures
        clicks == clicks_at(message@, found),
{
    match found {
        Some(range) => {
            if range.end > message.len() || range.end < CLICKS_SUFFIX_LENGTH {
                return None;
            }
            let end = range.end - CLICKS_SUFFIX_LENGTH;
            if range.start > end || end - range.start < CLICKS_PREFIX_LENGTH {
                return None;
            }
            let start = range.start + CLICKS_PREFIX_LENGTH;
            let mut number: Vec<u8> = Vec::new();
            let mut i: usize = start;
            while i < end
                invariant
                    start <= i <= end <= message@.len(),
                    number@ == message@.subrange(start as int, i as int),
                decreases end - i,
            {
                number.push(message[i]);
                assert(number@ =~= message@.subrange(start as int, i + 1));
                i += 1;
            }
            parse_decimal(number.as_slice())
        },
        None => None,
    }
}

/// The count that a message states in the sentence "You've clicked the
/// button N times.", if it holds such a sentence.
pub fn get_button_clicks(msg: &str) -> (clicks: Option<u64>)
    ensures
        clicks == clicks_at(msg.spec_bytes(), regex_find(CLICKS_PATTERN@, msg@)),
{
    clicks_of_match(msg.as_bytes(), find_match(CLICKS_PATTERN, msg))
}

/// A number in decimal digits, without leading zeros.
pub open spec fn decimal_digits(number: nat) -> Seq<u8>
    decreases number,
{
    if number < 10 {
        seq![(0x30 + number) as u8]
    } else {
        decimal_digits(number / 10).push((0x30 + number % 10) as u8)
    }
}

/// A number in decimal digits, as text.
pub open spec fn decimal_text(number: nat) -> Seq<char> {
    Seq::new(decimal_digits(number).len(), |i: int| decimal_digits(number)[i] as char)
}

/// A number written in decimal digits is read back as the same number.
pub proof fn lemma_decimal_is_read_back(number: u64)
    ensures
        decimal_number(decimal_digits(number as nat)) == Some(number),
{
    lemma_decimal_digits(number as nat);
}

/// The decimal digits of a number are digits, at least one, and stand for
/// the number.
proof fn lemma_decimal_digits(number: nat)
    ensures
        decimal_digits(number).len() > 0,
        all_digits(decimal_digits(number)),
        digits_value(decimal_digits(number)) == number,
    decreases number,
{
    let digits = decimal_digits(number);
    if number < 10 {
        assert(digits.drop_last() =~= Seq::<u8>::empty());
        assert(digits_value(digits.drop_last()) == 0);
    } else {
        lemma_decimal_digits(number / 10);
        assert(digits.drop_last() =~= decimal_digits(number / 10));
        assert forall|i: int| 0 <= i < digits.len() implies is_digit(#[trigger] digits[i]) by {
            if i < digits.len() - 1 {
                assert(digits[i] == decimal_digits(number / 10)[i]);
            }
        }
    }
}

/// The sentence that states a count of clicks.
pub open spec fn clicks_sentence(clicks: u64) -> Seq<char> {
    "You've clicked the button "@ + decimal_text(clicks as nat) + " times."@
}

/// The sentence that the bot writes for a count is read back as that count,
/// wherever the search finds the sentence whole: with any text before it and
/// any text behind it, as long as the text before it is ASCII.
pub proof fn lemma_sentence_is_read_back(clicks: u64, before: Seq<char>, behind: Seq<char>)
    requires
        is_ascii_chars(before),
        before.len() + clicks_sentence(clicks).len() <= usize::MAX,
    ensures
        clicks_at(
            encode_utf8(before + clicks_sentence(clicks)) + encode_utf8(behind),
            Some(
                MatchRange {
                    start: before.len() as usize,
                    end: (before.len() + clicks_sentence(clicks).len()) as usize,
                },
            ),
        ) == Some(clicks),
{
    let head = "You've clicked the button "@;
    let tail = " times."@;
    let digits = decimal_digits(clicks as nat);
    let sentence = clicks_sentence(clicks);
    let text = before + sentence;
    reveal_strlit("You've clicked the button ");
    reveal_strlit(" times.");
    lemma_decimal_digits(clicks as nat);
    assert(head.len() == CLICKS_PREFIX_LENGTH);
    assert(tail.len() == CLICKS_SUFFIX_LENGTH);
    assert(is_ascii_chars(head));
    assert(is_ascii_chars(tail));
    assert(is_ascii_chars(decimal_text(clicks as nat))) by {
        assert forall|i: int| 0 <= i < digits.len() implies is_digit(#[trigger] digits[i]) by {}
    }
    assert(is_ascii_chars(text));
    is_ascii_chars_encode_utf8(text);
    let bytes = encode_utf8(text) + encode_utf8(behind);
    let start = before.len() + CLICKS_PREFIX_LENGTH;
    let end = before.len() + sentence.len() - CLICKS_SUFFIX_LENGTH;
    assert(bytes.subrange(start, end) =~= digits) by {
        assert forall|i: int| 0 <= i < digits.len() implies bytes[start + i] == digits[i] by {
            assert(text[start + i] == decimal_text(clicks as nat)[i]);
            assert(is_digit(digits[i]));
        }
    }
    lemma_decimal_is_read_back(clicks);
}

/// The text of one decimal digit.
fn digit_text(digit: u64) -> (text: &'static str)
    requires
        digit < 10,
    ensures
        text@ == seq![(0x30 + digit) as u8 as char],
{
    proof {
        reveal_strlit("0");
        reveal_strlit("1");
        reveal_strlit("2");
        reveal_strlit("3");
        reveal_strlit("4");
        reveal_strlit("5");
        reveal_strlit("6");
        reveal_strlit("7");
        reveal_strlit("8");
        reveal_strlit("9");
    }
    let text = if digit == 0 {
        "0"
    } else if digit == 1 {
        "1"
    } else if digit == 2 {
        "2"
    } else if digit == 3 {
        "3"
    } else if digit == 4 {
        "4"
    } else if digit == 5 {
        "5"
    } else if digit == 6 {
        "6"
    } else if digit == 7 {
        "7"
    } else if digit == 8 {
        "8"
    } else {
        "9"
    };
    assert(text@ =~= seq![(0x30 + digit) as u8 as char]);
    text
}

/// Writes a number in decimal digits behind a text.
pub fn push_decimal(text: &mut String, number: u64)
    ensures
        final(text)@ == old(text)@ + decimal_text(number as nat),
    decreases number,
{
    if number >= 10 {
        push_decimal(text, number / 10);
    }
    text.append(digit_text(number % 10));
    assert(final(text)@ =~= old(text)@ + decimal_text(number as nat));
}

/// Writes the sentence that states a count of clicks.
pub fn clicks_text(clicks: u64) -> (text: String)
    ensures
        text@ == clicks_sentence(clicks),
{
    let mut text = "You've clicked the button ".to_owned();
    push_decimal(&mut text, clicks);
    text.append(" times.");
    text
}

} // verus!
