//! The texts published for one coin: the webhook message, its JSON payload,
//! and the channel name.

use vstd::prelude::*;
use vstd::string::*;
use crate::fullwidth::{format_price_fullwidth, widen};

verus! {

/// What `str::to_lowercase` returns for a text.
pub uninterp spec fn lower_of(s: Seq<char>) -> Seq<char>;

/// `serde_json::Error`, carried opaquely in the result of `json_string`.
#[verifier::external_type_specification]
#[verifier::external_body]
pub struct ExJsonError(serde_json::Error);

/// A lowercase hexadecimal digit, for `n` below 16.
pub open spec fn hex_digit(n: u32) -> char {
    seq!['0', '1', '2', '3', '4', '5', '6', '7', '8', '9', 'a', 'b', 'c', 'd', 'e', 'f'][n as int]
}

/// How one character is written inside a JSON string literal: a quote and a
/// backslash are escaped with a backslash, the five common control characters
/// get their short escape, any other control character `\u00xx`, and every
/// other character stands as it is.
pub open spec fn json_escape(c: char) -> Seq<char> {
    if c == '"' {
        seq!['\\', '"']
    } else if c == '\\' {
        seq!['\\', '\\']
    } else if c == '\x08' {
        seq!['\\', 'b']
    } else if c == '\t' {
        seq!['\\', 't']
    } else if c == '\n' {
        seq!['\\', 'n']
    } else if c == '\x0c' {
        seq!['\\', 'f']
    } else if c == '\r' {
        seq!['\\', 'r']
    } else if (c as u32) < 0x20 {
        seq!['\\', 'u', '0', '0', hex_digit((c as u32) / 16), hex_digit((c as u32) % 16)]
    } else {
        seq![c]
    }
}

/// The characters of a text, each written as in a JSON string literal.
pub open spec fn json_escaped(s: Seq<char>) -> Seq<char> {
    s.map_values(|c: char| json_escape(c)).flatten()
}

/// The JSON string literal for a text: the escaped characters between quotes.
pub open spec fn json_string_literal(s: Seq<char>) -> Seq<char> {
    seq!['"'] + json_escaped(s) + seq!['"']
}

/// Whether a character is written as it is inside a JSON string literal.
pub open spec fn json_plain(c: char) -> bool {
    (c as u32) >= 0x20 && c != '"' && c != '\\'
}

/// A text whose characters all stand as they are is its own escaped form.
proof fn lemma_plain_text_unescaped(s: Seq<char>)
    requires
        forall|i: int| 0 <= i < s.len() ==> json_plain(#[trigger] s[i]),
    ensures
        json_escaped(s) == s,
    decreases s.len(),
{
    if s.len() == 0 {
        assert(s.map_values(|c: char| json_escape(c)) =~= Seq::<Seq<char>>::empty());
        assert(json_escaped(s) =~= s);
    } else {
        let rest = s.drop_first();
        assert forall|i: int| 0 <= i < rest.len() implies json_plain(#[trigger] rest[i]) by {
            assert(rest[i] == s[i + 1]);
        }
        lemma_plain_text_unescaped(rest);
        let parts = s.map_values(|c: char| json_escape(c));
        assert(parts.drop_first() =~= rest.map_values(|c: char| json_escape(c)));
        assert(json_plain(s[0]));
        assert(parts.first() == seq![s[0]]);
        assert(json_escaped(s) == parts.first() + parts.drop_first().flatten());
        assert(json_escaped(s) =~= s);
    }
}

/// Relies on `str::to_lowercase`: the result depends on the text alone.
#[verifier::external_body]
fn to_lowercase(s: &str) -> (r: String)
    ensures
        r@ == lower_of(s@),
{
    s.to_lowercase()
}

/// Relies on `serde_json::to_string` on a `str`: it writes the quoted,
/// escaped text into a `Vec`, which cannot fail.
#[verifier::external_body]
fn json_string(s: &str) -> (r: Result<String, serde_json::Error>)
    ensures
        r is Ok,
        r->Ok_0@ == json_string_literal(s@),
{
    serde_json::to_string(s)
}

/// The message posted for a coin: `"{emoji} {symbol}: ${price}"`.
pub open spec fn price_message_of(emoji: Seq<char>, symbol: Seq<char>, price_text: Seq<char>) -> Seq<
    char,
> {
    emoji + " "@ + symbol + ": $"@ + price_text
}

/// The channel name for a coin: `"{emoji}{lowercase symbol}{full-width price}"`.
pub open spec fn channel_name_of(emoji: Seq<char>, lowered: Seq<char>, price_text: Seq<char>) -> Seq<
    char,
> {
    emoji + lowered + widen(price_text)
}

/// The JSON object `{"content":<literal>}` around a string literal.
pub open spec fn payload_of(literal: Seq<char>) -> Seq<char> {
    "{\"content\":"@ + literal + "}"@
}

/// The message for a coin, from its emoji, its symbol and its price in
/// two-decimal form.
pub fn price_message(emoji: &str, symbol: &str, price_text: &str) -> (r: String)
    ensures
        r@ == price_message_of(emoji@, symbol@, price_text@),
{
    let mut m = String::from_str(emoji);
    m.append(" ");
    m.append(symbol);
    m.append(": $");
    m.append(price_text);
    m
}

/// The channel name from a symbol that is already in lower case.
pub fn channel_name_from_lowered(emoji: &str, lowered: &str, price_text: &str) -> (r: String)
    ensures
        r@ == channel_name_of(emoji@, lowered@, price_text@),
{
    let wide = format_price_fullwidth(price_text);
    let mut name = String::from_str(emoji);
    name.append(lowered);
    name.append(wide.as_str());
    name
}

/// The channel name for a coin: the symbol is put in lower case first.
pub fn channel_name(emoji: &str, symbol: &str, price_text: &str) -> (r: String)
    ensures
        r@ == channel_name_of(emoji@, lower_of(symbol@), price_text@),
{
    let lowered = to_lowercase(symbol);
    channel_name_from_lowered(emoji, lowered.as_str(), price_text)
}

/// A message with no quote, backslash or control character is posted as it
/// is, between quotes, as the `content` of the payload.
pub proof fn lemma_plain_message_payload(message: Seq<char>)
    requires
        forall|i: int| 0 <= i < message.len() ==> json_plain(#[trigger] message[i]),
    ensures
        json_string_literal(message) == seq!['"'] + message + seq!['"'],
        payload_of(json_string_literal(message)) == "{\"content\":"@ + seq!['"'] + message + seq![
            '"',
        ] + "}"@,
{
    lemma_plain_text_unescaped(message);
}

/// The payload body around a JSON string literal that encodes the message.
pub fn payload_from_literal(literal: &str) -> (r: String)
    ensures
        r@ == payload_of(literal@),
{
    let mut body = String::from_str("{\"content\":");
    body.append(literal);
    body.append("}");
    body
}

/// The JSON body posted to a webhook: an object whose one field `content`
/// holds the message.
pub fn webhook_payload(message: &str) -> (r: String)
    ensures
        r@ == payload_of(json_string_literal(message@)),
{
    let literal = json_string(message).unwrap();
    payload_from_literal(literal.as_str())
}

} // verus!
