//! The encodings of what the worker sends to other services.
use base64::engine::general_purpose::STANDARD;
use base64::Engine;
use vstd::prelude::*;
use vstd::string::*;

use crate::text::joined;

verus! {

/// A digit of the standard base64 alphabet: the letters in upper and in lower case, the decimal
/// digits and two marks.
pub open spec fn base64_digit(value: int) -> char {
    if value < 26 {
        ('A' as int + value) as char
    } else if value < 52 {
        ('a' as int + (value - 26)) as char
    } else if value < 62 {
        ('0' as int + (value - 52)) as char
    } else if value == 62 {
        '+'
    } else {
        '/'
    }
}

/// The standard base64 text of some bytes: four digits of six bits each for three bytes, and
/// equals signs in place of the digits that one or two last bytes do not fill.
pub open spec fn base64_text(bytes: Seq<u8>) -> Seq<char>
    decreases bytes.len(),
{
    if bytes.len() == 0 {
        Seq::empty()
    } else if bytes.len() == 1 {
        seq![
            base64_digit(bytes[0] as int / 4),
            base64_digit(bytes[0] as int % 4 * 16),
            '=',
            '=',
        ]
    } else if bytes.len() == 2 {
        seq![
            base64_digit(bytes[0] as int / 4),
            base64_digit(bytes[0] as int % 4 * 16 + bytes[1] as int / 16),
            base64_digit(bytes[1] as int % 16 * 4),
            '=',
        ]
    } else {
        seq![
            base64_digit(bytes[0] as int / 4),
            base64_digit(bytes[0] as int % 4 * 16 + bytes[1] as int / 16),
            base64_digit(bytes[1] as int % 16 * 4 + bytes[2] as int / 64),
            base64_digit(bytes[2] as int % 64),
        ] + base64_text(bytes.skip(3))
    }
}

/// Whether a byte stands for itself in a form: letters, digits and four marks.
pub open spec fn stands_for_itself(byte: u8) -> bool {
    ||| '0' as u8 <= byte <= '9' as u8
    ||| 'A' as u8 <= byte <= 'Z' as u8
    ||| 'a' as u8 <= byte <= 'z' as u8
    ||| byte == '*' as u8
    ||| byte == '-' as u8
    ||| byte == '.' as u8
    ||| byte == '_' as u8
}

/// A hexadecimal digit, in upper case.
pub open spec fn hex_digit(value: u8) -> char {
    if value < 10 {
        ('0' as u8 + value) as char
    } else {
        ('A' as u8 + (value - 10)) as char
    }
}

/// How a byte is written in a form: as itself, a space as a plus sign, and any other byte as a
/// percent sign and two hexadecimal digits.
pub open spec fn byte_text(byte: u8) -> Seq<char> {
    if stands_for_itself(byte) {
        seq![byte as char]
    } else if byte == ' ' as u8 {
        seq!['+']
    } else {
        seq!['%', hex_digit(byte / 16), hex_digit(byte % 16)]
    }
}

/// How some bytes are written in a form.
pub open spec fn bytes_text(bytes: Seq<u8>) -> Seq<char>
    decreases bytes.len(),
{
    if bytes.len() == 0 {
        Seq::empty()
    } else {
        byte_text(bytes[0]) + bytes_text(bytes.skip(1))
    }
}

/// How a pair is written in a form: name and value in UTF-8, with an equals sign between them.
pub open spec fn pair_text(pair: (Seq<char>, Seq<char>)) -> Seq<char> {
    bytes_text(vstd::utf8::encode_utf8(pair.0)) + seq!['='] + bytes_text(
        vstd::utf8::encode_utf8(pair.1),
    )
}

/// The `application/x-www-form-urlencoded` text of some pairs: one after the other, with
/// ampersands between them.
pub open spec fn form_text(pairs: Seq<(Seq<char>, Seq<char>)>) -> Seq<char>
    decreases pairs.len(),
{
    if pairs.len() == 0 {
        Seq::empty()
    } else if pairs.len() == 1 {
        pair_text(pairs[0])
    } else {
        pair_text(pairs[0]) + seq!['&'] + form_text(pairs.skip(1))
    }
}

/// The error of `serde_urlencoded`.
#[verifier::external_type_specification]
#[verifier::external_body]
pub struct ExFormError(serde_urlencoded::ser::Error);

/// Calls `Engine::encode` of `base64` with the engine `STANDARD`: the result is the base64 text
/// of the bytes, in the standard alphabet and padded. (The length of the result is computed with a
/// check; no slice is long enough for that to overflow.)
#[verifier::external_body]
fn base64_encode(bytes: &[u8]) -> (text: String)
    ensures
        text@ == base64_text(bytes@),
{
    STANDARD.encode(bytes)
}

/// Calls `serde_urlencoded::to_string` on a list of pairs of texts, which it writes in their
/// order as an `application/x-www-form-urlencoded` text. It has an error only for values that are
/// no pairs of texts, so here it succeeds.
#[verifier::external_body]
fn form_encode(pairs: &Vec<(String, String)>) -> (text: Result<
    String,
    serde_urlencoded::ser::Error,
>)
    ensures
        text is Ok,
        text->Ok_0@ == form_text(pairs.deep_view()),
{
    serde_urlencoded::to_string(pairs)
}

/// The value of the `Authorization` header for a name and a password.
pub open spec fn basic_authorization_view(name: Seq<char>, password: Seq<char>) -> Seq<char> {
    "Basic "@ + base64_text(vstd::utf8::encode_utf8(name + ":"@ + password))
}

/// The value of the `Authorization` header for a token.
pub open spec fn bearer_authorization_view(token: Seq<char>) -> Seq<char> {
    "Bearer "@ + token
}

/// The fields of a request for fresh tokens.
pub open spec fn refresh_form_view(refresh_token: Seq<char>) -> Seq<(Seq<char>, Seq<char>)> {
    seq![("grant_type"@, "refresh_token"@), ("refresh_token"@, refresh_token)]
}

/// The value of the `Authorization` header for a name and a password.
pub fn basic_authorization(name: &str, password: &str) -> (value: String)
    ensures
        value@ == basic_authorization_view(name@, password@),
{
    let credentials: String = joined(name, ":").concat(password);
    joined("Basic ", base64_encode(credentials.as_str().as_bytes()).as_str())
}

/// The value of the `Authorization` header for a token.
pub fn bearer_authorization(token: &str) -> (value: String)
    ensures
        value@ == bearer_authorization_view(token@),
{
    joined("Bearer ", token)
}

/// The body of a request for fresh tokens.
pub fn refresh_form(refresh_token: &str) -> (body: Result<String, serde_urlencoded::ser::Error>)
    ensures
        body matches Ok(text) && text@ == form_text(refresh_form_view(refresh_token@)),
{
    let mut pairs: Vec<(String, String)> = Vec::new();
    pairs.push(("grant_type".to_owned(), "refresh_token".to_owned()));
    pairs.push(("refresh_token".to_owned(), refresh_token.to_owned()));
    assert(pairs.deep_view() =~= refresh_form_view(refresh_token@));
    form_encode(&pairs)
}

} // verus!
