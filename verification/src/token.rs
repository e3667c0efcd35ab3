//! The tokens that the worker signs for those who log in.
use jsonwebtoken::errors::ErrorKind;
use jsonwebtoken::{DecodingKey, EncodingKey, Header, Validation};
use vstd::prelude::*;
use vstd::string::*;

verus! {

/// What a token says: whose it is, until when it holds and when it was issued, both in seconds
/// since the epoch.
#[derive(Debug, PartialEq, Eq)]
pub struct Claims {
    pub sub: String,
    pub exp: u64,
    pub iat: u64,
}

/// What [`Claims`] stands for.
pub struct ClaimsView {
    pub sub: Seq<char>,
    pub exp: u64,
    pub iat: u64,
}

impl View for Claims {
    type V = ClaimsView;

    open spec fn view(&self) -> ClaimsView {
        ClaimsView { sub: self.sub@, exp: self.exp, iat: self.iat }
    }
}

/// The token that carries a subject, an expiry and a time of issue, signed with HMAC-SHA-256
/// under a secret.
pub uninterp spec fn signed_token(sub: Seq<char>, exp: u64, iat: u64, secret: Seq<u8>) -> Seq<char>;

/// What a token carries that is signed with HMAC-SHA-256 under the secret and has an expiry: the
/// subject, the expiry and the time of issue, each as far as it is a text or a whole number,
/// whether it names an audience, and whether there is a time at which it is refused as expired. Of
/// a repeated time of issue the last one counts. Whether the token has expired by now is another
/// matter.
pub uninterp spec fn carried_claims(token: Seq<char>, secret: Seq<u8>) -> Option<
    (Option<Seq<char>>, Option<u64>, Option<u64>, bool, bool),
>;

/// The error of `jsonwebtoken`.
#[verifier::external_type_specification]
#[verifier::external_body]
pub struct ExTokenError(jsonwebtoken::errors::Error);

/// Calls `jsonwebtoken::encode` with the default header on an object of the three claims. An
/// HMAC takes a secret of any length and the claims are plain JSON, so it succeeds; the result
/// depends on the claims and the secret alone. A token is three parts in the URL-safe base64
/// alphabet joined by dots, so no space stands in it, and it carries what was encoded, with no
/// audience.
#[verifier::external_body]
fn jwt_encode(sub: &str, exp: u64, iat: u64, secret: &[u8]) -> (token: Result<
    String,
    jsonwebtoken::errors::Error,
>)
    ensures
        token is Ok,
        token->Ok_0@ == signed_token(sub@, exp, iat, secret@),
        !token->Ok_0@.contains(' '),
        match carried_claims(token->Ok_0@, secret@) {
            Some((subject, expiry, issued, addressed, _)) => subject == Some(sub@) && expiry
                == Some(exp) && issued == Some(iat) && !addressed,
            None => false,
        },
{
    let mut claims = serde_json::Map::new();
    claims.insert(String::from("sub"), serde_json::Value::from(sub));
    claims.insert(String::from("exp"), serde_json::Value::from(exp));
    claims.insert(String::from("iat"), serde_json::Value::from(iat));
    jsonwebtoken::encode(&Header::default(), &claims, &EncodingKey::from_secret(secret))
}

/// Why a token is not read.
#[derive(Debug, Clone, Copy, PartialEq, Eq, Structural)]
pub enum ReadError {
    /// The token is signed under the secret, but has expired.
    Expired,
    /// The token is not signed under the secret, misses a claim, or is meant for somebody else.
    Invalid,
}

/// Calls `jsonwebtoken::decode` with the default validation. It first checks the signature and
/// that there is an expiry, then compares the expiry with the clock of the machine, and then
/// refuses a token that names an audience. Only the comparison depends on anything but the
/// arguments, and it alone has the error `ExpiredSignature`: so that error comes only for a token
/// that is signed and that is at some time refused so, and any other error says that the token would be refused at any time. Which
/// tokens have expired is left unsaid, and so is what becomes of a clock that stands before the
/// first minute of the epoch, with which the comparison cannot be made.
#[verifier::external_body]
fn jwt_decode(token: &str, secret: &[u8]) -> (claims: Result<
    (Option<String>, Option<u64>, Option<u64>),
    ReadError,
>)
    ensures
        match claims {
            Ok(carried) => match carried_claims(token@, secret@) {
                Some((sub, exp, iat, addressed, _)) => sub == carried.0.deep_view() && exp
                    == carried.1 && iat == carried.2 && !addressed,
                None => false,
            },
            Err(ReadError::Expired) => match carried_claims(token@, secret@) {
                Some((_, _, _, _, expires)) => expires,
                None => false,
            },
            Err(ReadError::Invalid) => match carried_claims(token@, secret@) {
                Some((_, _, _, addressed, _)) => addressed,
                None => true,
            },
        },
{
    let key = DecodingKey::from_secret(secret);
    match jsonwebtoken::decode::<serde_json::Value>(token, &key, &Validation::default()) {
        Ok(data) => {
            let sub = data.claims["sub"].as_str().map(String::from);
            Ok((sub, data.claims["exp"].as_u64(), data.claims["iat"].as_u64()))
        },
        Err(error) => match error.kind() {
            ErrorKind::ExpiredSignature => Err(ReadError::Expired),
            _ => Err(ReadError::Invalid),
        },
    }
}

/// For how long a token holds, in seconds.
pub const TOKEN_LIFETIME: u64 = 86400;

/// Why a token could not be signed.
#[derive(Debug, PartialEq, Eq)]
pub struct SigningError {
    pub message: String,
}

/// The claims of a token that is issued to a user at a time in milliseconds since the epoch:
/// they hold for a day.
pub open spec fn claims_at(user_id: Seq<char>, millis: u64) -> ClaimsView {
    ClaimsView {
        sub: user_id,
        exp: (millis / 1000 + TOKEN_LIFETIME) as u64,
        iat: millis / 1000,
    }
}

/// The token for some claims under a secret text.
pub open spec fn token_for(claims: ClaimsView, secret: Seq<char>) -> Seq<char> {
    signed_token(claims.sub, claims.exp, claims.iat, vstd::utf8::encode_utf8(secret))
}

/// Whether a token is one that carries the claims under the secret, fit to stand in a header.
pub open spec fn carries(token: Seq<char>, claims: ClaimsView, secret: Seq<char>) -> bool {
    &&& !token.contains(' ')
    &&& match carried_claims(token, vstd::utf8::encode_utf8(secret)) {
        Some((sub, exp, iat, addressed, _)) => sub == Some(claims.sub) && exp == Some(claims.exp)
            && iat == Some(claims.iat) && !addressed,
        None => false,
    }
}

/// The claims that were carried, where none of the three is missing.
pub open spec fn complete_claims(
    carried: (Option<Seq<char>>, Option<u64>, Option<u64>),
) -> Option<ClaimsView> {
    match carried {
        (Some(sub), Some(exp), Some(iat)) => Some(ClaimsView { sub, exp, iat }),
        _ => None,
    }
}

/// The claims in a token that is signed under the secret, misses none of the three and names no
/// audience.
pub open spec fn claims_in(token: Seq<char>, secret: Seq<char>) -> Option<ClaimsView> {
    match carried_claims(token, vstd::utf8::encode_utf8(secret)) {
        Some((sub, exp, iat, addressed, _)) => if addressed {
            None
        } else {
            complete_claims((sub, exp, iat))
        },
        None => None,
    }
}

/// Whether a token is signed under the secret and has an expiry.
pub open spec fn signed_under(token: Seq<char>, secret: Seq<char>) -> bool {
    carried_claims(token, vstd::utf8::encode_utf8(secret)) is Some
}

/// Whether a token is signed under the secret and there is a time at which it is refused as
/// expired.
pub open spec fn may_expire(token: Seq<char>, secret: Seq<char>) -> bool {
    match carried_claims(token, vstd::utf8::encode_utf8(secret)) {
        Some((_, _, _, _, expires)) => expires,
        None => false,
    }
}

/// The claims of a token that is issued to a user at a time in milliseconds since the epoch: they
/// name the user, and hold from that second on for a day.
pub fn new_claims(user_id: String, millis: u64) -> (claims: Claims)
    ensures
        claims@ == claims_at(user_id@, millis),
        claims@.exp == claims@.iat + TOKEN_LIFETIME,
        claims.sub@ == user_id@,
        claims.iat == millis / 1000,
        claims.exp == millis / 1000 + 86400,
{
    let issued_at: u64 = millis / 1000;
    let expiration: u64 = issued_at + TOKEN_LIFETIME;
    Claims { sub: user_id, exp: expiration, iat: issued_at }
}

/// Signs a token.
pub fn issue_token(claims: &Claims, secret: &str) -> (token: Result<String, SigningError>)
    ensures
        token matches Ok(text) && text@ == token_for(claims@, secret@) && carries(
            text@,
            claims@,
            secret@,
        ),
        token matches Ok(text) && text@ == signed_token(
            claims.sub@,
            claims.exp,
            claims.iat,
            vstd::utf8::encode_utf8(secret@),
        ) && (carried_claims(text@, vstd::utf8::encode_utf8(secret@)) matches Some(
            (sub, exp, iat, addressed, _),
        ) && sub == Some(claims.sub@) && exp == Some(claims.exp) && iat == Some(claims.iat)
            && !addressed),
{
    match jwt_encode(claims.sub.as_str(), claims.exp, claims.iat, secret.as_bytes()) {
        Ok(text) => Ok(text),
        Err(error) => Err(SigningError { message: error.to_string() }),
    }
}

/// The claims that were carried, where none of the three is missing.
pub fn completed(carried: (Option<String>, Option<u64>, Option<u64>)) -> (claims: Option<Claims>)
    ensures
        match claims {
            Some(claims) => complete_claims((carried.0.deep_view(), carried.1, carried.2)) == Some(
                claims@,
            ),
            None => complete_claims((carried.0.deep_view(), carried.1, carried.2)) is None,
        },
        match (carried, claims) {
            ((Some(sub), Some(exp), Some(iat)), Some(claims)) => claims.sub@ == sub@ && claims.exp
                == exp && claims.iat == iat,
            ((Some(_), Some(_), Some(_)), None) => false,
            (_, Some(_)) => false,
            (_, None) => true,
        },
{
    match carried {
        (Some(sub), Some(exp), Some(iat)) => Some(Claims { sub, exp, iat }),
        _ => None,
    }
}

/// What is read from a token, once it has been decoded: the claims, where none is missing, and
/// otherwise that the token is invalid; an error is handed on.
pub fn claims_of(
    outcome: Result<(Option<String>, Option<u64>, Option<u64>), ReadError>,
) -> (claims: Result<Claims, ReadError>)
    ensures
        match outcome {
            Ok(carried) => match complete_claims((carried.0.deep_view(), carried.1, carried.2)) {
                Some(complete) => claims matches Ok(claims) && claims@ == complete,
                None => claims == Err::<Claims, ReadError>(ReadError::Invalid),
            },
            Err(error) => claims == Err::<Claims, ReadError>(error),
        },
        match (outcome, claims) {
            (Ok((Some(sub), Some(exp), Some(iat))), Ok(claims)) => claims.sub@ == sub@
                && claims.exp == exp && claims.iat == iat,
            (Ok((Some(_), Some(_), Some(_))), Err(_)) => false,
            (_, Ok(_)) => false,
            _ => true,
        },
{
    match outcome {
        Ok(carried) => match completed(carried) {
            Some(claims) => Ok(claims),
            None => Err(ReadError::Invalid),
        },
        Err(error) => Err(error),
    }
}

/// Reads a token. It gives the claims that stand in the token, signed under the secret. A token
/// in which claims stand is refused only where the decoder finds it expired, which depends on the
/// time; it is refused as invalid only where no claims stand in it.
pub fn read_token(token: &str, secret: &str) -> (claims: Result<Claims, ReadError>)
    ensures
        match claims {
            Ok(claims) => claims_in(token@, secret@) == Some(claims@),
            Err(ReadError::Expired) => signed_under(token@, secret@) && may_expire(
                token@,
                secret@,
            ),
            Err(ReadError::Invalid) => claims_in(token@, secret@) is None,
        },
        match (claims, carried_claims(token@, vstd::utf8::encode_utf8(secret@))) {
            (Ok(claims), Some((sub, exp, iat, addressed, _))) => sub == Some(claims.sub@) && exp
                == Some(claims.exp) && iat == Some(claims.iat) && !addressed,
            (Err(ReadError::Expired), Some((_, _, _, _, expires))) => expires,
            (Err(ReadError::Invalid), Some((sub, exp, iat, addressed, _))) => addressed
                || sub is None || exp is None || iat is None,
            (Err(ReadError::Invalid), None) => true,
            _ => false,
        },
{
    claims_of(jwt_decode(token, secret.as_bytes()))
}

} // verus!
