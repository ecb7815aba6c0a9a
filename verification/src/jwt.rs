//! Signed tokens: reading the claims of one, and signing claims.

use crate::document::{
    deepest, flat_members, flat_object_is_written, member, number_in, plain_name, readable, written,
    Json,
};
use crate::json::{
    find_member_u64, flat_object, json_member_u64, json_string, object_text, scalar,
};
use crate::text::decimal;
use vstd::prelude::*;

verus! {

/// The text of the claims that a token carries, where it is signed with the secret by HMAC with
/// SHA-256 and its claims are UTF-8 and name a time of expiry, whether or not that time has come.
pub uninterp spec fn token_claims(token: Seq<char>, secret: Seq<char>) -> Option<Seq<char>>;

/// The token that carries the claims and is signed with the secret by HMAC with SHA-256.
pub uninterp spec fn signed_token(claims: Seq<char>, secret: Seq<char>) -> Seq<char>;

/// The members are claims that a token can carry: strings, numbers and nulls, no name twice,
/// and a time of expiry in 64 bits.
pub open spec fn claim_members(members: Seq<(Seq<char>, Seq<char>)>) -> bool {
    &&& forall|i: int| 0 <= i < members.len() ==> scalar(#[trigger] members[i].1)
    &&& forall|i: int, j: int|
        0 <= i < j < members.len() ==> (#[trigger] members[i]).0 != (#[trigger] members[j]).0
    &&& exists|i: int, n: nat|
        #![trigger members[i], decimal(n)]
        0 <= i < members.len() && members[i].0 == "exp"@ && members[i].1 == decimal(n) && n
            <= u64::MAX
}

/// The text is a flat object with a time of expiry.
pub open spec fn claims_text(text: Seq<char>) -> bool {
    exists|members: Seq<(Seq<char>, Seq<char>)>|
        #![trigger object_text(members)]
        text == object_text(members) && claim_members(members)
}

/// `jsonwebtoken::decode` for HS256, with the checks of expiry and audience switched off: the text
/// of the claims, and nothing for a token that is not signed with the secret or whose claims name
/// no time of expiry or are not UTF-8.
#[verifier::external_body]
fn decode_token(token: &str, secret: &str) -> (r: Option<String>)
    ensures
        r is Some <==> token_claims(token@, secret@) is Some,
        r is Some ==> r->0@ == token_claims(token@, secret@)->0,
{
    let key = jsonwebtoken::DecodingKey::from_secret(secret.as_bytes());
    let mut v = jsonwebtoken::Validation::new(jsonwebtoken::Algorithm::HS256);
    v.validate_exp = false;
    v.validate_aud = false;
    let data = jsonwebtoken::decode::<Box<serde_json::value::RawValue>>(token, &key, &v).ok()?;
    Some(data.claims.get().to_owned())
}

/// `jsonwebtoken::encode` for HS256 of a JSON text: the signed token. A flat object can be signed,
/// and what is read back of a token under the same secret is what was signed, where it is a
/// flat object with a time of expiry.
#[verifier::external_body]
fn encode_token(claims: &str, secret: &str) -> (r: Option<String>)
    ensures
        flat_object(claims@) ==> r is Some,
        r is Some ==> r->0@ == signed_token(claims@, secret@),
        r is Some && claims_text(claims@) ==> token_claims(r->0@, secret@) == Some(claims@),
{
    let key = jsonwebtoken::EncodingKey::from_secret(secret.as_bytes());
    let header = jsonwebtoken::Header::new(jsonwebtoken::Algorithm::HS256);
    let raw = serde_json::value::RawValue::from_string(claims.to_owned()).ok()?;
    jsonwebtoken::encode(&header, &raw, &key).ok()
}

/// How long a token is still taken after its time of expiry, in seconds.
pub const EXPIRY_LEEWAY_SECS: u64 = 60;

/// The time of expiry is there, and has not come, or not long ago.
pub open spec fn in_time(exp: Option<u64>, now: u64) -> bool {
    exp is Some && exp->0 + EXPIRY_LEEWAY_SECS >= now
}

/// Says whether a token with the given time of expiry, if any, is still taken.
pub fn is_in_time(exp: Option<u64>, now: u64) -> (r: bool)
    ensures
        r == in_time(exp, now),
{
    match exp {
        Some(exp) => now <= EXPIRY_LEEWAY_SECS || now - EXPIRY_LEEWAY_SECS <= exp,
        None => false,
    }
}

/// The token is signed with the secret, and its claims name a time of expiry, a whole number of
/// seconds, that has not come, or not long ago.
pub open spec fn acceptable(token: Seq<char>, secret: Seq<char>, now: u64) -> bool {
    &&& token_claims(token, secret) is Some
    &&& in_time(json_member_u64(token_claims(token, secret)->0, "exp"@), now)
}

/// The members of the claims of an agent.
pub open spec fn agent_members(subject: Seq<char>, room: Seq<char>, exp: nat) -> Seq<
    (Seq<char>, Seq<char>),
> {
    seq![
        ("sub"@, json_string(subject)),
        ("role"@, json_string("agent"@)),
        ("room"@, json_string(room)),
        ("exp"@, decimal(exp)),
    ]
}

/// The claims of an agent, as they are signed.
pub open spec fn agent_claims(subject: Seq<char>, room: Seq<char>, exp: nat) -> Seq<char> {
    object_text(agent_members(subject, room, exp))
}

/// The members of the claims of an agent, as parts of a document.
pub open spec fn agent_parts(subject: Seq<char>, room: Seq<char>, exp: u64) -> Seq<
    (Seq<char>, Json),
> {
    seq![
        ("sub"@, Json::Text(subject)),
        ("role"@, Json::Text("agent"@)),
        ("room"@, Json::Text(room)),
        ("exp"@, Json::Number(exp)),
    ]
}

/// The claims of an agent are a document that can be read, and name their time of expiry.
pub proof fn agent_claims_are_written(subject: Seq<char>, room: Seq<char>, exp: u64)
    ensures
        agent_claims(subject, room, exp as nat) == written(
            Json::Object(agent_parts(subject, room, exp)),
        ),
        readable(Json::Object(agent_parts(subject, room, exp)), deepest()),
        number_in(member(agent_parts(subject, room, exp), "exp"@)) == Some(exp),
{
    let parts = agent_parts(subject, room, exp);
    flat_object_is_written(parts);
    assert(flat_members(parts) =~= agent_members(subject, room, exp as nat));
    reveal_strlit("sub");
    reveal_strlit("role");
    reveal_strlit("room");
    reveal_strlit("exp");
    assert("sub"@.len() == 3 && "role"@.len() == 4 && "room"@.len() == 4 && "exp"@.len() == 3);
    assert("sub"@[0] == 's' && "exp"@[0] == 'e' && "role"@[2] == 'l' && "room"@[2] == 'o');
    assert forall|i: int| 0 <= i < parts.len() implies plain_name((#[trigger] parts[i]).0)
        && readable(parts[i].1, (deepest() - 1) as nat) by {
        assert(i == 0 || i == 1 || i == 2 || i == 3);
    }
    assert(parts.last() == parts[3]);
}

/// Reads the claims of a token at the given time, in seconds. One that is not signed with the
/// secret, or has expired, has none; its audience is not looked at.
///
/// Of claims that are written as a document the time of expiry is the member `exp`. So the claims
/// that an agent signs are read until they expire.
pub fn read_claims(token: &str, secret: &str, now: u64) -> (r: Option<String>)
    ensures
        r is Some <==> acceptable(token@, secret@, now),
        r is Some ==> token_claims(token@, secret@) == Some(r->0@),
        forall|members: Seq<(Seq<char>, Json)>|
            readable(Json::Object(members), deepest()) && token_claims(token@, secret@) == Some(
                #[trigger] written(Json::Object(members)),
            ) ==> (r is Some <==> in_time(number_in(member(members, "exp"@)), now)),
        forall|subject: Seq<char>, room: Seq<char>, exp: nat|
            exp <= u64::MAX && token_claims(token@, secret@) == Some(
                #[trigger] agent_claims(subject, room, exp),
            ) ==> (r is Some <==> exp + EXPIRY_LEEWAY_SECS >= now),
{
    let claims: String = match decode_token(token, secret) {
        Some(claims) => claims,
        None => {
            return None;
        },
    };
    let exp: Option<u64> = find_member_u64(claims.as_str(), "exp");
    proof {
        assert forall|subject: Seq<char>, room: Seq<char>, at: nat|
            at <= u64::MAX && claims@ == #[trigger] agent_claims(subject, room, at) implies exp
            == Some(at as u64) by {
            agent_claims_are_written(subject, room, at as u64);
        }
    }
    if is_in_time(exp, now) {
        Some(claims)
    } else {
        None
    }
}

/// Signs claims.
pub fn sign_claims(claims: &str, secret: &str) -> (r: Option<String>)
    ensures
        flat_object(claims@) ==> r is Some,
        r is Some ==> r->0@ == signed_token(claims@, secret@),
        r is Some && claims_text(claims@) ==> token_claims(r->0@, secret@) == Some(claims@),
{
    encode_token(claims, secret)
}

/// A token is taken up to a minute after its time of expiry, and not a second longer; one that
/// names no such time is not taken.
pub proof fn tokens_are_taken_a_minute_longer(exp: u64, now: u64)
    ensures
        in_time(Some(exp), now) <==> now <= exp + 60,
        !in_time(None, now),
        EXPIRY_LEEWAY_SECS == 60,
{
}

/// The claims of an agent are an object that says who the agent is, that its role is that of an
/// agent, which room it is for, and when it expires.
pub proof fn agents_claim_their_role(subject: Seq<char>, room: Seq<char>, exp: u64)
    ensures
        agent_claims(subject, room, exp as nat) == written(
            Json::Object(
                seq![
                    ("sub"@, Json::Text(subject)),
                    ("role"@, Json::Text("agent"@)),
                    ("room"@, Json::Text(room)),
                    ("exp"@, Json::Number(exp)),
                ],
            ),
        ),
{
    agent_claims_are_written(subject, room, exp);
    assert(agent_parts(subject, room, exp) =~= seq![
        ("sub"@, Json::Text(subject)),
        ("role"@, Json::Text("agent"@)),
        ("room"@, Json::Text(room)),
        ("exp"@, Json::Number(exp)),
    ]);
}

} // verus!
