//! Admission: who may join a room, and in which of the two modes.

use crate::document::{deepest, member, number_in, readable, written, Json};
use crate::jwt::{
    acceptable, agent_claims, in_time, read_claims, token_claims, EXPIRY_LEEWAY_SECS,
};
use crate::text::same;
use vstd::prelude::*;

verus! {

/// The claims of a token.
#[derive(Debug)]
pub struct Claims {
    pub sub: String,
    pub role: String,
    pub room: String,
    pub exp: u64,
    pub rdp_target: Option<RdpTarget>,
    pub auth_mode: Option<String>,
}

/// The host that a session without an agent goes to.
#[derive(Debug)]
pub struct RdpTarget {
    pub host: String,
    pub port: u16,
    pub username: String,
    pub password: String,
    pub domain: Option<String>,
}

/// Why a peer is turned away.
#[derive(Clone, Copy, Debug, PartialEq, Eq, Structural)]
pub enum Rejection {
    Unauthorized,
    Forbidden,
}

impl Rejection {
    /// The HTTP status that a peer is turned away with.
    pub open spec fn status_of(self) -> u16 {
        match self {
            Rejection::Unauthorized => 401,
            Rejection::Forbidden => 403,
        }
    }

    /// The HTTP status that a peer is turned away with.
    pub fn status(&self) -> (r: u16)
        ensures
            r == self.status_of(),
    {
        match self {
            Rejection::Unauthorized => 401,
            Rejection::Forbidden => 403,
        }
    }
}

/// Turns the outcome of reading a token into an answer: a token that gave no claims is not
/// authorized.
pub fn claims_or_reject<T>(decoded: Option<T>) -> (r: Result<T, Rejection>)
    ensures
        r == (match decoded {
            Some(claims) => Ok::<T, Rejection>(claims),
            None => Err::<T, Rejection>(Rejection::Unauthorized),
        }),
{
    match decoded {
        Some(claims) => Ok(claims),
        None => Err(Rejection::Unauthorized),
    }
}

/// Reads the claims of a token that a peer brings, at the given time, in seconds. A token that is
/// not signed with the secret, names no time of expiry or has expired is turned away as not
/// authorized, and no other is: the claims of an agent are read with the token that it signed
/// until that token expires.
pub fn validate_jwt(token: &str, secret: &str, now: u64) -> (r: Result<String, Rejection>)
    ensures
        r is Ok <==> acceptable(token@, secret@, now),
        r is Ok ==> token_claims(token@, secret@) == Some(r->Ok_0@),
        r is Err ==> r->Err_0 == Rejection::Unauthorized,
        forall|members: Seq<(Seq<char>, Json)>|
            readable(Json::Object(members), deepest()) && token_claims(token@, secret@) == Some(
                #[trigger] written(Json::Object(members)),
            ) ==> (r is Ok <==> in_time(number_in(member(members, "exp"@)), now)),
        forall|subject: Seq<char>, room: Seq<char>, exp: nat|
            exp <= u64::MAX && token_claims(token@, secret@) == Some(
                #[trigger] agent_claims(subject, room, exp),
            ) ==> (r is Ok <==> exp + EXPIRY_LEEWAY_SECS >= now),
{
    claims_or_reject(read_claims(token, secret, now))
}

/// How an admitted peer is served.
#[derive(Debug)]
pub enum Admission {
    /// A bridge to an RDP host.
    Bridge { target: RdpTarget, auth_mode: String },
    /// A place in a signalling room.
    Relay { sub: String, role: String },
}

/// The way of logging in that a token asks for, and network level authentication where it asks
/// for none.
pub open spec fn auth_mode_of(claims: Claims) -> Seq<char> {
    match claims.auth_mode {
        Some(mode) => mode@,
        None => "nla"@,
    }
}

/// Admits a peer to the room that its token is for, and to no other. A token with a target leads
/// to a bridge, one without to the room.
pub fn ws_handler(claims: Claims, room_id: &str) -> (r: Result<Admission, Rejection>)
    ensures
        claims.room@ != room_id@ ==> r == Err::<Admission, Rejection>(Rejection::Forbidden),
        claims.room@ == room_id@ ==> r is Ok && match claims.rdp_target {
            Some(target) => r->Ok_0 is Bridge && r->Ok_0->target == target && r->Ok_0->auth_mode@
                == auth_mode_of(claims),
            None => r->Ok_0 == (Admission::Relay { sub: claims.sub, role: claims.role }),
        },
{
    if !same(claims.room.as_str(), room_id) {
        return Err(Rejection::Forbidden);
    }
    match claims.rdp_target {
        Some(target) => {
            let auth_mode: String = match claims.auth_mode {
                Some(mode) => mode,
                None => "nla".to_owned(),
            };
            Ok(Admission::Bridge { target, auth_mode })
        },
        None => Ok(Admission::Relay { sub: claims.sub, role: claims.role }),
    }
}

/// A peer that is not known is told so by the status 401, and one that has no business in the room
/// by 403; a token that does not say how to log in asks for network level authentication.
pub proof fn rejections_have_their_status(claims: Claims)
    ensures
        Rejection::Unauthorized.status_of() == 401,
        Rejection::Forbidden.status_of() == 403,
        claims.auth_mode is Some ==> auth_mode_of(claims) == claims.auth_mode->0@,
        claims.auth_mode is None ==> auth_mode_of(claims) == seq!['n', 'l', 'a'],
{
    reveal_strlit("nla");
    assert("nla"@ =~= seq!['n', 'l', 'a']);
}

} // verus!
