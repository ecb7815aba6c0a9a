//! The signalling: what the broker and the peer tell the agent, and what the agent tells them.

use crate::broker::ice::{
    config_is_written, config_members, config_text, optional_member, server_item, server_items,
    server_members, server_views, text_items, IceServer, IceServerView,
};
use crate::broker::input::low16;
use crate::broker::relay::joined_text;
use crate::document::{
    at, deepest, flat_members, flat_object_is_written, looks_up, member, members_are_looked_up,
    number_in, one_member, one_step, place_of, plain_name, plain_text_is_not_escaped, readable,
    text_in, unescaped, written, Json, Step,
};
use crate::json::{
    find_len, find_str, find_u64, flat_object, is_json, json_len_at, json_str_at, json_string,
    json_u64_at, json_valid, object_text, optional_number_member, optional_text_member, pairs,
    text_member, write_object, Member,
};
use crate::text::{append_decimal, decimal, same, views};
use vstd::prelude::*;

verus! {

/// Why the broker's first message cannot be used.
#[derive(Clone, Copy, Debug, PartialEq, Eq, Structural)]
pub enum BrokerConfigError {
    /// It is no JSON document.
    NotJson,
    /// It names no list of servers.
    NoIceServers,
}

/// A place in the list of servers.
pub open spec fn server_place(i: nat, member: Seq<char>) -> Seq<char> {
    "/ice_servers/"@ + decimal(i) + member
}

/// A place in the list of a server's addresses.
pub open spec fn url_place(i: nat, k: nat) -> Seq<char> {
    server_place(i, "/urls/"@) + decimal(k)
}

/// The text of a string that may be missing.
pub open spec fn text_of(s: Option<String>) -> Option<Seq<char>> {
    match s {
        Some(s) => Some(s@),
        None => None,
    }
}

/// A text that may be missing; then it is empty.
pub open spec fn text_or_empty(text: Option<Seq<char>>) -> Seq<char> {
    match text {
        Some(t) => t,
        None => Seq::empty(),
    }
}

/// The number of addresses of a server: none where they are missing.
pub open spec fn url_count(text: Seq<char>, i: nat) -> nat {
    match json_len_at(text, server_place(i, "/urls"@)) {
        Some(n) => n as nat,
        None => 0,
    }
}

/// A server as the broker's message has it. What is missing, or is no text, is empty.
pub open spec fn server_in(text: Seq<char>, i: nat) -> IceServerView {
    IceServerView {
        urls: Seq::new(
            url_count(text, i),
            |k: int| text_or_empty(json_str_at(text, url_place(i, k as nat))),
        ),
        username: text_or_empty(json_str_at(text, server_place(i, "/username"@))),
        credential: text_or_empty(json_str_at(text, server_place(i, "/credential"@))),
    }
}

/// The servers as the broker's message has them.
pub open spec fn servers_in(text: Seq<char>, count: nat) -> Seq<IceServerView> {
    Seq::new(count, |i: int| server_in(text, i as nat))
}

fn place_in_server(i: usize, member: &str) -> (r: String)
    ensures
        r@ == server_place(i as nat, member@),
{
    let mut place: String = "/ice_servers/".to_owned();
    append_decimal(&mut place, i as u64);
    place.append(member);
    place
}

/// The texts of a list; what is no text is empty.
pub open spec fn texts_of(items: Seq<Option<String>>) -> Seq<Seq<char>> {
    items.map_values(|item: Option<String>| text_or_empty(text_of(item)))
}

/// Makes a server of what was found of it. What is missing, or is no text, is empty.
pub fn make_server(
    urls: Vec<Option<String>>,
    username: Option<String>,
    credential: Option<String>,
) -> (r: IceServer)
    ensures
        r@ == (IceServerView {
            urls: texts_of(urls@),
            username: text_or_empty(text_of(username)),
            credential: text_or_empty(text_of(credential)),
        }),
{
    let ghost all = urls@;
    let mut texts: Vec<String> = Vec::new();
    for url in it: urls
        invariant
            it.seq() == all,
            views(texts@) == texts_of(all.take(it.index() as int)),
    {
        let ghost before = texts@;
        let text: String = unwrap_text(url);
        texts.push(text);
        proof {
            let n = it.index() as int;
            assert(all.take(n + 1) =~= all.take(n).push(url));
            assert(views(texts@) =~= views(before).push(text@));
            assert(texts_of(all.take(n + 1)) =~= texts_of(all.take(n)).push(text@));
        }
    }
    assert(all.take(all.len() as int) =~= all);
    IceServer {
        urls: texts,
        username: unwrap_text(username),
        credential: unwrap_text(credential),
    }
}

fn unwrap_text(text: Option<String>) -> (r: String)
    ensures
        r@ == text_or_empty(text_of(text)),
{
    match text {
        Some(t) => t,
        None => String::new(),
    }
}

proof fn server_members_are_found(server: IceServerView)
    ensures
        member(server_members(server), "urls"@) == Some(Json::List(text_items(server.urls))),
        text_or_empty(text_in(member(server_members(server), "username"@))) == server.username,
        text_or_empty(text_in(member(server_members(server), "credential"@))) == server.credential,
        plain_name("urls"@) && plain_name("username"@) && plain_name("credential"@),
{
    reveal_strlit("urls");
    reveal_strlit("username");
    reveal_strlit("credential");
    reveal_with_fuel(member, 4);
    let one = seq![("urls"@, Json::List(text_items(server.urls)))];
    let two = one + optional_member("username"@, server.username);
    let three = two + optional_member("credential"@, server.credential);
    assert("urls"@.len() == 4 && "username"@.len() == 8 && "credential"@.len() == 10);
    assert(one.drop_last() =~= Seq::<(Seq<char>, Json)>::empty());
    if server.username.len() > 0 {
        assert(two.drop_last() =~= one);
    } else {
        assert(two =~= one);
        assert(server.username =~= Seq::<char>::empty());
    }
    if server.credential.len() > 0 {
        assert(three.drop_last() =~= two);
    } else {
        assert(three =~= two);
        assert(server.credential =~= Seq::<char>::empty());
    }
}

/// The path to the list of servers.
spec fn list_path() -> Seq<Step> {
    seq![Step::Name("ice_servers"@)]
}

/// The path to a member of a server.
spec fn server_path(i: nat, name: Seq<char>) -> Seq<Step> {
    list_path().push(Step::Index(i)).push(Step::Name(name))
}

proof fn servers_are_looked_up(text: Seq<char>, servers: Seq<IceServerView>)
    requires
        text == config_text(servers),
    ensures
        looks_up(text, Json::Object(config_members(servers)), "/ice_servers"@, list_path()),
        at(Json::Object(config_members(servers)), list_path()) == Some(
            Json::List(server_items(servers)),
        ),
        place_of(list_path()) == "/ice_servers"@,
{
    config_is_written(servers);
    reveal_strlit("ice_servers");
    reveal_strlit("/ice_servers");
    assert("/ice_servers"@ =~= seq!['/'] + "ice_servers"@);
    members_are_looked_up(text, config_members(servers), "/ice_servers"@, "ice_servers"@);
}

proof fn server_member_is_looked_up(
    text: Seq<char>,
    servers: Seq<IceServerView>,
    i: nat,
    name: Seq<char>,
    place: Seq<char>,
)
    requires
        text == config_text(servers),
        i < servers.len(),
        plain_name(name),
        place == server_place(i, seq!['/'] + name),
    ensures
        looks_up(text, Json::Object(config_members(servers)), place, server_path(i, name)),
        at(Json::Object(config_members(servers)), server_path(i, name)) == member(
            server_members(servers[i as int]),
            name,
        ),
        place_of(server_path(i, name)) == place,
{
    let doc = Json::Object(config_members(servers));
    servers_are_looked_up(text, servers);
    one_step(doc, list_path(), Step::Index(i));
    one_step(doc, list_path().push(Step::Index(i)), Step::Name(name));
    assert(server_items(servers)[i as int] == server_item(servers[i as int]));
    reveal_strlit("/ice_servers");
    reveal_strlit("/ice_servers/");
    assert("/ice_servers/"@ =~= "/ice_servers"@ + seq!['/']);
    assert(place =~= "/ice_servers"@ + seq!['/'] + decimal(i) + seq!['/'] + name);
}

proof fn url_is_looked_up(
    text: Seq<char>,
    servers: Seq<IceServerView>,
    i: nat,
    k: nat,
)
    requires
        text == config_text(servers),
        i < servers.len(),
        k < servers[i as int].urls.len(),
    ensures
        looks_up(
            text,
            Json::Object(config_members(servers)),
            url_place(i, k),
            server_path(i, "urls"@).push(Step::Index(k)),
        ),
        at(
            Json::Object(config_members(servers)),
            server_path(i, "urls"@).push(Step::Index(k)),
        ) == Some(Json::Text(servers[i as int].urls[k as int])),
{
    let doc = Json::Object(config_members(servers));
    let place = server_place(i, seq!['/'] + "urls"@);
    server_members_are_found(servers[i as int]);
    server_member_is_looked_up(text, servers, i, "urls"@, place);
    one_step(doc, server_path(i, "urls"@), Step::Index(k));
    reveal_strlit("urls");
    reveal_strlit("/urls/");
    assert("/urls/"@ =~= seq!['/'] + "urls"@ + seq!['/']);
    assert(url_place(i, k) =~= place + seq!['/'] + decimal(k));
}

fn read_server(text: &str, i: usize) -> (r: IceServer)
    ensures
        r@ == server_in(text@, i as nat),
        forall|servers: Seq<IceServerView>|
            text@ == #[trigger] config_text(servers) && i < servers.len() ==> r@
                == servers[i as int],
{
    proof {
        reveal_strlit("urls");
        reveal_strlit("/urls");
        reveal_strlit("username");
        reveal_strlit("/username");
        reveal_strlit("credential");
        reveal_strlit("/credential");
        assert("/urls"@ =~= seq!['/'] + "urls"@);
        assert("/username"@ =~= seq!['/'] + "username"@);
        assert("/credential"@ =~= seq!['/'] + "credential"@);
    }
    let count_place: String = place_in_server(i, "/urls");
    let found: Option<usize> = find_len(text, count_place.as_str());
    let count: usize = match found {
        Some(n) => n,
        None => 0,
    };
    proof {
        assert forall|servers: Seq<IceServerView>|
            text@ == #[trigger] config_text(servers) && i < servers.len() implies count
            == servers[i as int].urls.len() by {
            server_members_are_found(servers[i as int]);
            server_member_is_looked_up(text@, servers, i as nat, "urls"@, count_place@);
        }
    }
    let ghost wanted = server_in(text@, i as nat).urls;
    let mut urls: Vec<Option<String>> = Vec::new();
    let mut k: usize = 0;
    assert(texts_of(urls@) =~= wanted.take(0));
    while k < count
        invariant
            k <= count,
            count == url_count(text@, i as nat),
            wanted == server_in(text@, i as nat).urls,
            wanted.len() == count,
            texts_of(urls@) == wanted.take(k as int),
            forall|servers: Seq<IceServerView>|
                text@ == #[trigger] config_text(servers) && i < servers.len() ==> count
                    == servers[i as int].urls.len() && wanted.take(k as int)
                    == servers[i as int].urls.take(k as int),
        decreases count - k,
    {
        let mut place: String = place_in_server(i, "/urls/");
        append_decimal(&mut place, k as u64);
        let url: Option<String> = find_str(text, place.as_str());
        let ghost before = urls@;
        urls.push(url);
        proof {
            assert(texts_of(urls@) =~= texts_of(before).push(wanted[k as int]));
            assert(wanted.take(k + 1) =~= wanted.take(k as int).push(wanted[k as int]));
            assert forall|servers: Seq<IceServerView>|
                text@ == #[trigger] config_text(servers) && i < servers.len() implies wanted.take(
                k + 1,
            ) == servers[i as int].urls.take(k + 1) by {
                let all = servers[i as int].urls;
                url_is_looked_up(text@, servers, i as nat, k as nat);
                assert(all.take(k + 1) =~= all.take(k as int).push(all[k as int]));
            }
        }
        k = k + 1;
    }
    assert(wanted.take(wanted.len() as int) =~= wanted);
    let user_place: String = place_in_server(i, "/username");
    let credential_place: String = place_in_server(i, "/credential");
    let username: Option<String> = find_str(text, user_place.as_str());
    let credential: Option<String> = find_str(text, credential_place.as_str());
    let server: IceServer = make_server(urls, username, credential);
    proof {
        assert forall|servers: Seq<IceServerView>|
            text@ == #[trigger] config_text(servers) && i < servers.len() implies server@
            == servers[i as int] by {
            let told = servers[i as int];
            server_members_are_found(told);
            server_member_is_looked_up(text@, servers, i as nat, "username"@, user_place@);
            server_member_is_looked_up(text@, servers, i as nat, "credential"@, credential_place@);
            assert(told.urls.take(told.urls.len() as int) =~= told.urls);
            assert(server@ =~= told);
        }
    }
    server
}

/// Reads the servers out of the broker's first message. Whatever servers the broker tells of are
/// the servers that are read.
pub fn read_broker_config(text: &str) -> (r: Result<Vec<IceServer>, BrokerConfigError>)
    ensures
        !json_valid(text@) ==> r == Err::<Vec<IceServer>, BrokerConfigError>(
            BrokerConfigError::NotJson,
        ),
        json_valid(text@) && json_len_at(text@, "/ice_servers"@) is None ==> r == Err::<
            Vec<IceServer>,
            BrokerConfigError,
        >(BrokerConfigError::NoIceServers),
        json_valid(text@) && json_len_at(text@, "/ice_servers"@) is Some ==> r is Ok
            && server_views(r->Ok_0@) == servers_in(
            text@,
            json_len_at(text@, "/ice_servers"@)->0 as nat,
        ),
        forall|servers: Seq<IceServerView>| text@ == #[trigger] config_text(servers) ==> r is Ok
            && server_views(r->Ok_0@) == servers,
{
    let valid: bool = is_json(text);
    proof {
        assert forall|servers: Seq<IceServerView>|
            text@ == #[trigger] config_text(servers) implies valid by {
            config_is_written(servers);
        }
    }
    if !valid {
        return Err(BrokerConfigError::NotJson);
    }
    let found: Option<usize> = find_len(text, "/ice_servers");
    proof {
        assert forall|servers: Seq<IceServerView>|
            text@ == #[trigger] config_text(servers) implies found is Some && found->0
            == servers.len() by {
            servers_are_looked_up(text@, servers);
        }
    }
    let count: usize = match found {
        Some(n) => n,
        None => {
            return Err(BrokerConfigError::NoIceServers);
        },
    };
    let ghost wanted = servers_in(text@, count as nat);
    let mut servers: Vec<IceServer> = Vec::new();
    let mut i: usize = 0;
    assert(server_views(servers@) =~= wanted.take(0));
    while i < count
        invariant
            i <= count,
            wanted == servers_in(text@, count as nat),
            server_views(servers@) == wanted.take(i as int),
            forall|told: Seq<IceServerView>|
                text@ == #[trigger] config_text(told) ==> count == told.len() && wanted.take(
                    i as int,
                ) == told.take(i as int),
        decreases count - i,
    {
        let server: IceServer = read_server(text, i);
        let ghost before = servers@;
        servers.push(server);
        proof {
            assert(server_views(servers@) =~= server_views(before).push(server@));
            assert(wanted.take(i + 1) =~= wanted.take(i as int).push(wanted[i as int]));
            assert forall|told: Seq<IceServerView>|
                text@ == #[trigger] config_text(told) implies wanted.take(i + 1) == told.take(
                i + 1,
            ) by {
                assert(told.take(i + 1) =~= told.take(i as int).push(told[i as int]));
            }
        }
        i = i + 1;
    }
    proof {
        assert(wanted.take(wanted.len() as int) =~= wanted);
        assert forall|told: Seq<IceServerView>|
            text@ == #[trigger] config_text(told) implies server_views(servers@) == told by {
            assert(told.take(told.len() as int) =~= told);
        }
    }
    Ok(servers)
}

/// A message of the signalling.
#[derive(Debug)]
pub enum Signal {
    /// A peer has joined.
    PeerJoined,
    /// The peer answers the offer.
    Answer { sdp: String },
    /// The peer tells of a way to reach it.
    Ice { candidate: String, sdp_mid: Option<String>, sdp_mline_index: Option<u16> },
    /// Anything else.
    Other,
}

/// A message of the signalling, with its texts.
pub enum SignalView {
    PeerJoined,
    Answer { sdp: Seq<char> },
    Ice { candidate: Seq<char>, sdp_mid: Option<Seq<char>>, sdp_mline_index: Option<u16> },
    Other,
}

impl View for Signal {
    type V = SignalView;

    open spec fn view(&self) -> SignalView {
        match *self {
            Signal::PeerJoined => SignalView::PeerJoined,
            Signal::Answer { sdp } => SignalView::Answer { sdp: sdp@ },
            Signal::Ice { candidate, sdp_mid, sdp_mline_index } => SignalView::Ice {
                candidate: candidate@,
                sdp_mid: text_of(sdp_mid),
                sdp_mline_index,
            },
            Signal::Other => SignalView::Other,
        }
    }
}

/// The message that a kind and its members make.
pub open spec fn signal_of(
    kind: Option<Seq<char>>,
    sdp: Option<Seq<char>>,
    candidate: Option<Seq<char>>,
    mid: Option<Seq<char>>,
    line: Option<u64>,
) -> SignalView {
    if kind == Some("peer_joined"@) {
        SignalView::PeerJoined
    } else if kind == Some("answer"@) {
        SignalView::Answer { sdp: text_or_empty(sdp) }
    } else if kind == Some("ice"@) && candidate is Some {
        SignalView::Ice {
            candidate: candidate->0,
            sdp_mid: mid,
            sdp_mline_index: match line {
                Some(n) => Some(low16(n as int)),
                None => None,
            },
        }
    } else {
        SignalView::Other
    }
}

/// Makes a message of a kind and its members. An answer without a description has an empty one;
/// a candidate must be there.
pub fn make_signal(
    kind: Option<String>,
    sdp: Option<String>,
    candidate: Option<String>,
    mid: Option<String>,
    line: Option<u64>,
) -> (r: Signal)
    ensures
        r@ == signal_of(text_of(kind), text_of(sdp), text_of(candidate), text_of(mid), line),
{
    let kind: String = match kind {
        Some(kind) => kind,
        None => {
            return Signal::Other;
        },
    };
    if same(kind.as_str(), "peer_joined") {
        return Signal::PeerJoined;
    }
    if same(kind.as_str(), "answer") {
        return Signal::Answer {
            sdp: match sdp {
                Some(sdp) => sdp,
                None => String::new(),
            },
        };
    }
    if same(kind.as_str(), "ice") {
        if let Some(candidate) = candidate {
            let sdp_mline_index: Option<u16> = match line {
                Some(n) => Some((n % 65536) as u16),
                None => None,
            };
            return Signal::Ice { candidate, sdp_mid: mid, sdp_mline_index };
        }
    }
    Signal::Other
}

/// What a message says that is an object with the given members.
pub open spec fn signal_in(members: Seq<(Seq<char>, Json)>) -> SignalView {
    signal_of(
        text_in(member(members, "type"@)),
        text_in(member(members, "sdp"@)),
        text_in(member(members, "candidate"@)),
        text_in(member(members, "sdpMid"@)),
        number_in(member(members, "sdpMLineIndex"@)),
    )
}

proof fn signal_is_looked_up(text: Seq<char>, members: Seq<(Seq<char>, Json)>)
    requires
        readable(Json::Object(members), deepest()),
        text == written(Json::Object(members)),
    ensures
        looks_up(text, Json::Object(members), "/type"@, seq![Step::Name("type"@)]),
        at(Json::Object(members), seq![Step::Name("type"@)]) == member(members, "type"@),
        looks_up(text, Json::Object(members), "/sdp"@, seq![Step::Name("sdp"@)]),
        at(Json::Object(members), seq![Step::Name("sdp"@)]) == member(members, "sdp"@),
        looks_up(text, Json::Object(members), "/candidate"@, seq![Step::Name("candidate"@)]),
        at(Json::Object(members), seq![Step::Name("candidate"@)]) == member(members, "candidate"@),
        looks_up(text, Json::Object(members), "/sdpMid"@, seq![Step::Name("sdpMid"@)]),
        at(Json::Object(members), seq![Step::Name("sdpMid"@)]) == member(members, "sdpMid"@),
        looks_up(text, Json::Object(members), "/sdpMLineIndex"@, seq![Step::Name("sdpMLineIndex"@)]),
        at(Json::Object(members), seq![Step::Name("sdpMLineIndex"@)]) == member(
            members,
            "sdpMLineIndex"@,
        ),
{
    reveal_strlit("/type");
    reveal_strlit("type");
    reveal_strlit("/sdp");
    reveal_strlit("sdp");
    reveal_strlit("/candidate");
    reveal_strlit("candidate");
    reveal_strlit("/sdpMid");
    reveal_strlit("sdpMid");
    reveal_strlit("/sdpMLineIndex");
    reveal_strlit("sdpMLineIndex");
    assert("/type"@ =~= seq!['/'] + "type"@);
    assert("/sdp"@ =~= seq!['/'] + "sdp"@);
    assert("/candidate"@ =~= seq!['/'] + "candidate"@);
    assert("/sdpMid"@ =~= seq!['/'] + "sdpMid"@);
    assert("/sdpMLineIndex"@ =~= seq!['/'] + "sdpMLineIndex"@);
    members_are_looked_up(text, members, "/type"@, "type"@);
    members_are_looked_up(text, members, "/sdp"@, "sdp"@);
    members_are_looked_up(text, members, "/candidate"@, "candidate"@);
    members_are_looked_up(text, members, "/sdpMid"@, "sdpMid"@);
    members_are_looked_up(text, members, "/sdpMLineIndex"@, "sdpMLineIndex"@);
}

/// Reads a message of the signalling. A text that is no JSON document is nothing to act on. A
/// message that was written as an object is read as it was written.
pub fn read_signal(text: &str) -> (r: Signal)
    ensures
        r@ == signal_of(
            json_str_at(text@, "/type"@),
            json_str_at(text@, "/sdp"@),
            json_str_at(text@, "/candidate"@),
            json_str_at(text@, "/sdpMid"@),
            json_u64_at(text@, "/sdpMLineIndex"@),
        ),
        forall|members: Seq<(Seq<char>, Json)>|
            readable(Json::Object(members), deepest()) && text@ == #[trigger] written(
                Json::Object(members),
            ) ==> r@ == signal_in(members),
{
    let kind: Option<String> = find_str(text, "/type");
    let sdp: Option<String> = find_str(text, "/sdp");
    let candidate: Option<String> = find_str(text, "/candidate");
    let mid: Option<String> = find_str(text, "/sdpMid");
    let line: Option<u64> = find_u64(text, "/sdpMLineIndex");
    proof {
        assert forall|members: Seq<(Seq<char>, Json)>|
            readable(Json::Object(members), deepest()) && text@ == #[trigger] written(
                Json::Object(members),
            ) implies signal_of(
            text_of(kind),
            text_of(sdp),
            text_of(candidate),
            text_of(mid),
            line,
        ) == signal_in(members) by {
            signal_is_looked_up(text@, members);
        }
    }
    make_signal(kind, sdp, candidate, mid, line)
}

/// What to do with a message of the signalling.
#[derive(Debug)]
pub enum SignalAction {
    /// Make an offer, and send it.
    SendOffer,
    /// Take the answer, and start the pipeline where it is the first one.
    TakeAnswer { sdp: String, start_pipeline: bool },
    /// Take the way to reach the peer.
    AddCandidate { candidate: String, sdp_mid: Option<String>, sdp_mline_index: Option<u16> },
    /// Do nothing.
    Ignore,
}

/// How far a session has come.
#[derive(Clone, Copy, Debug, PartialEq, Eq, Structural)]
pub struct Progress {
    pub offer_sent: bool,
    pub pipeline_started: bool,
}

impl Progress {
    /// How far a session has come once it has taken a message.
    pub open spec fn after(self, signal: Signal) -> Progress {
        Progress {
            offer_sent: self.offer_sent || signal is PeerJoined,
            pipeline_started: self.pipeline_started || signal is Answer,
        }
    }

    /// What a session does with a message.
    pub open spec fn action(self, signal: Signal) -> SignalAction {
        match signal {
            Signal::PeerJoined => if self.offer_sent {
                SignalAction::Ignore
            } else {
                SignalAction::SendOffer
            },
            Signal::Answer { sdp } => SignalAction::TakeAnswer {
                sdp,
                start_pipeline: !self.pipeline_started,
            },
            Signal::Ice { candidate, sdp_mid, sdp_mline_index } => SignalAction::AddCandidate {
                candidate,
                sdp_mid,
                sdp_mline_index,
            },
            Signal::Other => SignalAction::Ignore,
        }
    }

    /// A session that has just begun.
    pub fn new() -> (r: Progress)
        ensures
            r == (Progress { offer_sent: false, pipeline_started: false }),
    {
        Progress { offer_sent: false, pipeline_started: false }
    }

    /// Takes a message, and says what to do with it.
    pub fn on_signal(&mut self, signal: Signal) -> (r: SignalAction)
        ensures
            *final(self) == old(self).after(signal),
            r == old(self).action(signal),
    {
        match signal {
            Signal::PeerJoined => {
                if self.offer_sent {
                    SignalAction::Ignore
                } else {
                    self.offer_sent = true;
                    SignalAction::SendOffer
                }
            },
            Signal::Answer { sdp } => {
                let start_pipeline: bool = !self.pipeline_started;
                self.pipeline_started = true;
                SignalAction::TakeAnswer { sdp, start_pipeline }
            },
            Signal::Ice { candidate, sdp_mid, sdp_mline_index } => SignalAction::AddCandidate {
                candidate,
                sdp_mid,
                sdp_mline_index,
            },
            Signal::Other => SignalAction::Ignore,
        }
    }
}

/// How far a session has come after a run of messages.
pub open spec fn progress_after(start: Progress, signals: Seq<Signal>) -> Progress
    decreases signals.len(),
{
    if signals.len() == 0 {
        start
    } else {
        progress_after(start, signals.drop_last()).after(signals.last())
    }
}

/// In a session at most one offer is sent and the pipeline is started at most once, whatever the
/// messages: what was done once is not done again.
pub proof fn offers_and_starts_happen_once(start: Progress, signals: Seq<Signal>, i: int, j: int)
    requires
        0 <= i < j < signals.len(),
    ensures
        progress_after(start, signals.take(i)).action(signals[i]) == SignalAction::SendOffer
            ==> progress_after(start, signals.take(j)).action(signals[j])
            != SignalAction::SendOffer,
        signals[i] is Answer && signals[j] is Answer ==> progress_after(
            start,
            signals.take(j),
        ).action(signals[j]) == (SignalAction::TakeAnswer {
            sdp: signals[j]->sdp,
            start_pipeline: false,
        }),
{
    progress_is_kept(start, signals, i, j);
}

proof fn progress_is_kept(start: Progress, signals: Seq<Signal>, i: int, j: int)
    requires
        0 <= i < j <= signals.len(),
    ensures
        signals[i] is PeerJoined ==> progress_after(start, signals.take(j)).offer_sent,
        signals[i] is Answer ==> progress_after(start, signals.take(j)).pipeline_started,
    decreases j,
{
    let upto = signals.take(j);
    assert(upto.drop_last() =~= signals.take(j - 1));
    assert(upto.last() == signals[j - 1]);
    if i < j - 1 {
        progress_is_kept(start, signals, i, j - 1);
    }
}

/// The members of an offer.
pub open spec fn offer_members(sdp: Seq<char>) -> Seq<(Seq<char>, Seq<char>)> {
    seq![("sdp"@, json_string(sdp)), ("type"@, json_string("offer"@))]
}

/// Writes an offer.
pub fn offer_message(sdp: &str) -> (r: String)
    ensures
        r@ == object_text(offer_members(sdp@)),
        flat_object(r@),
{
    let mut members: Vec<Member> = Vec::new();
    members.push(text_member("sdp", sdp));
    members.push(text_member("type", "offer"));
    assert(pairs(members@) =~= offer_members(sdp@));
    write_object(&members)
}

/// The members of a message that tells of a way to reach the agent.
pub open spec fn ice_members(
    candidate: Seq<char>,
    mid: Option<Seq<char>>,
    line: Option<u16>,
) -> Seq<(Seq<char>, Seq<char>)> {
    seq![
        ("candidate"@, json_string(candidate)),
        (
            "sdpMLineIndex"@,
            match line {
                Some(n) => decimal(n as nat),
                None => "null"@,
            },
        ),
        (
            "sdpMid"@,
            match mid {
                Some(m) => json_string(m),
                None => "null"@,
            },
        ),
        ("type"@, json_string("ice"@)),
    ]
}

/// Writes a message that tells of a way to reach the agent.
pub fn ice_message(candidate: &str, sdp_mid: &Option<String>, sdp_mline_index: Option<u16>) -> (r:
    String)
    ensures
        r@ == object_text(ice_members(candidate@, text_of(*sdp_mid), sdp_mline_index)),
        flat_object(r@),
{
    let mut members: Vec<Member> = Vec::new();
    members.push(text_member("candidate", candidate));
    members.push(optional_number_member("sdpMLineIndex", sdp_mline_index));
    members.push(optional_text_member("sdpMid", sdp_mid));
    members.push(text_member("type", "ice"));
    assert(pairs(members@) =~= ice_members(candidate@, text_of(*sdp_mid), sdp_mline_index));
    write_object(&members)
}

/// The members of the broker's notice that a peer has joined.
pub open spec fn joined_members(role: Seq<char>) -> Seq<(Seq<char>, Json)> {
    seq![("type"@, Json::Text("peer_joined"@)), ("role"@, Json::Text(role))]
}

/// The broker's notice that a peer has joined is understood by the agent, for every role that
/// needs no escapes in a JSON string.
pub proof fn joined_notice_is_understood(role: Seq<char>)
    requires
        forall|i: int| 0 <= i < role.len() ==> unescaped(#[trigger] role[i]),
    ensures
        joined_text(role) == written(Json::Object(joined_members(role))),
        readable(Json::Object(joined_members(role)), deepest()),
        signal_in(joined_members(role)) == SignalView::PeerJoined,
{
    reveal_strlit("type");
    reveal_strlit("role");
    reveal_strlit("peer_joined");
    reveal_strlit("{\"type\":\"peer_joined\",\"role\":\"");
    reveal_strlit("\"}");
    plain_text_is_not_escaped("type"@);
    plain_text_is_not_escaped("role"@);
    plain_text_is_not_escaped("peer_joined"@);
    plain_text_is_not_escaped(role);
    let kind = Json::Text("peer_joined"@);
    let first = seq![("type"@, kind)];
    one_member(Seq::empty(), "type"@, kind);
    assert(Seq::<(Seq<char>, Json)>::empty().push(("type"@, kind)) =~= first);
    one_member(first, "role"@, Json::Text(role));
    let members = joined_members(role);
    assert(first.push(("role"@, Json::Text(role))) =~= members);
    assert(written(kind) == json_string("peer_joined"@));
    assert(written(Json::Text(role)) == json_string(role));
    assert(joined_text(role) =~= written(Json::Object(members)));
    assert("type"@[0] == 't' && "role"@[0] == 'r');
    assert forall|i: int| 0 <= i < members.len() implies plain_name((#[trigger] members[i]).0)
        && readable(members[i].1, 99) by {
        assert(i == 0 || i == 1);
    }
    reveal_with_fuel(member, 3);
    assert(members.drop_last() =~= first);
}

/// The members of a message that tells of a way to reach the agent, as parts of a document.
pub open spec fn ice_parts(candidate: Seq<char>, mid: Option<Seq<char>>, line: Option<u16>) -> Seq<
    (Seq<char>, Json),
> {
    seq![
        ("candidate"@, Json::Text(candidate)),
        (
            "sdpMLineIndex"@,
            match line {
                Some(n) => Json::Number(n as u64),
                None => Json::Null,
            },
        ),
        (
            "sdpMid"@,
            match mid {
                Some(m) => Json::Text(m),
                None => Json::Null,
            },
        ),
        ("type"@, Json::Text("ice"@)),
    ]
}

/// A way to reach the agent that is written as a message is read as it was written.
pub proof fn candidates_read_back(candidate: Seq<char>, mid: Option<Seq<char>>, line: Option<u16>)
    ensures
        object_text(ice_members(candidate, mid, line)) == written(
            Json::Object(ice_parts(candidate, mid, line)),
        ),
        readable(Json::Object(ice_parts(candidate, mid, line)), deepest()),
        signal_in(ice_parts(candidate, mid, line)) == (SignalView::Ice {
            candidate,
            sdp_mid: mid,
            sdp_mline_index: line,
        }),
{
    let parts = ice_parts(candidate, mid, line);
    flat_object_is_written(parts);
    assert(written(Json::Null) == "null"@);
    assert(flat_members(parts) =~= ice_members(candidate, mid, line));
    reveal_strlit("candidate");
    reveal_strlit("sdpMLineIndex");
    reveal_strlit("sdpMid");
    reveal_strlit("type");
    reveal_strlit("ice");
    reveal_strlit("answer");
    reveal_strlit("peer_joined");
    assert("candidate"@.len() == 9 && "sdpMLineIndex"@.len() == 13 && "sdpMid"@.len() == 6
        && "type"@.len() == 4);
    assert("ice"@.len() == 3 && "answer"@.len() == 6 && "peer_joined"@.len() == 11);
    assert forall|i: int| 0 <= i < parts.len() implies plain_name((#[trigger] parts[i]).0)
        && readable(parts[i].1, 99) by {
        assert(i == 0 || i == 1 || i == 2 || i == 3);
    }
    reveal_with_fuel(member, 5);
    let p3 = parts.drop_last();
    let p2 = p3.drop_last();
    let p1 = p2.drop_last();
    assert(p3.last() == parts[2] && p2.last() == parts[1] && p1.last() == parts[0]);
}

/// The members of an offer, as parts of a document.
pub open spec fn offer_parts(sdp: Seq<char>) -> Seq<(Seq<char>, Json)> {
    seq![("sdp"@, Json::Text(sdp)), ("type"@, Json::Text("offer"@))]
}

/// An agent does not act on an offer, its own or that of another agent in the room.
pub proof fn offers_are_left_alone(sdp: Seq<char>)
    ensures
        object_text(offer_members(sdp)) == written(Json::Object(offer_parts(sdp))),
        readable(Json::Object(offer_parts(sdp)), deepest()),
        signal_in(offer_parts(sdp)) == SignalView::Other,
{
    let parts = offer_parts(sdp);
    flat_object_is_written(parts);
    assert(flat_members(parts) =~= offer_members(sdp));
    reveal_strlit("sdp");
    reveal_strlit("type");
    reveal_strlit("offer");
    reveal_strlit("ice");
    reveal_strlit("answer");
    reveal_strlit("peer_joined");
    assert("sdp"@.len() == 3 && "type"@.len() == 4 && "offer"@.len() == 5 && "ice"@.len() == 3
        && "answer"@.len() == 6 && "peer_joined"@.len() == 11);
    assert forall|i: int| 0 <= i < parts.len() implies plain_name((#[trigger] parts[i]).0)
        && readable(parts[i].1, 99) by {
        assert(i == 0 || i == 1);
    }
    assert(member(parts, "type"@) == Some(parts[1].1));
}

/// An answer that is written as an object is read with its description, and without one as empty.
pub proof fn answers_are_read(sdp: Seq<char>)
    ensures
        signal_in(seq![("type"@, Json::Text("answer"@)), ("sdp"@, Json::Text(sdp))]) == (
        SignalView::Answer { sdp }),
        signal_in(seq![("type"@, Json::Text("answer"@))]) == (SignalView::Answer {
            sdp: Seq::empty(),
        }),
{
    reveal_strlit("type");
    reveal_strlit("sdp");
    reveal_strlit("answer");
    reveal_strlit("peer_joined");
    assert("type"@.len() == 4 && "sdp"@.len() == 3 && "answer"@.len() == 6 && "peer_joined"@.len()
        == 11);
    let both = seq![("type"@, Json::Text("answer"@)), ("sdp"@, Json::Text(sdp))];
    let one = seq![("type"@, Json::Text("answer"@))];
    reveal_with_fuel(member, 3);
    assert(both.drop_last() =~= one);
    assert(one.drop_last() =~= Seq::<(Seq<char>, Json)>::empty());
}

/// What a message is rests on its type alone: one of another type, or without one, is nothing to
/// act on, and neither is a way to reach the peer that is missing. The line of such a way is taken
/// in sixteen bits.
pub proof fn types_decide_what_messages_are(
    kind: Option<Seq<char>>,
    sdp: Option<Seq<char>>,
    candidate: Option<Seq<char>>,
    mid: Option<Seq<char>>,
    line: Option<u64>,
)
    ensures
        ({
            let signal = signal_of(kind, sdp, candidate, mid, line);
            &&& signal is PeerJoined <==> kind == Some("peer_joined"@)
            &&& signal is Answer <==> kind == Some("answer"@)
            &&& signal is Ice <==> kind == Some("ice"@) && candidate is Some
            &&& signal is Answer && sdp is Some ==> signal->Answer_sdp == sdp->0
            &&& signal is Ice ==> signal->Ice_candidate == candidate->0 && signal->Ice_sdp_mid
                == mid && (signal->Ice_sdp_mline_index is Some <==> line is Some)
            &&& signal is Ice && line is Some && line->0 <= 65535
                ==> signal->Ice_sdp_mline_index->0 == line->0
            &&& signal is Ice && line is Some ==> (line->0 - signal->Ice_sdp_mline_index->0)
                % 65536 == 0
        }),
{
    reveal_strlit("ice");
    reveal_strlit("answer");
    reveal_strlit("peer_joined");
    assert("ice"@.len() == 3 && "answer"@.len() == 6 && "peer_joined"@.len() == 11);
}

/// The first peer that joins is made an offer, and the first answer starts the pipeline; every
/// answer is taken, with its description, and every way to reach the peer.
pub proof fn first_messages_are_acted_on(start: Progress, signal: Signal)
    ensures
        signal is PeerJoined && !start.offer_sent ==> start.action(signal) is SendOffer
            && start.after(signal).offer_sent,
        signal is Answer ==> start.action(signal) is TakeAnswer && start.action(
            signal,
        )->TakeAnswer_sdp == signal->Answer_sdp && (start.action(signal)->start_pipeline
            <==> !start.pipeline_started) && start.after(signal).pipeline_started,
        signal is Ice ==> start.action(signal) == (SignalAction::AddCandidate {
            candidate: signal->Ice_candidate,
            sdp_mid: signal->Ice_sdp_mid,
            sdp_mline_index: signal->Ice_sdp_mline_index,
        }),
        signal is Other ==> start.action(signal) is Ignore,
        signal is Ice || signal is Other ==> start.after(signal) == start,
        signal is PeerJoined ==> start.after(signal).pipeline_started == start.pipeline_started,
        signal is Answer ==> start.after(signal).offer_sent == start.offer_sent,
{
}

/// What the agent writes has the names that browsers know: an offer has its description under
/// "sdp", and a way to reach the agent its three parts under "candidate", "sdpMid" and
/// "sdpMLineIndex".
pub proof fn messages_have_the_names_that_browsers_know(
    sdp: Seq<char>,
    candidate: Seq<char>,
    mid: Seq<char>,
    line: u16,
)
    ensures
        object_text(offer_members(sdp)) == written(
            Json::Object(seq![("sdp"@, Json::Text(sdp)), ("type"@, Json::Text("offer"@))]),
        ),
        object_text(ice_members(candidate, Some(mid), Some(line))) == written(
            Json::Object(
                seq![
                    ("candidate"@, Json::Text(candidate)),
                    ("sdpMLineIndex"@, Json::Number(line as u64)),
                    ("sdpMid"@, Json::Text(mid)),
                    ("type"@, Json::Text("ice"@)),
                ],
            ),
        ),
        object_text(ice_members(candidate, None, None)) == written(
            Json::Object(
                seq![
                    ("candidate"@, Json::Text(candidate)),
                    ("sdpMLineIndex"@, Json::Null),
                    ("sdpMid"@, Json::Null),
                    ("type"@, Json::Text("ice"@)),
                ],
            ),
        ),
{
    offers_are_left_alone(sdp);
    candidates_read_back(candidate, Some(mid), Some(line));
    candidates_read_back(candidate, None, None);
    assert(ice_parts(candidate, Some(mid), Some(line)) =~= seq![
        ("candidate"@, Json::Text(candidate)),
        ("sdpMLineIndex"@, Json::Number(line as u64)),
        ("sdpMid"@, Json::Text(mid)),
        ("type"@, Json::Text("ice"@)),
    ]);
    assert(ice_parts(candidate, None, None) =~= seq![
        ("candidate"@, Json::Text(candidate)),
        ("sdpMLineIndex"@, Json::Null),
        ("sdpMid"@, Json::Null),
        ("type"@, Json::Text("ice"@)),
    ]);
}

} // verus!
