//! The ICE servers that peers are told of.

use crate::document::{
    deepest, items_written, members_written, one_member, plain_name, plain_text_is_not_escaped, readable,
    unescaped, written, Json,
};
use crate::json::{append_json_string, json_string};
use crate::text::{alike, blank, is_blank, same, same_ignoring_ascii_case, views};
use vstd::prelude::*;

verus! {

/// A STUN or TURN server. A STUN server has no user and no credential.
#[derive(Debug)]
pub struct IceServer {
    pub urls: Vec<String>,
    pub username: String,
    pub credential: String,
}

/// What is known of an ICE server.
#[verifier::ext_equal]
pub struct IceServerView {
    pub urls: Seq<Seq<char>>,
    pub username: Seq<char>,
    pub credential: Seq<char>,
}

impl View for IceServer {
    type V = IceServerView;

    open spec fn view(&self) -> IceServerView {
        IceServerView {
            urls: views(self.urls@),
            username: self.username@,
            credential: self.credential@,
        }
    }
}

/// The views of a list of servers.
pub open spec fn server_views(servers: Seq<IceServer>) -> Seq<IceServerView> {
    servers.map_values(|s: IceServer| s@)
}

/// The public STUN server.
pub open spec fn stun_server() -> IceServerView {
    IceServerView {
        urls: seq!["stun:stun.l.google.com:19302"@],
        username: Seq::empty(),
        credential: Seq::empty(),
    }
}

/// The configured TURN server.
pub open spec fn turn_server(url: Seq<char>, user: Seq<char>, secret: Seq<char>) -> IceServerView {
    IceServerView { urls: seq![url], username: user, credential: secret }
}

/// The configuration that stands in the example file: no server at all.
pub open spec fn turn_is_placeholder(url: Seq<char>, user: Seq<char>, secret: Seq<char>) -> bool {
    alike(url, "turn:localhost:3478"@) && user == "sremote"@ && secret == "coturn-static-secret"@
}

/// A TURN server is configured: an address and a secret are there, and they are not the example.
pub open spec fn turn_configured(url: Seq<char>, user: Seq<char>, secret: Seq<char>) -> bool {
    !blank(url) && !blank(secret) && !turn_is_placeholder(url, user, secret)
}

/// The servers that peers are told of: the TURN server, where one is configured, and then the
/// STUN server.
pub open spec fn ice_servers_of(url: Seq<char>, user: Seq<char>, secret: Seq<char>) -> Seq<
    IceServerView,
> {
    if turn_configured(url, user, secret) {
        seq![turn_server(url, user, secret), stun_server()]
    } else {
        seq![stun_server()]
    }
}

fn one_url(url: &str) -> (r: Vec<String>)
    ensures
        views(r@) == seq![url@],
{
    let mut urls: Vec<String> = Vec::new();
    urls.push(url.to_owned());
    assert(views(urls@) =~= seq![url@]);
    urls
}

/// Puts together the servers that peers are told of.
pub fn build_ice_servers(turn_url: &str, turn_user: &str, turn_secret: &str) -> (r: Vec<IceServer>)
    ensures
        server_views(r@) == ice_servers_of(turn_url@, turn_user@, turn_secret@),
{
    let placeholder: bool = same_ignoring_ascii_case(turn_url, "turn:localhost:3478") && same(
        turn_user,
        "sremote",
    ) && same(turn_secret, "coturn-static-secret");
    let mut servers: Vec<IceServer> = Vec::new();
    if !is_blank(turn_url) && !is_blank(turn_secret) && !placeholder {
        servers.push(
            IceServer {
                urls: one_url(turn_url),
                username: turn_user.to_owned(),
                credential: turn_secret.to_owned(),
            },
        );
        assert(servers@[0]@ =~= turn_server(turn_url@, turn_user@, turn_secret@));
    }
    let stun = IceServer {
        urls: one_url("stun:stun.l.google.com:19302"),
        username: String::new(),
        credential: String::new(),
    };
    assert(stun@ =~= stun_server());
    servers.push(stun);
    assert(server_views(servers@) =~= ice_servers_of(turn_url@, turn_user@, turn_secret@));
    servers
}

/// Peers always have a STUN server to fall back on, as the last one; they are never told the
/// secret of the example configuration, nor of a server without an address.
pub proof fn stun_is_always_there(url: Seq<char>, user: Seq<char>, secret: Seq<char>)
    ensures
        ice_servers_of(url, user, secret).last() == stun_server(),
        turn_is_placeholder(url, user, secret) || blank(url) || blank(secret) ==> ice_servers_of(
            url,
            user,
            secret,
        ) == seq![stun_server()],
{
}

/// JSON strings with commas between them.
pub open spec fn list_text(items: Seq<Seq<char>>) -> Seq<char>
    decreases items.len(),
{
    if items.len() == 0 {
        Seq::empty()
    } else if items.len() == 1 {
        json_string(items[0])
    } else {
        list_text(items.drop_last()) + ","@ + json_string(items.last())
    }
}

/// A member that is left out where its text is empty.
pub open spec fn optional_text(name: Seq<char>, value: Seq<char>) -> Seq<char> {
    if value.len() == 0 {
        Seq::empty()
    } else {
        name + json_string(value)
    }
}

/// A server as JSON. An empty user or credential is left out.
pub open spec fn server_text(server: IceServerView) -> Seq<char> {
    "{\"urls\":["@ + list_text(server.urls) + "]"@ + optional_text(
        ",\"username\":"@,
        server.username,
    ) + optional_text(",\"credential\":"@, server.credential) + "}"@
}

/// Servers as JSON, with commas between them.
pub open spec fn servers_text(servers: Seq<IceServerView>) -> Seq<char>
    decreases servers.len(),
{
    if servers.len() == 0 {
        Seq::empty()
    } else if servers.len() == 1 {
        server_text(servers[0])
    } else {
        servers_text(servers.drop_last()) + ","@ + server_text(servers.last())
    }
}

/// The message that tells a peer of the servers.
pub open spec fn config_text(servers: Seq<IceServerView>) -> Seq<char> {
    "{\"type\":\"config\",\"ice_servers\":["@ + servers_text(servers) + "]}"@
}

fn append_list(out: &mut String, items: &Vec<String>)
    ensures
        final(out)@ == old(out)@ + list_text(views(items@)),
{
    let ghost before = out@;
    let ghost all = views(items@);
    let mut i: usize = 0;
    assert(all.take(0) =~= Seq::<Seq<char>>::empty());
    while i < items.len()
        invariant
            i <= items@.len(),
            before == old(out)@,
            all == views(items@),
            out@ == before + list_text(all.take(i as int)),
        decreases items@.len() - i,
    {
        let ghost now = all.take(i + 1);
        assert(now.drop_last() =~= all.take(i as int));
        assert(now.last() == items@[i as int]@);
        if i > 0 {
            out.append(",");
        }
        append_json_string(out, items[i].as_str());
        assert(out@ =~= before + list_text(now));
        i = i + 1;
    }
    assert(all.take(all.len() as int) =~= all);
}

fn append_optional(out: &mut String, name: &str, value: &String)
    ensures
        final(out)@ == old(out)@ + optional_text(name@, value@),
{
    let ghost before = out@;
    if !same(value.as_str(), "") {
        out.append(name);
        append_json_string(out, value.as_str());
    }
    proof {
        reveal_strlit("");
        if value@.len() == 0 {
            assert(value@ =~= ""@);
        }
        assert(out@ =~= before + optional_text(name@, value@));
    }
}

fn append_server(out: &mut String, server: &IceServer)
    ensures
        final(out)@ == old(out)@ + server_text(server@),
{
    let ghost before = out@;
    out.append("{\"urls\":[");
    append_list(out, &server.urls);
    out.append("]");
    append_optional(out, ",\"username\":", &server.username);
    append_optional(out, ",\"credential\":", &server.credential);
    out.append("}");
    assert(out@ =~= before + server_text(server@));
}

/// Writes the message that tells a peer of the servers.
pub fn config_message(servers: &Vec<IceServer>) -> (r: String)
    ensures
        r@ == config_text(server_views(servers@)),
{
    let ghost all = server_views(servers@);
    let mut out: String = "{\"type\":\"config\",\"ice_servers\":[".to_owned();
    let ghost before = out@;
    let mut i: usize = 0;
    assert(all.take(0) =~= Seq::<IceServerView>::empty());
    assert(out@ =~= before + servers_text(all.take(0)));
    while i < servers.len()
        invariant
            i <= servers@.len(),
            all == server_views(servers@),
            out@ == before + servers_text(all.take(i as int)),
        decreases servers@.len() - i,
    {
        let ghost now = all.take(i + 1);
        assert(now.drop_last() =~= all.take(i as int));
        assert(now.last() == servers@[i as int]@);
        if i > 0 {
            out.append(",");
        }
        append_server(&mut out, &servers[i]);
        assert(out@ =~= before + servers_text(now));
        i = i + 1;
    }
    assert(all.take(all.len() as int) =~= all);
    out.append("]}");
    out
}

/// Texts as items of a list.
pub open spec fn text_items(items: Seq<Seq<char>>) -> Seq<Json> {
    items.map_values(|s: Seq<char>| Json::Text(s))
}

/// A member that is left out where its text is empty.
pub open spec fn optional_member(name: Seq<char>, value: Seq<char>) -> Seq<(Seq<char>, Json)> {
    if value.len() == 0 {
        Seq::empty()
    } else {
        seq![(name, Json::Text(value))]
    }
}

/// The members of a server.
pub open spec fn server_members(server: IceServerView) -> Seq<(Seq<char>, Json)> {
    seq![("urls"@, Json::List(text_items(server.urls)))] + optional_member(
        "username"@,
        server.username,
    ) + optional_member("credential"@, server.credential)
}

/// A server as an item of a list.
pub open spec fn server_item(server: IceServerView) -> Json {
    Json::Object(server_members(server))
}

/// Servers as items of a list.
pub open spec fn server_items(servers: Seq<IceServerView>) -> Seq<Json> {
    servers.map_values(|s: IceServerView| server_item(s))
}

/// The members of the message that tells a peer of the servers.
pub open spec fn config_members(servers: Seq<IceServerView>) -> Seq<(Seq<char>, Json)> {
    seq![("type"@, Json::Text("config"@)), ("ice_servers"@, Json::List(server_items(servers)))]
}

proof fn list_is_written(items: Seq<Seq<char>>)
    ensures
        list_text(items) == items_written(text_items(items)),
    decreases items.len(),
{
    reveal_strlit(",");
    assert(","@ =~= seq![',']);
    let docs = text_items(items);
    if items.len() > 1 {
        list_is_written(items.drop_last());
        assert(docs.drop_last() =~= text_items(items.drop_last()));
        assert(docs[docs.len() - 1] == Json::Text(items.last()));
        assert(written(Json::Text(items.last())) == json_string(items.last()));
    } else if items.len() == 1 {
        assert(docs[0] == Json::Text(items[0]));
        assert(written(Json::Text(items[0])) == json_string(items[0]));
    }
}

proof fn quoted_name(name: Seq<char>)
    requires
        plain_name(name),
    ensures
        json_string(name) == seq!['"'] + name + seq!['"'],
{
    assert forall|i: int| 0 <= i < name.len() implies unescaped(#[trigger] name[i]) by {
        assert(('a' <= name[i] && name[i] <= 'z') || ('A' <= name[i] && name[i] <= 'Z') || name[i]
            == '_');
    }
    plain_text_is_not_escaped(name);
}

proof fn server_names()
    ensures
        "{\"urls\":["@ == seq!['{'] + json_string("urls"@) + seq![':'] + seq!['['],
        ",\"username\":"@ == seq![','] + json_string("username"@) + seq![':'],
        ",\"credential\":"@ == seq![','] + json_string("credential"@) + seq![':'],
        "]"@ == seq![']'],
        "}"@ == seq!['}'],
        plain_name("urls"@) && plain_name("username"@) && plain_name("credential"@),
        "urls"@.len() == 4 && "username"@.len() == 8 && "credential"@.len() == 10,
{
    reveal_strlit("urls");
    reveal_strlit("username");
    reveal_strlit("credential");
    reveal_strlit("{\"urls\":[");
    reveal_strlit("]");
    reveal_strlit("}");
    reveal_strlit(",\"username\":");
    reveal_strlit(",\"credential\":");
    quoted_name("urls"@);
    quoted_name("username"@);
    quoted_name("credential"@);
    assert("{\"urls\":["@ =~= seq!['{'] + json_string("urls"@) + seq![':'] + seq!['[']);
    assert(",\"username\":"@ =~= seq![','] + json_string("username"@) + seq![':']);
    assert(",\"credential\":"@ =~= seq![','] + json_string("credential"@) + seq![':']);
    assert("]"@ =~= seq![']']);
    assert("}"@ =~= seq!['}']);
}

/// A member that may be left out, behind others.
proof fn optional_is_written(
    front: Seq<(Seq<char>, Json)>,
    name: Seq<char>,
    value: Seq<char>,
    written_name: Seq<char>,
)
    requires
        front.len() > 0,
        written_name == seq![','] + json_string(name) + seq![':'],
    ensures
        members_written(front + optional_member(name, value)) == members_written(front)
            + optional_text(written_name, value),
{
    if value.len() == 0 {
        assert(front + optional_member(name, value) =~= front);
        assert(members_written(front) + optional_text(written_name, value) =~= members_written(
            front,
        ));
    } else {
        one_member(front, name, Json::Text(value));
        assert(front + optional_member(name, value) =~= front.push((name, Json::Text(value))));
        assert(written(Json::Text(value)) == json_string(value));
        assert(members_written(front).push(',') + json_string(name) + seq![':'] + json_string(value)
            =~= members_written(front) + (written_name + json_string(value)));
    }
}

proof fn server_is_written(server: IceServerView)
    ensures
        server_text(server) == written(server_item(server)),
{
    server_names();
    list_is_written(server.urls);
    let urls = Json::List(text_items(server.urls));
    let one = seq![("urls"@, urls)];
    let two = one + optional_member("username"@, server.username);
    one_member(Seq::empty(), "urls"@, urls);
    assert(Seq::<(Seq<char>, Json)>::empty().push(("urls"@, urls)) =~= one);
    assert(written(urls) == seq!['['] + list_text(server.urls) + seq![']']);
    optional_is_written(one, "username"@, server.username, ",\"username\":"@);
    optional_is_written(two, "credential"@, server.credential, ",\"credential\":"@);
    let user = optional_text(",\"username\":"@, server.username);
    let secret = optional_text(",\"credential\":"@, server.credential);
    assert(server_members(server) == two + optional_member("credential"@, server.credential));
    assert(written(server_item(server)) == seq!['{'] + members_written(server_members(server))
        + seq!['}']);
    assert(server_text(server) =~= seq!['{'] + (members_written(one) + user + secret) + seq!['}']);
}

proof fn servers_are_written(servers: Seq<IceServerView>)
    ensures
        servers_text(servers) == items_written(server_items(servers)),
    decreases servers.len(),
{
    reveal_strlit(",");
    assert(","@ =~= seq![',']);
    let docs = server_items(servers);
    if servers.len() > 1 {
        servers_are_written(servers.drop_last());
        server_is_written(servers.last());
        assert(docs.drop_last() =~= server_items(servers.drop_last()));
        assert(docs[docs.len() - 1] == server_item(servers.last()));
    } else if servers.len() == 1 {
        server_is_written(servers[0]);
        assert(docs[0] == server_item(servers[0]));
    }
}

proof fn config_names()
    ensures
        "{\"type\":\"config\",\"ice_servers\":["@ == seq!['{'] + json_string("type"@) + seq![':']
            + json_string("config"@) + seq![','] + json_string("ice_servers"@) + seq![':'] + seq![
            '[',
        ],
        "]}"@ == seq![']'] + seq!['}'],
        plain_name("type"@) && plain_name("ice_servers"@),
        "type"@.len() == 4 && "ice_servers"@.len() == 11,
{
    reveal_strlit("type");
    reveal_strlit("config");
    reveal_strlit("ice_servers");
    reveal_strlit("{\"type\":\"config\",\"ice_servers\":[");
    reveal_strlit("]}");
    quoted_name("type"@);
    quoted_name("config"@);
    quoted_name("ice_servers"@);
    assert("{\"type\":\"config\",\"ice_servers\":["@ =~= seq!['{'] + json_string("type"@) + seq![
        ':',
    ] + json_string("config"@) + seq![','] + json_string("ice_servers"@) + seq![':'] + seq!['[']);
    assert("]}"@ =~= seq![']'] + seq!['}']);
}

/// The message that tells a peer of the servers is an object, written without white space, which
/// can be read.
pub proof fn config_is_written(servers: Seq<IceServerView>)
    ensures
        config_text(servers) == written(Json::Object(config_members(servers))),
        readable(Json::Object(config_members(servers)), deepest()),
{
    config_names();
    servers_are_written(servers);
    let kind = Json::Text("config"@);
    let list = Json::List(server_items(servers));
    let first = seq![("type"@, kind)];
    one_member(Seq::empty(), "type"@, kind);
    assert(Seq::<(Seq<char>, Json)>::empty().push(("type"@, kind)) =~= first);
    one_member(first, "ice_servers"@, list);
    assert(first.push(("ice_servers"@, list)) =~= config_members(servers));
    assert(written(kind) == json_string("config"@));
    assert(written(list) == seq!['['] + servers_text(servers) + seq![']']);
    assert(config_text(servers) =~= written(Json::Object(config_members(servers))));
    config_is_readable(servers);
}

proof fn config_is_readable(servers: Seq<IceServerView>)
    ensures
        readable(Json::Object(config_members(servers)), deepest()),
{
    config_names();
    let members = config_members(servers);
    let items = server_items(servers);
    assert forall|i: int| 0 <= i < items.len() implies readable(#[trigger] items[i], 98) by {
        server_is_readable(servers[i]);
    }
    assert(readable(Json::List(items), 99));
    assert(readable(Json::Text("config"@), 99));
    assert(members[0].0.len() != members[1].0.len());
}

proof fn server_is_readable(server: IceServerView)
    ensures
        readable(server_item(server), 98),
{
    server_names();
    let members = server_members(server);
    let urls = text_items(server.urls);
    assert forall|i: int| 0 <= i < urls.len() implies readable(#[trigger] urls[i], 96) by {}
    assert(readable(Json::List(urls), 97));
    assert forall|i: int| 0 <= i < members.len() implies plain_name((#[trigger] members[i]).0)
        && readable(members[i].1, 97) by {
        assert(members[i].0 == "urls"@ || members[i].0 == "username"@ || members[i].0
            == "credential"@);
    }
}

/// The last server that peers are told of is the public STUN server, without a user; before it
/// comes the TURN server with its address, its user and its secret, and nothing else, exactly where
/// an address and a secret with something in them are given that are not the example's.
pub proof fn servers_are_turn_and_then_stun(url: Seq<char>, user: Seq<char>, secret: Seq<char>)
    ensures
        ({
            let servers = ice_servers_of(url, user, secret);
            let stun = IceServerView {
                urls: seq!["stun:stun.l.google.com:19302"@],
                username: Seq::empty(),
                credential: Seq::empty(),
            };
            let turn = IceServerView { urls: seq![url], username: user, credential: secret };
            let example = alike(url, "turn:localhost:3478"@) && user == "sremote"@ && secret
                == "coturn-static-secret"@;
            &&& blank(url) || blank(secret) || example ==> servers == seq![stun]
            &&& !blank(url) && !blank(secret) && !example ==> servers == seq![turn, stun]
        }),
{
}

/// The message that tells of the servers is an object of the type "config", with the list under
/// "ice_servers"; a server has its addresses under "urls", and its user and its secret, where there
/// are any, under "username" and "credential".
pub proof fn config_has_the_names_that_peers_know(servers: Seq<IceServerView>, i: int)
    requires
        0 <= i < servers.len(),
        servers[i].username.len() > 0,
        servers[i].credential.len() > 0,
    ensures
        config_text(servers) == written(
            Json::Object(
                seq![
                    ("type"@, Json::Text("config"@)),
                    ("ice_servers"@, Json::List(server_items(servers))),
                ],
            ),
        ),
        server_items(servers).len() == servers.len(),
        server_items(servers)[i] == Json::Object(
            seq![
                ("urls"@, Json::List(text_items(servers[i].urls))),
                ("username"@, Json::Text(servers[i].username)),
                ("credential"@, Json::Text(servers[i].credential)),
            ],
        ),
{
    config_is_written(servers);
    assert(config_members(servers) =~= seq![
        ("type"@, Json::Text("config"@)),
        ("ice_servers"@, Json::List(server_items(servers))),
    ]);
    assert(server_members(servers[i]) =~= seq![
        ("urls"@, Json::List(text_items(servers[i].urls))),
        ("username"@, Json::Text(servers[i].username)),
        ("credential"@, Json::Text(servers[i].credential)),
    ]);
}

/// A server without a user or a secret is told of without the member for it.
pub proof fn empty_members_are_left_out(server: IceServerView)
    ensures
        server.username.len() == 0 && server.credential.len() == 0 ==> server_item(server)
            == Json::Object(seq![("urls"@, Json::List(text_items(server.urls)))]),
        server.username.len() > 0 && server.credential.len() == 0 ==> server_item(server)
            == Json::Object(
            seq![
                ("urls"@, Json::List(text_items(server.urls))),
                ("username"@, Json::Text(server.username)),
            ],
        ),
        server.username.len() == 0 && server.credential.len() > 0 ==> server_item(server)
            == Json::Object(
            seq![
                ("urls"@, Json::List(text_items(server.urls))),
                ("credential"@, Json::Text(server.credential)),
            ],
        ),
{
    let urls = ("urls"@, Json::List(text_items(server.urls)));
    if server.credential.len() == 0 {
        if server.username.len() == 0 {
            assert(server_members(server) =~= seq![urls]);
        } else {
            assert(server_members(server) =~= seq![
                urls,
                ("username"@, Json::Text(server.username)),
            ]);
        }
    } else if server.username.len() == 0 {
        assert(server_members(server) =~= seq![
            urls,
            ("credential"@, Json::Text(server.credential)),
        ]);
    }
}

} // verus!
