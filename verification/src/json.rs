//! JSON texts: writing flat objects, and looking into documents.

use crate::document::{
    at, deepest, items_in, looks_up, member, number_in, readable, text_in, written, Json, Step,
};
use crate::text::{append_decimal, decimal, digit};
use vstd::prelude::*;

verus! {

/// The small hexadecimal digit with the given value.
pub open spec fn small_hex_digit(n: nat) -> char {
    if n < 10 {
        digit(n)
    } else {
        ('a' as u32 + (n - 10)) as char
    }
}

/// How a character stands in a JSON string.
pub open spec fn escape_of(c: char) -> Seq<char> {
    let u = c as u32;
    if u == 0x22 {
        seq!['\\', '"']
    } else if u == 0x5C {
        seq!['\\', '\\']
    } else if u == 0x08 {
        seq!['\\', 'b']
    } else if u == 0x09 {
        seq!['\\', 't']
    } else if u == 0x0A {
        seq!['\\', 'n']
    } else if u == 0x0C {
        seq!['\\', 'f']
    } else if u == 0x0D {
        seq!['\\', 'r']
    } else if u < 0x20 {
        seq![
            '\\',
            'u',
            '0',
            '0',
            small_hex_digit((u / 16) as nat),
            small_hex_digit((u % 16) as nat),
        ]
    } else {
        seq![c]
    }
}

/// The inside of a JSON string.
pub open spec fn escaped(s: Seq<char>) -> Seq<char>
    decreases s.len(),
{
    if s.len() == 0 {
        Seq::empty()
    } else {
        escape_of(s[0]) + escaped(s.drop_first())
    }
}

/// A text as a JSON string, quotes included.
pub open spec fn json_string(s: Seq<char>) -> Seq<char> {
    seq!['"'] + escaped(s) + seq!['"']
}

/// `serde_json::to_string` of a string: the text in quotes, with quotes, backslashes and control
/// characters escaped. Writing a string to memory does not fail.
#[verifier::external_body]
fn quote(s: &str) -> (r: Option<String>)
    ensures
        r is Some,
        r->0@ == json_string(s@),
{
    serde_json::to_string(s).ok()
}

/// Appends a text as a JSON string.
pub fn append_json_string(out: &mut String, s: &str)
    ensures
        final(out)@ == old(out)@ + json_string(s@),
{
    match quote(s) {
        Some(text) => {
            out.append(text.as_str());
        },
        None => {},
    }
}

proof fn escapes_differ(a: char, b: char, x: Seq<char>, y: Seq<char>)
    requires
        escape_of(a) + x == escape_of(b) + y,
    ensures
        a == b,
        x == y,
{
    let p = escape_of(a);
    let q = escape_of(b);
    let all = p + x;
    assert(all[0] == p[0] && all[0] == q[0]);
    assert(p.len() >= 1 && q.len() >= 1);
    if p.len() > 1 {
        assert(q.len() > 1) by {
            if q.len() == 1 {
                assert(q[0] == b);
            }
        }
        assert(all[1] == p[1] && all[1] == q[1]);
        if p.len() == 6 {
            assert(q.len() == 6);
            assert(all[4] == p[4] && all[4] == q[4]);
            assert(all[5] == p[5] && all[5] == q[5]);
        } else {
            assert(q.len() == 2);
        }
    } else {
        assert(p[0] == a);
        assert(q.len() == 1);
    }
    assert(a == b);
    assert(x =~= all.subrange(p.len() as int, all.len() as int));
    assert(y =~= all.subrange(p.len() as int, all.len() as int));
}

proof fn escaped_is_injective(a: Seq<char>, b: Seq<char>)
    requires
        escaped(a) == escaped(b),
    ensures
        a == b,
    decreases a.len(),
{
    if a.len() == 0 {
        if b.len() > 0 {
            assert(escaped(b) == escape_of(b[0]) + escaped(b.drop_first()));
            assert(escaped(b).len() > 0);
        }
        assert(a =~= b);
    } else if b.len() == 0 {
        assert(escaped(a) == escape_of(a[0]) + escaped(a.drop_first()));
        assert(escaped(a).len() > 0);
    } else {
        escapes_differ(a[0], b[0], escaped(a.drop_first()), escaped(b.drop_first()));
        escaped_is_injective(a.drop_first(), b.drop_first());
        assert(a =~= seq![a[0]] + a.drop_first());
        assert(b =~= seq![b[0]] + b.drop_first());
    }
}

/// Two texts with the same JSON string are the same text.
pub proof fn json_string_is_injective(a: Seq<char>, b: Seq<char>)
    requires
        json_string(a) == json_string(b),
    ensures
        a == b,
{
    let x = json_string(a);
    assert(escaped(a) =~= x.subrange(1, x.len() - 1));
    assert(escaped(b) =~= x.subrange(1, x.len() - 1));
    escaped_is_injective(a, b);
}

/// Two JSON strings with something behind them are the same text only where both the strings and
/// what is behind them are.
pub proof fn json_strings_are_delimited(a: Seq<char>, b: Seq<char>, x: Seq<char>, y: Seq<char>)
    requires
        json_string(a) + x == json_string(b) + y,
    ensures
        a == b,
        x == y,
{
    let left = json_string(a) + x;
    let right = json_string(b) + y;
    assert(left.subrange(1, left.len() as int) =~= escaped(a) + (seq!['"'] + x));
    assert(right.subrange(1, right.len() as int) =~= escaped(b) + (seq!['"'] + y));
    escaped_is_delimited(a, b, x, y);
}

proof fn escaped_is_delimited(a: Seq<char>, b: Seq<char>, x: Seq<char>, y: Seq<char>)
    requires
        escaped(a) + (seq!['"'] + x) == escaped(b) + (seq!['"'] + y),
    ensures
        a == b,
        x == y,
    decreases a.len(),
{
    let left = escaped(a) + (seq!['"'] + x);
    let right = escaped(b) + (seq!['"'] + y);
    if a.len() > 0 && b.len() > 0 {
        let ta = escaped(a.drop_first()) + (seq!['"'] + x);
        let tb = escaped(b.drop_first()) + (seq!['"'] + y);
        assert(left =~= escape_of(a[0]) + ta);
        assert(right =~= escape_of(b[0]) + tb);
        escapes_differ(a[0], b[0], ta, tb);
        escaped_is_delimited(a.drop_first(), b.drop_first(), x, y);
        assert(a =~= seq![a[0]] + a.drop_first());
        assert(b =~= seq![b[0]] + b.drop_first());
    } else if a.len() > 0 {
        assert(left =~= escape_of(a[0]) + (escaped(a.drop_first()) + (seq!['"'] + x)));
        assert(left[0] == escape_of(a[0])[0]);
        assert(right[0] == '"');
    } else if b.len() > 0 {
        assert(right =~= escape_of(b[0]) + (escaped(b.drop_first()) + (seq!['"'] + y)));
        assert(right[0] == escape_of(b[0])[0]);
        assert(left[0] == '"');
    } else {
        assert(a =~= b);
        assert(x =~= left.subrange(1, left.len() as int));
        assert(y =~= right.subrange(1, right.len() as int));
    }
}

/// The value of a member: a text, a number, or nothing.
#[derive(Debug)]
pub enum JsonValue {
    Text(String),
    Number(u64),
    Null,
}

/// A member of an object.
#[derive(Debug)]
pub struct Member {
    pub name: String,
    pub value: JsonValue,
}

/// How a value is written.
pub open spec fn value_text(value: JsonValue) -> Seq<char> {
    match value {
        JsonValue::Text(s) => json_string(s@),
        JsonValue::Number(n) => decimal(n as nat),
        JsonValue::Null => "null"@,
    }
}

/// The text is a string, a number without sign or fraction, or null.
pub open spec fn scalar(text: Seq<char>) -> bool {
    ||| exists|s: Seq<char>| text == #[trigger] json_string(s)
    ||| exists|n: nat| text == #[trigger] decimal(n)
    ||| text == "null"@
}

/// Members as names and written values.
pub open spec fn pairs(members: Seq<Member>) -> Seq<(Seq<char>, Seq<char>)> {
    members.map_values(|m: Member| (m.name@, value_text(m.value)))
}

/// The inside of an object.
pub open spec fn members_text(members: Seq<(Seq<char>, Seq<char>)>) -> Seq<char>
    decreases members.len(),
{
    if members.len() == 0 {
        Seq::empty()
    } else {
        let m = members.last();
        let front = if members.len() == 1 {
            Seq::empty()
        } else {
            members_text(members.drop_last()).push(',')
        };
        front + json_string(m.0) + seq![':'] + m.1
    }
}

/// An object, written without white space.
pub open spec fn object_text(members: Seq<(Seq<char>, Seq<char>)>) -> Seq<char> {
    seq!['{'] + members_text(members) + seq!['}']
}

/// The text is an object whose values are strings, numbers and nulls, written without white
/// space.
pub open spec fn flat_object(text: Seq<char>) -> bool {
    exists|members: Seq<(Seq<char>, Seq<char>)>|
        #![trigger object_text(members)]
        text == object_text(members) && forall|i: int|
            0 <= i < members.len() ==> scalar(#[trigger] members[i].1)
}

/// Writes an object.
pub fn write_object(members: &Vec<Member>) -> (r: String)
    ensures
        r@ == object_text(pairs(members@)),
        flat_object(r@),
{
    let ghost all = pairs(members@);
    proof {
        reveal_strlit("{");
        reveal_strlit("}");
        reveal_strlit(",");
        reveal_strlit(":");
    }
    let mut out: String = "{".to_owned();
    let mut i: usize = 0;
    assert(all.take(0) =~= Seq::<(Seq<char>, Seq<char>)>::empty());
    assert(out@ =~= seq!['{'] + members_text(all.take(0)));
    while i < members.len()
        invariant
            i <= members@.len(),
            all == pairs(members@),
            out@ == seq!['{'] + members_text(all.take(i as int)),
            ","@ == seq![','],
            ":"@ == seq![':'],
        decreases members@.len() - i,
    {
        let ghost before = out@;
        let ghost now = all.take(i + 1);
        proof {
            assert(now.drop_last() =~= all.take(i as int));
            assert(now.last() == all[i as int]);
            assert(all[i as int] == (members@[i as int].name@, value_text(members@[i as int].value)));
        }
        if i > 0 {
            out.append(",");
        }
        append_json_string(&mut out, members[i].name.as_str());
        out.append(":");
        match &members[i].value {
            JsonValue::Text(s) => {
                append_json_string(&mut out, s.as_str());
            },
            JsonValue::Number(n) => {
                append_decimal(&mut out, *n);
            },
            JsonValue::Null => {
                out.append("null");
            },
        }
        assert(out@ =~= seq!['{'] + members_text(now));
        i = i + 1;
    }
    assert(all.take(all.len() as int) =~= all);
    out.append("}");
    proof {
        assert(out@ =~= object_text(all));
        assert forall|k: int| 0 <= k < all.len() implies scalar(#[trigger] all[k].1) by {
            match members@[k].value {
                JsonValue::Text(s) => {
                    assert(all[k].1 == json_string(s@));
                },
                JsonValue::Number(n) => {
                    assert(all[k].1 == decimal(n as nat));
                },
                JsonValue::Null => {},
            }
        }
    }
    out
}

/// A member with a text.
pub fn text_member(name: &str, value: &str) -> (r: Member)
    ensures
        r.name@ == name@,
        value_text(r.value) == json_string(value@),
{
    Member { name: name.to_owned(), value: JsonValue::Text(value.to_owned()) }
}

/// A member with a number.
pub fn number_member(name: &str, value: u64) -> (r: Member)
    ensures
        r.name@ == name@,
        value_text(r.value) == decimal(value as nat),
{
    Member { name: name.to_owned(), value: JsonValue::Number(value) }
}

/// A member with a text, or with null where there is none.
pub fn optional_text_member(name: &str, value: &Option<String>) -> (r: Member)
    ensures
        r.name@ == name@,
        value_text(r.value) == (match *value {
            Some(text) => json_string(text@),
            None => "null"@,
        }),
{
    match value {
        Some(text) => text_member(name, text.as_str()),
        None => Member { name: name.to_owned(), value: JsonValue::Null },
    }
}

/// A member with a number, or with null where there is none.
pub fn optional_number_member(name: &str, value: Option<u16>) -> (r: Member)
    ensures
        r.name@ == name@,
        value_text(r.value) == (match value {
            Some(n) => decimal(n as nat),
            None => "null"@,
        }),
{
    match value {
        Some(n) => number_member(name, n as u64),
        None => Member { name: name.to_owned(), value: JsonValue::Null },
    }
}

/// A text is a JSON document.
pub uninterp spec fn json_valid(text: Seq<char>) -> bool;

/// The string at a place in a JSON document, where there is a document, the place and a string.
pub uninterp spec fn json_str_at(text: Seq<char>, place: Seq<char>) -> Option<Seq<char>>;

/// The number without sign or fraction, of at most 64 bits, at a place in a JSON document, where
/// there is a document, the place and such a number.
pub uninterp spec fn json_u64_at(text: Seq<char>, place: Seq<char>) -> Option<u64>;

/// The number without sign or fraction, of at most 64 bits, that is the member of a JSON object
/// with the given name, where there is an object and such a member. What the other members hold
/// does not matter, as long as it can be told where each one ends.
pub uninterp spec fn json_member_u64(text: Seq<char>, name: Seq<char>) -> Option<u64>;

/// The length of the array at a place in a JSON document, where there is a document, the place
/// and an array.
pub uninterp spec fn json_len_at(text: Seq<char>, place: Seq<char>) -> Option<usize>;

/// `serde_json::from_str` to a `Value`: says whether the text is a document. What is written of a
/// document is one.
#[verifier::external_body]
pub(crate) fn is_json(text: &str) -> (r: bool)
    ensures
        r == json_valid(text@),
        forall|doc: Json| readable(doc, deepest()) && text@ == #[trigger] written(doc) ==> r,
{
    serde_json::from_str::<serde_json::Value>(text).is_ok()
}

/// `serde_json::Value::pointer` and `Value::as_str` on a parsed text: the string at the place. In
/// what is written of a document it is the string that stands there.
#[verifier::external_body]
pub(crate) fn find_str(text: &str, place: &str) -> (r: Option<String>)
    ensures
        r is Some <==> json_str_at(text@, place@) is Some,
        r is Some ==> r->0@ == json_str_at(text@, place@)->0,
        forall|doc: Json, path: Seq<Step>| #[trigger]
            looks_up(text@, doc, place@, path) ==> match text_in(at(doc, path)) {
                Some(s) => r is Some && r->0@ == s,
                None => r is None,
            },
{
    serde_json::from_str::<serde_json::Value>(text).ok()?.pointer(place)?.as_str().map(String::from)
}

/// `serde_json::Value::pointer` and `Value::as_u64` on a parsed text: the number at the place. In
/// what is written of a document it is the number that stands there.
#[verifier::external_body]
pub(crate) fn find_u64(text: &str, place: &str) -> (r: Option<u64>)
    ensures
        r == json_u64_at(text@, place@),
        forall|doc: Json, path: Seq<Step>| #[trigger]
            looks_up(text@, doc, place@, path) ==> r == number_in(at(doc, path)),
{
    serde_json::from_str::<serde_json::Value>(text).ok()?.pointer(place)?.as_u64()
}

/// `serde_json::from_str` to a map of raw values, and again to a `u64` of the member with the
/// given name: that number. The other members are passed over unread. In what is written of an
/// object it is the number that is its member.
#[verifier::external_body]
pub(crate) fn find_member_u64(text: &str, name: &str) -> (r: Option<u64>)
    ensures
        r == json_member_u64(text@, name@),
        forall|members: Seq<(Seq<char>, Json)>|
            readable(Json::Object(members), deepest()) && text@ == #[trigger] written(
                Json::Object(members),
            ) ==> r == number_in(member(members, name@)),
{
    let raw = serde_json::from_str::<
        std::collections::BTreeMap<String, Box<serde_json::value::RawValue>>,
    >(text).ok()?;
    serde_json::from_str::<u64>(raw.get(name)?.get()).ok()
}

/// `serde_json::Value::pointer` and `Value::as_array` on a parsed text: the length of the array
/// at the place. In what is written of a document it is the length of the list that stands there.
#[verifier::external_body]
pub(crate) fn find_len(text: &str, place: &str) -> (r: Option<usize>)
    ensures
        r == json_len_at(text@, place@),
        forall|doc: Json, path: Seq<Step>| #[trigger]
            looks_up(text@, doc, place@, path) ==> match items_in(at(doc, path)) {
                Some(n) => r is Some && r->0 == n,
                None => r is None,
            },
{
    Some(serde_json::from_str::<serde_json::Value>(text).ok()?.pointer(place)?.as_array()?.len())
}

/// An object without members is a pair of braces. Each further member goes in front of the closing
/// brace, behind a comma where it is not the first one, as its name in quotes, a colon and its
/// value.
pub proof fn objects_are_written_member_by_member(
    members: Seq<(Seq<char>, Seq<char>)>,
    name: Seq<char>,
    value: Seq<char>,
)
    ensures
        object_text(Seq::empty()) == seq!['{', '}'],
        object_text(seq![(name, value)]) == seq!['{'] + json_string(name) + seq![':'] + value + seq![
            '}',
        ],
        members.len() > 0 ==> object_text(members.push((name, value))) == object_text(
            members,
        ).drop_last() + seq![','] + json_string(name) + seq![':'] + value + seq!['}'],
{
    assert(object_text(Seq::empty()) =~= seq!['{', '}']);
    let one = seq![(name, value)];
    assert(one.last() == (name, value));
    assert(object_text(one) =~= seq!['{'] + json_string(name) + seq![':'] + value + seq!['}']);
    if members.len() > 0 {
        let more = members.push((name, value));
        assert(more.drop_last() =~= members);
        assert(more.last() == (name, value));
        assert(object_text(members).drop_last() =~= seq!['{'] + members_text(members));
        assert(object_text(more) =~= object_text(members).drop_last() + seq![','] + json_string(name)
            + seq![':'] + value + seq!['}']);
    }
}

/// Texts are written between quotes, numbers as their digits, and nothing as `null`.
pub proof fn values_are_told_by_how_they_begin(value: JsonValue)
    ensures
        value is Null ==> value_text(value) == seq!['n', 'u', 'l', 'l'],
        value is Number ==> value_text(value) == decimal(value->Number_0 as nat),
        value is Text ==> value_text(value).len() >= 2 && value_text(value)[0] == '"' && value_text(
            value,
        ).last() == '"',
        value is Text ==> value_text(value).subrange(1, value_text(value).len() - 1) == escaped(
            value->Text_0@,
        ),
{
    reveal_strlit("null");
    assert("null"@ =~= seq!['n', 'u', 'l', 'l']);
    if value is Text {
        assert(value_text(value).subrange(1, value_text(value).len() - 1) =~= escaped(
            value->Text_0@,
        ));
    }
}

/// Quotes and backslashes stand behind a backslash, five control characters are a backslash and a
/// letter, and the other ones are four digits, the value of which is the character. All else stands
/// for itself.
pub proof fn characters_are_escaped_where_they_must_be(c: char)
    ensures
        escape_of('"') == seq!['\\', '"'],
        escape_of('\\') == seq!['\\', '\\'],
        escape_of('\u{8}') == seq!['\\', 'b'],
        escape_of('\t') == seq!['\\', 't'],
        escape_of('\n') == seq!['\\', 'n'],
        escape_of('\u{C}') == seq!['\\', 'f'],
        escape_of('\r') == seq!['\\', 'r'],
        c >= ' ' && c != '"' && c != '\\' ==> escape_of(c) == seq![c],
        c < ' ' && !('\u{8}' <= c && c <= '\n') && c != '\u{C}' && c != '\r' ==> ({
            let e = escape_of(c);
            let low = if e[5] <= '9' {
                e[5] as int - 48
            } else {
                e[5] as int - 87
            };
            &&& e.len() == 6
            &&& e[0] == '\\' && e[1] == 'u' && e[2] == '0' && e[3] == '0'
            &&& ('0' <= e[5] && e[5] <= '9') || ('a' <= e[5] && e[5] <= 'f')
            &&& (e[4] as int - 48) * 16 + low == c as int
        }),
{
}

} // verus!
