//! JSON documents as values: how they are written, and what stands at a place in them.

use crate::json::{escape_of, escaped, json_string, members_text, object_text};
use crate::text::decimal;
use vstd::prelude::*;

verus! {

/// A document.
pub enum Json {
    Text(Seq<char>),
    Number(u64),
    Null,
    List(Seq<Json>),
    Object(Seq<(Seq<char>, Json)>),
}

/// A document, written without white space.
pub open spec fn written(doc: Json) -> Seq<char>
    decreases doc,
{
    match doc {
        Json::Text(s) => json_string(s),
        Json::Number(n) => decimal(n as nat),
        Json::Null => "null"@,
        Json::List(items) => seq!['['] + items_written(items) + seq![']'],
        Json::Object(members) => seq!['{'] + members_written(members) + seq!['}'],
    }
}

/// The inside of a list.
pub open spec fn items_written(items: Seq<Json>) -> Seq<char>
    decreases items,
{
    if items.len() == 0 {
        Seq::empty()
    } else if items.len() == 1 {
        written(items[0])
    } else {
        items_written(items.drop_last()) + seq![','] + written(items[items.len() - 1])
    }
}

/// The inside of an object.
pub open spec fn members_written(members: Seq<(Seq<char>, Json)>) -> Seq<char>
    decreases members,
{
    if members.len() == 0 {
        Seq::empty()
    } else {
        let m = members[members.len() - 1];
        let front = if members.len() == 1 {
            Seq::empty()
        } else {
            members_written(members.drop_last()).push(',')
        };
        front + json_string(m.0) + seq![':'] + written(m.1)
    }
}

/// A name of ASCII letters and underscores.
pub open spec fn plain_name(name: Seq<char>) -> bool {
    forall|i: int|
        0 <= i < name.len() ==> ('a' <= #[trigger] name[i] && name[i] <= 'z') || ('A' <= name[i]
            && name[i] <= 'Z') || name[i] == '_'
}

/// The document is no deeper than the given number of levels, its names are plain, and no object
/// has a name twice.
pub open spec fn readable(doc: Json, levels: nat) -> bool
    decreases levels,
{
    match doc {
        Json::List(items) => levels > 0 && forall|i: int|
            0 <= i < items.len() ==> readable(#[trigger] items[i], (levels - 1) as nat),
        Json::Object(members) => levels > 0 && (forall|i: int, j: int|
            0 <= i < j < members.len() ==> (#[trigger] members[i]).0 != (#[trigger] members[j]).0)
            && forall|i: int|
            0 <= i < members.len() ==> plain_name((#[trigger] members[i]).0) && readable(
                members[i].1,
                (levels - 1) as nat,
            ),
        _ => true,
    }
}

/// How deep a document may be.
pub open spec fn deepest() -> nat {
    100
}

/// The member with the given name.
pub open spec fn member(members: Seq<(Seq<char>, Json)>, name: Seq<char>) -> Option<Json>
    decreases members.len(),
{
    if members.len() == 0 {
        None
    } else if members.last().0 == name {
        Some(members.last().1)
    } else {
        member(members.drop_last(), name)
    }
}

/// A step into a document: to a member of an object, or to an item of a list.
pub enum Step {
    Name(Seq<char>),
    Index(nat),
}

/// How a place in a document is written.
pub open spec fn place_of(path: Seq<Step>) -> Seq<char>
    decreases path.len(),
{
    if path.len() == 0 {
        Seq::empty()
    } else {
        place_of(path.drop_last()) + seq!['/'] + (match path.last() {
            Step::Name(name) => name,
            Step::Index(k) => decimal(k),
        })
    }
}

/// What stands at a place in a document, if anything does.
pub open spec fn at(doc: Json, path: Seq<Step>) -> Option<Json>
    decreases path.len(),
{
    if path.len() == 0 {
        Some(doc)
    } else {
        match (at(doc, path.drop_last()), path.last()) {
            (Some(Json::Object(members)), Step::Name(name)) => member(members, name),
            (Some(Json::List(items)), Step::Index(k)) => if k < items.len() {
                Some(items[k as int])
            } else {
                None
            },
            _ => None,
        }
    }
}

/// Every step of the path goes into what it is for: a plain name into an object, and a number
/// into a list.
pub open spec fn fits(doc: Json, path: Seq<Step>) -> bool
    decreases path.len(),
{
    path.len() > 0 ==> fits(doc, path.drop_last()) && match (
        at(doc, path.drop_last()),
        path.last(),
    ) {
        (Some(Json::Object(_)), Step::Name(name)) => plain_name(name),
        (Some(Json::List(_)), Step::Index(_)) => true,
        _ => false,
    }
}

/// The text is a readable document, and the place is that of a path that fits it.
pub open spec fn looks_up(text: Seq<char>, doc: Json, place: Seq<char>, path: Seq<Step>) -> bool {
    &&& readable(doc, deepest())
    &&& text == written(doc)
    &&& fits(doc, path)
    &&& place == place_of(path)
}

/// The text that a part of a document is.
pub open spec fn text_in(found: Option<Json>) -> Option<Seq<char>> {
    match found {
        Some(Json::Text(s)) => Some(s),
        _ => None,
    }
}

/// The number that a part of a document is.
pub open spec fn number_in(found: Option<Json>) -> Option<u64> {
    match found {
        Some(Json::Number(n)) => Some(n),
        _ => None,
    }
}

/// The number of items of the list that a part of a document is.
pub open spec fn items_in(found: Option<Json>) -> Option<nat> {
    match found {
        Some(Json::List(items)) => Some(items.len()),
        _ => None,
    }
}

/// What one member more makes of the inside of an object.
pub proof fn one_member(members: Seq<(Seq<char>, Json)>, name: Seq<char>, value: Json)
    ensures
        members_written(members.push((name, value))) == (if members.len() == 0 {
            Seq::empty()
        } else {
            members_written(members).push(',')
        }) + json_string(name) + seq![':'] + written(value),
{
    let more = members.push((name, value));
    assert(more.drop_last() =~= members);
    assert(more[more.len() - 1] == (name, value));
}

/// Members as names and written values.
pub open spec fn flat_members(members: Seq<(Seq<char>, Json)>) -> Seq<(Seq<char>, Seq<char>)> {
    members.map_values(|m: (Seq<char>, Json)| (m.0, written(m.1)))
}

proof fn flat_members_are_written(members: Seq<(Seq<char>, Json)>)
    ensures
        members_text(flat_members(members)) == members_written(members),
    decreases members.len(),
{
    if members.len() > 0 {
        let flat = flat_members(members);
        flat_members_are_written(members.drop_last());
        assert(flat.drop_last() =~= flat_members(members.drop_last()));
        assert(flat.last() == (members.last().0, written(members.last().1)));
    }
}

/// An object that is put together of written members is the one that is written as a whole.
pub proof fn flat_object_is_written(members: Seq<(Seq<char>, Json)>)
    ensures
        object_text(flat_members(members)) == written(Json::Object(members)),
{
    flat_members_are_written(members);
}

/// A character that stands for itself in a JSON string.
pub open spec fn unescaped(c: char) -> bool {
    let u = c as u32;
    u >= 0x20 && u != 0x22 && u != 0x5C
}

/// A text of characters that stand for themselves is the inside of its JSON string.
pub proof fn plain_text_is_not_escaped(s: Seq<char>)
    requires
        forall|i: int| 0 <= i < s.len() ==> unescaped(#[trigger] s[i]),
    ensures
        escaped(s) == s,
    decreases s.len(),
{
    if s.len() > 0 {
        assert(unescaped(s[0]));
        assert forall|i: int| 0 <= i < s.drop_first().len() implies unescaped(
            #[trigger] s.drop_first()[i],
        ) by {
            assert(s.drop_first()[i] == s[i + 1]);
        }
        plain_text_is_not_escaped(s.drop_first());
        assert(escape_of(s[0]) =~= seq![s[0]]);
        assert(escaped(s) =~= s);
    } else {
        assert(escaped(s) =~= s);
    }
}

/// A member of the outermost object is looked up by its name.
pub proof fn members_are_looked_up(
    text: Seq<char>,
    members: Seq<(Seq<char>, Json)>,
    place: Seq<char>,
    name: Seq<char>,
)
    requires
        readable(Json::Object(members), deepest()),
        text == written(Json::Object(members)),
        plain_name(name),
        place == seq!['/'] + name,
    ensures
        looks_up(text, Json::Object(members), place, seq![Step::Name(name)]),
        at(Json::Object(members), seq![Step::Name(name)]) == member(members, name),
{
    one_step(Json::Object(members), seq![], Step::Name(name));
    assert(Seq::<Step>::empty().push(Step::Name(name)) =~= seq![Step::Name(name)]);
    assert(place =~= Seq::<char>::empty() + seq!['/'] + name);
}

/// What one step more makes of a path.
pub proof fn one_step(doc: Json, path: Seq<Step>, step: Step)
    ensures
        place_of(path.push(step)) == place_of(path) + seq!['/'] + (match step {
            Step::Name(name) => name,
            Step::Index(k) => decimal(k),
        }),
        at(doc, path.push(step)) == (match (at(doc, path), step) {
            (Some(Json::Object(members)), Step::Name(name)) => member(members, name),
            (Some(Json::List(items)), Step::Index(k)) => if k < items.len() {
                Some(items[k as int])
            } else {
                None
            },
            _ => None,
        }),
        fits(doc, path.push(step)) == (fits(doc, path) && match (at(doc, path), step) {
            (Some(Json::Object(_)), Step::Name(name)) => plain_name(name),
            (Some(Json::List(_)), Step::Index(_)) => true,
            _ => false,
        }),
{
    assert(path.push(step).drop_last() =~= path);
}

/// A member is found by its name, and one that is put behind it under another name changes nothing;
/// under a name that no member has, nothing is found.
pub proof fn members_are_found_by_their_names(
    members: Seq<(Seq<char>, Json)>,
    name: Seq<char>,
    value: Json,
    other: Seq<char>,
)
    ensures
        member(members.push((name, value)), name) == Some(value),
        other != name ==> member(members.push((name, value)), other) == member(members, other),
        member(Seq::empty(), name) is None,
{
    assert(members.push((name, value)).drop_last() =~= members);
}

/// The items of a list are written in order, with a comma between each two of them.
pub proof fn lists_are_written_item_by_item(items: Seq<Json>, item: Json)
    ensures
        written(Json::List(Seq::empty())) == seq!['[', ']'],
        written(Json::List(seq![item])) == seq!['['] + written(item) + seq![']'],
        items.len() > 0 ==> written(Json::List(items.push(item))) == written(
            Json::List(items),
        ).drop_last() + seq![','] + written(item) + seq![']'],
{
    reveal_with_fuel(written, 2);
    reveal_with_fuel(items_written, 2);
    assert(written(Json::List(Seq::empty())) =~= seq!['[', ']']);
    assert(seq![item][0] == item);
    if items.len() > 0 {
        let more = items.push(item);
        assert(more.drop_last() =~= items);
        assert(written(Json::List(items)).drop_last() =~= seq!['['] + items_written(items));
        assert(written(Json::List(more)) =~= written(Json::List(items)).drop_last() + seq![',']
            + written(item) + seq![']']);
    }
}

} // verus!
