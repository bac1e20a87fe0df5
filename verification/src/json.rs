//! JSON documents as the bridge sees them.
//!
//! [`Json`] is the crate's own tree of JSON data. Reading a member, telling
//! a string from another value and building documents are verified here;
//! turning text into a tree and a tree into text is left to `serde_json`.

use crate::text::{opt_str_text, opt_text};
use vstd::prelude::*;
use vstd::string::*;

verus! {

/// `serde_json::Number`, a JSON number. It is carried as it is; nothing
/// here looks inside.
#[verifier::external_type_specification]
#[verifier::external_body]
pub struct ExNumber(serde_json::Number);

/// `serde_json::Value`, the tree that `serde_json` reads and writes. It
/// only passes between `serde_json` and [`Json`].
#[verifier::external_type_specification]
#[verifier::external_body]
pub struct ExValue(serde_json::Value);

/// `Clone::clone` of a `serde_json::Number`: the copy is the same number.
pub assume_specification[ <serde_json::Number as Clone>::clone ](
    n: &serde_json::Number,
) -> (r: serde_json::Number)
    ensures
        r == *n,
;

/// A JSON document.
///
/// An object keeps its members in order. Where a key occurs more than once,
/// the last occurrence is the one that counts.
#[derive(Debug, PartialEq)]
pub enum Json {
    Null,
    Bool(bool),
    Number(serde_json::Number),
    Str(String),
    Array(Vec<Json>),
    Object(Vec<(String, Json)>),
}

/// The mathematical value of a [`Json`] document.
#[verifier::ext_equal]
pub enum JsonView {
    Null,
    Bool(bool),
    Number(serde_json::Number),
    Str(Seq<char>),
    Array(Seq<JsonView>),
    Object(Seq<(Seq<char>, JsonView)>),
}

/// The values of a sequence of documents, in order.
pub open spec fn items_view(items: Seq<Json>) -> Seq<JsonView>
    decreases items, 0nat,
{
    if items.len() == 0 {
        Seq::empty()
    } else {
        items_view(items.drop_last()).push(json_view(items.last()))
    }
}

/// The values of a sequence of object members, in order.
pub open spec fn members_view(members: Seq<(String, Json)>) -> Seq<(Seq<char>, JsonView)>
    decreases members, 0nat,
{
    if members.len() == 0 {
        Seq::empty()
    } else {
        members_view(members.drop_last()).push(
            (members.last().0@, json_view(members.last().1)),
        )
    }
}

/// The value of one document.
pub open spec fn json_view(j: Json) -> JsonView
    decreases j, 1nat,
{
    match j {
        Json::Null => JsonView::Null,
        Json::Bool(b) => JsonView::Bool(b),
        Json::Number(n) => JsonView::Number(n),
        Json::Str(s) => JsonView::Str(s@),
        Json::Array(items) => JsonView::Array(items_view(items@)),
        Json::Object(members) => JsonView::Object(members_view(members@)),
    }
}

impl View for Json {
    type V = JsonView;

    open spec fn view(&self) -> JsonView {
        json_view(*self)
    }
}

/// The value of an optional document.
pub open spec fn opt_json_view(j: Option<Json>) -> Option<JsonView> {
    match j {
        Some(v) => Some(v@),
        None => None,
    }
}

/// `members_view` keeps the length and maps each member to its key's
/// characters and its value.
pub proof fn lemma_members_view(members: Seq<(String, Json)>)
    ensures
        members_view(members).len() == members.len(),
        forall|i: int|
            0 <= i < members.len() ==> #[trigger] members_view(members)[i] == (
                members[i].0@,
                members[i].1@,
            ),
    decreases members.len(),
{
    if members.len() > 0 {
        lemma_members_view(members.drop_last());
    }
}

/// Appending a document appends its value.
pub proof fn lemma_items_view_push(items: Seq<Json>, item: Json)
    ensures
        items_view(items.push(item)) == items_view(items).push(item@),
{
    assert(items.push(item).drop_last() =~= items);
}

/// Appending a member appends its value.
pub proof fn lemma_members_view_push(members: Seq<(String, Json)>, member: (String, Json))
    ensures
        members_view(members.push(member)) == members_view(members).push(
            (member.0@, member.1@),
        ),
{
    assert(members.push(member).drop_last() =~= members);
}

/// The value stored under `key` among `members`: that of the last member
/// with this key, if there is one.
pub open spec fn find_member(members: Seq<(Seq<char>, JsonView)>, key: Seq<char>) -> Option<
    JsonView,
>
    decreases members.len(),
{
    if members.len() == 0 {
        None
    } else if members.last().0 == key {
        Some(members.last().1)
    } else {
        find_member(members.drop_last(), key)
    }
}

impl JsonView {
    /// The member `key` of an object; `None` for a missing key and for
    /// anything that is not an object.
    pub open spec fn member(self, key: Seq<char>) -> Option<JsonView> {
        match self {
            JsonView::Object(members) => find_member(members, key),
            _ => None,
        }
    }

    /// The characters of a JSON string; `None` for any other value.
    pub open spec fn as_str(self) -> Option<Seq<char>> {
        match self {
            JsonView::Str(s) => Some(s),
            _ => None,
        }
    }

    /// The truth value of a JSON boolean; `None` for any other value.
    pub open spec fn as_bool(self) -> Option<bool> {
        match self {
            JsonView::Bool(b) => Some(b),
            _ => None,
        }
    }

    /// The string stored under `key`, if the member exists and is a string.
    pub open spec fn str_member(self, key: Seq<char>) -> Option<Seq<char>> {
        match self.member(key) {
            Some(v) => v.as_str(),
            None => None,
        }
    }

    /// The boolean stored under `key`, if the member exists and is a boolean.
    pub open spec fn bool_member(self, key: Seq<char>) -> Option<bool> {
        match self.member(key) {
            Some(v) => v.as_bool(),
            None => None,
        }
    }

    /// The object without members.
    pub open spec fn empty_object() -> JsonView {
        JsonView::Object(Seq::empty())
    }

    /// The object with the member `key: value` appended; any other value
    /// unchanged.
    pub open spec fn with(self, key: Seq<char>, value: JsonView) -> JsonView {
        match self {
            JsonView::Object(members) => JsonView::Object(members.push((key, value))),
            other => other,
        }
    }
}

/// Searching the members up to `end` from the back equals searching all of
/// them once no later member has the key.
proof fn lemma_find_member_prefix(
    members: Seq<(Seq<char>, JsonView)>,
    key: Seq<char>,
    end: int,
)
    requires
        0 <= end <= members.len(),
        forall|k: int| end <= k < members.len() ==> members[k].0 != key,
    ensures
        find_member(members, key) == find_member(members.subrange(0, end), key),
    decreases members.len() - end,
{
    if end == members.len() {
        assert(members.subrange(0, end) =~= members);
    } else {
        assert(members.drop_last().subrange(0, end) =~= members.subrange(0, end));
        lemma_find_member_prefix(members.drop_last(), key, end);
    }
}

/// The position of the last member with the given key, if any.
fn find_last(members: &Vec<(String, Json)>, key: &str) -> (r: Option<usize>)
    ensures
        match r {
            Some(i) => i < members.len() && members[i as int].0@ == key@ && find_member(
                members_view(members@),
                key@,
            ) == Some(members[i as int].1@),
            None => find_member(members_view(members@), key@) is None,
        },
{
    proof {
        lemma_members_view(members@);
    }
    let ghost view = members_view(members@);
    let mut i: usize = members.len();
    while i > 0
        invariant
            i <= members.len(),
            view == members_view(members@),
            view.len() == members.len(),
            forall|k: int|
                0 <= k < members.len() ==> #[trigger] view[k] == (members[k].0@, members[k].1@),
            forall|k: int| i <= k < members.len() ==> view[k].0 != key@,
        decreases i,
    {
        i = i - 1;
        if members[i].0.as_str().eq(key) {
            proof {
                lemma_find_member_prefix(view, key@, i as int + 1);
                assert(view.subrange(0, i as int + 1).last() == view[i as int]);
            }
            return Some(i);
        }
    }
    proof {
        lemma_find_member_prefix(view, key@, 0);
        assert(view.subrange(0, 0) =~= Seq::empty());
    }
    None
}

impl Clone for Json {
    fn clone(&self) -> (r: Json)
        ensures
            r@ == self@,
    {
        self.duplicate()
    }
}

impl Json {
    /// A copy of the document.
    pub fn duplicate(&self) -> (r: Json)
        ensures
            r@ == self@,
        decreases self,
    {
        match self {
            Json::Null => Json::Null,
            Json::Bool(b) => Json::Bool(*b),
            Json::Number(n) => Json::Number(n.clone()),
            Json::Str(s) => Json::Str(s.clone()),
            Json::Array(items) => {
                let mut out: Vec<Json> = Vec::new();
                let mut i: usize = 0;
                while i < items.len()
                    invariant
                        i <= items.len(),
                        *self == Json::Array(*items),
                        items_view(out@) == items_view(items@.subrange(0, i as int)),
                    decreases items.len() - i,
                {
                    assert(decreases_to!(*self => self->Array_0));
                    assert(decreases_to!(*items => items[i as int]));
                    let item = items[i].duplicate();
                    proof {
                        lemma_items_view_push(out@, item);
                        lemma_items_view_push(items@.subrange(0, i as int), items[i as int]);
                        assert(items@.subrange(0, i as int).push(items[i as int])
                            =~= items@.subrange(0, i as int + 1));
                    }
                    out.push(item);
                    i = i + 1;
                }
                assert(items@.subrange(0, i as int) =~= items@);
                Json::Array(out)
            },
            Json::Object(members) => {
                let mut out: Vec<(String, Json)> = Vec::new();
                let mut i: usize = 0;
                while i < members.len()
                    invariant
                        i <= members.len(),
                        *self == Json::Object(*members),
                        members_view(out@) == members_view(members@.subrange(0, i as int)),
                    decreases members.len() - i,
                {
                    let key = members[i].0.clone();
                    assert(decreases_to!(*self => self->Object_0));
                    assert(decreases_to!(*members => members[i as int]));
                    assert(decreases_to!(members[i as int] => members[i as int].1));
                    let value = members[i].1.duplicate();
                    proof {
                        lemma_members_view_push(out@, (key, value));
                        lemma_members_view_push(
                            members@.subrange(0, i as int),
                            members[i as int],
                        );
                        assert(members@.subrange(0, i as int).push(members[i as int])
                            =~= members@.subrange(0, i as int + 1));
                    }
                    out.push((key, value));
                    i = i + 1;
                }
                assert(members@.subrange(0, i as int) =~= members@);
                Json::Object(out)
            },
        }
    }

    /// A JSON string with the given characters.
    pub fn string(s: &str) -> (r: Json)
        ensures
            r@ == JsonView::Str(s@),
    {
        Json::Str(String::from_str(s))
    }

    /// The JSON number for an integer.
    pub fn integer(n: i64) -> (r: Json)
        ensures
            r@ == JsonView::Number(int_number(n as int)),
    {
        Json::Number(number_from_i64(n))
    }

    /// A JSON string, or `null` where there is none.
    pub fn opt_string(s: &Option<String>) -> (r: Json)
        ensures
            r@ == match *s {
                Some(t) => JsonView::Str(t@),
                None => JsonView::Null,
            },
    {
        match s {
            Some(t) => Json::Str(t.clone()),
            None => Json::Null,
        }
    }

    /// An array of the given documents.
    pub fn array(items: Vec<Json>) -> (r: Json)
        ensures
            r@ == JsonView::Array(items_view(items@)),
    {
        Json::Array(items)
    }

    /// The object without members.
    pub fn empty_object() -> (r: Json)
        ensures
            r@ == JsonView::empty_object(),
    {
        Json::Object(Vec::new())
    }

    /// Appends the member `key: value` to an object; any other document is
    /// handed back as it came.
    pub fn with(self, key: &str, value: Json) -> (r: Json)
        ensures
            r@ == self@.with(key@, value@),
    {
        match self {
            Json::Object(mut members) => {
                let ghost before = members@;
                let k = String::from_str(key);
                proof {
                    lemma_members_view_push(before, (k, value));
                }
                members.push((k, value));
                Json::Object(members)
            },
            other => other,
        }
    }

    /// The member `key` of an object.
    pub fn get(&self, key: &str) -> (r: Option<&Json>)
        ensures
            match r {
                Some(v) => self@.member(key@) == Some(v@),
                None => self@.member(key@) is None,
            },
    {
        match self {
            Json::Object(members) => {
                match find_last(members, key) {
                    Some(i) => Some(&members[i].1),
                    None => None,
                }
            },
            _ => None,
        }
    }

    /// Takes the member `key` out of an object, giving up the rest.
    pub fn into_member(self, key: &str) -> (r: Option<Json>)
        ensures
            opt_json_view(r) == self@.member(key@),
    {
        match self {
            Json::Object(mut members) => {
                match find_last(&members, key) {
                    Some(i) => {
                        let member = members.swap_remove(i);
                        Some(member.1)
                    },
                    None => None,
                }
            },
            _ => None,
        }
    }

    /// The characters of a JSON string.
    pub fn as_str(&self) -> (r: Option<&str>)
        ensures
            opt_str_text(r) == self@.as_str(),
    {
        match self {
            Json::Str(s) => Some(s.as_str()),
            _ => None,
        }
    }

    /// The truth value of a JSON boolean.
    pub fn as_bool(&self) -> (r: Option<bool>)
        ensures
            r == self@.as_bool(),
    {
        match self {
            Json::Bool(b) => Some(*b),
            _ => None,
        }
    }

    /// Whether the document is a JSON object.
    pub fn is_object(&self) -> (r: bool)
        ensures
            r == (self@ is Object),
    {
        match self {
            Json::Object(_) => true,
            _ => false,
        }
    }

    /// Whether the document is `null`.
    pub fn is_null(&self) -> (r: bool)
        ensures
            r == (self@ is Null),
    {
        match self {
            Json::Null => true,
            _ => false,
        }
    }

    /// Whether the document is a JSON string.
    pub fn is_string(&self) -> (r: bool)
        ensures
            r == (self@ is Str),
    {
        match self {
            Json::Str(_) => true,
            _ => false,
        }
    }

    /// The string stored under `key`, if the member exists and is a string.
    pub fn str_member(&self, key: &str) -> (r: Option<&str>)
        ensures
            opt_str_text(r) == self@.str_member(key@),
    {
        match self.get(key) {
            Some(v) => v.as_str(),
            None => None,
        }
    }

    /// The boolean stored under `key`, if the member exists and is a boolean.
    pub fn bool_member(&self, key: &str) -> (r: Option<bool>)
        ensures
            r == self@.bool_member(key@),
    {
        match self.get(key) {
            Some(v) => v.as_bool(),
            None => None,
        }
    }

    /// Reads one JSON document from text.
    pub fn parse(text: &str) -> (r: Result<Json, String>)
        ensures
            parse_outcome(r) == json_parse(text@),
    {
        parse_text(text)
    }

    /// The document as compact JSON text; the empty string where it cannot
    /// be written.
    pub fn to_text(&self) -> (r: String)
        ensures
            r@ == compact_text(self@),
    {
        match write_text(self) {
            Some(t) => t,
            None => String::new(),
        }
    }

    /// The document as indented JSON text; the empty string where it cannot
    /// be written.
    pub fn to_pretty_text(&self) -> (r: String)
        ensures
            r@ == pretty_text(self@),
    {
        match write_pretty_text(self) {
            Some(t) => t,
            None => String::new(),
        }
    }
}

/// What a parse attempt gave, with the document by its value and the error
/// by its characters.
pub open spec fn parse_outcome(r: Result<Json, String>) -> Result<JsonView, Seq<char>> {
    match r {
        Ok(j) => Ok(j@),
        Err(e) => Err(e@),
    }
}

/// The compact text of a document, empty where `serde_json` writes none.
pub open spec fn compact_text(j: JsonView) -> Seq<char> {
    match json_text(j) {
        Some(t) => t,
        None => Seq::empty(),
    }
}

/// The indented text of a document, empty where `serde_json` writes none.
pub open spec fn pretty_text(j: JsonView) -> Seq<char> {
    match json_pretty_text(j) {
        Some(t) => t,
        None => Seq::empty(),
    }
}

/// The number that `serde_json` makes of an integer.
pub uninterp spec fn int_number(n: int) -> serde_json::Number;

/// What `serde_json` reads from a text: the document, or the message of its
/// error.
pub uninterp spec fn json_parse(text: Seq<char>) -> Result<JsonView, Seq<char>>;

/// The compact text that `serde_json` writes for a document.
pub uninterp spec fn json_text(j: JsonView) -> Option<Seq<char>>;

/// The indented text that `serde_json` writes for a document.
pub uninterp spec fn json_pretty_text(j: JsonView) -> Option<Seq<char>>;

/// `serde_json::Number::from` on an `i64`: the JSON number with that
/// integer value. The same integer always gives the same number.
#[verifier::external_body]
fn number_from_i64(n: i64) -> (r: serde_json::Number)
    ensures
        r == int_number(n as int),
{
    serde_json::Number::from(n)
}

/// Moves a `serde_json::Value` into a [`Json`], variant by variant: each
/// variant becomes the variant of the same name with the same fields, and
/// the members of an object keep the order in which its map yields them.
/// It serves [`parse_text`] and is not specified on its own.
#[verifier::external_body]
fn from_value(v: serde_json::Value) -> Json {
    match v {
        serde_json::Value::Null => Json::Null,
        serde_json::Value::Bool(b) => Json::Bool(b),
        serde_json::Value::Number(n) => Json::Number(n),
        serde_json::Value::String(s) => Json::Str(s),
        serde_json::Value::Array(a) => Json::Array(a.into_iter().map(from_value).collect()),
        serde_json::Value::Object(o) => Json::Object(
            o.into_iter().map(|m| (m.0, from_value(m.1))).collect(),
        ),
    }
}

/// Copies a [`Json`] into a `serde_json::Value`, variant by variant. The
/// members of an object are collected into a `serde_json::Map`, in which a
/// later member replaces the value of an earlier one with the same key. It
/// serves [`write_text`] and [`write_pretty_text`] and is not specified on
/// its own.
#[verifier::external_body]
fn to_value(j: &Json) -> serde_json::Value {
    match j {
        Json::Null => serde_json::Value::Null,
        Json::Bool(b) => serde_json::Value::Bool(*b),
        Json::Number(n) => serde_json::Value::Number(n.clone()),
        Json::Str(s) => serde_json::Value::String(s.clone()),
        Json::Array(a) => serde_json::Value::Array(a.iter().map(to_value).collect()),
        Json::Object(o) => serde_json::Value::Object(
            o.iter().map(|m| (m.0.clone(), to_value(&m.1))).collect(),
        ),
    }
}

/// `serde_json::from_str` for a `serde_json::Value`: one JSON document is
/// read from the whole text. The outcome depends on the text alone; an
/// error is handed on as its message.
#[verifier::external_body]
fn parse_text(text: &str) -> (r: Result<Json, String>)
    ensures
        parse_outcome(r) == json_parse(text@),
{
    match serde_json::from_str::<serde_json::Value>(text) {
        Ok(v) => Ok(from_value(v)),
        Err(e) => Err(e.to_string()),
    }
}

/// `serde_json::to_string` on the document: its compact text, which
/// depends on the document alone.
#[verifier::external_body]
fn write_text(j: &Json) -> (r: Option<String>)
    ensures
        opt_text(r) == json_text(j@),
{
    serde_json::to_string(&to_value(j)).ok()
}

/// `serde_json::to_string_pretty` on the document: its text indented by
/// two spaces, which depends on the document alone.
#[verifier::external_body]
fn write_pretty_text(j: &Json) -> (r: Option<String>)
    ensures
        opt_text(r) == json_pretty_text(j@),
{
    serde_json::to_string_pretty(&to_value(j)).ok()
}

} // verus!
