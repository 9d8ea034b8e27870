//! JSON documents: the value the protocol layer reads and builds, its
//! mathematical view, and the two crossings to and from text.

use vstd::prelude::*;
use crate::text::{is_json_number, is_json_number_text, str_eq};

verus! {

/// A JSON document as a mathematical value. A number is held as its literal;
/// an object as its members in order.
pub enum JsonValue {
    Null,
    Bool(bool),
    Number(Seq<char>),
    Str(Seq<char>),
    Array(Seq<JsonValue>),
    Object(Seq<(Seq<char>, JsonValue)>),
}

/// A JSON document held in memory. Any document can be held; the ones
/// that JSON can write are told by `is_valid`. `==` compares objects as
/// maps, whatever the order of their members; `json_eq` asks for the same
/// members in the same order.
#[derive(Debug)]
pub enum Json {
    Null,
    Bool(bool),
    /// A number, as the literal that writes it (`"60"`, `"-3"`, `"0.5"`).
    Number(String),
    Str(String),
    Array(Vec<Json>),
    /// The members of an object, each a key and its value.
    Object(Vec<(String, Json)>),
}

/// The view of a list of object members.
pub open spec fn members_view(members: Seq<(String, Json)>) -> Seq<(Seq<char>, JsonValue)>
    decreases members,
{
    Seq::new(
        members.len(),
        |i: int|
            if 0 <= i < members.len() {
                (members[i].0@, members[i].1@)
            } else {
                (Seq::empty(), JsonValue::Null)
            },
    )
}

/// The view of a list of documents.
pub open spec fn items_view(items: Seq<Json>) -> Seq<JsonValue>
    decreases items,
{
    Seq::new(
        items.len(),
        |i: int|
            if 0 <= i < items.len() {
                items[i]@
            } else {
                JsonValue::Null
            },
    )
}

impl View for Json {
    type V = JsonValue;

    open spec fn view(&self) -> JsonValue
        decreases self,
    {
        match self {
            Json::Null => JsonValue::Null,
            Json::Bool(b) => JsonValue::Bool(*b),
            Json::Number(text) => JsonValue::Number(text@),
            Json::Str(text) => JsonValue::Str(text@),
            Json::Array(items) => JsonValue::Array(items_view(items@)),
            Json::Object(members) => JsonValue::Object(members_view(members@)),
        }
    }
}


/// Copies a list of documents.
fn clone_items(items: &Vec<Json>) -> (copy: Vec<Json>)
    ensures
        items_view(copy@) == items_view(items@),
    decreases items, 0nat,
{
    let mut copy: Vec<Json> = Vec::new();
    let mut i: usize = 0;
    while i < items.len()
        invariant
            i <= items.len(),
            copy.len() == i,
            forall|k: int| 0 <= k < i ==> copy[k]@ == items[k]@,
        decreases items.len() - i,
    {
        proof {
            vstd::std_specs::vec::axiom_vec_index_decreases(*items, i as int);
        }
        copy.push(items[i].clone());
        i = i + 1;
    }
    assert(items_view(copy@) =~= items_view(items@));
    copy
}

/// Copies a list of object members.
fn clone_members(members: &Vec<(String, Json)>) -> (copy: Vec<(String, Json)>)
    ensures
        members_view(copy@) == members_view(members@),
    decreases members, 0nat,
{
    let mut copy: Vec<(String, Json)> = Vec::new();
    let mut i: usize = 0;
    while i < members.len()
        invariant
            i <= members.len(),
            copy.len() == i,
            forall|k: int|
                0 <= k < i ==> copy[k].0@ == members[k].0@ && copy[k].1@ == members[k].1@,
        decreases members.len() - i,
    {
        proof {
            vstd::std_specs::vec::axiom_vec_index_decreases(*members, i as int);
        }
        copy.push((members[i].0.clone(), members[i].1.clone()));
        i = i + 1;
    }
    assert(members_view(copy@) =~= members_view(members@));
    copy
}

impl Clone for Json {
    /// A copy with the same view.
    fn clone(&self) -> (copy: Json)
        ensures
            copy@ == self@,
        decreases self, 1nat,
    {
        match self {
            Json::Null => Json::Null,
            Json::Bool(b) => Json::Bool(*b),
            Json::Number(text) => Json::Number(text.clone()),
            Json::Str(text) => Json::Str(text.clone()),
            Json::Array(items) => Json::Array(clone_items(items)),
            Json::Object(members) => Json::Object(clone_members(members)),
        }
    }
}

/// Tells whether two lists of documents have the same view.
fn items_eq(a: &Vec<Json>, b: &Vec<Json>) -> (same: bool)
    ensures
        same == (items_view(a@) == items_view(b@)),
    decreases a, 0nat,
{
    if a.len() != b.len() {
        assert(items_view(a@).len() != items_view(b@).len());
        return false;
    }
    let mut i: usize = 0;
    while i < a.len()
        invariant
            i <= a.len(),
            a.len() == b.len(),
            forall|k: int| 0 <= k < i ==> a[k]@ == b[k]@,
        decreases a.len() - i,
    {
        proof {
            vstd::std_specs::vec::axiom_vec_index_decreases(*a, i as int);
        }
        if !json_eq(&a[i], &b[i]) {
            assert(items_view(a@)[i as int] != items_view(b@)[i as int]);
            return false;
        }
        i = i + 1;
    }
    assert(items_view(a@) =~= items_view(b@));
    true
}

/// Tells whether two lists of object members have the same view.
fn members_eq(a: &Vec<(String, Json)>, b: &Vec<(String, Json)>) -> (same: bool)
    ensures
        same == (members_view(a@) == members_view(b@)),
    decreases a, 0nat,
{
    if a.len() != b.len() {
        assert(members_view(a@).len() != members_view(b@).len());
        return false;
    }
    let mut i: usize = 0;
    while i < a.len()
        invariant
            i <= a.len(),
            a.len() == b.len(),
            forall|k: int| 0 <= k < i ==> a[k].0@ == b[k].0@ && a[k].1@ == b[k].1@,
        decreases a.len() - i,
    {
        proof {
            vstd::std_specs::vec::axiom_vec_index_decreases(*a, i as int);
        }
        if !str_eq(a[i].0.as_str(), b[i].0.as_str()) || !json_eq(&a[i].1, &b[i].1) {
            assert(members_view(a@)[i as int] != members_view(b@)[i as int]);
            return false;
        }
        i = i + 1;
    }
    assert(members_view(a@) =~= members_view(b@));
    true
}

/// Tells whether two documents have the same view: the same kind, the same
/// text or truth value, the same items or members in the same order.
pub fn json_eq(a: &Json, b: &Json) -> (same: bool)
    ensures
        same == (a@ == b@),
    decreases a, 1nat,
{
    match (a, b) {
        (Json::Null, Json::Null) => true,
        (Json::Bool(x), Json::Bool(y)) => *x == *y,
        (Json::Number(x), Json::Number(y)) => str_eq(x.as_str(), y.as_str()),
        (Json::Str(x), Json::Str(y)) => str_eq(x.as_str(), y.as_str()),
        (Json::Array(x), Json::Array(y)) => items_eq(x, y),
        (Json::Object(x), Json::Object(y)) => members_eq(x, y),
        _ => false,
    }
}

impl PartialEq for Json {
    /// Two documents are equal where they are the same with objects
    /// compared as maps.
    fn eq(&self, other: &Json) -> (same: bool) {
        self.same_as(other)
    }
}

impl vstd::std_specs::cmp::PartialEqSpecImpl for Json {
    open spec fn obeys_eq_spec() -> bool {
        true
    }

    open spec fn eq_spec(&self, other: &Json) -> bool {
        same_document(self@, other@)
    }
}

/// Tells whether some member of an object has the key `key`.
pub open spec fn has_member(members: Seq<(Seq<char>, JsonValue)>, key: Seq<char>) -> bool {
    exists|i: int| 0 <= i < members.len() && (#[trigger] members[i]).0 == key
}

/// Finds the first member with the key `key`.
pub fn find_member(members: &Vec<(String, Json)>, key: &str) -> (found: Option<usize>)
    ensures
        found is Some == has_member(members_view(members@), key@),
        found matches Some(i) ==> i < members.len() && members[i as int].0@ == key@ && forall|
            k: int,
        | 0 <= k < i ==> members[k].0@ != key@,
{
    let mut i: usize = 0;
    while i < members.len()
        invariant
            i <= members.len(),
            forall|k: int| 0 <= k < i ==> members[k].0@ != key@,
        decreases members.len() - i,
    {
        if str_eq(members[i].0.as_str(), key) {
            assert(members_view(members@)[i as int].0 == key@);
            return Some(i);
        }
        i = i + 1;
    }
    assert forall|k: int| 0 <= k < members.len() implies (#[trigger] members_view(
        members@,
    )[k]).0 != key@ by {
        assert(members[k].0@ != key@);
    }
    None
}

/// No two members of an object have the same key.
pub open spec fn distinct_keys(members: Seq<(Seq<char>, JsonValue)>) -> bool {
    forall|i: int, j: int|
        0 <= i < j < members.len() ==> (#[trigger] members[i]).0 != (#[trigger] members[j]).0
}

/// Tells whether a document is one that JSON can write: every number is
/// a number as JSON writes it, and no object has two members with the
/// same key. Any document can be held in memory; a document that is not
/// valid is not written as it stands, for the printer writes `null` for a
/// number that is none and one member for each key.
pub open spec fn valid_document(value: JsonValue) -> bool
    decreases value,
{
    match value {
        JsonValue::Null => true,
        JsonValue::Bool(_) => true,
        JsonValue::Number(literal) => is_json_number(literal),
        JsonValue::Str(_) => true,
        JsonValue::Array(items) => forall|i: int|
            0 <= i < items.len() ==> valid_document(#[trigger] items[i]),
        JsonValue::Object(members) => distinct_keys(members) && forall|i: int|
            0 <= i < members.len() ==> valid_document((#[trigger] members[i]).1),
    }
}

/// Tells whether every document of a list is valid.
fn items_valid(items: &Vec<Json>) -> (valid: bool)
    ensures
        valid == valid_document(JsonValue::Array(items_view(items@))),
    decreases items, 0nat,
{
    let mut i: usize = 0;
    while i < items.len()
        invariant
            i <= items.len(),
            forall|k: int| 0 <= k < i ==> valid_document(#[trigger] items_view(items@)[k]),
        decreases items.len() - i,
    {
        proof {
            vstd::std_specs::vec::axiom_vec_index_decreases(*items, i as int);
        }
        assert(items_view(items@)[i as int] == items[i as int]@);
        if !items[i].is_valid() {
            assert(!valid_document(items_view(items@)[i as int]));
            assert(!valid_document(JsonValue::Array(items_view(items@)))) by {
                let whole = JsonValue::Array(items_view(items@));
                if valid_document(whole) {
                    assert(valid_document(whole->Array_0[i as int]));
                }
            }
            return false;
        }
        i = i + 1;
    }
    true
}

/// Tells whether the members of an object have distinct keys.
fn keys_distinct(members: &Vec<(String, Json)>) -> (distinct: bool)
    ensures
        distinct == distinct_keys(members_view(members@)),
{
    let ghost all = members_view(members@);
    let mut j: usize = 0;
    while j < members.len()
        invariant
            j <= members.len(),
            all == members_view(members@),
            forall|a: int, b: int| 0 <= a < b < j ==> (#[trigger] all[a]).0 != (#[trigger] all[b]).0,
        decreases members.len() - j,
    {
        let mut i: usize = 0;
        while i < j
            invariant
                i <= j,
                j < members.len(),
                all == members_view(members@),
                forall|a: int| 0 <= a < i ==> (#[trigger] all[a]).0 != all[j as int].0,
            decreases j - i,
        {
            assert(all[i as int].0 == members[i as int].0@);
            assert(all[j as int].0 == members[j as int].0@);
            if str_eq(members[i].0.as_str(), members[j].0.as_str()) {
                return false;
            }
            i = i + 1;
        }
        j = j + 1;
    }
    true
}

/// Tells whether the value of every member of an object is valid.
fn members_valid(members: &Vec<(String, Json)>) -> (valid: bool)
    ensures
        valid == (forall|i: int|
            0 <= i < members_view(members@).len() ==> valid_document(
                (#[trigger] members_view(members@)[i]).1,
            )),
    decreases members, 0nat,
{
    let mut i: usize = 0;
    while i < members.len()
        invariant
            i <= members.len(),
            forall|k: int|
                0 <= k < i ==> valid_document((#[trigger] members_view(members@)[k]).1),
        decreases members.len() - i,
    {
        proof {
            vstd::std_specs::vec::axiom_vec_index_decreases(*members, i as int);
        }
        assert(members_view(members@)[i as int].1 == members[i as int].1@);
        if !members[i].1.is_valid() {
            assert(!valid_document(members_view(members@)[i as int].1));
            return false;
        }
        i = i + 1;
    }
    true
}

impl Json {
    /// Tells whether the document is one that JSON can write.
    pub fn is_valid(&self) -> (valid: bool)
        ensures
            valid == valid_document(self@),
        decreases self, 1nat,
    {
        match self {
            Json::Null => true,
            Json::Bool(_) => true,
            Json::Number(literal) => is_json_number_text(literal.as_str()),
            Json::Str(_) => true,
            Json::Array(items) => items_valid(items),
            Json::Object(members) => keys_distinct(members) && members_valid(members),
        }
    }
}

/// Tells whether the member at the place `j` is the first with the key
/// `key`.
pub open spec fn is_first_member(
    members: Seq<(Seq<char>, JsonValue)>,
    key: Seq<char>,
    j: int,
) -> bool {
    &&& 0 <= j < members.len()
    &&& members[j].0 == key
    &&& forall|k: int| 0 <= k < j ==> (#[trigger] members[k]).0 != key
}

/// Tells whether the first of `members` with the key of `member` has a
/// value that is the same document as the value of `member`.
pub open spec fn same_member(
    members: Seq<(Seq<char>, JsonValue)>,
    member: (Seq<char>, JsonValue),
) -> bool
    decreases member,
{
    exists|j: int|
        #![trigger is_first_member(members, member.0, j)]
        is_first_member(members, member.0, j) && same_document(member.1, members[j].1)
}

/// Tells whether two documents are the same where objects are compared as
/// maps: arrays item by item in order, objects member by member whatever
/// the order of the members, everything else by value. Of two members
/// with one key the first counts; valid documents have no such members.
pub open spec fn same_document(a: JsonValue, b: JsonValue) -> bool
    decreases a,
{
    match a {
        JsonValue::Array(x) => b is Array && x.len() == b->Array_0.len() && forall|i: int|
            0 <= i < x.len() ==> same_document(#[trigger] x[i], b->Array_0[i]),
        JsonValue::Object(x) => b is Object && x.len() == b->Object_0.len() && forall|i: int|
            0 <= i < x.len() ==> same_member(b->Object_0, #[trigger] x[i]),
        _ => a == b,
    }
}

/// A valid document is the same as itself.
pub proof fn lemma_same_document_reflexive(a: JsonValue)
    requires
        valid_document(a),
    ensures
        same_document(a, a),
    decreases a,
{
    if a is Array {
        let x = a->Array_0;
        assert forall|i: int| 0 <= i < x.len() implies same_document(#[trigger] x[i], x[i]) by {
            assert(valid_document(x[i]));
            lemma_same_document_reflexive(x[i]);
        }
        assert(same_document(a, a));
    } else if a is Object {
        let x = a->Object_0;
        assert forall|i: int| 0 <= i < x.len() implies same_member(x, #[trigger] x[i]) by {
            assert(valid_document(x[i].1));
            lemma_same_document_reflexive(x[i].1);
            assert forall|k: int| 0 <= k < i implies (#[trigger] x[k]).0 != x[i].0 by {}
            assert(is_first_member(x, x[i].0, i) && same_document(x[i].1, x[i].1));
        }
        assert(same_document(a, a));
    }
}

/// Tells whether two lists of documents are the same, item by item.
fn items_same(a: &Vec<Json>, b: &Vec<Json>) -> (same: bool)
    ensures
        same == same_document(
            JsonValue::Array(items_view(a@)),
            JsonValue::Array(items_view(b@)),
        ),
    decreases a, 0nat,
{
    let ghost x = items_view(a@);
    let ghost y = items_view(b@);
    if a.len() != b.len() {
        return false;
    }
    let mut i: usize = 0;
    while i < a.len()
        invariant
            i <= a.len(),
            a.len() == b.len(),
            x == items_view(a@),
            y == items_view(b@),
            forall|k: int| 0 <= k < i ==> same_document(#[trigger] x[k], y[k]),
        decreases a.len() - i,
    {
        proof {
            vstd::std_specs::vec::axiom_vec_index_decreases(*a, i as int);
        }
        assert(x[i as int] == a[i as int]@);
        assert(y[i as int] == b[i as int]@);
        if !a[i].same_as(&b[i]) {
            assert(!same_document(JsonValue::Array(x), JsonValue::Array(y))) by {
                if same_document(JsonValue::Array(x), JsonValue::Array(y)) {
                    assert(same_document(x[i as int], y[i as int]));
                }
            }
            return false;
        }
        i = i + 1;
    }
    true
}

/// Tells whether two lists of members are the same as maps.
fn members_same(a: &Vec<(String, Json)>, b: &Vec<(String, Json)>) -> (same: bool)
    ensures
        same == same_document(
            JsonValue::Object(members_view(a@)),
            JsonValue::Object(members_view(b@)),
        ),
    decreases a, 0nat,
{
    let ghost x = members_view(a@);
    let ghost y = members_view(b@);
    if a.len() != b.len() {
        return false;
    }
    let mut i: usize = 0;
    while i < a.len()
        invariant
            i <= a.len(),
            a.len() == b.len(),
            x == members_view(a@),
            y == members_view(b@),
            forall|k: int| 0 <= k < i ==> same_member(y, #[trigger] x[k]),
        decreases a.len() - i,
    {
        proof {
            vstd::std_specs::vec::axiom_vec_index_decreases(*a, i as int);
        }
        assert(x[i as int] == (a[i as int].0@, a[i as int].1@));
        let j = match find_member(b, a[i].0.as_str()) {
            Some(j) => j,
            None => {
                assert(!same_document(JsonValue::Object(x), JsonValue::Object(y))) by {
                    if same_document(JsonValue::Object(x), JsonValue::Object(y)) {
                        assert(same_member(y, x[i as int]));
                        let other = choose|other: int|
                            #![trigger is_first_member(y, x[i as int].0, other)]
                            is_first_member(y, x[i as int].0, other) && same_document(
                                x[i as int].1,
                                y[other].1,
                            );
                        assert(y[other].0 == x[i as int].0);
                    }
                }
                return false;
            },
        };
        assert(y[j as int] == (b[j as int].0@, b[j as int].1@));
        assert forall|k: int| 0 <= k < j implies (#[trigger] y[k]).0 != x[i as int].0 by {
            assert(y[k].0 == b[k].0@);
        }
        assert(is_first_member(y, x[i as int].0, j as int));
        if !a[i].1.same_as(&b[j].1) {
            assert(!same_document(JsonValue::Object(x), JsonValue::Object(y))) by {
                if same_document(JsonValue::Object(x), JsonValue::Object(y)) {
                    assert(same_member(y, x[i as int]));
                    let other = choose|other: int|
                        #![trigger is_first_member(y, x[i as int].0, other)]
                        is_first_member(y, x[i as int].0, other) && same_document(
                            x[i as int].1,
                            y[other].1,
                        );
                    if other < j {
                        assert(y[other].0 != x[i as int].0);
                    } else if j < other {
                        assert(y[j as int].0 != x[i as int].0);
                    }
                }
            }
            return false;
        }
        assert(is_first_member(y, x[i as int].0, j as int) && same_document(
            x[i as int].1,
            y[j as int].1,
        ));
        assert(same_member(y, x[i as int]));
        i = i + 1;
    }
    assert(same_document(JsonValue::Object(x), JsonValue::Object(y)));
    true
}

impl Json {
    /// Tells whether two documents are the same where objects are
    /// compared as maps, whatever the order of their members.
    pub fn same_as(&self, other: &Json) -> (same: bool)
        ensures
            same == same_document(self@, other@),
        decreases self, 1nat,
    {
        match (self, other) {
            (Json::Null, Json::Null) => true,
            (Json::Bool(x), Json::Bool(y)) => *x == *y,
            (Json::Number(x), Json::Number(y)) => str_eq(x.as_str(), y.as_str()),
            (Json::Str(x), Json::Str(y)) => str_eq(x.as_str(), y.as_str()),
            (Json::Array(x), Json::Array(y)) => items_same(x, y),
            (Json::Object(x), Json::Object(y)) => members_same(x, y),
            _ => false,
        }
    }
}

/// `serde_json::Value`, the document type of the parser and the printer.
#[verifier::external_type_specification]
#[verifier::external_body]
pub struct ExValue(serde_json::Value);

/// What a `serde_json::Value` holds: its variant, with a number as the
/// text that `Number`'s `Display` writes for it, and an object as the
/// entries of its map in iteration order.
pub uninterp spec fn value_view(value: serde_json::Value) -> JsonValue;

/// What `serde_json::from_str` reads from a text as a `Value`, or nothing
/// where it rejects the text.
pub uninterp spec fn json_parse(text: Seq<char>) -> Option<JsonValue>;

/// The text that `serde_json::to_string` writes for a `Value` that holds
/// the given document.
pub uninterp spec fn json_text(value: JsonValue) -> Seq<char>;

/// What the `Value::Number` holds that is made from a number literal: the
/// number that `serde_json::from_str` reads from the literal as a
/// `Number`, or nothing where it rejects the literal.
pub uninterp spec fn number_value(literal: Seq<char>) -> Option<JsonValue>;

/// What the `Value` holds that is made from a list of members: the object
/// of the `serde_json::Map` that the members are collected into.
pub uninterp spec fn object_value(members: Seq<(Seq<char>, JsonValue)>) -> JsonValue;

/// The top level of a `serde_json::Value`, taken apart: what it holds at
/// that level, and its children as they are.
enum ValueParts {
    Null,
    Bool(bool),
    Number(String),
    Str(String),
    Array(Vec<serde_json::Value>),
    Object(Vec<(String, serde_json::Value)>),
}

/// What a list of `Value`s holds.
pub open spec fn values_view(values: Seq<serde_json::Value>) -> Seq<JsonValue> {
    Seq::new(values.len(), |i: int| value_view(values[i]))
}

/// What a list of keys and `Value`s holds.
pub open spec fn entries_view(entries: Seq<(String, serde_json::Value)>) -> Seq<
    (Seq<char>, JsonValue),
> {
    Seq::new(entries.len(), |i: int| (entries[i].0@, value_view(entries[i].1)))
}

/// What the parts of a `Value` hold together.
spec fn parts_view(parts: ValueParts) -> JsonValue {
    match parts {
        ValueParts::Null => JsonValue::Null,
        ValueParts::Bool(b) => JsonValue::Bool(b),
        ValueParts::Number(text) => JsonValue::Number(text@),
        ValueParts::Str(text) => JsonValue::Str(text@),
        ValueParts::Array(items) => JsonValue::Array(values_view(items@)),
        ValueParts::Object(entries) => JsonValue::Object(entries_view(entries@)),
    }
}

/// Calls `serde_json::from_str` for a `Value`. The result is `Some`
/// exactly where the parser accepts the text, and what the value holds is
/// then the document named by [`json_parse`].
#[verifier::external_body]
fn parse_value(text: &str) -> (parsed: Option<serde_json::Value>)
    ensures
        parsed is Some == json_parse(text@) is Some,
        parsed matches Some(value) ==> json_parse(text@) == Some(value_view(value)),
{
    serde_json::from_str::<serde_json::Value>(text).ok()
}

/// Calls `serde_json::to_string` on a `Value`. The text is the one named by
/// [`json_text`] for what the value holds. Printing a `Value` into a
/// string has no failing case; the error arm yields the empty string.
#[verifier::external_body]
fn print_value(value: &serde_json::Value) -> (text: String)
    ensures
        text@ == json_text(value_view(*value)),
{
    serde_json::to_string(value).unwrap_or_default()
}

/// Takes the top level of a `serde_json::Value` apart, variant by variant:
/// a number as `Number`'s `Display` writes it, the items of an array as
/// they are, the entries of a map in iteration order. What the value holds
/// is what its parts hold.
#[verifier::external_body]
fn split_value(value: serde_json::Value) -> (parts: ValueParts)
    ensures
        parts_view(parts) == value_view(value),
{
    match value {
        serde_json::Value::Null => ValueParts::Null,
        serde_json::Value::Bool(b) => ValueParts::Bool(b),
        serde_json::Value::Number(n) => ValueParts::Number(n.to_string()),
        serde_json::Value::String(s) => ValueParts::Str(s),
        serde_json::Value::Array(a) => ValueParts::Array(a),
        serde_json::Value::Object(m) => ValueParts::Object(m.into_iter().collect()),
    }
}

/// Makes `serde_json::Value::Null`.
#[verifier::external_body]
fn value_null() -> (value: serde_json::Value)
    ensures
        value_view(value) == JsonValue::Null,
{
    serde_json::Value::Null
}

/// Makes a `serde_json::Value::Bool`.
#[verifier::external_body]
fn value_bool(b: bool) -> (value: serde_json::Value)
    ensures
        value_view(value) == JsonValue::Bool(b),
{
    serde_json::Value::Bool(b)
}

/// Makes a `serde_json::Value::String`.
#[verifier::external_body]
fn value_string(text: String) -> (value: serde_json::Value)
    ensures
        value_view(value) == JsonValue::Str(text@),
{
    serde_json::Value::String(text)
}

/// Makes a `serde_json::Value::Array` of the given items.
#[verifier::external_body]
fn value_array(items: Vec<serde_json::Value>) -> (value: serde_json::Value)
    ensures
        value_view(value) == JsonValue::Array(values_view(items@)),
{
    serde_json::Value::Array(items)
}

/// Calls `serde_json::from_str` for a `Number` on a number literal, and
/// makes the `Value::Number` of what it reads. The result is `Some`
/// exactly where the parser accepts the literal, and what the value holds
/// is then named by [`number_value`].
#[verifier::external_body]
fn value_number(literal: &str) -> (value: Option<serde_json::Value>)
    ensures
        value is Some == number_value(literal@) is Some,
        value matches Some(v) ==> number_value(literal@) == Some(value_view(v)),
{
    serde_json::from_str::<serde_json::Number>(literal).ok().map(serde_json::Value::Number)
}

/// Collects the given members into a `serde_json::Map` and makes the
/// `Value::Object` of it. What the value holds is named by
/// [`object_value`]: the map decides the order of the members, and which
/// of two members with one key stays.
#[verifier::external_body]
fn value_object(members: Vec<(String, serde_json::Value)>) -> (value: serde_json::Value)
    ensures
        value_view(value) == object_value(entries_view(members@)),
{
    serde_json::Value::Object(members.into_iter().collect())
}

/// The items of an array as the printer holds them.
pub open spec fn printed_items(items: Seq<JsonValue>) -> Seq<JsonValue>
    decreases items,
{
    Seq::new(
        items.len(),
        |i: int|
            if 0 <= i < items.len() {
                printed_value(items[i])
            } else {
                JsonValue::Null
            },
    )
}

/// The members of an object with their values as the printer holds them.
pub open spec fn printed_members(members: Seq<(Seq<char>, JsonValue)>) -> Seq<
    (Seq<char>, JsonValue),
>
    decreases members,
{
    Seq::new(
        members.len(),
        |i: int|
            if 0 <= i < members.len() {
                (members[i].0, printed_value(members[i].1))
            } else {
                (Seq::empty(), JsonValue::Null)
            },
    )
}

/// The document as the printer holds it: each number literal read back
/// as a number, and `null` in the place of a literal that is no number;
/// each list of members collected into a map.
pub open spec fn printed_value(value: JsonValue) -> JsonValue
    decreases value,
{
    match value {
        JsonValue::Null => JsonValue::Null,
        JsonValue::Bool(b) => JsonValue::Bool(b),
        JsonValue::Number(literal) => match number_value(literal) {
            Some(number) => number,
            None => JsonValue::Null,
        },
        JsonValue::Str(text) => JsonValue::Str(text),
        JsonValue::Array(items) => JsonValue::Array(printed_items(items)),
        JsonValue::Object(members) => object_value(printed_members(members)),
    }
}

/// Turns a list around.
fn reversed<T>(list: Vec<T>) -> (turned: Vec<T>)
    ensures
        turned@ == list@.reverse(),
{
    let mut list = list;
    let ghost whole = list@;
    let mut turned: Vec<T> = Vec::new();
    while list.len() > 0
        invariant
            list.len() <= whole.len(),
            list@ == whole.subrange(0, list.len() as int),
            turned.len() == whole.len() - list.len(),
            forall|k: int| 0 <= k < turned.len() ==> turned[k] == whole[whole.len() - 1 - k],
        decreases list.len(),
    {
        match list.pop() {
            Some(last) => {
                turned.push(last);
            },
            None => {},
        }
    }
    assert(turned@ =~= whole.reverse());
    turned
}

/// Reads a `serde_json::Value` into a document, level by level.
fn json_of_value(value: serde_json::Value) -> (json: Json)
    ensures
        json@ == value_view(value),
    decreases value_view(value),
{
    let ghost whole = value_view(value);
    match split_value(value) {
        ValueParts::Null => Json::Null,
        ValueParts::Bool(b) => Json::Bool(b),
        ValueParts::Number(text) => Json::Number(text),
        ValueParts::Str(text) => Json::Str(text),
        ValueParts::Array(items) => {
            let mut items = items;
            let ghost all = items@;
            let mut read: Vec<Json> = Vec::new();
            while items.len() > 0
                invariant
                    items.len() <= all.len(),
                    items@ == all.subrange(0, items.len() as int),
                    read.len() == all.len() - items.len(),
                    forall|k: int|
                        0 <= k < read.len() ==> read[k]@ == value_view(all[all.len() - 1 - k]),
                    whole == JsonValue::Array(values_view(all)),
                    whole == value_view(value),
                decreases items.len(),
            {
                match items.pop() {
                    Some(item) => {
                        proof {
                            let at = items.len() as int;
                            assert(item == all[at]);
                            assert(whole->Array_0[at] == value_view(item));
                            vstd::seq::axiom_seq_index_decreases(whole->Array_0, at);
                        }
                        read.push(json_of_value(item));
                    },
                    None => {},
                }
            }
            let read = reversed(read);
            assert(items_view(read@) =~= values_view(all));
            Json::Array(read)
        },
        ValueParts::Object(entries) => {
            let mut entries = entries;
            let ghost all = entries@;
            let mut read: Vec<(String, Json)> = Vec::new();
            while entries.len() > 0
                invariant
                    entries.len() <= all.len(),
                    entries@ == all.subrange(0, entries.len() as int),
                    read.len() == all.len() - entries.len(),
                    forall|k: int|
                        0 <= k < read.len() ==> read[k].0@ == all[all.len() - 1 - k].0@
                            && read[k].1@ == value_view(all[all.len() - 1 - k].1),
                    whole == JsonValue::Object(entries_view(all)),
                    whole == value_view(value),
                decreases entries.len(),
            {
                match entries.pop() {
                    Some((key, item)) => {
                        proof {
                            let at = entries.len() as int;
                            assert((key, item) == all[at]);
                            assert(whole->Object_0[at].1 == value_view(item));
                            vstd::seq::axiom_seq_index_decreases(whole->Object_0, at);
                        }
                        read.push((key, json_of_value(item)));
                    },
                    None => {},
                }
            }
            let read = reversed(read);
            assert(members_view(read@) =~= entries_view(all));
            Json::Object(read)
        },
    }
}

/// Builds the `serde_json::Value` of a document, level by level.
fn value_of_json(json: &Json) -> (value: serde_json::Value)
    ensures
        value_view(value) == printed_value(json@),
    decreases json,
{
    match json {
        Json::Null => value_null(),
        Json::Bool(b) => value_bool(*b),
        Json::Number(literal) => match value_number(literal.as_str()) {
            Some(number) => number,
            None => value_null(),
        },
        Json::Str(text) => value_string(text.clone()),
        Json::Array(items) => {
            let mut built: Vec<serde_json::Value> = Vec::new();
            let mut i: usize = 0;
            while i < items.len()
                invariant
                    i <= items.len(),
                    built.len() == i,
                    forall|k: int| 0 <= k < i ==> value_view(built[k]) == printed_value(items[k]@),
                    *json == Json::Array(*items),
                decreases items.len() - i,
            {
                proof {
                    vstd::std_specs::vec::axiom_vec_index_decreases(*items, i as int);
                    assert(json->Array_0 == *items);
                }
                built.push(value_of_json(&items[i]));
                i = i + 1;
            }
            assert(values_view(built@) =~= printed_items(items_view(items@)));
            let value = value_array(built);
            assert(value_view(value) == printed_value(json@));
            value
        },
        Json::Object(members) => {
            let mut built: Vec<(String, serde_json::Value)> = Vec::new();
            let mut i: usize = 0;
            while i < members.len()
                invariant
                    i <= members.len(),
                    built.len() == i,
                    forall|k: int|
                        0 <= k < i ==> built[k].0@ == members[k].0@ && value_view(built[k].1)
                            == printed_value(members[k].1@),
                    *json == Json::Object(*members),
                decreases members.len() - i,
            {
                proof {
                    vstd::std_specs::vec::axiom_vec_index_decreases(*members, i as int);
                    assert(json->Object_0 == *members);
                }
                built.push((members[i].0.clone(), value_of_json(&members[i].1)));
                i = i + 1;
            }
            assert(entries_view(built@) =~= printed_members(members_view(members@)));
            let value = value_object(built);
            assert(value_view(value) == printed_value(json@));
            value
        },
    }
}

impl Json {
    /// Reads a JSON text. The result is what the parser reads, and `None`
    /// exactly where it rejects the text.
    pub fn parse(text: &str) -> (parsed: Option<Json>)
        ensures
            parsed is Some == json_parse(text@) is Some,
            parsed matches Some(json) ==> json_parse(text@) == Some(json@),
    {
        match parse_value(text) {
            Some(value) => Some(json_of_value(value)),
            None => None,
        }
    }

    /// Writes the document as JSON text: the printer's text for the
    /// document as the printer holds it.
    pub fn to_text(&self) -> (text: String)
        ensures
            text@ == json_text(printed_value(self@)),
    {
        let value = value_of_json(self);
        print_value(&value)
    }
}

} // verus!
