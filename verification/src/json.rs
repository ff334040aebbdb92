//! JSON documents as a tagged union, and the RFC 7386 merge patch on them.

use crate::text::same_text;
use serde_json::Value;
use vstd::prelude::*;

verus! {

#[verifier::external_type_specification]
#[verifier::external_body]
pub struct ExValue(Value);

/// The document that a text holds, `None` where the text is no JSON.
pub uninterp spec fn json_of_text(text: Seq<char>) -> Option<JsonValue>;

/// The document that a run of bytes holds, `None` where the bytes are no
/// JSON.
pub uninterp spec fn json_of_bytes(bytes: Seq<u8>) -> Option<JsonValue>;

/// The mathematical model of a JSON document. A number is held by its
/// literal text. An object is the list of its members in document order; a
/// key stands for the first member that carries it, later members with the
/// same key are shadowed.
pub enum JsonValue {
    Null,
    Bool(bool),
    Number(Seq<char>),
    Text(Seq<char>),
    Array(Seq<JsonValue>),
    Object(Seq<(Seq<char>, JsonValue)>),
}

/// The index of the first member that carries `key`, or the number of
/// members where none does.
pub open spec fn position(members: Seq<(Seq<char>, JsonValue)>, key: Seq<char>) -> int
    decreases members.len(),
{
    if members.len() == 0 {
        0
    } else if members[0].0 == key {
        0
    } else {
        1 + position(members.drop_first(), key)
    }
}

/// The value that `key` stands for among the members.
pub open spec fn lookup(members: Seq<(Seq<char>, JsonValue)>, key: Seq<char>) -> Option<
    JsonValue,
> {
    let at = position(members, key);
    if at < members.len() {
        Some(members[at].1)
    } else {
        None
    }
}

/// The members with `key` set to `value`: in place where the key is there,
/// at the end where it is not.
pub open spec fn with_member(
    members: Seq<(Seq<char>, JsonValue)>,
    key: Seq<char>,
    value: JsonValue,
) -> Seq<(Seq<char>, JsonValue)> {
    let at = position(members, key);
    if at < members.len() {
        members.update(at, (key, value))
    } else {
        members.push((key, value))
    }
}

/// The members that do not carry `key`, in their order.
pub open spec fn without_key(members: Seq<(Seq<char>, JsonValue)>, key: Seq<char>) -> Seq<
    (Seq<char>, JsonValue),
>
    decreases members.len(),
{
    if members.len() == 0 {
        members
    } else if members.last().0 == key {
        without_key(members.drop_last(), key)
    } else {
        without_key(members.drop_last(), key).push(members.last())
    }
}

/// The RFC 7386 merge of `patch` into `doc`. A patch that is no object
/// replaces the document. A patch that is an object is applied member by
/// member to the document, taken as the empty object where it is none: a
/// null member deletes its key, any other member is merged into the value the
/// document holds under that key.
pub open spec fn merge(doc: JsonValue, patch: JsonValue) -> JsonValue
    decreases patch, 0nat,
{
    match patch {
        JsonValue::Object(changes) => JsonValue::Object(
            merge_members(
                match doc {
                    JsonValue::Object(members) => members,
                    _ => Seq::empty(),
                },
                changes,
                0,
            ),
        ),
        _ => patch,
    }
}

/// The members after the changes from index `from` on were applied in turn.
pub open spec fn merge_members(
    members: Seq<(Seq<char>, JsonValue)>,
    changes: Seq<(Seq<char>, JsonValue)>,
    from: nat,
) -> Seq<(Seq<char>, JsonValue)>
    decreases changes, changes.len() - from,
{
    if from >= changes.len() {
        members
    } else {
        merge_members(merge_member(members, changes, from), changes, from + 1)
    }
}

/// The members after the change at index `at` was applied. A change that an
/// earlier one with the same key shadows is passed over.
pub open spec fn merge_member(
    members: Seq<(Seq<char>, JsonValue)>,
    changes: Seq<(Seq<char>, JsonValue)>,
    at: nat,
) -> Seq<(Seq<char>, JsonValue)>
    recommends
        at < changes.len(),
    decreases changes, 0nat,
{
    if at < changes.len() {
        let key = changes[at as int].0;
        let change = changes[at as int].1;
        if position(changes, key) != at {
            members
        } else if change is Null {
            without_key(members, key)
        } else {
            with_member(
                members,
                key,
                merge(
                    match lookup(members, key) {
                        Some(current) => current,
                        None => JsonValue::Null,
                    },
                    change,
                ),
            )
        }
    } else {
        members
    }
}

/// A JSON document.
#[derive(Debug)]
pub enum Json {
    Null,
    Bool(bool),
    Number(String),
    Text(String),
    Array(Vec<Json>),
    Object(Vec<(String, Json)>),
}

impl View for Json {
    type V = JsonValue;

    open spec fn view(&self) -> JsonValue {
        self.model()
    }
}

impl Json {
    /// The model of the document, by recursion over its parts.
    pub open spec fn model(&self) -> JsonValue
        decreases self,
    {
        match self {
            Json::Null => JsonValue::Null,
            Json::Bool(b) => JsonValue::Bool(*b),
            Json::Number(n) => JsonValue::Number(n@),
            Json::Text(t) => JsonValue::Text(t@),
            Json::Array(items) => JsonValue::Array(
                Seq::new(
                    items.len() as nat,
                    |i: int|
                        if 0 <= i < items.len() {
                            items[i].model()
                        } else {
                            JsonValue::Null
                        },
                ),
            ),
            Json::Object(members) => JsonValue::Object(
                Seq::new(
                    members.len() as nat,
                    |i: int|
                        if 0 <= i < members.len() {
                            (members[i].0@, members[i].1.model())
                        } else {
                            (Seq::empty(), JsonValue::Null)
                        },
                ),
            ),
        }
    }
}

/// The model of a list of documents.
pub open spec fn items_view(items: Seq<Json>) -> Seq<JsonValue> {
    Seq::new(items.len(), |i: int| items[i]@)
}

/// The model of a list of members.
pub open spec fn members_view(members: Seq<(String, Json)>) -> Seq<(Seq<char>, JsonValue)> {
    Seq::new(members.len(), |i: int| (members[i].0@, members[i].1@))
}

/// What the first member with `key` is: no member before `at` carries the
/// key, and `at` is either past the end or carries it.
pub proof fn lemma_position(members: Seq<(Seq<char>, JsonValue)>, key: Seq<char>)
    ensures
        0 <= position(members, key) <= members.len(),
        position(members, key) < members.len() ==> members[position(members, key)].0 == key,
        forall|i: int| 0 <= i < position(members, key) ==> (#[trigger] members[i]).0 != key,
    decreases members.len(),
{
    if members.len() > 0 && members[0].0 != key {
        let rest = members.drop_first();
        lemma_position(rest, key);
        assert forall|i: int| 0 <= i < position(members, key) implies (#[trigger] members[i]).0
            != key by {
            if i > 0 {
                assert(members[i] == rest[i - 1]);
            }
        }
    }
}

/// An index that carries the key and has no earlier one that does is the
/// position of the key.
pub proof fn lemma_position_is(members: Seq<(Seq<char>, JsonValue)>, key: Seq<char>, at: int)
    requires
        0 <= at <= members.len(),
        at < members.len() ==> members[at].0 == key,
        forall|i: int| 0 <= i < at ==> (#[trigger] members[i]).0 != key,
    ensures
        position(members, key) == at,
{
    lemma_position(members, key);
}

/// What a key stands for once a member was added at the end: what it stood
/// for before, or else the new member where that carries the key.
pub proof fn lemma_lookup_push(
    members: Seq<(Seq<char>, JsonValue)>,
    added: (Seq<char>, JsonValue),
    key: Seq<char>,
)
    ensures
        lookup(members.push(added), key) == if lookup(members, key) is Some {
            lookup(members, key)
        } else if added.0 == key {
            Some(added.1)
        } else {
            None
        },
{
    lemma_position(members, key);
    let at = position(members, key);
    let longer = members.push(added);
    if at < members.len() {
        lemma_position_is(longer, key, at);
    } else if added.0 == key {
        lemma_position_is(longer, key, members.len() as int);
    } else {
        lemma_position_is(longer, key, longer.len() as int);
    }
}

/// Setting a member changes what its key stands for, and nothing else.
pub proof fn lemma_lookup_with_member(
    members: Seq<(Seq<char>, JsonValue)>,
    key: Seq<char>,
    value: JsonValue,
    other: Seq<char>,
)
    ensures
        lookup(with_member(members, key, value), other) == if other == key {
            Some(value)
        } else {
            lookup(members, other)
        },
{
    lemma_position(members, key);
    let at = position(members, key);
    if at < members.len() {
        lemma_position(members, other);
        lemma_position_is(members.update(at, (key, value)), other, position(members, other));
    } else {
        lemma_lookup_push(members, (key, value), other);
    }
}

/// Removing a key leaves it standing for nothing, and changes nothing else.
pub proof fn lemma_lookup_without_key(
    members: Seq<(Seq<char>, JsonValue)>,
    key: Seq<char>,
    other: Seq<char>,
)
    ensures
        lookup(without_key(members, key), other) == if other == key {
            None
        } else {
            lookup(members, other)
        },
    decreases members.len(),
{
    if members.len() == 0 {
    } else {
        let front = members.drop_last();
        let last = members.last();
        lemma_lookup_without_key(front, key, other);
        assert(members =~= front.push(last));
        lemma_lookup_push(front, last, other);
        if last.0 != key {
            lemma_lookup_push(without_key(front, key), last, other);
        }
    }
}

/// What a key stands for after a merge, given what it stood for in the
/// document and in the patch: a key that the patch does not name keeps its
/// value, a key that the patch sets to `null` is gone, and any other key
/// holds the merge of the patch's value into its own.
pub open spec fn merged_member(current: Option<JsonValue>, change: Option<JsonValue>) -> Option<
    JsonValue,
> {
    match change {
        None => current,
        Some(JsonValue::Null) => None,
        Some(change) => Some(
            merge(
                match current {
                    Some(current) => current,
                    None => JsonValue::Null,
                },
                change,
            ),
        ),
    }
}

/// The changes from `from` on bring every key to what the merge gives it,
/// where the changes before `from` have done so for the keys they name.
proof fn lemma_merge_from(
    start: Seq<(Seq<char>, JsonValue)>,
    members: Seq<(Seq<char>, JsonValue)>,
    changes: Seq<(Seq<char>, JsonValue)>,
    from: nat,
    key: Seq<char>,
)
    requires
        from <= changes.len(),
        lookup(members, key) == if position(changes, key) < from {
            merged_member(lookup(start, key), lookup(changes, key))
        } else {
            lookup(start, key)
        },
    ensures
        lookup(merge_members(members, changes, from), key) == merged_member(
            lookup(start, key),
            lookup(changes, key),
        ),
    decreases changes.len() - from,
{
    lemma_position(changes, key);
    if from < changes.len() {
        let named = changes[from as int].0;
        let change = changes[from as int].1;
        let next = merge_member(members, changes, from);
        if position(changes, named) == from {
            if change is Null {
                lemma_lookup_without_key(members, named, key);
            } else {
                let current = match lookup(members, named) {
                    Some(current) => current,
                    None => JsonValue::Null,
                };
                lemma_lookup_with_member(members, named, merge(current, change), key);
            }
        }
        lemma_merge_from(start, next, changes, from + 1, key);
    }
}

/// The merge of an object patch, key by key.
pub proof fn lemma_merge_lookup(
    members: Seq<(Seq<char>, JsonValue)>,
    changes: Seq<(Seq<char>, JsonValue)>,
    key: Seq<char>,
)
    ensures
        lookup(merge_members(members, changes, 0), key) == merged_member(
            lookup(members, key),
            lookup(changes, key),
        ),
{
    lemma_position(changes, key);
    lemma_merge_from(members, members, changes, 0, key);
}

/// The index of the first member of `members` that carries `key`, or the
/// number of members where none does.
pub fn find_member(members: &Vec<(String, Json)>, key: &str) -> (at: usize)
    ensures
        at == position(members_view(members@), key@),
        at <= members.len(),
{
    let mut i: usize = 0;
    while i < members.len()
        invariant
            i <= members.len(),
            forall|j: int| 0 <= j < i ==> (#[trigger] members_view(members@)[j]).0 != key@,
        decreases members.len() - i,
    {
        if same_text(members[i].0.as_str(), key) {
            proof {
                lemma_position_is(members_view(members@), key@, i as int);
            }
            return i;
        }
        i += 1;
    }
    proof {
        lemma_position_is(members_view(members@), key@, i as int);
    }
    i
}

impl Json {
    /// The members of an object, the empty list for every other document.
    pub open spec fn spec_members(self) -> Seq<(Seq<char>, JsonValue)> {
        match self@ {
            JsonValue::Object(members) => members,
            _ => Seq::empty(),
        }
    }

    /// The model of an array built from `items`.
    pub proof fn lemma_array_view(items: Vec<Json>)
        ensures
            Json::Array(items)@ == JsonValue::Array(items_view(items@)),
    {
        assert(Json::Array(items)@->Array_0 =~= items_view(items@));
    }

    /// The model of an object built from `members`.
    pub proof fn lemma_object_view(members: Vec<(String, Json)>)
        ensures
            Json::Object(members)@ == JsonValue::Object(members_view(members@)),
    {
        assert(Json::Object(members)@->Object_0 =~= members_view(members@));
    }

    /// A copy of the document.
    pub fn duplicate(&self) -> (copy: Json)
        ensures
            copy@ == self@,
        decreases self,
    {
        match self {
            Json::Null => Json::Null,
            Json::Bool(b) => Json::Bool(*b),
            Json::Number(n) => Json::Number(n.clone()),
            Json::Text(t) => Json::Text(t.clone()),
            Json::Array(items) => {
                let copies = duplicate_items(items);
                proof {
                    Json::lemma_array_view(*items);
                    Json::lemma_array_view(copies);
                }
                Json::Array(copies)
            },
            Json::Object(members) => {
                let copies = duplicate_members(members);
                proof {
                    Json::lemma_object_view(*members);
                    Json::lemma_object_view(copies);
                }
                Json::Object(copies)
            },
        }
    }

    /// Whether the document is `null`.
    pub fn is_null(&self) -> (null: bool)
        ensures
            null == (self@ is Null),
    {
        match self {
            Json::Null => true,
            _ => false,
        }
    }

    /// The value that an object holds under `key`. A document that is no
    /// object holds nothing.
    pub fn get(&self, key: &str) -> (found: Option<&Json>)
        ensures
            found.is_some() == lookup(self.spec_members(), key@).is_some(),
            found matches Some(value) ==> lookup(self.spec_members(), key@) == Some(value@),
    {
        match self {
            Json::Object(members) => {
                proof {
                    Json::lemma_object_view(*members);
                }
                let at = find_member(members, key);
                if at < members.len() {
                    Some(&members[at].1)
                } else {
                    None
                }
            },
            _ => None,
        }
    }
}

/// A copy of the documents.
pub fn duplicate_items(items: &Vec<Json>) -> (copies: Vec<Json>)
    ensures
        items_view(copies@) == items_view(items@),
    decreases items,
{
    let mut copies: Vec<Json> = Vec::new();
    let mut i: usize = 0;
    while i < items.len()
        invariant
            i <= items.len(),
            copies.len() == i,
            forall|j: int| 0 <= j < i ==> (#[trigger] copies[j])@ == items[j]@,
        decreases items.len() - i,
    {
        copies.push(items[i].duplicate());
        i += 1;
    }
    copies
}

/// A copy of the members.
pub fn duplicate_members(members: &Vec<(String, Json)>) -> (copies: Vec<(String, Json)>)
    ensures
        members_view(copies@) == members_view(members@),
    decreases members,
{
    let mut copies: Vec<(String, Json)> = Vec::new();
    let mut i: usize = 0;
    while i < members.len()
        invariant
            i <= members.len(),
            copies.len() == i,
            forall|j: int|
                0 <= j < i ==> (#[trigger] copies[j]).0@ == members[j].0@ && copies[j].1@
                    == members[j].1@,
        decreases members.len() - i,
    {
        copies.push((members[i].0.clone(), members[i].1.duplicate()));
        i += 1;
    }
    copies
}

/// The members with `key` set to `value`.
pub fn put_member(members: Vec<(String, Json)>, key: String, value: Json) -> (updated: Vec<
    (String, Json),
>)
    ensures
        members_view(updated@) == with_member(members_view(members@), key@, value@),
{
    let mut updated = members;
    let at = find_member(&updated, key.as_str());
    if at < updated.len() {
        updated.set(at, (key, value));
    } else {
        updated.push((key, value));
    }
    updated
}

/// The members that do not carry `key`.
pub fn drop_key(members: &Vec<(String, Json)>, key: &str) -> (kept: Vec<(String, Json)>)
    ensures
        members_view(kept@) == without_key(members_view(members@), key@),
{
    let mut kept: Vec<(String, Json)> = Vec::new();
    let mut i: usize = 0;
    while i < members.len()
        invariant
            i <= members.len(),
            members_view(kept@) == without_key(members_view(members@).take(i as int), key@),
        decreases members.len() - i,
    {
        let ghost seen = members_view(members@).take(i as int);
        let ghost next = members_view(members@).take(i + 1);
        assert(next.drop_last() =~= seen);
        if !same_text(members[i].0.as_str(), key) {
            kept.push((members[i].0.clone(), members[i].1.duplicate()));
        }
        i += 1;
    }
    assert(members_view(members@).take(i as int) =~= members_view(members@));
    kept
}

/// The RFC 7386 merge of `patch` into `doc`.
pub fn merge_patch(doc: &Json, patch: &Json) -> (merged: Json)
    ensures
        merged@ == merge(doc@, patch@),
    decreases patch,
{
    match patch {
        Json::Object(changes) => {
            let members = match doc {
                Json::Object(members) => {
                    proof {
                        Json::lemma_object_view(*members);
                    }
                    duplicate_members(members)
                },
                _ => {
                    let none: Vec<(String, Json)> = Vec::new();
                    assert(members_view(none@) =~= Seq::empty());
                    none
                },
            };
            let merged = merge_changes(members, changes);
            proof {
                Json::lemma_object_view(*changes);
                Json::lemma_object_view(merged);
            }
            Json::Object(merged)
        },
        _ => patch.duplicate(),
    }
}

/// The members after every change of an object patch was applied in turn.
pub fn merge_changes(members: Vec<(String, Json)>, changes: &Vec<(String, Json)>) -> (merged:
    Vec<(String, Json)>)
    ensures
        members_view(merged@) == merge_members(
            members_view(members@),
            members_view(changes@),
            0,
        ),
    decreases changes,
{
    let ghost start = members_view(members@);
    let ghost patch = members_view(changes@);
    let mut merged = members;
    let mut at: usize = 0;
    while at < changes.len()
        invariant
            at <= changes.len(),
            patch == members_view(changes@),
            merge_members(start, patch, 0) == merge_members(
                members_view(merged@),
                patch,
                at as nat,
            ),
        decreases changes.len() - at,
    {
        let key = changes[at].0.as_str();
        let change = &changes[at].1;
        let ghost before = members_view(merged@);
        assert(merge_members(before, patch, at as nat) == merge_members(
            merge_member(before, patch, at as nat),
            patch,
            (at + 1) as nat,
        ));
        if find_member(changes, key) == at {
            if change.is_null() {
                merged = drop_key(&merged, key);
            } else {
                let here = find_member(&merged, key);
                let value = if here < merged.len() {
                    merge_patch(&merged[here].1, change)
                } else {
                    merge_patch(&Json::Null, change)
                };
                merged = put_member(merged, changes[at].0.clone(), value);
            }
        }
        at += 1;
    }
    merged
}

/// Carries a `serde_json::Value` over into a [`Json`], variant by variant. A
/// number is carried over by the text that `serde_json` prints for it.
#[verifier::external_body]
fn json_from_value(value: &Value) -> Json {
    match value {
        Value::Null => Json::Null,
        Value::Bool(b) => Json::Bool(*b),
        Value::Number(n) => Json::Number(n.to_string()),
        Value::String(s) => Json::Text(s.clone()),
        Value::Array(items) => Json::Array(items.iter().map(json_from_value).collect()),
        Value::Object(members) => Json::Object(
            members.iter().map(|(k, v)| (k.clone(), json_from_value(v))).collect(),
        ),
    }
}

/// `serde_json::from_str` for a `serde_json::Value`: the document that the
/// text holds, where it parses.
#[verifier::external_body]
fn parse_text(text: &str) -> (doc: Option<Json>)
    ensures
        doc.is_some() == json_of_text(text@).is_some(),
        doc matches Some(d) ==> json_of_text(text@) == Some(d@),
{
    match serde_json::from_str::<Value>(text) {
        Ok(value) => Some(json_from_value(&value)),
        Err(_) => None,
    }
}

/// `serde_json::from_slice` for a `serde_json::Value`: the document that the
/// bytes hold, where they parse.
#[verifier::external_body]
fn parse_bytes(bytes: &[u8]) -> (doc: Option<Json>)
    ensures
        doc.is_some() == json_of_bytes(bytes@).is_some(),
        doc matches Some(d) ==> json_of_bytes(bytes@) == Some(d@),
{
    match serde_json::from_slice::<Value>(bytes) {
        Ok(value) => Some(json_from_value(&value)),
        Err(_) => None,
    }
}

impl Json {
    /// Reads a document from text.
    pub fn parse(text: &str) -> (doc: Option<Json>)
        ensures
            doc.is_some() == json_of_text(text@).is_some(),
            doc matches Some(d) ==> json_of_text(text@) == Some(d@),
    {
        parse_text(text)
    }

    /// Reads a document from bytes.
    pub fn parse_slice(bytes: &[u8]) -> (doc: Option<Json>)
        ensures
            doc.is_some() == json_of_bytes(bytes@).is_some(),
            doc matches Some(d) ==> json_of_bytes(bytes@) == Some(d@),
    {
        parse_bytes(bytes)
    }
}

} // verus!
