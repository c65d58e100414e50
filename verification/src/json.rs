//! A JSON document as the library reads and writes it.
use vstd::prelude::*;

verus! {

/// A JSON number: a non-negative integer, a negative integer, or any other
/// number kept as its JSON text.
#[derive(Debug)]
pub enum JsonNumber {
    PosInt(u64),
    NegInt(i64),
    Float(String),
}

/// A JSON value. Objects keep their members in order; a key is read at its
/// first member.
#[derive(Debug)]
pub enum Json {
    Null,
    Bool(bool),
    Number(JsonNumber),
    Str(String),
    Array(Vec<Json>),
    Object(Vec<(String, Json)>),
}

/// The mathematical model of a JSON number.
pub enum NumberModel {
    PosInt(u64),
    NegInt(i64),
    Float(Seq<char>),
}

/// The mathematical model of a JSON value.
pub enum JsonModel {
    Null,
    Bool(bool),
    Number(NumberModel),
    Str(Seq<char>),
    Array(Seq<JsonModel>),
    Object(Seq<(Seq<char>, JsonModel)>),
}

pub open spec fn number_model(n: JsonNumber) -> NumberModel {
    match n {
        JsonNumber::PosInt(v) => NumberModel::PosInt(v),
        JsonNumber::NegInt(v) => NumberModel::NegInt(v),
        JsonNumber::Float(t) => NumberModel::Float(t@),
    }
}

pub open spec fn json_model(j: Json) -> JsonModel
    decreases j, 1int,
{
    match j {
        Json::Null => JsonModel::Null,
        Json::Bool(b) => JsonModel::Bool(b),
        Json::Number(n) => JsonModel::Number(number_model(n)),
        Json::Str(s) => JsonModel::Str(s@),
        Json::Array(items) => JsonModel::Array(items_model(items@)),
        Json::Object(members) => JsonModel::Object(members_model(members@)),
    }
}

pub open spec fn items_model(s: Seq<Json>) -> Seq<JsonModel>
    decreases s, 0int,
{
    if s.len() == 0 {
        Seq::empty()
    } else {
        items_model(s.drop_last()).push(json_model(s.last()))
    }
}

pub open spec fn members_model(s: Seq<(String, Json)>) -> Seq<(Seq<char>, JsonModel)>
    decreases s, 0int,
{
    if s.len() == 0 {
        Seq::empty()
    } else {
        members_model(s.drop_last()).push((s.last().0@, json_model(s.last().1)))
    }
}

pub open spec fn option_model(o: Option<&Json>) -> Option<JsonModel> {
    match o {
        Some(j) => Some(json_model(*j)),
        None => None,
    }
}

/// The value of the first member named `key` of an object model.
pub open spec fn member_of(members: Seq<(Seq<char>, JsonModel)>, key: Seq<char>) -> Option<JsonModel>
    decreases members.len(),
{
    if members.len() == 0 {
        None
    } else if members[0].0 == key {
        Some(members[0].1)
    } else {
        member_of(members.drop_first(), key)
    }
}

/// `value.get(key)` of serde_json: the member named `key` of an object,
/// `None` for anything else.
pub open spec fn get_member(value: JsonModel, key: Seq<char>) -> Option<JsonModel> {
    match value {
        JsonModel::Object(members) => member_of(members, key),
        _ => None,
    }
}

/// `value.as_u64()` of serde_json: a non-negative integer number.
pub open spec fn as_u64_model(value: JsonModel) -> Option<u64> {
    match value {
        JsonModel::Number(NumberModel::PosInt(v)) => Some(v),
        _ => None,
    }
}

/// The members of an object after setting `key` to `value`: the value of
/// an existing member is replaced in place, a new key is appended.
pub open spec fn set_member(members: Seq<(Seq<char>, JsonModel)>, key: Seq<char>, value: JsonModel) -> Seq<(Seq<char>, JsonModel)>
    decreases members.len(),
{
    if members.len() == 0 {
        seq![(key, value)]
    } else if members[0].0 == key {
        members.update(0, (key, value))
    } else {
        seq![members[0]] + set_member(members.drop_first(), key, value)
    }
}

pub proof fn lemma_items_model(s: Seq<Json>)
    ensures
        items_model(s).len() == s.len(),
        forall|i: int| 0 <= i < s.len() ==> #[trigger] items_model(s)[i] == json_model(s[i]),
    decreases s.len(),
{
    if s.len() > 0 {
        lemma_items_model(s.drop_last());
    }
}

pub proof fn lemma_members_model(s: Seq<(String, Json)>)
    ensures
        members_model(s).len() == s.len(),
        forall|i: int| 0 <= i < s.len() ==> #[trigger] members_model(s)[i] == (s[i].0@, json_model(s[i].1)),
    decreases s.len(),
{
    if s.len() > 0 {
        lemma_members_model(s.drop_last());
    }
}

proof fn lemma_items_push(s: Seq<Json>, x: Json)
    ensures
        items_model(s.push(x)) == items_model(s).push(json_model(x)),
{
    assert(s.push(x).drop_last() =~= s);
}

proof fn lemma_members_push(s: Seq<(String, Json)>, x: (String, Json))
    ensures
        members_model(s.push(x)) == members_model(s).push((x.0@, json_model(x.1))),
{
    assert(s.push(x).drop_last() =~= s);
}

/// A deep copy of a JSON value.
#[verifier::loop_isolation(false)]
pub fn json_clone(j: &Json) -> (r: Json)
    ensures
        json_model(r) == json_model(*j),
    decreases j,
{
    match j {
        Json::Null => Json::Null,
        Json::Bool(b) => Json::Bool(*b),
        Json::Number(JsonNumber::PosInt(v)) => Json::Number(JsonNumber::PosInt(*v)),
        Json::Number(JsonNumber::NegInt(v)) => Json::Number(JsonNumber::NegInt(*v)),
        Json::Number(JsonNumber::Float(t)) => Json::Number(JsonNumber::Float(t.clone())),
        Json::Str(t) => Json::Str(t.clone()),
        Json::Array(items) => {
            let mut out: Vec<Json> = Vec::new();
            let mut i: usize = 0;
            while i < items.len()
                invariant
                    i <= items.len(),
                    items_model(out@) == items_model(items@.take(i as int)),
                decreases items.len() - i,
            {
                assert(decreases_to!(*j => items@[i as int]));
                let x = json_clone(&items[i]);
                proof {
                    lemma_items_push(out@, x);
                    lemma_items_push(items@.take(i as int), items@[i as int]);
                    assert(items@.take(i as int).push(items@[i as int]) =~= items@.take(i + 1));
                }
                out.push(x);
                i = i + 1;
            }
            assert(items@.take(items.len() as int) =~= items@);
            Json::Array(out)
        },
        Json::Object(members) => {
            let mut out: Vec<(String, Json)> = Vec::new();
            let mut i: usize = 0;
            while i < members.len()
                invariant
                    i <= members.len(),
                    members_model(out@) == members_model(members@.take(i as int)),
                decreases members.len() - i,
            {
                assert(decreases_to!(*j => members@[i as int].1));
                let x = (members[i].0.clone(), json_clone(&members[i].1));
                proof {
                    lemma_members_push(out@, x);
                    lemma_members_push(members@.take(i as int), members@[i as int]);
                    assert(members@.take(i as int).push(members@[i as int]) =~= members@.take(i + 1));
                }
                out.push(x);
                i = i + 1;
            }
            assert(members@.take(members.len() as int) =~= members@);
            Json::Object(out)
        },
    }
}

impl Json {
    /// serde_json's `get`: the member named `key` of an object.
    #[verifier::loop_isolation(false)]
    pub fn get(&self, key: &str) -> (r: Option<&Json>)
        ensures
            option_model(r) == get_member(json_model(*self), key@),
    {
        match self {
            Json::Object(members) => {
                proof { lemma_members_model(members@); }
                assert(members_model(members@).skip(0) =~= members_model(members@));
                let mut i: usize = 0;
                while i < members.len()
                    invariant
                        i <= members.len(),
                        members_model(members@).len() == members.len(),
                        forall|k: int| 0 <= k < members.len() ==> #[trigger] members_model(members@)[k] == (members@[k].0@, json_model(members@[k].1)),
                        member_of(members_model(members@), key@) == member_of(members_model(members@).skip(i as int), key@),
                    decreases members.len() - i,
                {
                    let ghost rest = members_model(members@).skip(i as int);
                    assert(rest.drop_first() =~= members_model(members@).skip(i + 1));
                    assert(rest[0] == members_model(members@)[i as int]);
                    if crate::text::str_eq(members[i].0.as_str(), key) {
                        return Some(&members[i].1);
                    }
                    i = i + 1;
                }
                None
            },
            _ => None,
        }
    }

    /// serde_json's `as_u64`: a non-negative integer number.
    pub fn as_u64(&self) -> (r: Option<u64>)
        ensures
            r == as_u64_model(json_model(*self)),
    {
        match self {
            Json::Number(JsonNumber::PosInt(v)) => Some(*v),
            _ => None,
        }
    }
}

/// The first index of a member named `key`, or the length when there is none.
pub open spec fn member_index(members: Seq<(Seq<char>, JsonModel)>, key: Seq<char>) -> nat
    decreases members.len(),
{
    if members.len() == 0 {
        0
    } else if members[0].0 == key {
        0
    } else {
        1 + member_index(members.drop_first(), key)
    }
}

proof fn lemma_member_index(members: Seq<(Seq<char>, JsonModel)>, key: Seq<char>, i: int)
    requires
        0 <= i <= members.len(),
        i < members.len() ==> members[i].0 == key,
        forall|j: int| 0 <= j < i ==> members[j].0 != key,
    ensures
        member_index(members, key) == i,
        i < members.len() ==> forall|v: JsonModel| #[trigger] set_member(members, key, v) == members.update(i, (key, v)),
        i == members.len() ==> forall|v: JsonModel| #[trigger] set_member(members, key, v) == members.push((key, v)),
    decreases members.len(),
{
    if members.len() > 0 && i > 0 {
        lemma_member_index(members.drop_first(), key, i - 1);
        assert forall|v: JsonModel| #[trigger] set_member(members, key, v) == (if i < members.len() { members.update(i, (key, v)) } else { members.push((key, v)) }) by {
            assert(members[0].0 != key);
            assert(set_member(members, key, v) == seq![members[0]] + set_member(members.drop_first(), key, v));
            if i < members.len() {
                assert(seq![members[0]] + members.drop_first().update(i - 1, (key, v)) =~= members.update(i, (key, v)));
            } else {
                assert(seq![members[0]] + members.drop_first().push((key, v)) =~= members.push((key, v)));
            }
        }
    } else if members.len() > 0 {
        assert forall|v: JsonModel| #[trigger] set_member(members, key, v) == members.update(0, (key, v)) by {}
    } else {
        assert forall|v: JsonModel| #[trigger] set_member(members, key, v) == members.push((key, v)) by {
            assert(seq![(key, v)] =~= members.push((key, v)));
        }
    }
}

/// After setting `key` to `value`, the object's member `key` is `value`,
/// and every other member reads as before.
pub proof fn lemma_member_after_set(members: Seq<(Seq<char>, JsonModel)>, key: Seq<char>, value: JsonModel, other: Seq<char>)
    ensures
        member_of(set_member(members, key, value), key) == Some(value),
        other != key ==> member_of(set_member(members, key, value), other) == member_of(members, other),
    decreases members.len(),
{
    let after = set_member(members, key, value);
    if members.len() == 0 {
        assert(after =~= seq![(key, value)]);
        assert(after.drop_first().len() == 0);
        assert(member_of(after.drop_first(), other) == None::<JsonModel>);
    } else if members[0].0 == key {
        assert(after[0] == (key, value));
        assert(after.drop_first() =~= members.drop_first());
    } else {
        assert(after[0] == members[0]);
        lemma_member_after_set(members.drop_first(), key, value, other);
        assert(after.drop_first() =~= set_member(members.drop_first(), key, value));
    }
}

/// Sets the member `key` of an object to `value`: an existing member keeps
/// its place and gets the new value, a new key is appended.
pub fn object_set(members: &mut Vec<(String, Json)>, key: &str, value: Json)
    ensures
        members_model(final(members)@) == set_member(members_model(old(members)@), key@, json_model(value)),
{
    proof { lemma_members_model(members@); }
    let ghost ms = members_model(members@);
    let mut i: usize = 0;
    while i < members.len() && !crate::text::str_eq(members[i].0.as_str(), key)
        invariant
            i <= members.len(),
            ms == members_model(members@),
            ms.len() == members.len(),
            forall|k: int| 0 <= k < members.len() ==> #[trigger] ms[k] == (members@[k].0@, json_model(members@[k].1)),
            forall|j: int| 0 <= j < i ==> ms[j].0 != key@,
        decreases members.len() - i,
    {
        i = i + 1;
    }
    proof { lemma_member_index(ms, key@, i as int); }
    if i < members.len() {
        let ghost old_members = members@;
        let entry = (crate::text::owned(key), value);
        members.set(i, entry);
        proof {
            lemma_members_model(members@);
            assert(members_model(members@) =~= ms.update(i as int, (key@, json_model(value))));
        }
    } else {
        let entry = (crate::text::owned(key), value);
        proof { lemma_members_push(members@, entry); }
        members.push(entry);
    }
}

} // verus!
