use vstd::prelude::*;
use crate::text::{decimal, str_eq, u128_decimal};

verus! {

/// Mathematical model of a JSON value: strings are character sequences and an
/// object is the list of its members in order.
pub enum Json {
    Null,
    Bool(bool),
    Number(Seq<char>),
    Str(Seq<char>),
    Array(Seq<Json>),
    Object(Seq<(Seq<char>, Json)>),
}

/// A JSON value. A number is held as its decimal text.
#[derive(Debug, PartialEq)]
pub enum JsonValue {
    Null,
    Bool(bool),
    Number(String),
    Str(String),
    Array(Vec<JsonValue>),
    Object(Vec<(String, JsonValue)>),
}

impl JsonValue {
    pub open spec fn model(&self) -> Json
        decreases self,
    {
        match self {
            JsonValue::Null => Json::Null,
            JsonValue::Bool(b) => Json::Bool(*b),
            JsonValue::Number(n) => Json::Number(n@),
            JsonValue::Str(s) => Json::Str(s@),
            JsonValue::Array(items) => Json::Array(Seq::new(items@.len(), |i: int| if 0 <= i < items@.len() { items@[i].model() } else { Json::Null })),
            JsonValue::Object(members) => Json::Object(Seq::new(members@.len(), |i: int| if 0 <= i < members@.len() { (members@[i].0@, members@[i].1.model()) } else { (Seq::empty(), Json::Null) })),
        }
    }
}


/// Member `i` is the first one whose key is `key`.
pub open spec fn first_key_at(members: Seq<(Seq<char>, Json)>, key: Seq<char>, i: int) -> bool {
    &&& 0 <= i < members.len()
    &&& members[i].0 == key
    &&& forall|j: int| 0 <= j < i ==> members[j].0 != key
}

/// The value stored under `key` in an object's members (the first one, should a
/// key occur twice).
pub open spec fn member_get(members: Seq<(Seq<char>, Json)>, key: Seq<char>) -> Option<Json> {
    if exists|i: int| #[trigger] first_key_at(members, key, i) {
        Some(members[choose|i: int| #[trigger] first_key_at(members, key, i)].1)
    } else {
        None
    }
}

/// The members after `key` is set to `value`: an existing member keeps its
/// place and takes the new value, a new key goes last (`Map::insert`).
pub open spec fn member_insert(members: Seq<(Seq<char>, Json)>, key: Seq<char>, value: Json) -> Seq<(Seq<char>, Json)> {
    if exists|i: int| #[trigger] first_key_at(members, key, i) {
        members.update(choose|i: int| #[trigger] first_key_at(members, key, i), (key, value))
    } else {
        members.push((key, value))
    }
}

pub proof fn lemma_first_key_unique(members: Seq<(Seq<char>, Json)>, key: Seq<char>, i: int, j: int)
    requires
        first_key_at(members, key, i),
        first_key_at(members, key, j),
    ensures
        i == j,
{
}

/// A member found at `i` with no earlier member under its key is what the
/// object holds under that key.
pub proof fn lemma_member_at(members: Seq<(Seq<char>, Json)>, key: Seq<char>, i: int)
    requires
        0 <= i < members.len(),
        members[i].0 == key,
        forall|j: int| 0 <= j < i ==> members[j].0 != key,
    ensures
        member_get(members, key) == Some(members[i].1),
{
    assert(first_key_at(members, key, i));
    let c = choose|c: int| #[trigger] first_key_at(members, key, c);
    lemma_first_key_unique(members, key, c, i);
}

/// Setting a key adds that key and keeps the others.
pub proof fn lemma_insert_keys(members: Seq<(Seq<char>, Json)>, key: Seq<char>, value: Json, other: Seq<char>)
    requires
        other != key,
    ensures
        (member_get(member_insert(members, key, value), other) is Some) == (member_get(members, other) is Some),
{
    let r = member_insert(members, key, value);
    if exists|i: int| #[trigger] first_key_at(members, key, i) {
        let i = choose|i: int| #[trigger] first_key_at(members, key, i);
        assert(r == members.update(i, (key, value)));
        if exists|j: int| #[trigger] first_key_at(members, other, j) {
            let j = choose|j: int| #[trigger] first_key_at(members, other, j);
            assert(first_key_at(r, other, j));
        }
        assert forall|k: int| 0 <= k < members.len() implies #[trigger] r[k].0 == members[k].0 by {}
        if exists|j: int| #[trigger] first_key_at(r, other, j) {
            let j = choose|j: int| #[trigger] first_key_at(r, other, j);
            assert forall|k: int| 0 <= k < j implies members[k].0 != other by {
                assert(r[k].0 == members[k].0);
            }
            assert(first_key_at(members, other, j));
        }
    } else {
        assert(r == members.push((key, value)));
        if exists|j: int| #[trigger] first_key_at(members, other, j) {
            let j = choose|j: int| #[trigger] first_key_at(members, other, j);
            assert(first_key_at(r, other, j));
        }
        if exists|j: int| #[trigger] first_key_at(r, other, j) {
            let j = choose|j: int| #[trigger] first_key_at(r, other, j);
            assert(j < members.len());
            assert forall|k: int| 0 <= k < j implies members[k].0 != other by {
                assert(r[k] == members[k]);
            }
            assert(first_key_at(members, other, j));
        }
    }
}

/// Adding a member under another key leaves a lookup as it was.
pub proof fn lemma_get_push_other(members: Seq<(Seq<char>, Json)>, k2: Seq<char>, v: Json, key: Seq<char>)
    requires
        k2 != key,
    ensures
        member_get(members.push((k2, v)), key) == member_get(members, key),
{
    let r = members.push((k2, v));
    if exists|i: int| #[trigger] first_key_at(members, key, i) {
        let i = choose|i: int| #[trigger] first_key_at(members, key, i);
        assert(first_key_at(r, key, i));
        lemma_member_at(r, key, i);
    } else {
        if exists|i: int| #[trigger] first_key_at(r, key, i) {
            let i = choose|i: int| #[trigger] first_key_at(r, key, i);
            assert(r[members.len() as int].0 == k2);
            assert(i < members.len());
            assert(r[i] == members[i]);
            assert forall|d: int| 0 <= d < i implies members[d].0 != key by {
                assert(r[d] == members[d]);
            }
            assert(first_key_at(members, key, i));
        }
    }
}

/// A member added under a new key is found under it.
pub proof fn lemma_get_push_new(members: Seq<(Seq<char>, Json)>, key: Seq<char>, v: Json)
    requires
        member_get(members, key) is None,
    ensures
        member_get(members.push((key, v)), key) == Some(v),
{
    let r = members.push((key, v));
    assert forall|j: int| 0 <= j < members.len() implies r[j].0 != key by {
        assert(r[j] == members[j]);
        if members[j].0 == key {
            lemma_first_occurrence(members, key, j);
        }
    }
    lemma_member_at(r, key, members.len() as int);
}

pub proof fn lemma_first_occurrence(members: Seq<(Seq<char>, Json)>, key: Seq<char>, j: int)
    requires
        0 <= j < members.len(),
        members[j].0 == key,
    ensures
        exists|c: int| #[trigger] first_key_at(members, key, c),
    decreases j,
{
    if exists|d: int| 0 <= d < j && members[d].0 == key {
        let d = choose|d: int| 0 <= d < j && members[d].0 == key;
        lemma_first_occurrence(members, key, d);
    } else {
        assert(first_key_at(members, key, j));
    }
}

/// Setting a key makes its value the one found under it.
pub proof fn lemma_get_insert_same(members: Seq<(Seq<char>, Json)>, key: Seq<char>, v: Json)
    ensures
        member_get(member_insert(members, key, v), key) == Some(v),
{
    if exists|i: int| #[trigger] first_key_at(members, key, i) {
        let i = choose|i: int| #[trigger] first_key_at(members, key, i);
        let r = members.update(i, (key, v));
        lemma_member_at(r, key, i);
    } else {
        assert forall|j: int| 0 <= j < members.len() implies members[j].0 != key by {
            if members[j].0 == key {
                lemma_first_occurrence(members, key, j);
            }
        }
        lemma_member_at(members.push((key, v)), key, members.len() as int);
    }
}

/// Setting a key leaves the lookup of any other key as it was.
pub proof fn lemma_get_insert_other(members: Seq<(Seq<char>, Json)>, k2: Seq<char>, v: Json, key: Seq<char>)
    requires
        k2 != key,
    ensures
        member_get(member_insert(members, k2, v), key) == member_get(members, key),
{
    if exists|i: int| #[trigger] first_key_at(members, k2, i) {
        let i = choose|i: int| #[trigger] first_key_at(members, k2, i);
        let r = members.update(i, (k2, v));
        assert forall|j: int| 0 <= j < members.len() implies (r[j].0 == key) == (members[j].0 == key) by {}
        if exists|c: int| #[trigger] first_key_at(members, key, c) {
            let c = choose|c: int| #[trigger] first_key_at(members, key, c);
            assert(c != i);
            assert(first_key_at(r, key, c));
            lemma_member_at(r, key, c);
        } else {
            if exists|c: int| #[trigger] first_key_at(r, key, c) {
                let c = choose|c: int| #[trigger] first_key_at(r, key, c);
                assert(first_key_at(members, key, c));
            }
        }
    } else {
        lemma_get_push_other(members, k2, v, key);
    }
}

impl Json {
    /// `Value::get` with a string index: a member of an object, `None` otherwise.
    pub open spec fn get(self, key: Seq<char>) -> Option<Json> {
        match self {
            Json::Object(m) => member_get(m, key),
            _ => None,
        }
    }

    /// The value under `key`, or `null` where there is none
    /// (`get(key).cloned().unwrap_or(Value::Null)`).
    pub open spec fn get_or_null(self, key: Seq<char>) -> Json {
        match self.get(key) {
            Some(v) => v,
            None => Json::Null,
        }
    }

    /// The text of a JSON string.
    pub open spec fn as_str(self) -> Option<Seq<char>> {
        match self {
            Json::Str(s) => Some(s),
            _ => None,
        }
    }

    /// The value of a JSON boolean.
    pub open spec fn as_bool(self) -> Option<bool> {
        match self {
            Json::Bool(b) => Some(b),
            _ => None,
        }
    }

    /// The string found under `key`, if that member is a string.
    pub open spec fn str_at(self, key: Seq<char>) -> Option<Seq<char>> {
        match self.get(key) {
            Some(v) => v.as_str(),
            None => None,
        }
    }

    /// The boolean found under `key`, if that member is a boolean.
    pub open spec fn bool_at(self, key: Seq<char>) -> Option<bool> {
        match self.get(key) {
            Some(v) => v.as_bool(),
            None => None,
        }
    }
}

impl JsonValue {
    /// A JSON string holding `s`.
    pub fn string(s: &str) -> (r: JsonValue)
        ensures
            r.model() == Json::Str(s@),
    {
        JsonValue::Str(String::from_str(s))
    }

    /// A copy of the value.
    #[verifier::loop_isolation(false)]
    pub fn deep_clone(&self) -> (r: JsonValue)
        ensures
            r.model() == self.model(),
        decreases self,
    {
        match self {
            JsonValue::Null => JsonValue::Null,
            JsonValue::Bool(b) => JsonValue::Bool(*b),
            JsonValue::Number(n) => JsonValue::Number(n.clone()),
            JsonValue::Str(s) => JsonValue::Str(s.clone()),
            JsonValue::Array(items) => {
                let mut out: Vec<JsonValue> = Vec::new();
                let mut i: usize = 0;
                while i < items.len()
                    invariant
                        i <= items@.len(),
                        out@.len() == i,
                        forall|k: int| 0 <= k < i ==> (#[trigger] out@[k]).model() == items@[k].model(),
                    decreases items@.len() - i,
                {
                    assert(decreases_to!(self => items@[i as int]));
                    let c = items[i].deep_clone();
                    out.push(c);
                    i = i + 1;
                }
                let r = JsonValue::Array(out);
                assert(r.model()->Array_0 =~= self.model()->Array_0);
                r
            }
            JsonValue::Object(members) => {
                let mut out: Vec<(String, JsonValue)> = Vec::new();
                let mut i: usize = 0;
                while i < members.len()
                    invariant
                        i <= members@.len(),
                        out@.len() == i,
                        forall|k: int| 0 <= k < i ==> (#[trigger] out@[k]).0@ == members@[k].0@
                            && out@[k].1.model() == members@[k].1.model(),
                    decreases members@.len() - i,
                {
                    let key = members[i].0.clone();
                    assert(decreases_to!(self => members@[i as int].1));
                    let value = members[i].1.deep_clone();
                    out.push((key, value));
                    i = i + 1;
                }
                let r = JsonValue::Object(out);
                assert(r.model()->Object_0 =~= self.model()->Object_0);
                r
            }
        }
    }

    /// `Value::get` with a string index.
    #[verifier::loop_isolation(false)]
    pub fn get(&self, key: &str) -> (r: Option<&JsonValue>)
        ensures
            match r {
                Some(v) => self.model().get(key@) == Some(v.model()),
                None => self.model().get(key@) is None,
            },
    {
        match self {
            JsonValue::Object(members) => {
                let ghost m = self.model()->Object_0;
                let mut i: usize = 0;
                while i < members.len()
                    invariant
                        m == self.model()->Object_0,
                        m.len() == members@.len(),
                        i <= members@.len(),
                        forall|j: int| 0 <= j < i ==> m[j].0 != key@,
                    decreases members@.len() - i,
                {
                    assert(m[i as int].0 == members@[i as int].0@);
                    if str_eq(members[i].0.as_str(), key) {
                        assert(first_key_at(m, key@, i as int));
                        proof {
                            let c = choose|c: int| #[trigger] first_key_at(m, key@, c);
                            lemma_first_key_unique(m, key@, c, i as int);
                        }
                        return Some(&members[i].1);
                    }
                    i = i + 1;
                }
                assert(!exists|c: int| #[trigger] first_key_at(m, key@, c));
                None
            }
            _ => None,
        }
    }

    /// The text of a JSON string.
    pub fn as_str(&self) -> (r: Option<&str>)
        ensures
            match r {
                Some(s) => self.model().as_str() == Some(s@),
                None => self.model().as_str() is None,
            },
    {
        match self {
            JsonValue::Str(s) => Some(s.as_str()),
            _ => None,
        }
    }

    /// The value of a JSON boolean.
    pub fn as_bool(&self) -> (r: Option<bool>)
        ensures
            r == self.model().as_bool(),
    {
        match self {
            JsonValue::Bool(b) => Some(*b),
            _ => None,
        }
    }

    /// The string under `key`, where that member is a string.
    pub fn str_at(&self, key: &str) -> (r: Option<&str>)
        ensures
            match r {
                Some(s) => self.model().str_at(key@) == Some(s@),
                None => self.model().str_at(key@) is None,
            },
    {
        match self.get(key) {
            Some(v) => v.as_str(),
            None => None,
        }
    }

    /// The boolean under `key`, where that member is a boolean.
    pub fn bool_at(&self, key: &str) -> (r: Option<bool>)
        ensures
            r == self.model().bool_at(key@),
    {
        match self.get(key) {
            Some(v) => v.as_bool(),
            None => None,
        }
    }

    /// A copy of the value under `key`, or `null` where there is none.
    pub fn get_or_null(&self, key: &str) -> (r: JsonValue)
        ensures
            r.model() == self.model().get_or_null(key@),
    {
        match self.get(key) {
            Some(v) => v.deep_clone(),
            None => JsonValue::Null,
        }
    }
}

/// The members of an object as a model.
pub open spec fn members_model(members: Seq<(String, JsonValue)>) -> Seq<(Seq<char>, Json)> {
    Seq::new(members.len(), |i: int| (members[i].0@, members[i].1.model()))
}

pub proof fn lemma_object_model(members: Vec<(String, JsonValue)>)
    ensures
        JsonValue::Object(members).model() == Json::Object(members_model(members@)),
{
    assert(JsonValue::Object(members).model()->Object_0 =~= members_model(members@));
}

/// No members.
pub open spec fn no_members() -> Seq<(Seq<char>, Json)> {
    Seq::empty()
}

/// No items.
pub open spec fn no_items() -> Seq<Json> {
    Seq::empty()
}

/// An empty list of object members.
pub fn new_members() -> (r: Vec<(String, JsonValue)>)
    ensures
        members_model(r@) == no_members(),
{
    let r: Vec<(String, JsonValue)> = Vec::new();
    assert(members_model(r@) =~= no_members());
    r
}

/// An empty list of array items.
pub fn new_items() -> (r: Vec<JsonValue>)
    ensures
        items_model(r@) == no_items(),
{
    let r: Vec<JsonValue> = Vec::new();
    assert(items_model(r@) =~= no_items());
    r
}

/// Adds an item at the end of an array's items.
pub fn push_item(items: &mut Vec<JsonValue>, value: JsonValue)
    ensures
        items_model(final(items)@) == items_model(old(items)@).push(value.model()),
{
    let ghost vm = value.model();
    items.push(value);
    assert(items_model(items@) =~= items_model(old(items)@).push(vm));
}

/// Adds a member under a new key at the end of an object's members.
pub fn push_member(members: &mut Vec<(String, JsonValue)>, key: &str, value: JsonValue)
    ensures
        members_model(final(members)@) == members_model(old(members)@).push((key@, value.model())),
{
    let ghost vm = value.model();
    members.push((String::from_str(key), value));
    assert(members_model(members@) =~= members_model(old(members)@).push((key@, vm)));
}

/// The object with the given members.
pub fn object_of(members: Vec<(String, JsonValue)>) -> (r: JsonValue)
    ensures
        r.model() == Json::Object(members_model(members@)),
{
    proof { lemma_object_model(members); }
    JsonValue::Object(members)
}

/// The items of an array as a model.
pub open spec fn items_model(items: Seq<JsonValue>) -> Seq<Json> {
    Seq::new(items.len(), |i: int| items[i].model())
}

/// The array with the given items.
pub fn array_of(items: Vec<JsonValue>) -> (r: JsonValue)
    ensures
        r.model() == Json::Array(items_model(items@)),
{
    let r = JsonValue::Array(items);
    assert(r.model()->Array_0 =~= items_model(items@));
    r
}

/// A JSON number holding an unsigned integer.
pub fn number_from(n: u128) -> (r: JsonValue)
    ensures
        r.model() == Json::Number(decimal(n as nat)),
{
    JsonValue::Number(u128_decimal(n))
}

/// A JSON string, or `null` where there is none.
pub fn string_or_null(s: &Option<String>) -> (r: JsonValue)
    ensures
        r.model() == (match s {
            Some(t) => Json::Str(t@),
            None => Json::Null,
        }),
{
    match s {
        Some(t) => JsonValue::Str(t.clone()),
        None => JsonValue::Null,
    }
}

/// Sets `key` to `value` in an object's members, as `Map::insert` does.
pub fn object_insert(members: &mut Vec<(String, JsonValue)>, key: &str, value: JsonValue)
    ensures
        members_model(final(members)@) == member_insert(members_model(old(members)@), key@, value.model()),
{
    let ghost m = members_model(members@);
    let mut i: usize = 0;
    while i < members.len()
        invariant
            m == members_model(old(members)@),
            members@ == old(members)@,
            i <= members@.len(),
            forall|j: int| 0 <= j < i ==> m[j].0 != key@,
        decreases members@.len() - i,
    {
        if str_eq(members[i].0.as_str(), key) {
            assert(first_key_at(m, key@, i as int));
            proof {
                let c = choose|c: int| #[trigger] first_key_at(m, key@, c);
                lemma_first_key_unique(m, key@, c, i as int);
            }
            let ghost vm = value.model();
            members.set(i, (String::from_str(key), value));
            assert(members_model(members@) =~= m.update(i as int, (key@, vm)));
            return;
        }
        i = i + 1;
    }
    assert(!exists|c: int| #[trigger] first_key_at(m, key@, c));
    let ghost vm = value.model();
    members.push((String::from_str(key), value));
    assert(members_model(members@) =~= m.push((key@, vm)));
}

} // verus!
