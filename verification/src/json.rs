//! Untyped document values, and the ordered map that keeps the fields of an
//! entity that the schema does not model.

use crate::text::str_equal;
use vstd::prelude::*;
use vstd::string::*;

verus! {

broadcast use vstd::std_specs::vec::axiom_vec_index_decreases;

/// A value of a document: null, a boolean, a number kept as its decimal text, a
/// text, a list of values, or an object.
#[derive(Debug, PartialEq, Eq)]
pub enum JsonValue {
    Null,
    Bool(bool),
    Number(String),
    Text(String),
    Array(Vec<JsonValue>),
    Object(PropertyMap),
}

/// Fields by name, in the order in which they were first inserted. No name
/// occurs twice.
#[derive(Debug, PartialEq, Eq)]
pub struct PropertyMap {
    entries: Vec<(String, JsonValue)>,
}

/// What a `JsonValue` stands for.
#[verifier::ext_equal]
pub ghost enum JsonModel {
    Null,
    Bool(bool),
    Number(Seq<char>),
    Text(Seq<char>),
    Array(Seq<JsonModel>),
    Object(Seq<(Seq<char>, JsonModel)>),
}

/// What a `PropertyMap` stands for: its fields in order.
pub type PropertyModel = Seq<(Seq<char>, JsonModel)>;

/// No name occurs twice in `m`.
pub open spec fn keys_unique(m: PropertyModel) -> bool {
    forall|i: int, j: int| 0 <= i < j < m.len() ==> (#[trigger] m[i]).0 != (#[trigger] m[j]).0
}

/// Whether `m` has a field named `key`.
pub open spec fn has_key(m: PropertyModel, key: Seq<char>) -> bool {
    exists|i: int| 0 <= i < m.len() && (#[trigger] m[i]).0 == key
}

/// The place of a field named `key` in `m`.
pub open spec fn key_place(m: PropertyModel, key: Seq<char>) -> int {
    choose|i: int| 0 <= i < m.len() && (#[trigger] m[i]).0 == key
}

/// The value of the field named `key`, if `m` has one.
pub open spec fn lookup(m: PropertyModel, key: Seq<char>) -> Option<JsonModel> {
    if has_key(m, key) {
        Some(m[key_place(m, key)].1)
    } else {
        None
    }
}

/// `m` with the field `key` set to `value`: in its old place if `m` had it, else
/// at the end.
pub open spec fn put(m: PropertyModel, key: Seq<char>, value: JsonModel) -> PropertyModel {
    if has_key(m, key) {
        m.update(key_place(m, key), (key, value))
    } else {
        m.push((key, value))
    }
}

/// `m` without the field named `key`.
pub open spec fn without(m: PropertyModel, key: Seq<char>) -> PropertyModel {
    if has_key(m, key) {
        m.remove(key_place(m, key))
    } else {
        m
    }
}

impl DeepView for JsonValue {
    type V = JsonModel;

    open spec fn deep_view(&self) -> JsonModel
        decreases self,
    {
        match self {
            JsonValue::Null => JsonModel::Null,
            JsonValue::Bool(b) => JsonModel::Bool(*b),
            JsonValue::Number(n) => JsonModel::Number(n@),
            JsonValue::Text(t) => JsonModel::Text(t@),
            JsonValue::Array(items) => JsonModel::Array(
                Seq::new(
                    items.len() as nat,
                    |i: int|
                        if 0 <= i < items.len() {
                            items[i].deep_view()
                        } else {
                            JsonModel::Null
                        },
                ),
            ),
            JsonValue::Object(map) => JsonModel::Object(map.deep_view()),
        }
    }
}

impl DeepView for PropertyMap {
    type V = PropertyModel;

    closed spec fn deep_view(&self) -> PropertyModel
        decreases self,
    {
        Seq::new(
            self.entries.len() as nat,
            |i: int|
                if 0 <= i < self.entries.len() {
                    (self.entries[i].0@, self.entries[i].1.deep_view())
                } else {
                    (Seq::empty(), JsonModel::Null)
                },
        )
    }
}

impl Clone for JsonValue {
    fn clone(&self) -> (r: Self)
        ensures
            r.deep_view() == self.deep_view(),
        decreases self,
    {
        match self {
            JsonValue::Null => JsonValue::Null,
            JsonValue::Bool(b) => JsonValue::Bool(*b),
            JsonValue::Number(n) => JsonValue::Number(n.clone()),
            JsonValue::Text(t) => JsonValue::Text(t.clone()),
            JsonValue::Array(items) => {
                let mut out: Vec<JsonValue> = Vec::new();
                let mut i: usize = 0;
                while i < items.len()
                    invariant
                        i <= items.len(),
                        out.len() == i,
                        forall|j: int| 0 <= j < i ==> out[j].deep_view() == items[j].deep_view(),
                        decreases_to!(self => items),
                    decreases items.len() - i,
                {
                    out.push(items[i].clone());
                    i += 1;
                }
                let r = JsonValue::Array(out);
                assert(r.deep_view()->Array_0 =~= self.deep_view()->Array_0);
                r
            },
            JsonValue::Object(map) => JsonValue::Object(map.clone()),
        }
    }
}

impl Clone for PropertyMap {
    fn clone(&self) -> (r: Self)
        ensures
            r.deep_view() == self.deep_view(),
        decreases self,
    {
        proof {
            use_type_invariant(self);
        }
        let mut out: Vec<(String, JsonValue)> = Vec::new();
        let mut i: usize = 0;
        while i < self.entries.len()
            invariant
                i <= self.entries.len(),
                out.len() == i,
                forall|j: int|
                    0 <= j < i ==> out[j].0@ == self.entries[j].0@ && out[j].1.deep_view()
                        == self.entries[j].1.deep_view(),
            decreases self.entries.len() - i,
        {
            out.push((self.entries[i].0.clone(), self.entries[i].1.clone()));
            i += 1;
        }
        proof {
            let copy = PropertyMap { entries: out };
            assert(copy.deep_view() =~= self.deep_view());
        }
        PropertyMap { entries: out }
    }
}

impl JsonValue {
    /// A text value that holds the characters of `s`.
    pub fn text(s: &str) -> (r: JsonValue)
        ensures
            r.deep_view() == JsonModel::Text(s@),
    {
        JsonValue::Text(String::from_str(s))
    }

    /// A list of text values, one for each string of `items`.
    pub fn text_array(items: &Vec<String>) -> (r: JsonValue)
        ensures
            r.deep_view() == JsonModel::Array(text_values(items.deep_view())),
    {
        let mut out: Vec<JsonValue> = Vec::new();
        let mut i: usize = 0;
        while i < items.len()
            invariant
                i <= items.len(),
                out.len() == i,
                forall|j: int| 0 <= j < i ==> out[j].deep_view() == JsonModel::Text(items[j]@),
            decreases items.len() - i,
        {
            out.push(JsonValue::Text(items[i].clone()));
            i += 1;
        }
        let r = JsonValue::Array(out);
        assert(r.deep_view()->Array_0 =~= text_values(items.deep_view()));
        r
    }
}

/// The text values of the given texts, in order.
pub open spec fn text_values(items: Seq<Seq<char>>) -> Seq<JsonModel> {
    Seq::new(items.len(), |i: int| JsonModel::Text(items[i]))
}

impl PropertyMap {
    /// The invariant of the type: no name occurs twice.
    #[verifier::type_invariant]
    pub closed spec fn wf(self) -> bool {
        keys_unique(self.deep_view())
    }

    /// A map without fields.
    pub fn new() -> (r: PropertyMap)
        ensures
            r.deep_view() == Seq::<(Seq<char>, JsonModel)>::empty(),
    {
        let r = PropertyMap { entries: Vec::new() };
        assert(r.deep_view() =~= Seq::<(Seq<char>, JsonModel)>::empty());
        r
    }

    /// What the invariant of the type says of the fields.
    pub proof fn lemma_wf(self)
        ensures
            self.wf() == keys_unique(self.deep_view()),
    {
    }

    /// The number of fields.
    pub fn len(&self) -> (n: usize)
        ensures
            n == self.deep_view().len(),
    {
        self.entries.len()
    }

    /// Whether the map has no field.
    pub fn is_empty(&self) -> (b: bool)
        ensures
            b == (self.deep_view().len() == 0),
    {
        self.entries.len() == 0
    }

    /// The name and the value of the field at place `i`, if the map has that many
    /// fields.
    pub fn entry(&self, i: usize) -> (r: Option<(&str, &JsonValue)>)
        ensures
            r is Some <==> i < self.deep_view().len(),
            r matches Some((key, value)) ==> key@ == self.deep_view()[i as int].0
                && value.deep_view() == self.deep_view()[i as int].1,
    {
        if i < self.entries.len() {
            Some((self.entries[i].0.as_str(), &self.entries[i].1))
        } else {
            None
        }
    }

    fn find(&self, key: &str) -> (r: Option<usize>)
        ensures
            r is Some <==> has_key(self.deep_view(), key@),
            r matches Some(i) ==> i < self.deep_view().len() && i == key_place(
                self.deep_view(),
                key@,
            ),
    {
        proof {
            use_type_invariant(self);
        }
        let mut i: usize = 0;
        while i < self.entries.len()
            invariant
                i <= self.entries.len(),
                forall|j: int| 0 <= j < i ==> (#[trigger] self.deep_view()[j]).0 != key@,
                keys_unique(self.deep_view()),
            decreases self.entries.len() - i,
        {
            if str_equal(self.entries[i].0.as_str(), key) {
                assert(self.deep_view()[i as int].0 == key@);
                return Some(i);
            }
            i += 1;
        }
        None
    }

    /// Whether the map has a field named `key`.
    pub fn contains_key(&self, key: &str) -> (b: bool)
        ensures
            b == has_key(self.deep_view(), key@),
    {
        self.find(key).is_some()
    }

    /// The value of the field named `key`, if there is one.
    pub fn get(&self, key: &str) -> (r: Option<&JsonValue>)
        ensures
            r.deep_view() == lookup(self.deep_view(), key@),
    {
        match self.find(key) {
            Some(i) => Some(&self.entries[i].1),
            None => None,
        }
    }

    /// Sets the field `key` to `value`: in its old place if the map had it, else at
    /// the end.
    pub fn insert(&mut self, key: String, value: JsonValue)
        ensures
            final(self).deep_view() == put(old(self).deep_view(), key@, value.deep_view()),
    {
        proof {
            use_type_invariant(&*self);
        }
        let ghost before = self.deep_view();
        let ghost expected = put(before, key@, value.deep_view());
        let found = self.find(key.as_str());
        let mut entries: Vec<(String, JsonValue)> = Vec::new();
        std::mem::swap(&mut entries, &mut self.entries);
        match found {
            Some(i) => {
                entries.set(i, (key, value));
            },
            None => {
                entries.push((key, value));
            },
        }
        proof {
            let updated = PropertyMap { entries };
            assert(updated.deep_view() =~= expected);
        }
        *self = PropertyMap { entries };
    }

    /// Takes the field named `key` out of the map and returns its value, if the
    /// map had one.
    pub fn remove(&mut self, key: &str) -> (r: Option<JsonValue>)
        ensures
            r.deep_view() == lookup(old(self).deep_view(), key@),
            final(self).deep_view() == without(old(self).deep_view(), key@),
    {
        proof {
            use_type_invariant(&*self);
        }
        let ghost before = self.deep_view();
        match self.find(key) {
            Some(i) => {
                let mut entries: Vec<(String, JsonValue)> = Vec::new();
                std::mem::swap(&mut entries, &mut self.entries);
                let entry = entries.remove(i);
                proof {
                    let updated = PropertyMap { entries };
                    assert(updated.deep_view() =~= before.remove(i as int));
                }
                *self = PropertyMap { entries };
                Some(entry.1)
            },
            None => None,
        }
    }
}

} // verus!
