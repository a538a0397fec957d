//! Entities as documents: every entity is written as an object that holds its
//! present fields under their names and, at the same level, the fields that the
//! schema does not model; and is read back from such an object.

use crate::json::{
    has_key, key_place, keys_unique, put, text_values, JsonModel, JsonValue, PropertyMap,
    PropertyModel,
};
use crate::json_resume::Iso8601Date;
use crate::text::{append_chars, chars_string, decimal, push_decimal, string_chars};
use crate::uri::{is_uri_text, parse_uri, Uri};
use vstd::prelude::*;
use vstd::string::*;

verus! {

/// A step on the way from a document to a value in it.
#[derive(Clone, Debug, PartialEq, Eq)]
pub enum PathStep {
    /// Into the field of that name.
    Field(String),
    /// Into the item at that place of a list.
    Index(usize),
}

/// What a `PathStep` stands for.
pub ghost enum PathStepModel {
    Field(Seq<char>),
    Index(nat),
}

/// The steps from a document to a value in it.
pub type PathModel = Seq<PathStepModel>;

impl DeepView for PathStep {
    type V = PathStepModel;

    open spec fn deep_view(&self) -> PathStepModel {
        match self {
            PathStep::Field(name) => PathStepModel::Field(name@),
            PathStep::Index(place) => PathStepModel::Index(*place as nat),
        }
    }
}

/// A document does not have the shape of the entity it is read as: the value at
/// `path` is of the wrong kind.
#[derive(Clone, Debug, PartialEq, Eq)]
pub struct DocumentError {
    pub path: Vec<PathStep>,
}

impl DeepView for DocumentError {
    type V = PathModel;

    open spec fn deep_view(&self) -> PathModel {
        self.path.deep_view()
    }
}

/// A path as text: the names of the fields with dots between them, and the place
/// of an item in brackets behind the list, as in `work[2].startDate`.
pub open spec fn path_text(path: PathModel) -> Seq<char>
    decreases path.len(),
{
    if path.len() == 0 {
        Seq::empty()
    } else {
        path_text(path.drop_last()) + match path.last() {
            PathStepModel::Field(name) => if path.len() == 1 {
                name
            } else {
                seq!['.'] + name
            },
            PathStepModel::Index(place) => seq!['['] + decimal(place) + seq![']'],
        }
    }
}

/// Writes a path as text.
pub fn path_to_string(path: &Vec<PathStep>) -> (r: String)
    ensures
        r@ == path_text(path.deep_view()),
{
    let ghost steps = path.deep_view();
    let mut out: Vec<char> = Vec::new();
    let mut i: usize = 0;
    assert(steps.take(0) =~= Seq::<PathStepModel>::empty());
    while i < path.len()
        invariant
            i <= path.len() == steps.len(),
            steps == path.deep_view(),
            out@ == path_text(steps.take(i as int)),
        decreases path.len() - i,
    {
        let ghost before = out@;
        assert(steps.take(i + 1).drop_last() == steps.take(i as int));
        assert(steps.take(i + 1).last() == path[i as int].deep_view());
        match &path[i] {
            PathStep::Field(name) => {
                if i > 0 {
                    out.push('.');
                }
                append_chars(&mut out, &string_chars(name.as_str()));
                assert(out@ =~= before + if i == 0 {
                    name@
                } else {
                    seq!['.'] + name@
                });
            },
            PathStep::Index(place) => {
                out.push('[');
                push_decimal(&mut out, *place as u64);
                out.push(']');
                assert(out@ =~= before + (seq!['['] + decimal(*place as nat) + seq![']']));
            },
        }
        i += 1;
    }
    assert(steps.take(steps.len() as int) == steps);
    chars_string(&out)
}

impl DocumentError {
    /// The path to the value of the wrong kind, as text.
    pub fn path_string(&self) -> (r: String)
        ensures
            r@ == path_text(self.deep_view()),
    {
        path_to_string(&self.path)
    }
}

/// A finding about a value, seen from the field `key` that holds the value.
pub open spec fn under<A>(key: Seq<char>, found: Result<A, PathModel>) -> Result<A, PathModel> {
    match found {
        Ok(value) => Ok(value),
        Err(path) => Err(seq![PathStepModel::Field(key)] + path),
    }
}

/// What a reading gives once what was found is put in its place.
pub open spec fn placed<A, M>(found: Result<A, PathModel>, place: spec_fn(A) -> M) -> Result<
    M,
    PathModel,
> {
    match found {
        Ok(value) => Ok(place(value)),
        Err(path) => Err(path),
    }
}

/// A finding about an item, seen from the list that holds it at `place`.
pub open spec fn at<A>(place: nat, found: Result<A, PathModel>) -> Result<A, PathModel> {
    match found {
        Ok(value) => Ok(value),
        Err(path) => Err(seq![PathStepModel::Index(place)] + path),
    }
}

/// Reads a text that may be absent. Null stands for an absent value.
pub open spec fn read_text(value: JsonModel) -> Result<Option<Seq<char>>, PathModel> {
    match value {
        JsonModel::Null => Ok(None),
        JsonModel::Text(text) => Ok(Some(text)),
        _ => Err(Seq::empty()),
    }
}

/// Reads a resource identifier that may be absent: a text that parses.
pub open spec fn read_uri(value: JsonModel) -> Result<Option<Seq<char>>, PathModel> {
    match value {
        JsonModel::Null => Ok(None),
        JsonModel::Text(text) => match parse_uri(text) {
            Some(parsed) => Ok(Some(parsed)),
            None => Err(Seq::empty()),
        },
        _ => Err(Seq::empty()),
    }
}

/// Reads the items of a list of texts, up to the first that is no text.
pub open spec fn read_texts(items: Seq<JsonModel>) -> Result<Seq<Seq<char>>, PathModel>
    decreases items.len(),
{
    if items.len() == 0 {
        Ok(Seq::empty())
    } else {
        match read_texts(items.drop_last()) {
            Ok(texts) => match items.last() {
                JsonModel::Text(text) => Ok(texts.push(text)),
                _ => Err(seq![PathStepModel::Index((items.len() - 1) as nat)]),
            },
            Err(path) => Err(path),
        }
    }
}

/// Reads a list of texts that may be absent.
pub open spec fn read_text_list(value: JsonModel) -> Result<Option<Seq<Seq<char>>>, PathModel> {
    match value {
        JsonModel::Null => Ok(None),
        JsonModel::Array(items) => match read_texts(items) {
            Ok(texts) => Ok(Some(texts)),
            Err(path) => Err(path),
        },
        _ => Err(Seq::empty()),
    }
}

/// An entity that is written as, and read from, the fields of an object.
pub trait Document: DeepView + Sized {
    /// The entity without any field.
    spec fn blank() -> Self::V;

    /// The entity after one more field of its document was read: a field that
    /// the schema models goes to its place, any other is kept as it is.
    spec fn absorb(model: Self::V, key: Seq<char>, value: JsonModel) -> Result<
        Self::V,
        PathModel,
    >;

    /// The fields of the entity's document: the present fields that the schema
    /// models, in the order of the schema, followed by the others.
    spec fn fields_of(model: Self::V) -> PropertyModel;

    /// Whether the entity is one that reading a document can give: what is kept
    /// beside the modelled fields has names of its own, each once, and every
    /// resource identifier is the text of a parsed one.
    spec fn canonical(model: Self::V) -> bool;

    /// Whether the schema models a field of that name for the entity.
    spec fn knows(key: Seq<char>) -> bool;

    /// What the entity keeps beside its modelled fields.
    spec fn extras(model: Self::V) -> PropertyModel;

    /// The entity with something else kept beside its modelled fields.
    spec fn with_extras(model: Self::V, extras: PropertyModel) -> Self::V;

    /// The entity without any field.
    fn start() -> (r: Self)
        ensures
            r.deep_view() == Self::blank(),
    ;

    /// Reads one more field of the entity's document.
    fn take(&mut self, key: &str, value: &JsonValue) -> (r: Result<(), DocumentError>)
        ensures
            match Self::absorb(old(self).deep_view(), key@, value.deep_view()) {
                Ok(model) => r is Ok && final(self).deep_view() == model,
                Err(path) => r matches Err(error) && error.deep_view() == path,
            },
    ;

    /// The fields of the entity's document.
    fn to_fields(&self) -> (r: PropertyMap)
        ensures
            r.deep_view() == Self::fields_of(self.deep_view()),
    ;

    /// Reading a field that the schema models leaves alone what is kept beside
    /// the modelled fields; any other field is set there and nothing else changes.
    proof fn lemma_absorb_extras(model: Self::V, key: Seq<char>, value: JsonModel)
        ensures
            Self::extras(Self::blank()) == Seq::<(Seq<char>, JsonModel)>::empty(),
            Self::knows(key) ==> (Self::absorb(model, key, value) matches Ok(next)
                ==> Self::extras(next) == Self::extras(model)),
            !Self::knows(key) ==> Self::absorb(model, key, value) == Ok::<Self::V, PathModel>(
                Self::with_extras(model, put(Self::extras(model), key, value)),
            ),
    ;

    /// What is kept beside the modelled fields can be exchanged without touching
    /// the modelled fields.
    proof fn lemma_with_extras(model: Self::V, first: PropertyModel, second: PropertyModel)
        ensures
            Self::extras(Self::with_extras(model, first)) == first,
            Self::with_extras(Self::with_extras(model, first), second) == Self::with_extras(
                model,
                second,
            ),
            Self::with_extras(model, Self::extras(model)) == model,
    ;
}

/// Reads an entity from the fields of its document, field by field, up to the
/// first field of the wrong kind.
pub open spec fn read_fields<T: Document>(fields: PropertyModel) -> Result<T::V, PathModel>
    decreases fields.len(),
{
    if fields.len() == 0 {
        Ok(T::blank())
    } else {
        match read_fields::<T>(fields.drop_last()) {
            Ok(model) => T::absorb(model, fields.last().0, fields.last().1),
            Err(path) => Err(path),
        }
    }
}

/// Reads an entity that may be absent.
pub open spec fn read_entity<T: Document>(value: JsonModel) -> Result<Option<T::V>, PathModel> {
    match value {
        JsonModel::Null => Ok(None),
        JsonModel::Object(fields) => match read_fields::<T>(fields) {
            Ok(model) => Ok(Some(model)),
            Err(path) => Err(path),
        },
        _ => Err(Seq::empty()),
    }
}

/// Reads the items of a list of entities, up to the first that is no entity.
pub open spec fn read_each<T: Document>(items: Seq<JsonModel>) -> Result<Seq<T::V>, PathModel>
    decreases items.len(),
{
    if items.len() == 0 {
        Ok(Seq::empty())
    } else {
        match read_each::<T>(items.drop_last()) {
            Ok(models) => match items.last() {
                JsonModel::Object(fields) => match at(
                    (items.len() - 1) as nat,
                    read_fields::<T>(fields),
                ) {
                    Ok(model) => Ok(models.push(model)),
                    Err(path) => Err(path),
                },
                _ => Err(seq![PathStepModel::Index((items.len() - 1) as nat)]),
            },
            Err(path) => Err(path),
        }
    }
}

/// Reads a list of entities that may be absent.
pub open spec fn read_entities<T: Document>(value: JsonModel) -> Result<
    Option<Seq<T::V>>,
    PathModel,
> {
    match value {
        JsonModel::Null => Ok(None),
        JsonModel::Array(items) => match read_each::<T>(items) {
            Ok(models) => Ok(Some(models)),
            Err(path) => Err(path),
        },
        _ => Err(Seq::empty()),
    }
}

/// The document of an entity.
pub open spec fn document_of<T: Document>(model: T::V) -> JsonModel {
    JsonModel::Object(T::fields_of(model))
}

/// Reads an entity from its document.
pub open spec fn read_document<T: Document>(document: JsonModel) -> Result<T::V, PathModel> {
    match document {
        JsonModel::Object(fields) => read_fields::<T>(fields),
        _ => Err(Seq::empty()),
    }
}

/// Whether the document of an entity reads back as the entity.
pub open spec fn reads_back<T: Document>(model: T::V) -> bool {
    read_document::<T>(document_of::<T>(model)) == Ok::<T::V, PathModel>(model)
}

/// Whether what an entity keeps beside its modelled fields is written behind
/// them, as it is.
pub open spec fn writes_extras_last<T: Document>(model: T::V) -> bool {
    T::fields_of(model) == T::fields_of(T::with_extras(model, Seq::empty())) + T::extras(model)
}

/// The documents of the entities of a list.
pub open spec fn documents_of<T: Document>(models: Seq<T::V>) -> Seq<JsonModel> {
    models.map_values(|model: T::V| document_of::<T>(model))
}

/// What is written for a text that may be absent.
pub open spec fn written_text(value: Option<Seq<char>>) -> Option<JsonModel> {
    match value {
        Some(text) => Some(JsonModel::Text(text)),
        None => None,
    }
}

/// What is written for a list of texts that may be absent.
pub open spec fn written_text_list(value: Option<Seq<Seq<char>>>) -> Option<JsonModel> {
    match value {
        Some(texts) => Some(JsonModel::Array(text_values(texts))),
        None => None,
    }
}

/// What is written for an entity that may be absent.
pub open spec fn written_entity<T: Document>(value: Option<T::V>) -> Option<JsonModel> {
    match value {
        Some(model) => Some(document_of::<T>(model)),
        None => None,
    }
}

/// What is written for a list of entities that may be absent.
pub open spec fn written_entities<T: Document>(value: Option<Seq<T::V>>) -> Option<JsonModel> {
    match value {
        Some(models) => Some(JsonModel::Array(documents_of::<T>(models))),
        None => None,
    }
}

/// `fields` with the field `key` set where there is a value to write.
pub open spec fn put_present(fields: PropertyModel, key: Seq<char>, value: Option<JsonModel>)
    -> PropertyModel {
    match value {
        Some(written) => put(fields, key, written),
        None => fields,
    }
}

/// `fields` with the text field `key` set where `value` is present.
pub open spec fn put_text(fields: PropertyModel, key: Seq<char>, value: Option<Seq<char>>)
    -> PropertyModel {
    put_present(fields, key, written_text(value))
}

/// `fields` with the list of texts `key` set where `value` is present.
pub open spec fn put_text_list(
    fields: PropertyModel,
    key: Seq<char>,
    value: Option<Seq<Seq<char>>>,
) -> PropertyModel {
    put_present(fields, key, written_text_list(value))
}

/// `fields` with the entity `key` set where `value` is present.
pub open spec fn put_entity<T: Document>(
    fields: PropertyModel,
    key: Seq<char>,
    value: Option<T::V>,
) -> PropertyModel {
    put_present(fields, key, written_entity::<T>(value))
}

/// `fields` with the list of entities `key` set where `value` is present.
pub open spec fn put_entities<T: Document>(
    fields: PropertyModel,
    key: Seq<char>,
    value: Option<Seq<T::V>>,
) -> PropertyModel {
    put_present(fields, key, written_entities::<T>(value))
}

/// `fields` with each field of `more` set, in order.
pub open spec fn put_all(fields: PropertyModel, more: PropertyModel) -> PropertyModel
    decreases more.len(),
{
    if more.len() == 0 {
        fields
    } else {
        put(put_all(fields, more.drop_last()), more.last().0, more.last().1)
    }
}

/// What a reading gave, as a model.
pub open spec fn outcome<A: DeepView>(result: Result<A, DocumentError>) -> Result<A::V, PathModel> {
    match result {
        Ok(value) => Ok(value.deep_view()),
        Err(error) => Err(error.deep_view()),
    }
}

/// What is kept beside the modelled fields has names of its own, each once.
pub open spec fn extras_apart<T: Document>(extras: PropertyModel) -> bool {
    &&& keys_unique(extras)
    &&& forall|i: int| 0 <= i < extras.len() ==> !T::knows(#[trigger] extras[i].0)
}

/// A resource identifier that may be absent is the text of a parsed one.
pub open spec fn uri_is_canonical(uri: Option<Seq<char>>) -> bool {
    uri matches Some(text) ==> is_uri_text(text)
}

/// An entity that may be absent is canonical.
pub open spec fn entity_is_canonical<T: Document>(entity: Option<T::V>) -> bool {
    entity matches Some(model) ==> T::canonical(model)
}

/// The entities of a list that may be absent are canonical.
pub open spec fn entities_are_canonical<T: Document>(entities: Option<Seq<T::V>>) -> bool {
    entities matches Some(models) ==> forall|i: int|
        0 <= i < models.len() ==> T::canonical(#[trigger] models[i])
}

fn wrong_kind() -> (r: DocumentError)
    ensures
        r.deep_view() == Seq::<PathStepModel>::empty(),
{
    let r = DocumentError { path: Vec::new() };
    assert(r.deep_view() =~= Seq::<PathStepModel>::empty());
    r
}

fn seen_from(step: PathStep, error: DocumentError) -> (r: DocumentError)
    ensures
        r.deep_view() == seq![step.deep_view()] + error.deep_view(),
{
    let mut path = error.path;
    let ghost before = path.deep_view();
    path.insert(0, step);
    let r = DocumentError { path };
    assert(r.deep_view() =~= seq![step.deep_view()] + before);
    r
}

fn below<A: DeepView>(key: &str, found: Result<A, DocumentError>) -> (r: Result<A, DocumentError>)
    ensures
        outcome(r) == under(key@, outcome(found)),
{
    match found {
        Ok(value) => Ok(value),
        Err(error) => Err(seen_from(PathStep::Field(String::from_str(key)), error)),
    }
}

fn take_text(value: &JsonValue) -> (r: Result<Option<String>, DocumentError>)
    ensures
        outcome(r) == read_text(value.deep_view()),
{
    match value {
        JsonValue::Null => Ok(None),
        JsonValue::Text(text) => Ok(Some(text.clone())),
        _ => Err(wrong_kind()),
    }
}

fn take_uri(value: &JsonValue) -> (r: Result<Option<Uri>, DocumentError>)
    ensures
        outcome(r) == read_uri(value.deep_view()),
{
    match value {
        JsonValue::Null => Ok(None),
        JsonValue::Text(text) => match Uri::parse(text.as_str()) {
            Some(uri) => Ok(Some(uri)),
            None => Err(wrong_kind()),
        },
        _ => Err(wrong_kind()),
    }
}

fn take_text_list(value: &JsonValue) -> (r: Result<Option<Vec<String>>, DocumentError>)
    ensures
        outcome(r) == read_text_list(value.deep_view()),
{
    match value {
        JsonValue::Null => Ok(None),
        JsonValue::Array(items) => {
            let ghost all = value.deep_view()->Array_0;
            let mut texts: Vec<String> = Vec::new();
            let mut i: usize = 0;
            assert(texts.deep_view() =~= Seq::<Seq<char>>::empty());
            while i < items.len()
                invariant
                    i <= items.len() == all.len(),
                    value.deep_view() == JsonModel::Array(all),
                    forall|j: int| 0 <= j < all.len() ==> all[j] == items[j].deep_view(),
                    read_texts(all.take(i as int)) == Ok::<Seq<Seq<char>>, PathModel>(
                        texts.deep_view(),
                    ),
                decreases items.len() - i,
            {
                let ghost so_far = texts.deep_view();
                assert(all.take(i + 1).drop_last() == all.take(i as int));
                match &items[i] {
                    JsonValue::Text(text) => {
                        texts.push(text.clone());
                        assert(texts.deep_view() =~= so_far.push(text@));
                    },
                    _ => {
                        proof {
                            lemma_read_texts_fails(all, i as int);
                        }
                        let step = DocumentError { path: vec![PathStep::Index(i)] };
                        assert(step.deep_view() =~= seq![PathStepModel::Index(i as nat)]);
                        return Err(step);
                    },
                }
                i += 1;
            }
            assert(all.take(all.len() as int) == all);
            Ok(Some(texts))
        },
        _ => Err(wrong_kind()),
    }
}

/// Once the reading of a list of texts has failed, it fails the same way
/// whatever follows.
pub proof fn lemma_read_texts_fails(items: Seq<JsonModel>, upto: int)
    requires
        0 <= upto < items.len(),
        read_texts(items.take(upto + 1)) is Err,
    ensures
        read_texts(items) == read_texts(items.take(upto + 1)),
    decreases items.len(),
{
    if upto + 1 < items.len() {
        let shorter = items.drop_last();
        assert(shorter.take(upto + 1) == items.take(upto + 1));
        lemma_read_texts_fails(shorter, upto);
    } else {
        assert(items.take(upto + 1) == items);
    }
}

/// Once the reading of a list of entities has failed, it fails the same way
/// whatever follows.
pub proof fn lemma_read_each_fails<T: Document>(items: Seq<JsonModel>, upto: int)
    requires
        0 <= upto < items.len(),
        read_each::<T>(items.take(upto + 1)) is Err,
    ensures
        read_each::<T>(items) == read_each::<T>(items.take(upto + 1)),
    decreases items.len(),
{
    if upto + 1 < items.len() {
        let shorter = items.drop_last();
        assert(shorter.take(upto + 1) == items.take(upto + 1));
        lemma_read_each_fails::<T>(shorter, upto);
    } else {
        assert(items.take(upto + 1) == items);
    }
}

/// Once the reading of the fields of an entity has failed, it fails the same
/// way whatever follows.
pub proof fn lemma_read_fields_fails<T: Document>(fields: PropertyModel, upto: int)
    requires
        0 <= upto < fields.len(),
        read_fields::<T>(fields.take(upto + 1)) is Err,
    ensures
        read_fields::<T>(fields) == read_fields::<T>(fields.take(upto + 1)),
    decreases fields.len(),
{
    if upto + 1 < fields.len() {
        let shorter = fields.drop_last();
        assert(shorter.take(upto + 1) == fields.take(upto + 1));
        lemma_read_fields_fails::<T>(shorter, upto);
    } else {
        assert(fields.take(upto + 1) == fields);
    }
}

/// Reads an entity from the fields of its document.
pub fn from_fields<T: Document>(fields: &PropertyMap) -> (r: Result<T, DocumentError>)
    ensures
        outcome(r) == read_fields::<T>(fields.deep_view()),
{
    let ghost all = fields.deep_view();
    let mut entity = T::start();
    let n = fields.len();
    let mut i: usize = 0;
    assert(all.take(0) =~= Seq::<(Seq<char>, JsonModel)>::empty());
    loop
        invariant
            i <= all.len() == n,
            all == fields.deep_view(),
            read_fields::<T>(all.take(i as int)) == Ok::<T::V, PathModel>(entity.deep_view()),
        ensures
            i == all.len(),
            read_fields::<T>(all.take(i as int)) == Ok::<T::V, PathModel>(entity.deep_view()),
        decreases all.len() - i,
    {
        let (key, value) = match fields.entry(i) {
            Some(entry) => entry,
            None => {
                break;
            },
        };
        assert(all.take(i + 1).drop_last() == all.take(i as int));
        match entity.take(key, value) {
            Ok(()) => {},
            Err(error) => {
                proof {
                    lemma_read_fields_fails::<T>(all, i as int);
                }
                return Err(error);
            },
        }
        i += 1;
    }
    assert(all.take(all.len() as int) == all);
    Ok(entity)
}

/// Reads an entity from its document.
pub fn from_document<T: Document>(document: &JsonValue) -> (r: Result<T, DocumentError>)
    ensures
        outcome(r) == read_document::<T>(document.deep_view()),
{
    match document {
        JsonValue::Object(fields) => from_fields(fields),
        _ => Err(wrong_kind()),
    }
}

/// Writes an entity as its document.
pub fn to_document<T: Document>(entity: &T) -> (r: JsonValue)
    ensures
        r.deep_view() == document_of::<T>(entity.deep_view()),
{
    JsonValue::Object(entity.to_fields())
}

fn take_entity<T: Document>(value: &JsonValue) -> (r: Result<Option<T>, DocumentError>)
    ensures
        outcome(r) == read_entity::<T>(value.deep_view()),
{
    match value {
        JsonValue::Null => Ok(None),
        JsonValue::Object(fields) => match from_fields::<T>(fields) {
            Ok(entity) => Ok(Some(entity)),
            Err(error) => Err(error),
        },
        _ => Err(wrong_kind()),
    }
}

fn take_entities<T: Document>(value: &JsonValue) -> (r: Result<Option<Vec<T>>, DocumentError>)
    ensures
        outcome(r) == read_entities::<T>(value.deep_view()),
{
    match value {
        JsonValue::Null => Ok(None),
        JsonValue::Array(items) => {
            let ghost all = value.deep_view()->Array_0;
            let mut entities: Vec<T> = Vec::new();
            let mut i: usize = 0;
            assert(entities.deep_view() =~= Seq::<T::V>::empty());
            while i < items.len()
                invariant
                    i <= items.len() == all.len(),
                    value.deep_view() == JsonModel::Array(all),
                    forall|j: int| 0 <= j < all.len() ==> all[j] == items[j].deep_view(),
                    read_each::<T>(all.take(i as int)) == Ok::<Seq<T::V>, PathModel>(
                        entities.deep_view(),
                    ),
                decreases items.len() - i,
            {
                let ghost so_far = entities.deep_view();
                assert(all.take(i + 1).drop_last() == all.take(i as int));
                match &items[i] {
                    JsonValue::Object(fields) => match from_fields::<T>(fields) {
                        Ok(entity) => {
                            let ghost model = entity.deep_view();
                            entities.push(entity);
                            assert(entities.deep_view() =~= so_far.push(model));
                        },
                        Err(error) => {
                            proof {
                                lemma_read_each_fails::<T>(all, i as int);
                            }
                            return Err(seen_from(PathStep::Index(i), error));
                        },
                    },
                    _ => {
                        proof {
                            lemma_read_each_fails::<T>(all, i as int);
                        }
                        let step = DocumentError { path: vec![PathStep::Index(i)] };
                        assert(step.deep_view() =~= seq![PathStepModel::Index(i as nat)]);
                        return Err(step);
                    },
                }
                i += 1;
            }
            assert(all.take(all.len() as int) == all);
            Ok(Some(entities))
        },
        _ => Err(wrong_kind()),
    }
}

fn take_date(value: &JsonValue) -> (r: Result<Option<Iso8601Date>, DocumentError>)
    ensures
        outcome(r) == read_text(value.deep_view()),
{
    match value {
        JsonValue::Null => Ok(None),
        JsonValue::Text(text) => Ok(Some(Iso8601Date(text.clone()))),
        _ => Err(wrong_kind()),
    }
}

/// Reads the text field `key` from `value`.
pub fn text_field(key: &str, value: &JsonValue) -> (r: Result<Option<String>, DocumentError>)
    ensures
        outcome(r) == under(key@, read_text(value.deep_view())),
{
    below(key, take_text(value))
}

/// Reads the date field `key` from `value`.
pub fn date_field(key: &str, value: &JsonValue) -> (r: Result<Option<Iso8601Date>, DocumentError>)
    ensures
        outcome(r) == under(key@, read_text(value.deep_view())),
{
    below(key, take_date(value))
}

/// Reads the resource identifier `key` from `value`.
pub fn uri_field(key: &str, value: &JsonValue) -> (r: Result<Option<Uri>, DocumentError>)
    ensures
        outcome(r) == under(key@, read_uri(value.deep_view())),
{
    below(key, take_uri(value))
}

/// Reads the list of texts `key` from `value`.
pub fn text_list_field(key: &str, value: &JsonValue) -> (r: Result<
    Option<Vec<String>>,
    DocumentError,
>)
    ensures
        outcome(r) == under(key@, read_text_list(value.deep_view())),
{
    below(key, take_text_list(value))
}

/// Reads the entity `key` from `value`.
pub fn entity_field<T: Document>(key: &str, value: &JsonValue) -> (r: Result<
    Option<T>,
    DocumentError,
>)
    ensures
        outcome(r) == under(key@, read_entity::<T>(value.deep_view())),
{
    below(key, take_entity::<T>(value))
}

/// Reads the list of entities `key` from `value`.
pub fn entities_field<T: Document>(key: &str, value: &JsonValue) -> (r: Result<
    Option<Vec<T>>,
    DocumentError,
>)
    ensures
        outcome(r) == under(key@, read_entities::<T>(value.deep_view())),
{
    below(key, take_entities::<T>(value))
}

/// Sets the text field `key` where `value` is present.
pub fn insert_text(fields: &mut PropertyMap, key: &str, value: &Option<String>)
    ensures
        final(fields).deep_view() == put_text(old(fields).deep_view(), key@, value.deep_view()),
{
    match value {
        Some(text) => {
            fields.insert(String::from_str(key), JsonValue::Text(text.clone()));
        },
        None => {},
    }
}

/// Sets the date field `key` where `value` is present.
pub fn insert_date(fields: &mut PropertyMap, key: &str, value: &Option<Iso8601Date>)
    ensures
        final(fields).deep_view() == put_text(old(fields).deep_view(), key@, value.deep_view()),
{
    match value {
        Some(date) => {
            fields.insert(String::from_str(key), JsonValue::Text(date.0.clone()));
        },
        None => {},
    }
}

/// Sets the resource identifier `key` where `value` is present.
pub fn insert_uri(fields: &mut PropertyMap, key: &str, value: &Option<Uri>)
    ensures
        final(fields).deep_view() == put_text(old(fields).deep_view(), key@, value.deep_view()),
{
    match value {
        Some(uri) => {
            fields.insert(String::from_str(key), JsonValue::text(uri.as_str()));
        },
        None => {},
    }
}

/// Sets the list of texts `key` where `value` is present.
pub fn insert_text_list(fields: &mut PropertyMap, key: &str, value: &Option<Vec<String>>)
    ensures
        final(fields).deep_view() == put_text_list(
            old(fields).deep_view(),
            key@,
            value.deep_view(),
        ),
{
    match value {
        Some(texts) => {
            fields.insert(String::from_str(key), JsonValue::text_array(texts));
        },
        None => {},
    }
}

/// Sets the entity `key` where `value` is present.
pub fn insert_entity<T: Document>(fields: &mut PropertyMap, key: &str, value: &Option<T>)
    ensures
        final(fields).deep_view() == put_entity::<T>(
            old(fields).deep_view(),
            key@,
            value.deep_view(),
        ),
{
    match value {
        Some(entity) => {
            fields.insert(String::from_str(key), to_document(entity));
        },
        None => {},
    }
}

/// Sets the list of entities `key` where `value` is present.
pub fn insert_entities<T: Document>(fields: &mut PropertyMap, key: &str, value: &Option<Vec<T>>)
    ensures
        final(fields).deep_view() == put_entities::<T>(
            old(fields).deep_view(),
            key@,
            value.deep_view(),
        ),
{
    match value {
        Some(entities) => {
            let mut documents: Vec<JsonValue> = Vec::new();
            let mut i: usize = 0;
            while i < entities.len()
                invariant
                    i <= entities.len(),
                    documents.len() == i,
                    forall|j: int|
                        0 <= j < i ==> documents[j].deep_view() == document_of::<T>(
                            entities[j].deep_view(),
                        ),
                decreases entities.len() - i,
            {
                documents.push(to_document(&entities[i]));
                i += 1;
            }
            let list = JsonValue::Array(documents);
            assert(list.deep_view()->Array_0 =~= documents_of::<T>(entities.deep_view()));
            fields.insert(String::from_str(key), list);
        },
        None => {},
    }
}

/// Sets each field of `more`, in order.
pub fn insert_all(fields: &mut PropertyMap, more: &PropertyMap)
    ensures
        final(fields).deep_view() == put_all(old(fields).deep_view(), more.deep_view()),
{
    let ghost all = more.deep_view();
    let n = more.len();
    let mut i: usize = 0;
    assert(all.take(0) =~= Seq::<(Seq<char>, JsonModel)>::empty());
    loop
        invariant
            i <= all.len() == n,
            all == more.deep_view(),
            fields.deep_view() == put_all(old(fields).deep_view(), all.take(i as int)),
        ensures
            i == all.len(),
            fields.deep_view() == put_all(old(fields).deep_view(), all.take(i as int)),
        decreases all.len() - i,
    {
        let (key, value) = match more.entry(i) {
            Some(entry) => entry,
            None => {
                break;
            },
        };
        assert(all.take(i + 1).drop_last() == all.take(i as int));
        fields.insert(String::from_str(key), value.clone());
        i += 1;
    }
    assert(all.take(all.len() as int) == all);
}

/// Writing one more field under a name that is new, and reading: the field is
/// read last, into the entity that the fields before it gave.
pub proof fn lemma_read_next<T: Document>(
    fields: PropertyModel,
    before: T::V,
    key: Seq<char>,
    value: Option<JsonModel>,
    after: T::V,
    earlier: spec_fn(Seq<char>) -> bool,
)
    requires
        read_fields::<T>(fields) == Ok::<T::V, PathModel>(before),
        forall|other: Seq<char>| #[trigger] has_key(fields, other) ==> earlier(other),
        !earlier(key),
        value matches Some(written) ==> T::absorb(before, key, written) == Ok::<T::V, PathModel>(
            after,
        ),
        value is None ==> after == before,
    ensures
        read_fields::<T>(put_present(fields, key, value)) == Ok::<T::V, PathModel>(after),
        forall|other: Seq<char>| #[trigger]
            has_key(put_present(fields, key, value), other) ==> earlier(other) || other == key,
{
    if let Some(written) = value {
        let next = fields.push((key, written));
        assert(next.drop_last() == fields);
        assert forall|other: Seq<char>| #[trigger] has_key(next, other) implies earlier(other)
            || other == key by {
            let i = choose|i: int| 0 <= i < next.len() && (#[trigger] next[i]).0 == other;
            if i < fields.len() {
                assert(fields[i].0 == other);
                assert(has_key(fields, other));
            }
        }
    }
}

/// Writing, behind fields that the schema models, fields that it does not model,
/// and reading: they are read last, and kept as they are.
pub proof fn lemma_read_extras<T: Document>(
    fields: PropertyModel,
    before: T::V,
    extras: PropertyModel,
)
    requires
        read_fields::<T>(fields) == Ok::<T::V, PathModel>(before),
        T::extras(before) == Seq::<(Seq<char>, JsonModel)>::empty(),
        forall|key: Seq<char>| #[trigger] has_key(fields, key) ==> T::knows(key),
        extras_apart::<T>(extras),
    ensures
        put_all(fields, extras) == fields + extras,
        read_fields::<T>(put_all(fields, extras)) == Ok::<T::V, PathModel>(
            T::with_extras(before, extras),
        ),
    decreases extras.len(),
{
    if extras.len() > 0 {
        let earlier = extras.drop_last();
        let entry = extras.last();
        assert(extras[extras.len() - 1] == entry);
        assert forall|i: int| 0 <= i < earlier.len() implies #[trigger] earlier[i]
            == extras[i] by {}
        assert(extras_apart::<T>(earlier));
        lemma_read_extras::<T>(fields, before, earlier);
        let so_far = fields + earlier;
        let kept = T::with_extras(before, earlier);
        assert(!has_key(so_far, entry.0)) by {
            if has_key(so_far, entry.0) {
                let i = choose|i: int| 0 <= i < so_far.len() && (#[trigger] so_far[i]).0 == entry.0;
                if i < fields.len() {
                    assert(fields[i].0 == entry.0);
                    assert(has_key(fields, entry.0));
                } else {
                    assert(earlier[i - fields.len()] == extras[i - fields.len()]);
                }
            }
        }
        assert(!has_key(earlier, entry.0)) by {
            if has_key(earlier, entry.0) {
                let i = choose|i: int| 0 <= i < earlier.len() && (#[trigger] earlier[i]).0
                    == entry.0;
                assert(earlier[i] == extras[i]);
            }
        }
        assert(so_far.push(entry) =~= fields + extras);
        assert(so_far.push(entry).drop_last() == so_far);
        assert(earlier.push(entry) =~= extras);
        T::lemma_absorb_extras(kept, entry.0, entry.1);
        T::lemma_with_extras(before, earlier, extras);
    } else {
        assert(fields + extras =~= fields);
        assert(extras =~= Seq::<(Seq<char>, JsonModel)>::empty());
        T::lemma_with_extras(before, extras, extras);
    }
}

/// Setting a field that the schema does not model, among fields that are apart
/// from the modelled ones, leaves them apart.
pub proof fn lemma_put_apart<T: Document>(fields: PropertyModel, key: Seq<char>, value: JsonModel)
    requires
        extras_apart::<T>(fields),
        !T::knows(key),
    ensures
        extras_apart::<T>(put(fields, key, value)),
{
    let next = put(fields, key, value);
    if has_key(fields, key) {
        let place = key_place(fields, key);
        assert forall|i: int| 0 <= i < next.len() implies (#[trigger] next[i]).0
            == fields[i].0 by {}
        assert forall|i: int, j: int| 0 <= i < j < next.len() implies (#[trigger] next[i]).0 != (
        #[trigger] next[j]).0 by {
            assert(fields[i].0 != fields[j].0);
        }
    } else {
        assert forall|i: int, j: int| 0 <= i < j < next.len() implies (#[trigger] next[i]).0 != (
        #[trigger] next[j]).0 by {
            if j < fields.len() {
                assert(fields[i].0 != fields[j].0);
            } else {
                assert(fields[i].0 != key);
            }
        }
        assert forall|i: int| 0 <= i < next.len() implies !T::knows(#[trigger] next[i].0) by {
            if i < fields.len() {
                assert(next[i] == fields[i]);
            }
        }
    }
}

/// Setting a text that may be absent under a name that the schema does not
/// model, among fields that are apart from the modelled ones, leaves them apart.
pub proof fn lemma_put_text_apart<T: Document>(
    fields: PropertyModel,
    key: Seq<char>,
    value: Option<Seq<char>>,
)
    requires
        extras_apart::<T>(fields),
        !T::knows(key),
    ensures
        extras_apart::<T>(put_text(fields, key, value)),
{
    if let Some(text) = value {
        lemma_put_apart::<T>(fields, key, JsonModel::Text(text));
    }
}

/// The test that keeps the fields that the schema does not model.
pub open spec fn unknown<T: Document>() -> spec_fn((Seq<char>, JsonModel)) -> bool {
    |entry: (Seq<char>, JsonModel)| !T::knows(entry.0)
}

/// Reading keeps every field that the schema does not model: as it is, at the
/// level at which it stood, and in the order of the document.
pub proof fn lemma_unknown_fields_are_kept<T: Document>(fields: PropertyModel)
    requires
        keys_unique(fields),
        read_fields::<T>(fields) is Ok,
    ensures
        T::extras(read_fields::<T>(fields)->Ok_0) == fields.filter(unknown::<T>()),
    decreases fields.len(),
{
    reveal(Seq::filter);
    if fields.len() == 0 {
        T::lemma_absorb_extras(T::blank(), Seq::empty(), JsonModel::Null);
    } else {
        let earlier = fields.drop_last();
        let entry = fields.last();
        assert forall|i: int| 0 <= i < earlier.len() implies #[trigger] earlier[i]
            == fields[i] by {}
        assert(keys_unique(earlier));
        lemma_unknown_fields_are_kept::<T>(earlier);
        let before = read_fields::<T>(earlier)->Ok_0;
        T::lemma_absorb_extras(before, entry.0, entry.1);
        if !T::knows(entry.0) {
            let kept = earlier.filter(unknown::<T>());
            T::lemma_with_extras(before, put(kept, entry.0, entry.1), kept);
            assert(!has_key(kept, entry.0)) by {
                if has_key(kept, entry.0) {
                    let i = choose|i: int| 0 <= i < kept.len() && (#[trigger] kept[i]).0
                        == entry.0;
                    earlier.lemma_filter_contains_rev(unknown::<T>(), kept[i]);
                    let j = choose|j: int| 0 <= j < earlier.len() && earlier[j] == kept[i];
                    assert(fields[j] == earlier[j]);
                    assert(fields[fields.len() - 1] == entry);
                }
            }
        }
    }
}

/// A list of texts that was written reads back as itself.
pub proof fn lemma_read_texts_round_trip(texts: Seq<Seq<char>>)
    ensures
        read_texts(text_values(texts)) == Ok::<Seq<Seq<char>>, PathModel>(texts),
    decreases texts.len(),
{
    if texts.len() > 0 {
        lemma_read_texts_round_trip(texts.drop_last());
        assert(text_values(texts).drop_last() == text_values(texts.drop_last()));
        assert(read_texts(text_values(texts))->Ok_0 =~= texts);
    } else {
        assert(texts =~= Seq::<Seq<char>>::empty());
    }
}

/// A list of entities that was written reads back as itself, where each of
/// them does.
pub proof fn lemma_read_each_round_trip<T: Document>(models: Seq<T::V>)
    requires
        forall|i: int| 0 <= i < models.len() ==> reads_back::<T>(#[trigger] models[i]),
    ensures
        read_each::<T>(documents_of::<T>(models)) == Ok::<Seq<T::V>, PathModel>(models),
    decreases models.len(),
{
    if models.len() > 0 {
        let shorter = models.drop_last();
        assert forall|i: int| 0 <= i < shorter.len() implies reads_back::<T>(
            #[trigger] shorter[i],
        ) by {
            assert(shorter[i] == models[i]);
        }
        lemma_read_each_round_trip::<T>(shorter);
        assert(documents_of::<T>(models).drop_last() == documents_of::<T>(shorter));
        assert(models.last() == models[models.len() - 1]);
        assert(read_each::<T>(documents_of::<T>(models))->Ok_0 =~= models);
    } else {
        assert(models =~= Seq::<T::V>::empty());
    }
}

} // verus!
