//! The building blocks of the layout: keys, errors with their paths, numbers,
//! tuples, arrays, objects and variants.

use vstd::prelude::*;
use crate::json::{find, lemma_array_view, lemma_object_view, lookup, Json, JsonV};
use crate::scalar::Scalar;

verus! {

/// The keys of the layout: the fields of its objects and the tags of its
/// variants.
#[derive(Clone, Copy, Debug, PartialEq, Eq, Structural)]
pub enum Key {
    Name,
    SessionId,
    Vizs,
    Source,
    Widgets,
    Range,
    PlotScalar,
    ThreeDView,
    DataX,
    Primatives,
    Point,
    VizUpdate,
}

/// The text of a key, as it stands in a document.
pub open spec fn key_text(key: Key) -> Seq<char> {
    match key {
        Key::Name => "name"@,
        Key::SessionId => "session_id"@,
        Key::Vizs => "vizs"@,
        Key::Source => "source"@,
        Key::Widgets => "widgets"@,
        Key::Range => "range"@,
        Key::PlotScalar => "plot_scalar"@,
        Key::ThreeDView => "3d_view"@,
        Key::DataX => "data_x"@,
        Key::Primatives => "primatives"@,
        Key::Point => "Point"@,
        Key::VizUpdate => "VizUpdate"@,
    }
}

impl Key {
    /// The text of the key, as it stands in a document.
    pub fn as_str(&self) -> (text: &'static str)
        ensures
            text@ == key_text(*self),
    {
        match self {
            Key::Name => "name",
            Key::SessionId => "session_id",
            Key::Vizs => "vizs",
            Key::Source => "source",
            Key::Widgets => "widgets",
            Key::Range => "range",
            Key::PlotScalar => "plot_scalar",
            Key::ThreeDView => "3d_view",
            Key::DataX => "data_x",
            Key::Primatives => "primatives",
            Key::Point => "Point",
            Key::VizUpdate => "VizUpdate",
        }
    }
}

/// The length of a key's text and its first character.
pub open spec fn key_shape(key: Key) -> (nat, char) {
    match key {
        Key::Name => (4, 'n'),
        Key::SessionId => (10, 's'),
        Key::Vizs => (4, 'v'),
        Key::Source => (6, 's'),
        Key::Widgets => (7, 'w'),
        Key::Range => (5, 'r'),
        Key::PlotScalar => (11, 'p'),
        Key::ThreeDView => (7, '3'),
        Key::DataX => (6, 'd'),
        Key::Primatives => (10, 'p'),
        Key::Point => (5, 'P'),
        Key::VizUpdate => (9, 'V'),
    }
}

/// A key's text has the length and the first character of its shape.
pub proof fn lemma_key_shape(key: Key)
    ensures
        key_text(key).len() == key_shape(key).0,
        key_text(key)[0] == key_shape(key).1,
{
    match key {
        Key::Name => reveal_strlit("name"),
        Key::SessionId => reveal_strlit("session_id"),
        Key::Vizs => reveal_strlit("vizs"),
        Key::Source => reveal_strlit("source"),
        Key::Widgets => reveal_strlit("widgets"),
        Key::Range => reveal_strlit("range"),
        Key::PlotScalar => reveal_strlit("plot_scalar"),
        Key::ThreeDView => reveal_strlit("3d_view"),
        Key::DataX => reveal_strlit("data_x"),
        Key::Primatives => reveal_strlit("primatives"),
        Key::Point => reveal_strlit("Point"),
        Key::VizUpdate => reveal_strlit("VizUpdate"),
    }
}

/// One step on the way from a document's root to a value in it.
#[derive(Clone, Copy, Debug, PartialEq, Eq, Structural)]
pub enum PathStep {
    /// Into the value of this field, or the payload of this variant.
    Field(Key),
    /// Into the item at this index of an array.
    Index(usize),
}

/// Why a document is not a value of the layout.
#[derive(Clone, Copy, Debug, PartialEq, Eq, Structural)]
pub enum DecodeErrorKind {
    /// The text is not JSON.
    Syntax,
    /// An object lacks a field that must be there.
    MissingField,
    /// A value is of another JSON type than the layout asks for.
    WrongType,
    /// An array that stands for a tuple has another length than the tuple,
    /// or an object that stands for a variant has not exactly one entry.
    WrongLength,
    /// A variant's tag is none of the known ones.
    UnknownVariant,
}

/// A failed decoding: why, and the path from the root to the offending value.
#[derive(Debug, PartialEq, Eq)]
pub struct DecodeError {
    pub kind: DecodeErrorKind,
    pub path: Vec<PathStep>,
}

/// The mathematical value of a [`DecodeError`].
pub ghost struct DecodeErrorV {
    pub kind: DecodeErrorKind,
    pub path: Seq<PathStep>,
}

impl DeepView for DecodeError {
    type V = DecodeErrorV;

    open spec fn deep_view(&self) -> DecodeErrorV {
        DecodeErrorV { kind: self.kind, path: self.path@ }
    }
}

impl DecodeErrorV {
    /// An error at the value that is being looked at.
    pub open spec fn here(kind: DecodeErrorKind) -> DecodeErrorV {
        DecodeErrorV { kind, path: Seq::empty() }
    }

    /// The same error, seen from one step further out.
    pub open spec fn under(self, step: PathStep) -> DecodeErrorV {
        DecodeErrorV { kind: self.kind, path: seq![step] + self.path }
    }
}

/// The result of a decoding, seen from one step further out.
pub open spec fn under<T>(result: Result<T, DecodeErrorV>, step: PathStep) -> Result<
    T,
    DecodeErrorV,
> {
    match result {
        Ok(value) => Ok(value),
        Err(error) => Err(error.under(step)),
    }
}

/// Whether a decoding gave what the layout says: the same value, or the same
/// error.
pub open spec fn agrees<T: DeepView>(
    got: Result<T, DecodeError>,
    want: Result<T::V, DecodeErrorV>,
) -> bool {
    match got {
        Ok(value) => want == Ok::<T::V, DecodeErrorV>(value.deep_view()),
        Err(error) => want == Err::<T::V, DecodeErrorV>(error.deep_view()),
    }
}

impl DecodeError {
    /// An error at the value that is being looked at.
    pub fn here(kind: DecodeErrorKind) -> (error: DecodeError)
        ensures
            error.deep_view() == DecodeErrorV::here(kind),
    {
        DecodeError { kind, path: Vec::new() }
    }

    /// The same error, seen from one step further out.
    pub fn under(self, step: PathStep) -> (error: DecodeError)
        ensures
            error.deep_view() == self.deep_view().under(step),
    {
        let mut error = self;
        error.path.insert(0, step);
        assert(error.path@ =~= seq![step] + self.path@);
        error
    }
}

// ---------------------------------------------------------------------------
// Numbers and tuples of numbers
// ---------------------------------------------------------------------------

/// A number's document.
pub open spec fn enc_number(bits: u64) -> JsonV {
    JsonV::Number(bits)
}

/// The number that a document holds.
pub open spec fn dec_number(doc: JsonV) -> Result<u64, DecodeErrorV> {
    match doc {
        JsonV::Number(bits) => Ok(bits),
        _ => Err(DecodeErrorV::here(DecodeErrorKind::WrongType)),
    }
}

/// A text's document.
pub open spec fn enc_text(text: Seq<char>) -> JsonV {
    JsonV::Text(text)
}

/// The text that a document holds.
pub open spec fn dec_text(doc: JsonV) -> Result<Seq<char>, DecodeErrorV> {
    match doc {
        JsonV::Text(text) => Ok(text),
        _ => Err(DecodeErrorV::here(DecodeErrorKind::WrongType)),
    }
}

/// The items of a document that must be an array of `len` items.
pub open spec fn dec_tuple(doc: JsonV, len: nat) -> Result<Seq<JsonV>, DecodeErrorV> {
    match doc {
        JsonV::Array(items) => if items.len() == len {
            Ok(items)
        } else {
            Err(DecodeErrorV::here(DecodeErrorKind::WrongLength))
        },
        _ => Err(DecodeErrorV::here(DecodeErrorKind::WrongType)),
    }
}

/// The number at `index` of a tuple's items.
pub open spec fn dec_number_at(items: Seq<JsonV>, index: usize) -> Result<u64, DecodeErrorV> {
    under(dec_number(items[index as int]), PathStep::Index(index))
}

/// A pair's document: the array of its two numbers.
pub open spec fn enc_pair(pair: (u64, u64)) -> JsonV {
    JsonV::Array(seq![enc_number(pair.0), enc_number(pair.1)])
}

/// The pair that a document holds.
pub open spec fn dec_pair(doc: JsonV) -> Result<(u64, u64), DecodeErrorV> {
    match dec_tuple(doc, 2) {
        Err(error) => Err(error),
        Ok(items) => match dec_number_at(items, 0) {
            Err(error) => Err(error),
            Ok(first) => match dec_number_at(items, 1) {
                Err(error) => Err(error),
                Ok(second) => Ok((first, second)),
            },
        },
    }
}

/// A triple's document: the array of its three numbers.
pub open spec fn enc_triple(triple: (u64, u64, u64)) -> JsonV {
    JsonV::Array(seq![enc_number(triple.0), enc_number(triple.1), enc_number(triple.2)])
}

/// The triple that a document holds.
pub open spec fn dec_triple(doc: JsonV) -> Result<(u64, u64, u64), DecodeErrorV> {
    match dec_tuple(doc, 3) {
        Err(error) => Err(error),
        Ok(items) => match dec_number_at(items, 0) {
            Err(error) => Err(error),
            Ok(first) => match dec_number_at(items, 1) {
                Err(error) => Err(error),
                Ok(second) => match dec_number_at(items, 2) {
                    Err(error) => Err(error),
                    Ok(third) => Ok((first, second, third)),
                },
            },
        },
    }
}

pub(crate) fn encode_number(number: Scalar) -> (doc: Json)
    ensures
        doc.deep_view() == enc_number(number.bits),
{
    Json::Number(number)
}

pub(crate) fn encode_pair(pair: &(Scalar, Scalar)) -> (doc: Json)
    ensures
        doc.deep_view() == enc_pair(pair.deep_view()),
{
    let mut items: Vec<Json> = Vec::new();
    items.push(encode_number(pair.0));
    items.push(encode_number(pair.1));
    proof {
        lemma_array_view(items);
        assert(items.deep_view() =~= seq![enc_number(pair.0.bits), enc_number(pair.1.bits)]);
    }
    Json::Array(items)
}

pub(crate) fn encode_triple(triple: &(Scalar, Scalar, Scalar)) -> (doc: Json)
    ensures
        doc.deep_view() == enc_triple(triple.deep_view()),
{
    let mut items: Vec<Json> = Vec::new();
    items.push(encode_number(triple.0));
    items.push(encode_number(triple.1));
    items.push(encode_number(triple.2));
    proof {
        lemma_array_view(items);
        assert(items.deep_view() =~= seq![
            enc_number(triple.0.bits),
            enc_number(triple.1.bits),
            enc_number(triple.2.bits),
        ]);
    }
    Json::Array(items)
}

pub(crate) fn decode_tuple(doc: &Json, len: usize) -> (r: Result<&Vec<Json>, DecodeError>)
    ensures
        match r {
            Ok(items) => dec_tuple(doc.deep_view(), len as nat) == Ok::<Seq<JsonV>, DecodeErrorV>(
                items.deep_view(),
            ) && items.len() == len,
            Err(error) => dec_tuple(doc.deep_view(), len as nat) == Err::<
                Seq<JsonV>,
                DecodeErrorV,
            >(error.deep_view()),
        },
{
    match doc {
        Json::Array(items) => {
            proof {
                lemma_array_view(*items);
            }
            if items.len() == len {
                Ok(items)
            } else {
                Err(DecodeError::here(DecodeErrorKind::WrongLength))
            }
        },
        _ => Err(DecodeError::here(DecodeErrorKind::WrongType)),
    }
}

pub(crate) fn decode_number_at(items: &Vec<Json>, index: usize) -> (r: Result<Scalar, DecodeError>)
    requires
        index < items.len(),
    ensures
        agrees(r, dec_number_at(items.deep_view(), index)),
{
    match &items[index] {
        Json::Number(number) => Ok(*number),
        _ => Err(DecodeError::here(DecodeErrorKind::WrongType).under(PathStep::Index(index))),
    }
}

pub(crate) fn decode_pair(doc: &Json) -> (r: Result<(Scalar, Scalar), DecodeError>)
    ensures
        agrees(r, dec_pair(doc.deep_view())),
{
    let items = match decode_tuple(doc, 2) {
        Ok(items) => items,
        Err(error) => { return Err(error); },
    };
    let first = match decode_number_at(items, 0) {
        Ok(number) => number,
        Err(error) => { return Err(error); },
    };
    let second = match decode_number_at(items, 1) {
        Ok(number) => number,
        Err(error) => { return Err(error); },
    };
    Ok((first, second))
}

pub(crate) fn decode_triple(doc: &Json) -> (r: Result<(Scalar, Scalar, Scalar), DecodeError>)
    ensures
        agrees(r, dec_triple(doc.deep_view())),
{
    let items = match decode_tuple(doc, 3) {
        Ok(items) => items,
        Err(error) => { return Err(error); },
    };
    let first = match decode_number_at(items, 0) {
        Ok(number) => number,
        Err(error) => { return Err(error); },
    };
    let second = match decode_number_at(items, 1) {
        Ok(number) => number,
        Err(error) => { return Err(error); },
    };
    let third = match decode_number_at(items, 2) {
        Ok(number) => number,
        Err(error) => { return Err(error); },
    };
    Ok((first, second, third))
}

// ---------------------------------------------------------------------------
// Arrays
// ---------------------------------------------------------------------------

/// The documents of a sequence's items, in order.
pub open spec fn enc_all<T>(items: Seq<T>, enc: spec_fn(T) -> JsonV) -> Seq<JsonV> {
    Seq::new(items.len(), |i: int| enc(items[i]))
}

/// The items that a sequence of documents holds, in order; where some
/// document fails, the error of the first that does, under its index.
pub open spec fn dec_all<T>(
    docs: Seq<JsonV>,
    dec: spec_fn(JsonV) -> Result<T, DecodeErrorV>,
) -> Result<Seq<T>, DecodeErrorV>
    decreases docs.len(),
{
    if docs.len() == 0 {
        Ok(Seq::empty())
    } else {
        match dec_all(docs.drop_last(), dec) {
            Err(error) => Err(error),
            Ok(before) => match dec(docs.last()) {
                Err(error) => Err(error.under(PathStep::Index((docs.len() - 1) as usize))),
                Ok(item) => Ok(before.push(item)),
            },
        }
    }
}

/// The items that a document holds, which must be an array.
pub open spec fn dec_array<T>(
    doc: JsonV,
    dec: spec_fn(JsonV) -> Result<T, DecodeErrorV>,
) -> Result<Seq<T>, DecodeErrorV> {
    match doc {
        JsonV::Array(docs) => dec_all(docs, dec),
        _ => Err(DecodeErrorV::here(DecodeErrorKind::WrongType)),
    }
}

/// Decoding one document more.
pub proof fn lemma_dec_all_step<T>(
    docs: Seq<JsonV>,
    dec: spec_fn(JsonV) -> Result<T, DecodeErrorV>,
    i: int,
)
    requires
        0 <= i < docs.len(),
    ensures
        dec_all(docs.take(i + 1), dec) == match dec_all(docs.take(i), dec) {
            Err(error) => Err::<Seq<T>, DecodeErrorV>(error),
            Ok(before) => match dec(docs[i]) {
                Err(error) => Err(error.under(PathStep::Index(i as usize))),
                Ok(item) => Ok(before.push(item)),
            },
        },
{
    assert(docs.take(i + 1).drop_last() =~= docs.take(i));
    assert(docs.take(i + 1).last() == docs[i]);
}

/// An error among the first documents is the error of the whole.
pub proof fn lemma_dec_all_error_stays<T>(
    docs: Seq<JsonV>,
    dec: spec_fn(JsonV) -> Result<T, DecodeErrorV>,
    n: int,
)
    requires
        0 <= n <= docs.len(),
        dec_all(docs.take(n), dec) is Err,
    ensures
        dec_all(docs, dec) == dec_all(docs.take(n), dec),
    decreases docs.len() - n,
{
    if n < docs.len() {
        lemma_dec_all_step(docs, dec, n);
        lemma_dec_all_error_stays(docs, dec, n + 1);
    } else {
        assert(docs.take(n) =~= docs);
    }
}

/// Decoding gives back the items of a sequence that was encoded, where it
/// gives back each item.
pub proof fn lemma_dec_all_enc_all<T>(
    items: Seq<T>,
    enc: spec_fn(T) -> JsonV,
    dec: spec_fn(JsonV) -> Result<T, DecodeErrorV>,
)
    requires
        forall|item: T| #[trigger] dec(enc(item)) == Ok::<T, DecodeErrorV>(item),
    ensures
        dec_all(enc_all(items, enc), dec) == Ok::<Seq<T>, DecodeErrorV>(items),
    decreases items.len(),
{
    if items.len() == 0 {
        assert(items =~= Seq::empty());
    } else {
        lemma_dec_all_enc_all(items.drop_last(), enc, dec);
        assert(enc_all(items, enc).drop_last() =~= enc_all(items.drop_last(), enc));
        assert(enc_all(items, enc).last() == enc(items.last()));
        assert(items.drop_last().push(items.last()) =~= items);
    }
}

pub(crate) fn encode_array<T: DeepView, F: Fn(&T) -> Json>(
    items: &Vec<T>,
    encode: F,
    Ghost(enc): Ghost<spec_fn(T::V) -> JsonV>,
) -> (doc: Json)
    requires
        forall|item: &T| #[trigger] encode.requires((item,)),
        forall|item: &T, doc: Json| #[trigger]
            encode.ensures((item,), doc) ==> doc.deep_view() == enc(item.deep_view()),
    ensures
        doc.deep_view() == JsonV::Array(enc_all(items.deep_view(), enc)),
{
    let mut docs: Vec<Json> = Vec::new();
    let mut i: usize = 0;
    while i < items.len()
        invariant
            i <= items.len(),
            docs.len() == i,
            forall|item: &T| #[trigger] encode.requires((item,)),
            forall|item: &T, doc: Json| #[trigger]
                encode.ensures((item,), doc) ==> doc.deep_view() == enc(item.deep_view()),
            forall|j: int| 0 <= j < i ==> (#[trigger] docs[j]).deep_view() == enc(items[j].deep_view()),
        decreases items.len() - i,
    {
        let doc = encode(&items[i]);
        docs.push(doc);
        i = i + 1;
    }
    proof {
        lemma_array_view(docs);
        assert(docs.deep_view() =~= enc_all(items.deep_view(), enc));
    }
    Json::Array(docs)
}

pub(crate) fn decode_array<T: DeepView, F: Fn(&Json) -> Result<T, DecodeError>>(
    doc: &Json,
    decode: F,
    Ghost(dec): Ghost<spec_fn(JsonV) -> Result<T::V, DecodeErrorV>>,
) -> (r: Result<Vec<T>, DecodeError>)
    requires
        forall|doc: &Json| #[trigger] decode.requires((doc,)),
        forall|doc: &Json, r: Result<T, DecodeError>| #[trigger]
            decode.ensures((doc,), r) ==> agrees(r, dec(doc.deep_view())),
    ensures
        agrees(r, dec_array(doc.deep_view(), dec)),
{
    match doc {
        Json::Array(docs) => {
            let ghost all = docs.deep_view();
            proof {
                lemma_array_view(*docs);
            }
            let mut items: Vec<T> = Vec::new();
            let mut i: usize = 0;
            assert(items.deep_view() =~= Seq::empty());
            while i < docs.len()
                invariant
                    i <= docs.len(),
                    all == docs.deep_view(),
                    doc.deep_view() == JsonV::Array(all),
                    forall|doc: &Json| #[trigger] decode.requires((doc,)),
                    forall|doc: &Json, r: Result<T, DecodeError>| #[trigger]
                        decode.ensures((doc,), r) ==> agrees(r, dec(doc.deep_view())),
                    dec_all(all.take(i as int), dec) == Ok::<Seq<T::V>, DecodeErrorV>(
                        items.deep_view(),
                    ),
                decreases docs.len() - i,
            {
                proof {
                    lemma_dec_all_step(all, dec, i as int);
                }
                match decode(&docs[i]) {
                    Ok(item) => {
                        let ghost before = items.deep_view();
                        items.push(item);
                        assert(items.deep_view() =~= before.push(item.deep_view()));
                    },
                    Err(error) => {
                        proof {
                            lemma_dec_all_error_stays(all, dec, i + 1);
                        }
                        return Err(error.under(PathStep::Index(i)));
                    },
                }
                i = i + 1;
            }
            assert(all.take(i as int) =~= all);
            Ok(items)
        },
        _ => Err(DecodeError::here(DecodeErrorKind::WrongType)),
    }
}

/// The decoder of pairs.
pub open spec fn pair_decoder() -> spec_fn(JsonV) -> Result<(u64, u64), DecodeErrorV> {
    |doc: JsonV| dec_pair(doc)
}

/// The encoder of pairs.
pub open spec fn pair_encoder() -> spec_fn((u64, u64)) -> JsonV {
    |pair: (u64, u64)| enc_pair(pair)
}

/// The decoder of triples.
pub open spec fn triple_decoder() -> spec_fn(JsonV) -> Result<(u64, u64, u64), DecodeErrorV> {
    |doc: JsonV| dec_triple(doc)
}

/// The encoder of triples.
pub open spec fn triple_encoder() -> spec_fn((u64, u64, u64)) -> JsonV {
    |triple: (u64, u64, u64)| enc_triple(triple)
}

// ---------------------------------------------------------------------------
// Objects and variants
// ---------------------------------------------------------------------------

/// An object's entry for `key`.
pub open spec fn entry(key: Key, doc: JsonV) -> (Seq<char>, JsonV) {
    (key_text(key), doc)
}

/// The entries of a document, which must be an object.
pub open spec fn dec_object(doc: JsonV) -> Result<Seq<(Seq<char>, JsonV)>, DecodeErrorV> {
    match doc {
        JsonV::Object(fields) => Ok(fields),
        _ => Err(DecodeErrorV::here(DecodeErrorKind::WrongType)),
    }
}

/// What a field holds that must be there.
pub open spec fn dec_required<T>(
    fields: Seq<(Seq<char>, JsonV)>,
    key: Key,
    dec: spec_fn(JsonV) -> Result<T, DecodeErrorV>,
) -> Result<T, DecodeErrorV> {
    match lookup(fields, key_text(key)) {
        None => Err(DecodeErrorV::here(DecodeErrorKind::MissingField).under(PathStep::Field(key))),
        Some(doc) => under(dec(doc), PathStep::Field(key)),
    }
}

/// What a field holds that may be left out, or be `null`.
pub open spec fn dec_optional<T>(
    fields: Seq<(Seq<char>, JsonV)>,
    key: Key,
    dec: spec_fn(JsonV) -> Result<T, DecodeErrorV>,
) -> Result<Option<T>, DecodeErrorV> {
    match lookup(fields, key_text(key)) {
        None => Ok(None),
        Some(JsonV::Null) => Ok(None),
        Some(doc) => match dec(doc) {
            Ok(value) => Ok(Some(value)),
            Err(error) => Err(error.under(PathStep::Field(key))),
        },
    }
}

/// The document of a value that may be absent: `null` where it is.
pub open spec fn enc_optional<T>(value: Option<T>, enc: spec_fn(T) -> JsonV) -> JsonV {
    match value {
        None => JsonV::Null,
        Some(value) => enc(value),
    }
}

/// The tag and the payload of a document that stands for a variant: an
/// object with one entry.
pub open spec fn dec_variant(doc: JsonV) -> Result<(Seq<char>, JsonV), DecodeErrorV> {
    match doc {
        JsonV::Object(fields) => if fields.len() == 1 {
            Ok(fields[0])
        } else {
            Err(DecodeErrorV::here(DecodeErrorKind::WrongLength))
        },
        _ => Err(DecodeErrorV::here(DecodeErrorKind::WrongType)),
    }
}

/// The document of a variant: an object with the tag as its one key.
pub open spec fn enc_variant(key: Key, payload: JsonV) -> JsonV {
    JsonV::Object(seq![entry(key, payload)])
}

/// The entry at `i` is found under its key where no earlier entry has it.
pub proof fn lemma_lookup_at(fields: Seq<(Seq<char>, JsonV)>, key: Seq<char>, i: int)
    requires
        0 <= i < fields.len(),
        fields[i].0 == key,
        forall|j: int| 0 <= j < i ==> fields[j].0 != key,
    ensures
        lookup(fields, key) == Some(fields[i].1),
    decreases i,
{
    if i > 0 {
        let rest = fields.skip(1);
        assert(rest[i - 1] == fields[i]);
        assert forall|j: int| 0 <= j < i - 1 implies rest[j].0 != key by {
            assert(rest[j] == fields[j + 1]);
        }
        lemma_lookup_at(rest, key, i - 1);
    }
}

pub(crate) fn make_entry(key: Key, doc: Json) -> (r: (String, Json))
    ensures
        r.deep_view() == entry(key, doc.deep_view()),
{
    (key.as_str().to_owned(), doc)
}

pub(crate) fn encode_variant(key: Key, payload: Json) -> (doc: Json)
    ensures
        doc.deep_view() == enc_variant(key, payload.deep_view()),
{
    let mut fields: Vec<(String, Json)> = Vec::new();
    fields.push(make_entry(key, payload));
    proof {
        lemma_object_view(fields);
        assert(fields.deep_view() =~= seq![entry(key, payload.deep_view())]);
    }
    Json::Object(fields)
}

pub(crate) fn decode_object(doc: &Json) -> (r: Result<&Vec<(String, Json)>, DecodeError>)
    ensures
        match r {
            Ok(fields) => dec_object(doc.deep_view()) == Ok::<
                Seq<(Seq<char>, JsonV)>,
                DecodeErrorV,
            >(fields.deep_view()),
            Err(error) => dec_object(doc.deep_view()) == Err::<
                Seq<(Seq<char>, JsonV)>,
                DecodeErrorV,
            >(error.deep_view()),
        },
{
    match doc {
        Json::Object(fields) => {
            proof {
                lemma_object_view(*fields);
            }
            Ok(fields)
        },
        _ => Err(DecodeError::here(DecodeErrorKind::WrongType)),
    }
}

pub(crate) fn required<'a>(fields: &'a Vec<(String, Json)>, key: Key) -> (r: Result<
    &'a Json,
    DecodeError,
>)
    ensures
        match r {
            Ok(doc) => lookup(fields.deep_view(), key_text(key)) == Some(doc.deep_view()),
            Err(error) => lookup(fields.deep_view(), key_text(key)) is None && error.deep_view()
                == DecodeErrorV::here(DecodeErrorKind::MissingField).under(PathStep::Field(key)),
        },
{
    match find(fields, key.as_str()) {
        Some(doc) => Ok(doc),
        None => Err(DecodeError::here(DecodeErrorKind::MissingField).under(PathStep::Field(key))),
    }
}

pub(crate) fn optional<'a>(fields: &'a Vec<(String, Json)>, key: Key) -> (r: Option<&'a Json>)
    ensures
        match r {
            Some(doc) => lookup(fields.deep_view(), key_text(key)) == Some(doc.deep_view())
                && !(doc.deep_view() is Null),
            None => lookup(fields.deep_view(), key_text(key)) is None || lookup(
                fields.deep_view(),
                key_text(key),
            ) == Some(JsonV::Null),
        },
{
    match find(fields, key.as_str()) {
        Some(Json::Null) => None,
        Some(doc) => Some(doc),
        None => None,
    }
}

pub(crate) fn decode_variant(doc: &Json) -> (r: Result<(&String, &Json), DecodeError>)
    ensures
        match r {
            Ok(pair) => dec_variant(doc.deep_view()) == Ok::<(Seq<char>, JsonV), DecodeErrorV>(
                (pair.0@, pair.1.deep_view()),
            ),
            Err(error) => dec_variant(doc.deep_view()) == Err::<(Seq<char>, JsonV), DecodeErrorV>(
                error.deep_view(),
            ),
        },
{
    match doc {
        Json::Object(fields) => {
            proof {
                lemma_object_view(*fields);
            }
            if fields.len() == 1 {
                Ok((&fields[0].0, &fields[0].1))
            } else {
                Err(DecodeError::here(DecodeErrorKind::WrongLength))
            }
        },
        _ => Err(DecodeError::here(DecodeErrorKind::WrongType)),
    }
}

pub(crate) fn tag_is(tag: &String, key: Key) -> (r: bool)
    ensures
        r == (tag@ == key_text(key)),
{
    let wanted = key.as_str().to_owned();
    *tag == wanted
}

} // verus!
