//! The JSON layout of widgets, visualizations, recordings and messages.

use vstd::prelude::*;
use crate::codec::{
    agrees,
    dec_array,
    dec_number_at,
    dec_object,
    dec_optional,
    dec_required,
    dec_text,
    dec_tuple,
    dec_variant,
    decode_array,
    decode_number_at,
    decode_object,
    decode_pair,
    decode_triple,
    decode_tuple,
    decode_variant,
    enc_all,
    enc_number,
    enc_optional,
    enc_text,
    enc_variant,
    encode_array,
    encode_number,
    encode_pair,
    encode_triple,
    encode_variant,
    entry,
    key_text,
    make_entry,
    optional,
    pair_decoder,
    pair_encoder,
    required,
    tag_is,
    triple_decoder,
    triple_encoder,
    under,
    DecodeError,
    DecodeErrorKind,
    DecodeErrorV,
    Key,
    PathStep,
};
use crate::json::{lemma_array_view, lemma_object_view, parse, parsed_json, Json, JsonV};
use crate::recording::{Recording, RecordingV};
use crate::scalar::Scalar;
use crate::viz::{Viz, VizV};
use crate::widgets::{
    PlotScalarData,
    PlotScalarDataV,
    ThreeDPrimative,
    ThreeDPrimativeV,
    ThreeDViewData,
    ThreeDViewDataV,
    Widget,
    WidgetV,
};
use crate::ws_handler::{WSMessage, WSMessageV};

verus! {

// ---------------------------------------------------------------------------
// Scalar plots
// ---------------------------------------------------------------------------

/// The decoder of arrays of pairs.
pub open spec fn pairs_decoder() -> spec_fn(JsonV) -> Result<Seq<(u64, u64)>, DecodeErrorV> {
    |doc: JsonV| dec_array(doc, pair_decoder())
}

/// A scalar plot's document: an object whose `data_x` is the array of its
/// samples.
pub open spec fn enc_plot(data: PlotScalarDataV) -> JsonV {
    JsonV::Object(seq![entry(Key::DataX, JsonV::Array(enc_all(data.data_x, pair_encoder())))])
}

/// The scalar plot that a document holds.
pub open spec fn dec_plot(doc: JsonV) -> Result<PlotScalarDataV, DecodeErrorV> {
    match dec_object(doc) {
        Err(error) => Err(error),
        Ok(fields) => match dec_required(fields, Key::DataX, pairs_decoder()) {
            Err(error) => Err(error),
            Ok(data_x) => Ok(PlotScalarDataV { data_x }),
        },
    }
}

fn decode_pairs(doc: &Json) -> (r: Result<Vec<(Scalar, Scalar)>, DecodeError>)
    ensures
        agrees(r, pairs_decoder()(doc.deep_view())),
{
    decode_array(doc, decode_pair, Ghost(pair_decoder()))
}

/// Encodes a scalar plot.
pub fn encode_plot(data: &PlotScalarData) -> (doc: Json)
    ensures
        doc.deep_view() == enc_plot(data.deep_view()),
{
    let samples = encode_array(&data.data_x, encode_pair, Ghost(pair_encoder()));
    let mut fields: Vec<(String, Json)> = Vec::new();
    fields.push(make_entry(Key::DataX, samples));
    proof {
        lemma_object_view(fields);
        assert(fields.deep_view() =~= seq![entry(Key::DataX, samples.deep_view())]);
    }
    Json::Object(fields)
}

/// Decodes a scalar plot.
pub fn decode_plot(doc: &Json) -> (r: Result<PlotScalarData, DecodeError>)
    ensures
        agrees(r, dec_plot(doc.deep_view())),
{
    let fields = match decode_object(doc) {
        Ok(fields) => fields,
        Err(error) => { return Err(error); },
    };
    let samples = match required(fields, Key::DataX) {
        Ok(samples) => samples,
        Err(error) => { return Err(error); },
    };
    match decode_pairs(samples) {
        Ok(data_x) => Ok(PlotScalarData { data_x }),
        Err(error) => Err(error.under(PathStep::Field(Key::DataX))),
    }
}

// ---------------------------------------------------------------------------
// Spatial views
// ---------------------------------------------------------------------------

/// A primitive's document: an object with the primitive's tag as its one
/// key.
pub open spec fn enc_primative(primative: ThreeDPrimativeV) -> JsonV {
    match primative {
        ThreeDPrimativeV::Point(points) => enc_variant(
            Key::Point,
            JsonV::Array(enc_all(points, triple_encoder())),
        ),
    }
}

/// The primitive that a document holds.
pub open spec fn dec_primative(doc: JsonV) -> Result<ThreeDPrimativeV, DecodeErrorV> {
    match dec_variant(doc) {
        Err(error) => Err(error),
        Ok(tagged) => if tagged.0 == key_text(Key::Point) {
            match dec_array(tagged.1, triple_decoder()) {
                Err(error) => Err(error.under(PathStep::Field(Key::Point))),
                Ok(points) => Ok(ThreeDPrimativeV::Point(points)),
            }
        } else {
            Err(DecodeErrorV::here(DecodeErrorKind::UnknownVariant))
        },
    }
}

/// Encodes a primitive.
pub fn encode_primative(primative: &ThreeDPrimative) -> (doc: Json)
    ensures
        doc.deep_view() == enc_primative(primative.deep_view()),
{
    match primative {
        ThreeDPrimative::Point(points) => {
            let payload = encode_array(points, encode_triple, Ghost(triple_encoder()));
            encode_variant(Key::Point, payload)
        },
    }
}

/// Decodes a primitive.
pub fn decode_primative(doc: &Json) -> (r: Result<ThreeDPrimative, DecodeError>)
    ensures
        agrees(r, dec_primative(doc.deep_view())),
{
    let tagged = match decode_variant(doc) {
        Ok(tagged) => tagged,
        Err(error) => { return Err(error); },
    };
    if tag_is(tagged.0, Key::Point) {
        match decode_array(tagged.1, decode_triple, Ghost(triple_decoder())) {
            Ok(points) => Ok(ThreeDPrimative::Point(points)),
            Err(error) => Err(error.under(PathStep::Field(Key::Point))),
        }
    } else {
        Err(DecodeError::here(DecodeErrorKind::UnknownVariant))
    }
}

/// The document of a primitive with its time: the array of the two.
pub open spec fn enc_timed(timed: (u64, ThreeDPrimativeV)) -> JsonV {
    JsonV::Array(seq![enc_number(timed.0), enc_primative(timed.1)])
}

/// The primitive with its time that a document holds.
pub open spec fn dec_timed(doc: JsonV) -> Result<(u64, ThreeDPrimativeV), DecodeErrorV> {
    match dec_tuple(doc, 2) {
        Err(error) => Err(error),
        Ok(items) => match dec_number_at(items, 0) {
            Err(error) => Err(error),
            Ok(time) => match dec_primative(items[1]) {
                Err(error) => Err(error.under(PathStep::Index(1))),
                Ok(primative) => Ok((time, primative)),
            },
        },
    }
}

/// The encoder of primitives with their times.
pub open spec fn timed_encoder() -> spec_fn((u64, ThreeDPrimativeV)) -> JsonV {
    |timed: (u64, ThreeDPrimativeV)| enc_timed(timed)
}

/// The decoder of primitives with their times.
pub open spec fn timed_decoder() -> spec_fn(JsonV) -> Result<
    (u64, ThreeDPrimativeV),
    DecodeErrorV,
> {
    |doc: JsonV| dec_timed(doc)
}

/// The decoder of arrays of primitives with their times.
pub open spec fn timeline_decoder() -> spec_fn(JsonV) -> Result<
    Seq<(u64, ThreeDPrimativeV)>,
    DecodeErrorV,
> {
    |doc: JsonV| dec_array(doc, timed_decoder())
}

fn encode_timed(timed: &(Scalar, ThreeDPrimative)) -> (doc: Json)
    ensures
        doc.deep_view() == enc_timed(timed.deep_view()),
{
    let mut items: Vec<Json> = Vec::new();
    items.push(encode_number(timed.0));
    items.push(encode_primative(&timed.1));
    proof {
        lemma_array_view(items);
        assert(items.deep_view() =~= seq![
            enc_number(timed.0.bits),
            enc_primative(timed.1.deep_view()),
        ]);
    }
    Json::Array(items)
}

fn decode_timed(doc: &Json) -> (r: Result<(Scalar, ThreeDPrimative), DecodeError>)
    ensures
        agrees(r, dec_timed(doc.deep_view())),
{
    let items = match decode_tuple(doc, 2) {
        Ok(items) => items,
        Err(error) => { return Err(error); },
    };
    let time = match decode_number_at(items, 0) {
        Ok(time) => time,
        Err(error) => { return Err(error); },
    };
    match decode_primative(&items[1]) {
        Ok(primative) => Ok((time, primative)),
        Err(error) => Err(error.under(PathStep::Index(1))),
    }
}

fn decode_timeline(doc: &Json) -> (r: Result<Vec<(Scalar, ThreeDPrimative)>, DecodeError>)
    ensures
        agrees(r, timeline_decoder()(doc.deep_view())),
{
    decode_array(doc, decode_timed, Ghost(timed_decoder()))
}

/// A spatial view's document: an object whose `primatives` is the array of
/// its primitives with their times.
pub open spec fn enc_view(data: ThreeDViewDataV) -> JsonV {
    JsonV::Object(
        seq![entry(Key::Primatives, JsonV::Array(enc_all(data.primatives, timed_encoder())))],
    )
}

/// The spatial view that a document holds.
pub open spec fn dec_view(doc: JsonV) -> Result<ThreeDViewDataV, DecodeErrorV> {
    match dec_object(doc) {
        Err(error) => Err(error),
        Ok(fields) => match dec_required(fields, Key::Primatives, timeline_decoder()) {
            Err(error) => Err(error),
            Ok(primatives) => Ok(ThreeDViewDataV { primatives }),
        },
    }
}

/// Encodes a spatial view.
pub fn encode_view(data: &ThreeDViewData) -> (doc: Json)
    ensures
        doc.deep_view() == enc_view(data.deep_view()),
{
    let timeline = encode_array(&data.primatives, encode_timed, Ghost(timed_encoder()));
    let mut fields: Vec<(String, Json)> = Vec::new();
    fields.push(make_entry(Key::Primatives, timeline));
    proof {
        lemma_object_view(fields);
        assert(fields.deep_view() =~= seq![entry(Key::Primatives, timeline.deep_view())]);
    }
    Json::Object(fields)
}

/// Decodes a spatial view.
pub fn decode_view(doc: &Json) -> (r: Result<ThreeDViewData, DecodeError>)
    ensures
        agrees(r, dec_view(doc.deep_view())),
{
    let fields = match decode_object(doc) {
        Ok(fields) => fields,
        Err(error) => { return Err(error); },
    };
    let timeline = match required(fields, Key::Primatives) {
        Ok(timeline) => timeline,
        Err(error) => { return Err(error); },
    };
    match decode_timeline(timeline) {
        Ok(primatives) => Ok(ThreeDViewData { primatives }),
        Err(error) => Err(error.under(PathStep::Field(Key::Primatives))),
    }
}

// ---------------------------------------------------------------------------
// Widgets
// ---------------------------------------------------------------------------

/// A widget's document: an object with the widget's tag as its one key.
pub open spec fn enc_widget(widget: WidgetV) -> JsonV {
    match widget {
        WidgetV::PlotScalar(data) => enc_variant(Key::PlotScalar, enc_plot(data)),
        WidgetV::ThreeDView(data) => enc_variant(Key::ThreeDView, enc_view(data)),
    }
}

/// The widget that a document holds.
pub open spec fn dec_widget(doc: JsonV) -> Result<WidgetV, DecodeErrorV> {
    match dec_variant(doc) {
        Err(error) => Err(error),
        Ok(tagged) => if tagged.0 == key_text(Key::PlotScalar) {
            match dec_plot(tagged.1) {
                Err(error) => Err(error.under(PathStep::Field(Key::PlotScalar))),
                Ok(data) => Ok(WidgetV::PlotScalar(data)),
            }
        } else if tagged.0 == key_text(Key::ThreeDView) {
            match dec_view(tagged.1) {
                Err(error) => Err(error.under(PathStep::Field(Key::ThreeDView))),
                Ok(data) => Ok(WidgetV::ThreeDView(data)),
            }
        } else {
            Err(DecodeErrorV::here(DecodeErrorKind::UnknownVariant))
        },
    }
}

/// The encoder of widgets.
pub open spec fn widget_encoder() -> spec_fn(WidgetV) -> JsonV {
    |widget: WidgetV| enc_widget(widget)
}

/// The decoder of widgets.
pub open spec fn widget_decoder() -> spec_fn(JsonV) -> Result<WidgetV, DecodeErrorV> {
    |doc: JsonV| dec_widget(doc)
}

/// The decoder of arrays of widgets.
pub open spec fn widgets_decoder() -> spec_fn(JsonV) -> Result<Seq<WidgetV>, DecodeErrorV> {
    |doc: JsonV| dec_array(doc, widget_decoder())
}

/// Encodes a widget.
pub fn encode_widget(widget: &Widget) -> (doc: Json)
    ensures
        doc.deep_view() == enc_widget(widget.deep_view()),
{
    match widget {
        Widget::PlotScalar(data) => encode_variant(Key::PlotScalar, encode_plot(data)),
        Widget::ThreeDView(data) => encode_variant(Key::ThreeDView, encode_view(data)),
    }
}

/// Decodes a widget.
pub fn decode_widget(doc: &Json) -> (r: Result<Widget, DecodeError>)
    ensures
        agrees(r, dec_widget(doc.deep_view())),
{
    let tagged = match decode_variant(doc) {
        Ok(tagged) => tagged,
        Err(error) => { return Err(error); },
    };
    if tag_is(tagged.0, Key::PlotScalar) {
        match decode_plot(tagged.1) {
            Ok(data) => Ok(Widget::PlotScalar(data)),
            Err(error) => Err(error.under(PathStep::Field(Key::PlotScalar))),
        }
    } else if tag_is(tagged.0, Key::ThreeDView) {
        match decode_view(tagged.1) {
            Ok(data) => Ok(Widget::ThreeDView(data)),
            Err(error) => Err(error.under(PathStep::Field(Key::ThreeDView))),
        }
    } else {
        Err(DecodeError::here(DecodeErrorKind::UnknownVariant))
    }
}

fn decode_widgets(doc: &Json) -> (r: Result<Vec<Widget>, DecodeError>)
    ensures
        agrees(r, widgets_decoder()(doc.deep_view())),
{
    decode_array(doc, decode_widget, Ghost(widget_decoder()))
}

// ---------------------------------------------------------------------------
// Visualizations
// ---------------------------------------------------------------------------

/// The encoder of texts.
pub open spec fn text_encoder() -> spec_fn(Seq<char>) -> JsonV {
    |text: Seq<char>| enc_text(text)
}

/// The decoder of texts.
pub open spec fn text_decoder() -> spec_fn(JsonV) -> Result<Seq<char>, DecodeErrorV> {
    |doc: JsonV| dec_text(doc)
}

/// A visualization's document: an object with its `name`, its `source` or
/// `null`, the array of its `widgets`, and its `range` as a pair or `null`.
pub open spec fn enc_viz(viz: VizV) -> JsonV {
    JsonV::Object(
        seq![
            entry(Key::Name, enc_text(viz.name)),
            entry(Key::Source, enc_optional(viz.source, text_encoder())),
            entry(Key::Widgets, JsonV::Array(enc_all(viz.widgets, widget_encoder()))),
            entry(Key::Range, enc_optional(viz.range, pair_encoder())),
        ],
    )
}

/// The visualization that an object's entries hold; where several fields
/// fail, the error of the first in the order name, source, widgets, range.
pub open spec fn dec_viz_fields(fields: Seq<(Seq<char>, JsonV)>) -> Result<VizV, DecodeErrorV> {
    let name = dec_required(fields, Key::Name, text_decoder());
    let source = dec_optional(fields, Key::Source, text_decoder());
    let widgets = dec_required(fields, Key::Widgets, widgets_decoder());
    let range = dec_optional(fields, Key::Range, pair_decoder());
    if name is Err {
        Err(name->Err_0)
    } else if source is Err {
        Err(source->Err_0)
    } else if widgets is Err {
        Err(widgets->Err_0)
    } else if range is Err {
        Err(range->Err_0)
    } else {
        Ok(
            VizV {
                name: name->Ok_0,
                source: source->Ok_0,
                widgets: widgets->Ok_0,
                range: range->Ok_0,
            },
        )
    }
}

/// The visualization that a document holds.
pub open spec fn dec_viz(doc: JsonV) -> Result<VizV, DecodeErrorV> {
    match dec_object(doc) {
        Err(error) => Err(error),
        Ok(fields) => dec_viz_fields(fields),
    }
}

/// The encoder of visualizations.
pub open spec fn viz_encoder() -> spec_fn(VizV) -> JsonV {
    |viz: VizV| enc_viz(viz)
}

/// The decoder of visualizations.
pub open spec fn viz_decoder() -> spec_fn(JsonV) -> Result<VizV, DecodeErrorV> {
    |doc: JsonV| dec_viz(doc)
}

/// The decoder of arrays of visualizations.
pub open spec fn vizs_decoder() -> spec_fn(JsonV) -> Result<Seq<VizV>, DecodeErrorV> {
    |doc: JsonV| dec_array(doc, viz_decoder())
}

fn encode_text(text: &String) -> (doc: Json)
    ensures
        doc.deep_view() == enc_text(text@),
{
    Json::Text(text.clone())
}

fn decode_text(doc: &Json) -> (r: Result<String, DecodeError>)
    ensures
        match r {
            Ok(text) => dec_text(doc.deep_view()) == Ok::<Seq<char>, DecodeErrorV>(text@),
            Err(error) => dec_text(doc.deep_view()) == Err::<Seq<char>, DecodeErrorV>(
                error.deep_view(),
            ),
        },
{
    match doc {
        Json::Text(text) => Ok(text.clone()),
        _ => Err(DecodeError::here(DecodeErrorKind::WrongType)),
    }
}

fn decode_required_text(fields: &Vec<(String, Json)>, key: Key) -> (r: Result<String, DecodeError>)
    ensures
        match r {
            Ok(text) => dec_required(fields.deep_view(), key, text_decoder()) == Ok::<
                Seq<char>,
                DecodeErrorV,
            >(text@),
            Err(error) => dec_required(fields.deep_view(), key, text_decoder()) == Err::<
                Seq<char>,
                DecodeErrorV,
            >(error.deep_view()),
        },
{
    let doc = match required(fields, key) {
        Ok(doc) => doc,
        Err(error) => { return Err(error); },
    };
    match decode_text(doc) {
        Ok(text) => Ok(text),
        Err(error) => Err(error.under(PathStep::Field(key))),
    }
}

/// Encodes a visualization.
pub fn encode_viz(viz: &Viz) -> (doc: Json)
    ensures
        doc.deep_view() == enc_viz(viz.deep_view()),
{
    let name = encode_text(&viz.name);
    let source = match &viz.source {
        Some(text) => encode_text(text),
        None => Json::Null,
    };
    let widgets = encode_array(&viz.widgets, encode_widget, Ghost(widget_encoder()));
    let range = match &viz.range {
        Some(pair) => encode_pair(pair),
        None => Json::Null,
    };
    let mut fields: Vec<(String, Json)> = Vec::new();
    fields.push(make_entry(Key::Name, name));
    fields.push(make_entry(Key::Source, source));
    fields.push(make_entry(Key::Widgets, widgets));
    fields.push(make_entry(Key::Range, range));
    proof {
        lemma_object_view(fields);
        assert(fields.deep_view() =~= seq![
            entry(Key::Name, name.deep_view()),
            entry(Key::Source, source.deep_view()),
            entry(Key::Widgets, widgets.deep_view()),
            entry(Key::Range, range.deep_view()),
        ]);
    }
    Json::Object(fields)
}

/// Decodes a visualization.
pub fn decode_viz(doc: &Json) -> (r: Result<Viz, DecodeError>)
    ensures
        agrees(r, dec_viz(doc.deep_view())),
{
    let fields = match decode_object(doc) {
        Ok(fields) => fields,
        Err(error) => { return Err(error); },
    };
    let name = match decode_required_text(fields, Key::Name) {
        Ok(name) => name,
        Err(error) => { return Err(error); },
    };
    let source = match optional(fields, Key::Source) {
        None => None,
        Some(doc) => match decode_text(doc) {
            Ok(text) => Some(text),
            Err(error) => { return Err(error.under(PathStep::Field(Key::Source))); },
        },
    };
    let widgets_doc = match required(fields, Key::Widgets) {
        Ok(doc) => doc,
        Err(error) => { return Err(error); },
    };
    let widgets = match decode_widgets(widgets_doc) {
        Ok(widgets) => widgets,
        Err(error) => { return Err(error.under(PathStep::Field(Key::Widgets))); },
    };
    let range = match optional(fields, Key::Range) {
        None => None,
        Some(doc) => match decode_pair(doc) {
            Ok(pair) => Some(pair),
            Err(error) => { return Err(error.under(PathStep::Field(Key::Range))); },
        },
    };
    Ok(Viz { name, source, widgets, range })
}

fn decode_vizs(doc: &Json) -> (r: Result<Vec<Viz>, DecodeError>)
    ensures
        agrees(r, vizs_decoder()(doc.deep_view())),
{
    decode_array(doc, decode_viz, Ghost(viz_decoder()))
}

// ---------------------------------------------------------------------------
// Recordings
// ---------------------------------------------------------------------------

/// A recording's document: an object with its `name`, its `session_id` and
/// the array of its `vizs`.
pub open spec fn enc_recording(recording: RecordingV) -> JsonV {
    JsonV::Object(
        seq![
            entry(Key::Name, enc_text(recording.name)),
            entry(Key::SessionId, enc_text(recording.session_id)),
            entry(Key::Vizs, JsonV::Array(enc_all(recording.vizs, viz_encoder()))),
        ],
    )
}

/// The recording that an object's entries hold; where several fields fail,
/// the error of the first in the order name, session_id, vizs.
pub open spec fn dec_recording_fields(fields: Seq<(Seq<char>, JsonV)>) -> Result<
    RecordingV,
    DecodeErrorV,
> {
    let name = dec_required(fields, Key::Name, text_decoder());
    let session_id = dec_required(fields, Key::SessionId, text_decoder());
    let vizs = dec_required(fields, Key::Vizs, vizs_decoder());
    if name is Err {
        Err(name->Err_0)
    } else if session_id is Err {
        Err(session_id->Err_0)
    } else if vizs is Err {
        Err(vizs->Err_0)
    } else {
        Ok(RecordingV { name: name->Ok_0, session_id: session_id->Ok_0, vizs: vizs->Ok_0 })
    }
}

/// The recording that a document holds.
pub open spec fn dec_recording(doc: JsonV) -> Result<RecordingV, DecodeErrorV> {
    match dec_object(doc) {
        Err(error) => Err(error),
        Ok(fields) => dec_recording_fields(fields),
    }
}

/// The recording that a JSON text holds.
pub open spec fn dec_recording_text(text: Seq<char>) -> Result<RecordingV, DecodeErrorV> {
    match parsed_json(text) {
        None => Err(DecodeErrorV::here(DecodeErrorKind::Syntax)),
        Some(doc) => dec_recording(doc),
    }
}

/// Encodes a recording.
pub fn encode_recording(recording: &Recording) -> (doc: Json)
    ensures
        doc.deep_view() == enc_recording(recording.deep_view()),
{
    let name = encode_text(&recording.name);
    let session_id = encode_text(&recording.session_id);
    let vizs = encode_array(&recording.vizs, encode_viz, Ghost(viz_encoder()));
    let mut fields: Vec<(String, Json)> = Vec::new();
    fields.push(make_entry(Key::Name, name));
    fields.push(make_entry(Key::SessionId, session_id));
    fields.push(make_entry(Key::Vizs, vizs));
    proof {
        lemma_object_view(fields);
        assert(fields.deep_view() =~= seq![
            entry(Key::Name, name.deep_view()),
            entry(Key::SessionId, session_id.deep_view()),
            entry(Key::Vizs, vizs.deep_view()),
        ]);
    }
    Json::Object(fields)
}

/// Decodes a recording. A document that lacks `name`, `session_id` or
/// `vizs` is refused: no field of a recording has a default.
pub fn decode_recording(doc: &Json) -> (r: Result<Recording, DecodeError>)
    ensures
        agrees(r, dec_recording(doc.deep_view())),
{
    let fields = match decode_object(doc) {
        Ok(fields) => fields,
        Err(error) => { return Err(error); },
    };
    let name = match decode_required_text(fields, Key::Name) {
        Ok(name) => name,
        Err(error) => { return Err(error); },
    };
    let session_id = match decode_required_text(fields, Key::SessionId) {
        Ok(session_id) => session_id,
        Err(error) => { return Err(error); },
    };
    let vizs_doc = match required(fields, Key::Vizs) {
        Ok(doc) => doc,
        Err(error) => { return Err(error); },
    };
    match decode_vizs(vizs_doc) {
        Ok(vizs) => Ok(Recording { name, session_id, vizs }),
        Err(error) => Err(error.under(PathStep::Field(Key::Vizs))),
    }
}

/// Decodes a recording from the JSON text of a recording file.
pub fn decode_recording_text(text: &str) -> (r: Result<Recording, DecodeError>)
    ensures
        agrees(r, dec_recording_text(text@)),
{
    match parse(text) {
        None => Err(DecodeError::here(DecodeErrorKind::Syntax)),
        Some(doc) => decode_recording(&doc),
    }
}

// ---------------------------------------------------------------------------
// Messages
// ---------------------------------------------------------------------------

/// A message's document: an object with the message's kind as its one key.
pub open spec fn enc_message(message: WSMessageV) -> JsonV {
    match message {
        WSMessageV::VizUpdate(viz) => enc_variant(Key::VizUpdate, enc_viz(viz)),
    }
}

/// The message that a document holds.
pub open spec fn dec_message(doc: JsonV) -> Result<WSMessageV, DecodeErrorV> {
    match dec_variant(doc) {
        Err(error) => Err(error),
        Ok(tagged) => if tagged.0 == key_text(Key::VizUpdate) {
            match dec_viz(tagged.1) {
                Err(error) => Err(error.under(PathStep::Field(Key::VizUpdate))),
                Ok(viz) => Ok(WSMessageV::VizUpdate(viz)),
            }
        } else {
            Err(DecodeErrorV::here(DecodeErrorKind::UnknownVariant))
        },
    }
}

/// Encodes the update message for a visualization.
pub fn encode_viz_update(viz: &Viz) -> (doc: Json)
    ensures
        doc.deep_view() == enc_message(WSMessageV::VizUpdate(viz.deep_view())),
{
    encode_variant(Key::VizUpdate, encode_viz(viz))
}

/// Encodes a message.
pub fn encode_message(message: &WSMessage) -> (doc: Json)
    ensures
        doc.deep_view() == enc_message(message.deep_view()),
{
    match message {
        WSMessage::VizUpdate(viz) => encode_viz_update(viz),
    }
}

/// Decodes a message.
pub fn decode_message(doc: &Json) -> (r: Result<WSMessage, DecodeError>)
    ensures
        agrees(r, dec_message(doc.deep_view())),
{
    let tagged = match decode_variant(doc) {
        Ok(tagged) => tagged,
        Err(error) => { return Err(error); },
    };
    if tag_is(tagged.0, Key::VizUpdate) {
        match decode_viz(tagged.1) {
            Ok(viz) => Ok(WSMessage::VizUpdate(viz)),
            Err(error) => Err(error.under(PathStep::Field(Key::VizUpdate))),
        }
    } else {
        Err(DecodeError::here(DecodeErrorKind::UnknownVariant))
    }
}

} // verus!
