//! Decoding gives back what was encoded.

use vstd::prelude::*;
use crate::codec::{
    dec_optional,
    dec_pair,
    dec_triple,
    enc_all,
    enc_optional,
    enc_pair,
    enc_triple,
    enc_text,
    entry,
    key_text,
    lemma_dec_all_enc_all,
    lemma_key_shape,
    lemma_lookup_at,
    pair_decoder,
    pair_encoder,
    triple_decoder,
    triple_encoder,
    dec_required,
    DecodeErrorKind,
    DecodeErrorV,
    Key,
    PathStep,
};
use crate::json::{lookup, parsed_json, JsonV};
use crate::layout::{
    dec_message,
    dec_plot,
    dec_primative,
    dec_recording,
    dec_recording_text,
    dec_timed,
    dec_view,
    dec_viz,
    dec_widget,
    enc_message,
    enc_plot,
    enc_primative,
    enc_recording,
    enc_timed,
    enc_view,
    enc_viz,
    enc_widget,
    text_decoder,
    text_encoder,
    timed_decoder,
    timed_encoder,
    viz_decoder,
    viz_encoder,
    widget_decoder,
    widget_encoder,
};
use crate::recording::RecordingV;
use crate::viz::VizV;
use crate::widgets::{PlotScalarDataV, ThreeDPrimativeV, ThreeDViewDataV, WidgetV};
use crate::ws_handler::WSMessageV;

verus! {

/// Decoding a pair's document gives the pair.
pub proof fn lemma_pair_roundtrip(pair: (u64, u64))
    ensures
        dec_pair(enc_pair(pair)) == Ok::<(u64, u64), DecodeErrorV>(pair),
{
}

/// Decoding a triple's document gives the triple.
pub proof fn lemma_triple_roundtrip(triple: (u64, u64, u64))
    ensures
        dec_triple(enc_triple(triple)) == Ok::<(u64, u64, u64), DecodeErrorV>(triple),
{
}

/// Decoding a scalar plot's document gives the plot.
pub proof fn lemma_plot_roundtrip(data: PlotScalarDataV)
    ensures
        dec_plot(enc_plot(data)) == Ok::<PlotScalarDataV, DecodeErrorV>(data),
{
    let doc = JsonV::Array(enc_all(data.data_x, pair_encoder()));
    let fields = seq![entry(Key::DataX, doc)];
    lemma_lookup_at(fields, key_text(Key::DataX), 0);
    assert forall|pair: (u64, u64)| #[trigger]
        pair_decoder()(pair_encoder()(pair)) == Ok::<(u64, u64), DecodeErrorV>(pair) by {
        lemma_pair_roundtrip(pair);
    }
    lemma_dec_all_enc_all(data.data_x, pair_encoder(), pair_decoder());
}

/// Decoding a primitive's document gives the primitive.
pub proof fn lemma_primative_roundtrip(primative: ThreeDPrimativeV)
    ensures
        dec_primative(enc_primative(primative)) == Ok::<ThreeDPrimativeV, DecodeErrorV>(primative),
{
    match primative {
        ThreeDPrimativeV::Point(points) => {
            assert forall|triple: (u64, u64, u64)| #[trigger]
                triple_decoder()(triple_encoder()(triple)) == Ok::<(u64, u64, u64), DecodeErrorV>(
                    triple,
                ) by {
                lemma_triple_roundtrip(triple);
            }
            lemma_dec_all_enc_all(points, triple_encoder(), triple_decoder());
        },
    }
}

/// Decoding the document of a primitive with its time gives the two.
pub proof fn lemma_timed_roundtrip(timed: (u64, ThreeDPrimativeV))
    ensures
        dec_timed(enc_timed(timed)) == Ok::<(u64, ThreeDPrimativeV), DecodeErrorV>(timed),
{
    lemma_primative_roundtrip(timed.1);
}

/// Decoding a spatial view's document gives the view.
pub proof fn lemma_view_roundtrip(data: ThreeDViewDataV)
    ensures
        dec_view(enc_view(data)) == Ok::<ThreeDViewDataV, DecodeErrorV>(data),
{
    let doc = JsonV::Array(enc_all(data.primatives, timed_encoder()));
    let fields = seq![entry(Key::Primatives, doc)];
    lemma_lookup_at(fields, key_text(Key::Primatives), 0);
    assert forall|timed: (u64, ThreeDPrimativeV)| #[trigger]
        timed_decoder()(timed_encoder()(timed)) == Ok::<(u64, ThreeDPrimativeV), DecodeErrorV>(
            timed,
        ) by {
        lemma_timed_roundtrip(timed);
    }
    lemma_dec_all_enc_all(data.primatives, timed_encoder(), timed_decoder());
}

/// Decoding a widget's document gives the widget, with its tag.
pub proof fn lemma_widget_roundtrip(widget: WidgetV)
    ensures
        dec_widget(enc_widget(widget)) == Ok::<WidgetV, DecodeErrorV>(widget),
{
    lemma_key_shape(Key::PlotScalar);
    lemma_key_shape(Key::ThreeDView);
    match widget {
        WidgetV::PlotScalar(data) => {
            lemma_plot_roundtrip(data);
        },
        WidgetV::ThreeDView(data) => {
            lemma_view_roundtrip(data);
        },
    }
}

/// Decoding a visualization's document gives the visualization, whether or
/// not it has widgets, a source or a range.
pub proof fn lemma_viz_roundtrip(viz: VizV)
    ensures
        dec_viz(enc_viz(viz)) == Ok::<VizV, DecodeErrorV>(viz),
{
    let fields = seq![
        entry(Key::Name, enc_text(viz.name)),
        entry(Key::Source, enc_optional(viz.source, text_encoder())),
        entry(Key::Widgets, JsonV::Array(enc_all(viz.widgets, widget_encoder()))),
        entry(Key::Range, enc_optional(viz.range, pair_encoder())),
    ];
    lemma_key_shape(Key::Name);
    lemma_key_shape(Key::Source);
    lemma_key_shape(Key::Widgets);
    lemma_key_shape(Key::Range);
    lemma_lookup_at(fields, key_text(Key::Name), 0);
    lemma_lookup_at(fields, key_text(Key::Source), 1);
    lemma_lookup_at(fields, key_text(Key::Widgets), 2);
    lemma_lookup_at(fields, key_text(Key::Range), 3);
    assert forall|widget: WidgetV| #[trigger]
        widget_decoder()(widget_encoder()(widget)) == Ok::<WidgetV, DecodeErrorV>(widget) by {
        lemma_widget_roundtrip(widget);
    }
    lemma_dec_all_enc_all(viz.widgets, widget_encoder(), widget_decoder());
    if viz.range is Some {
        lemma_pair_roundtrip(viz.range->Some_0);
    }
    assert(dec_optional(fields, Key::Source, text_decoder()) == Ok::<
        Option<Seq<char>>,
        DecodeErrorV,
    >(viz.source));
    assert(dec_optional(fields, Key::Range, pair_decoder()) == Ok::<
        Option<(u64, u64)>,
        DecodeErrorV,
    >(viz.range));
}

/// Round trip: decoding a recording's document gives the recording, whether
/// or not it has visualizations, and they widgets, a source or a range.
pub proof fn lemma_recording_roundtrip(recording: RecordingV)
    ensures
        dec_recording(enc_recording(recording)) == Ok::<RecordingV, DecodeErrorV>(recording),
{
    let fields = seq![
        entry(Key::Name, enc_text(recording.name)),
        entry(Key::SessionId, enc_text(recording.session_id)),
        entry(Key::Vizs, JsonV::Array(enc_all(recording.vizs, viz_encoder()))),
    ];
    lemma_key_shape(Key::Name);
    lemma_key_shape(Key::SessionId);
    lemma_key_shape(Key::Vizs);
    lemma_lookup_at(fields, key_text(Key::Name), 0);
    lemma_lookup_at(fields, key_text(Key::SessionId), 1);
    lemma_lookup_at(fields, key_text(Key::Vizs), 2);
    assert forall|viz: VizV| #[trigger]
        viz_decoder()(viz_encoder()(viz)) == Ok::<VizV, DecodeErrorV>(viz) by {
        lemma_viz_roundtrip(viz);
    }
    lemma_dec_all_enc_all(recording.vizs, viz_encoder(), viz_decoder());
}

/// A JSON text that denotes a recording's document decodes to the recording.
pub proof fn lemma_recording_text_roundtrip(recording: RecordingV, text: Seq<char>)
    requires
        parsed_json(text) == Some(enc_recording(recording)),
    ensures
        dec_recording_text(text) == Ok::<RecordingV, DecodeErrorV>(recording),
{
    lemma_recording_roundtrip(recording);
}

/// Decoding a message's document gives the message.
pub proof fn lemma_message_roundtrip(message: WSMessageV)
    ensures
        dec_message(enc_message(message)) == Ok::<WSMessageV, DecodeErrorV>(message),
{
    match message {
        WSMessageV::VizUpdate(viz) => {
            lemma_viz_roundtrip(viz);
        },
    }
}

/// An object without `vizs` holds no recording: decoding it fails, whatever
/// else the object holds. The failure is the missing field where `name` and
/// `session_id` are there as texts.
pub proof fn lemma_recording_needs_vizs(fields: Seq<(Seq<char>, JsonV)>)
    requires
        lookup(fields, key_text(Key::Vizs)) is None,
    ensures
        dec_recording(JsonV::Object(fields)) is Err,
        dec_required(fields, Key::Name, text_decoder()) is Ok && dec_required(
            fields,
            Key::SessionId,
            text_decoder(),
        ) is Ok ==> dec_recording(JsonV::Object(fields)) == Err::<RecordingV, DecodeErrorV>(
            DecodeErrorV::here(DecodeErrorKind::MissingField).under(PathStep::Field(Key::Vizs)),
        ),
{
}

} // verus!
