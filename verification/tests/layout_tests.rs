use vizreplay::codec::{DecodeError, DecodeErrorKind, Key, PathStep};
use vizreplay::json::{find, parse, Json};
use vizreplay::layout::{
    decode_message, decode_plot, decode_primative, decode_recording, decode_recording_text,
    decode_viz, decode_widget, encode_message, encode_recording, encode_viz, encode_viz_update,
    encode_widget,
};
use vizreplay::recording::Recording;
use vizreplay::scalar::Scalar;
use vizreplay::viz::Viz;
use vizreplay::widgets::{PlotScalarData, ThreeDPrimative, ThreeDViewData, Widget};
use vizreplay::ws_handler::WSMessage;

fn num(x: f64) -> Scalar {
    Scalar::from_bits(x.to_bits())
}

fn text(s: &str) -> Json {
    Json::Text(s.to_string())
}

fn field(key: &str, doc: Json) -> (String, Json) {
    (key.to_string(), doc)
}

fn to_value(doc: &Json) -> serde_json::Value {
    match doc {
        Json::Null => serde_json::Value::Null,
        Json::Bool(b) => serde_json::Value::Bool(*b),
        Json::Number(n) => serde_json::Value::from(f64::from_bits(n.to_bits())),
        Json::Text(s) => serde_json::Value::String(s.clone()),
        Json::Array(items) => serde_json::Value::Array(items.iter().map(to_value).collect()),
        Json::Object(fields) => serde_json::Value::Object(
            fields.iter().map(|(k, v)| (k.clone(), to_value(v))).collect(),
        ),
    }
}

fn sample_recording() -> Recording {
    let mut recording = Recording::new("rec".to_string(), "session-1".to_string());
    let mut plot = Viz::new("A".to_string());
    plot.add_widget(Widget::PlotScalar(PlotScalarData::new(vec![
        (num(0.0), num(0.0)),
        (num(1.0), num(1.5)),
    ])));
    plot.set_source("sensor".to_string());
    plot.set_range((num(-1.0), num(2.0)));
    recording.add_viz(plot);
    let cloud = Viz::new("B".to_string()).with_widget(Widget::ThreeDView(ThreeDViewData {
        primatives: vec![
            (num(0.5), ThreeDPrimative::Point(vec![(num(1.0), num(2.0), num(3.0))])),
            (num(0.5), ThreeDPrimative::Point(vec![])),
        ],
    }));
    recording.add_viz(cloud);
    recording.add_viz(Viz::new("C".to_string()));
    recording
}

#[test]
fn recording_round_trips_through_its_document() {
    let recording = sample_recording();
    let doc = encode_recording(&recording);
    assert_eq!(decode_recording(&doc), Ok(recording));
}

#[test]
fn empty_recording_round_trips() {
    let recording = Recording::new("empty".to_string(), "id".to_string());
    let doc = encode_recording(&recording);
    assert_eq!(
        doc,
        Json::Object(vec![
            field("name", text("empty")),
            field("session_id", text("id")),
            field("vizs", Json::Array(vec![])),
        ])
    );
    assert_eq!(decode_recording(&doc), Ok(recording));
}

#[test]
fn viz_without_source_and_range_round_trips() {
    let viz = Viz::new("bare".to_string());
    let doc = encode_viz(&viz);
    assert_eq!(
        doc,
        Json::Object(vec![
            field("name", text("bare")),
            field("source", Json::Null),
            field("widgets", Json::Array(vec![])),
            field("range", Json::Null),
        ])
    );
    assert_eq!(decode_viz(&doc), Ok(viz));
}

#[test]
fn viz_fields_may_be_left_out_when_optional() {
    let doc = Json::Object(vec![field("name", text("n")), field("widgets", Json::Array(vec![]))]);
    assert_eq!(decode_viz(&doc), Ok(Viz::new("n".to_string())));
}

#[test]
fn recording_round_trips_through_json_text() {
    let recording = sample_recording();
    let written = to_value(&encode_recording(&recording)).to_string();
    assert_eq!(decode_recording_text(&written), Ok(recording));
}

#[test]
fn non_finite_numbers_round_trip_in_the_document() {
    let mut viz = Viz::new("inf".to_string());
    viz.set_range((num(f64::INFINITY), num(f64::NAN)));
    let doc = encode_viz(&viz);
    assert_eq!(decode_viz(&doc), Ok(viz));
}

#[test]
fn widget_documents_carry_their_tags() {
    let plot = Widget::PlotScalar(PlotScalarData::new(vec![(num(1.0), num(2.0))]));
    assert_eq!(
        encode_widget(&plot),
        Json::Object(vec![field(
            "plot_scalar",
            Json::Object(vec![field(
                "data_x",
                Json::Array(vec![Json::Array(vec![
                    Json::Number(num(1.0)),
                    Json::Number(num(2.0))
                ])])
            )])
        )])
    );
    let view = Widget::ThreeDView(ThreeDViewData {
        primatives: vec![(num(0.25), ThreeDPrimative::Point(vec![(num(1.0), num(2.0), num(3.0))]))],
    });
    assert_eq!(
        encode_widget(&view),
        Json::Object(vec![field(
            "3d_view",
            Json::Object(vec![field(
                "primatives",
                Json::Array(vec![Json::Array(vec![
                    Json::Number(num(0.25)),
                    Json::Object(vec![field(
                        "Point",
                        Json::Array(vec![Json::Array(vec![
                            Json::Number(num(1.0)),
                            Json::Number(num(2.0)),
                            Json::Number(num(3.0))
                        ])])
                    )])
                ])])
            )])
        )])
    );
    assert_eq!(decode_widget(&encode_widget(&plot)), Ok(plot));
    assert_eq!(decode_widget(&encode_widget(&view)), Ok(view));
}

#[test]
fn message_is_an_envelope_around_the_viz() {
    let viz = Viz::new("A".to_string());
    let doc = encode_viz_update(&viz);
    assert_eq!(doc, Json::Object(vec![field("VizUpdate", encode_viz(&viz))]));
    let message = WSMessage::VizUpdate(viz);
    assert_eq!(encode_message(&message), doc);
    assert_eq!(decode_message(&doc), Ok(message));
    assert_eq!(to_value(&doc).to_string(), "{\"VizUpdate\":{\"name\":\"A\",\"range\":null,\"source\":null,\"widgets\":[]}}");
}

#[test]
fn text_of_a_recording_file_is_decoded() {
    let written = "{\"name\":\"rec\",\"session_id\":\"abc\",\"vizs\":[{\"name\":\"A\",\"source\":null,\
        \"widgets\":[{\"plot_scalar\":{\"data_x\":[[0.0,0.0],[1,1.5]]}},\
        {\"3d_view\":{\"primatives\":[[2.5,{\"Point\":[[1.0,-2.0,3e2]]}]]}}],\"range\":[0.0,2.0]}]}";
    let mut expected = Recording::new("rec".to_string(), "abc".to_string());
    let mut viz = Viz::new("A".to_string());
    viz.add_widget(Widget::PlotScalar(PlotScalarData::new(vec![
        (num(0.0), num(0.0)),
        (num(1.0), num(1.5)),
    ])));
    viz.add_widget(Widget::ThreeDView(ThreeDViewData {
        primatives: vec![(
            num(2.5),
            ThreeDPrimative::Point(vec![(num(1.0), num(-2.0), num(300.0))]),
        )],
    }));
    viz.set_range((num(0.0), num(2.0)));
    expected.add_viz(viz);
    assert_eq!(decode_recording_text(written), Ok(expected));
}

#[test]
fn parse_reads_every_kind_of_value() {
    assert_eq!(parse("null"), Some(Json::Null));
    assert_eq!(parse("true"), Some(Json::Bool(true)));
    assert_eq!(parse("1.5"), Some(Json::Number(num(1.5))));
    assert_eq!(parse("7"), Some(Json::Number(num(7.0))));
    assert_eq!(parse("\"a\\nb\""), Some(text("a\nb")));
    assert_eq!(parse("[1, [], {}]"), Some(Json::Array(vec![
        Json::Number(num(1.0)),
        Json::Array(vec![]),
        Json::Object(vec![]),
    ])));
    assert_eq!(parse("{\"k\": false}"), Some(Json::Object(vec![field("k", Json::Bool(false))])));
    assert_eq!(parse("{\"k\": "), None);
    assert_eq!(parse(""), None);
    assert_eq!(parse("[1] trailing"), None);
}

#[test]
fn find_takes_the_entry_with_the_key() {
    let fields = vec![field("a", Json::Null), field("b", Json::Bool(true)), field("a", text("x"))];
    assert_eq!(find(&fields, "b"), Some(&Json::Bool(true)));
    assert_eq!(find(&fields, "a"), Some(&Json::Null));
    assert_eq!(find(&fields, "c"), None);
}

#[test]
fn recording_without_vizs_is_refused() {
    let err = decode_recording_text("{\"name\":\"n\",\"session_id\":\"s\"}");
    assert_eq!(
        err,
        Err(DecodeError {
            kind: DecodeErrorKind::MissingField,
            path: vec![PathStep::Field(Key::Vizs)]
        })
    );
}

#[test]
fn text_that_is_not_json_is_a_syntax_error() {
    assert_eq!(
        decode_recording_text("{\"name\": "),
        Err(DecodeError { kind: DecodeErrorKind::Syntax, path: vec![] })
    );
}

#[test]
fn wrong_type_is_reported_with_its_path() {
    let written = "{\"name\":\"n\",\"session_id\":\"s\",\"vizs\":[{\"name\":\"A\",\"widgets\":[]},\
        {\"name\":\"B\",\"widgets\":[{\"plot_scalar\":{\"data_x\":[[0,0],[1,\"x\"]]}}]}]}";
    assert_eq!(
        decode_recording_text(written),
        Err(DecodeError {
            kind: DecodeErrorKind::WrongType,
            path: vec![
                PathStep::Field(Key::Vizs),
                PathStep::Index(1),
                PathStep::Field(Key::Widgets),
                PathStep::Index(0),
                PathStep::Field(Key::PlotScalar),
                PathStep::Field(Key::DataX),
                PathStep::Index(1),
                PathStep::Index(1),
            ]
        })
    );
    assert_eq!(
        decode_recording_text("[]"),
        Err(DecodeError { kind: DecodeErrorKind::WrongType, path: vec![] })
    );
    assert_eq!(
        decode_recording_text("{\"name\":3,\"session_id\":\"s\",\"vizs\":[]}"),
        Err(DecodeError {
            kind: DecodeErrorKind::WrongType,
            path: vec![PathStep::Field(Key::Name)]
        })
    );
}

#[test]
fn wrong_length_of_a_tuple_is_refused() {
    let doc = parse("{\"data_x\":[[0,0,0]]}").unwrap();
    assert_eq!(
        decode_plot(&doc),
        Err(DecodeError {
            kind: DecodeErrorKind::WrongLength,
            path: vec![PathStep::Field(Key::DataX), PathStep::Index(0)]
        })
    );
    let two_tags = parse("{\"plot_scalar\":{\"data_x\":[]},\"3d_view\":{\"primatives\":[]}}").unwrap();
    assert_eq!(
        decode_widget(&two_tags),
        Err(DecodeError { kind: DecodeErrorKind::WrongLength, path: vec![] })
    );
}

#[test]
fn unknown_tag_is_refused() {
    let doc = parse("{\"histogram\":{}}").unwrap();
    assert_eq!(
        decode_widget(&doc),
        Err(DecodeError { kind: DecodeErrorKind::UnknownVariant, path: vec![] })
    );
    let cloud = parse("{\"Mesh\":[]}").unwrap();
    assert_eq!(
        decode_primative(&cloud),
        Err(DecodeError { kind: DecodeErrorKind::UnknownVariant, path: vec![] })
    );
    let message = parse("{\"Ping\":{}}").unwrap();
    assert_eq!(
        decode_message(&message),
        Err(DecodeError { kind: DecodeErrorKind::UnknownVariant, path: vec![] })
    );
}

#[test]
fn first_failing_field_is_reported() {
    let doc = parse("{\"name\":1,\"source\":2,\"widgets\":3,\"range\":4}").unwrap();
    assert_eq!(
        decode_viz(&doc),
        Err(DecodeError {
            kind: DecodeErrorKind::WrongType,
            path: vec![PathStep::Field(Key::Name)]
        })
    );
    let doc = parse("{\"name\":\"n\",\"source\":2,\"range\":4}").unwrap();
    assert_eq!(
        decode_viz(&doc),
        Err(DecodeError {
            kind: DecodeErrorKind::WrongType,
            path: vec![PathStep::Field(Key::Source)]
        })
    );
    let doc = parse("{\"name\":\"n\",\"range\":4}").unwrap();
    assert_eq!(
        decode_viz(&doc),
        Err(DecodeError {
            kind: DecodeErrorKind::MissingField,
            path: vec![PathStep::Field(Key::Widgets)]
        })
    );
}

#[test]
fn key_texts_are_those_of_the_layout() {
    assert_eq!(Key::Name.as_str(), "name");
    assert_eq!(Key::SessionId.as_str(), "session_id");
    assert_eq!(Key::Vizs.as_str(), "vizs");
    assert_eq!(Key::Source.as_str(), "source");
    assert_eq!(Key::Widgets.as_str(), "widgets");
    assert_eq!(Key::Range.as_str(), "range");
    assert_eq!(Key::PlotScalar.as_str(), "plot_scalar");
    assert_eq!(Key::ThreeDView.as_str(), "3d_view");
    assert_eq!(Key::DataX.as_str(), "data_x");
    assert_eq!(Key::Primatives.as_str(), "primatives");
    assert_eq!(Key::Point.as_str(), "Point");
    assert_eq!(Key::VizUpdate.as_str(), "VizUpdate");
}

#[test]
fn error_path_grows_at_the_front() {
    let error = DecodeError::here(DecodeErrorKind::WrongType)
        .under(PathStep::Index(2))
        .under(PathStep::Field(Key::Vizs));
    assert_eq!(error.kind, DecodeErrorKind::WrongType);
    assert_eq!(error.path, vec![PathStep::Field(Key::Vizs), PathStep::Index(2)]);
}
