use google_generative_ai_rs::v1::errors::DecodeError;
use google_generative_ai_rs::v1::json::Json;
use google_generative_ai_rs::v1::stream::{
    decode_event, decode_stream, event_from_document, EventStreamReader, ReaderState, Step,
};
use google_generative_ai_rs::v1::types::content_types::{ContentType, Part, TextPart};
use google_generative_ai_rs::v1::types::response_type::{
    GenerateContentCandidate, GenerateContentResponse,
};

const HI: &str =
    "{\"candidates\":[{\"index\":0,\"content\":{\"role\":\"model\",\"parts\":[{\"text\":\"hi\"}]}}]}";

fn event_with_text(index: i32, text: &str) -> GenerateContentResponse {
    GenerateContentResponse {
        candidates: vec![GenerateContentCandidate {
            index,
            content: ContentType {
                role: "model".to_string(),
                parts: vec![Part::TextPart(TextPart { text: text.to_string() })],
            },
            finish_reason: None,
            finish_message: None,
            safety_ratings: None,
            citation_metadata: None,
        }],
    }
}

fn payload_with_text(index: i32, text: &str) -> String {
    format!(
        "{{\"candidates\":[{{\"index\":{},\"content\":{{\"role\":\"model\",\"parts\":[{{\"text\":\"{}\"}}]}}}}]}}",
        index, text
    )
}

fn empty_event() -> GenerateContentResponse {
    GenerateContentResponse { candidates: vec![] }
}

fn chunks(parts: &[&str]) -> Vec<Vec<u8>> {
    parts.iter().map(|p| p.as_bytes().to_vec()).collect()
}

#[test]
fn delimiter_split_across_two_chunks_yields_one_event() {
    let outcomes = decode_stream(&chunks(&["{\"candidates\":[]}\n", "\n"]));
    assert_eq!(outcomes, vec![Ok(empty_event())]);
}

#[test]
fn complete_event_yields_its_text_part() {
    let outcomes = decode_stream(&chunks(&[HI, "\n\n"]));
    assert_eq!(outcomes.len(), 1);
    let event = outcomes[0].as_ref().unwrap();
    assert_eq!(
        event.candidates[0].content.parts[0],
        Part::TextPart(TextPart { text: "hi".to_string() })
    );
    assert_eq!(outcomes, vec![Ok(event_with_text(0, "hi"))]);
}

#[test]
fn reader_buffers_a_payload_split_mid_document() {
    let mut reader = EventStreamReader::new();
    assert_eq!(reader.state(), ReaderState::AwaitingData);
    assert_eq!(reader.next(), Step::NeedChunk);
    reader.feed(b"{\"candi");
    assert_eq!(reader.state(), ReaderState::AwaitingData);
    assert_eq!(reader.next(), Step::NeedChunk);
    reader.feed(b"dates\":[]}\n");
    assert_eq!(reader.next(), Step::NeedChunk);
    reader.feed(b"\n{\"cand");
    assert_eq!(reader.state(), ReaderState::EmittingEvent);
    assert_eq!(reader.next(), Step::Event(Ok(empty_event())));
    assert_eq!(reader.state(), ReaderState::AwaitingData);
    assert_eq!(reader.next(), Step::NeedChunk);
    reader.feed(b"idates\":[]}\n\n");
    assert_eq!(reader.next(), Step::Event(Ok(empty_event())));
    assert_eq!(reader.next(), Step::NeedChunk);
    reader.end();
    assert_eq!(reader.state(), ReaderState::Closed);
    assert_eq!(reader.next(), Step::Done);
    assert_eq!(reader.next(), Step::Done);
}

#[test]
fn every_chunking_gives_the_same_events() {
    let stream = format!(
        "{}\n\n{}\n\nnot json\n\n{}\n\n{{\"cand",
        payload_with_text(0, "a"),
        "{\"candidates\":[]}",
        payload_with_text(1, "b")
    );
    let expected = vec![
        Ok(event_with_text(0, "a")),
        Ok(empty_event()),
        Err(DecodeError::MalformedEvent),
        Ok(event_with_text(1, "b")),
        Err(DecodeError::TruncatedStream),
    ];
    let bytes = stream.as_bytes();
    assert_eq!(decode_stream(&vec![bytes.to_vec()]), expected);
    for size in 1..8 {
        let pieces: Vec<Vec<u8>> = bytes.chunks(size).map(|c| c.to_vec()).collect();
        assert_eq!(decode_stream(&pieces), expected);
    }
    for cut in 0..bytes.len() {
        let pieces = vec![bytes[..cut].to_vec(), bytes[cut..].to_vec()];
        assert_eq!(decode_stream(&pieces), expected);
    }
}

#[test]
fn stream_ending_mid_document_is_truncated() {
    let outcomes = decode_stream(&chunks(&["{\"candidates\":[{\"index\":0,"]));
    assert_eq!(outcomes, vec![Err(DecodeError::TruncatedStream)]);
}

#[test]
fn truncated_fragment_after_whole_events() {
    let stream = format!("{}\n\n{{\"candidates\":", HI);
    let outcomes = decode_stream(&chunks(&[&stream]));
    assert_eq!(outcomes, vec![Ok(event_with_text(0, "hi")), Err(DecodeError::TruncatedStream)]);
}

#[test]
fn whole_document_without_delimiter_is_truncated() {
    let outcomes = decode_stream(&chunks(&[HI]));
    assert_eq!(outcomes, vec![Err(DecodeError::TruncatedStream)]);
    let outcomes = decode_stream(&chunks(&[HI, "\n"]));
    assert_eq!(outcomes, vec![Err(DecodeError::TruncatedStream)]);
}

#[test]
fn malformed_event_between_two_good_ones() {
    let stream = format!(
        "{}\n\n{{\"candidates\":oops}}\n\n{}\n\n",
        payload_with_text(0, "first"),
        payload_with_text(1, "second")
    );
    let outcomes = decode_stream(&chunks(&[&stream]));
    assert_eq!(
        outcomes,
        vec![
            Ok(event_with_text(0, "first")),
            Err(DecodeError::MalformedEvent),
            Ok(event_with_text(1, "second")),
        ]
    );
}

#[test]
fn document_of_another_shape_is_a_malformed_event() {
    let outcomes = decode_stream(&chunks(&[
        "[1,2]\n\n{\"candidates\":{}}\n\n{\"candidates\":[{\"index\":0}]}\n\n{\"candidates\":[]}\n\n",
    ]));
    assert_eq!(
        outcomes,
        vec![
            Err(DecodeError::MalformedEvent),
            Err(DecodeError::MalformedEvent),
            Err(DecodeError::MalformedEvent),
            Ok(empty_event()),
        ]
    );
}

#[test]
fn empty_stream_yields_nothing() {
    assert_eq!(decode_stream(&vec![]), vec![]);
    assert_eq!(decode_stream(&chunks(&["", ""])), vec![]);
}

#[test]
fn empty_payload_is_a_malformed_event() {
    assert_eq!(decode_stream(&chunks(&["\n\n"])), vec![Err(DecodeError::MalformedEvent)]);
    assert_eq!(
        decode_stream(&chunks(&["\n\n\n"])),
        vec![Err(DecodeError::MalformedEvent), Err(DecodeError::TruncatedStream)]
    );
    assert_eq!(
        decode_stream(&chunks(&["\n\n\n\n"])),
        vec![Err(DecodeError::MalformedEvent), Err(DecodeError::MalformedEvent)]
    );
}

#[test]
fn single_newlines_belong_to_the_payload() {
    let outcomes = decode_stream(&chunks(&["{\"candidates\":\n[\n]\n}\n\n"]));
    assert_eq!(outcomes, vec![Ok(empty_event())]);
}

#[test]
fn truncation_is_reported_once_and_then_the_reader_is_closed() {
    let mut reader = EventStreamReader::new();
    reader.feed(b"{\"cand");
    reader.end();
    assert_eq!(reader.state(), ReaderState::EmittingEvent);
    assert_eq!(reader.next(), Step::Event(Err(DecodeError::TruncatedStream)));
    assert_eq!(reader.state(), ReaderState::Closed);
    assert_eq!(reader.next(), Step::Done);
}

#[test]
fn pending_events_are_given_out_after_the_end() {
    let mut reader = EventStreamReader::new();
    reader.feed(b"{\"candidates\":[]}\n\n{\"candidates\":[]}\n\nrest");
    reader.end();
    assert_eq!(reader.next(), Step::Event(Ok(empty_event())));
    assert_eq!(reader.state(), ReaderState::EmittingEvent);
    assert_eq!(reader.next(), Step::Event(Ok(empty_event())));
    assert_eq!(reader.next(), Step::Event(Err(DecodeError::TruncatedStream)));
    assert_eq!(reader.next(), Step::Done);
}

#[test]
fn nothing_is_taken_in_after_the_end() {
    let mut reader = EventStreamReader::new();
    reader.end();
    reader.feed(b"{\"candidates\":[]}\n\n");
    assert_eq!(reader.state(), ReaderState::Closed);
    assert_eq!(reader.next(), Step::Done);
}

#[test]
fn abort_drops_what_is_pending() {
    let mut reader = EventStreamReader::new();
    reader.feed(b"{\"candidates\":[]}\n\n{\"cand");
    reader.abort();
    assert_eq!(reader.state(), ReaderState::Closed);
    assert_eq!(reader.next(), Step::Done);
}

#[test]
fn drain_collects_what_is_ready() {
    let mut reader = EventStreamReader::new();
    let mut outcomes = vec![Err(DecodeError::NotAnObject)];
    reader.feed(b"{\"candidates\":[]}\n\nbad\n\n{\"ca");
    reader.drain(&mut outcomes);
    assert_eq!(
        outcomes,
        vec![Err(DecodeError::NotAnObject), Ok(empty_event()), Err(DecodeError::MalformedEvent)]
    );
    assert_eq!(reader.state(), ReaderState::AwaitingData);
    reader.end();
    reader.drain(&mut outcomes);
    assert_eq!(outcomes.len(), 4);
    assert_eq!(outcomes[3], Err(DecodeError::TruncatedStream));
    assert_eq!(reader.state(), ReaderState::Closed);
}

#[test]
fn decode_event_reads_one_payload() {
    assert_eq!(decode_event(HI.as_bytes()), Ok(event_with_text(0, "hi")));
    assert_eq!(decode_event(b"{\"candidates\":[]}"), Ok(empty_event()));
    assert_eq!(decode_event(b"{\"candidates\":[]"), Err(DecodeError::MalformedEvent));
    assert_eq!(decode_event(b""), Err(DecodeError::MalformedEvent));
    assert_eq!(decode_event(b"{}"), Err(DecodeError::MalformedEvent));
}

#[test]
fn event_from_document_maps_every_failure_to_malformed_event() {
    assert_eq!(event_from_document(None), Err(DecodeError::MalformedEvent));
    assert_eq!(event_from_document(Some(Json::Null)), Err(DecodeError::MalformedEvent));
    assert_eq!(
        event_from_document(Some(Json::Object(vec![(
            "candidates".to_string(),
            Json::Array(vec![Json::Object(vec![(
                "index".to_string(),
                Json::Number(serde_json::Number::from(0))
            )])])
        )]))),
        Err(DecodeError::MalformedEvent)
    );
    assert_eq!(
        event_from_document(Some(Json::Object(vec![(
            "candidates".to_string(),
            Json::Array(vec![])
        )]))),
        Ok(empty_event())
    );
}
