use google_generative_ai_rs::v1::errors::DecodeError;
use google_generative_ai_rs::v1::json::Json;
use google_generative_ai_rs::v1::types::content_types::{
    ContentType, FileData, FileDataPart, FunctionCall, FunctionCallPart, FunctionResponse,
    FunctionResponsePart, GenerativeContentBlob, InlineDataPart, Part, TextPart,
};

fn text(s: &str) -> Json {
    Json::Text(s.to_string())
}

fn object(members: Vec<(&str, Json)>) -> Json {
    Json::Object(members.into_iter().map(|(k, v)| (k.to_string(), v)).collect())
}

fn number(n: u64) -> Json {
    Json::Number(serde_json::Number::from(n))
}

fn text_part(s: &str) -> Part {
    Part::TextPart(TextPart { text: s.to_string() })
}

fn inline_part() -> Part {
    Part::InlineDataPart(InlineDataPart {
        inline_data: GenerativeContentBlob {
            mime_type: "image/png".to_string(),
            data: "aGVsbG8=".to_string(),
        },
    })
}

fn call_part() -> Part {
    Part::FunctionCallPart(FunctionCallPart {
        function_call: FunctionCall {
            name: "lookup".to_string(),
            args: vec![
                ("city".to_string(), text("Paris")),
                ("days".to_string(), number(3)),
                ("nested".to_string(), object(vec![("deep", Json::Array(vec![Json::Null]))])),
            ],
        },
    })
}

fn response_part() -> Part {
    Part::FunctionResponsePart(FunctionResponsePart {
        function_response: FunctionResponse {
            name: "lookup".to_string(),
            response: vec![("ok".to_string(), Json::Bool(true))],
        },
    })
}

fn file_part() -> Part {
    Part::FileDataPart(FileDataPart {
        file_data: FileData {
            mime_type: "video/mp4".to_string(),
            file_uri: "files/abc".to_string(),
        },
    })
}

#[test]
fn text_part_encodes_under_text() {
    assert_eq!(text_part("hi").encode(), object(vec![("text", text("hi"))]));
}

#[test]
fn inline_data_part_encodes_under_inline_data() {
    assert_eq!(
        inline_part().encode(),
        object(vec![(
            "inlineData",
            object(vec![("mimeType", text("image/png")), ("data", text("aGVsbG8="))])
        )])
    );
}

#[test]
fn function_call_part_encodes_under_function_call() {
    let part = Part::FunctionCallPart(FunctionCallPart {
        function_call: FunctionCall {
            name: "f".to_string(),
            args: vec![("x".to_string(), number(1))],
        },
    });
    assert_eq!(
        part.encode(),
        object(vec![(
            "functionCall",
            object(vec![("name", text("f")), ("args", object(vec![("x", number(1))]))])
        )])
    );
}

#[test]
fn function_response_part_encodes_under_function_response() {
    assert_eq!(
        response_part().encode(),
        object(vec![(
            "functionResponse",
            object(vec![
                ("name", text("lookup")),
                ("response", object(vec![("ok", Json::Bool(true))]))
            ])
        )])
    );
}

#[test]
fn file_data_part_encodes_under_file_data() {
    assert_eq!(
        file_part().encode(),
        object(vec![(
            "fileData",
            object(vec![("mimeType", text("video/mp4")), ("fileUri", text("files/abc"))])
        )])
    );
}

#[test]
fn every_variant_round_trips() {
    for part in [text_part("hello"), inline_part(), call_part(), response_part(), file_part()] {
        assert_eq!(Part::decode(&part.encode()), Ok(part));
    }
}

#[test]
fn round_trip_through_text() {
    for part in [text_part("a \"quoted\" é"), inline_part(), call_part(), response_part(), file_part()] {
        let wire = part.encode().to_text().unwrap();
        let back = Json::parse(wire.as_bytes()).unwrap();
        assert_eq!(Part::decode(&back), Ok(part));
    }
}

#[test]
fn text_part_on_the_wire() {
    assert_eq!(text_part("hi").encode().to_text().unwrap(), "{\"text\":\"hi\"}");
}

#[test]
fn inline_data_on_the_wire() {
    let back = Json::parse(b"{\"inlineData\":{\"mimeType\":\"image/png\",\"data\":\"aGVsbG8=\"}}")
        .unwrap();
    assert_eq!(Part::decode(&back), Ok(inline_part()));
}

#[test]
fn not_an_object_is_rejected() {
    for value in [
        Json::Null,
        Json::Bool(true),
        number(1),
        text("text"),
        Json::Array(vec![object(vec![("text", text("hi"))])]),
    ] {
        assert_eq!(Part::decode(&value), Err(DecodeError::NotAnObject));
    }
}

#[test]
fn object_without_discriminator_is_unknown_shape() {
    assert_eq!(Part::decode(&object(vec![])), Err(DecodeError::UnknownPartShape));
    assert_eq!(
        Part::decode(&object(vec![("Text", text("hi")), ("inline_data", Json::Null)])),
        Err(DecodeError::UnknownPartShape)
    );
}

#[test]
fn earliest_discriminator_wins() {
    let both = object(vec![
        ("fileData", object(vec![("mimeType", text("a/b")), ("fileUri", text("u"))])),
        ("text", text("hi")),
    ]);
    assert_eq!(Part::decode(&both), Ok(text_part("hi")));

    let later_two = object(vec![
        ("functionResponse", object(vec![("name", text("f")), ("response", object(vec![]))])),
        ("inlineData", object(vec![("mimeType", text("image/png")), ("data", text("aGVsbG8="))])),
    ]);
    assert_eq!(Part::decode(&later_two), Ok(inline_part()));
}

#[test]
fn earliest_discriminator_wins_even_if_malformed() {
    let both = object(vec![("text", number(1)), ("fileData", object(vec![
        ("mimeType", text("a/b")),
        ("fileUri", text("u")),
    ]))]);
    assert_eq!(Part::decode(&both), Err(DecodeError::MalformedField("text".to_string())));
}

#[test]
fn malformed_payloads_are_rejected_under_their_key() {
    let cases = vec![
        (object(vec![("text", Json::Null)]), "text"),
        (object(vec![("inlineData", text("x"))]), "inlineData"),
        (object(vec![("inlineData", object(vec![("mimeType", text("a/b"))]))]), "inlineData"),
        (object(vec![("inlineData", object(vec![("data", text("x"))]))]), "inlineData"),
        (
            object(vec![("inlineData", object(vec![("mimeType", number(1)), ("data", text("x"))]))]),
            "inlineData",
        ),
        (object(vec![("functionCall", Json::Array(vec![]))]), "functionCall"),
        (object(vec![("functionCall", object(vec![("name", text("f"))]))]), "functionCall"),
        (
            object(vec![("functionCall", object(vec![("name", text("f")), ("args", text("x"))]))]),
            "functionCall",
        ),
        (
            object(vec![("functionResponse", object(vec![("response", object(vec![]))]))]),
            "functionResponse",
        ),
        (object(vec![("fileData", object(vec![("mimeType", text("a/b"))]))]), "fileData"),
        (object(vec![("fileData", Json::Bool(false))]), "fileData"),
    ];
    for (value, key) in cases {
        assert_eq!(Part::decode(&value), Err(DecodeError::MalformedField(key.to_string())));
    }
}

#[test]
fn later_member_with_same_key_counts() {
    let twice = object(vec![("text", number(1)), ("text", text("second"))]);
    assert_eq!(Part::decode(&twice), Ok(text_part("second")));
}

#[test]
fn other_members_are_ignored() {
    let extra = object(vec![("thought", Json::Bool(true)), ("text", text("hi"))]);
    assert_eq!(Part::decode(&extra), Ok(text_part("hi")));
}

#[test]
fn content_encodes_role_and_parts() {
    let content = ContentType { role: "user".to_string(), parts: vec![text_part("a"), file_part()] };
    assert_eq!(
        content.encode(),
        object(vec![
            ("role", text("user")),
            ("parts", Json::Array(vec![text_part("a").encode(), file_part().encode()]))
        ])
    );
}

#[test]
fn content_round_trip_keeps_order() {
    let content = ContentType {
        role: "model".to_string(),
        parts: vec![
            text_part("one"),
            call_part(),
            text_part("two"),
            inline_part(),
            text_part("one"),
            response_part(),
            file_part(),
        ],
    };
    let back = ContentType::decode(&content.encode()).unwrap();
    assert_eq!(back, content);
    assert_eq!(back.parts[0], text_part("one"));
    assert_eq!(back.parts[2], text_part("two"));
    assert_eq!(back.parts[6], file_part());
}

#[test]
fn content_without_parts_round_trips() {
    let content = ContentType { role: "user".to_string(), parts: vec![] };
    assert_eq!(ContentType::decode(&content.encode()), Ok(content));
}

#[test]
fn content_errors() {
    assert_eq!(ContentType::decode(&Json::Null), Err(DecodeError::NotAnObject));
    assert_eq!(
        ContentType::decode(&object(vec![("parts", Json::Array(vec![]))])),
        Err(DecodeError::MalformedField("role".to_string()))
    );
    assert_eq!(
        ContentType::decode(&object(vec![("role", text("user"))])),
        Err(DecodeError::MalformedField("parts".to_string()))
    );
    assert_eq!(
        ContentType::decode(&object(vec![("role", text("user")), ("parts", object(vec![]))])),
        Err(DecodeError::MalformedField("parts".to_string()))
    );
}

#[test]
fn content_reports_first_rejected_part() {
    let value = object(vec![
        ("role", text("user")),
        (
            "parts",
            Json::Array(vec![
                object(vec![("text", text("fine"))]),
                object(vec![("other", text("x"))]),
                number(3),
            ]),
        ),
    ]);
    assert_eq!(ContentType::decode(&value), Err(DecodeError::UnknownPartShape));
}

#[test]
fn error_messages() {
    assert_eq!(DecodeError::NotAnObject.message(), "Expected JSON object");
    assert_eq!(DecodeError::UnknownPartShape.message(), "Invalid data structure.");
    assert_eq!(
        DecodeError::MalformedField("inlineData".to_string()).message(),
        "Malformed field: inlineData"
    );
    assert_eq!(DecodeError::MalformedEvent.message(), "Malformed event.");
    assert_eq!(DecodeError::TruncatedStream.message(), "Stream ended inside an event.");
    assert_eq!(DecodeError::malformed("x"), DecodeError::MalformedField("x".to_string()));
}

#[test]
fn every_pair_of_discriminators_resolves_in_the_documented_order() {
    let order: Vec<(&str, Json, Part)> = vec![
        ("text", text("hello"), text_part("hello")),
        ("inlineData", inline_part().encode().as_object().unwrap()[0].1.clone(), inline_part()),
        ("functionCall", call_part().encode().as_object().unwrap()[0].1.clone(), call_part()),
        (
            "functionResponse",
            response_part().encode().as_object().unwrap()[0].1.clone(),
            response_part(),
        ),
        ("fileData", file_part().encode().as_object().unwrap()[0].1.clone(), file_part()),
    ];
    for early in 0..order.len() {
        for late in (early + 1)..order.len() {
            let forwards = object(vec![
                (order[early].0, order[early].1.clone()),
                (order[late].0, order[late].1.clone()),
            ]);
            let backwards = object(vec![
                (order[late].0, order[late].1.clone()),
                (order[early].0, order[early].1.clone()),
            ]);
            assert_eq!(Part::decode(&forwards), Ok(order[early].2.clone()));
            assert_eq!(Part::decode(&backwards), Ok(order[early].2.clone()));
        }
    }
}
