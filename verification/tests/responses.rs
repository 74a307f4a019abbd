use google_generative_ai_rs::v1::errors::DecodeError;
use google_generative_ai_rs::v1::json::Json;
use google_generative_ai_rs::v1::types::content_types::{ContentType, Part, TextPart};
use google_generative_ai_rs::v1::types::response_type::{
    CitationMetadata, CitationSource, FinishReason, GenerateContentCandidate,
    GenerateContentResponse, HarmProbability, SafetyRating,
};
use google_generative_ai_rs::v1::types::safety_types::{HarmBlockThreshold, HarmCategory};

fn parse(text: &str) -> Json {
    Json::parse(text.as_bytes()).unwrap()
}

fn malformed(key: &str) -> DecodeError {
    DecodeError::MalformedField(key.to_string())
}

#[test]
fn full_candidate_is_decoded() {
    let json = parse(
        "{\"candidates\":[{\"index\":2,\"content\":{\"role\":\"model\",\"parts\":[{\"text\":\"x\"}]},\
         \"finishReason\":\"STOP\",\"finishMessage\":\"done\",\
         \"safetyRatings\":[{\"category\":\"HARM_CATEGORY_HARASSMENT\",\"probability\":\"LOW\"}],\
         \"citationMetadata\":{\"citationSources\":[{\"startIndex\":1,\"endIndex\":9,\
         \"uri\":\"http://x\",\"license\":\"MIT\"},{}]}}],\"usageMetadata\":{\"x\":1}}",
    );
    let expected = GenerateContentResponse {
        candidates: vec![GenerateContentCandidate {
            index: 2,
            content: ContentType {
                role: "model".to_string(),
                parts: vec![Part::TextPart(TextPart { text: "x".to_string() })],
            },
            finish_reason: Some(FinishReason::Stop),
            finish_message: Some("done".to_string()),
            safety_ratings: Some(vec![SafetyRating {
                category: HarmCategory::HarmCategoryHarassment,
                probability: HarmProbability::Low,
            }]),
            citation_metadata: Some(CitationMetadata {
                citation_sources: vec![
                    CitationSource {
                        start_index: Some(1),
                        end_index: Some(9),
                        uri: Some("http://x".to_string()),
                        license: Some("MIT".to_string()),
                    },
                    CitationSource { start_index: None, end_index: None, uri: None, license: None },
                ],
            }),
        }],
    };
    assert_eq!(GenerateContentResponse::decode(&json), Ok(expected));
}

#[test]
fn null_counts_as_missing_for_optional_members() {
    let json = parse(
        "{\"index\":0,\"content\":{\"role\":\"model\",\"parts\":[]},\"finishReason\":null,\
         \"finishMessage\":null,\"safetyRatings\":null,\"citationMetadata\":null}",
    );
    let candidate = GenerateContentCandidate::decode(&json).unwrap();
    assert_eq!(candidate.finish_reason, None);
    assert_eq!(candidate.finish_message, None);
    assert_eq!(candidate.safety_ratings, None);
    assert_eq!(candidate.citation_metadata, None);
}

#[test]
fn response_errors() {
    assert_eq!(GenerateContentResponse::decode(&parse("[]")), Err(DecodeError::NotAnObject));
    assert_eq!(GenerateContentResponse::decode(&parse("{}")), Err(malformed("candidates")));
    assert_eq!(
        GenerateContentResponse::decode(&parse("{\"candidates\":null}")),
        Err(malformed("candidates"))
    );
    assert_eq!(
        GenerateContentResponse::decode(&parse("{\"candidates\":[1]}")),
        Err(DecodeError::NotAnObject)
    );
}

#[test]
fn candidate_errors_come_in_member_order() {
    let cases = vec![
        ("{}", malformed("index")),
        ("{\"index\":null,\"content\":{}}", malformed("index")),
        ("{\"index\":1.5}", malformed("index")),
        ("{\"index\":2147483648}", malformed("index")),
        ("{\"index\":0}", malformed("content")),
        ("{\"index\":0,\"content\":3}", DecodeError::NotAnObject),
        ("{\"index\":0,\"content\":{\"parts\":[]}}", malformed("role")),
        (
            "{\"index\":0,\"content\":{\"role\":\"m\",\"parts\":[{\"x\":1}]}}",
            DecodeError::UnknownPartShape,
        ),
        (
            "{\"index\":0,\"content\":{\"role\":\"m\",\"parts\":[]},\"finishReason\":\"stop\"}",
            malformed("finishReason"),
        ),
        (
            "{\"index\":0,\"content\":{\"role\":\"m\",\"parts\":[]},\"finishReason\":1,\"finishMessage\":2}",
            malformed("finishReason"),
        ),
        (
            "{\"index\":0,\"content\":{\"role\":\"m\",\"parts\":[]},\"finishMessage\":2}",
            malformed("finishMessage"),
        ),
        (
            "{\"index\":0,\"content\":{\"role\":\"m\",\"parts\":[]},\"safetyRatings\":{}}",
            malformed("safetyRatings"),
        ),
        (
            "{\"index\":0,\"content\":{\"role\":\"m\",\"parts\":[]},\"safetyRatings\":[{\"category\":\"X\"}]}",
            malformed("category"),
        ),
        (
            "{\"index\":0,\"content\":{\"role\":\"m\",\"parts\":[]},\"safetyRatings\":[{\"category\":\"HARM_CATEGORY_HATE_SPEECH\"}]}",
            malformed("probability"),
        ),
        (
            "{\"index\":0,\"content\":{\"role\":\"m\",\"parts\":[]},\"citationMetadata\":{}}",
            malformed("citationSources"),
        ),
        (
            "{\"index\":0,\"content\":{\"role\":\"m\",\"parts\":[]},\"citationMetadata\":{\"citationSources\":[{\"uri\":1}]}}",
            malformed("uri"),
        ),
        (
            "{\"index\":0,\"content\":{\"role\":\"m\",\"parts\":[]},\"citationMetadata\":{\"citationSources\":[{\"startIndex\":\"1\",\"uri\":1}]}}",
            malformed("startIndex"),
        ),
    ];
    for (text, error) in cases {
        assert_eq!(GenerateContentCandidate::decode(&parse(text)), Err(error));
    }
}

#[test]
fn negative_index_is_accepted() {
    let json = parse("{\"index\":-3,\"content\":{\"role\":\"m\",\"parts\":[]}}");
    assert_eq!(GenerateContentCandidate::decode(&json).unwrap().index, -3);
}

#[test]
fn finish_reasons_by_name() {
    assert_eq!(
        FinishReason::from_name("FINISH_REASON_UNSPECIFIED"),
        Some(FinishReason::FinishReasonUnspecified)
    );
    assert_eq!(FinishReason::from_name("STOP"), Some(FinishReason::Stop));
    assert_eq!(FinishReason::from_name("MAX_TOKENS"), Some(FinishReason::MaxTokens));
    assert_eq!(FinishReason::from_name("SAFETY"), Some(FinishReason::Safety));
    assert_eq!(FinishReason::from_name("RECITATION"), Some(FinishReason::Recitation));
    assert_eq!(FinishReason::from_name("OTHER"), Some(FinishReason::Other));
    assert_eq!(FinishReason::from_name("Stop"), None);
    assert_eq!(FinishReason::from_name(""), None);
}

#[test]
fn harm_probabilities_by_name() {
    assert_eq!(
        HarmProbability::from_name("HARM_PROBABILITY_UNSPECIFIED"),
        Some(HarmProbability::HarmProbabilityUnspecified)
    );
    assert_eq!(HarmProbability::from_name("NEGLIGIBLE"), Some(HarmProbability::Negligible));
    assert_eq!(HarmProbability::from_name("LOW"), Some(HarmProbability::Low));
    assert_eq!(HarmProbability::from_name("MEDIUM"), Some(HarmProbability::Medium));
    assert_eq!(HarmProbability::from_name("HIGH"), Some(HarmProbability::High));
    assert_eq!(HarmProbability::from_name("high"), None);
}

#[test]
fn harm_categories_by_name_and_back() {
    for category in [
        HarmCategory::HarmCategoryUnspecified,
        HarmCategory::HarmCategoryHateSpeech,
        HarmCategory::HarmCategorySexuallyExplicit,
        HarmCategory::HarmCategoryHarassment,
        HarmCategory::HarmCategoryDangerousContent,
    ] {
        assert_eq!(HarmCategory::from_name(category.to_str()), Some(category));
    }
    assert_eq!(HarmCategory::HarmCategoryHateSpeech.to_str(), "HARM_CATEGORY_HATE_SPEECH");
    assert_eq!(HarmCategory::from_name("HARM_CATEGORY"), None);
    assert_eq!(HarmBlockThreshold::BlockOnlyHigh.to_str(), "BlockOnlyHigh");
    assert_eq!(
        HarmBlockThreshold::HarmBlockThresholdUnspecified.to_str(),
        "HarmBlockThresholdUnspecified"
    );
}

#[test]
fn safety_rating_is_decoded() {
    let json = parse("{\"category\":\"HARM_CATEGORY_DANGEROUS_CONTENT\",\"probability\":\"HIGH\"}");
    assert_eq!(
        SafetyRating::decode(&json),
        Ok(SafetyRating {
            category: HarmCategory::HarmCategoryDangerousContent,
            probability: HarmProbability::High,
        })
    );
    assert_eq!(SafetyRating::decode(&Json::Null), Err(DecodeError::NotAnObject));
}
