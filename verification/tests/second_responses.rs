use google_generative_ai_rs::v1::errors::DecodeError;
use google_generative_ai_rs::v1::json::Json;
use google_generative_ai_rs::v1::types::content_types::{ContentType, Part, TextPart};
use google_generative_ai_rs::v1::types::responses::{
    BlockReason, Candidate, CitationMetadata as Citations, CitationSource as Source,
    FinishReason as Reason, GenerateContentResponse as Response, PromptFeedback,
    SafetyRating as Rating, UsageMetadata,
};
use google_generative_ai_rs::v1::types::safety_types::{
    HarmCategory, HarmProbability as Probability,
};

fn parse(text: &str) -> Json {
    Json::parse(text.as_bytes()).unwrap()
}

fn malformed(key: &str) -> DecodeError {
    DecodeError::MalformedField(key.to_string())
}

#[test]
fn second_interface_response_is_decoded() {
    let json = parse(
        "{\"candidates\":[{\"index\":1,\"content\":{\"role\":\"model\",\"parts\":[{\"text\":\"x\"}]},\
         \"finishReason\":\"LANGUAGE\",\
         \"safetyRatings\":[{\"category\":\"HARM_CATEGORY_HATE_SPEECH\",\"probability\":\"MEDIUM\",\"blocked\":true},\
         {\"category\":\"HARM_CATEGORY_UNSPECIFIED\",\"probability\":\"NEGLIGIBLE\"}],\
         \"citationMetadata\":{\"citationSources\":[{\"startIndex\":4294967295}]},\"tokenCount\":9}],\
         \"promptFeedback\":{\"blockReason\":\"SAFETY\",\"safetyRatings\":[],\"blockReasonMessage\":\"no\"},\
         \"usageMetadata\":{\"promptTokenCount\":1,\"candidatesTokenCount\":2,\"totalTokenCount\":3}}",
    );
    let expected = Response {
        candidates: vec![Candidate {
            index: 1,
            content: ContentType {
                role: "model".to_string(),
                parts: vec![Part::TextPart(TextPart { text: "x".to_string() })],
            },
            finish_reason: Some(Reason::Language),
            safety_ratings: vec![
                Rating {
                    category: HarmCategory::HarmCategoryHateSpeech,
                    probability: Probability::Medium,
                    blocked: Some(true),
                },
                Rating {
                    category: HarmCategory::HarmCategoryUnspecified,
                    probability: Probability::Negligible,
                    blocked: None,
                },
            ],
            citation_metadata: Some(Citations {
                citation_sources: vec![Source {
                    start_index: Some(u32::MAX),
                    end_index: None,
                    uri: None,
                    license: None,
                }],
            }),
            token_count: Some(9),
        }],
        prompt_feedback: Some(PromptFeedback {
            block_reason: BlockReason::Safety,
            safety_ratings: vec![],
            block_reason_message: Some("no".to_string()),
        }),
        usage_metadata: UsageMetadata {
            prompt_token_count: 1,
            candidates_token_count: 2,
            total_token_count: 3,
            cached_content_token_count: None,
        },
    };
    assert_eq!(Response::decode(&json), Ok(expected.clone()));
    assert_eq!(Response::from_document(Some(json)), Ok(expected));
    assert_eq!(Response::from_document(None), Err(DecodeError::MalformedEvent));
}

#[test]
fn second_interface_errors() {
    let usage = "\"usageMetadata\":{\"promptTokenCount\":1,\"candidatesTokenCount\":2,\"totalTokenCount\":3}";
    assert_eq!(Response::decode(&parse("3")), Err(DecodeError::NotAnObject));
    assert_eq!(Response::decode(&parse("{}")), Err(malformed("candidates")));
    assert_eq!(Response::decode(&parse("{\"candidates\":[]}")), Err(malformed("usageMetadata")));
    assert_eq!(
        Response::decode(&parse("{\"candidates\":[],\"usageMetadata\":null}")),
        Err(DecodeError::NotAnObject)
    );
    assert_eq!(
        Response::decode(&parse(&format!("{{\"candidates\":[],\"promptFeedback\":{{}},{}}}", usage))),
        Err(malformed("blockReason"))
    );
    assert!(Response::decode(&parse(&format!("{{\"candidates\":[],\"promptFeedback\":null,{}}}", usage)))
        .is_ok());
    assert_eq!(
        Candidate::decode(&parse("{\"index\":-1}")),
        Err(malformed("index"))
    );
    assert_eq!(
        Candidate::decode(&parse("{\"index\":0,\"content\":{\"role\":\"m\",\"parts\":[]}}")),
        Err(malformed("safetyRatings"))
    );
    assert_eq!(
        Candidate::decode(&parse(
            "{\"index\":0,\"content\":{\"role\":\"m\",\"parts\":[]},\"safetyRatings\":[],\"tokenCount\":\"9\"}"
        )),
        Err(malformed("tokenCount"))
    );
    assert_eq!(
        Rating::decode(&parse(
            "{\"category\":\"HARM_CATEGORY_HARASSMENT\",\"probability\":\"LOW\",\"blocked\":1}"
        )),
        Err(malformed("blocked"))
    );
    assert_eq!(
        UsageMetadata::decode(&parse("{\"promptTokenCount\":1,\"candidatesTokenCount\":4294967296}")),
        Err(malformed("candidatesTokenCount"))
    );
    assert_eq!(
        PromptFeedback::decode(&parse("{\"blockReason\":\"OTHER\"}")),
        Err(malformed("safetyRatings"))
    );
    assert_eq!(Reason::from_name("LANGUAGE"), Some(Reason::Language));
    assert_eq!(Reason::from_name("STOP"), Some(Reason::Stop));
    assert_eq!(Reason::from_name("language"), None);
    assert_eq!(
        BlockReason::from_name("BLOCKED_REASON_UNSPECIFIED"),
        Some(BlockReason::BlockedReasonUnspecified)
    );
    assert_eq!(BlockReason::from_name("OTHER"), Some(BlockReason::Other));
    assert_eq!(BlockReason::from_name("BLOCKED"), None);
}
