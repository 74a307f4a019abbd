//! One response of the model as it arrives, whole or as one event of a
//! stream, and its decoding from JSON.

use crate::v1::errors::{DecodeError, DecodeErrorView};
use crate::v1::fields::{
    optional_i32, optional_text, read_i32, read_optional_i32, read_optional_text, required_i32,
    text_option,
};
use crate::v1::json::{
    array_field, array_of, field, find_member, find_present, items_view, member_array, member_text,
    object_view, present_field, text_field, text_of, Json, JsonView,
};
use crate::v1::lists::{all_from_json, lemma_all_rejected, lemma_one_more};
use crate::v1::text::text_eq;
use crate::v1::types::content_types::{content_from_json, ContentType, ContentView};
use crate::v1::types::safety_types::HarmCategory;
use vstd::prelude::*;

verus! {

/// Reason that a candidate finished.
#[derive(Debug, Clone, Copy, PartialEq, Eq)]
pub enum FinishReason {
    /// Default value. This value is unused.
    FinishReasonUnspecified,
    /// Natural stop point of the model or provided stop sequence.
    Stop,
    /// The maximum number of tokens as specified in the request was reached.
    MaxTokens,
    /// The candidate content was flagged for safety reasons.
    Safety,
    /// The candidate content was flagged for recitation reasons.
    Recitation,
    /// Unknown reason.
    Other,
}

impl FinishReason {
    /// The name of this reason on the wire.
    pub open spec fn wire_name(self) -> Seq<char> {
        match self {
            FinishReason::FinishReasonUnspecified => "FINISH_REASON_UNSPECIFIED"@,
            FinishReason::Stop => "STOP"@,
            FinishReason::MaxTokens => "MAX_TOKENS"@,
            FinishReason::Safety => "SAFETY"@,
            FinishReason::Recitation => "RECITATION"@,
            FinishReason::Other => "OTHER"@,
        }
    }

    /// The reason that a wire name stands for, if it is one.
    pub open spec fn named(name: Seq<char>) -> Option<FinishReason> {
        if name == FinishReason::FinishReasonUnspecified.wire_name() {
            Some(FinishReason::FinishReasonUnspecified)
        } else if name == FinishReason::Stop.wire_name() {
            Some(FinishReason::Stop)
        } else if name == FinishReason::MaxTokens.wire_name() {
            Some(FinishReason::MaxTokens)
        } else if name == FinishReason::Safety.wire_name() {
            Some(FinishReason::Safety)
        } else if name == FinishReason::Recitation.wire_name() {
            Some(FinishReason::Recitation)
        } else if name == FinishReason::Other.wire_name() {
            Some(FinishReason::Other)
        } else {
            None
        }
    }

    /// The reason that a wire name stands for, if it is one.
    pub fn from_name(name: &str) -> (reason: Option<FinishReason>)
        ensures
            reason == FinishReason::named(name@),
    {
        if text_eq(name, "FINISH_REASON_UNSPECIFIED") {
            Some(FinishReason::FinishReasonUnspecified)
        } else if text_eq(name, "STOP") {
            Some(FinishReason::Stop)
        } else if text_eq(name, "MAX_TOKENS") {
            Some(FinishReason::MaxTokens)
        } else if text_eq(name, "SAFETY") {
            Some(FinishReason::Safety)
        } else if text_eq(name, "RECITATION") {
            Some(FinishReason::Recitation)
        } else if text_eq(name, "OTHER") {
            Some(FinishReason::Other)
        } else {
            None
        }
    }

    /// Every reason is the one that its wire name stands for.
    pub proof fn lemma_named(self)
        ensures
            FinishReason::named(self.wire_name()) == Some(self),
    {
        reveal_strlit("FINISH_REASON_UNSPECIFIED");
        reveal_strlit("STOP");
        reveal_strlit("MAX_TOKENS");
        reveal_strlit("SAFETY");
        reveal_strlit("RECITATION");
        reveal_strlit("OTHER");
        assert("FINISH_REASON_UNSPECIFIED"@.len() == 25);
        assert("STOP"@.len() == 4);
        assert("MAX_TOKENS"@.len() == 10);
        assert("SAFETY"@.len() == 6);
        assert("RECITATION"@.len() == 10);
        assert("OTHER"@.len() == 5);
        assert("MAX_TOKENS"@[0] == 'M');
        assert("RECITATION"@[0] == 'R');
    }
}

/// Probability that a prompt or candidate matches a harm category.
#[derive(Debug, Clone, Copy, PartialEq, Eq)]
pub enum HarmProbability {
    /// Probability is unspecified.
    HarmProbabilityUnspecified,
    /// Content has a negligible chance of being unsafe.
    Negligible,
    /// Content has a low chance of being unsafe.
    Low,
    /// Content has a medium chance of being unsafe.
    Medium,
    /// Content has a high chance of being unsafe.
    High,
}

impl HarmProbability {
    /// The name of this probability on the wire.
    pub open spec fn wire_name(self) -> Seq<char> {
        match self {
            HarmProbability::HarmProbabilityUnspecified => "HARM_PROBABILITY_UNSPECIFIED"@,
            HarmProbability::Negligible => "NEGLIGIBLE"@,
            HarmProbability::Low => "LOW"@,
            HarmProbability::Medium => "MEDIUM"@,
            HarmProbability::High => "HIGH"@,
        }
    }

    /// The probability that a wire name stands for, if it is one.
    pub open spec fn named(name: Seq<char>) -> Option<HarmProbability> {
        if name == HarmProbability::HarmProbabilityUnspecified.wire_name() {
            Some(HarmProbability::HarmProbabilityUnspecified)
        } else if name == HarmProbability::Negligible.wire_name() {
            Some(HarmProbability::Negligible)
        } else if name == HarmProbability::Low.wire_name() {
            Some(HarmProbability::Low)
        } else if name == HarmProbability::Medium.wire_name() {
            Some(HarmProbability::Medium)
        } else if name == HarmProbability::High.wire_name() {
            Some(HarmProbability::High)
        } else {
            None
        }
    }

    /// The probability that a wire name stands for, if it is one.
    pub fn from_name(name: &str) -> (probability: Option<HarmProbability>)
        ensures
            probability == HarmProbability::named(name@),
    {
        if text_eq(name, "HARM_PROBABILITY_UNSPECIFIED") {
            Some(HarmProbability::HarmProbabilityUnspecified)
        } else if text_eq(name, "NEGLIGIBLE") {
            Some(HarmProbability::Negligible)
        } else if text_eq(name, "LOW") {
            Some(HarmProbability::Low)
        } else if text_eq(name, "MEDIUM") {
            Some(HarmProbability::Medium)
        } else if text_eq(name, "HIGH") {
            Some(HarmProbability::High)
        } else {
            None
        }
    }
}

/// Reason that a prompt was blocked.
#[derive(Debug, Clone, Copy, PartialEq, Eq)]
pub enum BlockReason {
    /// A blocked reason was not specified.
    BlockedReasonUnspecified,
    /// Content was blocked by safety settings.
    Safety,
    /// Content was blocked, but the reason is uncategorized.
    Other,
}

/// A safety rating associated with a [`GenerateContentCandidate`].
#[derive(Debug, Clone, Copy, PartialEq, Eq)]
pub struct SafetyRating {
    pub category: HarmCategory,
    pub probability: HarmProbability,
}

/// A single citation source.
#[derive(Debug, Clone, PartialEq, Eq)]
pub struct CitationSource {
    pub start_index: Option<i32>,
    pub end_index: Option<i32>,
    pub uri: Option<String>,
    pub license: Option<String>,
}

/// Citation metadata that may be found on a [`GenerateContentCandidate`].
#[derive(Debug, Clone, PartialEq, Eq)]
pub struct CitationMetadata {
    pub citation_sources: Vec<CitationSource>,
}

/// If the prompt was blocked, this will be populated with the block reason
/// and the relevant safety ratings.
#[derive(Debug, Clone, PartialEq, Eq)]
pub struct PromptFeedback {
    pub block_reason: BlockReason,
    pub safety_ratings: Vec<SafetyRating>,
    pub block_reason_message: Option<String>,
}

/// Metadata on the generation request's token usage.
#[derive(Debug, Clone, Copy, PartialEq, Eq)]
pub struct UsageMetadata {
    /// Number of tokens in the prompt.
    pub prompt_token_count: i32,
    /// Total number of tokens across the generated candidates.
    pub candidates_token_count: i32,
    /// Total token count for the generation request (prompt + candidates).
    pub total_token_count: i32,
}

/// A candidate returned as part of a [`GenerateContentResponse`].
#[derive(Debug, Clone, PartialEq, Eq)]
pub struct GenerateContentCandidate {
    pub index: i32,
    pub content: ContentType,
    pub finish_reason: Option<FinishReason>,
    pub finish_message: Option<String>,
    pub safety_ratings: Option<Vec<SafetyRating>>,
    pub citation_metadata: Option<CitationMetadata>,
}

/// Individual response of a content generation. A streamed generation
/// yields one of these for each event until the stream is done.
#[derive(Debug, Clone, PartialEq, Eq)]
pub struct GenerateContentResponse {
    /// Candidate responses from the model.
    pub candidates: Vec<GenerateContentCandidate>,
}

/// The mathematical value of a [`CitationSource`].
pub struct CitationSourceView {
    pub start_index: Option<i32>,
    pub end_index: Option<i32>,
    pub uri: Option<Seq<char>>,
    pub license: Option<Seq<char>>,
}

/// The mathematical value of a [`CitationMetadata`].
pub struct CitationMetadataView {
    pub citation_sources: Seq<CitationSourceView>,
}

/// The mathematical value of a [`GenerateContentCandidate`].
pub struct CandidateView {
    pub index: i32,
    pub content: ContentView,
    pub finish_reason: Option<FinishReason>,
    pub finish_message: Option<Seq<char>>,
    pub safety_ratings: Option<Seq<SafetyRating>>,
    pub citation_metadata: Option<CitationMetadataView>,
}

/// The mathematical value of a [`GenerateContentResponse`].
pub struct ResponseView {
    pub candidates: Seq<CandidateView>,
}

impl View for CitationSource {
    type V = CitationSourceView;

    open spec fn view(&self) -> CitationSourceView {
        CitationSourceView {
            start_index: self.start_index,
            end_index: self.end_index,
            uri: text_option(self.uri),
            license: text_option(self.license),
        }
    }
}

/// The mathematical values of a list of citation sources, in order.
pub open spec fn sources_view(sources: Seq<CitationSource>) -> Seq<CitationSourceView> {
    Seq::new(sources.len(), |i: int| sources[i]@)
}

impl View for CitationMetadata {
    type V = CitationMetadataView;

    open spec fn view(&self) -> CitationMetadataView {
        CitationMetadataView { citation_sources: sources_view(self.citation_sources@) }
    }
}

impl View for GenerateContentCandidate {
    type V = CandidateView;

    open spec fn view(&self) -> CandidateView {
        CandidateView {
            index: self.index,
            content: self.content@,
            finish_reason: self.finish_reason,
            finish_message: text_option(self.finish_message),
            safety_ratings: match self.safety_ratings {
                Some(ratings) => Some(ratings@),
                None => None,
            },
            citation_metadata: match self.citation_metadata {
                Some(metadata) => Some(metadata@),
                None => None,
            },
        }
    }
}

/// The mathematical values of a list of candidates, in order.
pub open spec fn candidates_view(candidates: Seq<GenerateContentCandidate>) -> Seq<
    CandidateView,
> {
    Seq::new(candidates.len(), |i: int| candidates[i]@)
}

impl View for GenerateContentResponse {
    type V = ResponseView;

    open spec fn view(&self) -> ResponseView {
        ResponseView { candidates: candidates_view(self.candidates@) }
    }
}


/// The citation source that a JSON value denotes: an object whose four
/// members may each be missing.
pub open spec fn source_from_json(json: JsonView) -> Result<CitationSourceView, DecodeErrorView> {
    match json {
        JsonView::Object(object) => match (
            optional_i32(object, "startIndex"@),
            optional_i32(object, "endIndex"@),
            optional_text(object, "uri"@),
            optional_text(object, "license"@),
        ) {
            (Ok(start_index), Ok(end_index), Ok(uri), Ok(license)) => Ok(
                CitationSourceView { start_index, end_index, uri, license },
            ),
            (Err(error), _, _, _) => Err(error),
            (_, Err(error), _, _) => Err(error),
            (_, _, Err(error), _) => Err(error),
            (_, _, _, Err(error)) => Err(error),
        },
        _ => Err(DecodeErrorView::NotAnObject),
    }
}

/// Decoding one citation source, as a function.
pub open spec fn source_decoder() -> spec_fn(JsonView) -> Result<
    CitationSourceView,
    DecodeErrorView,
> {
    |json: JsonView| source_from_json(json)
}

/// The citation metadata that a JSON value denotes: an object with an array
/// of sources under `citationSources`.
pub open spec fn citations_from_json(json: JsonView) -> Result<
    CitationMetadataView,
    DecodeErrorView,
> {
    match json {
        JsonView::Object(object) => match array_field(object, "citationSources"@) {
            Some(items) => match all_from_json(items, source_decoder()) {
                Ok(citation_sources) => Ok(CitationMetadataView { citation_sources }),
                Err(error) => Err(error),
            },
            None => Err(DecodeErrorView::MalformedField("citationSources"@)),
        },
        _ => Err(DecodeErrorView::NotAnObject),
    }
}

/// The safety rating that a JSON value denotes: an object with the wire
/// names of a category and of a probability.
pub open spec fn rating_from_json(json: JsonView) -> Result<SafetyRating, DecodeErrorView> {
    match json {
        JsonView::Object(object) => match text_field(object, "category"@) {
            Some(category_name) => match HarmCategory::named(category_name) {
                Some(category) => match text_field(object, "probability"@) {
                    Some(probability_name) => match HarmProbability::named(probability_name) {
                        Some(probability) => Ok(SafetyRating { category, probability }),
                        None => Err(DecodeErrorView::MalformedField("probability"@)),
                    },
                    None => Err(DecodeErrorView::MalformedField("probability"@)),
                },
                None => Err(DecodeErrorView::MalformedField("category"@)),
            },
            None => Err(DecodeErrorView::MalformedField("category"@)),
        },
        _ => Err(DecodeErrorView::NotAnObject),
    }
}

/// Decoding one safety rating, as a function.
pub open spec fn rating_decoder() -> spec_fn(JsonView) -> Result<SafetyRating, DecodeErrorView> {
    |json: JsonView| rating_from_json(json)
}

/// The content that must stand under `content`.
pub open spec fn content_field(object: Map<Seq<char>, JsonView>) -> Result<
    ContentView,
    DecodeErrorView,
> {
    match field(object, "content"@) {
        Some(value) => content_from_json(value),
        None => Err(DecodeErrorView::MalformedField("content"@)),
    }
}

/// The finish reason that may stand under `finishReason`.
pub open spec fn finish_reason_field(object: Map<Seq<char>, JsonView>) -> Result<
    Option<FinishReason>,
    DecodeErrorView,
> {
    match present_field(object, "finishReason"@) {
        Some(value) => match text_of(value) {
            Some(name) => match FinishReason::named(name) {
                Some(reason) => Ok(Some(reason)),
                None => Err(DecodeErrorView::MalformedField("finishReason"@)),
            },
            None => Err(DecodeErrorView::MalformedField("finishReason"@)),
        },
        None => Ok(None),
    }
}

/// The safety ratings that may stand under `safetyRatings`.
pub open spec fn ratings_field(object: Map<Seq<char>, JsonView>) -> Result<
    Option<Seq<SafetyRating>>,
    DecodeErrorView,
> {
    match present_field(object, "safetyRatings"@) {
        Some(value) => match array_of(value) {
            Some(items) => match all_from_json(items, rating_decoder()) {
                Ok(ratings) => Ok(Some(ratings)),
                Err(error) => Err(error),
            },
            None => Err(DecodeErrorView::MalformedField("safetyRatings"@)),
        },
        None => Ok(None),
    }
}

/// The citation metadata that may stand under `citationMetadata`.
pub open spec fn citations_field(object: Map<Seq<char>, JsonView>) -> Result<
    Option<CitationMetadataView>,
    DecodeErrorView,
> {
    match present_field(object, "citationMetadata"@) {
        Some(value) => match citations_from_json(value) {
            Ok(metadata) => Ok(Some(metadata)),
            Err(error) => Err(error),
        },
        None => Ok(None),
    }
}

/// The candidate that a JSON value denotes. Its members are read in the
/// order `index`, `content`, `finishReason`, `finishMessage`,
/// `safetyRatings`, `citationMetadata`, and the first one that is rejected
/// gives the error. `index` and `content` must be present.
pub open spec fn candidate_from_json(json: JsonView) -> Result<CandidateView, DecodeErrorView> {
    match json {
        JsonView::Object(object) => match (
            required_i32(object, "index"@),
            content_field(object),
            finish_reason_field(object),
            optional_text(object, "finishMessage"@),
            ratings_field(object),
            citations_field(object),
        ) {
            (
                Ok(index),
                Ok(content),
                Ok(finish_reason),
                Ok(finish_message),
                Ok(safety_ratings),
                Ok(citation_metadata),
            ) => Ok(
                CandidateView {
                    index,
                    content,
                    finish_reason,
                    finish_message,
                    safety_ratings,
                    citation_metadata,
                },
            ),
            (Err(error), _, _, _, _, _) => Err(error),
            (_, Err(error), _, _, _, _) => Err(error),
            (_, _, Err(error), _, _, _) => Err(error),
            (_, _, _, Err(error), _, _) => Err(error),
            (_, _, _, _, Err(error), _) => Err(error),
            (_, _, _, _, _, Err(error)) => Err(error),
        },
        _ => Err(DecodeErrorView::NotAnObject),
    }
}

/// Decoding one candidate, as a function.
pub open spec fn candidate_decoder() -> spec_fn(JsonView) -> Result<
    CandidateView,
    DecodeErrorView,
> {
    |json: JsonView| candidate_from_json(json)
}

/// The response that a JSON value denotes: an object with an array of
/// candidates under `candidates`. Members that the response does not know
/// are passed over.
pub open spec fn response_from_json(json: JsonView) -> Result<ResponseView, DecodeErrorView> {
    match json {
        JsonView::Object(object) => match array_field(object, "candidates"@) {
            Some(items) => match all_from_json(items, candidate_decoder()) {
                Ok(candidates) => Ok(ResponseView { candidates }),
                Err(error) => Err(error),
            },
            None => Err(DecodeErrorView::MalformedField("candidates"@)),
        },
        _ => Err(DecodeErrorView::NotAnObject),
    }
}

impl CitationSource {
    /// The citation source that a JSON value denotes.
    pub fn decode(json: &Json) -> (outcome: Result<CitationSource, DecodeError>)
        ensures
            match outcome {
                Ok(source) => source_from_json(json@) matches Ok(s) && s == source@,
                Err(error) => source_from_json(json@) matches Err(e) && e == error@,
            },
    {
        let members = match json.as_object() {
            Some(members) => members,
            None => {
                return Err(DecodeError::NotAnObject);
            },
        };
        let start_index = read_optional_i32(members, "startIndex")?;
        let end_index = read_optional_i32(members, "endIndex")?;
        let uri = read_optional_text(members, "uri")?;
        let license = read_optional_text(members, "license")?;
        Ok(CitationSource { start_index, end_index, uri, license })
    }
}

impl CitationMetadata {
    /// The citation metadata that a JSON value denotes.
    pub fn decode(json: &Json) -> (outcome: Result<CitationMetadata, DecodeError>)
        ensures
            match outcome {
                Ok(metadata) => citations_from_json(json@) matches Ok(m) && m == metadata@,
                Err(error) => citations_from_json(json@) matches Err(e) && e == error@,
            },
    {
        let members = match json.as_object() {
            Some(members) => members,
            None => {
                return Err(DecodeError::NotAnObject);
            },
        };
        let items = match member_array(members, "citationSources") {
            Some(items) => items,
            None => {
                return Err(DecodeError::malformed("citationSources"));
            },
        };
        let sources = decode_sources(items)?;
        Ok(CitationMetadata { citation_sources: sources })
    }
}

impl SafetyRating {
    /// The safety rating that a JSON value denotes.
    pub fn decode(json: &Json) -> (outcome: Result<SafetyRating, DecodeError>)
        ensures
            match outcome {
                Ok(rating) => rating_from_json(json@) matches Ok(r) && r == rating,
                Err(error) => rating_from_json(json@) matches Err(e) && e == error@,
            },
    {
        let members = match json.as_object() {
            Some(members) => members,
            None => {
                return Err(DecodeError::NotAnObject);
            },
        };
        let category = match member_text(members, "category") {
            Some(name) => match HarmCategory::from_name(name.as_str()) {
                Some(category) => category,
                None => {
                    return Err(DecodeError::malformed("category"));
                },
            },
            None => {
                return Err(DecodeError::malformed("category"));
            },
        };
        let probability = match member_text(members, "probability") {
            Some(name) => match HarmProbability::from_name(name.as_str()) {
                Some(probability) => probability,
                None => {
                    return Err(DecodeError::malformed("probability"));
                },
            },
            None => {
                return Err(DecodeError::malformed("probability"));
            },
        };
        Ok(SafetyRating { category, probability })
    }
}

/// Reads the content that must stand under `content`.
fn read_content(members: &Vec<(String, Json)>) -> (outcome: Result<ContentType, DecodeError>)
    ensures
        match outcome {
            Ok(content) => content_field(object_view(members@)) matches Ok(c) && c == content@,
            Err(error) => content_field(object_view(members@)) matches Err(e) && e == error@,
        },
{
    match find_member(members, "content") {
        Some(value) => ContentType::decode(value),
        None => Err(DecodeError::malformed("content")),
    }
}

/// Reads the finish reason that may stand under `finishReason`.
fn read_finish_reason(members: &Vec<(String, Json)>) -> (outcome: Result<
    Option<FinishReason>,
    DecodeError,
>)
    ensures
        match outcome {
            Ok(reason) => finish_reason_field(object_view(members@)) matches Ok(r) && r
                == reason,
            Err(error) => finish_reason_field(object_view(members@)) matches Err(e) && e
                == error@,
        },
{
    match find_present(members, "finishReason") {
        Some(value) => match value.as_text() {
            Some(name) => match FinishReason::from_name(name.as_str()) {
                Some(reason) => Ok(Some(reason)),
                None => Err(DecodeError::malformed("finishReason")),
            },
            None => Err(DecodeError::malformed("finishReason")),
        },
        None => Ok(None),
    }
}

/// Reads the safety ratings that may stand under `safetyRatings`.
fn read_ratings(members: &Vec<(String, Json)>) -> (outcome: Result<
    Option<Vec<SafetyRating>>,
    DecodeError,
>)
    ensures
        match outcome {
            Ok(Some(ratings)) => ratings_field(object_view(members@)) matches Ok(Some(r)) && r
                == ratings@,
            Ok(None) => ratings_field(object_view(members@)) matches Ok(None),
            Err(error) => ratings_field(object_view(members@)) matches Err(e) && e == error@,
        },
{
    let value = match find_present(members, "safetyRatings") {
        Some(value) => value,
        None => {
            return Ok(None);
        },
    };
    let items = match value.as_array() {
        Some(items) => items,
        None => {
            return Err(DecodeError::malformed("safetyRatings"));
        },
    };
    let ratings = decode_ratings(items)?;
    Ok(Some(ratings))
}

/// Reads the citation metadata that may stand under `citationMetadata`.
fn read_citations(members: &Vec<(String, Json)>) -> (outcome: Result<
    Option<CitationMetadata>,
    DecodeError,
>)
    ensures
        match outcome {
            Ok(Some(metadata)) => citations_field(object_view(members@)) matches Ok(Some(m))
                && m == metadata@,
            Ok(None) => citations_field(object_view(members@)) matches Ok(None),
            Err(error) => citations_field(object_view(members@)) matches Err(e) && e == error@,
        },
{
    match find_present(members, "citationMetadata") {
        Some(value) => match CitationMetadata::decode(value) {
            Ok(metadata) => Ok(Some(metadata)),
            Err(error) => Err(error),
        },
        None => Ok(None),
    }
}

impl GenerateContentCandidate {
    /// The candidate that a JSON value denotes.
    pub fn decode(json: &Json) -> (outcome: Result<GenerateContentCandidate, DecodeError>)
        ensures
            match outcome {
                Ok(candidate) => candidate_from_json(json@) matches Ok(c) && c == candidate@,
                Err(error) => candidate_from_json(json@) matches Err(e) && e == error@,
            },
    {
        let members = match json.as_object() {
            Some(members) => members,
            None => {
                return Err(DecodeError::NotAnObject);
            },
        };
        let index = read_i32(members, "index")?;
        let content = read_content(members)?;
        let finish_reason = read_finish_reason(members)?;
        let finish_message = read_optional_text(members, "finishMessage")?;
        let safety_ratings = read_ratings(members)?;
        let citation_metadata = read_citations(members)?;
        Ok(
            GenerateContentCandidate {
                index,
                content,
                finish_reason,
                finish_message,
                safety_ratings,
                citation_metadata,
            },
        )
    }
}

impl GenerateContentResponse {
    /// The response that a JSON value denotes.
    ///
    /// Fails with `NotAnObject` where the value is no object, with
    /// `MalformedField` of `candidates` where that key is missing or holds no
    /// array, and with the error of the first candidate that is rejected.
    pub fn decode(json: &Json) -> (outcome: Result<GenerateContentResponse, DecodeError>)
        ensures
            match outcome {
                Ok(response) => response_from_json(json@) matches Ok(r) && r == response@,
                Err(error) => response_from_json(json@) matches Err(e) && e == error@,
            },
    {
        let members = match json.as_object() {
            Some(members) => members,
            None => {
                return Err(DecodeError::NotAnObject);
            },
        };
        let items = match member_array(members, "candidates") {
            Some(items) => items,
            None => {
                return Err(DecodeError::malformed("candidates"));
            },
        };
        let candidates = decode_candidates(items)?;
        Ok(GenerateContentResponse { candidates })
    }
}

/// The citation sources that a list of JSON values denotes, in the same order, or
/// the error of the first item that is rejected.
pub fn decode_sources(items: &Vec<Json>) -> (outcome: Result<Vec<CitationSource>, DecodeError>)
    ensures
        match outcome {
            Ok(list) => all_from_json(items_view(items@), source_decoder()) matches Ok(l) && l
                == sources_view(list@),
            Err(error) => all_from_json(items_view(items@), source_decoder()) matches Err(e) && e
                == error@,
        },
{
    let ghost all = items_view(items@);
    let mut out: Vec<CitationSource> = Vec::new();
    let mut i: usize = 0;
    proof {
        assert(all.take(0) =~= Seq::empty());
        assert(sources_view(out@) =~= Seq::empty());
    }
    while i < items.len()
        invariant
            i <= items.len(),
            all == items_view(items@),
            all_from_json(all.take(i as int), source_decoder()) matches Ok(l) && l
                == sources_view(out@),
        decreases items.len() - i,
    {
        proof {
            lemma_one_more(all, source_decoder(), i as int);
        }
        match CitationSource::decode(&items[i]) {
            Ok(item) => {
                proof {
                    assert(sources_view(out@).push(item@) =~= sources_view(out@.push(item)));
                }
                out.push(item);
            },
            Err(error) => {
                proof {
                    lemma_all_rejected(all, source_decoder(), i + 1);
                }
                return Err(error);
            },
        }
        i += 1;
    }
    assert(all.take(i as int) =~= all);
    Ok(out)
}

/// The safety ratings that a list of JSON values denotes, in the same order, or
/// the error of the first item that is rejected.
pub fn decode_ratings(items: &Vec<Json>) -> (outcome: Result<Vec<SafetyRating>, DecodeError>)
    ensures
        match outcome {
            Ok(list) => all_from_json(items_view(items@), rating_decoder()) matches Ok(l) && l
                == list@,
            Err(error) => all_from_json(items_view(items@), rating_decoder()) matches Err(e) && e
                == error@,
        },
{
    let ghost all = items_view(items@);
    let mut out: Vec<SafetyRating> = Vec::new();
    let mut i: usize = 0;
    proof {
        assert(all.take(0) =~= Seq::empty());
    }
    while i < items.len()
        invariant
            i <= items.len(),
            all == items_view(items@),
            all_from_json(all.take(i as int), rating_decoder()) matches Ok(l) && l
                == out@,
        decreases items.len() - i,
    {
        proof {
            lemma_one_more(all, rating_decoder(), i as int);
        }
        match SafetyRating::decode(&items[i]) {
            Ok(item) => {
                out.push(item);
            },
            Err(error) => {
                proof {
                    lemma_all_rejected(all, rating_decoder(), i + 1);
                }
                return Err(error);
            },
        }
        i += 1;
    }
    assert(all.take(i as int) =~= all);
    Ok(out)
}

/// The candidates that a list of JSON values denotes, in the same order, or the
/// error of the first item that is rejected.
pub fn decode_candidates(items: &Vec<Json>) -> (outcome: Result<Vec<GenerateContentCandidate>, DecodeError>)
    ensures
        match outcome {
            Ok(list) => all_from_json(items_view(items@), candidate_decoder()) matches Ok(l) && l
                == candidates_view(list@),
            Err(error) => all_from_json(items_view(items@), candidate_decoder()) matches Err(e) && e
                == error@,
        },
{
    let ghost all = items_view(items@);
    let mut out: Vec<GenerateContentCandidate> = Vec::new();
    let mut i: usize = 0;
    proof {
        assert(all.take(0) =~= Seq::empty());
        assert(candidates_view(out@) =~= Seq::empty());
    }
    while i < items.len()
        invariant
            i <= items.len(),
            all == items_view(items@),
            all_from_json(all.take(i as int), candidate_decoder()) matches Ok(l) && l
                == candidates_view(out@),
        decreases items.len() - i,
    {
        proof {
            lemma_one_more(all, candidate_decoder(), i as int);
        }
        match GenerateContentCandidate::decode(&items[i]) {
            Ok(item) => {
                proof {
                    assert(candidates_view(out@).push(item@) =~= candidates_view(out@.push(item)));
                }
                out.push(item);
            },
            Err(error) => {
                proof {
                    lemma_all_rejected(all, candidate_decoder(), i + 1);
                }
                return Err(error);
            },
        }
        i += 1;
    }
    assert(all.take(i as int) =~= all);
    Ok(out)
}

} // verus!
