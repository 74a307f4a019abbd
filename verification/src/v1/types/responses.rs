//! The responses of the second interface.

use crate::v1::errors::{DecodeError, DecodeErrorView};
use crate::v1::fields::{
    optional_bool, optional_text, optional_u32, read_optional_bool, read_optional_text,
    read_optional_u32, read_u32, required_u32, text_option,
};
use crate::v1::json::{
    array_field, field, find_member, find_present, items_view, member_array, member_text,
    object_view, present_field, text_field, text_of, Json, JsonView,
};
use crate::v1::lists::{all_from_json, lemma_all_rejected, lemma_one_more};
use crate::v1::text::text_eq;
use crate::v1::types::content_types::{content_from_json, Content, ContentView};
use crate::v1::types::safety_types::{HarmCategory, HarmProbability};
use vstd::prelude::*;

verus! {

/// GenerateContentResponse is the response from a content generation.
///
/// Note on safety ratings and content filtering. They are reported for both
/// prompt in `prompt_feedback` and for each candidate in `finish_reason` and
/// in `safety_ratings`. The API contract is that:
/// - either all requested candidates are returned or no candidates at all
/// - no candidates are returned only if there was something wrong with the
///   prompt (see `prompt_feedback`)
/// - feedback on each candidate is reported on `finish_reason` and
///   `safety_ratings`.
#[derive(Debug, Clone, PartialEq, Eq)]
pub struct GenerateContentResponse {
    /// Candidate responses from the model.
    pub candidates: Vec<Candidate>,
    /// Returns the prompt's feedback related to the content filters.
    pub prompt_feedback: Option<PromptFeedback>,
    /// Output only. Metadata on the generation requests' token usage.
    pub usage_metadata: UsageMetadata,
}

/// Candidate is a response candidate generated from the model.
#[derive(Debug, Clone, PartialEq, Eq)]
pub struct Candidate {
    /// Output only. Index of the candidate in the list of candidates.
    pub index: u32,
    /// Output only. Generated content returned from the model.
    pub content: Content,
    /// Output only. The reason why the model stopped generating tokens.
    ///
    /// If empty, the model has not stopped generating the tokens.
    pub finish_reason: Option<FinishReason>,
    /// List of ratings for the safety of a response candidate.
    ///
    /// There is at most one rating per category.
    pub safety_ratings: Vec<SafetyRating>,
    /// Output only. Citation information for model-generated candidate.
    ///
    /// This field may be populated with recitation information for any text
    /// included in the `content`. These are passages that are "recited" from
    /// copyrighted material in the foundational LLM's training data.
    pub citation_metadata: Option<CitationMetadata>,
    pub token_count: Option<u32>,
}

/// FinishReason is defines the reason why the model stopped generating
/// tokens.
#[derive(Debug, Clone, Copy, PartialEq, Eq)]
pub enum FinishReason {
    /// Default value. This value is unused.
    FinishReasonUnspecified,
    /// Natural stop point of the model or provided stop sequence.
    Stop,
    /// The maximum number of tokens as specified in the request was reached.
    MaxTokens,
    /// The candidate content was flagged for safety reasons.
    Safety,
    /// The candidate content was flagged for recitation reasons.
    Recitation,
    /// The candidate content was flagged for using an unsupported language.
    Language,
    /// Unknown reason.
    Other,
}

/// SafetyRating is the safety rating for a piece of content.
///
/// The safety rating contains the category of harm and the harm probability
/// level in that category for a piece of content. Content is classified for
/// safety across a number of harm categories and the probability of the harm
/// classification is included here.
#[derive(Debug, Clone, Copy, PartialEq, Eq)]
pub struct SafetyRating {
    /// The category for this rating.
    pub category: HarmCategory,
    /// The probability of harm for this content.
    pub probability: HarmProbability,
    /// Was this content blocked because of this rating?
    pub blocked: Option<bool>,
}

/// CitationMetadata is a collection of source attributions for a piece of
/// content.
#[derive(Debug, Clone, PartialEq, Eq)]
pub struct CitationMetadata {
    /// Citations to sources for a specific response.
    pub citation_sources: Vec<CitationSource>,
}

/// CitationSource contains a citation to a source for a portion of a
/// specific response.
#[derive(Debug, Clone, PartialEq, Eq)]
pub struct CitationSource {
    /// Start of segment of the response that is attributed to this source.
    ///
    /// Index indicates the start of the segment, measured in bytes.
    pub start_index: Option<u32>,
    /// End of the attributed segment, exclusive.
    pub end_index: Option<u32>,
    /// URI that is attributed as a source for a portion of the text.
    pub uri: Option<String>,
    /// License for the GitHub project that is attributed as a source for
    /// segment.
    ///
    /// License info is required for code citations.
    pub license: Option<String>,
}

/// PromptFeedback contains a set of the feedback metadata the prompt
/// specified in the request's contents.
#[derive(Debug, Clone, PartialEq, Eq)]
pub struct PromptFeedback {
    /// The prompt was blocked and no candidates are returned. Rephrase your
    /// prompt.
    pub block_reason: BlockReason,
    /// Ratings for safety of the prompt. There is at most one rating per
    /// category.
    pub safety_ratings: Vec<SafetyRating>,
    pub block_reason_message: Option<String>,
}

/// BlockReason is specifies what was the reason why prompt was blocked.
#[derive(Debug, Clone, Copy, PartialEq, Eq)]
pub enum BlockReason {
    /// A blocked reason was not specified.
    BlockedReasonUnspecified,
    /// Content was blocked by safety settings.
    Safety,
    /// Content was blocked, but the reason is uncategorized.
    Other,
}

/// UsageMetadata is metadata on the generation request's token usage.
#[derive(Debug, Clone, Copy, PartialEq, Eq)]
pub struct UsageMetadata {
    /// Number of tokens in the prompt. When cached_content is set, this is
    /// still the total effective prompt size. I.e. this includes the number
    /// of tokens in the cached content.
    pub prompt_token_count: u32,
    /// Total number of tokens across the generated candidates.
    pub candidates_token_count: u32,
    /// Total token count for the generation request (prompt + candidates).
    pub total_token_count: u32,
    /// Number of tokens in the cached part of the prompt, i.e. in the cached
    /// content.
    pub cached_content_token_count: Option<u32>,
}


impl FinishReason {
    /// The name of this reason on the wire.
    pub open spec fn wire_name(self) -> Seq<char> {
        match self {
            FinishReason::FinishReasonUnspecified => "FINISH_REASON_UNSPECIFIED"@,
            FinishReason::Stop => "STOP"@,
            FinishReason::MaxTokens => "MAX_TOKENS"@,
            FinishReason::Safety => "SAFETY"@,
            FinishReason::Recitation => "RECITATION"@,
            FinishReason::Language => "LANGUAGE"@,
            FinishReason::Other => "OTHER"@,
        }
    }

    /// The reason that a wire name stands for, if it is one.
    pub open spec fn named(name: Seq<char>) -> Option<FinishReason> {
        if name == FinishReason::FinishReasonUnspecified.wire_name() {
            Some(FinishReason::FinishReasonUnspecified)
        } else if name == FinishReason::Stop.wire_name() {
            Some(FinishReason::Stop)
        } else if name == FinishReason::MaxTokens.wire_name() {
            Some(FinishReason::MaxTokens)
        } else if name == FinishReason::Safety.wire_name() {
            Some(FinishReason::Safety)
        } else if name == FinishReason::Recitation.wire_name() {
            Some(FinishReason::Recitation)
        } else if name == FinishReason::Language.wire_name() {
            Some(FinishReason::Language)
        } else if name == FinishReason::Other.wire_name() {
            Some(FinishReason::Other)
        } else {
            None
        }
    }

    /// The reason that a wire name stands for, if it is one.
    pub fn from_name(name: &str) -> (reason: Option<FinishReason>)
        ensures
            reason == FinishReason::named(name@),
    {
        if text_eq(name, "FINISH_REASON_UNSPECIFIED") {
            Some(FinishReason::FinishReasonUnspecified)
        } else if text_eq(name, "STOP") {
            Some(FinishReason::Stop)
        } else if text_eq(name, "MAX_TOKENS") {
            Some(FinishReason::MaxTokens)
        } else if text_eq(name, "SAFETY") {
            Some(FinishReason::Safety)
        } else if text_eq(name, "RECITATION") {
            Some(FinishReason::Recitation)
        } else if text_eq(name, "LANGUAGE") {
            Some(FinishReason::Language)
        } else if text_eq(name, "OTHER") {
            Some(FinishReason::Other)
        } else {
            None
        }
    }
}

impl BlockReason {
    /// The name of this reason on the wire.
    pub open spec fn wire_name(self) -> Seq<char> {
        match self {
            BlockReason::BlockedReasonUnspecified => "BLOCKED_REASON_UNSPECIFIED"@,
            BlockReason::Safety => "SAFETY"@,
            BlockReason::Other => "OTHER"@,
        }
    }

    /// The reason that a wire name stands for, if it is one.
    pub open spec fn named(name: Seq<char>) -> Option<BlockReason> {
        if name == BlockReason::BlockedReasonUnspecified.wire_name() {
            Some(BlockReason::BlockedReasonUnspecified)
        } else if name == BlockReason::Safety.wire_name() {
            Some(BlockReason::Safety)
        } else if name == BlockReason::Other.wire_name() {
            Some(BlockReason::Other)
        } else {
            None
        }
    }

    /// The reason that a wire name stands for, if it is one.
    pub fn from_name(name: &str) -> (reason: Option<BlockReason>)
        ensures
            reason == BlockReason::named(name@),
    {
        if text_eq(name, "BLOCKED_REASON_UNSPECIFIED") {
            Some(BlockReason::BlockedReasonUnspecified)
        } else if text_eq(name, "SAFETY") {
            Some(BlockReason::Safety)
        } else if text_eq(name, "OTHER") {
            Some(BlockReason::Other)
        } else {
            None
        }
    }
}

/// The mathematical value of a [`CitationSource`].
pub struct CitationSourceView {
    pub start_index: Option<u32>,
    pub end_index: Option<u32>,
    pub uri: Option<Seq<char>>,
    pub license: Option<Seq<char>>,
}

/// The mathematical value of a [`CitationMetadata`].
pub struct CitationMetadataView {
    pub citation_sources: Seq<CitationSourceView>,
}

/// The mathematical value of a [`PromptFeedback`].
pub struct PromptFeedbackView {
    pub block_reason: BlockReason,
    pub safety_ratings: Seq<SafetyRating>,
    pub block_reason_message: Option<Seq<char>>,
}

/// The mathematical value of a [`Candidate`].
pub struct CandidateView {
    pub index: u32,
    pub content: ContentView,
    pub finish_reason: Option<FinishReason>,
    pub safety_ratings: Seq<SafetyRating>,
    pub citation_metadata: Option<CitationMetadataView>,
    pub token_count: Option<u32>,
}

/// The mathematical value of a [`GenerateContentResponse`].
pub struct ResponseView {
    pub candidates: Seq<CandidateView>,
    pub prompt_feedback: Option<PromptFeedbackView>,
    pub usage_metadata: UsageMetadata,
}

impl View for CitationSource {
    type V = CitationSourceView;

    open spec fn view(&self) -> CitationSourceView {
        CitationSourceView {
            start_index: self.start_index,
            end_index: self.end_index,
            uri: text_option(self.uri),
            license: text_option(self.license),
        }
    }
}

/// The mathematical values of a list of citation sources, in order.
pub open spec fn sources_view(sources: Seq<CitationSource>) -> Seq<CitationSourceView> {
    Seq::new(sources.len(), |i: int| sources[i]@)
}

impl View for CitationMetadata {
    type V = CitationMetadataView;

    open spec fn view(&self) -> CitationMetadataView {
        CitationMetadataView { citation_sources: sources_view(self.citation_sources@) }
    }
}

impl View for PromptFeedback {
    type V = PromptFeedbackView;

    open spec fn view(&self) -> PromptFeedbackView {
        PromptFeedbackView {
            block_reason: self.block_reason,
            safety_ratings: self.safety_ratings@,
            block_reason_message: text_option(self.block_reason_message),
        }
    }
}

impl View for Candidate {
    type V = CandidateView;

    open spec fn view(&self) -> CandidateView {
        CandidateView {
            index: self.index,
            content: self.content@,
            finish_reason: self.finish_reason,
            safety_ratings: self.safety_ratings@,
            citation_metadata: match self.citation_metadata {
                Some(metadata) => Some(metadata@),
                None => None,
            },
            token_count: self.token_count,
        }
    }
}

/// The mathematical values of a list of candidates, in order.
pub open spec fn candidates_view(candidates: Seq<Candidate>) -> Seq<CandidateView> {
    Seq::new(candidates.len(), |i: int| candidates[i]@)
}

impl View for GenerateContentResponse {
    type V = ResponseView;

    open spec fn view(&self) -> ResponseView {
        ResponseView {
            candidates: candidates_view(self.candidates@),
            prompt_feedback: match self.prompt_feedback {
                Some(feedback) => Some(feedback@),
                None => None,
            },
            usage_metadata: self.usage_metadata,
        }
    }
}

/// The citation source that a JSON value denotes: an object whose four
/// members may each be missing.
pub open spec fn source_from_json(json: JsonView) -> Result<CitationSourceView, DecodeErrorView> {
    match json {
        JsonView::Object(object) => match (
            optional_u32(object, "startIndex"@),
            optional_u32(object, "endIndex"@),
            optional_text(object, "uri"@),
            optional_text(object, "license"@),
        ) {
            (Ok(start_index), Ok(end_index), Ok(uri), Ok(license)) => Ok(
                CitationSourceView { start_index, end_index, uri, license },
            ),
            (Err(error), _, _, _) => Err(error),
            (_, Err(error), _, _) => Err(error),
            (_, _, Err(error), _) => Err(error),
            (_, _, _, Err(error)) => Err(error),
        },
        _ => Err(DecodeErrorView::NotAnObject),
    }
}

/// Decoding one citation source, as a function.
pub open spec fn source_decoder() -> spec_fn(JsonView) -> Result<
    CitationSourceView,
    DecodeErrorView,
> {
    |json: JsonView| source_from_json(json)
}

/// The citation metadata that a JSON value denotes: an object with an array
/// of sources under `citationSources`.
pub open spec fn citations_from_json(json: JsonView) -> Result<
    CitationMetadataView,
    DecodeErrorView,
> {
    match json {
        JsonView::Object(object) => match array_field(object, "citationSources"@) {
            Some(items) => match all_from_json(items, source_decoder()) {
                Ok(citation_sources) => Ok(CitationMetadataView { citation_sources }),
                Err(error) => Err(error),
            },
            None => Err(DecodeErrorView::MalformedField("citationSources"@)),
        },
        _ => Err(DecodeErrorView::NotAnObject),
    }
}

/// The wire name that must stand under a key and be known to `named`.
pub open spec fn required_name<T>(
    object: Map<Seq<char>, JsonView>,
    key: Seq<char>,
    named: spec_fn(Seq<char>) -> Option<T>,
) -> Result<T, DecodeErrorView> {
    match text_field(object, key) {
        Some(name) => match named(name) {
            Some(value) => Ok(value),
            None => Err(DecodeErrorView::MalformedField(key)),
        },
        None => Err(DecodeErrorView::MalformedField(key)),
    }
}

/// The safety rating that a JSON value denotes: an object with the wire
/// names of a category and of a probability, and maybe a flag under
/// `blocked`.
pub open spec fn rating_from_json(json: JsonView) -> Result<SafetyRating, DecodeErrorView> {
    match json {
        JsonView::Object(object) => match (
            required_name(object, "category"@, |name: Seq<char>| HarmCategory::named(name)),
            required_name(object, "probability"@, |name: Seq<char>| HarmProbability::named(name)),
            optional_bool(object, "blocked"@),
        ) {
            (Ok(category), Ok(probability), Ok(blocked)) => Ok(
                SafetyRating { category, probability, blocked },
            ),
            (Err(error), _, _) => Err(error),
            (_, Err(error), _) => Err(error),
            (_, _, Err(error)) => Err(error),
        },
        _ => Err(DecodeErrorView::NotAnObject),
    }
}

/// Decoding one safety rating, as a function.
pub open spec fn rating_decoder() -> spec_fn(JsonView) -> Result<SafetyRating, DecodeErrorView> {
    |json: JsonView| rating_from_json(json)
}

/// The safety ratings that must stand under `safetyRatings`.
pub open spec fn ratings_field(object: Map<Seq<char>, JsonView>) -> Result<
    Seq<SafetyRating>,
    DecodeErrorView,
> {
    match array_field(object, "safetyRatings"@) {
        Some(items) => all_from_json(items, rating_decoder()),
        None => Err(DecodeErrorView::MalformedField("safetyRatings"@)),
    }
}

/// The content that must stand under `content`.
pub open spec fn content_field(object: Map<Seq<char>, JsonView>) -> Result<
    ContentView,
    DecodeErrorView,
> {
    match field(object, "content"@) {
        Some(value) => content_from_json(value),
        None => Err(DecodeErrorView::MalformedField("content"@)),
    }
}

/// The finish reason that may stand under `finishReason`.
pub open spec fn finish_reason_field(object: Map<Seq<char>, JsonView>) -> Result<
    Option<FinishReason>,
    DecodeErrorView,
> {
    match present_field(object, "finishReason"@) {
        Some(value) => match text_of(value) {
            Some(name) => match FinishReason::named(name) {
                Some(reason) => Ok(Some(reason)),
                None => Err(DecodeErrorView::MalformedField("finishReason"@)),
            },
            None => Err(DecodeErrorView::MalformedField("finishReason"@)),
        },
        None => Ok(None),
    }
}

/// The citation metadata that may stand under `citationMetadata`.
pub open spec fn citations_field(object: Map<Seq<char>, JsonView>) -> Result<
    Option<CitationMetadataView>,
    DecodeErrorView,
> {
    match present_field(object, "citationMetadata"@) {
        Some(value) => match citations_from_json(value) {
            Ok(metadata) => Ok(Some(metadata)),
            Err(error) => Err(error),
        },
        None => Ok(None),
    }
}

/// The candidate that a JSON value denotes. Its members are read in the
/// order `index`, `content`, `finishReason`, `safetyRatings`,
/// `citationMetadata`, `tokenCount`, and the first one that is rejected gives
/// the error. `index`, `content` and `safetyRatings` must be present.
pub open spec fn candidate_from_json(json: JsonView) -> Result<CandidateView, DecodeErrorView> {
    match json {
        JsonView::Object(object) => match (
            required_u32(object, "index"@),
            content_field(object),
            finish_reason_field(object),
            ratings_field(object),
            citations_field(object),
            optional_u32(object, "tokenCount"@),
        ) {
            (
                Ok(index),
                Ok(content),
                Ok(finish_reason),
                Ok(safety_ratings),
                Ok(citation_metadata),
                Ok(token_count),
            ) => Ok(
                CandidateView {
                    index,
                    content,
                    finish_reason,
                    safety_ratings,
                    citation_metadata,
                    token_count,
                },
            ),
            (Err(error), _, _, _, _, _) => Err(error),
            (_, Err(error), _, _, _, _) => Err(error),
            (_, _, Err(error), _, _, _) => Err(error),
            (_, _, _, Err(error), _, _) => Err(error),
            (_, _, _, _, Err(error), _) => Err(error),
            (_, _, _, _, _, Err(error)) => Err(error),
        },
        _ => Err(DecodeErrorView::NotAnObject),
    }
}

/// Decoding one candidate, as a function.
pub open spec fn candidate_decoder() -> spec_fn(JsonView) -> Result<
    CandidateView,
    DecodeErrorView,
> {
    |json: JsonView| candidate_from_json(json)
}

/// The prompt feedback that a JSON value denotes: an object with the wire
/// name of a block reason under `blockReason`, ratings under
/// `safetyRatings`, and maybe a message under `blockReasonMessage`.
pub open spec fn feedback_from_json(json: JsonView) -> Result<
    PromptFeedbackView,
    DecodeErrorView,
> {
    match json {
        JsonView::Object(object) => match (
            required_name(object, "blockReason"@, |name: Seq<char>| BlockReason::named(name)),
            ratings_field(object),
            optional_text(object, "blockReasonMessage"@),
        ) {
            (Ok(block_reason), Ok(safety_ratings), Ok(block_reason_message)) => Ok(
                PromptFeedbackView { block_reason, safety_ratings, block_reason_message },
            ),
            (Err(error), _, _) => Err(error),
            (_, Err(error), _) => Err(error),
            (_, _, Err(error)) => Err(error),
        },
        _ => Err(DecodeErrorView::NotAnObject),
    }
}

/// The usage metadata that a JSON value denotes: an object with the three
/// counts, and maybe the count of cached tokens.
pub open spec fn usage_from_json(json: JsonView) -> Result<UsageMetadata, DecodeErrorView> {
    match json {
        JsonView::Object(object) => match (
            required_u32(object, "promptTokenCount"@),
            required_u32(object, "candidatesTokenCount"@),
            required_u32(object, "totalTokenCount"@),
            optional_u32(object, "cachedContentTokenCount"@),
        ) {
            (
                Ok(prompt_token_count),
                Ok(candidates_token_count),
                Ok(total_token_count),
                Ok(cached_content_token_count),
            ) => Ok(
                UsageMetadata {
                    prompt_token_count,
                    candidates_token_count,
                    total_token_count,
                    cached_content_token_count,
                },
            ),
            (Err(error), _, _, _) => Err(error),
            (_, Err(error), _, _) => Err(error),
            (_, _, Err(error), _) => Err(error),
            (_, _, _, Err(error)) => Err(error),
        },
        _ => Err(DecodeErrorView::NotAnObject),
    }
}

/// The candidates that must stand under `candidates`.
pub open spec fn candidates_field(object: Map<Seq<char>, JsonView>) -> Result<
    Seq<CandidateView>,
    DecodeErrorView,
> {
    match array_field(object, "candidates"@) {
        Some(items) => all_from_json(items, candidate_decoder()),
        None => Err(DecodeErrorView::MalformedField("candidates"@)),
    }
}

/// The prompt feedback that may stand under `promptFeedback`.
pub open spec fn feedback_field(object: Map<Seq<char>, JsonView>) -> Result<
    Option<PromptFeedbackView>,
    DecodeErrorView,
> {
    match present_field(object, "promptFeedback"@) {
        Some(value) => match feedback_from_json(value) {
            Ok(feedback) => Ok(Some(feedback)),
            Err(error) => Err(error),
        },
        None => Ok(None),
    }
}

/// The usage metadata that must stand under `usageMetadata`.
pub open spec fn usage_field(object: Map<Seq<char>, JsonView>) -> Result<
    UsageMetadata,
    DecodeErrorView,
> {
    match field(object, "usageMetadata"@) {
        Some(value) => usage_from_json(value),
        None => Err(DecodeErrorView::MalformedField("usageMetadata"@)),
    }
}

/// The response that a JSON value denotes: an object with candidates under
/// `candidates`, maybe a feedback under `promptFeedback`, and the usage
/// under `usageMetadata`, read in this order.
pub open spec fn response_from_json(json: JsonView) -> Result<ResponseView, DecodeErrorView> {
    match json {
        JsonView::Object(object) => match (
            candidates_field(object),
            feedback_field(object),
            usage_field(object),
        ) {
            (Ok(candidates), Ok(prompt_feedback), Ok(usage_metadata)) => Ok(
                ResponseView { candidates, prompt_feedback, usage_metadata },
            ),
            (Err(error), _, _) => Err(error),
            (_, Err(error), _) => Err(error),
            (_, _, Err(error)) => Err(error),
        },
        _ => Err(DecodeErrorView::NotAnObject),
    }
}

impl CitationSource {
    /// The citation source that a JSON value denotes.
    pub fn decode(json: &Json) -> (outcome: Result<CitationSource, DecodeError>)
        ensures
            match outcome {
                Ok(source) => source_from_json(json@) matches Ok(s) && s == source@,
                Err(error) => source_from_json(json@) matches Err(e) && e == error@,
            },
    {
        let members = match json.as_object() {
            Some(members) => members,
            None => {
                return Err(DecodeError::NotAnObject);
            },
        };
        let start_index = read_optional_u32(members, "startIndex")?;
        let end_index = read_optional_u32(members, "endIndex")?;
        let uri = read_optional_text(members, "uri")?;
        let license = read_optional_text(members, "license")?;
        Ok(CitationSource { start_index, end_index, uri, license })
    }
}

impl CitationMetadata {
    /// The citation metadata that a JSON value denotes.
    pub fn decode(json: &Json) -> (outcome: Result<CitationMetadata, DecodeError>)
        ensures
            match outcome {
                Ok(metadata) => citations_from_json(json@) matches Ok(m) && m == metadata@,
                Err(error) => citations_from_json(json@) matches Err(e) && e == error@,
            },
    {
        let members = match json.as_object() {
            Some(members) => members,
            None => {
                return Err(DecodeError::NotAnObject);
            },
        };
        let items = match member_array(members, "citationSources") {
            Some(items) => items,
            None => {
                return Err(DecodeError::malformed("citationSources"));
            },
        };
        let sources = decode_sources(items)?;
        Ok(CitationMetadata { citation_sources: sources })
    }
}

impl SafetyRating {
    /// The safety rating that a JSON value denotes.
    pub fn decode(json: &Json) -> (outcome: Result<SafetyRating, DecodeError>)
        ensures
            match outcome {
                Ok(rating) => rating_from_json(json@) matches Ok(r) && r == rating,
                Err(error) => rating_from_json(json@) matches Err(e) && e == error@,
            },
    {
        let members = match json.as_object() {
            Some(members) => members,
            None => {
                return Err(DecodeError::NotAnObject);
            },
        };
        let category = match member_text(members, "category") {
            Some(name) => match HarmCategory::from_name(name.as_str()) {
                Some(category) => category,
                None => {
                    return Err(DecodeError::malformed("category"));
                },
            },
            None => {
                return Err(DecodeError::malformed("category"));
            },
        };
        let probability = match member_text(members, "probability") {
            Some(name) => match HarmProbability::from_name(name.as_str()) {
                Some(probability) => probability,
                None => {
                    return Err(DecodeError::malformed("probability"));
                },
            },
            None => {
                return Err(DecodeError::malformed("probability"));
            },
        };
        let blocked = read_optional_bool(members, "blocked")?;
        Ok(SafetyRating { category, probability, blocked })
    }
}

/// Reads the safety ratings that must stand under `safetyRatings`.
fn read_ratings(members: &Vec<(String, Json)>) -> (outcome: Result<
    Vec<SafetyRating>,
    DecodeError,
>)
    ensures
        match outcome {
            Ok(ratings) => ratings_field(object_view(members@)) matches Ok(r) && r == ratings@,
            Err(error) => ratings_field(object_view(members@)) matches Err(e) && e == error@,
        },
{
    match member_array(members, "safetyRatings") {
        Some(items) => decode_ratings(items),
        None => Err(DecodeError::malformed("safetyRatings")),
    }
}

/// Reads the content that must stand under `content`.
fn read_content(members: &Vec<(String, Json)>) -> (outcome: Result<Content, DecodeError>)
    ensures
        match outcome {
            Ok(content) => content_field(object_view(members@)) matches Ok(c) && c == content@,
            Err(error) => content_field(object_view(members@)) matches Err(e) && e == error@,
        },
{
    match find_member(members, "content") {
        Some(value) => Content::decode(value),
        None => Err(DecodeError::malformed("content")),
    }
}

/// Reads the finish reason that may stand under `finishReason`.
fn read_finish_reason(members: &Vec<(String, Json)>) -> (outcome: Result<
    Option<FinishReason>,
    DecodeError,
>)
    ensures
        match outcome {
            Ok(reason) => finish_reason_field(object_view(members@)) matches Ok(r) && r
                == reason,
            Err(error) => finish_reason_field(object_view(members@)) matches Err(e) && e
                == error@,
        },
{
    match find_present(members, "finishReason") {
        Some(value) => match value.as_text() {
            Some(name) => match FinishReason::from_name(name.as_str()) {
                Some(reason) => Ok(Some(reason)),
                None => Err(DecodeError::malformed("finishReason")),
            },
            None => Err(DecodeError::malformed("finishReason")),
        },
        None => Ok(None),
    }
}

/// Reads the citation metadata that may stand under `citationMetadata`.
fn read_citations(members: &Vec<(String, Json)>) -> (outcome: Result<
    Option<CitationMetadata>,
    DecodeError,
>)
    ensures
        match outcome {
            Ok(Some(metadata)) => citations_field(object_view(members@)) matches Ok(Some(m))
                && m == metadata@,
            Ok(None) => citations_field(object_view(members@)) matches Ok(None),
            Err(error) => citations_field(object_view(members@)) matches Err(e) && e == error@,
        },
{
    match find_present(members, "citationMetadata") {
        Some(value) => match CitationMetadata::decode(value) {
            Ok(metadata) => Ok(Some(metadata)),
            Err(error) => Err(error),
        },
        None => Ok(None),
    }
}

impl Candidate {
    /// The candidate that a JSON value denotes.
    pub fn decode(json: &Json) -> (outcome: Result<Candidate, DecodeError>)
        ensures
            match outcome {
                Ok(candidate) => candidate_from_json(json@) matches Ok(c) && c == candidate@,
                Err(error) => candidate_from_json(json@) matches Err(e) && e == error@,
            },
    {
        let members = match json.as_object() {
            Some(members) => members,
            None => {
                return Err(DecodeError::NotAnObject);
            },
        };
        let index = read_u32(members, "index")?;
        let content = read_content(members)?;
        let finish_reason = read_finish_reason(members)?;
        let safety_ratings = read_ratings(members)?;
        let citation_metadata = read_citations(members)?;
        let token_count = read_optional_u32(members, "tokenCount")?;
        Ok(
            Candidate {
                index,
                content,
                finish_reason,
                safety_ratings,
                citation_metadata,
                token_count,
            },
        )
    }
}

impl PromptFeedback {
    /// The prompt feedback that a JSON value denotes.
    pub fn decode(json: &Json) -> (outcome: Result<PromptFeedback, DecodeError>)
        ensures
            match outcome {
                Ok(feedback) => feedback_from_json(json@) matches Ok(f) && f == feedback@,
                Err(error) => feedback_from_json(json@) matches Err(e) && e == error@,
            },
    {
        let members = match json.as_object() {
            Some(members) => members,
            None => {
                return Err(DecodeError::NotAnObject);
            },
        };
        let block_reason = match member_text(members, "blockReason") {
            Some(name) => match BlockReason::from_name(name.as_str()) {
                Some(reason) => reason,
                None => {
                    return Err(DecodeError::malformed("blockReason"));
                },
            },
            None => {
                return Err(DecodeError::malformed("blockReason"));
            },
        };
        let safety_ratings = read_ratings(members)?;
        let block_reason_message = read_optional_text(members, "blockReasonMessage")?;
        Ok(PromptFeedback { block_reason, safety_ratings, block_reason_message })
    }
}

impl UsageMetadata {
    /// The usage metadata that a JSON value denotes.
    pub fn decode(json: &Json) -> (outcome: Result<UsageMetadata, DecodeError>)
        ensures
            match outcome {
                Ok(usage) => usage_from_json(json@) matches Ok(u) && u == usage,
                Err(error) => usage_from_json(json@) matches Err(e) && e == error@,
            },
    {
        let members = match json.as_object() {
            Some(members) => members,
            None => {
                return Err(DecodeError::NotAnObject);
            },
        };
        let prompt_token_count = read_u32(members, "promptTokenCount")?;
        let candidates_token_count = read_u32(members, "candidatesTokenCount")?;
        let total_token_count = read_u32(members, "totalTokenCount")?;
        let cached_content_token_count = read_optional_u32(members, "cachedContentTokenCount")?;
        Ok(
            UsageMetadata {
                prompt_token_count,
                candidates_token_count,
                total_token_count,
                cached_content_token_count,
            },
        )
    }
}

impl GenerateContentResponse {
    /// The response that a JSON value denotes.
    ///
    /// Fails with `NotAnObject` where the value, or one that must be an
    /// object, is none; with `MalformedField` of the first member that is
    /// missing though it must be there, or that holds another kind of value
    /// than it must; and with the error of the first part that is rejected.
    pub fn decode(json: &Json) -> (outcome: Result<GenerateContentResponse, DecodeError>)
        ensures
            match outcome {
                Ok(response) => response_from_json(json@) matches Ok(r) && r == response@,
                Err(error) => response_from_json(json@) matches Err(e) && e == error@,
            },
    {
        let members = match json.as_object() {
            Some(members) => members,
            None => {
                return Err(DecodeError::NotAnObject);
            },
        };
        let candidates = match member_array(members, "candidates") {
            Some(items) => decode_candidates(items)?,
            None => {
                return Err(DecodeError::malformed("candidates"));
            },
        };
        let prompt_feedback = match find_present(members, "promptFeedback") {
            Some(value) => Some(PromptFeedback::decode(value)?),
            None => None,
        };
        let usage_metadata = match find_member(members, "usageMetadata") {
            Some(value) => UsageMetadata::decode(value)?,
            None => {
                return Err(DecodeError::malformed("usageMetadata"));
            },
        };
        Ok(GenerateContentResponse { candidates, prompt_feedback, usage_metadata })
    }

    /// Decodes the body of a response, given the JSON document that was read
    /// from it, with `None` for a body from which none could be read: such a
    /// body is rejected as a malformed event.
    pub fn from_document(document: Option<Json>) -> (outcome: Result<
        GenerateContentResponse,
        DecodeError,
    >)
        ensures
            match document {
                Some(json) => match outcome {
                    Ok(response) => response_from_json(json@) matches Ok(r) && r == response@,
                    Err(error) => response_from_json(json@) matches Err(e) && e == error@,
                },
                None => outcome == Err::<GenerateContentResponse, DecodeError>(
                    DecodeError::MalformedEvent,
                ),
            },
    {
        match document {
            Some(json) => GenerateContentResponse::decode(&json),
            None => Err(DecodeError::MalformedEvent),
        }
    }
}

/// The citation sources that a list of JSON values denotes, in the same order, or
/// the error of the first item that is rejected.
pub fn decode_sources(items: &Vec<Json>) -> (outcome: Result<Vec<CitationSource>, DecodeError>)
    ensures
        match outcome {
            Ok(list) => all_from_json(items_view(items@), source_decoder()) matches Ok(l) && l
                == sources_view(list@),
            Err(error) => all_from_json(items_view(items@), source_decoder()) matches Err(e) && e
                == error@,
        },
{
    let ghost all = items_view(items@);
    let mut out: Vec<CitationSource> = Vec::new();
    let mut i: usize = 0;
    proof {
        assert(all.take(0) =~= Seq::empty());
        assert(sources_view(out@) =~= Seq::empty());
    }
    while i < items.len()
        invariant
            i <= items.len(),
            all == items_view(items@),
            all_from_json(all.take(i as int), source_decoder()) matches Ok(l) && l == sources_view(out@),
        decreases items.len() - i,
    {
        proof {
            lemma_one_more(all, source_decoder(), i as int);
        }
        match CitationSource::decode(&items[i]) {
            Ok(item) => {
                proof {
                    assert(sources_view(out@).push(item@) =~= sources_view(out@.push(item)));
                }
                out.push(item);
            },
            Err(error) => {
                proof {
                    lemma_all_rejected(all, source_decoder(), i + 1);
                }
                return Err(error);
            },
        }
        i += 1;
    }
    assert(all.take(i as int) =~= all);
    Ok(out)
}

/// The safety ratings that a list of JSON values denotes, in the same order, or
/// the error of the first item that is rejected.
pub fn decode_ratings(items: &Vec<Json>) -> (outcome: Result<Vec<SafetyRating>, DecodeError>)
    ensures
        match outcome {
            Ok(list) => all_from_json(items_view(items@), rating_decoder()) matches Ok(l) && l
                == list@,
            Err(error) => all_from_json(items_view(items@), rating_decoder()) matches Err(e) && e
                == error@,
        },
{
    let ghost all = items_view(items@);
    let mut out: Vec<SafetyRating> = Vec::new();
    let mut i: usize = 0;
    proof {
        assert(all.take(0) =~= Seq::empty());
    }
    while i < items.len()
        invariant
            i <= items.len(),
            all == items_view(items@),
            all_from_json(all.take(i as int), rating_decoder()) matches Ok(l) && l == out@,
        decreases items.len() - i,
    {
        proof {
            lemma_one_more(all, rating_decoder(), i as int);
        }
        match SafetyRating::decode(&items[i]) {
            Ok(item) => {
                out.push(item);
            },
            Err(error) => {
                proof {
                    lemma_all_rejected(all, rating_decoder(), i + 1);
                }
                return Err(error);
            },
        }
        i += 1;
    }
    assert(all.take(i as int) =~= all);
    Ok(out)
}

/// The candidates that a list of JSON values denotes, in the same order, or the
/// error of the first item that is rejected.
pub fn decode_candidates(items: &Vec<Json>) -> (outcome: Result<Vec<Candidate>, DecodeError>)
    ensures
        match outcome {
            Ok(list) => all_from_json(items_view(items@), candidate_decoder()) matches Ok(l) && l
                == candidates_view(list@),
            Err(error) => all_from_json(items_view(items@), candidate_decoder()) matches Err(e) && e
                == error@,
        },
{
    let ghost all = items_view(items@);
    let mut out: Vec<Candidate> = Vec::new();
    let mut i: usize = 0;
    proof {
        assert(all.take(0) =~= Seq::empty());
        assert(candidates_view(out@) =~= Seq::empty());
    }
    while i < items.len()
        invariant
            i <= items.len(),
            all == items_view(items@),
            all_from_json(all.take(i as int), candidate_decoder()) matches Ok(l) && l == candidates_view(out@),
        decreases items.len() - i,
    {
        proof {
            lemma_one_more(all, candidate_decoder(), i as int);
        }
        match Candidate::decode(&items[i]) {
            Ok(item) => {
                proof {
                    assert(candidates_view(out@).push(item@) =~= candidates_view(out@.push(item)));
                }
                out.push(item);
            },
            Err(error) => {
                proof {
                    lemma_all_rejected(all, candidate_decoder(), i + 1);
                }
                return Err(error);
            },
        }
        i += 1;
    }
    assert(all.take(i as int) =~= all);
    Ok(out)
}

} // verus!
