//! Options of a generation.

use crate::v1::json::{
    add_member, encode_integer, encode_optional_texts, integer_json, no_members,
    optional_texts_json, Json, JsonView,
};
use crate::v1::types::schema::{schema_json, Schema};
use vstd::prelude::*;

verus! {

/// GenerationConfig is configuration options for model generation and
/// outputs. Not all parameters may be configurable for every model.
#[derive(Debug)]
pub struct GenerationConfig {
    /// Number of generated responses to return.
    pub candidate_count: Option<u32>,
    /// The set of character sequences (up to 5) that will stop output
    /// generation. If specified, the API will stop at the first appearance
    /// of a stop sequence. The stop sequence will not be included as part of
    /// the response.
    pub stop_sequences: Option<Vec<String>>,
    /// The maximum number of tokens to include in a candidate. If unset,
    /// this will default to the output token limit of the model.
    pub max_output_tokens: Option<u64>,
    /// Controls the randomness of the output, from 0.0 to 1.0 inclusive, as
    /// a JSON number. A value closer to 1.0 will produce responses that are
    /// more varied and creative, while a value closer to 0.0 will typically
    /// result in more straightforward responses from the model.
    pub temperature: Option<serde_json::Number>,
    /// The maximum cumulative probability of tokens to consider when
    /// sampling, as a JSON number.
    pub top_p: Option<serde_json::Number>,
    /// The maximum number of tokens to consider when sampling, as a JSON
    /// number.
    pub top_k: Option<serde_json::Number>,
    /// Output response mimetype of the generated candidate text.
    pub response_mime_type: Option<MimeType>,
    /// The schema that the generated candidate text must follow.
    pub response_schema: Option<Schema>,
}

/// The mimetypes that a response can be asked in.
#[derive(Debug, Clone, Copy, PartialEq, Eq)]
pub enum MimeType {
    /// `text/plain`: text output.
    TextPlain,
    /// `application/json`: JSON response in the candidates.
    ApplicationJson,
}


impl MimeType {
    /// The name of this mimetype on the wire.
    pub open spec fn wire_name(self) -> Seq<char> {
        match self {
            MimeType::TextPlain => "TextPlain"@,
            MimeType::ApplicationJson => "ApplicationJson"@,
        }
    }

    /// The name of this mimetype on the wire.
    pub fn to_str(&self) -> (name: &'static str)
        ensures
            name@ == self.wire_name(),
    {
        match self {
            MimeType::TextPlain => "TextPlain",
            MimeType::ApplicationJson => "ApplicationJson",
        }
    }
}

/// The JSON number of a count that may be missing.
pub open spec fn optional_integer_json(value: Option<u64>) -> JsonView {
    match value {
        Some(n) => integer_json(n),
        None => JsonView::Null,
    }
}

/// The JSON value of a number that may be missing.
pub open spec fn optional_number_json(value: Option<serde_json::Number>) -> JsonView {
    match value {
        Some(n) => JsonView::Number(n),
        None => JsonView::Null,
    }
}

/// The JSON form of a generation configuration: an object with the members
/// `candidate_count`, `stop_sequences`, `max_output_tokens`, `temperature`,
/// `top_p`, `top_k`, `response_mime_type` and `response_schema`, each `null`
/// where the configuration does not set it.
pub open spec fn generation_config_json(config: GenerationConfig) -> JsonView {
    JsonView::Object(
        Map::<Seq<char>, JsonView>::empty().insert(
            "candidate_count"@,
            match config.candidate_count {
                Some(n) => integer_json(n as u64),
                None => JsonView::Null,
            },
        ).insert("stop_sequences"@, optional_texts_json(config.stop_sequences)).insert(
            "max_output_tokens"@,
            optional_integer_json(config.max_output_tokens),
        ).insert("temperature"@, optional_number_json(config.temperature)).insert(
            "top_p"@,
            optional_number_json(config.top_p),
        ).insert("top_k"@, optional_number_json(config.top_k)).insert(
            "response_mime_type"@,
            match config.response_mime_type {
                Some(mime_type) => JsonView::Text(mime_type.wire_name()),
                None => JsonView::Null,
            },
        ).insert(
            "response_schema"@,
            match config.response_schema {
                Some(schema) => schema_json(schema),
                None => JsonView::Null,
            },
        ),
    )
}

/// The JSON value of a number that may be missing.
fn encode_optional_number(value: &Option<serde_json::Number>) -> (json: Json)
    ensures
        json@ == optional_number_json(*value),
{
    match value {
        Some(n) => Json::Number(n.clone()),
        None => Json::Null,
    }
}

impl GenerationConfig {
    /// The JSON form of this configuration.
    pub fn encode(&self) -> (json: Json)
        ensures
            json@ == generation_config_json(*self),
    {
        let candidate_count = match self.candidate_count {
            Some(n) => encode_integer(n as u64),
            None => Json::Null,
        };
        let max_output_tokens = match self.max_output_tokens {
            Some(n) => encode_integer(n),
            None => Json::Null,
        };
        let response_mime_type = match &self.response_mime_type {
            Some(mime_type) => Json::Text(mime_type.to_str().to_owned()),
            None => Json::Null,
        };
        let response_schema = match &self.response_schema {
            Some(schema) => schema.encode(),
            None => Json::Null,
        };
        let mut members = no_members();
        add_member(&mut members, "candidate_count", candidate_count);
        add_member(&mut members, "stop_sequences", encode_optional_texts(&self.stop_sequences));
        add_member(&mut members, "max_output_tokens", max_output_tokens);
        add_member(&mut members, "temperature", encode_optional_number(&self.temperature));
        add_member(&mut members, "top_p", encode_optional_number(&self.top_p));
        add_member(&mut members, "top_k", encode_optional_number(&self.top_k));
        add_member(&mut members, "response_mime_type", response_mime_type);
        add_member(&mut members, "response_schema", response_schema);
        Json::Object(members)
    }
}

impl Default for GenerationConfig {
    fn default() -> (config: GenerationConfig)
        ensures
            config.candidate_count is None,
            config.stop_sequences is None,
            config.max_output_tokens is None,
            config.temperature is None,
            config.top_p is None,
            config.top_k is None,
            config.response_mime_type is None,
            config.response_schema is None,
    {
        GenerationConfig {
            candidate_count: None,
            stop_sequences: None,
            max_output_tokens: None,
            temperature: None,
            top_p: None,
            top_k: None,
            response_mime_type: None,
            response_schema: None,
        }
    }
}

} // verus!
