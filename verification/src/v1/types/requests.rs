//! Requests and their options.

use crate::v1::json::{add_member, no_members, with_optional, Json, JsonView};
use crate::v1::trusted::json_text;
use crate::v1::traits::Stringify;
use crate::v1::types::content_types::{
    content_to_json, contents_json, encode_contents, encode_tools, tool_config_json, tools_json,
    Content, Tool, ToolConfig,
};
use crate::v1::types::generation_types::{generation_config_json, GenerationConfig};
use crate::v1::types::safety_types::{encode_settings, settings_json, SafetySetting};
use crate::v1::types::server::caching::{cached_content_json, CachedContent};
use std::collections::HashMap;
use vstd::prelude::*;

verus! {

/// Version of the API endpoint to call.
#[derive(Debug, Clone, Copy, PartialEq, Eq)]
pub enum ApiVersion {
    V1,
    V1Beta,
}

impl Stringify for ApiVersion {
    open spec fn name(&self) -> Seq<char> {
        match self {
            ApiVersion::V1 => "v1"@,
            ApiVersion::V1Beta => "v1beta"@,
        }
    }

    fn to_str(&self) -> (name: &'static str) {
        match self {
            ApiVersion::V1 => "v1",
            ApiVersion::V1Beta => "v1beta",
        }
    }
}

impl Default for ApiVersion {
    fn default() -> (version: ApiVersion)
        ensures
            version == ApiVersion::V1Beta,
    {
        ApiVersion::V1Beta
    }
}

/// Params passed to getGenerativeModel() or GoogleAIFileManager().
#[derive(Debug)]
pub struct RequestOptions {
    /// Request timeout in milliseconds.
    pub timeout: Option<u64>,
    /// Version of API endpoint to call (e.g. "v1" or "v1beta").
    /// If not specified, defaults to latest stable version.
    pub api_version: Option<ApiVersion>,
    /// Additional attribution information to include in the x-goog-api-client header.
    /// Used by wrapper SDKs.
    pub api_client: Option<String>,
    /// Base endpoint url. Defaults to "https://generativelanguage.googleapis.com"
    pub base_url: Option<String>,
    /// Custom HTTP request headers.
    pub custom_headers: Option<HashMap<String, String>>,
}

impl Default for RequestOptions {
    fn default() -> (options: RequestOptions)
        ensures
            options.timeout is None,
            options.api_version == Some(ApiVersion::V1Beta),
            options.api_client is None,
            options.base_url matches Some(url) && url@
                == "https://generativelanguage.googleapis.com"@,
            options.custom_headers is None,
    {
        RequestOptions {
            timeout: None,
            api_version: Some(ApiVersion::V1Beta),
            api_client: None,
            base_url: Some("https://generativelanguage.googleapis.com".to_owned()),
            custom_headers: None,
        }
    }
}

/// What a request asks the model to do.
#[derive(Debug, Clone, Copy, PartialEq, Eq)]
pub enum Task {
    GenerateContent,
    StreamGenerateContent,
    CountTokens,
    EmbedContent,
    BatchEmbedContents,
}

impl Stringify for Task {
    open spec fn name(&self) -> Seq<char> {
        match self {
            Task::GenerateContent => "generateContent"@,
            Task::StreamGenerateContent => "streamGenerateContent"@,
            Task::CountTokens => "countTokens"@,
            Task::EmbedContent => "embedContent"@,
            Task::BatchEmbedContents => "batchEmbedContents"@,
        }
    }

    fn to_str(&self) -> (name: &'static str) {
        match self {
            Task::GenerateContent => "generateContent",
            Task::StreamGenerateContent => "streamGenerateContent",
            Task::CountTokens => "countTokens",
            Task::EmbedContent => "embedContent",
            Task::BatchEmbedContents => "batchEmbedContents",
        }
    }
}


/// GenerateContentRequest: request to generate a completion from the model.
///
/// The request owns its name and contents and borrows the settings of the
/// model that prepares it.
#[derive(Debug)]
pub struct GenerateContentRequest<'a> {
    /// The name of the `Model` to use for generating the completion.
    /// Format: `name=models/{model}`.
    pub model: String,
    /// The content of the current conversation with the model. For
    /// single-turn queries, this is a single instance. For multi-turn
    /// queries, this is a repeated field that contains conversation history
    /// and the latest request.
    pub contents: Vec<Content>,
    /// Configuration options for model generation and outputs.
    pub generation_config: Option<&'a GenerationConfig>,
    /// A list of unique `SafetySetting` instances for blocking unsafe
    /// content.
    pub safety_settings: Option<&'a Vec<SafetySetting>>,
    /// A list of `Tools` the model may use to generate the next response.
    pub tools: Option<&'a Vec<Tool>>,
    /// Tool configuration for any `Tool` specified in the request.
    pub tool_config: Option<&'a ToolConfig>,
    /// Developer set system instruction. Currently, text only.
    pub system_instruction: Option<&'a Content>,
    /// The cached content used as context to serve the prediction.
    pub cached_content: Option<&'a CachedContent>,
}

/// A reference to what an option holds, if it holds something.
pub open spec fn borrowed<T>(option: &Option<T>) -> Option<&T> {
    match option {
        Some(value) => Some(value),
        None => None,
    }
}

/// The base URL that options ask for, which is empty where they name none.
pub open spec fn base_url_of(options: RequestOptions) -> Seq<char> {
    match options.base_url {
        Some(url) => url@,
        None => Seq::empty(),
    }
}

impl RequestOptions {
    /// The base URL that these options ask for, which is empty where they
    /// name none.
    pub fn base_url_str(&self) -> (url: &str)
        ensures
            url@ == base_url_of(*self),
    {
        match &self.base_url {
            Some(url) => url.as_str(),
            None => {
                let empty: &'static str = "";
                proof {
                    reveal_strlit("");
                    assert(empty@ =~= Seq::empty());
                }
                empty
            },
        }
    }
}


/// The JSON form of a request: an object with `model` and `contents`, and
/// with each of `generation_config`, `safety_settings`, `tools`,
/// `tool_config`, `system_instruction` and `cached_content` that the request
/// sets. What it does not set has no member.
pub open spec fn request_json(request: GenerateContentRequest) -> JsonView {
    JsonView::Object(
        with_optional(
            with_optional(
                with_optional(
                    with_optional(
                        with_optional(
                            with_optional(
                                Map::<Seq<char>, JsonView>::empty().insert(
                                    "model"@,
                                    JsonView::Text(request.model@),
                                ).insert("contents"@, contents_json(request.contents@)),
                                "generation_config"@,
                                match request.generation_config {
                                    Some(config) => Some(generation_config_json(*config)),
                                    None => None,
                                },
                            ),
                            "safety_settings"@,
                            match request.safety_settings {
                                Some(settings) => Some(settings_json(settings@)),
                                None => None,
                            },
                        ),
                        "tools"@,
                        match request.tools {
                            Some(tools) => Some(tools_json(tools@)),
                            None => None,
                        },
                    ),
                    "tool_config"@,
                    match request.tool_config {
                        Some(config) => Some(tool_config_json(*config)),
                        None => None,
                    },
                ),
                "system_instruction"@,
                match request.system_instruction {
                    Some(content) => Some(content_to_json(content@)),
                    None => None,
                },
            ),
            "cached_content"@,
            match request.cached_content {
                Some(cached) => Some(cached_content_json(*cached)),
                None => None,
            },
        ),
    )
}

impl<'a> GenerateContentRequest<'a> {
    /// The JSON form of this request.
    pub fn encode(&self) -> (json: Json)
        ensures
            json@ == request_json(*self),
    {
        let mut members = no_members();
        add_member(&mut members, "model", Json::Text(self.model.clone()));
        add_member(&mut members, "contents", encode_contents(&self.contents));
        if let Some(config) = self.generation_config {
            add_member(&mut members, "generation_config", config.encode());
        }
        if let Some(settings) = self.safety_settings {
            add_member(&mut members, "safety_settings", encode_settings(settings));
        }
        if let Some(tools) = self.tools {
            add_member(&mut members, "tools", encode_tools(tools));
        }
        if let Some(config) = self.tool_config {
            add_member(&mut members, "tool_config", config.encode());
        }
        if let Some(content) = self.system_instruction {
            add_member(&mut members, "system_instruction", content.encode());
        }
        if let Some(cached) = self.cached_content {
            add_member(&mut members, "cached_content", cached.encode());
        }
        Json::Object(members)
    }

    /// The body with which this request is posted: its JSON form as text.
    /// The text is `serde_json`'s: it is what [`json_text`] names for the
    /// JSON form, and nothing where that names none.
    pub fn body(&self) -> (text: Option<String>)
        ensures
            match text {
                Some(t) => json_text(request_json(*self)) == Some(t@),
                None => json_text(request_json(*self)) is None,
            },
    {
        self.encode().to_text()
    }
}

impl<'a> Default for GenerateContentRequest<'a> {
    fn default() -> (request: GenerateContentRequest<'a>)
        ensures
            request.model@.len() == 0,
            request.contents@.len() == 0,
            request.generation_config is None,
            request.safety_settings is None,
            request.tools is None,
            request.tool_config is None,
            request.system_instruction is None,
            request.cached_content is None,
    {
        GenerateContentRequest {
            model: String::new(),
            contents: Vec::new(),
            generation_config: None,
            safety_settings: None,
            tools: None,
            tool_config: None,
            system_instruction: None,
            cached_content: None,
        }
    }
}

} // verus!
