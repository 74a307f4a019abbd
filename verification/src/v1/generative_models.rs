//! The first model interface.

use crate::v1::types::content_types::{ContentType, Tool, ToolConfig};
use crate::v1::types::generation_types::GenerationConfig;
use crate::v1::types::request_types::RequestOptions;
use crate::v1::types::safety_types::SafetySetting;
use vstd::prelude::*;

verus! {

/// The [`GenerativeModel`] class wraps default parameters for calls to
/// [`GenerativeModel::generate_content`].
///
/// This family of functionality is designed to support multi-turn
/// conversations, and multimodal requests. What media-types are supported
/// for input and output is model-dependant.
#[derive(Debug)]
pub struct GenerativeModel {
    /// The key with which the model's requests are made.
    pub api_key: String,
    /// Currently support models/gemini-pro & models/gemini-pro-vision
    pub model_name: String,
    pub safety_settings: Option<Vec<SafetySetting>>,
    pub generation_config: Option<GenerationConfig>,
    pub tools: Option<Vec<Tool>>,
    pub tool_config: Option<ToolConfig>,
    pub system_instruction: Option<ContentType>,
    pub request_options: Option<RequestOptions>,
}

impl GenerativeModel {
    /// Gets a [`GenerativeModel`] instance for the provided model name
    pub fn new(
        api_key: String,
        model_name: String,
        safety_settings: Option<Vec<SafetySetting>>,
        generation_config: Option<GenerationConfig>,
        tools: Option<Vec<Tool>>,
        tool_config: Option<ToolConfig>,
        system_instruction: Option<ContentType>,
        request_options: Option<RequestOptions>,
    ) -> (model: GenerativeModel)
        ensures
            model.api_key == api_key,
            model.model_name == model_name,
            model.safety_settings == safety_settings,
            model.generation_config == generation_config,
            model.tools == tools,
            model.tool_config == tool_config,
            model.system_instruction == system_instruction,
            model.request_options == request_options,
    {
        GenerativeModel {
            api_key,
            model_name,
            safety_settings,
            generation_config,
            tools,
            tool_config,
            system_instruction,
            request_options,
        }
    }

    /// A multipurpose function to generate responses from the model. This
    /// interface takes the model and the overrides of its settings; it sends
    /// no request.
    ///
    /// Arguments
    /// - `contents`: The contents serving as the model's prompt.
    /// - `system_instruction`: The contents serving as the model's instruction.
    /// - `generation_config`: Overrides for the model's generation config.
    /// - `safety_settings`: Overrides for the model's safety settings.
    /// - `stream`: If true, yield response chunks as they are generated.
    /// - `tools`: The tools that the model may call.
    /// - `tool_config`: The configuration of the tools.
    /// - `request_options`: Options for the request.
    pub fn generate_content(
        self,
        contents: Vec<ContentType>,
        system_instruction: Option<ContentType>,
        generation_config: Option<GenerationConfig>,
        safety_settings: Option<Vec<SafetySetting>>,
        stream: bool,
        tools: Option<Vec<Tool>>,
        tool_config: Option<ToolConfig>,
        request_options: Option<RequestOptions>,
    ) {
    }
}

} // verus!
