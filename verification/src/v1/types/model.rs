//! The parameters with which a model is asked for.

use crate::v1::types::content_types::{Content, Tool, ToolConfig};
use crate::v1::types::generation_types::GenerationConfig;
use crate::v1::types::safety_types::SafetySetting;
use crate::v1::types::server::caching::CachedContent;
use vstd::prelude::*;

verus! {

/// Params passed to `GoogleGenerativeAI::get_generative_model`.
#[derive(Debug)]
pub struct ModelParams {
    /// The name of the model to query.
    pub model: String,
    /// Sets the default safety filters. This controls which content is
    /// blocked by the api before being returned.
    pub safety_settings: Option<Vec<SafetySetting>>,
    /// A [`GenerationConfig`] setting the default generation parameters to
    /// use.
    pub generation_config: Option<GenerationConfig>,
    pub tools: Option<Vec<Tool>>,
    pub tool_config: Option<ToolConfig>,
    /// SystemInstruction (also known as "system prompt") is a more forceful
    /// prompt to the model. The model will adhere the instructions more
    /// strongly than if they appeared in a normal prompt.
    pub system_instruction: Option<Content>,
    /// The name of the CachedContent to use. Must have already been
    /// created.
    pub cached_content: Option<CachedContent>,
}

impl ModelParams {
    /// Parameters that name a model and set nothing else.
    pub fn new(model: &str) -> (params: ModelParams)
        ensures
            params.model@ == model@,
            params.safety_settings is None,
            params.generation_config is None,
            params.tools is None,
            params.tool_config is None,
            params.system_instruction is None,
            params.cached_content is None,
    {
        ModelParams {
            model: model.to_owned(),
            safety_settings: None,
            generation_config: None,
            tools: None,
            tool_config: None,
            system_instruction: None,
            cached_content: None,
        }
    }
}

impl Default for ModelParams {
    fn default() -> (params: ModelParams)
        ensures
            params.model@.len() == 0,
            params.safety_settings is None,
            params.generation_config is None,
            params.tools is None,
            params.tool_config is None,
            params.system_instruction is None,
            params.cached_content is None,
    {
        ModelParams {
            model: String::new(),
            safety_settings: None,
            generation_config: None,
            tools: None,
            tool_config: None,
            system_instruction: None,
            cached_content: None,
        }
    }
}

} // verus!
