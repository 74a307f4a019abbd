//! The model that generates content.

use crate::v1::methods::request::{endpoint, endpoint_url};
use crate::v1::models::{is_default_options, options_or_default};
use crate::v1::text::has_char;
use crate::v1::traits::Stringify;
use crate::v1::types::content_types::{Content, Part, Tool, ToolConfig};
use crate::v1::types::generation_types::GenerationConfig;
use crate::v1::types::model::ModelParams;
use crate::v1::types::requests::{
    base_url_of, borrowed, GenerateContentRequest, RequestOptions, Task,
};
use crate::v1::types::safety_types::SafetySetting;
use crate::v1::types::server::caching::CachedContent;
use vstd::prelude::*;
use vstd::string::StringExecFns;

verus! {

/// GenerativeModel is a model that can generate text.
#[derive(Debug)]
pub struct GenerativeModel {
    /// The key with which the model's requests are made.
    pub api_key: String,
    pub model: String,
    pub request_options: RequestOptions,
    pub generation_config: Option<GenerationConfig>,
    pub safety_settings: Option<Vec<SafetySetting>>,
    pub tools: Option<Vec<Tool>>,
    pub tool_config: Option<ToolConfig>,
    pub system_instruction: Option<Content>,
    pub cached_content: Option<CachedContent>,
}

/// The resource name of a model: a name with a slash is one already, and
/// any other name is looked for under `models/`.
pub open spec fn resource_name(model: Seq<char>) -> Seq<char> {
    if model.contains('/') {
        model
    } else {
        "models/"@ + model
    }
}

/// The version of the API that options ask for, which is empty where they
/// name none.
pub open spec fn version_of(options: RequestOptions) -> Seq<char> {
    match options.api_version {
        Some(version) => version.name(),
        None => Seq::empty(),
    }
}

impl GenerativeModel {
    /// A model under its resource name, with the settings of the
    /// parameters and with the given options, or the default ones where none
    /// are given.
    pub fn new(
        api_key: String,
        model_params: ModelParams,
        request_options: Option<RequestOptions>,
    ) -> (model: GenerativeModel)
        ensures
            model.api_key@ == api_key@,
            model.model@ == resource_name(model_params.model@),
            model.generation_config == model_params.generation_config,
            model.safety_settings == model_params.safety_settings,
            model.tools == model_params.tools,
            model.tool_config == model_params.tool_config,
            model.system_instruction == model_params.system_instruction,
            model.cached_content == model_params.cached_content,
            match request_options {
                Some(given) => model.request_options == given,
                None => is_default_options(model.request_options),
            },
    {
        let name = if has_char(model_params.model.as_str(), '/') {
            model_params.model
        } else {
            let mut name = "models/".to_owned();
            name.append(model_params.model.as_str());
            name
        };
        GenerativeModel {
            api_key,
            model: name,
            generation_config: model_params.generation_config,
            safety_settings: model_params.safety_settings,
            request_options: options_or_default(request_options),
            tools: model_params.tools,
            tool_config: model_params.tool_config,
            system_instruction: model_params.system_instruction,
            cached_content: model_params.cached_content,
        }
    }

    /// A request on this model for one turn of the user with the given
    /// parts: the request names the model, holds one content of the role
    /// `user` with the parts in their order, and refers to the settings of
    /// the model.
    pub fn _prepare_request(&self, requests: Vec<Part>) -> (request: GenerateContentRequest<'_>)
        ensures
            request.model@ == self.model@,
            request.contents@.len() == 1,
            request.contents@[0].role@ == "user"@,
            request.contents@[0].parts == requests,
            request.generation_config == borrowed(&self.generation_config),
            request.safety_settings == borrowed(&self.safety_settings),
            request.tools == borrowed(&self.tools),
            request.tool_config == borrowed(&self.tool_config),
            request.system_instruction == borrowed(&self.system_instruction),
            request.cached_content == borrowed(&self.cached_content),
    {
        let mut contents: Vec<Content> = Vec::new();
        contents.push(Content { role: "user".to_owned(), parts: requests });
        GenerateContentRequest {
            model: self.model.clone(),
            contents,
            generation_config: self.generation_config.as_ref(),
            safety_settings: self.safety_settings.as_ref(),
            tools: self.tools.as_ref(),
            tool_config: self.tool_config.as_ref(),
            system_instruction: self.system_instruction.as_ref(),
            cached_content: self.cached_content.as_ref(),
        }
    }

    /// The URL to which a request for `task` on this model is posted.
    pub fn request_url(&self, task: Task, stream: bool) -> (url: String)
        ensures
            url@ == endpoint(
                base_url_of(self.request_options),
                version_of(self.request_options),
                self.model@,
                task.name(),
                self.api_key@,
                stream,
            ),
    {
        let version: &str = match &self.request_options.api_version {
            Some(version) => version.to_str(),
            None => {
                let empty: &'static str = "";
                proof {
                    reveal_strlit("");
                    assert(empty@ =~= Seq::empty());
                }
                empty
            },
        };
        endpoint_url(
            self.request_options.base_url_str(),
            version,
            self.model.as_str(),
            task.to_str(),
            self.api_key.as_str(),
            stream,
        )
    }
}

} // verus!
