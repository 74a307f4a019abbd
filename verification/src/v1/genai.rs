//! The entry point of the library.

use crate::v1::models::generative_models::{resource_name, GenerativeModel};
use crate::v1::models::{
    is_default_options, model_info_endpoint, model_info_url, model_list_endpoint, model_list_url,
    version_or_default,
};
use crate::v1::types::model::ModelParams;
use crate::v1::types::requests::{base_url_of, RequestOptions};
use vstd::prelude::*;

verus! {

/// Top-level class for this SDK
#[derive(Debug)]
pub struct GoogleGenerativeAI {
    api_key: String,
}

impl GoogleGenerativeAI {
    /// The key with which requests are made.
    pub closed spec fn api_key(&self) -> Seq<char> {
        self.api_key@
    }

    /// An entry point that makes its requests with the given key.
    pub fn new(api_key: String) -> (genai: GoogleGenerativeAI)
        ensures
            genai.api_key() == api_key@,
    {
        GoogleGenerativeAI { api_key }
    }

    /// The URL from which the list of models is fetched.
    pub fn model_list_url(&self, request_options: Option<RequestOptions>) -> (url: String)
        ensures
            match request_options {
                Some(given) => url@ == model_list_endpoint(
                    base_url_of(given),
                    version_or_default(given),
                    self.api_key(),
                ),
                None => url@ == model_list_endpoint(
                    "https://generativelanguage.googleapis.com"@,
                    "v1beta"@,
                    self.api_key(),
                ),
            },
    {
        model_list_url(self.api_key.as_str(), request_options)
    }

    /// The URL from which the description of a model is fetched.
    pub fn model_info_url(&self, model: &str, request_options: Option<RequestOptions>) -> (url:
        String)
        ensures
            match request_options {
                Some(given) => url@ == model_info_endpoint(
                    base_url_of(given),
                    version_or_default(given),
                    model@,
                    self.api_key(),
                ),
                None => url@ == model_info_endpoint(
                    "https://generativelanguage.googleapis.com"@,
                    "v1beta"@,
                    model@,
                    self.api_key(),
                ),
            },
    {
        model_info_url(self.api_key.as_str(), model, request_options)
    }

    /// Gets a GenerativeModel instance for the provided model name.
    pub fn get_generative_model(
        &self,
        model_params: ModelParams,
        request_options: Option<RequestOptions>,
    ) -> (model: GenerativeModel)
        ensures
            model.api_key@ == self.api_key(),
            model.model@ == resource_name(model_params.model@),
            model.generation_config == model_params.generation_config,
            model.safety_settings == model_params.safety_settings,
            model.tools == model_params.tools,
            model.tool_config == model_params.tool_config,
            model.system_instruction == model_params.system_instruction,
            model.cached_content == model_params.cached_content,
            match request_options {
                Some(given) => model.request_options == given,
                None => is_default_options(model.request_options),
            },
    {
        GenerativeModel::new(self.api_key.clone(), model_params, request_options)
    }
}

} // verus!
