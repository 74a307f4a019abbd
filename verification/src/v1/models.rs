//! Models: where their descriptions are asked for, and the model that
//! generates content.

pub mod generative_models;

use crate::v1::traits::Stringify;
use crate::v1::types::requests::{base_url_of, ApiVersion, RequestOptions};
use vstd::prelude::*;
use vstd::string::StringExecFns;

verus! {

/// The options that a request goes by: the given ones, or the default ones
/// where none are given.
pub fn options_or_default(request_options: Option<RequestOptions>) -> (options: RequestOptions)
    ensures
        match request_options {
            Some(given) => options == given,
            None => is_default_options(options),
        },
{
    match request_options {
        Some(given) => given,
        None => RequestOptions::default(),
    }
}

/// Whether options are the default ones.
pub open spec fn is_default_options(options: RequestOptions) -> bool {
    &&& options.timeout is None
    &&& options.api_version == Some(ApiVersion::V1Beta)
    &&& options.api_client is None
    &&& options.base_url matches Some(url) && url@ == "https://generativelanguage.googleapis.com"@
    &&& options.custom_headers is None
}

/// The version of the API that options ask for: their own, or `v1beta`.
pub open spec fn version_or_default(options: RequestOptions) -> Seq<char> {
    match options.api_version {
        Some(version) => version.name(),
        None => ApiVersion::V1Beta.name(),
    }
}

/// The URL of the list of models: `{base}/{version}/models?key={key}`.
pub open spec fn model_list_endpoint(base: Seq<char>, version: Seq<char>, key: Seq<char>) -> Seq<
    char,
> {
    base + "/"@ + version + "/models?key="@ + key
}

/// The URL of the description of one model:
/// `{base}/{version}/models/{model}?key={key}`.
pub open spec fn model_info_endpoint(
    base: Seq<char>,
    version: Seq<char>,
    model: Seq<char>,
    key: Seq<char>,
) -> Seq<char> {
    base + "/"@ + version + "/models/"@ + model + "?key="@ + key
}

/// The version name that options ask for: their own, or `v1beta`.
fn version_str(options: &RequestOptions) -> (name: &'static str)
    ensures
        name@ == version_or_default(*options),
{
    match &options.api_version {
        Some(version) => version.to_str(),
        None => ApiVersion::V1Beta.to_str(),
    }
}

/// The URL from which the list of models is fetched, under the given
/// options or the default ones.
pub fn model_list_url(api_key: &str, request_options: Option<RequestOptions>) -> (url: String)
    ensures
        match request_options {
            Some(given) => url@ == model_list_endpoint(
                base_url_of(given),
                version_or_default(given),
                api_key@,
            ),
            None => url@ == model_list_endpoint(
                "https://generativelanguage.googleapis.com"@,
                "v1beta"@,
                api_key@,
            ),
        },
{
    let options = options_or_default(request_options);
    let mut url = String::new();
    url.append(options.base_url_str());
    url.append("/");
    url.append(version_str(&options));
    url.append("/models?key=");
    url.append(api_key);
    assert(url@ =~= model_list_endpoint(
        base_url_of(options),
        version_or_default(options),
        api_key@,
    ));
    url
}

/// The URL from which the description of a model is fetched, under the
/// given options or the default ones.
pub fn model_info_url(api_key: &str, model: &str, request_options: Option<RequestOptions>) -> (url:
    String)
    ensures
        match request_options {
            Some(given) => url@ == model_info_endpoint(
                base_url_of(given),
                version_or_default(given),
                model@,
                api_key@,
            ),
            None => url@ == model_info_endpoint(
                "https://generativelanguage.googleapis.com"@,
                "v1beta"@,
                model@,
                api_key@,
            ),
        },
{
    let options = options_or_default(request_options);
    let mut url = String::new();
    url.append(options.base_url_str());
    url.append("/");
    url.append(version_str(&options));
    url.append("/models/");
    url.append(model);
    url.append("?key=");
    url.append(api_key);
    assert(url@ =~= model_info_endpoint(
        base_url_of(options),
        version_or_default(options),
        model@,
        api_key@,
    ));
    url
}

} // verus!
