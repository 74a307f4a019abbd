//! Where a request goes.

use crate::v1::constants::request::{DEFAULT_API_VERSION, DEFAULT_BASE_URL};
use crate::v1::types::request_types::RequestOptions;
use vstd::prelude::*;
use vstd::string::StringExecFns;

verus! {

/// What a request asks the model to do.
#[derive(Debug, Clone, Copy, PartialEq, Eq)]
pub enum Task {
    GenerateContent,
    StreamGenerateContent,
    CountTokens,
    EmbedContent,
    BatchEmbedContents,
}

impl Task {
    /// The name under which a request URL asks for it.
    pub open spec fn name(self) -> Seq<char> {
        match self {
            Task::GenerateContent => "generateContent"@,
            Task::StreamGenerateContent => "streamGenerateContent"@,
            Task::CountTokens => "countTokens"@,
            Task::EmbedContent => "embedContent"@,
            Task::BatchEmbedContents => "batchEmbedContents"@,
        }
    }

    /// The name under which a request URL asks for it.
    pub fn as_str(&self) -> (name: &'static str)
        ensures
            name@ == self.name(),
    {
        match self {
            Task::GenerateContent => "generateContent",
            Task::StreamGenerateContent => "streamGenerateContent",
            Task::CountTokens => "countTokens",
            Task::EmbedContent => "embedContent",
            Task::BatchEmbedContents => "batchEmbedContents",
        }
    }

    /// The name under which a request URL asks for it, as an owned string.
    pub fn to_text(&self) -> (name: String)
        ensures
            name@ == self.name(),
    {
        self.as_str().to_owned()
    }
}

/// What asks for events instead of one whole response.
pub open spec fn stream_suffix(stream: bool) -> Seq<char> {
    if stream {
        "&alt=sse"@
    } else {
        Seq::empty()
    }
}

/// The URL of a request to a model:
/// `{base}/{version}/{model}:{task}?key={key}`, followed by `&alt=sse` where
/// the response is to be streamed.
pub open spec fn endpoint(
    base: Seq<char>,
    version: Seq<char>,
    model: Seq<char>,
    task: Seq<char>,
    key: Seq<char>,
    stream: bool,
) -> Seq<char> {
    base + "/"@ + version + "/"@ + model + ":"@ + task + "?key="@ + key + stream_suffix(stream)
}

/// Builds the URL of a request to a model.
pub fn endpoint_url(
    base: &str,
    version: &str,
    model: &str,
    task: &str,
    key: &str,
    stream: bool,
) -> (url: String)
    ensures
        url@ == endpoint(base@, version@, model@, task@, key@, stream),
{
    let mut url = String::new();
    url.append(base);
    url.append("/");
    url.append(version);
    url.append("/");
    url.append(model);
    url.append(":");
    url.append(task);
    url.append("?key=");
    url.append(key);
    if stream {
        url.append("&alt=sse");
    }
    assert(url@ =~= endpoint(base@, version@, model@, task@, key@, stream));
    url
}

/// The base URL that options ask for: their own, or the default one.
pub open spec fn base_url_of(options: Option<RequestOptions>) -> Seq<char> {
    match options {
        Some(RequestOptions { base_url: Some(url), .. }) => url@,
        _ => DEFAULT_BASE_URL@,
    }
}

/// The version of the API that options ask for: their own, or the default
/// one.
pub open spec fn api_version_of(options: Option<RequestOptions>) -> Seq<char> {
    match options {
        Some(RequestOptions { api_version: Some(version), .. }) => version@,
        _ => DEFAULT_API_VERSION@,
    }
}

/// The URL to which a request for `task` on `model` is posted.
pub fn request_url(
    model: &str,
    task: Task,
    api_key: &str,
    stream: bool,
    request_options: &Option<RequestOptions>,
) -> (url: String)
    ensures
        url@ == endpoint(
            base_url_of(*request_options),
            api_version_of(*request_options),
            model@,
            task.name(),
            api_key@,
            stream,
        ),
{
    let base: &str = match request_options {
        Some(options) => match &options.base_url {
            Some(url) => url.as_str(),
            None => DEFAULT_BASE_URL,
        },
        None => DEFAULT_BASE_URL,
    };
    let version: &str = match request_options {
        Some(options) => match &options.api_version {
            Some(version) => version.as_str(),
            None => DEFAULT_API_VERSION,
        },
        None => DEFAULT_API_VERSION,
    };
    endpoint_url(base, version, model, task.as_str(), api_key, stream)
}

} // verus!
