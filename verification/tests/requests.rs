use google_generative_ai_rs::v1::constants::request::{DEFAULT_API_VERSION, DEFAULT_BASE_URL};
use google_generative_ai_rs::v1::genai::GoogleGenerativeAI;
use google_generative_ai_rs::v1::methods::request::{endpoint_url, request_url, Task as FirstTask};
use google_generative_ai_rs::v1::models::generative_models::GenerativeModel;
use google_generative_ai_rs::v1::models::{model_info_url, model_list_url, options_or_default};
use google_generative_ai_rs::v1::traits::Stringify;
use google_generative_ai_rs::v1::types::content_types::{Part, TextPart};
use google_generative_ai_rs::v1::types::model::ModelParams;
use google_generative_ai_rs::v1::types::request_types::RequestOptions as FirstOptions;
use google_generative_ai_rs::v1::types::requests::{ApiVersion, RequestOptions, Task};

fn options(base_url: Option<&str>, api_version: Option<ApiVersion>) -> RequestOptions {
    RequestOptions {
        timeout: None,
        api_version,
        api_client: None,
        base_url: base_url.map(|s| s.to_string()),
        custom_headers: None,
    }
}

#[test]
fn default_constants() {
    assert_eq!(DEFAULT_BASE_URL, "https://generativelanguage.googleapis.com");
    assert_eq!(DEFAULT_API_VERSION, "v1beta");
}

#[test]
fn task_names() {
    assert_eq!(Task::GenerateContent.to_str(), "generateContent");
    assert_eq!(Task::StreamGenerateContent.to_str(), "streamGenerateContent");
    assert_eq!(Task::CountTokens.to_str(), "countTokens");
    assert_eq!(Task::EmbedContent.to_str(), "embedContent");
    assert_eq!(Task::BatchEmbedContents.to_str(), "batchEmbedContents");
    assert_eq!(FirstTask::GenerateContent.to_text(), "generateContent");
    assert_eq!(FirstTask::StreamGenerateContent.to_text(), "streamGenerateContent");
    assert_eq!(FirstTask::CountTokens.as_str(), "countTokens");
    assert_eq!(FirstTask::EmbedContent.as_str(), "embedContent");
    assert_eq!(FirstTask::BatchEmbedContents.as_str(), "batchEmbedContents");
}

#[test]
fn api_version_names() {
    assert_eq!(ApiVersion::V1.to_str(), "v1");
    assert_eq!(ApiVersion::V1Beta.to_str(), "v1beta");
    assert_eq!(ApiVersion::default(), ApiVersion::V1Beta);
}

#[test]
fn default_request_options() {
    let defaults = RequestOptions::default();
    assert_eq!(defaults.timeout, None);
    assert_eq!(defaults.api_version, Some(ApiVersion::V1Beta));
    assert_eq!(defaults.api_client, None);
    assert_eq!(defaults.base_url, Some("https://generativelanguage.googleapis.com".to_string()));
    assert!(defaults.custom_headers.is_none());
    assert_eq!(
        options_or_default(None).base_url,
        Some("https://generativelanguage.googleapis.com".to_string())
    );
    assert_eq!(
        options_or_default(Some(options(Some("http://h"), None))).base_url,
        Some("http://h".to_string())
    );
}

#[test]
fn endpoint_formula() {
    assert_eq!(
        endpoint_url("https://h", "v1", "models/m", "generateContent", "KEY", false),
        "https://h/v1/models/m:generateContent?key=KEY"
    );
    assert_eq!(
        endpoint_url("https://h", "v1", "models/m", "generateContent", "KEY", true),
        "https://h/v1/models/m:generateContent?key=KEY&alt=sse"
    );
    assert_eq!(endpoint_url("", "", "", "", "", false), "//:?key=");
}

#[test]
fn first_interface_url_uses_defaults() {
    assert_eq!(
        request_url("models/gemini-pro", FirstTask::GenerateContent, "K", false, &None),
        "https://generativelanguage.googleapis.com/v1beta/models/gemini-pro:generateContent?key=K"
    );
    let given = Some(FirstOptions {
        timeout: None,
        api_version: Some("v1".to_string()),
        api_client: None,
        base_url: None,
        custom_headers: None,
    });
    assert_eq!(
        request_url("models/gemini-pro", FirstTask::CountTokens, "K", true, &given),
        "https://generativelanguage.googleapis.com/v1/models/gemini-pro:countTokens?key=K&alt=sse"
    );
    let given = Some(FirstOptions {
        timeout: Some(5),
        api_version: None,
        api_client: None,
        base_url: Some("http://localhost:8080".to_string()),
        custom_headers: None,
    });
    assert_eq!(
        request_url("m", FirstTask::EmbedContent, "K", false, &given),
        "http://localhost:8080/v1beta/m:embedContent?key=K"
    );
}

#[test]
fn model_list_and_info_urls() {
    assert_eq!(
        model_list_url("K", None),
        "https://generativelanguage.googleapis.com/v1beta/models?key=K"
    );
    assert_eq!(
        model_list_url("K", Some(options(Some("http://h"), Some(ApiVersion::V1)))),
        "http://h/v1/models?key=K"
    );
    assert_eq!(model_list_url("K", Some(options(None, None))), "/v1beta/models?key=K");
    assert_eq!(
        model_info_url("K", "gemini-pro", None),
        "https://generativelanguage.googleapis.com/v1beta/models/gemini-pro?key=K"
    );
    assert_eq!(
        model_info_url("K", "m", Some(options(Some("http://h"), None))),
        "http://h/v1beta/models/m?key=K"
    );
    let genai = GoogleGenerativeAI::new("SECRET".to_string());
    assert_eq!(
        genai.model_list_url(None),
        "https://generativelanguage.googleapis.com/v1beta/models?key=SECRET"
    );
    assert_eq!(
        genai.model_info_url("x", None),
        "https://generativelanguage.googleapis.com/v1beta/models/x?key=SECRET"
    );
}

#[test]
fn model_params_name_a_model_and_nothing_else() {
    let params = ModelParams::new("gemini-1.5-flash");
    assert_eq!(params.model, "gemini-1.5-flash");
    assert!(params.safety_settings.is_none());
    assert!(params.generation_config.is_none());
    assert!(params.tools.is_none());
    assert!(params.tool_config.is_none());
    assert!(params.system_instruction.is_none());
    assert!(params.cached_content.is_none());
}

#[test]
fn model_name_gets_its_prefix() {
    let model = GenerativeModel::new("K".to_string(), ModelParams::new("gemini-1.5-flash"), None);
    assert_eq!(model.model, "models/gemini-1.5-flash");
    let model = GenerativeModel::new("K".to_string(), ModelParams::new("models/gemini-pro"), None);
    assert_eq!(model.model, "models/gemini-pro");
    let model = GenerativeModel::new("K".to_string(), ModelParams::new("tunedModels/x"), None);
    assert_eq!(model.model, "tunedModels/x");
    let model = GenerativeModel::new("K".to_string(), ModelParams::new(""), None);
    assert_eq!(model.model, "models/");
    assert_eq!(model.api_key, "K");
    assert_eq!(model.request_options.api_version, Some(ApiVersion::V1Beta));
}

#[test]
fn entry_point_hands_its_key_to_the_model() {
    let genai = GoogleGenerativeAI::new("SECRET".to_string());
    let model = genai.get_generative_model(
        ModelParams::new("gemini-pro"),
        Some(options(Some("http://h"), Some(ApiVersion::V1))),
    );
    assert_eq!(model.api_key, "SECRET");
    assert_eq!(model.model, "models/gemini-pro");
    assert_eq!(
        model.request_url(Task::GenerateContent, false),
        "http://h/v1/models/gemini-pro:generateContent?key=SECRET"
    );
    assert_eq!(
        model.request_url(Task::GenerateContent, true),
        "http://h/v1/models/gemini-pro:generateContent?key=SECRET&alt=sse"
    );
}

#[test]
fn model_url_with_default_and_with_empty_options() {
    let model = GenerativeModel::new("K".to_string(), ModelParams::new("m"), None);
    assert_eq!(
        model.request_url(Task::GenerateContent, false),
        "https://generativelanguage.googleapis.com/v1beta/models/m:generateContent?key=K"
    );
    let model =
        GenerativeModel::new("K".to_string(), ModelParams::new("m"), Some(options(None, None)));
    assert_eq!(model.request_url(Task::CountTokens, false), "//models/m:countTokens?key=K");
}

#[test]
fn prepared_request_holds_one_user_turn() {
    let model = GenerativeModel::new("K".to_string(), ModelParams::new("m"), None);
    let parts = vec![
        Part::TextPart(TextPart { text: "a".to_string() }),
        Part::TextPart(TextPart { text: "b".to_string() }),
    ];
    let request = model._prepare_request(parts.clone());
    assert_eq!(request.model, "models/m");
    assert_eq!(request.contents.len(), 1);
    assert_eq!(request.contents[0].role, "user");
    assert_eq!(request.contents[0].parts, parts);
    assert!(request.generation_config.is_none());
    assert!(request.safety_settings.is_none());
    assert!(request.tools.is_none());
    assert!(request.tool_config.is_none());
    assert!(request.system_instruction.is_none());
    assert!(request.cached_content.is_none());
}

#[test]
fn defaults_set_nothing() {
    let params = ModelParams::default();
    assert_eq!(params.model, "");
    assert!(params.generation_config.is_none());
    assert!(params.cached_content.is_none());
    let config = google_generative_ai_rs::v1::types::generation_types::GenerationConfig::default();
    assert!(config.candidate_count.is_none());
    assert!(config.temperature.is_none());
    assert!(config.response_schema.is_none());
    let request = google_generative_ai_rs::v1::types::requests::GenerateContentRequest::default();
    assert_eq!(request.model, "");
    assert!(request.contents.is_empty());
    assert!(request.tools.is_none());
    assert_eq!(request.body().unwrap(), "{\"contents\":[],\"model\":\"\"}");
}
