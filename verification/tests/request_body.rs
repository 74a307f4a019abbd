use google_generative_ai_rs::v1::json::{encode_integer, encode_texts, find_member, Json};
use google_generative_ai_rs::v1::models::generative_models::GenerativeModel;
use google_generative_ai_rs::v1::types::content_types::{
    encode_contents, encode_tools, ContentType, FunctionCallingConfig, FunctionCallingMode,
    FunctionDeclaration, FunctionParameterType, FunctionParameters, FunctionParametersProperty,
    Part, TextPart, Tool, ToolConfig,
};
use google_generative_ai_rs::v1::types::generation_types::{GenerationConfig, MimeType};
use google_generative_ai_rs::v1::types::model::ModelParams;
use google_generative_ai_rs::v1::types::requests::GenerateContentRequest;
use google_generative_ai_rs::v1::types::safety_types::{
    encode_settings, HarmBlockThreshold, HarmCategory, SafetySetting,
};
use google_generative_ai_rs::v1::types::schema::{Schema, SchemaType};
use google_generative_ai_rs::v1::types::server::caching::{
    CachedContent, CachedContentUsageMetadata, ExpireTimeOrTTL,
};

fn text(s: &str) -> Json {
    Json::Text(s.to_string())
}

fn object(members: Vec<(&str, Json)>) -> Json {
    Json::Object(members.into_iter().map(|(k, v)| (k.to_string(), v)).collect())
}

fn number(n: u64) -> Json {
    Json::Number(serde_json::Number::from(n))
}

fn hello() -> Vec<Part> {
    vec![Part::TextPart(TextPart { text: "Hello.".to_string() })]
}

fn user_content() -> ContentType {
    ContentType { role: "user".to_string(), parts: hello() }
}

fn plain_schema(data_type: SchemaType) -> Schema {
    Schema {
        data_type,
        format: None,
        description: None,
        nullable: None,
        enum_values: None,
        items: None,
        properties: None,
        required: None,
        example: None,
    }
}

fn plain_schema_json(name: &str) -> Json {
    object(vec![
        ("type", text(name)),
        ("format", Json::Null),
        ("description", Json::Null),
        ("nullable", Json::Null),
        ("enum", Json::Null),
        ("items", Json::Null),
        ("properties", Json::Null),
        ("required", Json::Null),
        ("example", Json::Null),
    ])
}

#[test]
fn minimal_request_body() {
    let model = GenerativeModel::new("K".to_string(), ModelParams::new("gemini-pro"), None);
    let request = model._prepare_request(hello());
    assert_eq!(
        request.encode(),
        object(vec![
            ("model", text("models/gemini-pro")),
            ("contents", Json::Array(vec![user_content().encode()])),
        ])
    );
    assert_eq!(
        request.body().unwrap(),
        "{\"contents\":[{\"parts\":[{\"text\":\"Hello.\"}],\"role\":\"user\"}],\"model\":\"models/gemini-pro\"}"
    );
}

#[test]
fn request_carries_the_settings_of_the_model() {
    let mut params = ModelParams::new("m");
    params.safety_settings = Some(vec![SafetySetting {
        category: HarmCategory::HarmCategoryHarassment,
        threshold: HarmBlockThreshold::BlockOnlyHigh,
    }]);
    params.system_instruction =
        Some(ContentType { role: "system".to_string(), parts: vec![] });
    params.tool_config = Some(ToolConfig {
        function_calling_config: FunctionCallingConfig {
            mode: Some(FunctionCallingMode::Any),
            allowed_function_names: Some(vec!["f".to_string()]),
        },
    });
    params.tools = Some(vec![Tool { function_declarations: None }]);
    let model = GenerativeModel::new("K".to_string(), params, None);
    let request = model._prepare_request(vec![]);
    let encoded = request.encode();
    let members = encoded.as_object().unwrap();
    assert_eq!(members.len(), 6);
    assert_eq!(
        find_member(members, "safety_settings"),
        Some(&Json::Array(vec![object(vec![
            ("category", text("HARM_CATEGORY_HARASSMENT")),
            ("threshold", text("BlockOnlyHigh")),
        ])]))
    );
    assert_eq!(
        find_member(members, "system_instruction"),
        Some(&object(vec![("role", text("system")), ("parts", Json::Array(vec![]))]))
    );
    assert_eq!(
        find_member(members, "tool_config"),
        Some(&object(vec![(
            "function_calling_config",
            object(vec![
                ("mode", text("ANY")),
                ("allowed_function_names", Json::Array(vec![text("f")])),
            ])
        )]))
    );
    assert_eq!(
        find_member(members, "tools"),
        Some(&Json::Array(vec![object(vec![("function_declarations", Json::Null)])]))
    );
    assert_eq!(find_member(members, "generation_config"), None);
    assert_eq!(find_member(members, "cached_content"), None);
}

#[test]
fn generation_config_writes_null_for_what_is_unset() {
    let config = GenerationConfig {
        candidate_count: Some(2),
        stop_sequences: Some(vec!["END".to_string(), "STOP".to_string()]),
        max_output_tokens: Some(u64::MAX),
        temperature: serde_json::Number::from_f64(0.5),
        top_p: None,
        top_k: Some(serde_json::Number::from(40)),
        response_mime_type: Some(MimeType::ApplicationJson),
        response_schema: Some(plain_schema(SchemaType::Object)),
    };
    assert_eq!(
        config.encode(),
        object(vec![
            ("candidate_count", number(2)),
            ("stop_sequences", Json::Array(vec![text("END"), text("STOP")])),
            ("max_output_tokens", number(u64::MAX)),
            ("temperature", Json::Number(serde_json::Number::from_f64(0.5).unwrap())),
            ("top_p", Json::Null),
            ("top_k", number(40)),
            ("response_mime_type", text("ApplicationJson")),
            ("response_schema", plain_schema_json("Object")),
        ])
    );
    let unset = GenerationConfig {
        candidate_count: None,
        stop_sequences: None,
        max_output_tokens: None,
        temperature: None,
        top_p: None,
        top_k: None,
        response_mime_type: None,
        response_schema: None,
    };
    assert_eq!(
        unset.encode().to_text().unwrap(),
        "{\"candidate_count\":null,\"max_output_tokens\":null,\"response_mime_type\":null,\
         \"response_schema\":null,\"stop_sequences\":null,\"temperature\":null,\"top_k\":null,\
         \"top_p\":null}"
    );
}

#[test]
fn schema_encodes_what_lies_below() {
    let schema = Schema {
        data_type: SchemaType::Array,
        format: Some("enum".to_string()),
        description: Some("d".to_string()),
        nullable: Some(true),
        enum_values: Some(vec!["EAST".to_string()]),
        items: Some(Box::new(plain_schema(SchemaType::String))),
        properties: Some(vec![
            ("a".to_string(), plain_schema(SchemaType::Integer)),
            ("b".to_string(), plain_schema(SchemaType::Boolean)),
        ]),
        required: Some(vec!["a".to_string()]),
        example: Some(object(vec![("x", number(1))])),
    };
    assert_eq!(
        schema.encode(),
        object(vec![
            ("type", text("Array")),
            ("format", text("enum")),
            ("description", text("d")),
            ("nullable", Json::Bool(true)),
            ("enum", Json::Array(vec![text("EAST")])),
            ("items", plain_schema_json("String")),
            (
                "properties",
                object(vec![("a", plain_schema_json("Integer")), ("b", plain_schema_json("Boolean"))])
            ),
            ("required", Json::Array(vec![text("a")])),
            ("example", object(vec![("x", number(1))])),
        ])
    );
    assert_eq!(plain_schema(SchemaType::Number).encode(), plain_schema_json("Number"));
    assert_eq!(SchemaType::Object.to_str(), "Object");
}

#[test]
fn tool_encodes_its_declarations() {
    let property = FunctionParametersProperty {
        data_type: Some("STRING".to_string()),
        format: None,
        description: Some("where".to_string()),
        nullable: Some(false),
        items: Some(FunctionParameters {
            data_type: FunctionParameterType::Integer,
            properties: vec![],
            description: None,
            required: None,
        }),
        enum_values: None,
        properties: vec![(
            "inner".to_string(),
            FunctionParameters {
                data_type: FunctionParameterType::Boolean,
                properties: vec![],
                description: Some("flag".to_string()),
                required: Some(vec![]),
            },
        )],
        required: None,
    };
    let tool = Tool {
        function_declarations: Some(vec![
            FunctionDeclaration {
                name: "lookup".to_string(),
                description: Some("looks up".to_string()),
                parameters: Some(FunctionParameters {
                    data_type: FunctionParameterType::Object,
                    properties: vec![("city".to_string(), property)],
                    description: None,
                    required: Some(vec!["city".to_string()]),
                }),
            },
            FunctionDeclaration { name: "now".to_string(), description: None, parameters: None },
        ]),
    };
    let integer = object(vec![
        ("type", text("INTEGER")),
        ("properties", object(vec![])),
        ("description", Json::Null),
        ("required", Json::Null),
    ]);
    let flag = object(vec![
        ("type", text("BOOLEAN")),
        ("properties", object(vec![])),
        ("description", text("flag")),
        ("required", Json::Array(vec![])),
    ]);
    let city = object(vec![
        ("type", text("STRING")),
        ("format", Json::Null),
        ("description", text("where")),
        ("nullable", Json::Bool(false)),
        ("items", integer),
        ("enum", Json::Null),
        ("properties", object(vec![("inner", flag)])),
        ("required", Json::Null),
    ]);
    let expected = object(vec![(
        "function_declarations",
        Json::Array(vec![
            object(vec![
                ("name", text("lookup")),
                ("description", text("looks up")),
                (
                    "parameters",
                    object(vec![
                        ("type", text("OBJECT")),
                        ("properties", object(vec![("city", city)])),
                        ("description", Json::Null),
                        ("required", Json::Array(vec![text("city")])),
                    ]),
                ),
            ]),
            object(vec![
                ("name", text("now")),
                ("description", Json::Null),
                ("parameters", Json::Null),
            ]),
        ]),
    )]);
    assert_eq!(tool.encode(), expected);
    assert_eq!(encode_tools(&vec![tool]), Json::Array(vec![expected]));
}

#[test]
fn wire_names_of_tool_enums() {
    assert_eq!(FunctionParameterType::String.to_str(), "STRING");
    assert_eq!(FunctionParameterType::Number.to_str(), "NUMBER");
    assert_eq!(FunctionParameterType::Integer.to_str(), "INTEGER");
    assert_eq!(FunctionParameterType::Boolean.to_str(), "BOOLEAN");
    assert_eq!(FunctionParameterType::Array.to_str(), "ARRAY");
    assert_eq!(FunctionParameterType::Object.to_str(), "OBJECT");
    assert_eq!(FunctionCallingMode::ModeUnspecified.to_str(), "MODE_UNSPECIFIED");
    assert_eq!(FunctionCallingMode::Auto.to_str(), "AUTO");
    assert_eq!(FunctionCallingMode::Any.to_str(), "ANY");
    assert_eq!(FunctionCallingMode::NoCalls.to_str(), "NONE");
    assert_eq!(MimeType::TextPlain.to_str(), "TextPlain");
    assert_eq!(MimeType::ApplicationJson.to_str(), "ApplicationJson");
}

#[test]
fn tool_config_without_mode() {
    let config = ToolConfig {
        function_calling_config: FunctionCallingConfig { mode: None, allowed_function_names: None },
    };
    assert_eq!(
        config.encode().to_text().unwrap(),
        "{\"function_calling_config\":{\"allowed_function_names\":null,\"mode\":null}}"
    );
}

#[test]
fn cached_content_encodes_every_member() {
    let cached = CachedContent {
        expiration: ExpireTimeOrTTL { expire_time: "t".to_string(), ttl: "300s".to_string() },
        name: Some("cachedContents/1".to_string()),
        display_name: None,
        model: "models/m".to_string(),
        system_instruction: ContentType { role: "system".to_string(), parts: vec![] },
        contents: vec![user_content()],
        tools: None,
        tool_config: None,
        create_time: "c".to_string(),
        update_time: "u".to_string(),
        usage_metadata: CachedContentUsageMetadata { total_token_count: 7 },
    };
    assert_eq!(
        cached.encode(),
        object(vec![
            ("expiration", object(vec![("expire_time", text("t")), ("ttl", text("300s"))])),
            ("name", text("cachedContents/1")),
            ("display_name", Json::Null),
            ("model", text("models/m")),
            ("system_instruction", object(vec![("role", text("system")), ("parts", Json::Array(vec![]))])),
            ("contents", Json::Array(vec![user_content().encode()])),
            ("tools", Json::Null),
            ("tool_config", Json::Null),
            ("create_time", text("c")),
            ("update_time", text("u")),
            ("usage_metadata", object(vec![("total_token_count", number(7))])),
        ])
    );
    let request = GenerateContentRequest {
        model: "models/m".to_string(),
        contents: vec![],
        generation_config: None,
        safety_settings: None,
        tools: None,
        tool_config: None,
        system_instruction: None,
        cached_content: Some(&cached),
    };
    let encoded = request.encode();
    assert_eq!(find_member(encoded.as_object().unwrap(), "cached_content"), Some(&cached.encode()));
}

#[test]
fn list_encoders() {
    assert_eq!(encode_contents(&vec![]), Json::Array(vec![]));
    assert_eq!(
        encode_contents(&vec![user_content(), user_content()]),
        Json::Array(vec![user_content().encode(), user_content().encode()])
    );
    assert_eq!(encode_settings(&vec![]), Json::Array(vec![]));
    assert_eq!(encode_texts(&vec!["a".to_string(), "".to_string()]), Json::Array(vec![text("a"), text("")]));
    assert_eq!(encode_integer(0), number(0));
    assert_eq!(encode_integer(12), number(12));
}
