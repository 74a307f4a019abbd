//! Cached content.

use crate::v1::json::{
    add_member, encode_integer, encode_optional_text, integer_json, no_members, optional_text_json,
    Json, JsonView,
};
use crate::v1::types::content_types::{
    content_to_json, contents_json, encode_contents, encode_tools, tool_config_json, tools_json,
    Content, Tool, ToolConfig,
};
use vstd::prelude::*;

verus! {

/// CachedContent is content that has been preprocessed and can be used in
/// subsequent request to GenerativeService. Cached content can be only used
/// with model it was created for.
#[derive(Debug)]
pub struct CachedContent {
    /// Specifies when this resource will expire.
    pub expiration: ExpireTimeOrTTL,
    /// Identifier. The resource name referring to the cached content.
    /// Format: `cachedContents/{id}`
    pub name: Option<String>,
    /// Immutable. The user-generated meaningful display name of the cached
    /// content. Maximum 128 Unicode characters.
    pub display_name: Option<String>,
    /// Immutable. The name of the `Model` to use for cached content.
    /// Format: `models/{model}`
    pub model: String,
    /// Input only. Immutable. Developer set system instruction. Currently
    /// text only.
    pub system_instruction: Content,
    /// Input only. Immutable. The content to cache.
    pub contents: Vec<Content>,
    /// Input only. Immutable. A list of `Tools` the model may use to
    /// generate the next response.
    pub tools: Option<Vec<Tool>>,
    /// Input only. Immutable. Tool config. This config is shared for all
    /// tools.
    pub tool_config: Option<ToolConfig>,
    /// Output only. Creation time of the cache entry.
    pub create_time: String,
    /// Output only. When the cache entry was last updated in UTC time.
    pub update_time: String,
    /// Output only. Metadata on the usage of the cached content.
    pub usage_metadata: CachedContentUsageMetadata,
}

/// ExpireTimeOrTTL describes the time when a resource expires. If
/// expire_time is non-zero, it is the expiration time. Otherwise, the
/// expiration time is the value of TTL ("time to live") added to the current
/// time.
#[derive(Debug)]
pub struct ExpireTimeOrTTL {
    pub expire_time: String,
    pub ttl: String,
}

/// CachedContentUsageMetadata is metadata on the usage of the cached
/// content.
#[derive(Debug, Clone, Copy, PartialEq, Eq)]
pub struct CachedContentUsageMetadata {
    /// Total number of tokens that the cached content consumes.
    pub total_token_count: u32,
}


/// The JSON form of a cached content: an object with the members
/// `expiration`, `name`, `display_name`, `model`, `system_instruction`,
/// `contents`, `tools`, `tool_config`, `create_time`, `update_time` and
/// `usage_metadata`, with `null` for what is not set.
pub open spec fn cached_content_json(cached: CachedContent) -> JsonView {
    JsonView::Object(
        Map::<Seq<char>, JsonView>::empty().insert(
            "expiration"@,
            JsonView::Object(
                Map::<Seq<char>, JsonView>::empty().insert(
                    "expire_time"@,
                    JsonView::Text(cached.expiration.expire_time@),
                ).insert("ttl"@, JsonView::Text(cached.expiration.ttl@)),
            ),
        ).insert("name"@, optional_text_json(cached.name)).insert(
            "display_name"@,
            optional_text_json(cached.display_name),
        ).insert("model"@, JsonView::Text(cached.model@)).insert(
            "system_instruction"@,
            content_to_json(cached.system_instruction@),
        ).insert("contents"@, contents_json(cached.contents@)).insert(
            "tools"@,
            match cached.tools {
                Some(tools) => tools_json(tools@),
                None => JsonView::Null,
            },
        ).insert(
            "tool_config"@,
            match cached.tool_config {
                Some(config) => tool_config_json(config),
                None => JsonView::Null,
            },
        ).insert("create_time"@, JsonView::Text(cached.create_time@)).insert(
            "update_time"@,
            JsonView::Text(cached.update_time@),
        ).insert(
            "usage_metadata"@,
            JsonView::Object(
                Map::<Seq<char>, JsonView>::empty().insert(
                    "total_token_count"@,
                    integer_json(cached.usage_metadata.total_token_count as u64),
                ),
            ),
        ),
    )
}

impl CachedContent {
    /// The JSON form of this cached content.
    pub fn encode(&self) -> (json: Json)
        ensures
            json@ == cached_content_json(*self),
    {
        let mut expiration = no_members();
        add_member(&mut expiration, "expire_time", Json::Text(self.expiration.expire_time.clone()));
        add_member(&mut expiration, "ttl", Json::Text(self.expiration.ttl.clone()));
        let tools = match &self.tools {
            Some(tools) => encode_tools(tools),
            None => Json::Null,
        };
        let tool_config = match &self.tool_config {
            Some(config) => config.encode(),
            None => Json::Null,
        };
        let mut usage = no_members();
        add_member(
            &mut usage,
            "total_token_count",
            encode_integer(self.usage_metadata.total_token_count as u64),
        );
        let mut members = no_members();
        add_member(&mut members, "expiration", Json::Object(expiration));
        add_member(&mut members, "name", encode_optional_text(&self.name));
        add_member(&mut members, "display_name", encode_optional_text(&self.display_name));
        add_member(&mut members, "model", Json::Text(self.model.clone()));
        add_member(&mut members, "system_instruction", self.system_instruction.encode());
        add_member(&mut members, "contents", encode_contents(&self.contents));
        add_member(&mut members, "tools", tools);
        add_member(&mut members, "tool_config", tool_config);
        add_member(&mut members, "create_time", Json::Text(self.create_time.clone()));
        add_member(&mut members, "update_time", Json::Text(self.update_time.clone()));
        add_member(&mut members, "usage_metadata", Json::Object(usage));
        Json::Object(members)
    }
}

} // verus!
