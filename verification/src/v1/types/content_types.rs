//! Content, its parts, and the codec between parts and their JSON form.

use crate::v1::errors::{DecodeError, DecodeErrorView};
use crate::v1::json::{
    add_member, array_field, duplicate_members, encode_optional_bool, encode_optional_text,
    encode_optional_texts, find_member, items_view, member_array, member_object, member_text,
    members_map, no_members, object_field, object_view, one_member, optional_bool_json,
    optional_text_json, optional_texts_json, text_field, two_members, Json, JsonView,
};
use crate::v1::lists::{all_from_json, lemma_all_rejected, lemma_one_more};
use vstd::prelude::*;

verus! {

/// Content part interface if the part represents a text string.
#[derive(Debug, Clone, PartialEq, Eq)]
pub struct TextPart {
    pub text: String,
}

/// Content part interface if the part represents an image.
#[derive(Debug, Clone, PartialEq, Eq)]
pub struct InlineDataPart {
    pub inline_data: GenerativeContentBlob,
}

/// Interface for sending an image.
#[derive(Debug, Clone, PartialEq, Eq)]
pub struct GenerativeContentBlob {
    pub mime_type: String,
    /// Image as a base64 string.
    pub data: String,
}

/// Content part interface if the part represents a function call.
#[derive(Debug, Clone, PartialEq, Eq)]
pub struct FunctionCallPart {
    pub function_call: FunctionCall,
}

/// A predicted function call returned from the model: the name of the
/// declared function, and a JSON object with the parameters and their values.
#[derive(Debug, Clone, PartialEq, Eq)]
pub struct FunctionCall {
    pub name: String,
    /// The members of the argument object. Where a key occurs twice, the
    /// later member counts.
    pub args: Vec<(String, Json)>,
}

/// Content part interface if the part represents a function response.
#[derive(Debug, Clone, PartialEq, Eq)]
pub struct FunctionResponsePart {
    pub function_response: FunctionResponse,
}

/// The result of a function call: the name of the declared function, and a
/// JSON object with the function's output, used as context to the model.
#[derive(Debug, Clone, PartialEq, Eq)]
pub struct FunctionResponse {
    pub name: String,
    /// The members of the response object. Where a key occurs twice, the
    /// later member counts.
    pub response: Vec<(String, Json)>,
}

/// Content part interface if the part represents a file reference.
#[derive(Debug, Clone, PartialEq, Eq)]
pub struct FileDataPart {
    pub file_data: FileData,
}

/// Data pointing to a file uploaded with the Files API.
#[derive(Debug, Clone, PartialEq, Eq)]
pub struct FileData {
    pub mime_type: String,
    pub file_uri: String,
}

/// Content part: one fragment of a conversational turn.
#[derive(Debug, Clone, PartialEq, Eq)]
pub enum Part {
    TextPart(TextPart),
    InlineDataPart(InlineDataPart),
    FunctionCallPart(FunctionCallPart),
    FunctionResponsePart(FunctionResponsePart),
    FileDataPart(FileDataPart),
}

/// Content type for both prompts and response candidates.
#[derive(Debug, Clone, PartialEq, Eq)]
pub struct ContentType {
    pub role: String,
    pub parts: Vec<Part>,
}

/// The name under which requests and responses speak of [`ContentType`].
pub type Content = ContentType;


/// The mathematical value of a [`Part`]: a closed union, each variant with
/// its own fields.
pub enum PartView {
    Text { text: Seq<char> },
    InlineData { mime_type: Seq<char>, data: Seq<char> },
    FunctionCall { name: Seq<char>, args: Map<Seq<char>, JsonView> },
    FunctionResponse { name: Seq<char>, response: Map<Seq<char>, JsonView> },
    FileData { mime_type: Seq<char>, file_uri: Seq<char> },
}

impl View for Part {
    type V = PartView;

    open spec fn view(&self) -> PartView {
        match self {
            Part::TextPart(p) => PartView::Text { text: p.text@ },
            Part::InlineDataPart(p) => PartView::InlineData {
                mime_type: p.inline_data.mime_type@,
                data: p.inline_data.data@,
            },
            Part::FunctionCallPart(p) => PartView::FunctionCall {
                name: p.function_call.name@,
                args: object_view(p.function_call.args@),
            },
            Part::FunctionResponsePart(p) => PartView::FunctionResponse {
                name: p.function_response.name@,
                response: object_view(p.function_response.response@),
            },
            Part::FileDataPart(p) => PartView::FileData {
                mime_type: p.file_data.mime_type@,
                file_uri: p.file_data.file_uri@,
            },
        }
    }
}

/// The five kinds of part. On the wire a part carries no tag: the kind is
/// told by which key the object holds.
#[derive(Debug, Clone, Copy, PartialEq, Eq)]
pub enum PartKind {
    Text,
    InlineData,
    FunctionCall,
    FunctionResponse,
    FileData,
}

impl PartKind {
    /// The key whose presence identifies this kind.
    pub open spec fn key(self) -> Seq<char> {
        match self {
            PartKind::Text => "text"@,
            PartKind::InlineData => "inlineData"@,
            PartKind::FunctionCall => "functionCall"@,
            PartKind::FunctionResponse => "functionResponse"@,
            PartKind::FileData => "fileData"@,
        }
    }

    /// The place of this kind in the order in which the keys are probed: the
    /// lower rank is probed first.
    pub open spec fn rank(self) -> int {
        match self {
            PartKind::Text => 0,
            PartKind::InlineData => 1,
            PartKind::FunctionCall => 2,
            PartKind::FunctionResponse => 3,
            PartKind::FileData => 4,
        }
    }
}

/// The kind of a part.
pub open spec fn kind_of(part: PartView) -> PartKind {
    match part {
        PartView::Text { .. } => PartKind::Text,
        PartView::InlineData { .. } => PartKind::InlineData,
        PartView::FunctionCall { .. } => PartKind::FunctionCall,
        PartView::FunctionResponse { .. } => PartKind::FunctionResponse,
        PartView::FileData { .. } => PartKind::FileData,
    }
}

/// What stands under the identifying key of a part.
pub open spec fn payload_of(part: PartView) -> JsonView {
    match part {
        PartView::Text { text } => JsonView::Text(text),
        PartView::InlineData { mime_type, data } => JsonView::Object(
            map!["mimeType"@ => JsonView::Text(mime_type), "data"@ => JsonView::Text(data)],
        ),
        PartView::FunctionCall { name, args } => JsonView::Object(
            map!["name"@ => JsonView::Text(name), "args"@ => JsonView::Object(args)],
        ),
        PartView::FunctionResponse { name, response } => JsonView::Object(
            map!["name"@ => JsonView::Text(name), "response"@ => JsonView::Object(response)],
        ),
        PartView::FileData { mime_type, file_uri } => JsonView::Object(
            map!["mimeType"@ => JsonView::Text(mime_type), "fileUri"@ => JsonView::Text(file_uri)],
        ),
    }
}

/// The JSON form of a part: an object with exactly one member, whose key
/// identifies the kind.
pub open spec fn part_to_json(part: PartView) -> JsonView {
    JsonView::Object(map![kind_of(part).key() => payload_of(part)])
}

/// The first kind, in probing order, whose key an object holds.
pub open spec fn first_kind(object: Map<Seq<char>, JsonView>) -> Option<PartKind> {
    if object.dom().contains(PartKind::Text.key()) {
        Some(PartKind::Text)
    } else if object.dom().contains(PartKind::InlineData.key()) {
        Some(PartKind::InlineData)
    } else if object.dom().contains(PartKind::FunctionCall.key()) {
        Some(PartKind::FunctionCall)
    } else if object.dom().contains(PartKind::FunctionResponse.key()) {
        Some(PartKind::FunctionResponse)
    } else if object.dom().contains(PartKind::FileData.key()) {
        Some(PartKind::FileData)
    } else {
        None
    }
}

/// The part of a given kind that a payload denotes. A payload that does not
/// have the shape of the kind is rejected under the kind's key.
pub open spec fn payload_to_part(kind: PartKind, payload: JsonView) -> Result<
    PartView,
    DecodeErrorView,
> {
    let malformed = Err(DecodeErrorView::MalformedField(kind.key()));
    match kind {
        PartKind::Text => match payload {
            JsonView::Text(text) => Ok(PartView::Text { text }),
            _ => malformed,
        },
        PartKind::InlineData => match payload {
            JsonView::Object(inner) => match (
                text_field(inner, "mimeType"@),
                text_field(inner, "data"@),
            ) {
                (Some(mime_type), Some(data)) => Ok(PartView::InlineData { mime_type, data }),
                _ => malformed,
            },
            _ => malformed,
        },
        PartKind::FunctionCall => match payload {
            JsonView::Object(inner) => match (
                text_field(inner, "name"@),
                object_field(inner, "args"@),
            ) {
                (Some(name), Some(args)) => Ok(PartView::FunctionCall { name, args }),
                _ => malformed,
            },
            _ => malformed,
        },
        PartKind::FunctionResponse => match payload {
            JsonView::Object(inner) => match (
                text_field(inner, "name"@),
                object_field(inner, "response"@),
            ) {
                (Some(name), Some(response)) => Ok(
                    PartView::FunctionResponse { name, response },
                ),
                _ => malformed,
            },
            _ => malformed,
        },
        PartKind::FileData => match payload {
            JsonView::Object(inner) => match (
                text_field(inner, "mimeType"@),
                text_field(inner, "fileUri"@),
            ) {
                (Some(mime_type), Some(file_uri)) => Ok(
                    PartView::FileData { mime_type, file_uri },
                ),
                _ => malformed,
            },
            _ => malformed,
        },
    }
}

/// The part that a JSON value denotes.
///
/// The value must be an object. Its keys are probed in the fixed order
/// `text`, `inlineData`, `functionCall`, `functionResponse`, `fileData`; the
/// first one present decides the kind, and only its payload is read.
pub open spec fn part_from_json(json: JsonView) -> Result<PartView, DecodeErrorView> {
    match json {
        JsonView::Object(object) => match first_kind(object) {
            Some(kind) => payload_to_part(kind, object[kind.key()]),
            None => Err(DecodeErrorView::UnknownPartShape),
        },
        _ => Err(DecodeErrorView::NotAnObject),
    }
}

/// The mathematical value of the outcome of decoding a part.
pub open spec fn part_outcome(outcome: Result<Part, DecodeError>) -> Result<
    PartView,
    DecodeErrorView,
> {
    match outcome {
        Ok(part) => Ok(part@),
        Err(error) => Err(error@),
    }
}

/// What the key literals hold, and that the keys which can meet in one
/// object differ.
pub proof fn lemma_keys()
    ensures
        PartKind::Text.key().len() == 4,
        PartKind::InlineData.key().len() == 10,
        PartKind::FunctionCall.key().len() == 12,
        PartKind::FunctionResponse.key().len() == 16,
        PartKind::FileData.key().len() == 8,
        "mimeType"@ != "data"@,
        "mimeType"@ != "fileUri"@,
        "name"@ != "args"@,
        "name"@ != "response"@,
{
    reveal_strlit("text");
    reveal_strlit("inlineData");
    reveal_strlit("functionCall");
    reveal_strlit("functionResponse");
    reveal_strlit("fileData");
    reveal_strlit("mimeType");
    reveal_strlit("data");
    reveal_strlit("fileUri");
    reveal_strlit("name");
    reveal_strlit("args");
    reveal_strlit("response");
    assert("mimeType"@.len() == 8);
    assert("data"@.len() == 4);
    assert("fileUri"@.len() == 7);
    assert("name"@.len() == 4);
    assert("response"@.len() == 8);
    assert("name"@[0] == 'n');
    assert("args"@[0] == 'a');
}

/// Two kinds with the same key are the same kind.
pub proof fn lemma_kind_keys_differ(a: PartKind, b: PartKind)
    ensures
        a.key() == b.key() <==> a == b,
{
    lemma_keys();
}

/// Decoding undoes encoding: every part, of every kind, comes back from its
/// JSON form as it was.
pub proof fn lemma_part_round_trip(part: PartView)
    ensures
        part_from_json(part_to_json(part)) matches Ok(back) && back == part,
{
    lemma_keys();
    let kind = kind_of(part);
    let object = map![kind.key() => payload_of(part)];
    assert(object.dom().contains(kind.key()));
    assert(forall|other: PartKind| other != kind ==> !object.dom().contains(other.key())) by {
        assert forall|other: PartKind| other != kind implies !object.dom().contains(
            other.key(),
        ) by {
            lemma_kind_keys_differ(other, kind);
        }
    }
    assert(first_kind(object) == Some(kind));
    assert(object[kind.key()] == payload_of(part));
    match part {
        PartView::Text { text } => {},
        PartView::InlineData { mime_type, data } => {},
        PartView::FunctionCall { name, args } => {},
        PartView::FunctionResponse { name, response } => {},
        PartView::FileData { mime_type, file_uri } => {},
    }
}


impl Part {
    /// The JSON form of this part: an object whose one key tells the kind and
    /// holds the part's fields.
    pub fn encode(&self) -> (json: Json)
        ensures
            json@ == part_to_json(self@),
    {
        match self {
            Part::TextPart(p) => Json::Object(one_member("text", Json::Text(p.text.clone()))),
            Part::InlineDataPart(p) => {
                let inner = two_members(
                    "mimeType",
                    Json::Text(p.inline_data.mime_type.clone()),
                    "data",
                    Json::Text(p.inline_data.data.clone()),
                );
                Json::Object(one_member("inlineData", Json::Object(inner)))
            },
            Part::FunctionCallPart(p) => {
                let args = duplicate_members(&p.function_call.args);
                let inner = two_members(
                    "name",
                    Json::Text(p.function_call.name.clone()),
                    "args",
                    Json::Object(args),
                );
                Json::Object(one_member("functionCall", Json::Object(inner)))
            },
            Part::FunctionResponsePart(p) => {
                let response = duplicate_members(&p.function_response.response);
                let inner = two_members(
                    "name",
                    Json::Text(p.function_response.name.clone()),
                    "response",
                    Json::Object(response),
                );
                Json::Object(one_member("functionResponse", Json::Object(inner)))
            },
            Part::FileDataPart(p) => {
                let inner = two_members(
                    "mimeType",
                    Json::Text(p.file_data.mime_type.clone()),
                    "fileUri",
                    Json::Text(p.file_data.file_uri.clone()),
                );
                Json::Object(one_member("fileData", Json::Object(inner)))
            },
        }
    }

    /// The part that a JSON value denotes.
    ///
    /// Fails with `NotAnObject` where the value is no object, with
    /// `UnknownPartShape` where the object holds none of the five identifying
    /// keys, and with `MalformedField` of the first identifying key present
    /// (in the order `text`, `inlineData`, `functionCall`, `functionResponse`,
    /// `fileData`) where what stands under that key does not have its shape.
    /// Nothing is defaulted and no other key is looked at.
    pub fn decode(json: &Json) -> (outcome: Result<Part, DecodeError>)
        ensures
            part_outcome(outcome) == part_from_json(json@),
    {
        let members = match json.as_object() {
            Some(members) => members,
            None => {
                return Err(DecodeError::NotAnObject);
            },
        };
        if let Some(payload) = find_member(members, "text") {
            return decode_text(payload);
        }
        if let Some(payload) = find_member(members, "inlineData") {
            return decode_inline_data(payload);
        }
        if let Some(payload) = find_member(members, "functionCall") {
            return decode_function_call(payload);
        }
        if let Some(payload) = find_member(members, "functionResponse") {
            return decode_function_response(payload);
        }
        if let Some(payload) = find_member(members, "fileData") {
            return decode_file_data(payload);
        }
        Err(DecodeError::UnknownPartShape)
    }
}

/// The text part that stands under the key `text`.
pub fn decode_text(payload: &Json) -> (outcome: Result<Part, DecodeError>)
    ensures
        part_outcome(outcome) == payload_to_part(PartKind::Text, payload@),
{
    match payload.as_text() {
        Some(text) => Ok(Part::TextPart(TextPart { text: text.clone() })),
        None => Err(DecodeError::malformed("text")),
    }
}

/// The inline data part that stands under the key `inlineData`.
pub fn decode_inline_data(payload: &Json) -> (outcome: Result<Part, DecodeError>)
    ensures
        part_outcome(outcome) == payload_to_part(PartKind::InlineData, payload@),
{
    let inner = match payload.as_object() {
        Some(inner) => inner,
        None => {
            return Err(DecodeError::malformed("inlineData"));
        },
    };
    match (member_text(inner, "mimeType"), member_text(inner, "data")) {
        (Some(mime_type), Some(data)) => Ok(
            Part::InlineDataPart(
                InlineDataPart { inline_data: GenerativeContentBlob { mime_type, data } },
            ),
        ),
        _ => Err(DecodeError::malformed("inlineData")),
    }
}

/// The function call part that stands under the key `functionCall`.
pub fn decode_function_call(payload: &Json) -> (outcome: Result<Part, DecodeError>)
    ensures
        part_outcome(outcome) == payload_to_part(PartKind::FunctionCall, payload@),
{
    let inner = match payload.as_object() {
        Some(inner) => inner,
        None => {
            return Err(DecodeError::malformed("functionCall"));
        },
    };
    match (member_text(inner, "name"), member_object(inner, "args")) {
        (Some(name), Some(args)) => Ok(
            Part::FunctionCallPart(
                FunctionCallPart {
                    function_call: FunctionCall { name, args: duplicate_members(args) },
                },
            ),
        ),
        _ => Err(DecodeError::malformed("functionCall")),
    }
}

/// The function response part that stands under the key `functionResponse`.
pub fn decode_function_response(payload: &Json) -> (outcome: Result<Part, DecodeError>)
    ensures
        part_outcome(outcome) == payload_to_part(PartKind::FunctionResponse, payload@),
{
    let inner = match payload.as_object() {
        Some(inner) => inner,
        None => {
            return Err(DecodeError::malformed("functionResponse"));
        },
    };
    match (member_text(inner, "name"), member_object(inner, "response")) {
        (Some(name), Some(response)) => Ok(
            Part::FunctionResponsePart(
                FunctionResponsePart {
                    function_response: FunctionResponse {
                        name,
                        response: duplicate_members(response),
                    },
                },
            ),
        ),
        _ => Err(DecodeError::malformed("functionResponse")),
    }
}

/// The file data part that stands under the key `fileData`.
pub fn decode_file_data(payload: &Json) -> (outcome: Result<Part, DecodeError>)
    ensures
        part_outcome(outcome) == payload_to_part(PartKind::FileData, payload@),
{
    let inner = match payload.as_object() {
        Some(inner) => inner,
        None => {
            return Err(DecodeError::malformed("fileData"));
        },
    };
    match (member_text(inner, "mimeType"), member_text(inner, "fileUri")) {
        (Some(mime_type), Some(file_uri)) => Ok(
            Part::FileDataPart(FileDataPart { file_data: FileData { mime_type, file_uri } }),
        ),
        _ => Err(DecodeError::malformed("fileData")),
    }
}


/// An object that holds none of the five identifying keys is rejected as of
/// unknown shape, whatever else it holds.
pub proof fn lemma_unknown_shape(object: Map<Seq<char>, JsonView>)
    requires
        forall|kind: PartKind| !object.dom().contains(kind.key()),
    ensures
        part_from_json(JsonView::Object(object)) == Err::<PartView, DecodeErrorView>(
            DecodeErrorView::UnknownPartShape,
        ),
{
    assert(!object.dom().contains(PartKind::Text.key()));
    assert(!object.dom().contains(PartKind::InlineData.key()));
    assert(!object.dom().contains(PartKind::FunctionCall.key()));
    assert(!object.dom().contains(PartKind::FunctionResponse.key()));
    assert(!object.dom().contains(PartKind::FileData.key()));
}

/// The kind that decides is the one of lowest rank among the kinds whose key
/// the object holds.
pub proof fn lemma_first_kind(object: Map<Seq<char>, JsonView>, kind: PartKind)
    ensures
        first_kind(object) == Some(kind) <==> (object.dom().contains(kind.key()) && forall|
            other: PartKind,
        |
            object.dom().contains(other.key()) ==> kind.rank() <= other.rank()),
{
    lemma_keys();
    if first_kind(object) == Some(kind) {
        assert forall|other: PartKind| object.dom().contains(other.key()) implies kind.rank()
            <= other.rank() by {
            match other {
                PartKind::Text => {},
                PartKind::InlineData => {},
                PartKind::FunctionCall => {},
                PartKind::FunctionResponse => {},
                PartKind::FileData => {},
            }
        }
    }
    if object.dom().contains(kind.key()) && forall|other: PartKind|
        object.dom().contains(other.key()) ==> kind.rank() <= other.rank() {
        let lowest = first_kind(object);
        assert(lowest is Some);
        assert(object.dom().contains(lowest->0.key()));
        assert(kind.rank() <= lowest->0.rank());
    }
}

/// An object that holds the keys of two kinds is decoded by the one of lower
/// rank, or by a third of lower rank still: the key of the higher rank and
/// what stands under it have no say.
pub proof fn lemma_priority(object: Map<Seq<char>, JsonView>, early: PartKind, late: PartKind)
    requires
        object.dom().contains(early.key()),
        object.dom().contains(late.key()),
        early.rank() < late.rank(),
    ensures
        first_kind(object) matches Some(kind) && kind.rank() <= early.rank(),
        part_from_json(JsonView::Object(object)) == part_from_json(
            JsonView::Object(object.remove(late.key())),
        ),
{
    lemma_keys();
    let kind = first_kind(object)->0;
    lemma_first_kind(object, kind);
    let rest = object.remove(late.key());
    lemma_kind_keys_differ(kind, late);
    assert(forall|other: PartKind|
        other != late ==> (rest.dom().contains(other.key()) <==> object.dom().contains(
            other.key(),
        ))) by {
        assert forall|other: PartKind| other != late implies (rest.dom().contains(other.key())
            <==> object.dom().contains(other.key())) by {
            lemma_kind_keys_differ(other, late);
        }
    }
    assert(first_kind(rest) == Some(kind));
    assert(rest[kind.key()] == object[kind.key()]);
}


/// The mathematical value of a [`ContentType`]: a role and its parts in
/// order.
pub struct ContentView {
    pub role: Seq<char>,
    pub parts: Seq<PartView>,
}

/// The mathematical values of a list of parts, in order.
pub open spec fn parts_view(parts: Seq<Part>) -> Seq<PartView> {
    Seq::new(parts.len(), |i: int| parts[i]@)
}

impl View for ContentType {
    type V = ContentView;

    open spec fn view(&self) -> ContentView {
        ContentView { role: self.role@, parts: parts_view(self.parts@) }
    }
}

/// The JSON forms of a list of parts, in order.
pub open spec fn parts_to_json(parts: Seq<PartView>) -> Seq<JsonView> {
    Seq::new(parts.len(), |i: int| part_to_json(parts[i]))
}

/// The JSON form of a content: an object with the role and the array of the
/// parts' JSON forms.
pub open spec fn content_to_json(content: ContentView) -> JsonView {
    JsonView::Object(
        map![
            "role"@ => JsonView::Text(content.role),
            "parts"@ => JsonView::Array(parts_to_json(content.parts)),
        ],
    )
}

/// Decoding one part, as a function.
pub open spec fn part_decoder() -> spec_fn(JsonView) -> Result<PartView, DecodeErrorView> {
    |json: JsonView| part_from_json(json)
}

/// The parts that a list of JSON values denotes, in the same order. Where
/// some item is rejected, the whole list is, with the error of the first
/// such item.
pub open spec fn parts_from_json(items: Seq<JsonView>) -> Result<Seq<PartView>, DecodeErrorView> {
    all_from_json(items, part_decoder())
}

/// The content that a JSON value denotes: an object with a string under
/// `role` and an array of parts under `parts`.
pub open spec fn content_from_json(json: JsonView) -> Result<ContentView, DecodeErrorView> {
    match json {
        JsonView::Object(object) => match text_field(object, "role"@) {
            Some(role) => match array_field(object, "parts"@) {
                Some(items) => match parts_from_json(items) {
                    Ok(parts) => Ok(ContentView { role, parts }),
                    Err(error) => Err(error),
                },
                None => Err(DecodeErrorView::MalformedField("parts"@)),
            },
            None => Err(DecodeErrorView::MalformedField("role"@)),
        },
        _ => Err(DecodeErrorView::NotAnObject),
    }
}

/// The mathematical value of the outcome of decoding a content.
pub open spec fn content_outcome(outcome: Result<ContentType, DecodeError>) -> Result<
    ContentView,
    DecodeErrorView,
> {
    match outcome {
        Ok(content) => Ok(content@),
        Err(error) => Err(error@),
    }
}

/// The parts of a list come back from their JSON forms as they were, and in
/// the order in which they stood.
pub proof fn lemma_parts_round_trip(parts: Seq<PartView>)
    ensures
        parts_from_json(parts_to_json(parts)) matches Ok(back) && back == parts,
    decreases parts.len(),
{
    if parts.len() > 0 {
        lemma_parts_round_trip(parts.drop_last());
        lemma_part_round_trip(parts.last());
        assert(parts_to_json(parts).drop_last() =~= parts_to_json(parts.drop_last()));
        assert(parts.drop_last().push(parts.last()) =~= parts);
    } else {
        assert(parts =~= Seq::empty());
        assert(parts_to_json(parts) =~= Seq::empty());
    }
}

/// A content comes back from its JSON form as it was: the role, and the
/// parts in their order.
pub proof fn lemma_content_round_trip(content: ContentView)
    ensures
        content_from_json(content_to_json(content)) matches Ok(back) && back == content,
{
    reveal_strlit("role");
    reveal_strlit("parts");
    assert("role"@.len() == 4);
    assert("parts"@.len() == 5);
    lemma_parts_round_trip(content.parts);
}

impl ContentType {
    /// The JSON form of this content.
    pub fn encode(&self) -> (json: Json)
        ensures
            json@ == content_to_json(self@),
    {
        let mut items: Vec<Json> = Vec::new();
        let mut i: usize = 0;
        while i < self.parts.len()
            invariant
                i <= self.parts.len(),
                items@.len() == i,
                forall|k: int| 0 <= k < i ==> items@[k]@ == part_to_json(self.parts@[k]@),
            decreases self.parts.len() - i,
        {
            items.push(self.parts[i].encode());
            i += 1;
        }
        assert(items_view(items@) =~= parts_to_json(self@.parts));
        Json::Object(
            two_members("role", Json::Text(self.role.clone()), "parts", Json::Array(items)),
        )
    }

    /// The content that a JSON value denotes.
    ///
    /// Fails with `NotAnObject` where the value is no object, with
    /// `MalformedField` of `role` or of `parts` where that key is missing or
    /// holds another kind of value, and with the error of the first part that
    /// is rejected.
    pub fn decode(json: &Json) -> (outcome: Result<ContentType, DecodeError>)
        ensures
            content_outcome(outcome) == content_from_json(json@),
    {
        let members = match json.as_object() {
            Some(members) => members,
            None => {
                return Err(DecodeError::NotAnObject);
            },
        };
        let role = match member_text(members, "role") {
            Some(role) => role,
            None => {
                return Err(DecodeError::malformed("role"));
            },
        };
        let items = match member_array(members, "parts") {
            Some(items) => items,
            None => {
                return Err(DecodeError::malformed("parts"));
            },
        };
        let parts = decode_parts(items)?;
        Ok(ContentType { role, parts })
    }
}

/// The parts that a list of JSON values denotes, in the same order, or the
/// error of the first item that is rejected.
pub fn decode_parts(items: &Vec<Json>) -> (outcome: Result<Vec<Part>, DecodeError>)
    ensures
        match outcome {
            Ok(parts) => parts_from_json(items_view(items@)) == Ok::<
                Seq<PartView>,
                DecodeErrorView,
            >(parts_view(parts@)),
            Err(error) => parts_from_json(items_view(items@)) == Err::<
                Seq<PartView>,
                DecodeErrorView,
            >(error@),
        },
{
    let ghost all = items_view(items@);
    let mut parts: Vec<Part> = Vec::new();
    let mut i: usize = 0;
    proof {
        assert(all.take(0) =~= Seq::empty());
        assert(parts_view(parts@) =~= Seq::empty());
    }
    while i < items.len()
        invariant
            i <= items.len(),
            all == items_view(items@),
            parts_from_json(all.take(i as int)) == Ok::<Seq<PartView>, DecodeErrorView>(
                parts_view(parts@),
            ),
        decreases items.len() - i,
    {
        proof {
            lemma_one_more(all, part_decoder(), i as int);
        }
        match Part::decode(&items[i]) {
            Ok(part) => {
                proof {
                    assert(parts_view(parts@).push(part@) =~= parts_view(parts@.push(part)));
                }
                parts.push(part);
            },
            Err(error) => {
                proof {
                    lemma_all_rejected(all, part_decoder(), i + 1);
                }
                return Err(error);
            },
        }
        i += 1;
    }
    assert(all.take(i as int) =~= all);
    Ok(parts)
}


/// Defines a tool that model can call to access external knowledge.
#[derive(Debug)]
pub struct Tool {
    /// One or more function declarations to be passed to the model along with
    /// the current user query. Model may decide to call a subset of these
    /// functions by populating a [`FunctionCall`] in the response. User should
    /// provide a [`FunctionResponse`] for each function call in the next turn.
    /// Maximum 64 function declarations can be provided.
    pub function_declarations: Option<Vec<FunctionDeclaration>>,
}

/// Structured representation of a function declaration as defined by the
/// OpenAPI 3.0 specification: the function name and parameters.
#[derive(Debug)]
pub struct FunctionDeclaration {
    /// The name of the function to call. Must start with a letter or an
    /// underscore. Must be a-z, A-Z, 0-9, or contain underscores and dashes,
    /// with a max length of 64.
    pub name: String,
    /// Description and purpose of the function. Model uses it to decide how
    /// and whether to call the function.
    pub description: Option<String>,
    /// Describes the parameters to this function in JSON Schema Object
    /// format. For function with no parameters, this can be left unset.
    pub parameters: Option<FunctionParameters>,
}

/// Schema for parameters passed to [`FunctionDeclaration::parameters`].
#[derive(Debug)]
pub struct FunctionParameters {
    /// The type of the parameter.
    pub data_type: FunctionParameterType,
    /// The format of the parameter, by name. Where a name occurs twice, the
    /// later entry counts.
    pub properties: Vec<(String, FunctionParametersProperty)>,
    /// Description of the parameter.
    pub description: Option<String>,
    /// Array of required parameters.
    pub required: Option<Vec<String>>,
}

/// Contains the list of OpenAPI data types.
#[derive(Debug, Clone, Copy, PartialEq, Eq)]
pub enum FunctionParameterType {
    String,
    Number,
    Integer,
    Boolean,
    Array,
    Object,
}

/// Schema is used to define the format of input/output data. Represents a
/// select subset of an OpenAPI 3.0 schema object.
#[derive(Debug)]
pub struct FunctionParametersProperty {
    /// The type of the property.
    pub data_type: Option<String>,
    /// The format of the property.
    pub format: Option<String>,
    /// The description of the property.
    pub description: Option<String>,
    /// Whether the property is nullable.
    pub nullable: Option<bool>,
    /// The items of the property.
    pub items: Option<FunctionParameters>,
    /// The enum of the property.
    pub enum_values: Option<Vec<String>>,
    /// The properties below this one, by name. Where a name occurs twice,
    /// the later entry counts.
    pub properties: Vec<(String, FunctionParameters)>,
    /// Array of required property.
    pub required: Option<Vec<String>>,
}

/// Tool config. This config is shared for all tools provided in the request.
#[derive(Debug)]
pub struct ToolConfig {
    pub function_calling_config: FunctionCallingConfig,
}

#[derive(Debug)]
pub struct FunctionCallingConfig {
    pub mode: Option<FunctionCallingMode>,
    pub allowed_function_names: Option<Vec<String>>,
}

#[derive(Debug, Clone, Copy, PartialEq, Eq)]
pub enum FunctionCallingMode {
    /// Unspecified function calling mode. This value should not be used.
    ModeUnspecified,
    /// Default model behavior, model decides to predict either a function
    /// call or a natural language response.
    Auto,
    /// Model is constrained to always predicting a function call only.
    Any,
    /// Model will not predict any function call. Model behavior is same as
    /// when not passing any function declarations.
    NoCalls,
}


impl FunctionParameterType {
    /// The name of this type on the wire.
    pub open spec fn wire_name(self) -> Seq<char> {
        match self {
            FunctionParameterType::String => "STRING"@,
            FunctionParameterType::Number => "NUMBER"@,
            FunctionParameterType::Integer => "INTEGER"@,
            FunctionParameterType::Boolean => "BOOLEAN"@,
            FunctionParameterType::Array => "ARRAY"@,
            FunctionParameterType::Object => "OBJECT"@,
        }
    }

    /// The name of this type on the wire.
    pub fn to_str(&self) -> (name: &'static str)
        ensures
            name@ == self.wire_name(),
    {
        match self {
            FunctionParameterType::String => "STRING",
            FunctionParameterType::Number => "NUMBER",
            FunctionParameterType::Integer => "INTEGER",
            FunctionParameterType::Boolean => "BOOLEAN",
            FunctionParameterType::Array => "ARRAY",
            FunctionParameterType::Object => "OBJECT",
        }
    }
}

impl FunctionCallingMode {
    /// The name of this mode on the wire.
    pub open spec fn wire_name(self) -> Seq<char> {
        match self {
            FunctionCallingMode::ModeUnspecified => "MODE_UNSPECIFIED"@,
            FunctionCallingMode::Auto => "AUTO"@,
            FunctionCallingMode::Any => "ANY"@,
            FunctionCallingMode::NoCalls => "NONE"@,
        }
    }

    /// The name of this mode on the wire.
    pub fn to_str(&self) -> (name: &'static str)
        ensures
            name@ == self.wire_name(),
    {
        match self {
            FunctionCallingMode::ModeUnspecified => "MODE_UNSPECIFIED",
            FunctionCallingMode::Auto => "AUTO",
            FunctionCallingMode::Any => "ANY",
            FunctionCallingMode::NoCalls => "NONE",
        }
    }
}

/// The JSON form of the parameters of a function: an object with the members
/// `type`, `properties`, `description` and `required`.
pub open spec fn parameters_json(parameters: FunctionParameters) -> JsonView
    decreases parameters, 0int,
{
    JsonView::Object(
        Map::<Seq<char>, JsonView>::empty().insert(
            "type"@,
            JsonView::Text(parameters.data_type.wire_name()),
        ).insert(
            "properties"@,
            JsonView::Object(members_map(properties_json(parameters.properties@))),
        ).insert("description"@, optional_text_json(parameters.description)).insert(
            "required"@,
            optional_texts_json(parameters.required),
        ),
    )
}

/// The names and JSON forms of a list of named properties, in order.
pub open spec fn properties_json(properties: Seq<(String, FunctionParametersProperty)>) -> Seq<
    (Seq<char>, JsonView),
>
    decreases properties, 0int,
{
    Seq::new(
        properties.len(),
        |i: int|
            if 0 <= i < properties.len() {
                (properties[i].0@, property_json(properties[i].1))
            } else {
                (Seq::empty(), JsonView::Null)
            },
    )
}

/// The JSON form of a property: an object with the members `type`, `format`,
/// `description`, `nullable`, `items`, `enum`, `properties` and `required`,
/// each `null` where the property does not set it.
pub open spec fn property_json(property: FunctionParametersProperty) -> JsonView
    decreases property, 0int,
{
    JsonView::Object(
        Map::<Seq<char>, JsonView>::empty().insert(
            "type"@,
            optional_text_json(property.data_type),
        ).insert("format"@, optional_text_json(property.format)).insert(
            "description"@,
            optional_text_json(property.description),
        ).insert("nullable"@, optional_bool_json(property.nullable)).insert(
            "items"@,
            match property.items {
                Some(items) => parameters_json(items),
                None => JsonView::Null,
            },
        ).insert("enum"@, optional_texts_json(property.enum_values)).insert(
            "properties"@,
            JsonView::Object(members_map(nested_json(property.properties@))),
        ).insert("required"@, optional_texts_json(property.required)),
    )
}

/// The names and JSON forms of a list of named parameters, in order.
pub open spec fn nested_json(properties: Seq<(String, FunctionParameters)>) -> Seq<
    (Seq<char>, JsonView),
>
    decreases properties, 0int,
{
    Seq::new(
        properties.len(),
        |i: int|
            if 0 <= i < properties.len() {
                (properties[i].0@, parameters_json(properties[i].1))
            } else {
                (Seq::empty(), JsonView::Null)
            },
    )
}

impl FunctionParameters {
    /// The JSON form of these parameters.
    pub fn encode(&self) -> (json: Json)
        ensures
            json@ == parameters_json(*self),
        decreases self,
    {
        let mut properties = no_members();
        let mut i: usize = 0;
        while i < self.properties.len()
            invariant
                i <= self.properties.len(),
                object_view(properties@) == members_map(
                    properties_json(self.properties@).take(i as int),
                ),
            decreases self.properties.len() - i,
        {
            let value = self.properties[i].1.encode();
            add_member(&mut properties, self.properties[i].0.as_str(), value);
            proof {
                let all = properties_json(self.properties@);
                assert(all.take(i + 1).drop_last() =~= all.take(i as int));
            }
            i += 1;
        }
        assert(properties_json(self.properties@).take(i as int) =~= properties_json(
            self.properties@,
        ));
        let mut members = no_members();
        add_member(&mut members, "type", Json::Text(self.data_type.to_str().to_owned()));
        add_member(&mut members, "properties", Json::Object(properties));
        add_member(&mut members, "description", encode_optional_text(&self.description));
        add_member(&mut members, "required", encode_optional_texts(&self.required));
        Json::Object(members)
    }
}

impl FunctionParametersProperty {
    /// The JSON form of this property.
    pub fn encode(&self) -> (json: Json)
        ensures
            json@ == property_json(*self),
        decreases self,
    {
        let items = match &self.items {
            Some(items) => items.encode(),
            None => Json::Null,
        };
        let mut properties = no_members();
        let mut i: usize = 0;
        while i < self.properties.len()
            invariant
                i <= self.properties.len(),
                object_view(properties@) == members_map(
                    nested_json(self.properties@).take(i as int),
                ),
            decreases self.properties.len() - i,
        {
            let value = self.properties[i].1.encode();
            add_member(&mut properties, self.properties[i].0.as_str(), value);
            proof {
                let all = nested_json(self.properties@);
                assert(all.take(i + 1).drop_last() =~= all.take(i as int));
            }
            i += 1;
        }
        assert(nested_json(self.properties@).take(i as int) =~= nested_json(self.properties@));
        let mut members = no_members();
        add_member(&mut members, "type", encode_optional_text(&self.data_type));
        add_member(&mut members, "format", encode_optional_text(&self.format));
        add_member(&mut members, "description", encode_optional_text(&self.description));
        add_member(&mut members, "nullable", encode_optional_bool(&self.nullable));
        add_member(&mut members, "items", items);
        add_member(&mut members, "enum", encode_optional_texts(&self.enum_values));
        add_member(&mut members, "properties", Json::Object(properties));
        add_member(&mut members, "required", encode_optional_texts(&self.required));
        Json::Object(members)
    }
}

/// The JSON form of a function declaration: an object with the members
/// `name`, `description` and `parameters`.
pub open spec fn declaration_json(declaration: FunctionDeclaration) -> JsonView {
    JsonView::Object(
        Map::<Seq<char>, JsonView>::empty().insert(
            "name"@,
            JsonView::Text(declaration.name@),
        ).insert("description"@, optional_text_json(declaration.description)).insert(
            "parameters"@,
            match declaration.parameters {
                Some(parameters) => parameters_json(parameters),
                None => JsonView::Null,
            },
        ),
    )
}

/// The JSON forms of a list of function declarations, in order.
pub open spec fn declarations_json(declarations: Seq<FunctionDeclaration>) -> JsonView {
    JsonView::Array(Seq::new(declarations.len(), |i: int| declaration_json(declarations[i])))
}

/// The JSON form of a tool: an object with the member
/// `function_declarations`.
pub open spec fn tool_json(tool: Tool) -> JsonView {
    JsonView::Object(
        Map::<Seq<char>, JsonView>::empty().insert(
            "function_declarations"@,
            match tool.function_declarations {
                Some(declarations) => declarations_json(declarations@),
                None => JsonView::Null,
            },
        ),
    )
}

/// The JSON forms of a list of tools, in order.
pub open spec fn tools_json(tools: Seq<Tool>) -> JsonView {
    JsonView::Array(Seq::new(tools.len(), |i: int| tool_json(tools[i])))
}

/// The JSON form of a tool configuration: an object with the member
/// `function_calling_config`, which holds `mode` and
/// `allowed_function_names`.
pub open spec fn tool_config_json(config: ToolConfig) -> JsonView {
    JsonView::Object(
        Map::<Seq<char>, JsonView>::empty().insert(
            "function_calling_config"@,
            JsonView::Object(
                Map::<Seq<char>, JsonView>::empty().insert(
                    "mode"@,
                    match config.function_calling_config.mode {
                        Some(mode) => JsonView::Text(mode.wire_name()),
                        None => JsonView::Null,
                    },
                ).insert(
                    "allowed_function_names"@,
                    optional_texts_json(config.function_calling_config.allowed_function_names),
                ),
            ),
        ),
    )
}

impl FunctionDeclaration {
    /// The JSON form of this declaration.
    pub fn encode(&self) -> (json: Json)
        ensures
            json@ == declaration_json(*self),
    {
        let parameters = match &self.parameters {
            Some(parameters) => parameters.encode(),
            None => Json::Null,
        };
        let mut members = no_members();
        add_member(&mut members, "name", Json::Text(self.name.clone()));
        add_member(&mut members, "description", encode_optional_text(&self.description));
        add_member(&mut members, "parameters", parameters);
        Json::Object(members)
    }
}

impl Tool {
    /// The JSON form of this tool.
    pub fn encode(&self) -> (json: Json)
        ensures
            json@ == tool_json(*self),
    {
        let declarations = match &self.function_declarations {
            Some(declarations) => {
                let mut items: Vec<Json> = Vec::new();
                let mut i: usize = 0;
                while i < declarations.len()
                    invariant
                        i <= declarations.len(),
                        items@.len() == i,
                        forall|k: int|
                            0 <= k < i ==> items@[k]@ == declaration_json(declarations@[k]),
                    decreases declarations.len() - i,
                {
                    items.push(declarations[i].encode());
                    i += 1;
                }
                assert(items_view(items@) =~= declarations_json(declarations@)->Array_0);
                Json::Array(items)
            },
            None => Json::Null,
        };
        let mut members = no_members();
        add_member(&mut members, "function_declarations", declarations);
        Json::Object(members)
    }
}

/// The JSON forms of a list of tools, in order.
pub fn encode_tools(tools: &Vec<Tool>) -> (json: Json)
    ensures
        json@ == tools_json(tools@),
{
    let mut items: Vec<Json> = Vec::new();
    let mut i: usize = 0;
    while i < tools.len()
        invariant
            i <= tools.len(),
            items@.len() == i,
            forall|k: int| 0 <= k < i ==> items@[k]@ == tool_json(tools@[k]),
        decreases tools.len() - i,
    {
        items.push(tools[i].encode());
        i += 1;
    }
    assert(items_view(items@) =~= tools_json(tools@)->Array_0);
    Json::Array(items)
}

impl ToolConfig {
    /// The JSON form of this configuration.
    pub fn encode(&self) -> (json: Json)
        ensures
            json@ == tool_config_json(*self),
    {
        let mode = match &self.function_calling_config.mode {
            Some(mode) => Json::Text(mode.to_str().to_owned()),
            None => Json::Null,
        };
        let mut inner = no_members();
        add_member(&mut inner, "mode", mode);
        add_member(
            &mut inner,
            "allowed_function_names",
            encode_optional_texts(&self.function_calling_config.allowed_function_names),
        );
        let mut members = no_members();
        add_member(&mut members, "function_calling_config", Json::Object(inner));
        Json::Object(members)
    }
}

/// The JSON forms of a list of contents, in order.
pub open spec fn contents_json(contents: Seq<ContentType>) -> JsonView {
    JsonView::Array(Seq::new(contents.len(), |i: int| content_to_json(contents[i]@)))
}

/// The JSON forms of a list of contents, in order.
pub fn encode_contents(contents: &Vec<ContentType>) -> (json: Json)
    ensures
        json@ == contents_json(contents@),
{
    let mut items: Vec<Json> = Vec::new();
    let mut i: usize = 0;
    while i < contents.len()
        invariant
            i <= contents.len(),
            items@.len() == i,
            forall|k: int| 0 <= k < i ==> items@[k]@ == content_to_json(contents@[k]@),
        decreases contents.len() - i,
    {
        items.push(contents[i].encode());
        i += 1;
    }
    assert(items_view(items@) =~= contents_json(contents@)->Array_0);
    Json::Array(items)
}

} // verus!
