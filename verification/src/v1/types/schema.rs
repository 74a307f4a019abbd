//! The schema of structured output.

use crate::v1::json::{
    add_member, encode_optional_bool, encode_optional_text, encode_optional_texts, members_map,
    no_members, object_view, optional_bool_json, optional_text_json, optional_texts_json, Json,
    JsonView,
};
use vstd::prelude::*;

verus! {

/// The `Schema` object allows the definition of input and output data
/// types. These types can be objects, but also primitives and arrays.
/// Represents a select subset of an OpenAPI 3.0 schema object.
#[derive(Debug)]
pub struct Schema {
    /// The type of the property.
    pub data_type: SchemaType,
    /// The format of the data. This is used only for primitive datatypes.
    /// Supported formats: for NUMBER `float`, `double`; for INTEGER `i32`,
    /// `i64`.
    pub format: Option<String>,
    /// A brief description of the parameter. This could contain examples of
    /// use. Parameter description may be formatted as Markdown.
    pub description: Option<String>,
    /// Indicates if the value may be null.
    pub nullable: Option<bool>,
    /// Possible values of the element of [`SchemaType::String`] with enum
    /// format.
    pub enum_values: Option<Vec<String>>,
    /// Schema of the elements of [`SchemaType::Array`].
    pub items: Option<Box<Schema>>,
    /// Properties of [`SchemaType::Object`], by name. Where a name occurs
    /// twice, the later entry counts.
    pub properties: Option<Vec<(String, Schema)>>,
    /// Required properties of [`SchemaType::Object`].
    pub required: Option<Vec<String>>,
    /// The example of the property.
    pub example: Option<Json>,
}

/// Type contains the list of OpenAPI data types.
#[derive(Debug, Clone, Copy, PartialEq, Eq)]
pub enum SchemaType {
    String,
    Number,
    Integer,
    Boolean,
    Array,
    Object,
}

impl SchemaType {
    /// The name of this type on the wire.
    pub open spec fn wire_name(self) -> Seq<char> {
        match self {
            SchemaType::String => "String"@,
            SchemaType::Number => "Number"@,
            SchemaType::Integer => "Integer"@,
            SchemaType::Boolean => "Boolean"@,
            SchemaType::Array => "Array"@,
            SchemaType::Object => "Object"@,
        }
    }

    /// The name of this type on the wire.
    pub fn to_str(&self) -> (name: &'static str)
        ensures
            name@ == self.wire_name(),
    {
        match self {
            SchemaType::String => "String",
            SchemaType::Number => "Number",
            SchemaType::Integer => "Integer",
            SchemaType::Boolean => "Boolean",
            SchemaType::Array => "Array",
            SchemaType::Object => "Object",
        }
    }
}

/// The JSON form of a schema: an object with the members `type`, `format`,
/// `description`, `nullable`, `enum`, `items`, `properties`, `required` and
/// `example`, each `null` where the schema does not set it.
pub open spec fn schema_json(schema: Schema) -> JsonView
    decreases schema, 0int,
{
    JsonView::Object(
        Map::<Seq<char>, JsonView>::empty().insert(
            "type"@,
            JsonView::Text(schema.data_type.wire_name()),
        ).insert("format"@, optional_text_json(schema.format)).insert(
            "description"@,
            optional_text_json(schema.description),
        ).insert("nullable"@, optional_bool_json(schema.nullable)).insert(
            "enum"@,
            optional_texts_json(schema.enum_values),
        ).insert(
            "items"@,
            match schema.items {
                Some(inner) => schema_json(*inner),
                None => JsonView::Null,
            },
        ).insert(
            "properties"@,
            match schema.properties {
                Some(properties) => JsonView::Object(members_map(schemas_json(properties@))),
                None => JsonView::Null,
            },
        ).insert("required"@, optional_texts_json(schema.required)).insert(
            "example"@,
            match schema.example {
                Some(example) => example@,
                None => JsonView::Null,
            },
        ),
    )
}

/// The names and JSON forms of a list of named schemas, in order.
pub open spec fn schemas_json(properties: Seq<(String, Schema)>) -> Seq<(Seq<char>, JsonView)>
    decreases properties, 0int,
{
    Seq::new(
        properties.len(),
        |i: int|
            if 0 <= i < properties.len() {
                (properties[i].0@, schema_json(properties[i].1))
            } else {
                (Seq::empty(), JsonView::Null)
            },
    )
}

impl Schema {
    /// The JSON form of this schema.
    pub fn encode(&self) -> (json: Json)
        ensures
            json@ == schema_json(*self),
        decreases self,
    {
        let items = match &self.items {
            Some(inner) => inner.encode(),
            None => Json::Null,
        };
        let properties = match &self.properties {
            Some(properties) => {
                let mut members = no_members();
                let mut i: usize = 0;
                while i < properties.len()
                    invariant
                        self.properties == Some(*properties),
                        i <= properties.len(),
                        object_view(members@) == members_map(
                            schemas_json(properties@).take(i as int),
                        ),
                    decreases properties.len() - i,
                {
                    assert(self.properties->Some_0 == *properties);
                    let value = properties[i].1.encode();
                    add_member(&mut members, properties[i].0.as_str(), value);
                    proof {
                        let all = schemas_json(properties@);
                        assert(all.take(i + 1).drop_last() =~= all.take(i as int));
                    }
                    i += 1;
                }
                assert(schemas_json(properties@).take(i as int) =~= schemas_json(properties@));
                Json::Object(members)
            },
            None => Json::Null,
        };
        let example = match &self.example {
            Some(example) => example.duplicate(),
            None => Json::Null,
        };
        let mut members = no_members();
        add_member(&mut members, "type", Json::Text(self.data_type.to_str().to_owned()));
        add_member(&mut members, "format", encode_optional_text(&self.format));
        add_member(&mut members, "description", encode_optional_text(&self.description));
        add_member(&mut members, "nullable", encode_optional_bool(&self.nullable));
        add_member(&mut members, "enum", encode_optional_texts(&self.enum_values));
        add_member(&mut members, "items", items);
        add_member(&mut members, "properties", properties);
        add_member(&mut members, "required", encode_optional_texts(&self.required));
        add_member(&mut members, "example", example);
        Json::Object(members)
    }
}

} // verus!
