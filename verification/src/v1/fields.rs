//! Reading the members of a JSON object as the fields of a record.

use crate::v1::errors::{DecodeError, DecodeErrorView};
use crate::v1::json::{
    bool_of, field, find_member, find_present, int_within, member_text, object_view, present_field,
    text_field, text_of, Json, JsonView,
};
use vstd::prelude::*;

verus! {

/// The characters of an optional string.
pub open spec fn text_option(text: Option<String>) -> Option<Seq<char>> {
    match text {
        Some(s) => Some(s@),
        None => None,
    }
}

/// The string that must stand under a key.
pub open spec fn required_text(object: Map<Seq<char>, JsonView>, key: Seq<char>) -> Result<
    Seq<char>,
    DecodeErrorView,
> {
    match text_field(object, key) {
        Some(text) => Ok(text),
        None => Err(DecodeErrorView::MalformedField(key)),
    }
}

/// The string that may stand under a key: a missing key and `null` both
/// stand for no string.
pub open spec fn optional_text(object: Map<Seq<char>, JsonView>, key: Seq<char>) -> Result<
    Option<Seq<char>>,
    DecodeErrorView,
> {
    match present_field(object, key) {
        Some(value) => match text_of(value) {
            Some(text) => Ok(Some(text)),
            None => Err(DecodeErrorView::MalformedField(key)),
        },
        None => Ok(None),
    }
}

/// The integer in the range of `i32` that must stand under a key.
pub open spec fn required_i32(object: Map<Seq<char>, JsonView>, key: Seq<char>) -> Result<
    i32,
    DecodeErrorView,
> {
    match field(object, key) {
        Some(value) => match int_within(value, i32::MIN as int, i32::MAX as int) {
            Some(n) => Ok(n as i32),
            None => Err(DecodeErrorView::MalformedField(key)),
        },
        None => Err(DecodeErrorView::MalformedField(key)),
    }
}

/// The integer in the range of `i32` that may stand under a key.
pub open spec fn optional_i32(object: Map<Seq<char>, JsonView>, key: Seq<char>) -> Result<
    Option<i32>,
    DecodeErrorView,
> {
    match present_field(object, key) {
        Some(value) => match int_within(value, i32::MIN as int, i32::MAX as int) {
            Some(n) => Ok(Some(n as i32)),
            None => Err(DecodeErrorView::MalformedField(key)),
        },
        None => Ok(None),
    }
}

/// The integer in the range of `u32` that must stand under a key.
pub open spec fn required_u32(object: Map<Seq<char>, JsonView>, key: Seq<char>) -> Result<
    u32,
    DecodeErrorView,
> {
    match field(object, key) {
        Some(value) => match int_within(value, 0, u32::MAX as int) {
            Some(n) => Ok(n as u32),
            None => Err(DecodeErrorView::MalformedField(key)),
        },
        None => Err(DecodeErrorView::MalformedField(key)),
    }
}

/// The integer in the range of `u32` that may stand under a key.
pub open spec fn optional_u32(object: Map<Seq<char>, JsonView>, key: Seq<char>) -> Result<
    Option<u32>,
    DecodeErrorView,
> {
    match present_field(object, key) {
        Some(value) => match int_within(value, 0, u32::MAX as int) {
            Some(n) => Ok(Some(n as u32)),
            None => Err(DecodeErrorView::MalformedField(key)),
        },
        None => Ok(None),
    }
}

/// Reads the string that must stand under a key.
pub fn read_text(members: &Vec<(String, Json)>, key: &str) -> (outcome: Result<
    String,
    DecodeError,
>)
    ensures
        match outcome {
            Ok(text) => required_text(object_view(members@), key@) matches Ok(t) && t == text@,
            Err(error) => required_text(object_view(members@), key@) matches Err(e) && e
                == error@,
        },
{
    match member_text(members, key) {
        Some(text) => Ok(text),
        None => Err(DecodeError::malformed(key)),
    }
}

/// Reads the string that may stand under a key.
pub fn read_optional_text(members: &Vec<(String, Json)>, key: &str) -> (outcome: Result<
    Option<String>,
    DecodeError,
>)
    ensures
        match outcome {
            Ok(text) => optional_text(object_view(members@), key@) matches Ok(t) && t
                == text_option(text),
            Err(error) => optional_text(object_view(members@), key@) matches Err(e) && e
                == error@,
        },
{
    match find_present(members, key) {
        Some(value) => match value.as_text() {
            Some(text) => Ok(Some(text.clone())),
            None => Err(DecodeError::malformed(key)),
        },
        None => Ok(None),
    }
}

/// Reads the integer in the range of `i32` that must stand under a key.
pub fn read_i32(members: &Vec<(String, Json)>, key: &str) -> (outcome: Result<i32, DecodeError>)
    ensures
        match outcome {
            Ok(n) => required_i32(object_view(members@), key@) matches Ok(m) && m == n,
            Err(error) => required_i32(object_view(members@), key@) matches Err(e) && e
                == error@,
        },
{
    match find_member(members, key) {
        Some(value) => match value.as_i32() {
            Some(n) => Ok(n),
            None => Err(DecodeError::malformed(key)),
        },
        None => Err(DecodeError::malformed(key)),
    }
}

/// Reads the integer in the range of `i32` that may stand under a key.
pub fn read_optional_i32(members: &Vec<(String, Json)>, key: &str) -> (outcome: Result<
    Option<i32>,
    DecodeError,
>)
    ensures
        match outcome {
            Ok(n) => optional_i32(object_view(members@), key@) matches Ok(m) && m == n,
            Err(error) => optional_i32(object_view(members@), key@) matches Err(e) && e
                == error@,
        },
{
    match find_present(members, key) {
        Some(value) => match value.as_i32() {
            Some(n) => Ok(Some(n)),
            None => Err(DecodeError::malformed(key)),
        },
        None => Ok(None),
    }
}

/// Reads the integer in the range of `u32` that must stand under a key.
pub fn read_u32(members: &Vec<(String, Json)>, key: &str) -> (outcome: Result<u32, DecodeError>)
    ensures
        match outcome {
            Ok(n) => required_u32(object_view(members@), key@) matches Ok(m) && m == n,
            Err(error) => required_u32(object_view(members@), key@) matches Err(e) && e
                == error@,
        },
{
    match find_member(members, key) {
        Some(value) => match value.as_u32() {
            Some(n) => Ok(n),
            None => Err(DecodeError::malformed(key)),
        },
        None => Err(DecodeError::malformed(key)),
    }
}

/// Reads the integer in the range of `u32` that may stand under a key.
pub fn read_optional_u32(members: &Vec<(String, Json)>, key: &str) -> (outcome: Result<
    Option<u32>,
    DecodeError,
>)
    ensures
        match outcome {
            Ok(n) => optional_u32(object_view(members@), key@) matches Ok(m) && m == n,
            Err(error) => optional_u32(object_view(members@), key@) matches Err(e) && e
                == error@,
        },
{
    match find_present(members, key) {
        Some(value) => match value.as_u32() {
            Some(n) => Ok(Some(n)),
            None => Err(DecodeError::malformed(key)),
        },
        None => Ok(None),
    }
}


/// The flag that may stand under a key.
pub open spec fn optional_bool(object: Map<Seq<char>, JsonView>, key: Seq<char>) -> Result<
    Option<bool>,
    DecodeErrorView,
> {
    match present_field(object, key) {
        Some(value) => match bool_of(value) {
            Some(flag) => Ok(Some(flag)),
            None => Err(DecodeErrorView::MalformedField(key)),
        },
        None => Ok(None),
    }
}

/// Reads the flag that may stand under a key.
pub fn read_optional_bool(members: &Vec<(String, Json)>, key: &str) -> (outcome: Result<
    Option<bool>,
    DecodeError,
>)
    ensures
        match outcome {
            Ok(flag) => optional_bool(object_view(members@), key@) matches Ok(f) && f == flag,
            Err(error) => optional_bool(object_view(members@), key@) matches Err(e) && e
                == error@,
        },
{
    match find_present(members, key) {
        Some(value) => match value.as_bool() {
            Some(flag) => Ok(Some(flag)),
            None => Err(DecodeError::malformed(key)),
        },
        None => Ok(None),
    }
}

} // verus!
