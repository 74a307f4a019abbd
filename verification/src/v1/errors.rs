//! The failures that decoding can report. Each one rejects a single part or
//! a single streamed event; none of them ends the process.

use vstd::prelude::*;
use vstd::string::StringExecFns;

verus! {

/// Why a JSON value or a streamed payload was rejected.
#[derive(Debug, Clone, PartialEq, Eq)]
pub enum DecodeError {
    /// A JSON object was expected and another kind of value was found.
    NotAnObject,
    /// The object holds none of the keys that identify a part.
    UnknownPartShape,
    /// The named key is missing, or its value does not have the shape that
    /// the key requires.
    MalformedField(String),
    /// One payload of a stream could not be decoded as an event.
    MalformedEvent,
    /// The stream ended inside a payload.
    TruncatedStream,
}

/// The mathematical value of a [`DecodeError`].
pub enum DecodeErrorView {
    NotAnObject,
    UnknownPartShape,
    MalformedField(Seq<char>),
    MalformedEvent,
    TruncatedStream,
}

impl View for DecodeError {
    type V = DecodeErrorView;

    open spec fn view(&self) -> DecodeErrorView {
        match self {
            DecodeError::NotAnObject => DecodeErrorView::NotAnObject,
            DecodeError::UnknownPartShape => DecodeErrorView::UnknownPartShape,
            DecodeError::MalformedField(name) => DecodeErrorView::MalformedField(name@),
            DecodeError::MalformedEvent => DecodeErrorView::MalformedEvent,
            DecodeError::TruncatedStream => DecodeErrorView::TruncatedStream,
        }
    }
}

/// The text that describes an error.
pub open spec fn error_message(error: DecodeErrorView) -> Seq<char> {
    match error {
        DecodeErrorView::NotAnObject => "Expected JSON object"@,
        DecodeErrorView::UnknownPartShape => "Invalid data structure."@,
        DecodeErrorView::MalformedField(name) => "Malformed field: "@ + name,
        DecodeErrorView::MalformedEvent => "Malformed event."@,
        DecodeErrorView::TruncatedStream => "Stream ended inside an event."@,
    }
}

impl DecodeError {
    /// An error for a key whose value is missing or ill-shaped.
    pub fn malformed(name: &str) -> (error: DecodeError)
        ensures
            error@ == DecodeErrorView::MalformedField(name@),
    {
        DecodeError::MalformedField(name.to_owned())
    }

    /// A description of this error for people.
    pub fn message(&self) -> (text: String)
        ensures
            text@ == error_message(self@),
    {
        match self {
            DecodeError::NotAnObject => "Expected JSON object".to_owned(),
            DecodeError::UnknownPartShape => "Invalid data structure.".to_owned(),
            DecodeError::MalformedField(name) => {
                let mut text = "Malformed field: ".to_owned();
                text.append(name.as_str());
                text
            },
            DecodeError::MalformedEvent => "Malformed event.".to_owned(),
            DecodeError::TruncatedStream => "Stream ended inside an event.".to_owned(),
        }
    }
}

} // verus!
