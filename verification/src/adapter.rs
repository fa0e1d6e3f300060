use vstd::prelude::*;
use vstd::utf8::decode_utf8;
use vstd::utf8::valid_utf8;

use crate::error::DecodeError;

verus! {

/// A typed value decoded from a TOML document.
#[derive(Debug, Clone)]
pub struct TomlOf<T>(pub T);

/// The dynamic value that the TOML deserializer yields for a piece of text,
/// or `None` when the text is not a well-formed TOML document. The
/// deserializer's result depends on the text alone, so it can be given a
/// name; nothing further is assumed about which texts are well-formed.
pub uninterp spec fn toml_document_of(text: Seq<char>) -> Option<toml::Value>;

/// What decoding a byte stream yields: the bytes must be valid UTF-8, and
/// the text they spell must be a well-formed TOML document.
pub open spec fn document_of_bytes(bytes: Seq<u8>) -> Option<toml::Value> {
    if valid_utf8(bytes) {
        toml_document_of(decode_utf8(bytes))
    } else {
        None
    }
}

#[verifier::external_type_specification]
#[verifier::external_body]
pub struct ExTomlValue(toml::Value);

#[verifier::external_type_specification]
#[verifier::external_body]
pub struct ExTomlDeError(toml::de::Error);

/// Relies on str::from_utf8: the bytes are reinterpreted as text exactly
/// when they are valid UTF-8, and the text is their UTF-8 decoding.
#[verifier::external_body]
fn bytes_as_text(bytes: &[u8]) -> (r: Option<&str>)
    ensures
        match r {
            Some(text) => valid_utf8(bytes@) && text@ == decode_utf8(bytes@),
            None => !valid_utf8(bytes@),
        },
{
    core::str::from_utf8(bytes).ok()
}

/// Relies on toml::from_str at the dynamic value type: its result is a
/// function of the text alone, named by `toml_document_of`.
#[verifier::external_body]
fn parse_document(text: &str) -> (r: Result<toml::Value, toml::de::Error>)
    ensures
        match r {
            Ok(v) => toml_document_of(text@) == Some(v),
            Err(_) => toml_document_of(text@) is None,
        },
{
    toml::from_str(text)
}

/// Relies on toml::Value::try_into: whether the document's shape maps onto
/// `T` is decided by `T`'s own deserialization, so nothing is assumed of
/// the outcome.
#[verifier::external_body]
fn value_into<T: serde::de::DeserializeOwned>(v: toml::Value) -> (r: Result<T, toml::de::Error>) {
    v.try_into()
}

/// Relies on the Display rendering of toml::de::Error: it describes what
/// went wrong, with the place in the document where it happened.
#[verifier::external_body]
fn parse_error_message(e: &toml::de::Error) -> (m: String) {
    e.to_string()
}

impl TomlOf<toml::Value> {
    /// Decodes text as a TOML document into the dynamic value type. The
    /// result is exactly the value the underlying deserializer yields for
    /// this text, and decoding fails exactly when the text is not a
    /// well-formed TOML document.
    pub fn document_from_text(text: &str) -> (r: Result<Self, DecodeError>)
        ensures
            match r {
                Ok(t) => toml_document_of(text@) == Some(t.0),
                Err(_) => toml_document_of(text@) is None,
            },
    {
        match parse_document(text) {
            Ok(v) => Ok(TomlOf(v)),
            Err(e) => Err(DecodeError::new(parse_error_message(&e))),
        }
    }

    /// Decodes a byte stream as a TOML document into the dynamic value
    /// type: the bytes are read as UTF-8 text, and the text is decoded as
    /// `document_from_text` does. Decoding fails exactly when the bytes are
    /// not valid UTF-8 or the text is not a well-formed TOML document.
    pub fn document_from_bytes(bytes: &[u8]) -> (r: Result<Self, DecodeError>)
        ensures
            match r {
                Ok(t) => document_of_bytes(bytes@) == Some(t.0),
                Err(_) => document_of_bytes(bytes@) is None,
            },
    {
        match bytes_as_text(bytes) {
            Some(text) => Self::document_from_text(text),
            None => Err(DecodeError::new(String::from_str(
                "stream did not contain valid UTF-8",
            ))),
        }
    }
}

impl<T: serde::de::DeserializeOwned> TomlOf<T> {
    /// Decodes text as a TOML document and maps its structure onto `T`:
    /// the text is parsed into a dynamic value, and the value is handed to
    /// `T`'s deserialization. Text that is not a well-formed TOML document
    /// is always rejected; whether a well-formed document's shape matches
    /// `T` is decided by the deserializer.
    pub fn from_text(text: &str) -> (r: Result<Self, DecodeError>)
        ensures
            r is Ok ==> toml_document_of(text@) is Some,
            toml_document_of(text@) is None ==> r is Err,
    {
        match parse_document(text) {
            Ok(document) => match value_into::<T>(document) {
                Ok(v) => Ok(TomlOf(v)),
                Err(e) => Err(DecodeError::new(parse_error_message(&e))),
            },
            Err(e) => Err(DecodeError::new(parse_error_message(&e))),
        }
    }

    /// Decodes a byte stream as a TOML document and maps its structure onto
    /// `T`: the bytes are read as UTF-8 text, then decoded as `from_text`
    /// does. A byte stream that is not valid UTF-8, or whose text is not a
    /// well-formed TOML document, is always rejected.
    pub fn from_bytes(bytes: &[u8]) -> (r: Result<Self, DecodeError>)
        ensures
            r is Ok ==> document_of_bytes(bytes@) is Some,
            document_of_bytes(bytes@) is None ==> r is Err,
    {
        match bytes_as_text(bytes) {
            Some(text) => Self::from_text(text),
            None => Err(DecodeError::new(String::from_str(
                "stream did not contain valid UTF-8",
            ))),
        }
    }
}

} // verus!
