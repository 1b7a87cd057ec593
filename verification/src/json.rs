//! JSON documents, read with `serde_json`.

use serde_json::Value;
use vstd::prelude::*;

verus! {

/// A JSON value of `serde_json`. Nothing is known of it but the texts that it holds.
#[verifier::external_type_specification]
#[verifier::external_body]
pub struct ExValue(serde_json::Value);

/// The texts that a JSON value holds, each under every JSON Pointer that leads to it; a value that
/// is itself a text holds it under the empty pointer.
pub uninterp spec fn json_texts(value: Value) -> Map<Seq<char>, Seq<char>>;

/// What a document in JSON holds, as `json_texts` tells it, or the message that refuses it.
pub uninterp spec fn json_document(bytes: Seq<u8>) -> Result<Map<Seq<char>, Seq<char>>, Seq<char>>;

/// Calls `serde_json::from_slice` for a `Value`. The value, and the message of an error, depend on
/// the bytes alone.
#[verifier::external_body]
pub(crate) fn parse_json(bytes: &[u8]) -> (result: Result<Value, String>)
    ensures
        match result {
            Ok(value) => json_document(bytes@) == Ok::<Map<Seq<char>, Seq<char>>, Seq<char>>(
                json_texts(value),
            ),
            Err(message) => json_document(bytes@) == Err::<Map<Seq<char>, Seq<char>>, Seq<char>>(
                message@,
            ),
        },
{
    serde_json::from_slice(bytes).map_err(|error| error.to_string())
}

/// `Value::pointer` finds the value that a JSON Pointer leads to: it is a text where the whole
/// value holds one under that pointer, and no value is found only where the pointer leads to none.
pub assume_specification<'a>[ Value::pointer ](value: &'a Value, pointer: &str) -> (found: Option<
    &'a Value,
>)
    ensures
        match found {
            Some(inner) => {
                &&& json_texts(*inner).contains_key(""@) == json_texts(*value).contains_key(pointer@)
                &&& json_texts(*inner).contains_key(""@) ==> json_texts(*inner)[""@] == json_texts(
                    *value,
                )[pointer@]
            },
            None => !json_texts(*value).contains_key(pointer@),
        },
;

/// `Value::as_str` gives the text that a value is, and nothing for any other value.
pub assume_specification<'a>[ Value::as_str ](value: &'a Value) -> (text: Option<&'a str>)
    ensures
        match text {
            Some(text) => json_texts(*value).contains_key(""@) && json_texts(*value)[""@] == text@,
            None => !json_texts(*value).contains_key(""@),
        },
;

/// The text that a map holds under a pointer, if there is one.
pub open spec fn text_under(texts: Map<Seq<char>, Seq<char>>, pointer: Seq<char>) -> Option<
    Seq<char>,
> {
    if texts.contains_key(pointer) {
        Some(texts[pointer])
    } else {
        None
    }
}

/// Finds the text that a value holds under a pointer.
pub fn text_in(value: &Value, pointer: &str) -> (text: Option<String>)
    ensures
        match text {
            Some(text) => text_under(json_texts(*value), pointer@) == Some(text@),
            None => text_under(json_texts(*value), pointer@) is None,
        },
{
    match value.pointer(pointer) {
        Some(found) => match found.as_str() {
            Some(text) => Some(text.to_string()),
            None => None,
        },
        None => None,
    }
}

/// The text that a document holds under a pointer, if there is one, or why it cannot be read.
pub open spec fn text_in_document(bytes: Seq<u8>, pointer: Seq<char>) -> Result<
    Option<Seq<char>>,
    Seq<char>,
> {
    match json_document(bytes) {
        Ok(texts) => Ok(text_under(texts, pointer)),
        Err(message) => Err(message),
    }
}

/// Reads the text that a document holds under a pointer.
pub fn text_at(bytes: &[u8], pointer: &str) -> (result: Result<Option<String>, String>)
    ensures
        match result {
            Ok(Some(text)) => text_in_document(bytes@, pointer@) == Ok::<
                Option<Seq<char>>,
                Seq<char>,
            >(Some(text@)),
            Ok(None) => text_in_document(bytes@, pointer@) == Ok::<Option<Seq<char>>, Seq<char>>(
                None,
            ),
            Err(message) => text_in_document(bytes@, pointer@) == Err::<
                Option<Seq<char>>,
                Seq<char>,
            >(message@),
        },
{
    let document = parse_json(bytes)?;
    Ok(text_in(&document, pointer))
}

/// A text is found exactly where the map holds it.
pub proof fn texts_are_found_where_they_are(
    texts: Map<Seq<char>, Seq<char>>,
    pointer: Seq<char>,
    text: Seq<char>,
)
    ensures
        text_under(texts, pointer) == Some(text) <==> texts.contains_key(pointer) && texts[pointer]
            == text,
        text_under(texts.insert(pointer, text), pointer) == Some(text),
        text_under(texts.remove(pointer), pointer) is None,
{
}

/// A document is refused with one reason under every pointer, or under none.
pub proof fn documents_are_refused_as_a_whole(
    bytes: Seq<u8>,
    pointer: Seq<char>,
    other: Seq<char>,
)
    ensures
        text_in_document(bytes, pointer) is Err <==> text_in_document(bytes, other) is Err,
        text_in_document(bytes, pointer) is Err ==> text_in_document(bytes, pointer)
            == text_in_document(bytes, other),
        json_document(bytes) matches Ok(texts) ==> text_in_document(bytes, pointer) == Ok::<
            Option<Seq<char>>,
            Seq<char>,
        >(text_under(texts, pointer)),
{
}

} // verus!
