//! The message envelope: the structured document that every announcement,
//! proposal, selection and confirmation carries as its payload.

use vstd::prelude::*;
use crate::document::{
    Json, as_integer, as_text, content, empty_object, member, object_value,
    optional_integer_value, parse, parsed, render, rendered, set_member, text_value,
};

verus! {

/// Why a payload is not an envelope.
#[derive(Clone, Copy, Debug, PartialEq, Eq, Structural)]
pub enum EnvelopeError {
    /// The text is not a JSON document.
    Unparseable,
    /// The document has no `@type` member that is a string.
    MissingType,
}

/// A message payload.
#[derive(Clone, Debug, PartialEq, Eq)]
pub struct Envelope {
    /// Namespace marker, written as `@context.schema`.
    pub context_tag: String,
    /// Application-level identifier, written as `@id`.
    pub id: String,
    /// Discriminator, written as `@type`.
    pub type_tag: String,
    /// Human-readable description, written as `schema:name`.
    pub name: String,
    /// Correlation number that links an announcement to the proposals that
    /// answer it, written as `schema:identifier`. It is held as it came, so
    /// that an answer carries exactly what the announcement carried; null
    /// where there is none.
    pub identifier: serde_json::Value,
}

/// An envelope as a mathematical value.
pub ghost struct EnvelopeView {
    pub context_tag: Seq<char>,
    pub id: Seq<char>,
    pub type_tag: Seq<char>,
    pub name: Seq<char>,
    pub identifier: Json,
}

impl View for Envelope {
    type V = EnvelopeView;

    open spec fn view(&self) -> EnvelopeView {
        EnvelopeView {
            context_tag: self.context_tag@,
            id: self.id@,
            type_tag: self.type_tag@,
            name: self.name@,
            identifier: content(self.identifier),
        }
    }
}

/// The outcome of reading an envelope, as a mathematical value.
pub open spec fn outcome_view(outcome: Result<Envelope, EnvelopeError>) -> Result<
    EnvelopeView,
    EnvelopeError,
> {
    match outcome {
        Ok(envelope) => Ok(envelope@),
        Err(error) => Err(error),
    }
}

/// The text of the member of `doc` under `key`, where `doc` is an object and
/// that member is a string.
pub open spec fn text_member(doc: Json, key: Seq<char>) -> Option<Seq<char>> {
    match doc {
        Json::Object(held) => if held.contains_key(key) {
            match held[key] {
                Json::Text(text) => Some(text),
                _ => None,
            }
        } else {
            None
        },
        _ => None,
    }
}

/// The number that a value holds, where it is a whole number that fits
/// `i64`.
pub open spec fn whole_number(value: Json) -> Option<i64> {
    match value {
        Json::Integer(n) => if i64::MIN <= n <= i64::MAX {
            Some(n as i64)
        } else {
            None
        },
        _ => None,
    }
}

/// The member of `doc` under `key`, or null where there is none.
pub open spec fn member_or_null(doc: Json, key: Seq<char>) -> Json {
    match doc {
        Json::Object(held) => if held.contains_key(key) {
            held[key]
        } else {
            Json::Null
        },
        _ => Json::Null,
    }
}

/// A text, or the empty text where there is none.
pub open spec fn text_or_empty(text: Option<Seq<char>>) -> Seq<char> {
    match text {
        Some(t) => t,
        None => Seq::empty(),
    }
}

/// The envelope that is made of what was read of a document's members. Only
/// the discriminator is required: any other text that was not read is empty,
/// and the correlation number is kept as it was read.
pub open spec fn assembled(
    type_tag: Option<Seq<char>>,
    context_tag: Option<Seq<char>>,
    id: Option<Seq<char>>,
    name: Option<Seq<char>>,
    identifier: Json,
) -> Result<EnvelopeView, EnvelopeError> {
    match type_tag {
        None => Err(EnvelopeError::MissingType),
        Some(type_tag) => Ok(
            EnvelopeView {
                context_tag: text_or_empty(context_tag),
                id: text_or_empty(id),
                type_tag,
                name: text_or_empty(name),
                identifier,
            },
        ),
    }
}

/// The envelope that a document holds. A text member that is missing or of
/// another type counts as not read. The correlation number is the member as
/// it stands, whatever it holds, or null where it is missing.
pub open spec fn envelope_of(doc: Json) -> Result<EnvelopeView, EnvelopeError> {
    assembled(
        text_member(doc, "@type"@),
        text_member(member_or_null(doc, "@context"@), "schema"@),
        text_member(doc, "@id"@),
        text_member(doc, "schema:name"@),
        member_or_null(doc, "schema:identifier"@),
    )
}

/// A text that was read, as a mathematical value.
pub open spec fn text_view(text: Option<String>) -> Option<Seq<char>> {
    match text {
        Some(t) => Some(t@),
        None => None,
    }
}

/// The envelope that a payload text holds.
pub open spec fn envelope_of_text(text: Seq<char>) -> Result<EnvelopeView, EnvelopeError> {
    match parsed(text) {
        None => Err(EnvelopeError::Unparseable),
        Some(doc) => envelope_of(doc),
    }
}

/// The content of an optional whole number: null where there is none.
pub open spec fn identifier_json(identifier: Option<i64>) -> Json {
    match identifier {
        Some(n) => Json::Integer(n as int),
        None => Json::Null,
    }
}

/// The document that is written for an envelope.
pub open spec fn document_of(envelope: EnvelopeView) -> Json {
    Json::Object(
        map![
            "@context"@ => Json::Object(map!["schema"@ => Json::Text(envelope.context_tag)]),
            "@id"@ => Json::Text(envelope.id),
            "@type"@ => Json::Text(envelope.type_tag),
            "schema:name"@ => Json::Text(envelope.name),
            "schema:identifier"@ => envelope.identifier,
        ],
    )
}

fn read_text(doc: &serde_json::Value, key: &str) -> (r: Option<String>)
    ensures
        text_view(r) == text_member(content(*doc), key@),
{
    match member(doc, key) {
        Some(found) => match as_text(found) {
            Some(text) => Some(text.to_owned()),
            None => None,
        },
        None => None,
    }
}

fn read_member(doc: &serde_json::Value, key: &str) -> (r: serde_json::Value)
    ensures
        content(r) == member_or_null(content(*doc), key@),
{
    match member(doc, key) {
        Some(found) => found.clone(),
        None => optional_integer_value(None),
    }
}

fn read_context(doc: &serde_json::Value) -> (r: Option<String>)
    ensures
        text_view(r) == text_member(member_or_null(content(*doc), "@context"@), "schema"@),
{
    match member(doc, "@context") {
        Some(context) => read_text(context, "schema"),
        None => None,
    }
}

fn or_empty(text: Option<String>) -> (r: String)
    ensures
        r@ == text_or_empty(text_view(text)),
{
    match text {
        Some(t) => t,
        None => String::new(),
    }
}

impl Envelope {
    /// Makes an envelope of what was read of a document's members:
    /// `MissingType` where no discriminator was read; any other text that
    /// was not read is empty; the correlation number is kept as it is.
    pub fn from_members(
        type_tag: Option<String>,
        context_tag: Option<String>,
        id: Option<String>,
        name: Option<String>,
        identifier: serde_json::Value,
    ) -> (r: Result<Envelope, EnvelopeError>)
        ensures
            outcome_view(r) == assembled(
                text_view(type_tag),
                text_view(context_tag),
                text_view(id),
                text_view(name),
                content(identifier),
            ),
    {
        match type_tag {
            None => Err(EnvelopeError::MissingType),
            Some(type_tag) => Ok(
                Envelope {
                    context_tag: or_empty(context_tag),
                    id: or_empty(id),
                    type_tag,
                    name: or_empty(name),
                    identifier,
                },
            ),
        }
    }

    /// Reads the envelope that a parsed document holds.
    pub fn from_document(doc: &serde_json::Value) -> (r: Result<Envelope, EnvelopeError>)
        ensures
            outcome_view(r) == envelope_of(content(*doc)),
    {
        Envelope::from_members(
            read_text(doc, "@type"),
            read_context(doc),
            read_text(doc, "@id"),
            read_text(doc, "schema:name"),
            read_member(doc, "schema:identifier"),
        )
    }

    /// Reads the envelope that a payload text holds: `Unparseable` where the
    /// text is no JSON, `MissingType` where it has no discriminator.
    pub fn parse(text: &str) -> (r: Result<Envelope, EnvelopeError>)
        ensures
            outcome_view(r) == envelope_of_text(text@),
    {
        match parse(text) {
            Ok(doc) => Envelope::from_document(&doc),
            Err(_) => Err(EnvelopeError::Unparseable),
        }
    }

    /// The document that is written for this envelope.
    pub fn to_document(&self) -> (r: serde_json::Value)
        ensures
            content(r) == document_of(self@),
    {
        let mut context = empty_object();
        set_member(&mut context, "schema".to_owned(), text_value(self.context_tag.clone()));
        let mut doc = empty_object();
        set_member(&mut doc, "@context".to_owned(), object_value(context));
        set_member(&mut doc, "@id".to_owned(), text_value(self.id.clone()));
        set_member(&mut doc, "@type".to_owned(), text_value(self.type_tag.clone()));
        set_member(&mut doc, "schema:name".to_owned(), text_value(self.name.clone()));
        set_member(
            &mut doc,
            "schema:identifier".to_owned(),
            self.identifier.clone(),
        );
        object_value(doc)
    }

    /// The correlation number as a number: `None` where the envelope holds
    /// none, or holds what is no whole number in the range of `i64`.
    pub fn correlation(&self) -> (r: Option<i64>)
        ensures
            r == whole_number(self@.identifier),
    {
        as_integer(&self.identifier)
    }

    /// The payload text of this envelope.
    pub fn to_text(&self) -> (r: String)
        ensures
            r@ == rendered(document_of(self@)),
    {
        let doc = self.to_document();
        render(&doc)
    }
}


/// What is written for an envelope reads back as that envelope.
pub proof fn lemma_document_round_trip(envelope: EnvelopeView)
    ensures
        envelope_of(document_of(envelope)) matches Ok(read) && read == envelope,
{
    reveal_strlit("@context");
    reveal_strlit("@id");
    reveal_strlit("@type");
    reveal_strlit("schema");
    reveal_strlit("schema:name");
    reveal_strlit("schema:identifier");
    assert("@context"@.len() == 8);
    assert("@id"@.len() == 3);
    assert("@type"@.len() == 5);
    assert("schema:name"@.len() == 11);
    assert("schema:identifier"@.len() == 17);
    let read = envelope_of(document_of(envelope));
    assert(read is Ok);
    assert(read->Ok_0.context_tag == envelope.context_tag);
    assert(read->Ok_0.identifier == envelope.identifier);
}

} // verus!
