//! The JSON boundary of the Windows settings backend.
//!
//! Parsing and serialization are serde_json's work, reached through the
//! two trusted functions below.  Both results are functions of their
//! argument alone, so each carries a name — [`settings_doc_of`] for the
//! parsed document, [`rendered_text_of`] for the serialized text — and
//! the public functions' contracts are exact over those names: the text
//! parses if and only if it is a JSON object, and an `Ok` holds the one
//! document the text denotes.

use vstd::prelude::*;
use crate::installer::GitAiError;
use crate::settings::{doc_wf, DocModel, SettingsDoc, SettingsEntry, SettingsValue};

verus! {

#[verifier::external_type_specification]
#[verifier::external_body]
pub struct ExJsonError(serde_json::Error);

/// The document behind settings text: the parsed entries where the
/// text is a JSON object, nothing where it is not.  Parsing is a
/// function of the text alone.
pub uninterp spec fn settings_doc_of(text: Seq<char>) -> Option<DocModel>;

/// The serialized text of a settings document.  Serialization is a
/// function of the document alone.
pub uninterp spec fn rendered_text_of(doc: DocModel) -> Seq<char>;

/// Relies on `serde_json::from_str` for a JSON object (any other text
/// is rejected), `serde_json::Value::as_i64` and `serde_json::to_string`
/// for the entries: integer and string values are read as such, any
/// other value is carried as its serialized text, and a map binds each
/// key once, so a parsed document is well-formed.
#[verifier::external_body]
fn parse_settings_entries(text: &str) -> (r: Result<SettingsDoc, serde_json::Error>)
    ensures
        r is Ok <==> settings_doc_of(text@) is Some,
        r matches Ok(doc) ==> Some(doc@) == settings_doc_of(text@) && doc_wf(doc@),
{
    let map: serde_json::Map<String, serde_json::Value> = serde_json::from_str(text)?;
    let mut entries: Vec<SettingsEntry> = Vec::new();
    for (key, value) in map {
        let value = match value.as_i64() {
            Some(i) => SettingsValue::IntVal(i),
            None => match value {
                serde_json::Value::String(s) => SettingsValue::StrVal(s),
                other => SettingsValue::RawVal(serde_json::to_string(&other)?),
            },
        };
        entries.push(SettingsEntry { key, value });
    }
    Ok(SettingsDoc { entries })
}

/// Relies on `serde_json::to_string_pretty` over a map collected from
/// the document's entries (`serde_json::from_str` re-reads a carried
/// value's text).  The distinct keys keep the collection from losing an
/// entry; only re-reading a carried raw value can fail, so a document
/// of integer and string values always renders.
#[verifier::external_body]
fn render_settings_text(doc: &SettingsDoc) -> (r: Result<String, serde_json::Error>)
    requires
        doc_wf(doc@),
    ensures
        r matches Ok(s) ==> s@ == rendered_text_of(doc@),
        (forall|i: int| 0 <= i < doc@.len() ==> !(doc@[i].1 is Raw)) ==> r is Ok,
{
    let mut map = serde_json::Map::new();
    for e in &doc.entries {
        let v = match &e.value {
            SettingsValue::IntVal(i) => serde_json::Value::from(*i),
            SettingsValue::StrVal(s) => serde_json::Value::String(s.clone()),
            SettingsValue::RawVal(t) => serde_json::from_str(t)?,
        };
        map.insert(e.key.clone(), v);
    }
    serde_json::to_string_pretty(&serde_json::Value::Object(map))
}

/// Relies on the display form of `serde_json::Error` for its message.
#[verifier::external_body]
fn json_error_message(e: &serde_json::Error) -> (r: String) {
    format!("{}", e)
}

/// Parse settings text into a document.  The text parses exactly when
/// it denotes a JSON object; malformed text is an error, never silently
/// replaced by an empty document.  An `Ok` holds the one document the
/// text denotes, and that document is well-formed: each key bound once.
pub fn parse_settings(text: &str) -> (r: Result<SettingsDoc, GitAiError>)
    ensures
        r is Ok <==> settings_doc_of(text@) is Some,
        r matches Ok(doc) ==> Some(doc@) == settings_doc_of(text@) && doc_wf(doc@),
{
    match parse_settings_entries(text) {
        Ok(doc) => Ok(doc),
        Err(e) => Err(GitAiError::Generic(json_error_message(&e))),
    }
}

/// Render a document back to settings text, via serde_json's pretty
/// serializer.  An `Ok` holds the one text the document denotes.  A
/// document of integer and string values always renders; only a
/// carried-through raw value whose text no longer parses can fail.
pub fn render_settings(doc: &SettingsDoc) -> (r: Result<String, GitAiError>)
    requires
        doc_wf(doc@),
    ensures
        r matches Ok(s) ==> s@ == rendered_text_of(doc@),
        (forall|i: int| 0 <= i < doc@.len() ==> !(doc@[i].1 is Raw)) ==> r is Ok,
{
    match render_settings_text(doc) {
        Ok(s) => Ok(s),
        Err(e) => Err(GitAiError::Generic(json_error_message(&e))),
    }
}

} // verus!
