//! The configuration file: a YAML document, read with `serde_yaml`.

use vstd::prelude::*;
use crate::config::{ConfigError, FileSource, FileSourceView, FileValue, FileValueView};

verus! {

/// `serde_yaml::Value`, a parsed YAML document. Nothing inside it is
/// visible to proofs: what it holds is read through [`yaml_entries`].
#[verifier::external_type_specification]
#[verifier::external_body]
pub struct ExYamlValue(serde_yaml::Value);

/// What a document holds under its string keys, each value as a
/// [`FileValueView`]. A document that is no mapping holds nothing.
pub uninterp spec fn yaml_entries(document: serde_yaml::Value) -> Map<Seq<char>, FileValueView>;

/// The entries of the document that `serde_yaml` reads from `text`, or
/// `None` where it reads none: text that is no YAML, that holds no document
/// or more than one, or that holds a value `serde_yaml::Value` has no room
/// for.
pub uninterp spec fn yaml_document(text: Seq<char>) -> Option<Map<Seq<char>, FileValueView>>;

/// Calls `serde_yaml::from_str` for a `serde_yaml::Value`. The contract
/// names the outcome: success is a document with the entries that
/// [`yaml_document`] gives for the text, failure means it gives none. The
/// error is handed back as its message.
#[verifier::external_body]
fn yaml_parse(text: &str) -> (parsed: Result<serde_yaml::Value, String>)
    ensures
        match parsed {
            Ok(document) => yaml_document(text@) == Some(yaml_entries(document)),
            Err(_) => yaml_document(text@) is None,
        },
{
    match serde_yaml::from_str::<serde_yaml::Value>(text) {
        Ok(document) => Ok(document),
        Err(error) => Err(error.to_string()),
    }
}

/// Calls `serde_yaml::Value::get` with a string key and hands the value
/// out as a [`FileValue`]: a number with `Number::as_u64`, a string as it
/// is, anything else as `Other`. The contract says that this is the entry
/// of [`yaml_entries`] under the key, and `None` where there is none.
#[verifier::external_body]
fn yaml_get(document: &serde_yaml::Value, key: &str) -> (value: Option<FileValue>)
    ensures
        match value {
            Some(found) => yaml_entries(*document).contains_key(key@) && yaml_entries(
                *document,
            )[key@] == found@,
            None => !yaml_entries(*document).contains_key(key@),
        },
{
    match document.get(key) {
        None => None,
        Some(serde_yaml::Value::Number(number)) => Some(FileValue::Number(number.as_u64())),
        Some(serde_yaml::Value::String(text)) => Some(FileValue::Text(text.clone())),
        Some(_) => Some(FileValue::Other),
    }
}

/// The entry under a key, if there is one.
pub open spec fn entry(entries: Map<Seq<char>, FileValueView>, key: Seq<char>) -> Option<
    FileValueView,
> {
    if entries.contains_key(key) {
        Some(entries[key])
    } else {
        None
    }
}

/// The settings among the entries of a document: those under `ip` and `port`.
pub open spec fn file_source_of(entries: Map<Seq<char>, FileValueView>) -> FileSourceView {
    FileSourceView { ip: entry(entries, "ip"@), port: entry(entries, "port"@) }
}

/// Reads the settings that a configuration file holds. Text that
/// `serde_yaml` reads as a document always gives a source; a document
/// without the keys, or one that is no mapping, gives a source without
/// values. Any other text is an error, with the parser's message.
pub fn read_file_source(text: &str) -> (read: Result<FileSource, ConfigError>)
    ensures
        match yaml_document(text@) {
            Some(entries) => read matches Ok(source) && source@ == file_source_of(entries),
            None => read matches Err(ConfigError::Unparseable(_)),
        },
{
    match yaml_parse(text) {
        Ok(document) => {
            let ip = yaml_get(&document, "ip");
            let port = yaml_get(&document, "port");
            Ok(FileSource { ip, port })
        },
        Err(message) => Err(ConfigError::Unparseable(message)),
    }
}

} // verus!
