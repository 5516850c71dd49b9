use vstd::prelude::*;

verus! {

/// A YAML value as serde_yaml parses it; the library carries it without
/// looking inside.
#[verifier::external_type_specification]
#[verifier::external_body]
pub struct ExYamlValue(serde_yaml::Value);

/// The error serde_yaml reports on a document it cannot parse.
#[verifier::external_type_specification]
#[verifier::external_body]
pub struct ExYamlError(serde_yaml::Error);

/// Whether serde_yaml accepts the text as a YAML document.
pub uninterp spec fn yaml_parses(text: Seq<char>) -> bool;

/// What the document parsed from `text` holds under the mapping key `key`.
pub uninterp spec fn yaml_entry(text: Seq<char>, key: Seq<char>) -> EntryKind;

/// The shape of what a document holds under a key.
pub enum EntryKind {
    Missing,
    Null,
    Bool(bool),
    /// A number, with its value where it is a non-negative integer.
    Number(Option<u64>),
    Text(Seq<char>),
    Mapping,
    /// A sequence or a tagged value.
    Other,
}

/// What a document holds under a key, with the scalars read out.
#[derive(Debug, PartialEq)]
pub enum Entry {
    Missing,
    Null,
    Bool(bool),
    Number(Option<u64>),
    Text(String),
    Mapping(serde_yaml::Value),
    Other,
}

impl Entry {
    pub open spec fn kind(&self) -> EntryKind {
        match self {
            Entry::Missing => EntryKind::Missing,
            Entry::Null => EntryKind::Null,
            Entry::Bool(b) => EntryKind::Bool(*b),
            Entry::Number(n) => EntryKind::Number(*n),
            Entry::Text(s) => EntryKind::Text(s@),
            Entry::Mapping(_) => EntryKind::Mapping,
            Entry::Other => EntryKind::Other,
        }
    }
}

/// Relies on serde_yaml::from_str into a `Value`: whether it succeeds depends
/// on the text alone.
#[verifier::external_body]
fn parse_yaml(text: &str) -> (r: Result<serde_yaml::Value, serde_yaml::Error>)
    ensures
        r is Ok <==> yaml_parses(text@),
{
    serde_yaml::from_str::<serde_yaml::Value>(text)
}

/// Relies on the `Display` of serde_yaml::Error, for a description of the
/// failure.
#[verifier::external_body]
fn describe_yaml_error(e: serde_yaml::Error) -> (r: String) {
    e.to_string()
}

/// A parsed YAML document, with the text it was parsed from.
pub struct Document {
    value: serde_yaml::Value,
    text: Ghost<Seq<char>>,
}

/// Relies on serde_yaml::Value::get with a string key, which finds the entry
/// of a mapping (looking through a tag) and finds nothing in any other value;
/// then on Number::as_u64, which gives a non-negative integer and nothing else.
/// A `Document` is only built from the value that serde_yaml::from_str
/// returned for its source text, so the entry depends on that text and the key.
#[verifier::external_body]
pub(crate) fn lookup(doc: &Document, key: &str) -> (r: Entry)
    ensures
        r.kind() == yaml_entry(doc.source(), key@),
{
    match doc.value.get(key) {
        None => Entry::Missing,
        Some(serde_yaml::Value::Null) => Entry::Null,
        Some(serde_yaml::Value::Bool(b)) => Entry::Bool(*b),
        Some(serde_yaml::Value::Number(n)) => Entry::Number(n.as_u64()),
        Some(serde_yaml::Value::String(s)) => Entry::Text(s.clone()),
        Some(m @ serde_yaml::Value::Mapping(_)) => Entry::Mapping(m.clone()),
        Some(_) => Entry::Other,
    }
}

impl Document {
    /// The text the document was parsed from.
    pub closed spec fn source(&self) -> Seq<char> {
        self.text@
    }

    /// Parses `text` as YAML; on failure, returns serde_yaml's description
    /// of the error.
    pub fn parse(text: &str) -> (r: Result<Document, String>)
        ensures
            r is Ok <==> yaml_parses(text@),
            r matches Ok(d) ==> d.source() == text@,
    {
        match parse_yaml(text) {
            Ok(value) => Ok(Document { value, text: Ghost(text@) }),
            Err(e) => Err(describe_yaml_error(e)),
        }
    }
}

} // verus!
