//! YAML documents as plain values, and the lookup of a text by a dotted
//! key.

use crate::config::key_path;
use crate::config::segments_of;
use crate::connect::text_eq;
use crate::value::texts_of;
use vstd::prelude::*;

verus! {

/// `serde_yaml::Value`, a parsed YAML document.
#[verifier::external_type_specification]
#[verifier::external_body]
pub struct ExValue(serde_yaml::Value);

/// A YAML value. A number is held as the text that it prints as, a tag as
/// its text with the leading exclamation mark.
#[derive(Debug, PartialEq, Eq)]
pub enum Yaml {
    Null,
    Bool(bool),
    Number(String),
    String(String),
    Sequence(Vec<Yaml>),
    Mapping(Vec<YamlEntry>),
    Tagged(String, Box<Yaml>),
}

/// One entry of a mapping.
#[derive(Debug, PartialEq, Eq)]
pub struct YamlEntry {
    pub key: Yaml,
    pub value: Yaml,
}

/// Why a document gives no text for a key.
#[derive(Clone, Copy, PartialEq, Eq, Structural, Debug)]
pub enum YamlError {
    /// The bytes are no YAML document.
    Invalid,
    /// The value under the key is neither a text nor null.
    NotText,
}

/// The document that the bytes of a YAML text parse to, if they parse.
pub uninterp spec fn yaml_document(data: Seq<u8>) -> Option<Yaml>;

/// A `serde_yaml::Value` as a `Yaml`, variant for variant: a number by
/// its `Display` form, a mapping as its entries in order, a tagged value as
/// the `Display` form of its tag and its value.
#[verifier::external_body]
fn plain(value: &serde_yaml::Value) -> Yaml {
    match value {
        serde_yaml::Value::Null => Yaml::Null,
        serde_yaml::Value::Bool(b) => Yaml::Bool(*b),
        serde_yaml::Value::Number(n) => Yaml::Number(n.to_string()),
        serde_yaml::Value::String(s) => Yaml::String(s.clone()),
        serde_yaml::Value::Sequence(items) => Yaml::Sequence(items.iter().map(plain).collect()),
        serde_yaml::Value::Mapping(map) => Yaml::Mapping(
            map.iter().map(|(k, v)| YamlEntry { key: plain(k), value: plain(v) }).collect(),
        ),
        serde_yaml::Value::Tagged(t) => Yaml::Tagged(t.tag.to_string(), Box::new(plain(&t.value))),
    }
}

/// `serde_yaml::from_slice` to a `serde_yaml::Value`, converted by `plain`.
/// Parsing reads nothing but the bytes, so the same bytes always give the
/// same document, or always none.
#[verifier::external_body]
fn from_slice(data: &[u8]) -> (document: Option<Yaml>)
    ensures
        document == yaml_document(data@),
{
    match serde_yaml::from_slice::<serde_yaml::Value>(data) {
        Ok(value) => Some(plain(&value)),
        Err(_) => None,
    }
}

/// The value under `key` among `entries`: the value of the first entry
/// whose key is the text `key`, and null where there is none.
pub open spec fn find(entries: Seq<YamlEntry>, key: Seq<char>) -> Yaml
    decreases entries.len(),
{
    if entries.len() == 0 {
        Yaml::Null
    } else if entries[0].key matches Yaml::String(s) && s@ == key {
        entries[0].value
    } else {
        find(entries.drop_first(), key)
    }
}

impl Yaml {
    /// The value without the tags around it.
    pub open spec fn untagged(self) -> Yaml
        decreases self,
    {
        match self {
            Yaml::Tagged(_, inner) => inner.untagged(),
            other => other,
        }
    }

    /// The value under `key`: for a mapping, tagged or not, the value that
    /// it holds for the text `key`, and null for a mapping without that key
    /// and for everything that is no mapping.
    pub open spec fn child(self, key: Seq<char>) -> Yaml {
        match self.untagged() {
            Yaml::Mapping(entries) => find(entries@, key),
            _ => Yaml::Null,
        }
    }

    /// The value at the end of `path`, one step for each segment.
    pub open spec fn descend(self, path: Seq<Seq<char>>) -> Yaml
        decreases path.len(),
    {
        if path.len() == 0 {
            self
        } else {
            self.descend(path.drop_last()).child(path.last())
        }
    }

    /// The value as a text: none for null, the text for a text, and an
    /// error for everything else. Tags are looked through.
    pub open spec fn text(self) -> Result<Option<Seq<char>>, YamlError> {
        match self.untagged() {
            Yaml::Null => Ok(None),
            Yaml::String(s) => Ok(Some(s@)),
            _ => Err(YamlError::NotText),
        }
    }

    /// The value without the tags around it.
    pub fn untag(&self) -> (inner: &Yaml)
        ensures
            *inner == self.untagged(),
        decreases self,
    {
        match self {
            Yaml::Tagged(_, inner) => inner.untag(),
            _ => self,
        }
    }

    /// The value under `key`, where nothing stands for null.
    pub fn get(&self, key: &str) -> (child: Option<&Yaml>)
        ensures
            match child {
                Some(c) => *c == self.child(key@),
                None => self.child(key@) == Yaml::Null,
            },
    {
        match self.untag() {
            Yaml::Mapping(entries) => {
                let mut i: usize = 0;
                assert(entries@.skip(0) =~= entries@);
                while i < entries.len()
                    invariant
                        i <= entries@.len(),
                        self.untagged() == Yaml::Mapping(*entries),
                        find(entries@, key@) == find(entries@.skip(i as int), key@),
                    decreases entries@.len() - i,
                {
                    let ghost rest = entries@.skip(i as int);
                    assert(rest.drop_first() =~= entries@.skip(i + 1));
                    if let Yaml::String(s) = &entries[i].key {
                        if text_eq(s.as_str(), key) {
                            return Some(&entries[i].value);
                        }
                    }
                    i += 1;
                }
                None
            },
            _ => None,
        }
    }

    /// The text of the value: none for null, the text for a text, and an
    /// error for everything else.
    pub fn as_text(&self) -> (text: Result<Option<String>, YamlError>)
        ensures
            match text {
                Ok(Some(s)) => self.text() == Ok::<Option<Seq<char>>, YamlError>(Some(s@)),
                Ok(None) => self.text() == Ok::<Option<Seq<char>>, YamlError>(None),
                Err(e) => self.text() == Err::<Option<Seq<char>>, YamlError>(e),
            },
    {
        match self.untag() {
            Yaml::Null => Ok(None),
            Yaml::String(s) => Ok(Some(s.clone())),
            _ => Err(YamlError::NotText),
        }
    }
}

/// The document that `data` parses to, or nothing where it is no YAML.
pub fn parse_document(data: &[u8]) -> (document: Option<Yaml>)
    ensures
        document == yaml_document(data@),
{
    from_slice(data)
}

/// The text under a dotted key such as `logging.level`: the document is
/// descended by one mapping for each segment of the key. A key that leads
/// nowhere, or to null, gives none.
pub fn read_key(document: &Yaml, key: &str) -> (text: Result<Option<String>, YamlError>)
    ensures
        match text {
            Ok(Some(s)) => document.descend(segments_of(key@)).text() == Ok::<
                Option<Seq<char>>,
                YamlError,
            >(Some(s@)),
            Ok(None) => document.descend(segments_of(key@)).text() == Ok::<
                Option<Seq<char>>,
                YamlError,
            >(None),
            Err(e) => document.descend(segments_of(key@)).text() == Err::<
                Option<Seq<char>>,
                YamlError,
            >(e),
        },
{
    let path = key_path(key);
    let ghost segments = texts_of(path@);
    let mut current: Option<&Yaml> = Some(document);
    let mut i: usize = 0;
    while i < path.len()
        invariant
            i <= path@.len(),
            segments == texts_of(path@),
            match current {
                Some(c) => *c == document.descend(segments.take(i as int)),
                None => document.descend(segments.take(i as int)) == Yaml::Null,
            },
        decreases path@.len() - i,
    {
        assert(segments.take(i + 1).drop_last() =~= segments.take(i as int));
        current = match current {
            Some(value) => value.get(path[i].as_str()),
            None => None,
        };
        i += 1;
    }
    assert(segments.take(i as int) =~= segments);
    match current {
        Some(value) => value.as_text(),
        None => Ok(None),
    }
}

/// The text under a dotted key in the YAML text `data`.
pub fn yaml_key_reader(data: &[u8], key: &str) -> (text: Result<Option<String>, YamlError>)
    ensures
        match yaml_document(data@) {
            None => text == Err::<Option<String>, YamlError>(YamlError::Invalid),
            Some(document) => match text {
                Ok(Some(s)) => document.descend(segments_of(key@)).text() == Ok::<
                    Option<Seq<char>>,
                    YamlError,
                >(Some(s@)),
                Ok(None) => document.descend(segments_of(key@)).text() == Ok::<
                    Option<Seq<char>>,
                    YamlError,
                >(None),
                Err(e) => document.descend(segments_of(key@)).text() == Err::<
                    Option<Seq<char>>,
                    YamlError,
                >(e),
            },
        },
{
    match parse_document(data) {
        Some(document) => read_key(&document, key),
        None => Err(YamlError::Invalid),
    }
}

} // verus!
