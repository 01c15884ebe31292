//! The credentials manifest: the host's catalog of the credentials that are
//! available locally, and its decoding from JSON.
//!
//! The wire format is
//! `{"credentials":[{"id":s,"tags":[s],"title":s,"subtitle"?:s,"disclaimer"?:s,"attributes":[{"name":s,"value"?:s}]}]}`.
//! Unknown fields are ignored, an optional field may be missing or `null`,
//! and a document that lacks a required field or holds a value of the wrong
//! type anywhere is turned down as a whole.

use vstd::prelude::*;
use crate::json::{
    all_decoded, members, members_of, optional_string, optional_text, parse_value, parsed,
    required_array, required_items, required_string, required_text, text_of, ParseError,
};
use crate::views::{text_view, texts, views};

verus! {

/// One attribute of a credential, as the manifest lists it.
#[derive(Debug, Clone, PartialEq, Eq)]
pub struct ManifestAttribute {
    pub name: String,
    /// `None` where the manifest gives no value to display.
    pub value: Option<String>,
}

/// The view of a [`ManifestAttribute`]: each string as its sequence of characters,
/// each vector as a sequence.
pub struct ManifestAttributeView {
    pub name: Seq<char>,
    pub value: Option<Seq<char>>,
}

impl View for ManifestAttribute {
    type V = ManifestAttributeView;

    open spec fn view(&self) -> ManifestAttributeView {
        ManifestAttributeView { name: self.name@, value: text_view(self.value) }
    }
}

/// One credential of the manifest.
#[derive(Debug, Clone, PartialEq, Eq)]
pub struct ManifestCredentialEntry {
    pub id: String,
    /// The profile identifiers that the credential satisfies. Repetitions
    /// are allowed and change nothing.
    pub tags: Vec<String>,
    /// The attributes in display order.
    pub attributes: Vec<ManifestAttribute>,
    pub title: String,
    pub subtitle: Option<String>,
    pub disclaimer: Option<String>,
}

/// The view of a [`ManifestCredentialEntry`]: each string as its sequence of characters,
/// each vector as a sequence.
pub struct EntryView {
    pub id: Seq<char>,
    pub tags: Seq<Seq<char>>,
    pub attributes: Seq<ManifestAttributeView>,
    pub title: Seq<char>,
    pub subtitle: Option<Seq<char>>,
    pub disclaimer: Option<Seq<char>>,
}

impl View for ManifestCredentialEntry {
    type V = EntryView;

    open spec fn view(&self) -> EntryView {
        EntryView {
            id: self.id@,
            tags: texts(self.tags@),
            attributes: views(self.attributes@),
            title: self.title@,
            subtitle: text_view(self.subtitle),
            disclaimer: text_view(self.disclaimer),
        }
    }
}

/// The whole manifest, entries in document order.
#[derive(Debug, Clone, PartialEq, Eq)]
pub struct GlobalCredentialManifest {
    pub credentials: Vec<ManifestCredentialEntry>,
}

impl View for GlobalCredentialManifest {
    type V = Seq<EntryView>;

    open spec fn view(&self) -> Seq<EntryView> {
        views(self.credentials@)
    }
}

/// The attribute that a JSON value denotes, if it is one.
pub open spec fn attribute_of(v: serde_json::Value) -> Option<ManifestAttributeView> {
    match members_of(v) {
        None => None,
        Some(entries) => match (required_text(entries, "name"@), optional_text(entries, "value"@)) {
            (Some(name), Some(value)) => Some(ManifestAttributeView { name, value }),
            _ => None,
        },
    }
}

/// The credential entry that a JSON value denotes, if it is one.
pub open spec fn entry_of(v: serde_json::Value) -> Option<EntryView> {
    match members_of(v) {
        None => None,
        Some(entries) => match (
            required_text(entries, "id"@),
            required_items(entries, "tags"@),
            required_items(entries, "attributes"@),
            required_text(entries, "title"@),
            optional_text(entries, "subtitle"@),
            optional_text(entries, "disclaimer"@),
        ) {
            (
                Some(id),
                Some(tag_items),
                Some(attribute_items),
                Some(title),
                Some(subtitle),
                Some(disclaimer),
            ) => match (
                all_decoded(tag_items, |t: serde_json::Value| text_of(t)),
                all_decoded(attribute_items, |a: serde_json::Value| attribute_of(a)),
            ) {
                (Some(tags), Some(attributes)) => Some(
                    EntryView { id, tags, attributes, title, subtitle, disclaimer },
                ),
                _ => None,
            },
            _ => None,
        },
    }
}

/// The manifest that a JSON value denotes, if it is one.
pub open spec fn manifest_of(v: serde_json::Value) -> Option<Seq<EntryView>> {
    match members_of(v) {
        None => None,
        Some(entries) => match required_items(entries, "credentials"@) {
            Some(items) => all_decoded(items, |e: serde_json::Value| entry_of(e)),
            None => None,
        },
    }
}

/// What parsing a manifest text gives.
pub open spec fn manifest_of_text(text: Seq<char>) -> Result<Seq<EntryView>, ParseError> {
    match parsed(text) {
        None => Err(ParseError::Syntax),
        Some(v) => match manifest_of(v) {
            Some(m) => Ok(m),
            None => Err(ParseError::Schema),
        },
    }
}

fn decode_attribute(v: &serde_json::Value) -> (r: Option<ManifestAttribute>)
    ensures
        r is Some <==> attribute_of(*v) is Some,
        r matches Some(a) ==> attribute_of(*v) == Some(a@),
{
    let entries = match members(v) {
        Some(entries) => entries,
        None => return None,
    };
    let name = match required_string(&entries, "name") {
        Some(name) => name,
        None => return None,
    };
    let value = match optional_string(&entries, "value") {
        Some(value) => value,
        None => return None,
    };
    Some(ManifestAttribute { name, value })
}

fn decode_attributes(items: &Vec<serde_json::Value>) -> (r: Option<Vec<ManifestAttribute>>)
    ensures
        r is Some <==> all_decoded(items@, |a: serde_json::Value| attribute_of(a)) is Some,
        r matches Some(attributes) ==> all_decoded(items@, |a: serde_json::Value| attribute_of(a))
            == Some(views(attributes@)),
{
    let ghost f = |a: serde_json::Value| attribute_of(a);
    let mut attributes: Vec<ManifestAttribute> = Vec::new();
    let mut i: usize = 0;
    while i < items.len()
        invariant
            i <= items.len(),
            attributes@.len() == i,
            f == (|a: serde_json::Value| attribute_of(a)),
            forall|k: int| 0 <= k < i ==> #[trigger] f(items@[k]) == Some(attributes@[k]@),
        decreases items.len() - i,
    {
        match decode_attribute(&items[i]) {
            Some(attribute) => attributes.push(attribute),
            None => {
                assert(f(items@[i as int]) is None);
                return None;
            },
        }
        i += 1;
    }
    assert(all_decoded(items@, f)->0 =~= views(attributes@));
    Some(attributes)
}

fn decode_tags(items: &Vec<serde_json::Value>) -> (r: Option<Vec<String>>)
    ensures
        r is Some <==> all_decoded(items@, |t: serde_json::Value| text_of(t)) is Some,
        r matches Some(tags) ==> all_decoded(items@, |t: serde_json::Value| text_of(t)) == Some(
            texts(tags@),
        ),
{
    let ghost f = |t: serde_json::Value| text_of(t);
    let mut tags: Vec<String> = Vec::new();
    let mut i: usize = 0;
    while i < items.len()
        invariant
            i <= items.len(),
            tags@.len() == i,
            f == (|t: serde_json::Value| text_of(t)),
            forall|k: int| 0 <= k < i ==> #[trigger] f(items@[k]) == Some(tags@[k]@),
        decreases items.len() - i,
    {
        match items[i].as_str() {
            Some(tag) => tags.push(tag.to_owned()),
            None => {
                assert(f(items@[i as int]) is None);
                return None;
            },
        }
        i += 1;
    }
    assert(all_decoded(items@, f)->0 =~= texts(tags@));
    Some(tags)
}

fn decode_entry(v: &serde_json::Value) -> (r: Option<ManifestCredentialEntry>)
    ensures
        r is Some <==> entry_of(*v) is Some,
        r matches Some(e) ==> entry_of(*v) == Some(e@),
{
    let entries = match members(v) {
        Some(entries) => entries,
        None => return None,
    };
    let id = match required_string(&entries, "id") {
        Some(id) => id,
        None => return None,
    };
    let tag_items = match required_array(&entries, "tags") {
        Some(items) => items,
        None => return None,
    };
    let attribute_items = match required_array(&entries, "attributes") {
        Some(items) => items,
        None => return None,
    };
    let title = match required_string(&entries, "title") {
        Some(title) => title,
        None => return None,
    };
    let subtitle = match optional_string(&entries, "subtitle") {
        Some(subtitle) => subtitle,
        None => return None,
    };
    let disclaimer = match optional_string(&entries, "disclaimer") {
        Some(disclaimer) => disclaimer,
        None => return None,
    };
    let tags = match decode_tags(tag_items) {
        Some(tags) => tags,
        None => return None,
    };
    let attributes = match decode_attributes(attribute_items) {
        Some(attributes) => attributes,
        None => return None,
    };
    Some(ManifestCredentialEntry { id, tags, attributes, title, subtitle, disclaimer })
}

/// Decodes a parsed JSON value as a manifest.
///
/// Succeeds exactly when the value is an object whose `credentials` field
/// is an array of well-formed entries; the entries keep the document's
/// order.
pub fn decode_manifest(v: &serde_json::Value) -> (r: Result<GlobalCredentialManifest, ParseError>)
    ensures
        r is Ok <==> manifest_of(*v) is Some,
        r matches Ok(manifest) ==> manifest_of(*v) == Some(manifest@),
        r matches Err(e) ==> e == ParseError::Schema,
{
    let entries = match members(v) {
        Some(entries) => entries,
        None => return Err(ParseError::Schema),
    };
    let items = match required_array(&entries, "credentials") {
        Some(items) => items,
        None => return Err(ParseError::Schema),
    };
    let ghost f = |e: serde_json::Value| entry_of(e);
    let mut credentials: Vec<ManifestCredentialEntry> = Vec::new();
    let mut i: usize = 0;
    while i < items.len()
        invariant
            i <= items.len(),
            credentials@.len() == i,
            f == (|e: serde_json::Value| entry_of(e)),
            manifest_of(*v) == all_decoded(items@, f),
            forall|k: int| 0 <= k < i ==> #[trigger] f(items@[k]) == Some(credentials@[k]@),
        decreases items.len() - i,
    {
        match decode_entry(&items[i]) {
            Some(entry) => credentials.push(entry),
            None => {
                assert(f(items@[i as int]) is None);
                return Err(ParseError::Schema);
            },
        }
        i += 1;
    }
    assert(all_decoded(items@, f)->0 =~= views(credentials@));
    Ok(GlobalCredentialManifest { credentials })
}

/// Parses the text of a manifest document.
///
/// `Err(Syntax)` where the text is not JSON, `Err(Schema)` where the JSON
/// is not a manifest, else the manifest.
pub fn parse_manifest(text: &str) -> (r: Result<GlobalCredentialManifest, ParseError>)
    ensures
        r is Ok <==> manifest_of_text(text@) is Ok,
        r matches Ok(manifest) ==> manifest_of_text(text@) == Ok::<_, ParseError>(manifest@),
        r matches Err(e) ==> manifest_of_text(text@) == Err::<Seq<EntryView>, _>(e),
{
    match parse_value(text) {
        Ok(v) => decode_manifest(&v),
        Err(_) => Err(ParseError::Syntax),
    }
}

} // verus!
