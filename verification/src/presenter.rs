//! The presenter: turns a presentation record into the sequence of
//! registration calls that the host is to receive.
//!
//! Nothing here touches the host. The calls come back as plain values, each
//! string of which is guaranteed to survive the host's NUL-terminated string
//! convention unchanged.

use vstd::prelude::*;
use crate::manifest::{EntryView, ManifestAttributeView, ManifestCredentialEntry};
use crate::text::{concat2, concat3, contains_nul, has_nul};
use crate::views::{bytes_view, text_view, views};

verus! {

/// One name and value pair shown under a credential.
#[derive(Debug, Clone, PartialEq, Eq)]
pub struct CredentialAttribute {
    pub display_name: String,
    /// `None` means that there is no value to show, which is not the same as
    /// an empty value.
    pub value: Option<String>,
}

/// The view of a [`CredentialAttribute`]: each string as its sequence of characters,
/// each vector as a sequence.
pub struct CredentialAttributeView {
    pub display_name: Seq<char>,
    pub value: Option<Seq<char>>,
}

impl View for CredentialAttribute {
    type V = CredentialAttributeView;

    open spec fn view(&self) -> CredentialAttributeView {
        CredentialAttributeView { display_name: self.display_name@, value: text_view(self.value) }
    }
}

/// Everything the host is told about one credential.
#[derive(Debug, Clone, PartialEq, Eq)]
pub struct CredentialPresentation<'a> {
    /// The correlation payload by which the host names the entry later.
    pub cred_id_json: String,
    pub title: String,
    pub subtitle: String,
    pub icon_data: Option<&'a [u8]>,
    pub disclaimer: Option<String>,
    pub warning: Option<String>,
    pub attributes: Vec<CredentialAttribute>,
}

/// The view of a [`CredentialPresentation`]: each string as its sequence of characters,
/// each vector as a sequence.
pub struct PresentationView {
    pub cred_id_json: Seq<char>,
    pub title: Seq<char>,
    pub subtitle: Seq<char>,
    pub icon_data: Option<Seq<u8>>,
    pub disclaimer: Option<Seq<char>>,
    pub warning: Option<Seq<char>>,
    pub attributes: Seq<CredentialAttributeView>,
}

impl<'a> View for CredentialPresentation<'a> {
    type V = PresentationView;

    open spec fn view(&self) -> PresentationView {
        PresentationView {
            cred_id_json: self.cred_id_json@,
            title: self.title@,
            subtitle: self.subtitle@,
            icon_data: bytes_view(self.icon_data),
            disclaimer: text_view(self.disclaimer),
            warning: text_view(self.warning),
            attributes: views(self.attributes@),
        }
    }
}

/// A call that the host is to receive.
#[derive(Debug, Clone, PartialEq, Eq)]
pub enum HostCall<'a> {
    /// Registers a credential entry.
    RegisterEntry {
        correlation: String,
        icon: Option<&'a [u8]>,
        title: String,
        subtitle: String,
        disclaimer: Option<String>,
        warning: Option<String>,
    },
    /// Registers one attribute of the entry with the same correlation payload.
    RegisterField { correlation: String, display_name: String, display_value: Option<String> },
}

/// The view of a [`HostCall`]: each string as its sequence of characters,
/// each vector as a sequence.
pub enum HostCallView {
    RegisterEntry {
        correlation: Seq<char>,
        icon: Option<Seq<u8>>,
        title: Seq<char>,
        subtitle: Seq<char>,
        disclaimer: Option<Seq<char>>,
        warning: Option<Seq<char>>,
    },
    RegisterField {
        correlation: Seq<char>,
        display_name: Seq<char>,
        display_value: Option<Seq<char>>,
    },
}

impl<'a> View for HostCall<'a> {
    type V = HostCallView;

    open spec fn view(&self) -> HostCallView {
        match *self {
            HostCall::RegisterEntry { correlation, icon, title, subtitle, disclaimer, warning } => {
                HostCallView::RegisterEntry {
                    correlation: correlation@,
                    icon: bytes_view(icon),
                    title: title@,
                    subtitle: subtitle@,
                    disclaimer: text_view(disclaimer),
                    warning: text_view(warning),
                }
            },
            HostCall::RegisterField { correlation, display_name, display_value } => {
                HostCallView::RegisterField {
                    correlation: correlation@,
                    display_name: display_name@,
                    display_value: text_view(display_value),
                }
            },
        }
    }
}

/// A required string can be handed to the host when it is not empty and
/// holds no NUL.
pub open spec fn sendable(s: Seq<char>) -> bool {
    s.len() > 0 && !has_nul(s)
}

/// An optional string can be handed to the host when there is none, or
/// when the one there is holds no NUL. It may be empty.
pub open spec fn sendable_optional(o: Option<Seq<char>>) -> bool {
    o matches Some(s) ==> !has_nul(s)
}

/// Whether the text fields of a record can all be sent: the correlation
/// payload, the title and the subtitle as required strings, the disclaimer
/// and the warning as optional ones.
pub open spec fn presentable(card: PresentationView) -> bool {
    &&& sendable(card.cred_id_json)
    &&& sendable(card.title)
    &&& sendable(card.subtitle)
    &&& sendable_optional(card.disclaimer)
    &&& sendable_optional(card.warning)
}

/// The entry registration of a presentable record.
pub open spec fn entry_call(card: PresentationView) -> HostCallView {
    HostCallView::RegisterEntry {
        correlation: card.cred_id_json,
        icon: card.icon_data,
        title: card.title,
        subtitle: card.subtitle,
        disclaimer: card.disclaimer,
        warning: card.warning,
    }
}

/// The field registration of one attribute, or `None` where the attribute
/// is left out because its name or its value cannot be sent.
pub open spec fn field_call(correlation: Seq<char>, attribute: CredentialAttributeView) -> Option<
    HostCallView,
> {
    if sendable(attribute.display_name) && sendable_optional(attribute.value) {
        Some(
            HostCallView::RegisterField {
                correlation,
                display_name: attribute.display_name,
                display_value: attribute.value,
            },
        )
    } else {
        None
    }
}

/// The field registrations of a run of attributes, in the attributes' order.
pub open spec fn field_calls(
    correlation: Seq<char>,
    attributes: Seq<CredentialAttributeView>,
) -> Seq<HostCallView>
    decreases attributes.len(),
{
    if attributes.len() == 0 {
        seq![]
    } else {
        let before = field_calls(correlation, attributes.drop_last());
        match field_call(correlation, attributes.last()) {
            Some(call) => before.push(call),
            None => before,
        }
    }
}

/// The calls that present a record: nothing at all where one of its text
/// fields cannot be sent, else the entry registration followed by the field
/// registrations.
pub open spec fn present_calls(card: PresentationView) -> Seq<HostCallView> {
    if presentable(card) {
        seq![entry_call(card)] + field_calls(card.cred_id_json, card.attributes)
    } else {
        seq![]
    }
}

/// Whether every string of a call meets the host's string convention:
/// no NUL anywhere, and no required string empty.
pub open spec fn encodable(call: HostCallView) -> bool {
    match call {
        HostCallView::RegisterEntry { correlation, icon, title, subtitle, disclaimer, warning } => {
            &&& sendable(correlation)
            &&& sendable(title)
            &&& sendable(subtitle)
            &&& sendable_optional(disclaimer)
            &&& sendable_optional(warning)
        },
        HostCallView::RegisterField { correlation, display_name, display_value } => {
            &&& sendable(correlation)
            &&& sendable(display_name)
            &&& sendable_optional(display_value)
        },
    }
}

/// Every call that presents a record meets the host's string convention.
pub proof fn present_calls_are_encodable(card: PresentationView)
    ensures
        forall|i: int|
            0 <= i < present_calls(card).len() ==> encodable(#[trigger] present_calls(card)[i]),
{
    if presentable(card) {
        field_calls_are_encodable(card.cred_id_json, card.attributes);
    }
}

/// Every field registration under a correlation payload that can be sent
/// meets the host's string convention.
pub proof fn field_calls_are_encodable(
    correlation: Seq<char>,
    attributes: Seq<CredentialAttributeView>,
)
    requires
        sendable(correlation),
    ensures
        forall|i: int|
            0 <= i < field_calls(correlation, attributes).len() ==> encodable(
                #[trigger] field_calls(correlation, attributes)[i],
            ),
    decreases attributes.len(),
{
    if attributes.len() > 0 {
        field_calls_are_encodable(correlation, attributes.drop_last());
        let before = field_calls(correlation, attributes.drop_last());
        let all = field_calls(correlation, attributes);
        assert forall|i: int| 0 <= i < all.len() implies encodable(#[trigger] all[i]) by {
            if i < before.len() {
                assert(all[i] == before[i]);
            }
        }
    }
}

fn can_send(s: &String) -> (b: bool)
    ensures
        b == sendable(s@),
{
    let text = s.as_str();
    !text.is_empty() && !contains_nul(text)
}

fn can_send_optional(o: &Option<String>) -> (b: bool)
    ensures
        b == sendable_optional(text_view(*o)),
{
    match o {
        Some(s) => !contains_nul(s.as_str()),
        None => true,
    }
}

impl<'a> CredentialPresentation<'a> {
    /// Lays out the host calls for this record.
    ///
    /// A record yields no call at all where its correlation payload, title
    /// or subtitle is empty, or where any of its text fields holds a NUL.
    /// Otherwise the entry registration comes first, then one field
    /// registration per attribute in order, leaving out the attributes whose
    /// name is empty and those whose name or value holds a NUL. What is sent
    /// is sent unchanged: a missing value stays missing, an empty one stays
    /// empty.
    pub fn present(&self) -> (calls: Vec<HostCall<'a>>)
        ensures
            views(calls@) == present_calls(self@),
            forall|i: int| 0 <= i < calls@.len() ==> encodable(#[trigger] views(calls@)[i]),
    {
        proof {
            present_calls_are_encodable(self@);
        }
        let mut calls: Vec<HostCall<'a>> = Vec::new();
        if !can_send(&self.cred_id_json) || !can_send(&self.title) || !can_send(&self.subtitle)
            || !can_send_optional(&self.disclaimer) || !can_send_optional(&self.warning) {
            assert(views(calls@) =~= present_calls(self@));
            return calls;
        }
        calls.push(
            HostCall::RegisterEntry {
                correlation: self.cred_id_json.clone(),
                icon: self.icon_data,
                title: self.title.clone(),
                subtitle: self.subtitle.clone(),
                disclaimer: self.disclaimer.clone(),
                warning: self.warning.clone(),
            },
        );
        assert(views(calls@) =~= seq![entry_call(self@)]);
        let mut i: usize = 0;
        while i < self.attributes.len()
            invariant
                i <= self.attributes.len(),
                views(calls@) == seq![entry_call(self@)] + field_calls(
                    self.cred_id_json@,
                    self@.attributes.take(i as int),
                ),
            decreases self.attributes.len() - i,
        {
            let attribute = &self.attributes[i];
            let ghost before = calls@;
            assert(self@.attributes.take(i + 1).drop_last() =~= self@.attributes.take(i as int));
            assert(self@.attributes.take(i + 1).last() == attribute@);
            if can_send(&attribute.display_name) && can_send_optional(&attribute.value) {
                calls.push(
                    HostCall::RegisterField {
                        correlation: self.cred_id_json.clone(),
                        display_name: attribute.display_name.clone(),
                        display_value: attribute.value.clone(),
                    },
                );
                assert(views(calls@) =~= views(before).push(calls@.last()@));
            }
            i += 1;
        }
        assert(self@.attributes.take(i as int) =~= self@.attributes);
        calls
    }
}

/// The correlation payload of an entry: the JSON object `{"id":"<id>"}`,
/// with the identifier written as it stands.
pub open spec fn correlation_payload(id: Seq<char>) -> Seq<char> {
    "{\"id\":\""@ + id + "\"}"@
}

/// The subtitle made up for an entry that brings none.
pub open spec fn fallback_subtitle(id: Seq<char>) -> Seq<char> {
    "SHC ID: "@ + id
}

/// The subtitle shown for an entry: its own where it has one that is not
/// empty, else the fallback.
pub open spec fn resolved_subtitle(entry: EntryView) -> Seq<char> {
    match entry.subtitle {
        Some(s) => if s.len() > 0 {
            s
        } else {
            fallback_subtitle(entry.id)
        },
        None => fallback_subtitle(entry.id),
    }
}

/// A manifest attribute as it is shown: name and value unchanged.
pub open spec fn shown_attribute(attribute: ManifestAttributeView) -> CredentialAttributeView {
    CredentialAttributeView { display_name: attribute.name, value: attribute.value }
}

/// The presentation record of a manifest entry.
pub open spec fn presentation_of(entry: EntryView, icon: Option<Seq<u8>>) -> PresentationView {
    PresentationView {
        cred_id_json: correlation_payload(entry.id),
        title: entry.title,
        subtitle: resolved_subtitle(entry),
        icon_data: icon,
        disclaimer: entry.disclaimer,
        warning: None,
        attributes: entry.attributes.map_values(|a: ManifestAttributeView| shown_attribute(a)),
    }
}

/// Whether `needle` occurs in `text` as a run of consecutive characters.
pub open spec fn occurs_in(needle: Seq<char>, text: Seq<char>) -> bool {
    exists|k: int|
        0 <= k && k + needle.len() <= text.len() && #[trigger] text.subrange(
            k,
            k + needle.len(),
        ) == needle
}

/// An entry's own subtitle, when it has one that is not empty, is shown
/// unchanged. An entry without a subtitle is shown with one that is not
/// empty and in which the entry's identifier occurs.
pub proof fn subtitle_is_kept_or_names_the_entry(entry: EntryView, icon: Option<Seq<u8>>)
    ensures
        entry.subtitle matches Some(s) ==> (s.len() > 0 ==> presentation_of(entry, icon).subtitle
            == s),
        entry.subtitle is None ==> presentation_of(entry, icon).subtitle.len() > 0 && occurs_in(
            entry.id,
            presentation_of(entry, icon).subtitle,
        ),
{
    reveal_strlit("SHC ID: ");
    let prefix = "SHC ID: "@;
    let made = fallback_subtitle(entry.id);
    let start = prefix.len() as int;
    assert(made.subrange(start, start + entry.id.len()) =~= entry.id);
}

/// An attribute that is registered is registered with the value it has:
/// one without a value reaches the host without one, never with an empty
/// string or a stand-in, and one with a value reaches it with exactly that
/// value.
pub proof fn attribute_value_is_sent_as_it_is(
    correlation: Seq<char>,
    attribute: ManifestAttributeView,
)
    ensures
        field_call(correlation, shown_attribute(attribute)) matches Some(call) ==> call
            == (HostCallView::RegisterField {
            correlation,
            display_name: attribute.name,
            display_value: attribute.value,
        }),
        sendable(attribute.name) && attribute.value is None ==> field_call(
            correlation,
            shown_attribute(attribute),
        ) == Some(
            HostCallView::RegisterField {
                correlation,
                display_name: attribute.name,
                display_value: None,
            },
        ),
{
}

/// Builds the correlation payload for an identifier.
pub fn correlation(id: &str) -> (payload: String)
    ensures
        payload@ == correlation_payload(id@),
{
    concat3("{\"id\":\"", id, "\"}")
}

/// Resolves the subtitle to show for an entry.
pub fn resolve_subtitle(entry: &ManifestCredentialEntry) -> (subtitle: String)
    ensures
        subtitle@ == resolved_subtitle(entry@),
{
    match &entry.subtitle {
        Some(s) => {
            if s.as_str().is_empty() {
                concat2("SHC ID: ", entry.id.as_str())
            } else {
                s.clone()
            }
        },
        None => concat2("SHC ID: ", entry.id.as_str()),
    }
}

/// Builds the presentation record of a manifest entry, with the icon that
/// every entry is shown with.
pub fn presentation<'a>(entry: &ManifestCredentialEntry, icon: Option<&'a [u8]>) -> (card:
    CredentialPresentation<'a>)
    ensures
        card@ == presentation_of(entry@, bytes_view(icon)),
{
    let mut attributes: Vec<CredentialAttribute> = Vec::new();
    let mut i: usize = 0;
    while i < entry.attributes.len()
        invariant
            i <= entry.attributes.len(),
            attributes@.len() == i,
            forall|k: int|
                0 <= k < i ==> (#[trigger] attributes@[k])@ == shown_attribute(
                    entry.attributes@[k]@,
                ),
        decreases entry.attributes.len() - i,
    {
        let attribute = &entry.attributes[i];
        attributes.push(
            CredentialAttribute {
                display_name: attribute.name.clone(),
                value: attribute.value.clone(),
            },
        );
        i += 1;
    }
    let card = CredentialPresentation {
        cred_id_json: correlation(entry.id.as_str()),
        title: entry.title.clone(),
        subtitle: resolve_subtitle(entry),
        icon_data: icon,
        disclaimer: entry.disclaimer.clone(),
        warning: None,
        attributes,
    };
    assert(card@.attributes =~= presentation_of(entry@, bytes_view(icon)).attributes);
    card
}

} // verus!
