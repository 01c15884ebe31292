//! The caller's request: which credential profiles it asks for.
//!
//! The wire format is
//! `{"requests":[{"protocol"?:s,"data"?:{<key>:{"_profile":s, ..}}}]}`.
//! The keys of `data` name resource types and carry no meaning for
//! matching: only the profile identifiers under them are kept.

use vstd::prelude::*;
use crate::json::{
    all_decoded, find, lookup, member_views, members, members_of, null_value, optional_string,
    optional_text, parse_value, parsed, required_array, required_items, required_string,
    required_text, Members, ParseError,
};
use crate::views::{text_view, texts, views};

verus! {

/// The constraints on one resource type. Today that is the profile alone.
#[derive(Debug, Clone, PartialEq, Eq)]
pub struct ProfileData {
    /// The profile identifier, compared as it stands.
    pub _profile: String,
}

impl View for ProfileData {
    type V = Seq<char>;

    open spec fn view(&self) -> Seq<char> {
        self._profile@
    }
}

/// One request object.
#[derive(Debug, Clone, PartialEq, Eq)]
pub struct DigitalRequestObject {
    pub protocol: Option<String>,
    /// The constraints by resource type, in the order of the parsed map.
    pub data: Option<Vec<(String, ProfileData)>>,
}

/// The view of a [`DigitalRequestObject`]: each string as its sequence of characters,
/// each vector as a sequence.
pub struct RequestObjectView {
    pub protocol: Option<Seq<char>>,
    pub data: Option<Seq<(Seq<char>, Seq<char>)>>,
}

/// Resource-type keys and profiles of a constraint list.
pub open spec fn constraint_views(data: Seq<(String, ProfileData)>) -> Seq<
    (Seq<char>, Seq<char>),
> {
    data.map_values(|c: (String, ProfileData)| (c.0@, c.1@))
}

impl View for DigitalRequestObject {
    type V = RequestObjectView;

    open spec fn view(&self) -> RequestObjectView {
        RequestObjectView {
            protocol: text_view(self.protocol),
            data: match self.data {
                Some(data) => Some(constraint_views(data@)),
                None => None,
            },
        }
    }
}

/// The request document: a list of request objects.
#[derive(Debug, Clone, PartialEq, Eq)]
pub struct DirectRequestPayload {
    pub requests: Vec<DigitalRequestObject>,
}

impl View for DirectRequestPayload {
    type V = Seq<RequestObjectView>;

    open spec fn view(&self) -> Seq<RequestObjectView> {
        views(self.requests@)
    }
}

/// No resource type occurs twice in a constraint list.
pub open spec fn distinct_resource_types(data: Seq<(Seq<char>, Seq<char>)>) -> bool {
    forall|i: int, j: int| 0 <= i < j < data.len() ==> data[i].0 != data[j].0
}

/// A request is well formed when, in each of its objects, every resource
/// type is constrained at most once.
pub open spec fn well_formed(request: Seq<RequestObjectView>) -> bool {
    forall|i: int|
        0 <= i < request.len() ==> ((#[trigger] request[i]).data matches Some(data)
            ==> distinct_resource_types(data))
}

/// The profile that a constraint object asks for, if the value is one.
pub open spec fn constraint_of(v: serde_json::Value) -> Option<Seq<char>> {
    match members_of(v) {
        None => None,
        Some(entries) => required_text(entries, "_profile"@),
    }
}

/// The constraint list that a `data` object denotes, if the value is one:
/// every member must be a constraint object.
pub open spec fn data_of(v: serde_json::Value) -> Option<Seq<(Seq<char>, Seq<char>)>> {
    match members_of(v) {
        None => None,
        Some(entries) => if forall|i: int|
            0 <= i < entries.len() ==> constraint_of((#[trigger] entries[i]).1) is Some {
            Some(Seq::new(entries.len(), |i: int| (entries[i].0, constraint_of(entries[i].1)->0)))
        } else {
            None
        },
    }
}

/// The optional `data` field: `Some(None)` where it is missing or `null`.
pub open spec fn optional_data(entries: Seq<(Seq<char>, serde_json::Value)>) -> Option<
    Option<Seq<(Seq<char>, Seq<char>)>>,
> {
    match lookup(entries, "data"@) {
        None => Some(None),
        Some(v) => if null_value(v) {
            Some(None)
        } else {
            match data_of(v) {
                Some(data) => Some(Some(data)),
                None => None,
            }
        },
    }
}

/// The request object that a JSON value denotes, if it is one.
pub open spec fn request_object_of(v: serde_json::Value) -> Option<RequestObjectView> {
    match members_of(v) {
        None => None,
        Some(entries) => match (optional_text(entries, "protocol"@), optional_data(entries)) {
            (Some(protocol), Some(data)) => Some(RequestObjectView { protocol, data }),
            _ => None,
        },
    }
}

/// The request that a JSON value denotes, if it is one.
pub open spec fn request_of(v: serde_json::Value) -> Option<Seq<RequestObjectView>> {
    match members_of(v) {
        None => None,
        Some(entries) => match required_items(entries, "requests"@) {
            Some(items) => all_decoded(items, |o: serde_json::Value| request_object_of(o)),
            None => None,
        },
    }
}

/// What parsing a request text gives.
pub open spec fn request_of_text(text: Seq<char>) -> Result<Seq<RequestObjectView>, ParseError> {
    match parsed(text) {
        None => Err(ParseError::Syntax),
        Some(v) => match request_of(v) {
            Some(request) => Ok(request),
            None => Err(ParseError::Schema),
        },
    }
}

/// The profiles that one request object asks for, in the order of its
/// constraint list.
pub open spec fn object_profiles(object: RequestObjectView) -> Seq<Seq<char>> {
    match object.data {
        Some(data) => data.map_values(|c: (Seq<char>, Seq<char>)| c.1),
        None => seq![],
    }
}

/// The profiles that a request asks for: those of its objects, one object
/// after the other.
pub open spec fn profiles_of(request: Seq<RequestObjectView>) -> Seq<Seq<char>>
    decreases request.len(),
{
    if request.len() == 0 {
        seq![]
    } else {
        profiles_of(request.drop_last()) + object_profiles(request.last())
    }
}

/// The profiles that a request text asks for.
pub open spec fn profiles_of_text(text: Seq<char>) -> Result<Seq<Seq<char>>, ParseError> {
    match request_of_text(text) {
        Ok(request) => Ok(profiles_of(request)),
        Err(e) => Err(e),
    }
}

fn decode_constraint(v: &serde_json::Value) -> (r: Option<ProfileData>)
    ensures
        r is Some <==> constraint_of(*v) is Some,
        r matches Some(c) ==> constraint_of(*v) == Some(c@),
{
    let entries = match members(v) {
        Some(entries) => entries,
        None => return None,
    };
    match required_string(&entries, "_profile") {
        Some(profile) => Some(ProfileData { _profile: profile }),
        None => None,
    }
}

fn decode_data(v: &serde_json::Value) -> (r: Option<Vec<(String, ProfileData)>>)
    ensures
        r is Some <==> data_of(*v) is Some,
        r matches Some(data) ==> data_of(*v) == Some(constraint_views(data@)),
        r matches Some(data) ==> distinct_resource_types(constraint_views(data@)),
{
    let entries = match members(v) {
        Some(entries) => entries,
        None => return None,
    };
    let mut data: Vec<(String, ProfileData)> = Vec::new();
    let mut i: usize = 0;
    while i < entries.len()
        invariant
            i <= entries.len(),
            data@.len() == i,
            members_of(*v) == Some(member_views(entries@)),
            forall|k: int|
                0 <= k < i ==> constraint_of(#[trigger] member_views(entries@)[k].1) == Some(
                    data@[k].1@,
                ),
            forall|k: int| 0 <= k < i ==> #[trigger] data@[k].0@ == member_views(entries@)[k].0,
        decreases entries.len() - i,
    {
        match decode_constraint(entries[i].1) {
            Some(constraint) => data.push((entries[i].0.clone(), constraint)),
            None => {
                assert(constraint_of(member_views(entries@)[i as int].1) is None);
                return None;
            },
        }
        i += 1;
    }
    assert(data_of(*v)->0 =~= constraint_views(data@));
    Some(data)
}

fn decode_optional_data(entries: &Members<'_>) -> (r: Option<Option<Vec<(String, ProfileData)>>>)
    ensures
        r is Some <==> optional_data(member_views(entries@)) is Some,
        r matches Some(Some(data)) ==> optional_data(member_views(entries@)) == Some(
            Some(constraint_views(data@)),
        ) && distinct_resource_types(constraint_views(data@)),
        r matches Some(None) ==> optional_data(member_views(entries@)) == Some(
            None::<Seq<(Seq<char>, Seq<char>)>>,
        ),
{
    match find(entries, "data") {
        None => Some(None),
        Some(v) => {
            if v.is_null() {
                Some(None)
            } else {
                match decode_data(v) {
                    Some(data) => Some(Some(data)),
                    None => None,
                }
            }
        },
    }
}

fn decode_request_object(v: &serde_json::Value) -> (r: Option<DigitalRequestObject>)
    ensures
        r is Some <==> request_object_of(*v) is Some,
        r matches Some(o) ==> request_object_of(*v) == Some(o@),
        r matches Some(o) ==> (o@.data matches Some(data) ==> distinct_resource_types(data)),
{
    let entries = match members(v) {
        Some(entries) => entries,
        None => return None,
    };
    let protocol = match optional_string(&entries, "protocol") {
        Some(protocol) => protocol,
        None => return None,
    };
    let data = match decode_optional_data(&entries) {
        Some(data) => data,
        None => return None,
    };
    Some(DigitalRequestObject { protocol, data })
}

/// Decodes a parsed JSON value as a request.
///
/// Succeeds exactly when the value is an object whose `requests` field is
/// an array of request objects; the objects keep the document's order.
pub fn decode_request(v: &serde_json::Value) -> (r: Result<DirectRequestPayload, ParseError>)
    ensures
        r is Ok <==> request_of(*v) is Some,
        r matches Ok(request) ==> request_of(*v) == Some(request@) && well_formed(request@),
        r matches Err(e) ==> e == ParseError::Schema,
{
    let entries = match members(v) {
        Some(entries) => entries,
        None => return Err(ParseError::Schema),
    };
    let items = match required_array(&entries, "requests") {
        Some(items) => items,
        None => return Err(ParseError::Schema),
    };
    let ghost f = |o: serde_json::Value| request_object_of(o);
    let mut requests: Vec<DigitalRequestObject> = Vec::new();
    let mut i: usize = 0;
    while i < items.len()
        invariant
            i <= items.len(),
            requests@.len() == i,
            f == (|o: serde_json::Value| request_object_of(o)),
            request_of(*v) == all_decoded(items@, f),
            forall|k: int| 0 <= k < i ==> #[trigger] f(items@[k]) == Some(requests@[k]@),
            well_formed(views(requests@)),
        decreases items.len() - i,
    {
        match decode_request_object(&items[i]) {
            Some(object) => {
                let ghost before = views(requests@);
                let ghost added = object@;
                requests.push(object);
                assert(views(requests@) =~= before.push(added));
            },
            None => {
                assert(f(items@[i as int]) is None);
                return Err(ParseError::Schema);
            },
        }
        i += 1;
    }
    assert(all_decoded(items@, f)->0 =~= views(requests@));
    Ok(DirectRequestPayload { requests })
}

/// Parses the text of a request document.
pub fn parse_request(text: &str) -> (r: Result<DirectRequestPayload, ParseError>)
    ensures
        r is Ok <==> request_of_text(text@) is Ok,
        r matches Ok(request) ==> request_of_text(text@) == Ok::<_, ParseError>(request@)
            && well_formed(request@),
        r matches Err(e) ==> request_of_text(text@) == Err::<Seq<RequestObjectView>, _>(e),
{
    match parse_value(text) {
        Ok(v) => decode_request(&v),
        Err(_) => Err(ParseError::Syntax),
    }
}

/// Flattens a request into the list of profile identifiers it asks for,
/// dropping the resource-type keys.
pub fn requested_profiles(request: &DirectRequestPayload) -> (profiles: Vec<String>)
    ensures
        texts(profiles@) == profiles_of(request@),
{
    let mut profiles: Vec<String> = Vec::new();
    let mut i: usize = 0;
    assert(request@.take(0) =~= Seq::empty());
    while i < request.requests.len()
        invariant
            i <= request.requests.len(),
            texts(profiles@) == profiles_of(request@.take(i as int)),
        decreases request.requests.len() - i,
    {
        let object = &request.requests[i];
        assert(request@.take(i + 1).drop_last() =~= request@.take(i as int));
        assert(request@.take(i + 1).last() == object@);
        match &object.data {
            Some(data) => {
                let ghost before = profiles@;
                let mut j: usize = 0;
                while j < data.len()
                    invariant
                        j <= data.len(),
                        texts(profiles@) == texts(before) + object_profiles(object@).take(
                            j as int,
                        ),
                        object@.data == Some(constraint_views(data@)),
                    decreases data.len() - j,
                {
                    let ghost sofar = profiles@;
                    profiles.push(data[j].1._profile.clone());
                    assert(object_profiles(object@)[j as int] == data@[j as int].1@);
                    assert(object_profiles(object@).take(j + 1) =~= object_profiles(
                        object@,
                    ).take(j as int).push(data@[j as int].1@));
                    assert(texts(profiles@) =~= texts(sofar).push(data@[j as int].1@));
                    j += 1;
                }
                assert(object_profiles(object@).take(j as int) =~= object_profiles(object@));
            },
            None => {
                assert(texts(profiles@) + object_profiles(object@) =~= texts(profiles@));
            },
        }
        i += 1;
    }
    assert(request@.take(i as int) =~= request@);
    profiles
}

/// Parses a request text and returns the profiles it asks for.
///
/// `Err(Syntax)` where the text is not JSON, `Err(Schema)` where the JSON
/// is not a request, else the profiles of every constraint of every request
/// object, in document order of the objects.
pub fn parse_requested_profiles(request_json_str: &str) -> (r: Result<Vec<String>, ParseError>)
    ensures
        r is Ok <==> profiles_of_text(request_json_str@) is Ok,
        r matches Ok(profiles) ==> profiles_of_text(request_json_str@) == Ok::<_, ParseError>(
            texts(profiles@),
        ),
        r matches Err(e) ==> profiles_of_text(request_json_str@) == Err::<Seq<Seq<char>>, _>(e),
{
    match parse_request(request_json_str) {
        Ok(request) => Ok(requested_profiles(&request)),
        Err(e) => Err(e),
    }
}

} // verus!
