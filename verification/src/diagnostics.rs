//! A diagnostic card: presents free-form detail lines through the same
//! calls as a credential, so that a problem can be shown where the user
//! would have seen the matches.

use vstd::prelude::*;
use crate::presenter::{
    correlation, correlation_payload, present_calls, CredentialAttribute,
    CredentialAttributeView, CredentialPresentation, HostCall, PresentationView,
};
use crate::text::{alphanumeric, concat2, decimal, decimal_digits, uppercase};
use crate::views::{texts, views};

verus! {

/// Whether a character is kept in a card identifier: letters, digits and
/// the underscore.
pub open spec fn kept_in_identifier(c: char) -> bool {
    alphanumeric(c) || c == '_'
}

/// The characters of a context description that go into the card
/// identifier: every space becomes an underscore, then whatever is not
/// kept is dropped.
pub open spec fn identifier_chars(context: Seq<char>) -> Seq<char>
    decreases context.len(),
{
    if context.len() == 0 {
        seq![]
    } else {
        let before = identifier_chars(context.drop_last());
        let c = if context.last() == ' ' {
            '_'
        } else {
            context.last()
        };
        if kept_in_identifier(c) {
            before.push(c)
        } else {
            before
        }
    }
}

/// The identifier of the card for a context description.
pub open spec fn card_identifier(context: Seq<char>) -> Seq<char> {
    "DEBUG_ID_"@ + uppercase(identifier_chars(context))
}

/// The lines that the card shows: those given, or one stand-in line where
/// none is given.
pub open spec fn shown_details(details: Seq<Seq<char>>) -> Seq<Seq<char>> {
    if details.len() == 0 {
        seq!["(No specific details provided)"@]
    } else {
        details
    }
}

/// The attribute that shows the detail line at a position, counted from 0.
pub open spec fn detail_attribute(position: int, detail: Seq<char>) -> CredentialAttributeView {
    CredentialAttributeView {
        display_name: "Detail "@ + decimal_digits((position + 1) as nat),
        value: Some(detail),
    }
}

/// The diagnostic card for a context description and its detail lines.
pub open spec fn debug_card(context: Seq<char>, details: Seq<Seq<char>>) -> PresentationView {
    PresentationView {
        cred_id_json: correlation_payload(card_identifier(context)),
        title: "Debug Info: "@ + context,
        subtitle: "Matcher diagnostic information"@,
        icon_data: None,
        disclaimer: None,
        warning: None,
        attributes: Seq::new(
            shown_details(details).len(),
            |i: int| detail_attribute(i, shown_details(details)[i]),
        ),
    }
}

/// Computes the identifier of the card for a context description.
pub fn debug_card_identifier(context_description: &str) -> (id: String)
    ensures
        id@ == card_identifier(context_description@),
{
    let mut kept = String::new();
    assert(context_description@.take(0) =~= Seq::<char>::empty());
    for c in it: context_description.chars()
        invariant
            it.seq() == context_description@,
            kept@ == identifier_chars(context_description@.take(it.index() as int)),
    {
        let ghost n = it.index() as int;
        assert(context_description@.take(n + 1).drop_last() =~= context_description@.take(n));
        assert(context_description@.take(n + 1).last() == c);
        let mapped = if c == ' ' {
            '_'
        } else {
            c
        };
        if mapped.is_alphanumeric() || mapped == '_' {
            kept.push(mapped);
        }
    }
    assert(context_description@.take(context_description@.len() as int)
        =~= context_description@);
    let upper = kept.as_str().to_uppercase();
    concat2("DEBUG_ID_", upper.as_str())
}

/// Builds the diagnostic card.
pub fn debug_info_card(context_description: &str, details: Vec<String>) -> (card:
    CredentialPresentation<'static>)
    ensures
        card@ == debug_card(context_description@, texts(details@)),
{
    let mut final_details = details;
    if final_details.len() == 0 {
        final_details.push("(No specific details provided)".to_owned());
    }
    assert(texts(final_details@) =~= shown_details(texts(details@)));
    let mut attributes: Vec<CredentialAttribute> = Vec::new();
    let mut i: usize = 0;
    while i < final_details.len()
        invariant
            i <= final_details.len(),
            attributes@.len() == i,
            forall|k: int|
                0 <= k < i ==> (#[trigger] attributes@[k])@ == detail_attribute(
                    k,
                    final_details@[k]@,
                ),
        decreases final_details.len() - i,
    {
        let number = decimal(i + 1);
        attributes.push(
            CredentialAttribute {
                display_name: concat2("Detail ", number.as_str()),
                value: Some(final_details[i].clone()),
            },
        );
        i += 1;
    }
    let identifier = debug_card_identifier(context_description);
    let card = CredentialPresentation {
        cred_id_json: correlation(identifier.as_str()),
        title: concat2("Debug Info: ", context_description),
        subtitle: "Matcher diagnostic information".to_owned(),
        icon_data: None,
        disclaimer: None,
        warning: None,
        attributes,
    };
    assert(card@.attributes =~= debug_card(context_description@, texts(details@)).attributes);
    card
}

/// Lays out the host calls that present a diagnostic card.
///
/// The card is titled after the context description and shows each detail
/// line as one numbered attribute, counted from 1; with no detail line it
/// shows a single stand-in line. The calls are those of presenting that
/// card like any other record.
pub fn present_debug_info_card(context_description: &str, details: Vec<String>) -> (calls: Vec<
    HostCall<'static>,
>)
    ensures
        views(calls@) == present_calls(debug_card(context_description@, texts(details@))),
{
    let card = debug_info_card(context_description, details);
    card.present()
}

} // verus!
