//! The matcher: selects the manifest entries whose tags meet the requested
//! profiles.
//!
//! A tag meets a profile when the two strings are equal, character for
//! character. An entry is selected when at least one of its tags meets at
//! least one requested profile. The selection keeps the manifest's order.

use vstd::prelude::*;
use crate::manifest::{EntryView, GlobalCredentialManifest, ManifestCredentialEntry};
use crate::text::same_text;
use crate::views::{texts, views};

verus! {

/// Whether some tag is among the requested profiles.
pub open spec fn entry_matches(profiles: Seq<Seq<char>>, tags: Seq<Seq<char>>) -> bool {
    exists|i: int| 0 <= i < tags.len() && profiles.contains(#[trigger] tags[i])
}

/// The positions of the matching entries, in increasing order.
pub open spec fn matching_indices(profiles: Seq<Seq<char>>, entries: Seq<EntryView>) -> Seq<int>
    decreases entries.len(),
{
    if entries.len() == 0 {
        seq![]
    } else {
        let before = matching_indices(profiles, entries.drop_last());
        if entry_matches(profiles, entries.last().tags) {
            before.push(entries.len() - 1)
        } else {
            before
        }
    }
}

/// The matching entries, in the manifest's order.
pub open spec fn selection(profiles: Seq<Seq<char>>, entries: Seq<EntryView>) -> Seq<EntryView> {
    matching_indices(profiles, entries).map_values(|i: int| entries[i])
}

/// The selection is an order-preserving choice of exactly the matching
/// entries: the chosen positions lie in the manifest, they increase
/// strictly, and a position is chosen if and only if the entry there has a
/// tag among the requested profiles.
pub proof fn selection_is_ordered_and_exact(profiles: Seq<Seq<char>>, entries: Seq<EntryView>)
    ensures
        forall|k: int|
            0 <= k < matching_indices(profiles, entries).len() ==> 0 <= (
            #[trigger] matching_indices(profiles, entries)[k]) < entries.len(),
        forall|k: int, l: int|
            0 <= k < l < matching_indices(profiles, entries).len() ==> matching_indices(
                profiles,
                entries,
            )[k] < matching_indices(profiles, entries)[l],
        forall|j: int|
            0 <= j < entries.len() ==> (matching_indices(profiles, entries).contains(j)
                <==> entry_matches(profiles, (#[trigger] entries[j]).tags)),
        selection(profiles, entries).len() <= entries.len(),
    decreases entries.len(),
{
    if entries.len() > 0 {
        let shorter = entries.drop_last();
        let before = matching_indices(profiles, shorter);
        let all = matching_indices(profiles, entries);
        let last = entries.len() - 1;
        selection_is_ordered_and_exact(profiles, shorter);
        assert forall|j: int| 0 <= j < entries.len() implies (all.contains(j) <==> entry_matches(
            profiles,
            (#[trigger] entries[j]).tags,
        )) by {
            if j < last {
                assert(shorter[j] == entries[j]);
                if before.contains(j) {
                    let k = choose|k: int| 0 <= k < before.len() && before[k] == j;
                    assert(all[k] == j);
                }
                if all.contains(j) {
                    let k = choose|k: int| 0 <= k < all.len() && all[k] == j;
                    if k < before.len() {
                        assert(before[k] == j);
                    }
                }
            } else {
                if entry_matches(profiles, entries.last().tags) {
                    assert(all[before.len() as int] == last);
                }
                if all.contains(j) {
                    let k = choose|k: int| 0 <= k < all.len() && all[k] == j;
                    if k < before.len() {
                        assert(before[k] < shorter.len());
                    }
                }
            }
        }
    }
}

/// With no profile requested, nothing is selected.
pub proof fn empty_request_selects_nothing(entries: Seq<EntryView>)
    ensures
        selection(Seq::<Seq<char>>::empty(), entries) == Seq::<EntryView>::empty(),
    decreases entries.len(),
{
    let none = Seq::<Seq<char>>::empty();
    if entries.len() > 0 {
        empty_request_selects_nothing(entries.drop_last());
        assert(matching_indices(none, entries.drop_last()).len() == selection(
            none,
            entries.drop_last(),
        ).len());
        assert(!entry_matches(none, entries.last().tags));
    }
    assert(selection(none, entries) =~= Seq::<EntryView>::empty());
}

/// The selection depends on which profiles are requested, not on the order
/// in which they are listed nor on how often one is repeated.
pub proof fn selection_ignores_profile_order(
    p: Seq<Seq<char>>,
    q: Seq<Seq<char>>,
    entries: Seq<EntryView>,
)
    requires
        forall|t: Seq<char>| p.contains(t) <==> q.contains(t),
    ensures
        matching_indices(p, entries) == matching_indices(q, entries),
        selection(p, entries) == selection(q, entries),
    decreases entries.len(),
{
    if entries.len() > 0 {
        selection_ignores_profile_order(p, q, entries.drop_last());
        let tags = entries.last().tags;
        assert(entry_matches(p, tags) == entry_matches(q, tags)) by {
            if entry_matches(p, tags) {
                let i = choose|i: int| 0 <= i < tags.len() && p.contains(#[trigger] tags[i]);
                assert(q.contains(tags[i]));
            }
            if entry_matches(q, tags) {
                let i = choose|i: int| 0 <= i < tags.len() && q.contains(#[trigger] tags[i]);
                assert(p.contains(tags[i]));
            }
        }
    }
}

/// Whether an entry matches depends on which tags it has, not on their
/// order nor on how often one is repeated.
pub proof fn matching_ignores_tag_repetition(
    profiles: Seq<Seq<char>>,
    t: Seq<Seq<char>>,
    u: Seq<Seq<char>>,
)
    requires
        forall|x: Seq<char>| t.contains(x) <==> u.contains(x),
    ensures
        entry_matches(profiles, t) == entry_matches(profiles, u),
{
    if entry_matches(profiles, t) {
        let i = choose|i: int| 0 <= i < t.len() && profiles.contains(#[trigger] t[i]);
        assert(t.contains(t[i]));
        let j = choose|j: int| 0 <= j < u.len() && u[j] == t[i];
        assert(profiles.contains(u[j]));
    }
    if entry_matches(profiles, u) {
        let i = choose|i: int| 0 <= i < u.len() && profiles.contains(#[trigger] u[i]);
        assert(u.contains(u[i]));
        let j = choose|j: int| 0 <= j < t.len() && t[j] == u[i];
        assert(profiles.contains(t[j]));
    }
}

/// Whether a tag is one of the requested profiles.
pub fn is_requested(requested_profiles: &[String], tag: &str) -> (b: bool)
    ensures
        b == texts(requested_profiles@).contains(tag@),
{
    let mut i: usize = 0;
    while i < requested_profiles.len()
        invariant
            i <= requested_profiles.len(),
            forall|k: int| 0 <= k < i ==> texts(requested_profiles@)[k] != tag@,
        decreases requested_profiles.len() - i,
    {
        if same_text(requested_profiles[i].as_str(), tag) {
            assert(texts(requested_profiles@)[i as int] == tag@);
            return true;
        }
        i += 1;
    }
    false
}

/// Whether an entry has a tag among the requested profiles.
pub fn has_requested_tag(requested_profiles: &[String], entry: &ManifestCredentialEntry) -> (b: bool)
    ensures
        b == entry_matches(texts(requested_profiles@), entry@.tags),
{
    let mut i: usize = 0;
    while i < entry.tags.len()
        invariant
            i <= entry.tags.len(),
            forall|k: int|
                0 <= k < i ==> !texts(requested_profiles@).contains(#[trigger] entry@.tags[k]),
        decreases entry.tags.len() - i,
    {
        if is_requested(requested_profiles, entry.tags[i].as_str()) {
            assert(texts(requested_profiles@).contains(entry@.tags[i as int]));
            return true;
        }
        i += 1;
    }
    false
}

/// Selects the entries of the manifest that match the requested profiles.
///
/// The result borrows the selected entries from the manifest, in the
/// manifest's order, each matching entry once. With no profile requested
/// the result is empty.
pub fn select<'a>(requested_profiles: &[String], manifest: &'a GlobalCredentialManifest) -> (selected:
    Vec<&'a ManifestCredentialEntry>)
    ensures
        views(selected@) == selection(texts(requested_profiles@), manifest@),
        selected@.len() == matching_indices(texts(requested_profiles@), manifest@).len(),
        forall|k: int|
            0 <= k < selected@.len() ==> *(#[trigger] selected@[k]) == manifest.credentials@[matching_indices(
                texts(requested_profiles@),
                manifest@,
            )[k]],
        requested_profiles@.len() == 0 ==> selected@.len() == 0,
{
    let ghost profiles = texts(requested_profiles@);
    let mut selected: Vec<&'a ManifestCredentialEntry> = Vec::new();
    if requested_profiles.len() == 0 {
        proof {
            assert(profiles =~= Seq::<Seq<char>>::empty());
            empty_request_selects_nothing(manifest@);
            assert(matching_indices(profiles, manifest@).len() == selection(
                profiles,
                manifest@,
            ).len());
            assert(views(selected@) =~= selection(profiles, manifest@));
        }
        return selected;
    }
    let mut i: usize = 0;
    let ghost mut chosen = Seq::<int>::empty();
    assert(manifest@.take(0) =~= Seq::<EntryView>::empty());
    while i < manifest.credentials.len()
        invariant
            i <= manifest.credentials.len(),
            profiles == texts(requested_profiles@),
            chosen == matching_indices(profiles, manifest@.take(i as int)),
            selected@.len() == chosen.len(),
            forall|k: int| 0 <= k < chosen.len() ==> 0 <= #[trigger] chosen[k] < i,
            forall|k: int|
                0 <= k < selected@.len() ==> *(#[trigger] selected@[k])
                    == manifest.credentials@[chosen[k]],
        decreases manifest.credentials.len() - i,
    {
        let entry = &manifest.credentials[i];
        assert(manifest@.take(i + 1).drop_last() =~= manifest@.take(i as int));
        assert(manifest@.take(i + 1).last() == entry@);
        if has_requested_tag(requested_profiles, entry) {
            selected.push(entry);
            proof {
                chosen = chosen.push(i as int);
            }
        }
        i += 1;
    }
    assert(manifest@.take(i as int) =~= manifest@);
    assert(views(selected@) =~= selection(profiles, manifest@));
    selected
}

} // verus!
