//! The orchestrator: one invocation from the first question to the host to
//! the calls that present the matches.
//!
//! The library never calls the host. An invocation is a small state
//! machine instead: [`start`] names the first thing to ask, and [`step`]
//! takes the host's answer and names the next, until the run is over. The
//! run is linear and fails fast: request size, request bytes, manifest
//! size, manifest bytes. Whatever goes wrong on the way ends the run with
//! nothing presented.

use vstd::prelude::*;
use crate::json::ParseError;
use crate::manifest::{manifest_of_text, parse_manifest, EntryView, GlobalCredentialManifest};
use crate::matcher::{select, selection};
use crate::presenter::{
    encodable, present_calls, present_calls_are_encodable, presentation, presentation_of,
    HostCall, HostCallView,
};
use crate::request::{parse_requested_profiles, profiles_of_text};
use crate::transfer::{
    buffer_len, manifest_text, manifest_text_of, request_text, request_text_of, FetchError,
    SourceKind,
};
use crate::views::{bytes_view, texts, views};

verus! {

/// The calls that present a run of entries, one entry after the other.
pub open spec fn presented_entries(entries: Seq<EntryView>, icon: Option<Seq<u8>>) -> Seq<
    HostCallView,
>
    decreases entries.len(),
{
    if entries.len() == 0 {
        seq![]
    } else {
        presented_entries(entries.drop_last(), icon) + present_calls(
            presentation_of(entries.last(), icon),
        )
    }
}

/// The calls that present the matches of a manifest.
pub open spec fn presented_matches(
    profiles: Seq<Seq<char>>,
    manifest: Seq<EntryView>,
    icon: Option<Seq<u8>>,
) -> Seq<HostCallView> {
    presented_entries(selection(profiles, manifest), icon)
}

/// What processing a manifest text gives.
pub open spec fn processed(text: Seq<char>, profiles: Seq<Seq<char>>, icon: Option<Seq<u8>>)
    -> Result<Seq<HostCallView>, ParseError> {
    match manifest_of_text(text) {
        Ok(manifest) => Ok(presented_matches(profiles, manifest, icon)),
        Err(e) => Err(e),
    }
}

/// Every call that presents a run of entries meets the host's string
/// convention: no string holds a NUL, and no required string is empty.
pub proof fn presented_entries_are_encodable(entries: Seq<EntryView>, icon: Option<Seq<u8>>)
    ensures
        forall|i: int|
            0 <= i < presented_entries(entries, icon).len() ==> encodable(
                #[trigger] presented_entries(entries, icon)[i],
            ),
    decreases entries.len(),
{
    if entries.len() > 0 {
        presented_entries_are_encodable(entries.drop_last(), icon);
        present_calls_are_encodable(presentation_of(entries.last(), icon));
        let before = presented_entries(entries.drop_last(), icon);
        let last = present_calls(presentation_of(entries.last(), icon));
        let all = presented_entries(entries, icon);
        assert forall|i: int| 0 <= i < all.len() implies encodable(#[trigger] all[i]) by {
            if i < before.len() {
                assert(all[i] == before[i]);
            } else {
                assert(all[i] == last[i - before.len()]);
            }
        }
    }
}

/// Selects the matching entries of a manifest and lays out the calls that
/// present them, in the manifest's order.
pub fn present_matches<'a>(
    profiles_to_match: &[String],
    manifest: &GlobalCredentialManifest,
    icon: Option<&'a [u8]>,
) -> (calls: Vec<HostCall<'a>>)
    ensures
        views(calls@) == presented_matches(
            texts(profiles_to_match@),
            manifest@,
            bytes_view(icon),
        ),
{
    let selected = select(profiles_to_match, manifest);
    let ghost chosen = views(selected@);
    let mut calls: Vec<HostCall<'a>> = Vec::new();
    let mut i: usize = 0;
    assert(chosen.take(0) =~= Seq::<EntryView>::empty());
    while i < selected.len()
        invariant
            i <= selected.len(),
            chosen == views(selected@),
            views(calls@) == presented_entries(chosen.take(i as int), bytes_view(icon)),
        decreases selected.len() - i,
    {
        assert(chosen.take(i + 1).drop_last() =~= chosen.take(i as int));
        assert(chosen.take(i + 1).last() == selected@[i as int]@);
        let card = presentation(selected[i], icon);
        let mut more = card.present();
        let ghost before = calls@;
        let ghost added = more@;
        calls.append(&mut more);
        assert(views(calls@) =~= views(before) + views(added));
        i += 1;
    }
    assert(chosen.take(i as int) =~= chosen);
    calls
}

/// Parses a manifest text and lays out the calls that present its matches.
///
/// A text that is not a manifest gives the parse error and no call at all.
pub fn process_manifest_and_present_matches<'a>(
    manifest_json_str: &str,
    profiles_to_match: &[String],
    icon: Option<&'a [u8]>,
) -> (r: Result<Vec<HostCall<'a>>, ParseError>)
    ensures
        r is Ok <==> processed(manifest_json_str@, texts(profiles_to_match@), bytes_view(icon))
            is Ok,
        r matches Ok(calls) ==> processed(
            manifest_json_str@,
            texts(profiles_to_match@),
            bytes_view(icon),
        ) == Ok::<_, ParseError>(views(calls@)),
        r matches Err(e) ==> processed(
            manifest_json_str@,
            texts(profiles_to_match@),
            bytes_view(icon),
        ) == Err::<Seq<HostCallView>, _>(e),
{
    match parse_manifest(manifest_json_str) {
        Ok(manifest) => Ok(present_matches(profiles_to_match, &manifest, icon)),
        Err(e) => Err(e),
    }
}

/// Where an invocation stands: what the host was last asked for.
#[derive(Debug, Clone, PartialEq, Eq)]
pub enum Stage {
    /// The size of the request was asked for.
    RequestSize,
    /// The bytes of the request were asked for.
    RequestBytes,
    /// The size of the manifest was asked for. The request asks for
    /// `profiles`.
    ManifestSize { profiles: Vec<String> },
    /// The bytes of the manifest were asked for.
    ManifestBytes { profiles: Vec<String> },
    /// The run is over.
    Done,
}

/// The view of a [`Stage`]: each string as its sequence of characters,
/// each vector as a sequence.
pub enum StageView {
    RequestSize,
    RequestBytes,
    ManifestSize { profiles: Seq<Seq<char>> },
    ManifestBytes { profiles: Seq<Seq<char>> },
    Done,
}

impl View for Stage {
    type V = StageView;

    open spec fn view(&self) -> StageView {
        match *self {
            Stage::RequestSize => StageView::RequestSize,
            Stage::RequestBytes => StageView::RequestBytes,
            Stage::ManifestSize { profiles } => StageView::ManifestSize { profiles: texts(profiles@) },
            Stage::ManifestBytes { profiles } => StageView::ManifestBytes {
                profiles: texts(profiles@),
            },
            Stage::Done => StageView::Done,
        }
    }
}

/// An answer of the host.
#[derive(Debug, Clone, PartialEq, Eq)]
pub enum HostReply {
    /// The size it reported for the document asked about.
    Size(u32),
    /// The request buffer after the host filled it.
    RequestFilled { buffer: Vec<u8> },
    /// The manifest buffer after a read, with the number of bytes that the
    /// host reported as written.
    ManifestRead { buffer: Vec<u8>, written: usize },
}

/// The view of a [`HostReply`]: each string as its sequence of characters,
/// each vector as a sequence.
pub enum ReplyView {
    Size(u32),
    RequestFilled { buffer: Seq<u8> },
    ManifestRead { buffer: Seq<u8>, written: nat },
}

impl View for HostReply {
    type V = ReplyView;

    open spec fn view(&self) -> ReplyView {
        match *self {
            HostReply::Size(n) => ReplyView::Size(n),
            HostReply::RequestFilled { buffer } => ReplyView::RequestFilled { buffer: buffer@ },
            HostReply::ManifestRead { buffer, written } => ReplyView::ManifestRead {
                buffer: buffer@,
                written: written as nat,
            },
        }
    }
}

/// Why a run ended without presenting anything.
#[derive(Debug, Clone, Copy, PartialEq, Eq, Structural)]
pub enum Halt {
    /// A document could not be fetched.
    Fetch(FetchError),
    /// A document could not be parsed.
    Parse(ParseError),
    /// The request asks for no profile, so there is nothing to match.
    EmptyMatchSet,
    /// The answer does not belong to the question that was pending.
    UnexpectedReply,
}

/// What to do next.
#[derive(Debug, Clone, PartialEq, Eq)]
pub enum Action<'a> {
    /// Ask the host for the size of a document.
    QuerySize(SourceKind),
    /// Allocate `len` bytes and let the host fill them with the request.
    FillRequest { len: usize },
    /// Allocate `len` bytes and let the host read the manifest into them,
    /// starting at `offset` of the manifest.
    ReadManifest { offset: usize, len: usize },
    /// Make these calls, in order. The run is over.
    Present(Vec<HostCall<'a>>),
    /// Make no call. The run is over.
    Stop(Halt),
}

/// The view of an [`Action`]: each string as its sequence of characters,
/// each vector as a sequence.
pub enum ActionView {
    QuerySize(SourceKind),
    FillRequest { len: usize },
    ReadManifest { offset: usize, len: usize },
    Present(Seq<HostCallView>),
    Stop(Halt),
}

impl<'a> View for Action<'a> {
    type V = ActionView;

    open spec fn view(&self) -> ActionView {
        match *self {
            Action::QuerySize(kind) => ActionView::QuerySize(kind),
            Action::FillRequest { len } => ActionView::FillRequest { len },
            Action::ReadManifest { offset, len } => ActionView::ReadManifest { offset, len },
            Action::Present(calls) => ActionView::Present(views(calls@)),
            Action::Stop(halt) => ActionView::Stop(halt),
        }
    }
}

/// The end of a run that presents nothing.
pub open spec fn halted(why: Halt) -> (StageView, ActionView) {
    (StageView::Done, ActionView::Stop(why))
}

/// How a run begins: by asking for the size of the request.
pub open spec fn initial() -> (StageView, ActionView) {
    (StageView::RequestSize, ActionView::QuerySize(SourceKind::Request))
}

/// What follows a reported size, for the document that `then` reads.
pub open spec fn after_size(size: u32, then: (StageView, ActionView)) -> (StageView, ActionView) {
    if size == 0 {
        halted(Halt::Fetch(FetchError::EmptySource))
    } else {
        then
    }
}

/// What follows the fetch of the request.
pub open spec fn after_request(fetched: Result<Seq<char>, FetchError>) -> (StageView, ActionView) {
    match fetched {
        Err(e) => halted(Halt::Fetch(e)),
        Ok(text) => match profiles_of_text(text) {
            Err(e) => halted(Halt::Parse(e)),
            Ok(profiles) => if profiles.len() == 0 {
                halted(Halt::EmptyMatchSet)
            } else {
                (
                    StageView::ManifestSize { profiles },
                    ActionView::QuerySize(SourceKind::Manifest),
                )
            },
        },
    }
}

/// What follows the fetch of the manifest.
pub open spec fn after_manifest(
    fetched: Result<Seq<char>, FetchError>,
    profiles: Seq<Seq<char>>,
    icon: Option<Seq<u8>>,
) -> (StageView, ActionView) {
    match fetched {
        Err(e) => halted(Halt::Fetch(e)),
        Ok(text) => match processed(text, profiles, icon) {
            Err(e) => halted(Halt::Parse(e)),
            Ok(calls) => (StageView::Done, ActionView::Present(calls)),
        },
    }
}

/// The transition function: the stage and action that follow a stage and
/// the host's answer.
pub open spec fn next(stage: StageView, reply: ReplyView, icon: Option<Seq<u8>>) -> (
    StageView,
    ActionView,
) {
    match (stage, reply) {
        (StageView::RequestSize, ReplyView::Size(size)) => after_size(
            size,
            (StageView::RequestBytes, ActionView::FillRequest { len: size as usize }),
        ),
        (StageView::RequestBytes, ReplyView::RequestFilled { buffer }) => after_request(
            request_text_of(buffer),
        ),
        (StageView::ManifestSize { profiles }, ReplyView::Size(size)) => after_size(
            size,
            (
                StageView::ManifestBytes { profiles },
                ActionView::ReadManifest { offset: 0, len: size as usize },
            ),
        ),
        (
            StageView::ManifestBytes { profiles },
            ReplyView::ManifestRead { buffer, written },
        ) => after_manifest(manifest_text_of(buffer, written), profiles, icon),
        _ => halted(Halt::UnexpectedReply),
    }
}

/// Whether an answer reports a fetch that came to nothing: a size of zero,
/// or bytes that cannot be had as text.
pub open spec fn fetch_failed(reply: ReplyView) -> bool {
    match reply {
        ReplyView::Size(size) => size == 0,
        ReplyView::RequestFilled { buffer } => request_text_of(buffer) is Err,
        ReplyView::ManifestRead { buffer, written } => manifest_text_of(buffer, written) is Err,
    }
}

/// The calls that an action asks for.
pub open spec fn calls_of(action: ActionView) -> Seq<HostCallView> {
    match action {
        ActionView::Present(calls) => calls,
        _ => seq![],
    }
}

/// The stage reached from `stage` after the answers `replies`.
pub open spec fn stage_after(stage: StageView, replies: Seq<ReplyView>, icon: Option<Seq<u8>>)
    -> StageView
    decreases replies.len(),
{
    if replies.len() == 0 {
        stage
    } else {
        stage_after(next(stage, replies[0], icon).0, replies.drop_first(), icon)
    }
}

/// All the calls asked for on the way from `stage` through the answers
/// `replies`.
pub open spec fn run_calls(stage: StageView, replies: Seq<ReplyView>, icon: Option<Seq<u8>>)
    -> Seq<HostCallView>
    decreases replies.len(),
{
    if replies.len() == 0 {
        seq![]
    } else {
        let (then, action) = next(stage, replies[0], icon);
        calls_of(action) + run_calls(then, replies.drop_first(), icon)
    }
}

/// Once a run is over it stays over and asks for no further call.
pub proof fn done_is_final(replies: Seq<ReplyView>, icon: Option<Seq<u8>>)
    ensures
        stage_after(StageView::Done, replies, icon) == StageView::Done,
        run_calls(StageView::Done, replies, icon) == Seq::<HostCallView>::empty(),
    decreases replies.len(),
{
    if replies.len() > 0 {
        done_is_final(replies.drop_first(), icon);
    }
}

/// A failed fetch ends the run on the spot, with no call.
pub proof fn failed_fetch_halts(stage: StageView, reply: ReplyView, icon: Option<Seq<u8>>)
    requires
        fetch_failed(reply),
    ensures
        next(stage, reply, icon).0 == StageView::Done,
        next(stage, reply, icon).1 is Stop,
{
}

/// A run in which some fetch fails presents nothing at all: if the answer
/// at position `k` reports a failed fetch and the run was still going when
/// it came, then no call is asked for anywhere in the run, before or after.
pub proof fn failed_fetch_presents_nothing(
    stage: StageView,
    replies: Seq<ReplyView>,
    icon: Option<Seq<u8>>,
    k: int,
)
    requires
        0 <= k < replies.len(),
        fetch_failed(replies[k]),
        stage_after(stage, replies.take(k), icon) != StageView::Done,
    ensures
        run_calls(stage, replies, icon) == Seq::<HostCallView>::empty(),
    decreases replies.len(),
{
    let (then, action) = next(stage, replies[0], icon);
    let rest = replies.drop_first();
    if k == 0 {
        failed_fetch_halts(stage, replies[0], icon);
        done_is_final(rest, icon);
    } else {
        assert(replies.take(k).drop_first() =~= rest.take(k - 1));
        assert(replies.take(k)[0] == replies[0]);
        if then == StageView::Done {
            done_is_final(rest.take(k - 1), icon);
        }
        assert(rest[k - 1] == replies[k]);
        failed_fetch_presents_nothing(then, rest, icon, k - 1);
    }
}

/// Begins a run.
pub fn start() -> (r: (Stage, Action<'static>))
    ensures
        (r.0@, r.1@) == initial(),
{
    (Stage::RequestSize, Action::QuerySize(SourceKind::Request))
}

fn halt<'a>(why: Halt) -> (r: (Stage, Action<'a>))
    ensures
        (r.0@, r.1@) == halted(why),
{
    (Stage::Done, Action::Stop(why))
}

fn request_fetched<'a>(buffer: Vec<u8>) -> (r: (Stage, Action<'a>))
    ensures
        (r.0@, r.1@) == after_request(request_text_of(buffer@)),
{
    let text = match request_text(buffer) {
        Ok(text) => text,
        Err(e) => return halt(Halt::Fetch(e)),
    };
    let profiles = match parse_requested_profiles(text.as_str()) {
        Ok(profiles) => profiles,
        Err(e) => return halt(Halt::Parse(e)),
    };
    if profiles.len() == 0 {
        return halt(Halt::EmptyMatchSet);
    }
    (Stage::ManifestSize { profiles }, Action::QuerySize(SourceKind::Manifest))
}

fn manifest_fetched<'a>(
    buffer: Vec<u8>,
    written: usize,
    profiles: Vec<String>,
    icon: Option<&'a [u8]>,
) -> (r: (Stage, Action<'a>))
    ensures
        (r.0@, r.1@) == after_manifest(
            manifest_text_of(buffer@, written as nat),
            texts(profiles@),
            bytes_view(icon),
        ),
{
    let text = match manifest_text(buffer, written) {
        Ok(text) => text,
        Err(e) => return halt(Halt::Fetch(e)),
    };
    match process_manifest_and_present_matches(text.as_str(), profiles.as_slice(), icon) {
        Ok(calls) => (Stage::Done, Action::Present(calls)),
        Err(e) => halt(Halt::Parse(e)),
    }
}

/// Takes the host's answer and decides what comes next.
///
/// The result is the next stage and the action to perform before calling
/// `step` again with the host's answer to it. `Present` and `Stop` end the
/// run. `icon` is the icon that every presented entry is shown with.
///
/// A reported size of zero, a read of nothing, bytes that are not UTF-8,
/// a document that does not parse and a request without profiles each end
/// the run with `Stop` and the reason, as does an answer that does not
/// belong to the pending question.
pub fn step<'a>(stage: Stage, reply: HostReply, icon: Option<&'a [u8]>) -> (r: (Stage, Action<'a>))
    ensures
        (r.0@, r.1@) == next(stage@, reply@, bytes_view(icon)),
        fetch_failed(reply@) ==> r.0@ == StageView::Done && r.1@ is Stop,
        r.1@ is Present || r.1@ is Stop <==> r.0@ == StageView::Done,
        r.1@ matches ActionView::Present(calls) ==> forall|i: int|
            0 <= i < calls.len() ==> encodable(#[trigger] calls[i]),
{
    proof {
        if let StageView::ManifestBytes { profiles } = stage@ {
            if let ReplyView::ManifestRead { buffer, written } = reply@ {
                if let Ok(text) = manifest_text_of(buffer, written) {
                    if let Ok(manifest) = manifest_of_text(text) {
                        presented_entries_are_encodable(
                            selection(profiles, manifest),
                            bytes_view(icon),
                        );
                    }
                }
            }
        }
    }
    match (stage, reply) {
        (Stage::RequestSize, HostReply::Size(size)) => match buffer_len(size) {
            Ok(len) => (Stage::RequestBytes, Action::FillRequest { len }),
            Err(e) => halt(Halt::Fetch(e)),
        },
        (Stage::RequestBytes, HostReply::RequestFilled { buffer }) => request_fetched(buffer),
        (Stage::ManifestSize { profiles }, HostReply::Size(size)) => match buffer_len(size) {
            Ok(len) => (Stage::ManifestBytes { profiles }, Action::ReadManifest { offset: 0, len }),
            Err(e) => halt(Halt::Fetch(e)),
        },
        (Stage::ManifestBytes { profiles }, HostReply::ManifestRead { buffer, written }) => {
            manifest_fetched(buffer, written, profiles, icon)
        },
        _ => halt(Halt::UnexpectedReply),
    }
}

} // verus!
