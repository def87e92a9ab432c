//! What passes between a session and its driver: the session hands out an
//! [`Action`], the driver carries it out and answers with an [`Event`].

use vstd::prelude::*;
use vstd::string::*;

use crate::ticket::{ContentFormat, Ticket, TicketView};

verus! {

/// The window, in seconds, within which a download must be established and
/// finalized, counted from the start of the request.
pub const DOWNLOAD_TIMEOUT_SECS: u64 = 5;

/// What the content store reports of an ingested or retrieved blob.
#[derive(Clone, Copy, Debug, PartialEq, Eq)]
pub struct TransferOutcome {
    pub hash: [u8; 32],
    pub format: ContentFormat,
    pub size: u64,
}

/// The mathematical value of a [`TransferOutcome`].
pub struct TransferOutcomeView {
    pub hash: Seq<u8>,
    pub format: ContentFormat,
    pub size: u64,
}

impl View for TransferOutcome {
    type V = TransferOutcomeView;

    open spec fn view(&self) -> TransferOutcomeView {
        TransferOutcomeView { hash: self.hash@, format: self.format, size: self.size }
    }
}

/// How a file is to be taken into the content store.
#[derive(Clone, Debug, PartialEq, Eq)]
pub struct IngestRequest {
    /// The file to take in; the driver resolves it to its canonical form.
    pub path: String,
    /// Take the file in whole, where it lies.
    pub in_place: bool,
    /// Let the store pick the tag.
    pub auto_tag: bool,
    /// Wrap the file in a directory entry of its own.
    pub wrap: bool,
}

/// The mathematical value of an [`IngestRequest`].
pub struct IngestRequestView {
    pub path: Seq<char>,
    pub in_place: bool,
    pub auto_tag: bool,
    pub wrap: bool,
}

impl View for IngestRequest {
    type V = IngestRequestView;

    open spec fn view(&self) -> IngestRequestView {
        IngestRequestView {
            path: self.path@,
            in_place: self.in_place,
            auto_tag: self.auto_tag,
            wrap: self.wrap,
        }
    }
}

/// What the driver reports back.
///
/// An action that yields nothing of its own counts as carried out on every
/// event that reports no failure. An action that yields something (the
/// node's identity, the outcome of an ingest) counts as failed on every event
/// that does not bring it.
#[derive(Clone, Debug)]
pub enum Event {
    /// Opens a flow; answers no action.
    Begin,
    /// The action was carried out.
    Done,
    /// The endpoint is bound; this is the node's identity.
    Bound([u8; 32]),
    /// The file is in the content store.
    Ingested(TransferOutcome),
    /// The window of the action ran out.
    TimedOut,
    /// The path could not be resolved; the text is the system's.
    Missing(String),
    /// The action failed; the text is the collaborator's or the system's.
    Failed(String),
}

/// The mathematical value of an [`Event`].
pub enum EventView {
    Begin,
    Done,
    Bound(Seq<u8>),
    Ingested(TransferOutcomeView),
    TimedOut,
    Missing(Seq<char>),
    Failed(Seq<char>),
}

impl View for Event {
    type V = EventView;

    open spec fn view(&self) -> EventView {
        match self {
            Event::Begin => EventView::Begin,
            Event::Done => EventView::Done,
            Event::Bound(id) => EventView::Bound(id@),
            Event::Ingested(outcome) => EventView::Ingested(outcome@),
            Event::TimedOut => EventView::TimedOut,
            Event::Missing(detail) => EventView::Missing(detail@),
            Event::Failed(detail) => EventView::Failed(detail@),
        }
    }
}

/// What the driver is to do next.
#[derive(Clone, Debug)]
pub enum Action {
    /// Create the network endpoint, with discovery by identity switched on.
    BindEndpoint,
    /// Create the content store, in memory, bound to the endpoint.
    BuildStore,
    /// Start the router that hands inbound blob-exchange connections to the
    /// content store.
    SpawnRouter,
    /// Stop the router.
    ShutdownRouter,
    /// Release the content store's worker pool.
    ShutdownPool,
    /// Write the text, and a line break, to the output stream.
    Print(String),
    /// Take the source file into the content store.
    Ingest(IngestRequest),
    /// Fetch the ticket's content from the ticket's peer, giving up after
    /// `timeout_secs` seconds.
    Download { ticket: Ticket, timeout_secs: u64 },
    /// Create the destination file; it must not exist yet.
    CreateDestination(String),
    /// Read the content of the hash from the store, from `offset` to the end.
    ReadContent { hash: [u8; 32], offset: u64 },
    /// Write what was read to the destination file.
    WriteContent,
    /// Wait, without limit, for the operator's interrupt.
    AwaitInterrupt,
    /// Nothing is left to do in this flow.
    Finished,
}

/// The mathematical value of an [`Action`].
pub enum ActionView {
    BindEndpoint,
    BuildStore,
    SpawnRouter,
    ShutdownRouter,
    ShutdownPool,
    Print(Seq<char>),
    Ingest(IngestRequestView),
    Download { ticket: TicketView, timeout_secs: u64 },
    CreateDestination(Seq<char>),
    ReadContent { hash: Seq<u8>, offset: u64 },
    WriteContent,
    AwaitInterrupt,
    Finished,
}

impl View for Action {
    type V = ActionView;

    open spec fn view(&self) -> ActionView {
        match self {
            Action::BindEndpoint => ActionView::BindEndpoint,
            Action::BuildStore => ActionView::BuildStore,
            Action::SpawnRouter => ActionView::SpawnRouter,
            Action::ShutdownRouter => ActionView::ShutdownRouter,
            Action::ShutdownPool => ActionView::ShutdownPool,
            Action::Print(text) => ActionView::Print(text@),
            Action::Ingest(request) => ActionView::Ingest(request@),
            Action::Download { ticket, timeout_secs } => ActionView::Download {
                ticket: ticket@,
                timeout_secs: *timeout_secs,
            },
            Action::CreateDestination(path) => ActionView::CreateDestination(path@),
            Action::ReadContent { hash, offset } => ActionView::ReadContent {
                hash: hash@,
                offset: *offset,
            },
            Action::WriteContent => ActionView::WriteContent,
            Action::AwaitInterrupt => ActionView::AwaitInterrupt,
            Action::Finished => ActionView::Finished,
        }
    }
}

/// The text used where an action ran out of time and the event says no more.
pub open spec fn timed_out_text() -> Seq<char> {
    "The operation timed out."@
}

/// The text used where an event does not answer the action it follows.
pub open spec fn unanswered_text() -> Seq<char> {
    "The action was not answered."@
}

/// The text of the failure that an event reports, if it reports one.
pub open spec fn failure_text(event: EventView) -> Option<Seq<char>> {
    match event {
        EventView::Failed(detail) => Some(detail),
        EventView::Missing(detail) => Some(detail),
        EventView::TimedOut => Some(timed_out_text()),
        _ => None,
    }
}

/// The text of the failure that an event reports, or the text for an event
/// that does not answer.
pub open spec fn failure_or_unanswered(event: EventView) -> Seq<char> {
    match failure_text(event) {
        Some(detail) => detail,
        None => unanswered_text(),
    }
}

impl Event {
    /// The text of the failure that this event reports, if it reports one.
    /// What the driver reported is handed on unchanged.
    pub fn failure(&self) -> (res: Option<String>)
        ensures
            crate::ticket::text_option_view(res) == failure_text(self@),
    {
        match self {
            Event::Failed(detail) => Some(detail.clone()),
            Event::Missing(detail) => Some(detail.clone()),
            Event::TimedOut => Some(String::from_str("The operation timed out.")),
            _ => None,
        }
    }

    /// The text of the failure that this event reports, or the text for an
    /// event that does not answer.
    pub fn failure_or_unanswered(&self) -> (res: String)
        ensures
            res@ == failure_or_unanswered(self@),
    {
        match self.failure() {
            Some(detail) => detail,
            None => String::from_str("The action was not answered."),
        }
    }
}

} // verus!
