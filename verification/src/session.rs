//! The session: one run of the tool, in exactly one of the two modes, on a
//! host that is brought up before it and torn down after it.
//!
//! The session decides; the driver acts. Each step function takes the
//! driver's answer to the action handed out before, moves the session on and
//! hands out the next action.

use vstd::prelude::*;

use crate::args::{config_fault, Args, ArgsView};
use crate::error::{timeout_text, SessionError, SessionErrorView};
use crate::host::{error_option_view, HostPhase, HostView, IrohData};
use crate::protocol::{
    failure_or_unanswered, failure_text, Action, ActionView, Event, EventView, IngestRequest,
    IngestRequestView, TransferOutcomeView, DOWNLOAD_TIMEOUT_SECS,
};
use crate::report::{
    finished, finished_text, no_identity, no_identity_text, offer, offer_text, starting,
    starting_text,
};
use crate::ticket::{
    decode, decode_spec, encode, encode_spec, text_option_view, ticket_option_view, PeerAddress,
    PeerAddressView, Ticket, TicketView,
};

verus! {

/// Where the transfer stands.
#[derive(Debug)]
pub enum Stage {
    /// Not begun.
    Ready,
    /// Receiving: the start of the download is being announced.
    Announcing,
    /// Receiving: the ticket is read, the download is under way.
    Downloading(Ticket),
    /// Receiving: the download ran out of time, the guidance is being shown.
    Warning,
    /// Receiving: the content of this hash is here, the destination is being
    /// created.
    Creating([u8; 32]),
    /// Receiving: the content of this hash is being read from the store.
    Reading([u8; 32]),
    /// Receiving: the content is being written to the destination.
    Storing,
    /// Receiving: the end of the download is being announced.
    Concluding,
    /// Sending: the source file is being taken into the store.
    Ingesting,
    /// Sending: the ticket is minted and is being shown.
    Publishing,
    /// Sending: the file is on offer until the operator interrupts.
    Serving,
    /// The transfer went through.
    Completed,
    /// The transfer failed.
    Failed(SessionError),
}

/// The mathematical value of a [`Stage`].
pub enum StageView {
    Ready,
    Announcing,
    Downloading(TicketView),
    Warning,
    Creating(Seq<u8>),
    Reading(Seq<u8>),
    Storing,
    Concluding,
    Ingesting,
    Publishing,
    Serving,
    Completed,
    Failed(SessionErrorView),
}

impl View for Stage {
    type V = StageView;

    open spec fn view(&self) -> StageView {
        match self {
            Stage::Ready => StageView::Ready,
            Stage::Announcing => StageView::Announcing,
            Stage::Downloading(ticket) => StageView::Downloading(ticket@),
            Stage::Warning => StageView::Warning,
            Stage::Creating(hash) => StageView::Creating(hash@),
            Stage::Reading(hash) => StageView::Reading(hash@),
            Stage::Storing => StageView::Storing,
            Stage::Concluding => StageView::Concluding,
            Stage::Ingesting => StageView::Ingesting,
            Stage::Publishing => StageView::Publishing,
            Stage::Serving => StageView::Serving,
            Stage::Completed => StageView::Completed,
            Stage::Failed(error) => StageView::Failed(error@),
        }
    }
}

impl Clone for Stage {
    /// A copy of this stage.
    fn clone(&self) -> (res: Stage)
        ensures
            res@ == self@,
    {
        match self {
            Stage::Ready => Stage::Ready,
            Stage::Announcing => Stage::Announcing,
            Stage::Downloading(ticket) => Stage::Downloading(ticket.clone()),
            Stage::Warning => Stage::Warning,
            Stage::Creating(hash) => Stage::Creating(*hash),
            Stage::Reading(hash) => Stage::Reading(*hash),
            Stage::Storing => Stage::Storing,
            Stage::Concluding => Stage::Concluding,
            Stage::Ingesting => Stage::Ingesting,
            Stage::Publishing => Stage::Publishing,
            Stage::Serving => Stage::Serving,
            Stage::Completed => Stage::Completed,
            Stage::Failed(error) => Stage::Failed(error.clone()),
        }
    }
}

/// How a run ended: what the transfer failed with, and what the host failed
/// with. Neither hides the other.
#[derive(Debug, PartialEq, Eq)]
pub struct Outcome {
    pub session: Option<SessionError>,
    pub host: Option<SessionError>,
}

/// The mathematical value of an [`Outcome`].
pub struct OutcomeView {
    pub session: Option<SessionErrorView>,
    pub host: Option<SessionErrorView>,
}

impl View for Outcome {
    type V = OutcomeView;

    open spec fn view(&self) -> OutcomeView {
        OutcomeView { session: error_option_view(self.session), host: error_option_view(self.host) }
    }
}

impl Outcome {
    /// Whether neither the transfer nor the host failed.
    pub fn is_success(&self) -> (res: bool)
        ensures
            res == (self@.session is None && self@.host is None),
    {
        self.session.is_none() && self.host.is_none()
    }
}

/// One run of the tool.
pub struct App {
    pub args: Args,
    pub iroh_data: IrohData,
    /// Whether the output stream is a terminal.
    pub is_interactive: bool,
    pub stage: Stage,
    /// The texts handed out for the output stream so far, in order.
    pub printed: Ghost<Seq<Seq<char>>>,
}

/// The mathematical value of an [`App`].
pub struct AppView {
    pub args: ArgsView,
    pub host: HostView,
    pub is_interactive: bool,
    pub stage: StageView,
    pub printed: Seq<Seq<char>>,
}

impl View for App {
    type V = AppView;

    open spec fn view(&self) -> AppView {
        AppView {
            args: self.args@,
            host: self.iroh_data@,
            is_interactive: self.is_interactive,
            stage: self.stage@,
            printed: self.printed@,
        }
    }
}

/// The stage after an action without a result of its own: failed with what
/// the event reports, if it reports a failure, else `next`.
pub open spec fn after_failure(event: EventView, next: StageView) -> StageView {
    match failure_text(event) {
        Some(detail) => StageView::Failed(SessionErrorView::Io(detail)),
        None => next,
    }
}

/// The ticket that a sender mints: its own identity, with no further
/// addresses, and the hash and format that the store reported.
pub open spec fn minted(node_id: Seq<u8>, outcome: TransferOutcomeView) -> TicketView {
    TicketView {
        peer_address: PeerAddressView {
            node_id,
            relay_url: None,
            direct_addresses: Set::empty(),
        },
        content_hash: outcome.hash,
        content_format: outcome.format,
    }
}

/// The texts handed out once `action` is handed out too.
pub open spec fn logged(printed: Seq<Seq<char>>, action: ActionView) -> Seq<Seq<char>> {
    match action {
        ActionView::Print(text) => printed.push(text),
        _ => printed,
    }
}

/// How the source file is taken in: whole and in place, with a tag of the
/// store's choosing, without a wrapping directory.
pub open spec fn ingest_request(path: Seq<char>) -> IngestRequestView {
    IngestRequestView { path, in_place: true, auto_tag: true, wrap: false }
}

impl AppView {
    /// The run that has not begun: nothing started, nothing shown.
    pub open spec fn fresh(args: ArgsView, is_interactive: bool) -> AppView {
        AppView {
            args,
            host: HostView { phase: HostPhase::Down, node_id: None, fault: None },
            is_interactive,
            stage: StageView::Ready,
            printed: Seq::empty(),
        }
    }

    /// Whether the transfer is over, either way.
    pub open spec fn over(self) -> bool {
        self.stage is Completed || self.stage is Failed
    }

    /// Whether the receive flow has a say: the mode is receive and the host
    /// is up.
    pub open spec fn receiving(self) -> bool {
        self.args.receive && self.host.phase == HostPhase::Up
    }

    /// Whether the send flow has a say: the mode is send and the host is up.
    pub open spec fn sending(self) -> bool {
        self.args.send && self.host.phase == HostPhase::Up
    }

    /// What the codec reads from the configuration's ticket at the point
    /// where the receive flow needs it: once the download is announced.
    pub open spec fn ticket_read(self, event: EventView) -> Option<TicketView> {
        if self.receiving() && self.stage is Announcing && failure_text(event) is None {
            decode_spec(self.args.ticket_text())
        } else {
            None
        }
    }

    /// The stage that the receive flow moves to on an event, where `read` is
    /// what the codec read from the configuration's ticket.
    pub open spec fn receive_stage(self, event: EventView, read: Option<TicketView>) -> StageView {
        match self.stage {
            StageView::Ready => StageView::Announcing,
            StageView::Announcing => match failure_text(event) {
                Some(detail) => StageView::Failed(SessionErrorView::Io(detail)),
                None => match read {
                    Some(ticket) => StageView::Downloading(ticket),
                    None => StageView::Failed(SessionErrorView::MalformedTicket),
                },
            },
            StageView::Downloading(ticket) => match event {
                EventView::TimedOut => if self.is_interactive {
                    StageView::Warning
                } else {
                    StageView::Failed(SessionErrorView::ConnectionTimeout)
                },
                _ => after_failure(event, StageView::Creating(ticket.content_hash)),
            },
            StageView::Warning => after_failure(
                event,
                StageView::Failed(SessionErrorView::ConnectionTimeout),
            ),
            StageView::Creating(hash) => after_failure(event, StageView::Reading(hash)),
            StageView::Reading(_) => after_failure(event, StageView::Storing),
            StageView::Storing => after_failure(event, StageView::Concluding),
            StageView::Concluding => after_failure(event, StageView::Completed),
            _ => self.stage,
        }
    }

    /// What the driver is to do for the receive flow.
    pub open spec fn receive_action(self) -> ActionView {
        if !self.receiving() {
            ActionView::Finished
        } else {
            match self.stage {
                StageView::Announcing => ActionView::Print(starting_text()),
                StageView::Downloading(ticket) => ActionView::Download {
                    ticket,
                    timeout_secs: DOWNLOAD_TIMEOUT_SECS,
                },
                StageView::Warning => ActionView::Print(timeout_text()),
                StageView::Creating(_) => ActionView::CreateDestination(self.args.path),
                StageView::Reading(hash) => ActionView::ReadContent { hash, offset: 0 },
                StageView::Storing => ActionView::WriteContent,
                StageView::Concluding => ActionView::Print(finished_text()),
                _ => ActionView::Finished,
            }
        }
    }

    /// One step of the receive flow, where `read` is what the codec read from
    /// the configuration's ticket.
    pub open spec fn receive_given(self, event: EventView, read: Option<TicketView>) -> AppView {
        if !self.receiving() {
            self
        } else {
            let moved = AppView { stage: self.receive_stage(event, read), ..self };
            AppView { printed: logged(self.printed, moved.receive_action()), ..moved }
        }
    }

    /// One step of the receive flow.
    pub open spec fn receive(self, event: EventView) -> AppView {
        self.receive_given(event, self.ticket_read(event))
    }

    /// The text of the ticket that the send flow mints on an event, if it
    /// mints one: it does when the store reports the ingested file and the
    /// ticket for it can be written.
    pub open spec fn send_mint(self, event: EventView) -> Option<Seq<char>> {
        if self.sending() {
            match (self.stage, event, self.host.node_id) {
                (StageView::Ingesting, EventView::Ingested(outcome), Some(id)) => encode_spec(
                    minted(id, outcome),
                ),
                _ => None,
            }
        } else {
            None
        }
    }

    /// The ticket text that the send flow keeps on an event, where `text` is
    /// what the codec wrote for the minted ticket: it keeps the text when
    /// the store reports the ingested file and the node has an identity.
    pub open spec fn kept_text(self, event: EventView, text: Option<Seq<char>>) -> Option<Seq<char>> {
        match (self.stage, event, self.host.node_id) {
            (StageView::Ingesting, EventView::Ingested(_), Some(_)) => text,
            _ => None,
        }
    }

    /// The stage that the send flow moves to on an event, where `text` is
    /// what the codec wrote for the minted ticket.
    pub open spec fn send_stage(self, event: EventView, text: Option<Seq<char>>) -> StageView {
        match self.stage {
            StageView::Ready => StageView::Ingesting,
            StageView::Ingesting => match event {
                EventView::Ingested(_) => match self.host.node_id {
                    Some(_) => match text {
                        Some(_) => StageView::Publishing,
                        None => StageView::Failed(SessionErrorView::MalformedTicket),
                    },
                    None => StageView::Failed(SessionErrorView::HostLifecycle(no_identity_text())),
                },
                EventView::Missing(detail) => StageView::Failed(
                    SessionErrorView::PathNotFound(detail),
                ),
                _ => StageView::Failed(SessionErrorView::Io(failure_or_unanswered(event))),
            },
            StageView::Publishing => after_failure(event, StageView::Serving),
            StageView::Serving => after_failure(event, StageView::Completed),
            _ => self.stage,
        }
    }

    /// What the driver is to do for the send flow.
    pub open spec fn send_action(self) -> ActionView {
        if !self.sending() {
            ActionView::Finished
        } else {
            match self.stage {
                StageView::Ingesting => ActionView::Ingest(ingest_request(self.args.path)),
                StageView::Publishing => ActionView::Print(
                    offer_text(self.is_interactive, self.args.ticket_text(), self.args.path),
                ),
                StageView::Serving => ActionView::AwaitInterrupt,
                _ => ActionView::Finished,
            }
        }
    }

    /// One step of the send flow, where `text` is what the codec wrote for
    /// the minted ticket. A minted ticket is kept in the configuration.
    pub open spec fn send_given(self, event: EventView, text: Option<Seq<char>>) -> AppView {
        if !self.sending() {
            self
        } else {
            let args = match self.kept_text(event, text) {
                Some(kept) => ArgsView { ticket: Some(kept), ..self.args },
                None => self.args,
            };
            let moved = AppView { stage: self.send_stage(event, text), args, ..self };
            AppView { printed: logged(self.printed, moved.send_action()), ..moved }
        }
    }

    /// One step of the send flow.
    pub open spec fn send(self, event: EventView) -> AppView {
        self.send_given(event, self.send_mint(event))
    }

    /// What the driver is to do for the transfer, whichever flow it is.
    pub open spec fn transfer_action(self) -> ActionView {
        if self.receive_action() is Finished {
            self.send_action()
        } else {
            self.receive_action()
        }
    }

    /// One step of the transfer: the receive flow has the first say; where it
    /// has nothing to do and has not failed, the send flow follows.
    pub open spec fn transfer(self, event: EventView) -> AppView {
        let received = self.receive(event);
        if received.receive_action() is Finished && !(received.stage is Failed) {
            received.send(event)
        } else {
            received
        }
    }

    /// One step of the teardown; the transfer's result is left as it is.
    pub open spec fn teardown(self, event: EventView) -> AppView {
        AppView { host: self.host.stop(event), ..self }
    }

    /// One step of the bring-up.
    pub open spec fn bring_up(self, event: EventView) -> AppView {
        AppView { host: self.host.start(event), ..self }
    }

    /// Opens the teardown as soon as the host is up and the transfer has
    /// nothing more to do.
    pub open spec fn settle(self) -> AppView {
        if self.host.phase == HostPhase::Up && self.transfer_action() is Finished {
            self.teardown(EventView::Begin)
        } else {
            self
        }
    }

    /// One step of the whole run: the host comes up, the transfer runs, the
    /// host is torn down.
    pub open spec fn advance(self, event: EventView) -> AppView {
        if self.host.starting() {
            let started = self.bring_up(event);
            if started.host.phase == HostPhase::Up {
                started.transfer(EventView::Begin).settle()
            } else {
                started
            }
        } else if self.host.phase == HostPhase::Up {
            self.transfer(event).settle()
        } else {
            self.teardown(event)
        }
    }

    /// What the driver is to do next in the whole run.
    pub open spec fn next_action(self) -> ActionView {
        if self.host.starting() {
            self.host.start_action()
        } else if self.host.phase == HostPhase::Up {
            self.transfer_action()
        } else {
            self.host.stop_action()
        }
    }

    /// How the run ended, as far as it has.
    pub open spec fn outcome(self) -> OutcomeView {
        OutcomeView {
            session: match self.stage {
                StageView::Failed(error) => Some(error),
                _ => None,
            },
            host: self.host.fault,
        }
    }
}

/// The stage after an action without a result of its own.
fn or_failed(event: &Event, next: Stage) -> (res: Stage)
    ensures
        res@ == after_failure(event@, next@),
{
    match event.failure() {
        Some(detail) => Stage::Failed(SessionError::Io(detail)),
        None => next,
    }
}

impl App {
    /// A run for a configuration that is held to the rules once more, the
    /// destination's state apart. Nothing is started yet.
    pub fn from_args(args: Args, is_interactive: bool) -> (res: Result<App, SessionError>)
        ensures
            match res {
                Ok(app) => args@.well_formed() && app@ == AppView::fresh(args@, is_interactive),
                Err(e) => config_fault(args.send, args.receive, args@.ticket, false) matches Some(
                    fault,
                ) && e@ == SessionErrorView::InvalidConfiguration(fault),
            },
    {
        match args.run_checks(false) {
            Ok(_) => Ok(
                App {
                    args,
                    iroh_data: IrohData::new(),
                    is_interactive,
                    stage: Stage::Ready,
                    printed: Ghost(Seq::empty()),
                },
            ),
            Err(e) => Err(e),
        }
    }

    /// A run for what an invocation asks for, or the first rule that the
    /// invocation breaks. `path_exists` says whether something already
    /// exists at `path`. Nothing is started yet, and where the configuration
    /// is turned down nothing ever is.
    pub fn init(
        send: bool,
        receive: bool,
        ticket: Option<String>,
        path: String,
        path_exists: bool,
        is_interactive: bool,
    ) -> (res: Result<App, SessionError>)
        ensures
            match res {
                Ok(app) => config_fault(send, receive, text_option_view(ticket), path_exists) is None
                    && app@ == AppView::fresh(
                    ArgsView { send, receive, ticket: text_option_view(ticket), path: path@ },
                    is_interactive,
                ),
                Err(e) => config_fault(send, receive, text_option_view(ticket), path_exists) matches Some(
                    fault,
                ) && e@ == SessionErrorView::InvalidConfiguration(fault),
            },
    {
        match Args::new(send, receive, ticket, path, path_exists) {
            Ok(args) => App::from_args(args, is_interactive),
            Err(e) => Err(e),
        }
    }

    /// Whether the output stream is a terminal.
    pub fn is_output_tty(&self) -> (res: bool)
        ensures
            res == self@.is_interactive,
    {
        self.is_interactive
    }

    /// How the source file is to be taken into the content store.
    pub fn blob_from_path(&self) -> (res: IngestRequest)
        ensures
            res@ == ingest_request(self@.args.path),
    {
        IngestRequest { path: self.args.path.clone(), in_place: true, auto_tag: true, wrap: false }
    }

    /// What the codec reads from the configuration's ticket at the point
    /// where the receive flow needs it.
    fn read_ticket(&self, event: &Event) -> (res: Option<Ticket>)
        ensures
            ticket_option_view(res) == self@.ticket_read(event@),
    {
        if !(self.args.receive && self.iroh_data.is_up()) {
            return None;
        }
        match &self.stage {
            Stage::Announcing => match event.failure() {
                Some(_) => None,
                None => match &self.args.ticket {
                    Some(text) => match decode(text.as_str()) {
                        Ok(ticket) => Some(ticket),
                        Err(_) => None,
                    },
                    None => None,
                },
            },
            _ => None,
        }
    }

    /// The stage that the receive flow moves to on an event.
    fn next_receive_stage(&self, event: &Event, read: Option<Ticket>) -> (res: Stage)
        ensures
            res@ == self@.receive_stage(event@, ticket_option_view(read)),
    {
        match &self.stage {
            Stage::Ready => Stage::Announcing,
            Stage::Announcing => match event.failure() {
                Some(detail) => Stage::Failed(SessionError::Io(detail)),
                None => match read {
                    Some(ticket) => Stage::Downloading(ticket),
                    None => Stage::Failed(SessionError::MalformedTicket),
                },
            },
            Stage::Downloading(ticket) => match event {
                Event::TimedOut => if self.is_interactive {
                    Stage::Warning
                } else {
                    Stage::Failed(SessionError::ConnectionTimeout)
                },
                _ => or_failed(event, Stage::Creating(ticket.content_hash)),
            },
            Stage::Warning => or_failed(event, Stage::Failed(SessionError::ConnectionTimeout)),
            Stage::Creating(hash) => or_failed(event, Stage::Reading(*hash)),
            Stage::Reading(_) => or_failed(event, Stage::Storing),
            Stage::Storing => or_failed(event, Stage::Concluding),
            Stage::Concluding => or_failed(event, Stage::Completed),
            _ => self.stage.clone(),
        }
    }

    /// What the driver is to do for the receive flow.
    fn receive_action(&self) -> (action: Action)
        ensures
            action@ == self@.receive_action(),
    {
        if !(self.args.receive && self.iroh_data.is_up()) {
            return Action::Finished;
        }
        match &self.stage {
            Stage::Announcing => Action::Print(starting()),
            Stage::Downloading(ticket) => Action::Download {
                ticket: ticket.clone(),
                timeout_secs: DOWNLOAD_TIMEOUT_SECS,
            },
            Stage::Warning => Action::Print(SessionError::ConnectionTimeout.message()),
            Stage::Creating(_) => Action::CreateDestination(self.args.path.clone()),
            Stage::Reading(hash) => Action::ReadContent { hash: *hash, offset: 0 },
            Stage::Storing => Action::WriteContent,
            Stage::Concluding => Action::Print(finished()),
            _ => Action::Finished,
        }
    }

    /// One step of the receive flow, where `read` is what the codec read from
    /// the configuration's ticket; it counts once the download is announced,
    /// and a ticket that could not be read ends the flow there.
    pub fn receive_step(&mut self, event: &Event, read: Option<Ticket>) -> (action: Action)
        ensures
            final(self)@ == old(self)@.receive_given(event@, ticket_option_view(read)),
            action@ == final(self)@.receive_action(),
    {
        if !(self.args.receive && self.iroh_data.is_up()) {
            return Action::Finished;
        }
        let next = self.next_receive_stage(event, read);
        self.stage = next;
        let action = self.receive_action();
        self.printed = Ghost(logged(self.printed@, action@));
        action
    }

    /// The receive flow, one step per call. The first call announces the
    /// download; then the ticket is read, the content is fetched within
    /// [`DOWNLOAD_TIMEOUT_SECS`], the destination is created, the content is
    /// read from the store and written, and the end is announced. The first
    /// failure ends the flow; nothing is tried twice. Where the mode is not
    /// receive, or the host is not up, nothing happens.
    pub fn process_recieve(&mut self, event: &Event) -> (action: Action)
        ensures
            final(self)@ == old(self)@.receive(event@),
            action@ == final(self)@.receive_action(),
    {
        let read = self.read_ticket(event);
        self.receive_step(event, read)
    }

    /// The text of the ticket that the send flow mints on an event, if it
    /// mints one.
    fn mint_ticket(&self, event: &Event) -> (res: Option<String>)
        ensures
            text_option_view(res) == self@.send_mint(event@),
    {
        if !(self.args.send && self.iroh_data.is_up()) {
            return None;
        }
        match &self.stage {
            Stage::Ingesting => match event {
                Event::Ingested(outcome) => match self.iroh_data.node_id {
                    Some(id) => {
                        let ticket = Ticket::new(PeerAddress::new(id), outcome.hash, outcome.format);
                        match encode(&ticket) {
                            Ok(text) => Some(text),
                            Err(_) => None,
                        }
                    },
                    None => None,
                },
                _ => None,
            },
            _ => None,
        }
    }

    /// The stage that the send flow moves to on an event, and the ticket
    /// text that it keeps.
    fn next_send_stage(&self, event: &Event, text: Option<String>) -> (res: (Stage, Option<String>))
        ensures
            res.0@ == self@.send_stage(event@, text_option_view(text)),
            text_option_view(res.1) == self@.kept_text(event@, text_option_view(text)),
    {
        match &self.stage {
            Stage::Ready => (Stage::Ingesting, None),
            Stage::Ingesting => match event {
                Event::Ingested(_) => match self.iroh_data.node_id {
                    Some(_) => match text {
                        Some(minted) => (Stage::Publishing, Some(minted)),
                        None => (Stage::Failed(SessionError::MalformedTicket), None),
                    },
                    None => (Stage::Failed(SessionError::HostLifecycle(no_identity())), None),
                },
                Event::Missing(detail) => (
                    Stage::Failed(SessionError::PathNotFound(detail.clone())),
                    None,
                ),
                _ => (Stage::Failed(SessionError::Io(event.failure_or_unanswered())), None),
            },
            Stage::Publishing => (or_failed(event, Stage::Serving), None),
            Stage::Serving => (or_failed(event, Stage::Completed), None),
            _ => (self.stage.clone(), None),
        }
    }

    /// What the driver is to do for the send flow.
    fn send_action(&self) -> (action: Action)
        ensures
            action@ == self@.send_action(),
    {
        if !(self.args.send && self.iroh_data.is_up()) {
            return Action::Finished;
        }
        match &self.stage {
            Stage::Ingesting => Action::Ingest(self.blob_from_path()),
            Stage::Publishing => {
                let ticket = match &self.args.ticket {
                    Some(text) => text.as_str(),
                    None => {
                        proof {
                            reveal_strlit("");
                        }
                        assert(""@ =~= Seq::<char>::empty());
                        ""
                    },
                };
                Action::Print(offer(self.is_interactive, ticket, self.args.path.as_str()))
            },
            Stage::Serving => Action::AwaitInterrupt,
            _ => Action::Finished,
        }
    }

    /// The send flow, one step per call. The first call asks for the source
    /// file to be taken into the store; then the ticket is minted from the
    /// node's identity and the reported hash and format, kept in the
    /// configuration and shown, and the file stays on offer until the
    /// operator interrupts. The first failure ends the flow; nothing is tried
    /// twice. Where the mode is not send, or the host is not up, nothing
    /// happens.
    pub fn process_send(&mut self, event: &Event) -> (action: Action)
        ensures
            final(self)@ == old(self)@.send(event@),
            action@ == final(self)@.send_action(),
    {
        let text = self.mint_ticket(event);
        self.send_step(event, text)
    }

    /// One step of the send flow, where `text` is what the codec wrote for
    /// the minted ticket; it counts once the store reports the ingested
    /// file, and a ticket that could not be written ends the flow there.
    pub fn send_step(&mut self, event: &Event, text: Option<String>) -> (action: Action)
        ensures
            final(self)@ == old(self)@.send_given(event@, text_option_view(text)),
            action@ == final(self)@.send_action(),
    {
        if !(self.args.send && self.iroh_data.is_up()) {
            return Action::Finished;
        }
        let (next, kept) = self.next_send_stage(event, text);
        self.stage = next;
        match kept {
            Some(minted) => {
                self.args.ticket = Some(minted);
            },
            None => {},
        }
        let action = self.send_action();
        self.printed = Ghost(logged(self.printed@, action@));
        action
    }

    /// Whether the transfer has failed.
    pub fn has_failed(&self) -> (res: bool)
        ensures
            res == (self@.stage is Failed),
    {
        match &self.stage {
            Stage::Failed(_) => true,
            _ => false,
        }
    }

    /// The transfer, one step per call: the receive flow has the first say;
    /// where it has nothing to do and has not failed, the send flow follows.
    pub fn process_all(&mut self, event: &Event) -> (action: Action)
        ensures
            final(self)@ == old(self)@.transfer(event@),
            action@ == final(self)@.transfer_action(),
    {
        let action = self.process_recieve(event);
        match action {
            Action::Finished => {
                if self.has_failed() {
                    Action::Finished
                } else {
                    self.process_send(event)
                }
            },
            _ => action,
        }
    }

    /// The bring-up of the host, one step per call.
    pub fn start(&mut self, event: &Event) -> (action: Action)
        ensures
            final(self)@ == old(self)@.bring_up(event@),
            action@ == final(self)@.host.start_action(),
    {
        self.iroh_data.start(event)
    }

    /// The teardown of the host, one step per call: first the router is
    /// stopped, then the store's worker pool is released. What the transfer
    /// ended with is left as it is.
    pub fn shutdown(&mut self, event: &Event) -> (action: Action)
        ensures
            final(self)@ == old(self)@.teardown(event@),
            action@ == final(self)@.host.stop_action(),
    {
        self.iroh_data.shutdown(event)
    }

    /// The whole run, one step per call: the host comes up, the transfer
    /// runs, the host is torn down. The first call may pass
    /// [`Event::Begin`]; each later call passes the driver's answer to the
    /// action handed out before. The transfer begins in the step in which
    /// the host comes up, and the teardown in the step in which the
    /// transfer ends, whether it went through or failed; a host that did
    /// not come up ends the run. [`Action::Finished`] says that the run is
    /// over.
    pub fn advance(&mut self, event: &Event) -> (action: Action)
        ensures
            final(self)@ == old(self)@.advance(event@),
            action@ == final(self)@.next_action(),
    {
        if self.iroh_data.is_starting() {
            let action = self.start(event);
            if self.iroh_data.is_up() {
                let action = self.process_all(&Event::Begin);
                self.settle(action)
            } else {
                action
            }
        } else if self.iroh_data.is_up() {
            let action = self.process_all(event);
            self.settle(action)
        } else {
            self.shutdown(event)
        }
    }

    /// Opens the teardown where the transfer has nothing more to do.
    fn settle(&mut self, action: Action) -> (res: Action)
        requires
            old(self)@.host.phase == HostPhase::Up,
            action@ == old(self)@.transfer_action(),
        ensures
            final(self)@ == old(self)@.settle(),
            res@ == final(self)@.next_action(),
    {
        match action {
            Action::Finished => self.shutdown(&Event::Begin),
            _ => action,
        }
    }

    /// How the run ended, as far as it has: what the transfer failed with
    /// and what the host failed with, side by side.
    pub fn outcome(&self) -> (res: Outcome)
        ensures
            res@ == self@.outcome(),
    {
        let session = match &self.stage {
            Stage::Failed(error) => Some(error.clone()),
            _ => None,
        };
        let host = match &self.iroh_data.fault {
            Some(error) => Some(error.clone()),
            None => None,
        };
        Outcome { session, host }
    }
}

} // verus!
