//! What holds of every run, whatever the driver answers.
//!
//! A run starts from [`AppView::fresh`] and moves by [`AppView::advance`],
//! once per event. The statements here are about all such runs.

use vstd::prelude::*;

use crate::args::ArgsView;
use crate::error::{timeout_text, SessionErrorView};
use crate::host::HostPhase;
use crate::protocol::{
    failure_text, ActionView, EventView, TransferOutcomeView, DOWNLOAD_TIMEOUT_SECS,
};
use crate::report::{finished_text, offer_text, starting_text};
use crate::session::{minted, AppView, StageView};
use crate::ticket::lemma_decode_inverts_encode;

verus! {

/// The run from `start` through `events`, one step per event.
pub open spec fn run(start: AppView, events: Seq<EventView>) -> AppView
    decreases events.len(),
{
    if events.len() == 0 {
        start
    } else {
        run(start, events.drop_last()).advance(events.last())
    }
}

/// Whether the host stands where the transfer allows it: no transfer before
/// the host is up, a transfer under way while it is up, a transfer that is
/// over once the teardown is open.
pub open spec fn in_step(s: AppView) -> bool {
    &&& s.host.starting() || s.host.phase == HostPhase::Failed ==> s.stage is Ready
    &&& s.host.phase == HostPhase::Up ==> !(s.stage is Ready) && !s.over()
    &&& s.host.stopping() || s.host.phase == HostPhase::Stopped ==> s.over()
    &&& s.host.phase == HostPhase::Up ==> s.host.node_id is Some
    &&& s.host.phase == HostPhase::Spawning || s.host.phase == HostPhase::Building
        ==> s.host.node_id is Some
}

/// What a receiving run has shown, stage by stage.
pub open spec fn receive_shown(s: AppView) -> bool {
    match s.stage {
        StageView::Ready => s.printed =~= Seq::empty(),
        StageView::Announcing => s.printed =~= seq![starting_text()],
        StageView::Downloading(_) => s.printed =~= seq![starting_text()],
        StageView::Warning => s.is_interactive && s.printed =~= seq![
            starting_text(),
            timeout_text(),
        ],
        StageView::Creating(_) => s.printed =~= seq![starting_text()],
        StageView::Reading(_) => s.printed =~= seq![starting_text()],
        StageView::Storing => s.printed =~= seq![starting_text()],
        StageView::Concluding => s.printed =~= seq![starting_text(), finished_text()],
        StageView::Completed => s.printed =~= seq![starting_text(), finished_text()],
        StageView::Failed(_) => {
            ||| s.printed =~= seq![starting_text()]
            ||| s.is_interactive && s.printed =~= seq![starting_text(), timeout_text()]
            ||| s.printed =~= seq![starting_text(), finished_text()]
        },
        _ => false,
    }
}

/// The one text that a sending run shows: the offer for the minted ticket.
pub open spec fn offer_of(s: AppView) -> Seq<char> {
    offer_text(s.is_interactive, s.args.ticket_text(), s.args.path)
}

/// What a sending run has shown, stage by stage.
pub open spec fn send_shown(s: AppView) -> bool {
    match s.stage {
        StageView::Ready => s.printed =~= Seq::empty(),
        StageView::Ingesting => s.printed =~= Seq::empty(),
        StageView::Publishing => s.printed =~= seq![offer_of(s)],
        StageView::Serving => s.printed =~= seq![offer_of(s)],
        StageView::Completed => s.printed =~= seq![offer_of(s)],
        StageView::Failed(_) => s.printed =~= Seq::empty() || s.printed =~= seq![offer_of(s)],
        _ => false,
    }
}

/// What holds of every state of a run.
pub open spec fn orderly(s: AppView) -> bool {
    &&& s.args.well_formed()
    &&& in_step(s)
    &&& s.args.receive ==> receive_shown(s)
    &&& s.args.send ==> send_shown(s)
}

/// A fresh run is orderly.
pub proof fn lemma_fresh_is_orderly(args: ArgsView, is_interactive: bool)
    requires
        args.well_formed(),
    ensures
        orderly(AppView::fresh(args, is_interactive)),
{
}

/// A step of the receive flow keeps a receiving run orderly, as far as the
/// transfer goes.
proof fn lemma_receive_keeps_order(s: AppView, event: EventView)
    requires
        s.args.well_formed(),
        s.args.receive,
        s.host.phase == HostPhase::Up,
        receive_shown(s),
    ensures
        receive_shown(s.receive(event)),
        !(s.receive(event).stage is Ready),
        s.receive(event).args == s.args,
        s.receive(event).host == s.host,
        s.receive(event).receive_action() is Finished <==> s.receive(event).over(),
        s.receive(event).send(event) == s.receive(event),
{
}

/// A step of the send flow keeps a sending run orderly, as far as the
/// transfer goes.
proof fn lemma_send_keeps_order(s: AppView, event: EventView)
    requires
        s.args.well_formed(),
        s.args.send,
        s.host.phase == HostPhase::Up,
        send_shown(s),
    ensures
        send_shown(s.send(event)),
        !(s.send(event).stage is Ready),
        s.send(event).args.well_formed(),
        s.send(event).args.send,
        s.send(event).host == s.host,
        s.send(event).send_action() is Finished <==> s.send(event).over(),
        s.receive(event) == s,
        s.send(event).receive_action() is Finished,
{
}

/// A step keeps a run orderly.
pub proof fn lemma_advance_keeps_order(s: AppView, event: EventView)
    requires
        orderly(s),
    ensures
        orderly(s.advance(event)),
{
    if s.host.starting() {
        let started = s.bring_up(event);
        if started.host.phase == HostPhase::Up {
            lemma_transfer_keeps_order(started, EventView::Begin);
        }
    } else if s.host.phase == HostPhase::Up {
        lemma_transfer_keeps_order(s, event);
    }
}

/// A step of the transfer, and the opening of the teardown that may follow
/// it, keep a run orderly.
proof fn lemma_transfer_keeps_order(s: AppView, event: EventView)
    requires
        s.args.well_formed(),
        s.host.phase == HostPhase::Up,
        s.host.node_id is Some,
        s.args.receive ==> receive_shown(s),
        s.args.send ==> send_shown(s),
    ensures
        orderly(s.transfer(event).settle()),
{
    if s.args.receive {
        lemma_receive_keeps_order(s, event);
    } else {
        lemma_send_keeps_order(s, event);
    }
}

/// Every state of a run is orderly.
pub proof fn lemma_run_is_orderly(args: ArgsView, is_interactive: bool, events: Seq<EventView>)
    requires
        args.well_formed(),
    ensures
        orderly(run(AppView::fresh(args, is_interactive), events)),
        run(AppView::fresh(args, is_interactive), events).is_interactive == is_interactive,
        run(AppView::fresh(args, is_interactive), events).args.send == args.send,
        run(AppView::fresh(args, is_interactive), events).args.receive == args.receive,
    decreases events.len(),
{
    if events.len() > 0 {
        lemma_run_is_orderly(args, is_interactive, events.drop_last());
        lemma_advance_keeps_order(
            run(AppView::fresh(args, is_interactive), events.drop_last()),
            events.last(),
        );
    }
}

/// The host and the transfer keep in step: no part of the transfer runs
/// before the host is up, or on a host that did not come up; the teardown
/// opens in the very step in which the transfer ends, however it ends, so
/// that a host is never left up behind a transfer that is over; and a
/// teardown is only ever under way after the transfer.
pub proof fn lemma_host_and_transfer_in_step(
    args: ArgsView,
    is_interactive: bool,
    events: Seq<EventView>,
)
    requires
        args.well_formed(),
    ensures
        ({
            let end = run(AppView::fresh(args, is_interactive), events);
            &&& end.host.starting() || end.host.phase == HostPhase::Failed ==> end.stage is Ready
                && end.printed =~= Seq::empty()
            &&& end.host.phase == HostPhase::Up ==> !end.over()
            &&& end.host.stopping() || end.host.phase == HostPhase::Stopped ==> end.over()
        }),
{
    lemma_run_is_orderly(args, is_interactive, events);
}

/// On an output stream that is no terminal, a sending run shows the bare
/// ticket and nothing else: at any point of the run either nothing is shown
/// yet or exactly the minted ticket is, and once the transfer has gone
/// through it is exactly the minted ticket.
pub proof fn lemma_plain_send_shows_the_bare_ticket(args: ArgsView, events: Seq<EventView>)
    requires
        args.well_formed(),
        args.send,
    ensures
        ({
            let end = run(AppView::fresh(args, false), events);
            &&& end.printed =~= Seq::empty() || end.printed =~= seq![end.args.ticket_text()]
            &&& end.stage is Completed ==> end.printed =~= seq![end.args.ticket_text()]
        }),
{
    lemma_run_is_orderly(args, false, events);
}

/// On an output stream that is no terminal, a receiving run never shows the
/// guidance for a download that ran out of time: all it ever shows is the
/// announcement of the start and of the end.
pub proof fn lemma_plain_receive_shows_no_guidance(args: ArgsView, events: Seq<EventView>)
    requires
        args.well_formed(),
        args.receive,
    ensures
        ({
            let end = run(AppView::fresh(args, false), events);
            forall|i: int|
                0 <= i < end.printed.len() ==> #[trigger] end.printed[i] != timeout_text() && (
                end.printed[i] == starting_text() || end.printed[i] == finished_text())
        }),
{
    lemma_run_is_orderly(args, false, events);
    lemma_guidance_is_no_announcement();
}

/// The guidance differs from both announcements.
pub proof fn lemma_guidance_is_no_announcement()
    ensures
        timeout_text() != starting_text(),
        timeout_text() != finished_text(),
{
    reveal_strlit("Starting download...");
    reveal_strlit("Download finished!");
    reveal_strlit(
        "Ticket connection timed out.\nMake sure the sender hasn't closed their connection and that you're using the right ticket.",
    );
    assert(timeout_text().len() > 20);
}

/// Whether a stage belongs to the receive flow.
pub open spec fn receive_stage(stage: StageView) -> bool {
    stage is Announcing || stage is Downloading || stage is Warning || stage is Creating
        || stage is Reading || stage is Storing || stage is Concluding
}

/// Whether a stage belongs to the send flow.
pub open spec fn send_stage(stage: StageView) -> bool {
    stage is Ingesting || stage is Publishing || stage is Serving
}

/// A run is in one mode from its first step to its last: a receiving run
/// never enters a stage of the send flow, nor a sending run one of the
/// receive flow.
pub proof fn lemma_one_flow_per_run(args: ArgsView, is_interactive: bool, events: Seq<EventView>)
    requires
        args.well_formed(),
    ensures
        ({
            let end = run(AppView::fresh(args, is_interactive), events);
            &&& args.receive ==> !send_stage(end.stage)
            &&& args.send ==> !receive_stage(end.stage)
        }),
{
    lemma_run_is_orderly(args, is_interactive, events);
}

/// Whether the run is over: the host is torn down, or never came up.
pub open spec fn closed(s: AppView) -> bool {
    s.host.phase == HostPhase::Stopped || s.host.phase == HostPhase::Failed
}

/// The steps that the transfer can still take at most.
pub open spec fn stage_steps(stage: StageView) -> nat {
    match stage {
        StageView::Ready => 7,
        StageView::Announcing => 6,
        StageView::Downloading(_) => 5,
        StageView::Creating(_) => 4,
        StageView::Reading(_) => 3,
        StageView::Storing => 2,
        StageView::Concluding => 1,
        StageView::Warning => 1,
        StageView::Ingesting => 3,
        StageView::Publishing => 2,
        StageView::Serving => 1,
        StageView::Completed => 0,
        StageView::Failed(_) => 0,
    }
}

/// The steps that the run can still take at most.
pub open spec fn steps_left(s: AppView) -> nat {
    match s.host.phase {
        HostPhase::Down => 12,
        HostPhase::Binding => 11,
        HostPhase::Building => 10,
        HostPhase::Spawning => 9,
        HostPhase::Up => 2 + stage_steps(s.stage),
        HostPhase::StoppingRouter => 2,
        HostPhase::StoppingPool => 1,
        HostPhase::Stopped => 0,
        HostPhase::Failed => 0,
    }
}

/// Every step of a run that is not over brings its end nearer: nothing is
/// tried twice, whatever the driver answers.
pub proof fn lemma_advance_uses_a_step(s: AppView, event: EventView)
    requires
        orderly(s),
        !closed(s),
    ensures
        steps_left(s.advance(event)) < steps_left(s),
{
    if s.host.starting() {
        let started = s.bring_up(event);
        if started.host.phase == HostPhase::Up {
            lemma_transfer_keeps_order(started, EventView::Begin);
        }
    } else if s.host.phase == HostPhase::Up {
        if s.args.receive {
            lemma_receive_keeps_order(s, event);
        } else {
            lemma_send_keeps_order(s, event);
        }
    }
}

/// A run that is over stays as it is.
pub proof fn lemma_closed_is_final(s: AppView, event: EventView)
    requires
        closed(s),
    ensures
        s.advance(event) == s,
        s.next_action() is Finished,
{
}

/// Once begun, a run asks for something to be done until it is over, and
/// for nothing after that.
pub proof fn lemma_finished_means_over(s: AppView)
    requires
        orderly(s),
        s.host.phase != HostPhase::Down,
    ensures
        s.next_action() is Finished <==> closed(s),
{
}

/// Every run is over after twelve steps at most: it cannot go on without
/// end, whatever the driver answers.
pub proof fn lemma_run_ends(args: ArgsView, is_interactive: bool, events: Seq<EventView>)
    requires
        args.well_formed(),
    ensures
        steps_left(run(AppView::fresh(args, is_interactive), events)) + events.len() <= 12 || closed(
            run(AppView::fresh(args, is_interactive), events),
        ),
        events.len() >= 12 ==> closed(run(AppView::fresh(args, is_interactive), events)),
    decreases events.len(),
{
    if events.len() > 0 {
        let before = run(AppView::fresh(args, is_interactive), events.drop_last());
        lemma_run_ends(args, is_interactive, events.drop_last());
        lemma_run_is_orderly(args, is_interactive, events.drop_last());
        if closed(before) {
            lemma_closed_is_final(before, events.last());
        } else {
            lemma_advance_uses_a_step(before, events.last());
        }
    }
}

/// A receiver asks for exactly what the sender offered: when a sender has
/// minted and kept a ticket for an ingested file, a receiver that is
/// configured with that very ticket text and has announced its download asks
/// next for the content of the ingested hash, in the reported format, from
/// the sender's node, within [`DOWNLOAD_TIMEOUT_SECS`].
pub proof fn lemma_receiver_asks_for_what_the_sender_offered(
    sender: AppView,
    node_id: Seq<u8>,
    outcome: TransferOutcomeView,
    receiver: AppView,
    event: EventView,
)
    requires
        sender.sending(),
        sender.stage is Ingesting,
        sender.host.node_id == Some(node_id),
        sender.send(EventView::Ingested(outcome)).stage is Publishing,
        receiver.receiving(),
        receiver.stage is Announcing,
        receiver.args.ticket == sender.send(EventView::Ingested(outcome)).args.ticket,
        failure_text(event) is None,
    ensures
        receiver.receive(event).stage == StageView::Downloading(minted(node_id, outcome)),
        receiver.receive(event).receive_action() == (ActionView::Download {
            ticket: minted(node_id, outcome),
            timeout_secs: DOWNLOAD_TIMEOUT_SECS,
        }),
{
    let text = sender.send(EventView::Ingested(outcome)).args.ticket_text();
    lemma_decode_inverts_encode(minted(node_id, outcome), text);
}

/// The teardown leaves the transfer's result as it is: whatever the host
/// reports while it is torn down, a failure of the transfer stays in the
/// outcome, and a failure of the teardown is added beside it.
pub proof fn lemma_teardown_keeps_the_result(s: AppView, event: EventView)
    requires
        !s.host.starting(),
        s.host.phase != HostPhase::Up,
    ensures
        s.advance(event).stage == s.stage,
        s.advance(event).printed == s.printed,
        s.advance(event).outcome().session == s.outcome().session,
        s.advance(event).outcome().host == s.advance(event).host.fault,
{
}

/// A download is given [`DOWNLOAD_TIMEOUT_SECS`] seconds. When it runs out
/// of time the receive flow fails with a connection timeout and asks for
/// nothing more but, on a terminal, that the guidance be shown; the download
/// is not tried again.
pub proof fn lemma_timeout_ends_the_receive_flow(s: AppView)
    requires
        s.receiving(),
        s.stage is Downloading,
    ensures
        s.receive_action() matches ActionView::Download { timeout_secs, .. } && timeout_secs
            == DOWNLOAD_TIMEOUT_SECS,
        !s.is_interactive ==> s.receive(EventView::TimedOut).stage == StageView::Failed(
            SessionErrorView::ConnectionTimeout,
        ) && s.receive(EventView::TimedOut).receive_action() is Finished,
        s.is_interactive ==> s.receive(EventView::TimedOut).receive_action() == ActionView::Print(
            timeout_text(),
        ) && s.receive(EventView::TimedOut).receive(EventView::Done).stage == StageView::Failed(
            SessionErrorView::ConnectionTimeout,
        ),
{
}

} // verus!
