use peer_transfer::{
    encode, Action, App, ContentFormat, Event, HostPhase, PeerAddress, SessionError, Stage, Ticket,
    DOWNLOAD_TIMEOUT_SECS,
};

const NODE_ID: [u8; 32] = [
    174, 88, 255, 136, 51, 36, 26, 200, 45, 111, 247, 97, 16, 70, 237, 103, 181, 7, 45, 20, 44, 88,
    141, 0, 99, 233, 66, 217, 167, 85, 2, 182,
];

const HASH: [u8; 32] = [
    11, 132, 211, 88, 228, 200, 190, 108, 56, 98, 107, 33, 130, 255, 87, 88, 24, 186, 107, 211, 244,
    185, 4, 100, 153, 75, 225, 76, 179, 84, 160, 114,
];

const TICKET: &str = "blobacxfr74igmsbvsbnn73wcecg5vt3kbzncqwfrdiampuufwnhkublmaaaaafyju2y4tel43bymjvsdax7k5mbrotl2p2lsbdetff6ctftksqhe";

const GUIDANCE: &str = "Ticket connection timed out.\nMake sure the sender hasn't closed their connection and that you're using the right ticket.";

fn receiver(ticket: &str, is_interactive: bool) -> App {
    App::init(false, true, Some(ticket.to_string()), "out.bin".to_string(), false, is_interactive)
        .unwrap()
}

/// Brings the host up and returns the first action of the transfer.
fn bring_up(app: &mut App) -> Action {
    assert!(matches!(app.advance(&Event::Begin), Action::BindEndpoint));
    assert!(matches!(app.advance(&Event::Bound([9; 32])), Action::BuildStore));
    assert!(matches!(app.advance(&Event::Done), Action::SpawnRouter));
    app.advance(&Event::Done)
}

fn printed(action: Action) -> String {
    match action {
        Action::Print(text) => text,
        other => panic!("expected a text to print, got {:?}", other),
    }
}

/// Runs the teardown to its end and checks its order.
fn tear_down(app: &mut App, opened: Action) {
    assert!(matches!(opened, Action::ShutdownRouter));
    assert!(matches!(app.advance(&Event::Done), Action::ShutdownPool));
    assert!(matches!(app.advance(&Event::Done), Action::Finished));
    assert_eq!(app.iroh_data.phase, HostPhase::Stopped);
}

/// Drives a receiver up to the point where its download is under way.
fn downloading(is_interactive: bool) -> App {
    let mut app = receiver(TICKET, is_interactive);
    assert_eq!(printed(bring_up(&mut app)), "Starting download...");
    match app.advance(&Event::Done) {
        Action::Download { ticket, timeout_secs } => {
            assert_eq!(timeout_secs, 5);
            assert_eq!(ticket.peer_address.node_id, NODE_ID);
            assert_eq!(ticket.content_hash, HASH);
        },
        other => panic!("expected a download, got {:?}", other),
    }
    app
}

#[test]
fn the_window_is_five_seconds() {
    assert_eq!(DOWNLOAD_TIMEOUT_SECS, 5);
}

#[test]
fn a_download_goes_through() {
    let mut app = receiver(TICKET, true);
    assert_eq!(printed(bring_up(&mut app)), "Starting download...");
    assert!(matches!(app.stage, Stage::Announcing));
    match app.advance(&Event::Done) {
        Action::Download { ticket, timeout_secs } => {
            assert_eq!(timeout_secs, 5);
            assert_eq!(ticket.peer_address.node_id, NODE_ID);
            assert_eq!(ticket.peer_address.relay_url, None);
            assert!(ticket.peer_address.direct_addresses.is_empty());
            assert_eq!(ticket.content_hash, HASH);
            assert_eq!(ticket.content_format, ContentFormat::Raw);
        },
        other => panic!("expected a download, got {:?}", other),
    }
    match app.advance(&Event::Done) {
        Action::CreateDestination(path) => assert_eq!(path, "out.bin"),
        other => panic!("expected the destination to be created, got {:?}", other),
    }
    match app.advance(&Event::Done) {
        Action::ReadContent { hash, offset } => {
            assert_eq!(hash, HASH);
            assert_eq!(offset, 0);
        },
        other => panic!("expected the content to be read, got {:?}", other),
    }
    assert!(matches!(app.advance(&Event::Done), Action::WriteContent));
    assert_eq!(printed(app.advance(&Event::Done)), "Download finished!");
    let opened = app.advance(&Event::Done);
    assert!(matches!(app.stage, Stage::Completed));
    tear_down(&mut app, opened);
    assert!(app.outcome().is_success());
    assert_eq!(app.args.ticket, Some(TICKET.to_string()));
}

#[test]
fn a_download_carries_the_addresses_of_the_ticket() {
    let peer = PeerAddress {
        node_id: NODE_ID,
        relay_url: Some("https://relay.example./".to_string()),
        direct_addresses: vec!["192.168.1.4:7000".to_string()],
    };
    let text = encode(&Ticket::new(peer, HASH, ContentFormat::HashSeq)).unwrap();
    let mut app = receiver(&text, false);
    bring_up(&mut app);
    match app.advance(&Event::Done) {
        Action::Download { ticket, .. } => {
            assert_eq!(ticket.peer_address.relay_url, Some("https://relay.example./".to_string()));
            assert_eq!(ticket.peer_address.direct_addresses, vec!["192.168.1.4:7000".to_string()]);
            assert_eq!(ticket.content_format, ContentFormat::HashSeq);
        },
        other => panic!("expected a download, got {:?}", other),
    }
}

#[test]
fn the_progress_is_shown_on_any_output() {
    let mut app = receiver(TICKET, false);
    assert_eq!(printed(bring_up(&mut app)), "Starting download...");
    app.advance(&Event::Done);
    app.advance(&Event::Done);
    app.advance(&Event::Done);
    app.advance(&Event::Done);
    assert_eq!(printed(app.advance(&Event::Done)), "Download finished!");
}

#[test]
fn a_malformed_ticket_ends_the_flow_after_the_announcement() {
    let mut app = receiver("not-a-valid-ticket", true);
    assert_eq!(printed(bring_up(&mut app)), "Starting download...");
    let opened = app.advance(&Event::Done);
    assert!(matches!(app.stage, Stage::Failed(SessionError::MalformedTicket)));
    tear_down(&mut app, opened);
    let outcome = app.outcome();
    assert_eq!(outcome.session, Some(SessionError::MalformedTicket));
    assert_eq!(outcome.host, None);
    assert!(!outcome.is_success());
}

#[test]
fn a_timeout_on_a_terminal_shows_the_guidance_and_fails() {
    let mut app = downloading(true);
    assert_eq!(printed(app.advance(&Event::TimedOut)), GUIDANCE);
    assert!(matches!(app.stage, Stage::Warning));
    let opened = app.advance(&Event::Done);
    assert!(matches!(app.stage, Stage::Failed(SessionError::ConnectionTimeout)));
    tear_down(&mut app, opened);
    assert_eq!(app.outcome().session, Some(SessionError::ConnectionTimeout));
    assert_eq!(app.outcome().session.unwrap().message(), GUIDANCE);
}

#[test]
fn a_timeout_elsewhere_fails_without_showing_the_guidance() {
    let mut app = downloading(false);
    let opened = app.advance(&Event::TimedOut);
    assert!(matches!(app.stage, Stage::Failed(SessionError::ConnectionTimeout)));
    tear_down(&mut app, opened);
    assert_eq!(app.outcome().session, Some(SessionError::ConnectionTimeout));
}

#[test]
fn a_timeout_is_not_retried() {
    let mut app = downloading(false);
    app.advance(&Event::TimedOut);
    let mut downloads = 0;
    for _ in 0..8 {
        if let Action::Download { .. } = app.advance(&Event::Done) {
            downloads += 1;
        }
    }
    assert_eq!(downloads, 0);
}

#[test]
fn a_failed_announcement_ends_the_flow() {
    let mut app = receiver(TICKET, true);
    bring_up(&mut app);
    let opened = app.advance(&Event::Failed("broken pipe".to_string()));
    tear_down(&mut app, opened);
    assert_eq!(app.outcome().session, Some(SessionError::Io("broken pipe".to_string())));
}

#[test]
fn a_destination_that_cannot_be_created_ends_the_flow() {
    let mut app = downloading(true);
    assert!(matches!(app.advance(&Event::Done), Action::CreateDestination(_)));
    let opened = app.advance(&Event::Failed("file exists".to_string()));
    tear_down(&mut app, opened);
    assert_eq!(app.outcome().session, Some(SessionError::Io("file exists".to_string())));
}

#[test]
fn a_failed_read_or_write_ends_the_flow() {
    let mut app = downloading(true);
    app.advance(&Event::Done);
    assert!(matches!(app.advance(&Event::Done), Action::ReadContent { .. }));
    let opened = app.advance(&Event::Failed("store closed".to_string()));
    tear_down(&mut app, opened);
    assert_eq!(app.outcome().session, Some(SessionError::Io("store closed".to_string())));

    let mut app = downloading(true);
    app.advance(&Event::Done);
    app.advance(&Event::Done);
    assert!(matches!(app.advance(&Event::Done), Action::WriteContent));
    let opened = app.advance(&Event::Failed("disk full".to_string()));
    tear_down(&mut app, opened);
    assert_eq!(app.outcome().session, Some(SessionError::Io("disk full".to_string())));
}

#[test]
fn a_failed_teardown_stands_beside_a_failed_transfer() {
    let mut app = downloading(false);
    assert!(matches!(app.advance(&Event::TimedOut), Action::ShutdownRouter));
    assert!(matches!(app.advance(&Event::Failed("router hung".to_string())), Action::Finished));
    let outcome = app.outcome();
    assert_eq!(outcome.session, Some(SessionError::ConnectionTimeout));
    assert_eq!(outcome.host, Some(SessionError::HostLifecycle("router hung".to_string())));
}

#[test]
fn a_failed_teardown_shows_after_a_transfer_that_went_through() {
    let mut app = downloading(true);
    app.advance(&Event::Done);
    app.advance(&Event::Done);
    app.advance(&Event::Done);
    app.advance(&Event::Done);
    assert!(matches!(app.advance(&Event::Done), Action::ShutdownRouter));
    assert!(matches!(app.advance(&Event::Done), Action::ShutdownPool));
    assert!(matches!(app.advance(&Event::Failed("pool stuck".to_string())), Action::Finished));
    let outcome = app.outcome();
    assert_eq!(outcome.session, None);
    assert_eq!(outcome.host, Some(SessionError::HostLifecycle("pool stuck".to_string())));
    assert!(!outcome.is_success());
}

#[test]
fn a_host_that_does_not_come_up_ends_the_run_before_the_transfer() {
    let mut app = receiver(TICKET, true);
    assert!(matches!(app.advance(&Event::Begin), Action::BindEndpoint));
    assert!(matches!(app.advance(&Event::Failed("no network".to_string())), Action::Finished));
    assert!(matches!(app.stage, Stage::Ready));
    assert!(matches!(app.advance(&Event::Done), Action::Finished));
    assert!(matches!(app.stage, Stage::Ready));
    let outcome = app.outcome();
    assert_eq!(outcome.session, None);
    assert_eq!(outcome.host, Some(SessionError::HostLifecycle("no network".to_string())));
}

#[test]
fn the_receive_flow_waits_for_the_host() {
    let mut app = receiver(TICKET, true);
    assert!(matches!(app.process_recieve(&Event::Begin), Action::Finished));
    assert!(matches!(app.process_all(&Event::Begin), Action::Finished));
    assert!(matches!(app.stage, Stage::Ready));
}

#[test]
fn the_send_flow_has_no_say_in_a_receiving_run() {
    let mut app = receiver(TICKET, true);
    bring_up(&mut app);
    assert!(matches!(app.process_send(&Event::Done), Action::Finished));
    assert!(matches!(app.stage, Stage::Announcing));
    assert!(matches!(app.process_all(&Event::Done), Action::Download { .. }));
}

#[test]
fn the_flows_can_be_driven_one_by_one() {
    let mut app = receiver(TICKET, false);
    assert!(matches!(app.start(&Event::Begin), Action::BindEndpoint));
    assert!(matches!(app.start(&Event::Bound([9; 32])), Action::BuildStore));
    assert!(matches!(app.start(&Event::Done), Action::SpawnRouter));
    assert!(matches!(app.start(&Event::Done), Action::Finished));
    assert!(matches!(app.process_all(&Event::Begin), Action::Print(_)));
    assert!(matches!(app.process_all(&Event::Done), Action::Download { .. }));
    assert!(matches!(app.process_all(&Event::TimedOut), Action::Finished));
    assert!(app.has_failed());
    assert!(matches!(app.shutdown(&Event::Begin), Action::ShutdownRouter));
    assert!(matches!(app.shutdown(&Event::Done), Action::ShutdownPool));
    assert!(matches!(app.shutdown(&Event::Done), Action::Finished));
    assert_eq!(app.outcome().session, Some(SessionError::ConnectionTimeout));
}

#[test]
fn a_receive_step_takes_the_ticket_that_was_read() {
    let mut app = receiver(TICKET, false);
    bring_up(&mut app);
    let peer = PeerAddress { node_id: [3; 32], relay_url: None, direct_addresses: Vec::new() };
    let read = Ticket::new(peer, [4; 32], ContentFormat::HashSeq);
    match app.receive_step(&Event::Done, Some(read)) {
        Action::Download { ticket, timeout_secs } => {
            assert_eq!(timeout_secs, 5);
            assert_eq!(ticket.peer_address.node_id, [3; 32]);
            assert_eq!(ticket.content_hash, [4; 32]);
            assert_eq!(ticket.content_format, ContentFormat::HashSeq);
        },
        other => panic!("expected a download, got {:?}", other),
    }
    assert!(matches!(app.receive_step(&Event::Done, None), Action::CreateDestination(_)));
    match app.receive_step(&Event::Done, None) {
        Action::ReadContent { hash, offset } => {
            assert_eq!(hash, [4; 32]);
            assert_eq!(offset, 0);
        },
        other => panic!("expected the content to be read, got {:?}", other),
    }
}

#[test]
fn a_receive_step_without_a_ticket_ends_the_flow() {
    let mut app = receiver(TICKET, false);
    bring_up(&mut app);
    assert!(matches!(app.receive_step(&Event::Done, None), Action::Finished));
    assert!(matches!(app.stage, Stage::Failed(SessionError::MalformedTicket)));
}

#[test]
fn a_receiving_run_is_over_after_twelve_steps() {
    let mut app = receiver(TICKET, true);
    let mut steps = 0;
    let mut action = app.advance(&Event::Begin);
    steps += 1;
    while !matches!(action, Action::Finished) {
        let answer = match action {
            Action::BindEndpoint => Event::Bound([9; 32]),
            _ => Event::Done,
        };
        action = app.advance(&answer);
        steps += 1;
        assert!(steps <= 12);
    }
    assert_eq!(steps, 12);
    assert_eq!(app.iroh_data.phase, HostPhase::Stopped);
    assert!(matches!(app.stage, Stage::Completed));
    assert!(matches!(app.advance(&Event::Done), Action::Finished));
    assert_eq!(app.iroh_data.phase, HostPhase::Stopped);
}
