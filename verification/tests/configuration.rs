use peer_transfer::{App, Args, ConfigFault, HostPhase, SessionError, SessionMode, Stage};

fn rejected(send: bool, receive: bool, ticket: Option<&str>, path_exists: bool) -> ConfigFault {
    let ticket = ticket.map(|t| t.to_string());
    match Args::new(send, receive, ticket, "file.bin".to_string(), path_exists) {
        Err(SessionError::InvalidConfiguration(fault)) => fault,
        other => panic!("expected a turned-down configuration, got {:?}", other),
    }
}

#[test]
fn send_alone_is_accepted() {
    let args = Args::new(true, false, None, "file.bin".to_string(), true).unwrap();
    assert!(args.send);
    assert!(!args.receive);
    assert_eq!(args.ticket, None);
    assert_eq!(args.path, "file.bin");
    assert_eq!(args.mode(), Some(SessionMode::Send));
}

#[test]
fn receive_with_ticket_and_fresh_destination_is_accepted() {
    let args =
        Args::new(false, true, Some("blobabc".to_string()), "out.bin".to_string(), false).unwrap();
    assert!(args.receive);
    assert_eq!(args.ticket, Some("blobabc".to_string()));
    assert_eq!(args.path, "out.bin");
    assert_eq!(args.mode(), Some(SessionMode::Receive));
}

#[test]
fn both_modes_are_rejected() {
    assert_eq!(rejected(true, true, Some("blobabc"), false), ConfigFault::BothModes);
    assert_eq!(rejected(true, true, None, true), ConfigFault::BothModes);
}

#[test]
fn no_mode_is_rejected() {
    assert_eq!(rejected(false, false, None, false), ConfigFault::NoMode);
    assert_eq!(rejected(false, false, Some("blobabc"), true), ConfigFault::NoMode);
}

#[test]
fn receive_without_ticket_is_rejected_whatever_the_path() {
    assert_eq!(rejected(false, true, None, false), ConfigFault::MissingTicket);
    assert_eq!(rejected(false, true, None, true), ConfigFault::MissingTicket);
    assert_eq!(rejected(false, true, Some(""), false), ConfigFault::MissingTicket);
    assert_eq!(rejected(false, true, Some(""), true), ConfigFault::MissingTicket);
}

#[test]
fn receive_into_an_existing_destination_is_rejected() {
    assert_eq!(rejected(false, true, Some("blobabc"), true), ConfigFault::DestinationExists);
}

#[test]
fn send_does_not_mind_an_existing_path_or_a_ticket() {
    assert!(Args::new(true, false, Some("blobabc".to_string()), "f".to_string(), true).is_ok());
    assert!(Args::new(true, false, Some(String::new()), "f".to_string(), false).is_ok());
}

#[test]
fn run_checks_holds_a_hand_made_configuration_to_the_rules() {
    let args = Args { send: false, receive: true, ticket: None, path: "out.bin".to_string() };
    assert_eq!(
        args.run_checks(false),
        Err(SessionError::InvalidConfiguration(ConfigFault::MissingTicket))
    );
    assert_eq!(args.mode(), Some(SessionMode::Receive));
    let args = Args { send: true, receive: true, ticket: None, path: "out.bin".to_string() };
    assert_eq!(args.mode(), None);
    let args = Args { send: true, receive: false, ticket: None, path: "in.bin".to_string() };
    assert_eq!(args.run_checks(true), Ok(()));
}

#[test]
fn fault_texts() {
    assert_eq!(ConfigFault::MissingTicket.message(), "A non-empty ticket must be specified.");
    assert_eq!(
        ConfigFault::DestinationExists.message(),
        "The recieving path can't be an existing one."
    );
    assert_eq!(
        ConfigFault::BothModes.message(),
        "Sending and receiving can't be asked for together."
    );
    assert_eq!(ConfigFault::NoMode.message(), "Either sending or receiving must be asked for.");
}

#[test]
fn error_texts() {
    assert_eq!(
        SessionError::InvalidConfiguration(ConfigFault::MissingTicket).message(),
        "A non-empty ticket must be specified."
    );
    assert_eq!(SessionError::MalformedTicket.message(), "The ticket is malformed.");
    assert_eq!(
        SessionError::ConnectionTimeout.message(),
        "Ticket connection timed out.\nMake sure the sender hasn't closed their connection and that you're using the right ticket."
    );
    assert_eq!(SessionError::PathNotFound("no such file".to_string()).message(), "no such file");
    assert_eq!(SessionError::Io("disk full".to_string()).message(), "disk full");
    assert_eq!(SessionError::HostLifecycle("bind failed".to_string()).message(), "bind failed");
    let error = SessionError::Io("disk full".to_string());
    assert_eq!(error.clone(), error);
}

#[test]
fn init_turns_a_bad_configuration_down_before_anything_starts() {
    let both = App::init(true, true, None, "f".to_string(), false, true);
    assert!(matches!(both, Err(SessionError::InvalidConfiguration(ConfigFault::BothModes))));
    let neither = App::init(false, false, None, "f".to_string(), false, true);
    assert!(matches!(neither, Err(SessionError::InvalidConfiguration(ConfigFault::NoMode))));
    let no_ticket = App::init(false, true, Some(String::new()), "f".to_string(), true, false);
    assert!(matches!(
        no_ticket,
        Err(SessionError::InvalidConfiguration(ConfigFault::MissingTicket))
    ));
    let taken = App::init(false, true, Some("blobabc".to_string()), "f".to_string(), true, false);
    assert!(matches!(
        taken,
        Err(SessionError::InvalidConfiguration(ConfigFault::DestinationExists))
    ));
}

#[test]
fn a_fresh_run_has_nothing_started() {
    let app = App::init(true, false, None, "f".to_string(), true, false).unwrap();
    assert_eq!(app.iroh_data.phase, HostPhase::Down);
    assert_eq!(app.iroh_data.node_id, None);
    assert_eq!(app.iroh_data.fault, None);
    assert!(matches!(app.stage, Stage::Ready));
    assert!(!app.is_output_tty());
    assert!(app.outcome().is_success());
}

#[test]
fn from_args_holds_a_hand_made_configuration_to_the_rules() {
    let args = Args { send: true, receive: true, ticket: None, path: "f".to_string() };
    assert!(matches!(
        App::from_args(args, true),
        Err(SessionError::InvalidConfiguration(ConfigFault::BothModes))
    ));
    let args = Args { send: false, receive: true, ticket: None, path: "f".to_string() };
    assert!(matches!(
        App::from_args(args, true),
        Err(SessionError::InvalidConfiguration(ConfigFault::MissingTicket))
    ));
    let args = Args { send: true, receive: false, ticket: None, path: "f".to_string() };
    let app = App::from_args(args.clone(), true).unwrap();
    assert_eq!(app.args, args);
    assert!(app.is_output_tty());
}
