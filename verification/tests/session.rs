use yourcontrols::clock::NANOS_PER_SEC;
use yourcontrols::{
    Action, ClientRequest, ClientRoute, Config, ConnectionMethod, Facts, Input, NetworkEvent,
    Payload, Player, ProgramAction, Release, Reply, Sender, ServerRequest, ServerRoute, Session,
    SimMessage, SimPurpose, SyncPermission, WindowMessage,
};

const ME: &str = "Ann";

fn text(text: &str) -> String {
    text.to_string()
}

fn config() -> Config {
    Config {
        name: text("old name"),
        ip: text("192.168.0.1"),
        port: 25071,
        conn_timeout: 5,
        update_rate: 30,
        use_upnp: false,
        start_observer: false,
        check_for_betas: false,
    }
}

fn facts() -> Facts {
    Facts {
        now: 0,
        is_host: false,
        server_name: text(ME),
        session_id: None,
        has_control: false,
        client_in_control: None,
        next_for_control: None,
        number_clients: 0,
    }
}

fn as_host() -> Facts {
    let mut facts = facts();
    facts.is_host = true;
    facts.session_id = Some(text("XYZ789"));
    facts
}

fn at(seconds: u64) -> Facts {
    let mut facts = facts();
    facts.now = seconds * NANOS_PER_SEC;
    facts
}

fn server_request(method: ConnectionMethod) -> ServerRequest {
    ServerRequest {
        username: text(ME),
        port: 7777,
        isipv6: false,
        method,
        use_upnp: true,
    }
}

fn client_request(method: ConnectionMethod) -> ClientRequest {
    ClientRequest {
        session_id: text("ABC123"),
        username: text(ME),
        method,
        ip: Some(text("10.0.0.7")),
        port: Some(25),
        isipv6: false,
        hostname: None,
    }
}

fn player(name: &str) -> Player {
    Player {
        name: text(name),
        in_control: false,
        is_observer: false,
        is_server: false,
    }
}

/// A session with a connection, joined with the given settings.
fn connected_with(settings: Config) -> Session {
    let mut session = Session::new(settings, 0);
    session.handle(
        Input::Reply(Reply::ClientOpened {
            request: client_request(ConnectionMethod::Direct),
            result: Ok(()),
        }),
        &facts(),
    );
    assert!(session.has_client());
    session
}

fn connected() -> Session {
    connected_with(config())
}

/// A session that exchanges data since the third second.
fn exchanging() -> Session {
    let mut session = connected();
    session.handle(Input::Reply(Reply::ConnectionStamped), &at(0));
    session.handle(Input::Tick, &at(3));
    session
}

fn update(session: &mut Session, sender: Sender) -> Vec<Action> {
    session.handle(Input::Reply(Reply::SenderFound { sender, body: 41 }), &facts())
}

fn shown_config(session: &mut Session) -> Config {
    for action in session.handle(Input::Window(WindowMessage::Startup), &facts()) {
        if let Action::ShowConfig { config } = action {
            return config;
        }
    }
    panic!("no settings shown");
}

// The start of the program

#[test]
fn settings_that_were_read_are_kept() {
    let mut default = config();
    default.name = text("default");
    let (mut session, actions) = Session::start(Some(config()), default, 0);
    assert_eq!(actions, vec![]);
    assert_eq!(shown_config(&mut session), config());
}

#[test]
fn default_settings_are_written() {
    let (mut session, actions) = Session::start(None, config(), 0);
    assert_eq!(actions, vec![Action::WriteConfig { config: config() }]);
    assert_eq!(shown_config(&mut session), config());
}

#[test]
fn program_starts_without_a_connection() {
    let session = Session::new(config(), 0);
    assert!(!session.has_client());
    assert!(!session.should_exit(false));
    assert!(session.should_exit(true));
}

// The simulator

#[test]
fn simulator_messages() {
    let mut session = connected();
    let mut answer = |message: SimMessage| session.handle(Input::Sim(message), &facts());
    assert_eq!(answer(SimMessage::SimobjectData { body: 1 }), vec![Action::ProcessSimObjectData { body: 1 }]);
    assert_eq!(answer(SimMessage::ClientData { body: 2 }), vec![Action::ProcessClientData { body: 2 }]);
    assert_eq!(answer(SimMessage::Event { body: 3 }), vec![Action::ProcessEventData { body: 3 }]);
    assert_eq!(answer(SimMessage::Exception), vec![]);
    assert_eq!(answer(SimMessage::Other), vec![]);
    assert_eq!(answer(SimMessage::Quit), vec![Action::Stop { reason: text("Sim closed.") }]);
}

// Data

#[test]
fn sender_of_an_update_is_looked_up() {
    let mut session = connected();
    assert_eq!(
        session.handle(Input::Payload(Payload::Update { from: text("Bob"), body: 41 }), &facts()),
        vec![Action::LookUpSender { name: text("Bob"), body: 41 }]
    );
}

#[test]
fn update_is_applied_in_the_role_of_its_sender() {
    let mut session = exchanging();
    for (is_server, has_control) in [(false, false), (false, true), (true, false), (true, true)] {
        assert_eq!(
            update(&mut session, Sender { is_observer: false, is_server, has_control }),
            vec![Action::ApplyUpdate {
                body: 41,
                permission: SyncPermission { is_server, is_master: has_control, is_init: true },
            }]
        );
    }
}

#[test]
fn update_of_an_observer_is_not_applied() {
    let mut session = exchanging();
    assert_eq!(
        update(&mut session, Sender { is_observer: true, is_server: true, has_control: true }),
        vec![]
    );
}

#[test]
fn update_before_the_exchange_is_not_applied() {
    let mut session = connected();
    assert_eq!(
        update(&mut session, Sender { is_observer: false, is_server: true, has_control: true }),
        vec![]
    );
}

#[test]
fn failed_update_stops_the_connection() {
    let mut session = exchanging();
    let mut answer = |result: Result<(), String>| {
        session.handle(Input::Reply(Reply::UpdateApplied { result }), &facts())
    };
    assert_eq!(answer(Ok(())), vec![]);
    assert_eq!(answer(Err(text("bad data"))), vec![Action::Stop { reason: text("bad data") }]);
}

#[test]
fn failed_step_stops_the_connection() {
    let mut session = connected();
    let mut answer = |result: Result<(), String>| session.handle(Input::Stepped { result }, &facts());
    assert_eq!(answer(Ok(())), vec![]);
    assert_eq!(answer(Err(text("broken"))), vec![Action::Stop { reason: text("broken") }]);
}

#[test]
fn readiness_is_announced_once_after_three_seconds() {
    let mut session = connected();
    assert_eq!(session.handle(Input::Tick, &at(100)), vec![]);
    assert_eq!(session.handle(Input::Reply(Reply::ConnectionStamped), &at(100)), vec![]);
    let mut early = at(103);
    early.now -= 1;
    assert_eq!(session.handle(Input::Tick, &early), vec![]);
    assert_eq!(session.handle(Input::Tick, &at(103)), vec![Action::ResetSync, Action::SendReady]);
    assert_eq!(
        session.handle(Input::Tick, &at(103)),
        vec![Action::CollectUpdates {
            permission: SyncPermission { is_server: false, is_master: false, is_init: false },
        }]
    );
}

#[test]
fn host_does_not_announce_readiness() {
    let mut session = connected();
    session.handle(Input::Reply(Reply::ConnectionStamped), &at(0));
    let mut facts = as_host();
    facts.now = 3 * NANOS_PER_SEC;
    assert_eq!(session.handle(Input::Tick, &facts), vec![Action::ResetSync]);
}

#[test]
fn data_is_sent_at_the_update_rate() {
    let mut session = exchanging();
    let mut facts = as_host();
    facts.has_control = true;
    facts.now = 10 * NANOS_PER_SEC;
    let sent = || {
        vec![Action::CollectUpdates {
            permission: SyncPermission { is_server: true, is_master: true, is_init: false },
        }]
    };
    assert_eq!(session.handle(Input::Tick, &facts), sent());
    assert_eq!(session.handle(Input::Reply(Reply::UpdatesWritten), &facts), vec![]);
    // A thirtieth of a second is 33 333 333.3 nanoseconds
    facts.now += 33_333_333;
    assert_eq!(session.handle(Input::Tick, &facts), vec![]);
    facts.now += 1;
    assert_eq!(session.handle(Input::Tick, &facts), sent());
}

#[test]
fn observer_sends_no_data() {
    let mut session = exchanging();
    assert_eq!(
        session.handle(Input::Payload(Payload::SetObserver { to: text(ME), is_observer: true }), &facts()),
        vec![Action::ShowSelfObserving { is_observer: true }]
    );
    assert_eq!(session.handle(Input::Tick, &at(10)), vec![]);
    assert_eq!(
        session.handle(Input::Payload(Payload::SetObserver { to: text(ME), is_observer: false }), &facts()),
        vec![Action::ShowSelfObserving { is_observer: false }, Action::ResetSync]
    );
    assert_eq!(session.handle(Input::Tick, &at(10)).len(), 1);
}

#[test]
fn another_observer_is_noted_and_shown() {
    let mut session = connected();
    assert_eq!(
        session.handle(Input::Payload(Payload::SetObserver { to: text("Bob"), is_observer: true }), &facts()),
        vec![
            Action::SetObserver { name: text("Bob"), is_observer: true },
            Action::ShowObserving { name: text("Bob"), is_observer: true },
        ]
    );
}

#[test]
fn all_data_goes_to_one_who_is_ready() {
    let mut session = connected();
    let mut facts = facts();
    assert_eq!(session.handle(Input::Payload(Payload::Ready), &facts), vec![]);
    facts.has_control = true;
    assert_eq!(
        session.handle(Input::Payload(Payload::Ready), &facts),
        vec![Action::SendAllCurrent { is_unreliable: false }]
    );
}

// Control

#[test]
fn control_comes_here() {
    let mut session = connected();
    assert_eq!(
        session.handle(Input::Payload(Payload::TransferControl { from: text("Bob"), to: text(ME) }), &facts()),
        vec![Action::ResetSync, Action::TakeControl, Action::ShowGainControl, Action::SetNoControl]
    );
}

#[test]
fn control_goes_from_here() {
    let mut session = connected();
    assert_eq!(
        session.handle(Input::Payload(Payload::TransferControl { from: text(ME), to: text("Bob") }), &facts()),
        vec![
            Action::ResetSync,
            Action::ShowLoseControl,
            Action::LoseControl,
            Action::ShowInControl { name: text("Bob") },
            Action::SetClientControl { name: text("Bob") },
        ]
    );
}

#[test]
fn control_goes_between_others() {
    let mut session = connected();
    assert_eq!(
        session.handle(Input::Payload(Payload::TransferControl { from: text("Cid"), to: text("Bob") }), &facts()),
        vec![
            Action::ResetSync,
            Action::ShowInControl { name: text("Bob") },
            Action::SetClientControl { name: text("Bob") },
        ]
    );
}

#[test]
fn control_is_asked_for_in_the_window() {
    let mut session = connected();
    assert_eq!(
        session.handle(Input::Window(WindowMessage::TransferControl { target: text("Bob") }), &facts()),
        vec![Action::SendTransferControl { target: text("Bob") }]
    );
    assert_eq!(session.handle(Input::Window(WindowMessage::ForceTakeControl), &facts()), vec![]);
    let mut held = facts();
    held.client_in_control = Some(text("Bob"));
    assert_eq!(
        session.handle(Input::Window(WindowMessage::ForceTakeControl), &held),
        vec![Action::SendTakeControl { target: text("Bob") }]
    );
}

#[test]
fn controls_take_control_from_a_client() {
    let mut session = connected();
    let mut facts = facts();
    assert_eq!(session.handle(Input::Program(ProgramAction::TakeControls), &facts), vec![]);
    facts.client_in_control = Some(text("Bob"));
    let taken = || vec![Action::TakeControl, Action::SendTakeControl { target: text("Bob") }];
    assert_eq!(session.handle(Input::Program(ProgramAction::TakeControls), &facts), taken());
    assert_eq!(session.handle(Input::Program(ProgramAction::TransferControls), &facts), taken());
    facts.has_control = true;
    assert_eq!(session.handle(Input::Program(ProgramAction::TakeControls), &facts), vec![]);
}

#[test]
fn controls_of_an_observer_take_nothing() {
    let mut session = connected();
    session.handle(Input::Payload(Payload::SetObserver { to: text(ME), is_observer: true }), &facts());
    let mut facts = facts();
    facts.client_in_control = Some(text("Bob"));
    assert_eq!(session.handle(Input::Program(ProgramAction::TakeControls), &facts), vec![]);
    // The other switch does not look at it
    assert_eq!(session.handle(Input::Program(ProgramAction::TransferControls), &facts).len(), 2);
}

#[test]
fn controls_hand_control_on() {
    let mut session = connected();
    let mut facts = facts();
    facts.has_control = true;
    facts.client_in_control = Some(text("Bob"));
    assert_eq!(session.handle(Input::Program(ProgramAction::TransferControls), &facts), vec![]);
    facts.next_for_control = Some(text("Cid"));
    assert_eq!(
        session.handle(Input::Program(ProgramAction::TransferControls), &facts),
        vec![Action::SendTransferControl { target: text("Cid") }]
    );
}

// Participants

#[test]
fn newcomer_is_put_on_the_list_first() {
    let mut session = connected();
    assert_eq!(
        session.handle(Input::Payload(Payload::PlayerJoined(player("Bob"))), &as_host()),
        vec![Action::AddClient { player: player("Bob") }]
    );
}

#[test]
fn newcomer_to_another_host() {
    let mut session = connected();
    let mut newcomer = player("Bob");
    newcomer.in_control = true;
    newcomer.is_server = true;
    assert_eq!(
        session.handle(Input::Reply(Reply::ClientAdded { player: newcomer }), &facts()),
        vec![
            Action::ShowNewConnection { name: text("Bob") },
            Action::ShowObserving { name: text("Bob"), is_observer: false },
            Action::SetServer { name: text("Bob"), is_server: true },
            Action::SetObserver { name: text("Bob"), is_observer: false },
            Action::ShowInControl { name: text("Bob") },
            Action::SetClientControl { name: text("Bob") },
        ]
    );
}

#[test]
fn newcomer_to_this_host() {
    let mut session = connected();
    let mut facts = as_host();
    facts.number_clients = 2;
    assert_eq!(
        session.handle(Input::Reply(Reply::ClientAdded { player: player("Bob") }), &facts),
        vec![
            Action::ShowServerStarted { clients: 2, session_id: Some(text("XYZ789")) },
            Action::SendDefinitions { target: text("Bob") },
            Action::ShowNewConnection { name: text("Bob") },
            Action::ShowObserving { name: text("Bob"), is_observer: false },
            Action::SetServer { name: text("Bob"), is_server: false },
            Action::SetObserver { name: text("Bob"), is_observer: false },
        ]
    );
}

#[test]
fn newcomer_made_an_observer() {
    let mut settings = config();
    settings.start_observer = true;
    let mut session = connected_with(settings);
    let mut facts = as_host();
    facts.number_clients = 65_537;
    assert_eq!(
        session.handle(Input::Reply(Reply::ClientAdded { player: player("Bob") }), &facts),
        vec![
            // Sixteen bits of the number are shown
            Action::ShowServerStarted { clients: 1, session_id: Some(text("XYZ789")) },
            Action::SendDefinitions { target: text("Bob") },
            Action::SendSetObserver { target: text("Bob"), is_observer: true },
            Action::ShowNewConnection { name: text("Bob") },
            Action::ShowObserving { name: text("Bob"), is_observer: true },
            Action::SetServer { name: text("Bob"), is_server: false },
            Action::SetObserver { name: text("Bob"), is_observer: true },
        ]
    );
    // One who is no host makes no observers
    assert_eq!(
        session.handle(Input::Reply(Reply::ClientAdded { player: player("Bob") }), &self::facts())[1],
        Action::ShowObserving { name: text("Bob"), is_observer: false }
    );
}

#[test]
fn leaver_is_taken_off_the_list_first() {
    let mut session = connected();
    assert_eq!(
        session.handle(Input::Payload(Payload::PlayerLeft { name: text("Bob") }), &facts()),
        vec![Action::RemoveClient { name: text("Bob") }]
    );
}

#[test]
fn host_takes_back_the_control_of_a_leaver() {
    let mut session = connected();
    let mut facts = as_host();
    facts.number_clients = 3;
    let mut leave = |had_control: bool, facts: &Facts| {
        session.handle(Input::Reply(Reply::ClientRemoved { name: text("Bob"), had_control }), facts)
    };
    let report = || Action::ShowServerStarted { clients: 3, session_id: Some(text("XYZ789")) };
    let lost = || Action::ShowLostConnection { name: text("Bob") };
    assert_eq!(
        leave(true, &facts),
        vec![
            Action::SetNoControl,
            Action::ShowGainControl,
            Action::TakeControl,
            Action::SendTransferControl { target: text(ME) },
            lost(),
            report(),
        ]
    );
    assert_eq!(leave(false, &facts), vec![lost(), report()]);
    facts.is_host = false;
    assert_eq!(leave(true, &facts), vec![Action::SetNoControl, lost()]);
    assert_eq!(leave(false, &facts), vec![lost()]);
}

// The connection

#[test]
fn payloads_between_connections_are_ignored() {
    let mut session = connected();
    for payload in [
        Payload::Handshake,
        Payload::HostingReceived,
        Payload::AttemptConnection,
        Payload::PeerEstablished,
        Payload::InvalidVersion,
        Payload::InvalidName,
        Payload::RequestHosting,
        Payload::InitHandshake,
        Payload::Heartbeat,
    ] {
        assert_eq!(session.handle(Input::Payload(payload), &as_host()), vec![]);
    }
}

#[test]
fn host_is_shown() {
    let mut session = connected();
    assert_eq!(session.handle(Input::Payload(Payload::SetHost), &facts()), vec![Action::ShowHost]);
}

#[test]
fn denied_connection_is_stopped() {
    let mut session = connected();
    assert_eq!(
        session.handle(Input::Payload(Payload::ConnectionDenied { reason: text("full") }), &facts()),
        vec![Action::Stop { reason: text("Connection Denied: full") }]
    );
}

#[test]
fn received_definitions_are_loaded_and_mapped() {
    let mut session = connected();
    assert_eq!(
        session.handle(Input::Payload(Payload::AircraftDefinition { body: 9 }), &facts()),
        vec![Action::LoadReceivedDefinitions { body: 9 }, Action::StampConnection]
    );
    assert_eq!(
        session.handle(Input::Reply(Reply::DefinitionsReceived { loaded: true }), &facts()),
        vec![Action::ConnectControl, Action::ConnectReceivedDefinitions, Action::LoseControl]
    );
    assert_eq!(session.handle(Input::Reply(Reply::DefinitionsReceived { loaded: false }), &facts()), vec![]);
    assert_eq!(session.handle(Input::Reply(Reply::DefinitionsConnected { connected: true }), &facts()), vec![]);
    assert_eq!(
        session.handle(Input::Reply(Reply::DefinitionsConnected { connected: false }), &facts()),
        vec![Action::Stop {
            reason: text("Error starting WS server. Do you have another YourControls open?"),
        }]
    );
}

#[test]
fn established_connection() {
    let mut session = connected();
    let mut facts = as_host();
    facts.number_clients = 4;
    assert_eq!(
        session.handle(Input::Event(NetworkEvent::ConnectionEstablished), &facts),
        vec![
            Action::ShowServerStarted { clients: 0, session_id: Some(text("XYZ789")) },
            Action::TakeControl,
            Action::ShowGainControl,
            Action::StampConnection,
        ]
    );
    facts.is_host = false;
    assert_eq!(
        session.handle(Input::Event(NetworkEvent::ConnectionEstablished), &facts),
        vec![Action::ShowConnected, Action::ShowLoseControl]
    );
}

#[test]
fn failures_of_the_network_are_shown() {
    let mut session = connected();
    assert_eq!(
        session.handle(Input::Event(NetworkEvent::UnablePunchthrough), &facts()),
        vec![Action::ShowClientFail {
            reason: text("Could not connect to host! Please port forward or use 'Cloud Host'!"),
        }]
    );
    assert_eq!(
        session.handle(Input::Event(NetworkEvent::SessionIdFetchFailed), &facts()),
        vec![Action::ShowServerFail {
            reason: text("Could not connect to Cloud Server to fetch session ID."),
        }]
    );
    assert_eq!(
        session.handle(Input::Event(NetworkEvent::Metrics { body: 5 }), &facts()),
        vec![Action::ShowNetwork { body: 5 }]
    );
}

#[test]
fn lost_connection_is_let_go_at_the_end_of_the_pass() {
    let mut session = exchanging();
    session.handle(Input::Payload(Payload::SetObserver { to: text(ME), is_observer: true }), &facts());
    assert_eq!(
        session.handle(Input::Event(NetworkEvent::ConnectionLost { reason: text("timeout") }), &facts()),
        vec![
            Action::TakeControl,
            Action::ResetClients,
            Action::ShowClientFail { reason: text("timeout") },
        ]
    );
    // Until the pass ends, messages are still heard
    assert!(session.has_client());
    assert_eq!(session.handle(Input::Payload(Payload::SetHost), &facts()), vec![Action::ShowHost]);
    assert_eq!(session.handle(Input::LoopEnd, &facts()), vec![Action::DropClient, Action::CloseSim]);
    assert!(!session.has_client());
    assert_eq!(session.handle(Input::Payload(Payload::SetHost), &facts()), vec![]);
    assert_eq!(session.handle(Input::LoopEnd, &facts()), vec![]);
}

#[test]
fn readiness_starts_over_with_a_new_connection() {
    let mut session = exchanging();
    session.handle(Input::Event(NetworkEvent::ConnectionLost { reason: text("timeout") }), &facts());
    session.handle(Input::LoopEnd, &facts());
    session.handle(
        Input::Reply(Reply::ClientOpened {
            request: client_request(ConnectionMethod::CloudServer),
            result: Ok(()),
        }),
        &facts(),
    );
    assert_eq!(session.handle(Input::Tick, &at(50)), vec![]);
    session.handle(Input::Reply(Reply::ConnectionStamped), &at(50));
    assert_eq!(session.handle(Input::Tick, &at(53)), vec![Action::ResetSync, Action::SendReady]);
}

#[test]
fn nothing_is_said_without_a_connection() {
    let mut session = Session::new(config(), 0);
    let mut facts = as_host();
    facts.has_control = true;
    facts.client_in_control = Some(text("Bob"));
    facts.next_for_control = Some(text("Bob"));
    for input in [
        Input::Sim(SimMessage::Quit),
        Input::Payload(Payload::Ready),
        Input::Payload(Payload::PlayerLeft { name: text("Bob") }),
        Input::Event(NetworkEvent::ConnectionEstablished),
        Input::Stepped { result: Err(text("broken")) },
        Input::Program(ProgramAction::TransferControls),
        Input::Tick,
        Input::Window(WindowMessage::Disconnect),
        Input::Window(WindowMessage::TransferControl { target: text("Bob") }),
        Input::Window(WindowMessage::ForceTakeControl),
        Input::Reply(Reply::ClientAdded { player: player("Bob") }),
        Input::Reply(Reply::ConnectionStamped),
    ] {
        assert_eq!(session.handle(input, &facts), vec![]);
    }
    assert_eq!(
        session.handle(
            Input::Window(WindowMessage::SetObserver { target: text("Bob"), is_observer: true }),
            &facts
        ),
        vec![Action::SetObserver { name: text("Bob"), is_observer: true }]
    );
}

#[test]
fn short_passes_rest() {
    let mut session = Session::new(config(), 0);
    assert_eq!(session.handle(Input::LoopTimed { millis: 9 }, &facts()), vec![Action::Sleep { millis: 10 }]);
    assert_eq!(session.handle(Input::LoopTimed { millis: 10 }, &facts()), vec![]);
}

// The window

#[test]
fn disconnecting_stops_the_connection() {
    let mut session = connected();
    assert_eq!(
        session.handle(Input::Window(WindowMessage::Disconnect), &facts()),
        vec![Action::Stop { reason: text("Stopped.") }]
    );
}

#[test]
fn observers_are_set_in_the_window() {
    let mut session = connected();
    assert_eq!(
        session.handle(
            Input::Window(WindowMessage::SetObserver { target: text("Bob"), is_observer: true }),
            &facts()
        ),
        vec![
            Action::SetObserver { name: text("Bob"), is_observer: true },
            Action::SendSetObserver { target: text("Bob"), is_observer: true },
        ]
    );
}

#[test]
fn window_starts_up() {
    let mut session = Session::new(config(), 0);
    assert_eq!(
        session.handle(Input::Window(WindowMessage::Startup), &facts()),
        vec![Action::ListAircraft, Action::ShowConfig { config: config() }, Action::CheckVersion]
    );
    assert_eq!(
        session.handle(
            Input::Reply(Reply::AircraftListed { configs: Some(vec![text("A320.yaml"), text("C172.yaml")]) }),
            &facts()
        ),
        vec![
            Action::ShowAircraft { name: text("A320.yaml") },
            Action::ShowAircraft { name: text("C172.yaml") },
        ]
    );
    assert_eq!(session.handle(Input::Reply(Reply::AircraftListed { configs: None }), &facts()), vec![]);
}

#[test]
fn new_version_is_shown() {
    let mut session = Session::new(config(), 0);
    let beta = || Some(Release { version: text("2.6.0-beta"), is_newer: true, is_prerelease: true });
    assert_eq!(session.handle(Input::Reply(Reply::VersionChecked { newest: None }), &facts()), vec![]);
    assert_eq!(session.handle(Input::Reply(Reply::VersionChecked { newest: beta() }), &facts()), vec![]);
    let mut settings = config();
    settings.check_for_betas = true;
    session.handle(Input::Window(WindowMessage::UpdateConfig { new_config: settings }), &facts());
    assert_eq!(
        session.handle(Input::Reply(Reply::VersionChecked { newest: beta() }), &facts()),
        vec![Action::ShowVersion { version: text("2.6.0-beta") }]
    );
}

#[test]
fn installer_ends_the_program() {
    let mut session = Session::new(config(), 0);
    assert_eq!(session.handle(Input::Window(WindowMessage::RunUpdater), &facts()), vec![Action::RunInstaller]);
    assert_eq!(
        session.handle(Input::Reply(Reply::InstallerRun { started: false }), &facts()),
        vec![Action::ShowUpdateFailed]
    );
    assert!(!session.should_exit(false));
    assert_eq!(session.handle(Input::Reply(Reply::InstallerRun { started: true }), &facts()), vec![]);
    assert!(session.should_exit(false));
    session.handle(Input::Reply(Reply::InstallerRun { started: false }), &facts());
    assert!(session.should_exit(false));
}

#[test]
fn new_settings_are_written_and_used() {
    let mut session = exchanging();
    let mut settings = config();
    settings.update_rate = 0;
    assert_eq!(
        session.handle(Input::Window(WindowMessage::UpdateConfig { new_config: settings.clone() }), &facts()),
        vec![Action::WriteConfig { config: settings.clone() }]
    );
    assert_eq!(session.handle(Input::Tick, &at(1000)), vec![]);
    assert_eq!(shown_config(&mut session), settings);
}

// Hosting

fn select(session: &mut Session, aircraft: &str) {
    assert_eq!(
        session.handle(
            Input::Window(WindowMessage::LoadAircraft { config_file_name: text(aircraft) }),
            &facts()
        ),
        vec![]
    );
}

fn sim_connected(session: &mut Session, purpose: SimPurpose, connected: bool) -> Vec<Action> {
    session.handle(Input::Reply(Reply::SimConnected { purpose, connected }), &facts())
}

fn no_sim() -> Action {
    Action::ShowError { message: text("Could not connect to SimConnect! Is the sim running?") }
}

#[test]
fn hosting_succeeds() {
    let mut session = Session::new(config(), 0);
    select(&mut session, "A320.yaml");
    let request = || server_request(ConnectionMethod::Direct);
    assert_eq!(
        session.handle(Input::Window(WindowMessage::StartServer(request())), &facts()),
        vec![Action::ConnectSim { purpose: SimPurpose::Host(request()) }]
    );
    assert_eq!(
        sim_connected(&mut session, SimPurpose::Host(request()), true),
        vec![Action::LoadDefinitions {
            config_name: text("A320.yaml"),
            request: request(),
            connected: true,
        }]
    );
    assert_eq!(
        session.handle(
            Input::Reply(Reply::DefinitionsLoaded { request: request(), connected: true, loaded: true }),
            &facts()
        ),
        vec![
            Action::ConnectDefinitions,
            Action::ConnectControl,
            Action::ShowAttempt,
            Action::OpenServer {
                route: ServerRoute::Listen { isipv6: false, port: 7777, use_upnp: true },
                request: request(),
                conn_timeout: 5,
            },
        ]
    );
    assert!(!session.has_client());
    let mut settings = config();
    settings.port = 7777;
    settings.name = text(ME);
    settings.use_upnp = true;
    assert_eq!(
        session.handle(
            Input::Reply(Reply::ServerOpened { request: request(), result: Ok(()) }),
            &facts()
        ),
        vec![Action::WriteConfig { config: settings }]
    );
    assert!(session.has_client());
}

#[test]
fn hosting_takes_an_aircraft() {
    let mut session = Session::new(config(), 0);
    let refused = || Action::ShowServerFail { reason: text("Select an aircraft config first!") };
    let purpose = || SimPurpose::Host(server_request(ConnectionMethod::Direct));
    assert_eq!(sim_connected(&mut session, purpose(), true), vec![refused()]);
    assert_eq!(sim_connected(&mut session, purpose(), false), vec![no_sim(), refused()]);
}

#[test]
fn unloadable_aircraft_is_deselected() {
    let mut session = Session::new(config(), 0);
    select(&mut session, "broken.yaml");
    assert_eq!(
        session.handle(
            Input::Reply(Reply::DefinitionsLoaded {
                request: server_request(ConnectionMethod::Direct),
                connected: true,
                loaded: false,
            }),
            &facts()
        ),
        vec![Action::ShowError {
            message: text("Error loading definition files. Check the log for more information."),
        }]
    );
    assert_eq!(
        sim_connected(&mut session, SimPurpose::Host(server_request(ConnectionMethod::Direct)), true),
        vec![Action::ShowServerFail { reason: text("Select an aircraft config first!") }]
    );
}

#[test]
fn hosting_without_simulator_opens_nothing() {
    let mut session = Session::new(config(), 0);
    select(&mut session, "A320.yaml");
    let request = || server_request(ConnectionMethod::CloudServer);
    assert_eq!(
        sim_connected(&mut session, SimPurpose::Host(request()), false),
        vec![
            no_sim(),
            Action::LoadDefinitions {
                config_name: text("A320.yaml"),
                request: request(),
                connected: false,
            },
        ]
    );
    assert_eq!(
        session.handle(
            Input::Reply(Reply::DefinitionsLoaded { request: request(), connected: false, loaded: true }),
            &facts()
        ),
        vec![]
    );
    assert_eq!(shown_config(&mut session), config());
}

#[test]
fn failed_hosting_is_shown_except_on_the_relay() {
    for method in [ConnectionMethod::Direct, ConnectionMethod::CloudServer, ConnectionMethod::Relay] {
        let mut session = Session::new(config(), 0);
        let actions = session.handle(
            Input::Reply(Reply::ServerOpened {
                request: server_request(method),
                result: Err(text("port in use")),
            }),
            &facts(),
        );
        let mut settings = config();
        settings.port = 7777;
        settings.name = text(ME);
        settings.use_upnp = true;
        let written = Action::WriteConfig { config: settings };
        if method == ConnectionMethod::Relay {
            assert_eq!(actions, vec![written]);
        } else {
            assert_eq!(actions, vec![Action::ShowServerFail { reason: text("port in use") }, written]);
        }
        assert!(!session.has_client());
    }
}

// Joining

#[test]
fn joining_an_address() {
    let mut session = Session::new(config(), 0);
    let request = || client_request(ConnectionMethod::Direct);
    assert_eq!(
        session.handle(Input::Window(WindowMessage::Connect(request())), &facts()),
        vec![Action::ConnectSim { purpose: SimPurpose::Join(request()) }]
    );
    assert_eq!(
        sim_connected(&mut session, SimPurpose::Join(request()), true),
        vec![
            Action::ShowAttempt,
            Action::OpenClient {
                route: ClientRoute::Dial { ip: text("10.0.0.7"), port: 25 },
                request: request(),
                conn_timeout: 5,
            },
        ]
    );
    let mut settings = config();
    settings.name = text(ME);
    settings.port = 25;
    settings.ip = text("10.0.0.7");
    assert_eq!(
        session.handle(Input::Reply(Reply::ClientOpened { request: request(), result: Ok(()) }), &facts()),
        vec![Action::WriteConfig { config: settings }]
    );
    assert!(session.has_client());
}

#[test]
fn joining_a_host_by_name() {
    let mut session = Session::new(config(), 0);
    let request = || {
        let mut request = client_request(ConnectionMethod::Direct);
        request.ip = None;
        request.hostname = Some(text("example.org"));
        request
    };
    assert_eq!(
        sim_connected(&mut session, SimPurpose::Join(request()), true),
        vec![
            Action::ShowAttempt,
            Action::ResolveHost { hostname: text("example.org"), isipv6: false, request: request() },
        ]
    );
    assert_eq!(
        session.handle(
            Input::Reply(Reply::HostResolved { request: request(), result: Ok(text("93.184.216.34")) }),
            &facts()
        ),
        vec![Action::OpenClient {
            route: ClientRoute::Dial { ip: text("93.184.216.34"), port: 25 },
            request: request(),
            conn_timeout: 5,
        }]
    );
    // The settings keep the address of the request, and it gave none
    let mut settings = config();
    settings.name = text(ME);
    settings.port = 25;
    settings.ip = text("");
    assert_eq!(
        session.handle(Input::Reply(Reply::ClientOpened { request: request(), result: Ok(()) }), &facts()),
        vec![Action::WriteConfig { config: settings }]
    );
}

#[test]
fn unknown_host_fails_without_a_port() {
    let mut session = Session::new(config(), 0);
    let mut request = client_request(ConnectionMethod::Direct);
    request.hostname = Some(text("nowhere"));
    request.port = None;
    let mut settings = config();
    settings.name = text(ME);
    settings.ip = text("10.0.0.7");
    assert_eq!(
        session.handle(
            Input::Reply(Reply::HostResolved { request, result: Err(text("unknown host")) }),
            &facts()
        ),
        vec![
            Action::ShowClientFail { reason: text("unknown host") },
            Action::WriteConfig { config: settings },
        ]
    );
    assert!(!session.has_client());
}

#[test]
fn failed_joining_is_shown_and_its_settings_kept() {
    let mut session = Session::new(config(), 0);
    let mut request = client_request(ConnectionMethod::CloudServer);
    request.ip = None;
    request.port = None;
    let mut settings = config();
    settings.name = text(ME);
    settings.ip = text("");
    assert_eq!(
        session.handle(
            Input::Reply(Reply::ClientOpened { request, result: Err(text("refused")) }),
            &facts()
        ),
        vec![
            Action::ShowClientFail { reason: text("Could not start client! Reason: refused") },
            Action::WriteConfig { config: settings },
        ]
    );
    assert!(!session.has_client());
}

#[test]
fn joining_without_simulator_opens_nothing() {
    let mut session = Session::new(config(), 0);
    assert_eq!(
        sim_connected(&mut session, SimPurpose::Join(client_request(ConnectionMethod::Relay)), false),
        vec![no_sim()]
    );
}
