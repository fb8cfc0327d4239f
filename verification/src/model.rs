//! What a session is and how it moves, in mathematical terms.
//!
//! [`step`] gives, for every input, the state after it and the actions that
//! answer it.
use vstd::prelude::*;

use crate::action::{optional_view, ActionView, ClientRoute};
use crate::clock::{delay_over, interval_over, LOOP_SLEEP_MILLIS};
use crate::config::ConfigView;
use crate::message::{
    ClientRequest, ConnectionMethod, Facts, Input, NetworkEvent, Payload, Player, ProgramAction,
    Reply, ServerRequest, SimMessage, SimPurpose, SyncPermission, WindowMessage,
};
use crate::startup::{
    client_failure, client_plan, offered, server_route_of, startable, ClientPlan,
};

verus! {

/// The state of a session.
#[verifier::ext_equal]
pub struct SessionView {
    pub config: ConfigView,
    /// The aircraft selected for hosting; empty where none is.
    pub config_to_load: Seq<char>,
    /// Whether there is a connection.
    pub has_client: bool,
    /// Whether the connection is let go at the end of this pass.
    pub should_set_none_client: bool,
    /// Whether this participant only observes.
    pub observing: bool,
    /// Whether data is exchanged.
    pub ready_to_process_data: bool,
    /// When the connection began.
    pub connection_time: Option<u64>,
    /// When data was last sent.
    pub update_rate_instant: u64,
    /// Whether an installer was started.
    pub installer_spawned: bool,
}

/// A session whose parts agree: data flows only on a connection that has begun,
/// and only an existing connection can have begun or be let go.
pub open spec fn consistent(s: SessionView) -> bool {
    &&& s.ready_to_process_data ==> s.connection_time is Some
    &&& s.connection_time is Some ==> s.has_client
    &&& s.should_set_none_client ==> s.has_client
}

/// The actions named, where a condition holds; otherwise none.
pub open spec fn only_if(condition: bool, actions: Seq<ActionView>) -> Seq<ActionView> {
    if condition {
        actions
    } else {
        seq![]
    }
}

/// A session at the start of the program.
pub open spec fn initial(config: ConfigView, now: u64) -> SessionView {
    SessionView {
        config,
        config_to_load: seq![],
        has_client: false,
        should_set_none_client: false,
        observing: false,
        ready_to_process_data: false,
        connection_time: None,
        update_rate_instant: now,
        installer_spawned: false,
    }
}

/// The settings with which the program starts, and what is done about them:
/// where none could be read, the default ones are taken, and written.
pub open spec fn first_config(read: Option<ConfigView>, default: ConfigView) -> (
    ConfigView,
    Seq<ActionView>,
) {
    match read {
        Some(config) => (config, seq![]),
        None => (default, seq![ActionView::WriteConfig { config: default }]),
    }
}

/// The number of clients as the window shows it, in sixteen bits.
pub open spec fn shown_clients(number_clients: usize) -> u16 {
    (number_clients % 0x1_0000) as u16
}

/// The window learns that the session is hosted, and by how many it is joined.
pub open spec fn server_report(facts: Facts) -> ActionView {
    ActionView::ShowServerStarted {
        clients: shown_clients(facts.number_clients),
        session_id: optional_view(facts.session_id),
    }
}

/// Whether a name is the name of this participant.
pub open spec fn is_self(name: Seq<char>, facts: Facts) -> bool {
    name == facts.server_name@
}

/// What is done with a message of the simulator.
pub open spec fn sim_actions(message: SimMessage) -> Seq<ActionView> {
    match message {
        SimMessage::SimobjectData { body } => seq![ActionView::ProcessSimObjectData { body }],
        SimMessage::ClientData { body } => seq![ActionView::ProcessClientData { body }],
        SimMessage::Event { body } => seq![ActionView::ProcessEventData { body }],
        SimMessage::Quit => seq![ActionView::Stop { reason: "Sim closed."@ }],
        SimMessage::Exception | SimMessage::Other => seq![],
    }
}

/// Control goes from one participant to another.
pub open spec fn control_transfer(
    from: Seq<char>,
    to: Seq<char>,
    facts: Facts,
) -> Seq<ActionView> {
    seq![ActionView::ResetSync] + if is_self(to, facts) {
        seq![ActionView::TakeControl, ActionView::ShowGainControl, ActionView::SetNoControl]
    } else {
        only_if(
            is_self(from, facts),
            seq![ActionView::ShowLoseControl, ActionView::LoseControl],
        ) + seq![
            ActionView::ShowInControl { name: to },
            ActionView::SetClientControl { name: to },
        ]
    }
}

/// Whether a newcomer observes: by their own word, or because this host makes
/// every newcomer an observer.
pub open spec fn newcomer_observes(s: SessionView, player: Player, facts: Facts) -> bool {
    player.is_observer || (facts.is_host && s.config.start_observer)
}

/// A newcomer is on the list.
pub open spec fn welcome(s: SessionView, player: Player, facts: Facts) -> Seq<ActionView> {
    let name = player.name@;
    let is_observer = newcomer_observes(s, player, facts);
    only_if(
        facts.is_host,
        seq![server_report(facts), ActionView::SendDefinitions { target: name }] + only_if(
            s.config.start_observer,
            seq![ActionView::SendSetObserver { target: name, is_observer: true }],
        ),
    ) + seq![
        ActionView::ShowNewConnection { name },
        ActionView::ShowObserving { name, is_observer },
        ActionView::SetServer { name, is_server: player.is_server },
        ActionView::SetObserver { name, is_observer },
    ] + only_if(
        player.in_control,
        seq![ActionView::ShowInControl { name }, ActionView::SetClientControl { name }],
    )
}

/// A participant is off the list. A host takes back the control that they had.
pub open spec fn farewell(name: Seq<char>, had_control: bool, facts: Facts) -> Seq<ActionView> {
    only_if(
        had_control,
        seq![ActionView::SetNoControl] + only_if(
            facts.is_host,
            seq![
                ActionView::ShowGainControl,
                ActionView::TakeControl,
                ActionView::SendTransferControl { target: facts.server_name@ },
            ],
        ),
    ) + seq![ActionView::ShowLostConnection { name }] + only_if(
        facts.is_host,
        seq![server_report(facts)],
    )
}

/// A participant starts or stops observing.
pub open spec fn observer_change(
    s: SessionView,
    to: Seq<char>,
    is_observer: bool,
    facts: Facts,
) -> (SessionView, Seq<ActionView>) {
    if is_self(to, facts) {
        (
            SessionView { observing: is_observer, ..s },
            seq![ActionView::ShowSelfObserving { is_observer }] + only_if(
                !is_observer,
                seq![ActionView::ResetSync],
            ),
        )
    } else {
        (
            s,
            seq![
                ActionView::SetObserver { name: to, is_observer },
                ActionView::ShowObserving { name: to, is_observer },
            ],
        )
    }
}

/// What a payload of the network brings about.
pub open spec fn payload_step(s: SessionView, payload: Payload, facts: Facts) -> (
    SessionView,
    Seq<ActionView>,
) {
    match payload {
        Payload::Update { from, body } => (
            s,
            seq![ActionView::LookUpSender { name: from@, body }],
        ),
        Payload::TransferControl { from, to } => (s, control_transfer(from@, to@, facts)),
        Payload::PlayerJoined(player) => (s, seq![ActionView::AddClient { player }]),
        Payload::Ready => (
            s,
            only_if(
                facts.has_control,
                seq![ActionView::SendAllCurrent { is_unreliable: false }],
            ),
        ),
        Payload::PlayerLeft { name } => (s, seq![ActionView::RemoveClient { name: name@ }]),
        Payload::SetObserver { to, is_observer } => observer_change(s, to@, is_observer, facts),
        Payload::SetHost => (s, seq![ActionView::ShowHost]),
        Payload::ConnectionDenied { reason } => (
            s,
            seq![ActionView::Stop { reason: "Connection Denied: "@ + reason@ }],
        ),
        Payload::AircraftDefinition { body } => (
            s,
            seq![ActionView::LoadReceivedDefinitions { body }, ActionView::StampConnection],
        ),
        _ => (s, seq![]),
    }
}

/// What an event of the connection brings about.
pub open spec fn event_step(s: SessionView, event: NetworkEvent, facts: Facts) -> (
    SessionView,
    Seq<ActionView>,
) {
    match event {
        NetworkEvent::ConnectionEstablished => (
            s,
            if facts.is_host {
                seq![
                    ActionView::ShowServerStarted {
                        clients: 0,
                        session_id: optional_view(facts.session_id),
                    },
                    ActionView::TakeControl,
                    ActionView::ShowGainControl,
                    ActionView::StampConnection,
                ]
            } else {
                seq![ActionView::ShowConnected, ActionView::ShowLoseControl]
            },
        ),
        NetworkEvent::ConnectionLost { reason } => (
            SessionView { observing: false, should_set_none_client: true, ..s },
            seq![
                ActionView::TakeControl,
                ActionView::ResetClients,
                ActionView::ShowClientFail { reason: reason@ },
            ],
        ),
        NetworkEvent::UnablePunchthrough => (
            s,
            seq![
                ActionView::ShowClientFail {
                    reason:
                        "Could not connect to host! Please port forward or use 'Cloud Host'!"@,
                },
            ],
        ),
        NetworkEvent::SessionIdFetchFailed => (
            s,
            seq![
                ActionView::ShowServerFail {
                    reason: "Could not connect to Cloud Server to fetch session ID."@,
                },
            ],
        ),
        NetworkEvent::Metrics { body } => (s, seq![ActionView::ShowNetwork { body }]),
    }
}

/// A failed piece of work ends the connection, with the failure as the reason.
pub open spec fn stop_on_failure(result: Result<(), String>) -> Seq<ActionView> {
    match result {
        Ok(_) => seq![],
        Err(error) => seq![ActionView::Stop { reason: error@ }],
    }
}

/// Control is taken here and asked of the client that has it.
pub open spec fn seize_control(facts: Facts) -> Seq<ActionView> {
    match facts.client_in_control {
        Some(target) => seq![
            ActionView::TakeControl,
            ActionView::SendTakeControl { target: target@ },
        ],
        None => seq![],
    }
}

/// What the aircraft's own controls bring about.
pub open spec fn program_actions(s: SessionView, action: ProgramAction, facts: Facts) -> Seq<
    ActionView,
> {
    match action {
        ProgramAction::TakeControls => only_if(
            !facts.has_control && !s.observing,
            seize_control(facts),
        ),
        ProgramAction::TransferControls => if facts.has_control {
            match facts.next_for_control {
                Some(target) => seq![ActionView::SendTransferControl { target: target@ }],
                None => seq![],
            }
        } else {
            seize_control(facts)
        },
    }
}

/// Whether data goes out at this moment.
pub open spec fn sends_now(s: SessionView, facts: Facts) -> bool {
    &&& s.connection_time matches Some(since) && delay_over(since, facts.now)
    &&& !s.observing
    &&& s.ready_to_process_data
    &&& interval_over(s.update_rate_instant, facts.now, s.config.update_rate)
}

/// Whether the exchange of data begins at this moment.
pub open spec fn begins_now(s: SessionView, facts: Facts) -> bool {
    &&& s.connection_time matches Some(since) && delay_over(since, facts.now)
    &&& !s.ready_to_process_data
}

/// What the passing of time brings about.
pub open spec fn tick_step(s: SessionView, facts: Facts) -> (SessionView, Seq<ActionView>) {
    (
        SessionView {
            ready_to_process_data: s.ready_to_process_data || begins_now(s, facts),
            ..s
        },
        only_if(
            sends_now(s, facts),
            seq![
                ActionView::CollectUpdates {
                    permission: SyncPermission {
                        is_server: facts.is_host,
                        is_master: facts.has_control,
                        is_init: false,
                    },
                },
            ],
        ) + only_if(
            begins_now(s, facts),
            seq![ActionView::ResetSync] + only_if(!facts.is_host, seq![ActionView::SendReady]),
        ),
    )
}

/// What the user's doings in the window bring about.
pub open spec fn window_step(s: SessionView, message: WindowMessage, facts: Facts) -> (
    SessionView,
    Seq<ActionView>,
) {
    match message {
        WindowMessage::StartServer(request) => (
            s,
            seq![ActionView::ConnectSim { purpose: SimPurpose::Host(request) }],
        ),
        WindowMessage::Connect(request) => (
            s,
            seq![ActionView::ConnectSim { purpose: SimPurpose::Join(request) }],
        ),
        WindowMessage::Disconnect => (
            s,
            only_if(s.has_client, seq![ActionView::Stop { reason: "Stopped."@ }]),
        ),
        WindowMessage::TransferControl { target } => (
            s,
            only_if(s.has_client, seq![ActionView::SendTransferControl { target: target@ }]),
        ),
        WindowMessage::SetObserver { target, is_observer } => (
            s,
            seq![ActionView::SetObserver { name: target@, is_observer }] + only_if(
                s.has_client,
                seq![ActionView::SendSetObserver { target: target@, is_observer }],
            ),
        ),
        WindowMessage::LoadAircraft { config_file_name } => (
            SessionView { config_to_load: config_file_name@, ..s },
            seq![],
        ),
        WindowMessage::Startup => (
            s,
            seq![
                ActionView::ListAircraft,
                ActionView::ShowConfig { config: s.config },
                ActionView::CheckVersion,
            ],
        ),
        WindowMessage::RunUpdater => (s, seq![ActionView::RunInstaller]),
        WindowMessage::UpdateConfig { new_config } => (
            SessionView { config: new_config@, ..s },
            seq![ActionView::WriteConfig { config: new_config@ }],
        ),
        WindowMessage::ForceTakeControl => (
            s,
            match facts.client_in_control {
                Some(target) => only_if(
                    s.has_client,
                    seq![ActionView::SendTakeControl { target: target@ }],
                ),
                None => seq![],
            },
        ),
    }
}

/// What the window says where the simulator could not be connected.
pub open spec fn sim_report(connected: bool) -> Seq<ActionView> {
    only_if(
        !connected,
        seq![
            ActionView::ShowError {
                message: "Could not connect to SimConnect! Is the sim running?"@,
            },
        ],
    )
}

/// The first thing that a startable request does.
pub open spec fn departure(s: SessionView, request: ClientRequest) -> ActionView {
    match client_plan(request) {
        ClientPlan::Resolve { hostname } => ActionView::ResolveHost {
            hostname: hostname@,
            isipv6: request.isipv6,
            request,
        },
        ClientPlan::Open(route) => ActionView::OpenClient {
            route,
            request,
            conn_timeout: s.config.conn_timeout,
        },
    }
}

/// The simulator was connected, or not, for hosting or joining. Hosting goes on
/// to the aircraft definitions even without the simulator.
pub open spec fn sim_connected_actions(
    s: SessionView,
    purpose: SimPurpose,
    connected: bool,
) -> Seq<ActionView> {
    sim_report(connected) + match purpose {
        SimPurpose::Host(request) => if s.config_to_load.len() == 0 {
            seq![ActionView::ShowServerFail { reason: "Select an aircraft config first!"@ }]
        } else {
            seq![
                ActionView::LoadDefinitions { config_name: s.config_to_load, request, connected },
            ]
        },
        SimPurpose::Join(request) => only_if(
            connected,
            seq![ActionView::ShowAttempt, departure(s, request)],
        ),
    }
}

/// The definitions of the selected aircraft were loaded, or not. An aircraft
/// whose definitions do not load is selected no longer.
pub open spec fn definitions_loaded_step(
    s: SessionView,
    request: ServerRequest,
    connected: bool,
    loaded: bool,
) -> (SessionView, Seq<ActionView>) {
    if !loaded {
        (
            SessionView { config_to_load: seq![], ..s },
            seq![
                ActionView::ShowError {
                    message:
                        "Error loading definition files. Check the log for more information."@,
                },
            ],
        )
    } else {
        (
            s,
            only_if(
                connected,
                seq![
                    ActionView::ConnectDefinitions,
                    ActionView::ConnectControl,
                    ActionView::ShowAttempt,
                    ActionView::OpenServer {
                        route: server_route_of(request),
                        request,
                        conn_timeout: s.config.conn_timeout,
                    },
                ],
            ),
        )
    }
}

/// Settings after an attempt to host.
pub open spec fn hosted_config(config: ConfigView, request: ServerRequest) -> ConfigView {
    ConfigView {
        port: request.port,
        name: request.username@,
        use_upnp: request.use_upnp,
        ..config
    }
}

/// Settings after an attempt to join.
pub open spec fn joined_config(config: ConfigView, request: ClientRequest) -> ConfigView {
    ConfigView {
        name: request.username@,
        port: match request.port {
            Some(port) => port,
            None => config.port,
        },
        ip: match request.ip {
            Some(ip) => ip@,
            None => seq![],
        },
        ..config
    }
}

/// An attempt to host was made. A relay that refuses is not reported to the
/// window.
pub open spec fn server_opened_step(
    s: SessionView,
    request: ServerRequest,
    result: Result<(), String>,
) -> (SessionView, Seq<ActionView>) {
    let config = hosted_config(s.config, request);
    (
        SessionView { config, has_client: s.has_client || result is Ok, ..s },
        (match result {
            Ok(_) => seq![],
            Err(error) => only_if(
                request.method != ConnectionMethod::Relay,
                seq![ActionView::ShowServerFail { reason: error@ }],
            ),
        }) + seq![ActionView::WriteConfig { config }],
    )
}

/// A host name was looked up.
pub open spec fn host_resolved_step(
    s: SessionView,
    request: ClientRequest,
    result: Result<String, String>,
) -> (SessionView, Seq<ActionView>) {
    match result {
        Ok(ip) => (
            s,
            seq![
                ActionView::OpenClient {
                    route: ClientRoute::Dial { ip, port: request.port->0 },
                    request,
                    conn_timeout: s.config.conn_timeout,
                },
            ],
        ),
        Err(error) => {
            let config = joined_config(s.config, request);
            (
                SessionView { config, ..s },
                seq![
                    ActionView::ShowClientFail { reason: error@ },
                    ActionView::WriteConfig { config },
                ],
            )
        },
    }
}

/// An attempt to join was made.
pub open spec fn client_opened_step(
    s: SessionView,
    request: ClientRequest,
    result: Result<(), String>,
) -> (SessionView, Seq<ActionView>) {
    let config = joined_config(s.config, request);
    (
        SessionView { config, has_client: s.has_client || result is Ok, ..s },
        (match result {
            Ok(_) => seq![],
            Err(error) => seq![ActionView::ShowClientFail { reason: client_failure(error@) }],
        }) + seq![ActionView::WriteConfig { config }],
    )
}

/// What follows from an action that was performed.
pub open spec fn reply_step(s: SessionView, reply: Reply, facts: Facts) -> (
    SessionView,
    Seq<ActionView>,
) {
    match reply {
        Reply::SenderFound { sender, body } => (
            s,
            only_if(
                !sender.is_observer && s.ready_to_process_data,
                seq![
                    ActionView::ApplyUpdate {
                        body,
                        permission: SyncPermission {
                            is_server: sender.is_server,
                            is_master: sender.has_control,
                            is_init: true,
                        },
                    },
                ],
            ),
        ),
        Reply::UpdateApplied { result } => (s, stop_on_failure(result)),
        Reply::ClientAdded { player } => (s, welcome(s, player, facts)),
        Reply::ClientRemoved { name, had_control } => (s, farewell(name@, had_control, facts)),
        Reply::DefinitionsReceived { loaded } => (
            s,
            only_if(
                loaded,
                seq![
                    ActionView::ConnectControl,
                    ActionView::ConnectReceivedDefinitions,
                    ActionView::LoseControl,
                ],
            ),
        ),
        Reply::DefinitionsConnected { connected } => (
            s,
            only_if(
                !connected,
                seq![
                    ActionView::Stop {
                        reason:
                            "Error starting WS server. Do you have another YourControls open?"@,
                    },
                ],
            ),
        ),
        Reply::ConnectionStamped => (
            SessionView { connection_time: Some(facts.now), ..s },
            seq![],
        ),
        Reply::UpdatesWritten => (SessionView { update_rate_instant: facts.now, ..s }, seq![]),
        Reply::SimConnected { purpose, connected } => (
            s,
            sim_connected_actions(s, purpose, connected),
        ),
        Reply::DefinitionsLoaded { request, connected, loaded } => definitions_loaded_step(
            s,
            request,
            connected,
            loaded,
        ),
        Reply::ServerOpened { request, result } => server_opened_step(s, request, result),
        Reply::HostResolved { request, result } => host_resolved_step(s, request, result),
        Reply::ClientOpened { request, result } => client_opened_step(s, request, result),
        Reply::AircraftListed { configs } => (
            s,
            match configs {
                Some(names) => names@.map_values(
                    |name: String| ActionView::ShowAircraft { name: name@ },
                ),
                None => seq![],
            },
        ),
        Reply::VersionChecked { newest } => (
            s,
            match newest {
                Some(release) => only_if(
                    offered(release, s.config.check_for_betas),
                    seq![ActionView::ShowVersion { version: release.version@ }],
                ),
                None => seq![],
            },
        ),
        Reply::InstallerRun { started } => (
            SessionView { installer_spawned: s.installer_spawned || started, ..s },
            only_if(!started, seq![ActionView::ShowUpdateFailed]),
        ),
    }
}

/// A pass of the main loop ends. A connection that was lost is let go.
pub open spec fn loop_end_step(s: SessionView) -> (SessionView, Seq<ActionView>) {
    if s.should_set_none_client {
        (
            SessionView {
                has_client: false,
                should_set_none_client: false,
                ready_to_process_data: false,
                connection_time: None,
                ..s
            },
            seq![ActionView::DropClient, ActionView::CloseSim],
        )
    } else {
        (s, seq![])
    }
}

/// A short pass of the main loop is followed by a rest.
pub open spec fn rest(millis: u128) -> Seq<ActionView> {
    only_if(millis < LOOP_SLEEP_MILLIS, seq![ActionView::Sleep { millis: LOOP_SLEEP_MILLIS }])
}

/// Inputs that only a connection brings. Without one they go unheard.
pub open spec fn needs_client(input: Input) -> bool {
    match input {
        Input::Sim(_)
        | Input::Payload(_)
        | Input::Event(_)
        | Input::Stepped { .. }
        | Input::Program(_)
        | Input::Tick => true,
        Input::Reply(reply) => match reply {
            Reply::SenderFound { .. }
            | Reply::UpdateApplied { .. }
            | Reply::ClientAdded { .. }
            | Reply::ClientRemoved { .. }
            | Reply::DefinitionsReceived { .. }
            | Reply::DefinitionsConnected { .. }
            | Reply::ConnectionStamped
            | Reply::UpdatesWritten => true,
            _ => false,
        },
        Input::Window(_) | Input::LoopEnd | Input::LoopTimed { .. } => false,
    }
}

/// How a session moves on an input that is heard.
pub open spec fn heard_step(s: SessionView, input: Input, facts: Facts) -> (
    SessionView,
    Seq<ActionView>,
) {
    match input {
        Input::Sim(message) => (s, sim_actions(message)),
        Input::Payload(payload) => payload_step(s, payload, facts),
        Input::Event(event) => event_step(s, event, facts),
        Input::Stepped { result } => (s, stop_on_failure(result)),
        Input::Program(action) => (s, program_actions(s, action, facts)),
        Input::Tick => tick_step(s, facts),
        Input::Window(message) => window_step(s, message, facts),
        Input::Reply(reply) => reply_step(s, reply, facts),
        Input::LoopEnd => loop_end_step(s),
        Input::LoopTimed { millis } => (s, rest(millis)),
    }
}

/// How a session moves: the state after an input, and the actions that answer
/// it.
pub open spec fn step(s: SessionView, input: Input, facts: Facts) -> (
    SessionView,
    Seq<ActionView>,
) {
    if needs_client(input) && !s.has_client {
        (s, seq![])
    } else {
        heard_step(s, input, facts)
    }
}

/// Whether the program ends after a pass of its main loop: the window was closed,
/// or an installer takes over.
pub open spec fn ends(s: SessionView, exited: bool) -> bool {
    exited || s.installer_spawned
}

/// The state after a run of inputs, each with the facts that hold at its moment.
pub open spec fn run(s: SessionView, inputs: Seq<(Input, Facts)>) -> SessionView
    decreases inputs.len(),
{
    if inputs.len() == 0 {
        s
    } else {
        run(step(s, inputs[0].0, inputs[0].1).0, inputs.drop_first())
    }
}

/// Inputs that can be answered. A request to join must say enough to set out,
/// and must name a port once its host has an address.
pub open spec fn admissible(input: Input) -> bool {
    match input {
        Input::Reply(Reply::SimConnected { purpose: SimPurpose::Join(request), connected }) => {
            connected ==> startable(request)
        },
        Input::Reply(Reply::HostResolved { request, result }) => result is Ok ==> request.port
            is Some,
        _ => true,
    }
}

} // verus!
