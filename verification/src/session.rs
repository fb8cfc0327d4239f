//! The session that a program runs.
use vstd::prelude::*;

use crate::action::{views, Action, ActionView, ClientRoute};
use crate::clock::{connection_delay_over, update_due, LOOP_SLEEP_MILLIS};
use crate::config::Config;
use crate::message::{
    ClientRequest, ConnectionMethod, Facts, Input, NetworkEvent, Payload, Player, ProgramAction,
    Reply, ServerRequest, SimMessage, SimPurpose, SyncPermission, WindowMessage,
};
use crate::model::{
    admissible, client_opened_step, consistent, control_transfer, definitions_loaded_step, departure,
    ends, event_step, farewell, first_config, host_resolved_step, hosted_config, initial, joined_config,
    loop_end_step, needs_client, observer_change, payload_step, program_actions, reply_step, rest,
    seize_control, server_opened_step, server_report, sim_actions, sim_connected_actions, step,
    stop_on_failure, tick_step, welcome, window_step, SessionView,
};
use crate::startup::{
    describe_client_failure, offers_release, server_route, start_client, startable, ClientPlan,
};

verus! {

/// One participant's part in a shared cockpit.
#[derive(Debug, PartialEq, Eq)]
pub struct Session {
    config: Config,
    config_to_load: String,
    has_client: bool,
    should_set_none_client: bool,
    observing: bool,
    ready_to_process_data: bool,
    connection_time: Option<u64>,
    update_rate_instant: u64,
    installer_spawned: bool,
}

impl View for Session {
    type V = SessionView;

    closed spec fn view(&self) -> SessionView {
        SessionView {
            config: self.config@,
            config_to_load: self.config_to_load@,
            has_client: self.has_client,
            should_set_none_client: self.should_set_none_client,
            observing: self.observing,
            ready_to_process_data: self.ready_to_process_data,
            connection_time: self.connection_time,
            update_rate_instant: self.update_rate_instant,
            installer_spawned: self.installer_spawned,
        }
    }
}

/// Reports to the window that the session is hosted.
fn report_server(facts: &Facts) -> (action: Action)
    ensures
        action@ == server_report(*facts),
{
    let number: usize = facts.number_clients;
    let clients: u16 = (number % 0x1_0000) as u16;
    Action::ShowServerStarted { clients, session_id: copy_optional(&facts.session_id) }
}

/// Copies an optional string.
fn copy_optional(text: &Option<String>) -> (copy: Option<String>)
    ensures
        copy == *text,
{
    match text {
        Some(text) => Some(text.clone()),
        None => None,
    }
}

/// Answers a message of the simulator.
fn answer_sim(message: SimMessage) -> (actions: Vec<Action>)
    ensures
        views(actions@) == sim_actions(message),
{
    let actions: Vec<Action> = match message {
        SimMessage::SimobjectData { body } => vec![Action::ProcessSimObjectData { body }],
        SimMessage::ClientData { body } => vec![Action::ProcessClientData { body }],
        SimMessage::Event { body } => vec![Action::ProcessEventData { body }],
        SimMessage::Quit => vec![Action::Stop { reason: "Sim closed.".to_string() }],
        SimMessage::Exception | SimMessage::Other => Vec::new(),
    };
    assert(views(actions@) =~= sim_actions(message));
    actions
}

/// Answers a transfer of control between two participants.
fn transfer_control(from: String, to: String, facts: &Facts) -> (actions: Vec<Action>)
    ensures
        views(actions@) == control_transfer(from@, to@, *facts),
{
    let ghost (from_view, to_view) = (from@, to@);
    let mut actions: Vec<Action> = vec![Action::ResetSync];
    if to == facts.server_name {
        actions.push(Action::TakeControl);
        actions.push(Action::ShowGainControl);
        actions.push(Action::SetNoControl);
    } else {
        if from == facts.server_name {
            actions.push(Action::ShowLoseControl);
            actions.push(Action::LoseControl);
        }
        actions.push(Action::ShowInControl { name: to.clone() });
        actions.push(Action::SetClientControl { name: to });
    }
    assert(views(actions@) =~= control_transfer(from_view, to_view, *facts));
    actions
}

/// Answers work that may have failed.
fn answer_result(result: Result<(), String>) -> (actions: Vec<Action>)
    ensures
        views(actions@) == stop_on_failure(result),
{
    let ghost outcome = result;
    let actions: Vec<Action> = match result {
        Ok(_) => Vec::new(),
        Err(error) => vec![Action::Stop { reason: error }],
    };
    assert(views(actions@) =~= stop_on_failure(outcome));
    actions
}

/// Answers the departure of a participant who is off the list.
fn bid_farewell(name: String, had_control: bool, facts: &Facts) -> (actions: Vec<Action>)
    ensures
        views(actions@) == farewell(name@, had_control, *facts),
{
    let ghost who = name@;
    let mut actions: Vec<Action> = Vec::new();
    if had_control {
        actions.push(Action::SetNoControl);
        if facts.is_host {
            actions.push(Action::ShowGainControl);
            actions.push(Action::TakeControl);
            actions.push(Action::SendTransferControl { target: facts.server_name.clone() });
        }
    }
    actions.push(Action::ShowLostConnection { name });
    if facts.is_host {
        actions.push(report_server(facts));
    }
    assert(views(actions@) =~= farewell(who, had_control, *facts));
    actions
}

/// Takes control and asks for it, where a client has it.
fn take_from_client(facts: &Facts) -> (actions: Vec<Action>)
    ensures
        views(actions@) == seize_control(*facts),
{
    let mut actions: Vec<Action> = Vec::new();
    if let Some(target) = &facts.client_in_control {
        actions.push(Action::TakeControl);
        actions.push(Action::SendTakeControl { target: target.clone() });
    }
    assert(views(actions@) =~= seize_control(*facts));
    actions
}

/// Tells whether an input is one that only a connection brings.
fn only_with_client(input: &Input) -> (only: bool)
    ensures
        only == needs_client(*input),
{
    match input {
        Input::Sim(_)
        | Input::Payload(_)
        | Input::Event(_)
        | Input::Stepped { .. }
        | Input::Program(_)
        | Input::Tick => true,
        Input::Reply(reply) => match reply {
            Reply::SenderFound { .. }
            | Reply::UpdateApplied { .. }
            | Reply::ClientAdded { .. }
            | Reply::ClientRemoved { .. }
            | Reply::DefinitionsReceived { .. }
            | Reply::DefinitionsConnected { .. }
            | Reply::ConnectionStamped
            | Reply::UpdatesWritten => true,
            _ => false,
        },
        Input::Window(_) | Input::LoopEnd | Input::LoopTimed { .. } => false,
    }
}

/// Rests after a short pass of the main loop.
fn rest_after(millis: u128) -> (actions: Vec<Action>)
    ensures
        views(actions@) == rest(millis),
{
    let mut actions: Vec<Action> = Vec::new();
    if millis < LOOP_SLEEP_MILLIS as u128 {
        actions.push(Action::Sleep { millis: LOOP_SLEEP_MILLIS });
    }
    assert(views(actions@) =~= rest(millis));
    actions
}

/// Names the aircraft to choose from to the window.
fn show_aircraft(configs: Vec<String>) -> (actions: Vec<Action>)
    ensures
        views(actions@) == configs@.map_values(
            |name: String| ActionView::ShowAircraft { name: name@ },
        ),
{
    let ghost all = configs@;
    let mut actions: Vec<Action> = Vec::new();
    for name in it: configs
        invariant
            it.seq() == all,
            actions@.len() == it.index(),
            forall|i: int|
                0 <= i < actions@.len() ==> (#[trigger] actions@[i])@ == (
                ActionView::ShowAircraft { name: all[i]@ }),
    {
        actions.push(Action::ShowAircraft { name });
    }
    assert(views(actions@) =~= all.map_values(
        |name: String| ActionView::ShowAircraft { name: name@ },
    ));
    actions
}

impl Session {
    /// A session at the start of the program.
    pub fn new(config: Config, now: u64) -> (session: Session)
        ensures
            session@ == initial(config@, now),
            consistent(session@),
    {
        let session = Session {
            config,
            config_to_load: String::new(),
            has_client: false,
            should_set_none_client: false,
            observing: false,
            ready_to_process_data: false,
            connection_time: None,
            update_rate_instant: now,
            installer_spawned: false,
        };
        assert(session@ =~= initial(config@, now));
        session
    }

    /// Starts the program with the settings that were read, or with the default
    /// ones where they could not be.
    pub fn start(read: Option<Config>, default: Config, now: u64) -> (started: (
        Session,
        Vec<Action>,
    ))
        ensures
            ({
                let (config, actions) = first_config(
                    match read {
                        Some(config) => Some(config@),
                        None => None,
                    },
                    default@,
                );
                &&& started.0@ == initial(config, now)
                &&& views(started.1@) == actions
            }),
            consistent(started.0@),
    {
        let mut actions: Vec<Action> = Vec::new();
        match read {
            Some(config) => {
                assert(views(actions@) =~= seq![]);
                (Session::new(config, now), actions)
            },
            None => {
                actions.push(Action::WriteConfig { config: default.clone() });
                assert(views(actions@) =~= seq![ActionView::WriteConfig { config: default@ }]);
                (Session::new(default, now), actions)
            },
        }
    }

    /// Takes one input and answers with what is to be done, in order.
    ///
    /// An action that has a reply hands it back through this function before
    /// the next action of the list is performed. Facts are gathered anew for
    /// each input.
    pub fn handle(&mut self, input: Input, facts: &Facts) -> (actions: Vec<Action>)
        requires
            admissible(input),
        ensures
            (final(self)@, views(actions@)) == step(old(self)@, input, *facts),
            consistent(old(self)@) ==> consistent(final(self)@),
    {
        if only_with_client(&input) && !self.has_client {
            let actions: Vec<Action> = Vec::new();
            assert(views(actions@) =~= seq![]);
            return actions;
        }
        match input {
            Input::Sim(message) => answer_sim(message),
            Input::Payload(payload) => self.on_payload(payload, facts),
            Input::Event(event) => self.on_event(event, facts),
            Input::Stepped { result } => answer_result(result),
            Input::Program(action) => self.on_program(action, facts),
            Input::Tick => self.on_tick(facts),
            Input::Window(message) => self.on_window(message, facts),
            Input::Reply(reply) => self.on_reply(reply, facts),
            Input::LoopEnd => self.on_loop_end(),
            Input::LoopTimed { millis } => rest_after(millis),
        }
    }

    /// Tells whether there is a connection, and so whether there is anything to
    /// hear from the simulator and the network.
    pub fn has_client(&self) -> (has: bool)
        ensures
            has == self@.has_client,
    {
        self.has_client
    }

    /// Tells whether the program ends after this pass of its main loop: the
    /// window was closed, or an installer takes over.
    pub fn should_exit(&self, exited: bool) -> (exit: bool)
        ensures
            exit == (exited || self@.installer_spawned),
            exit == ends(self@, exited),
    {
        exited || self.installer_spawned
    }

    fn on_payload(&mut self, payload: Payload, facts: &Facts) -> (actions: Vec<Action>)
        ensures
            (final(self)@, views(actions@)) == payload_step(old(self)@, payload, *facts),
    {
        let ghost received = payload;
        let ghost before = self@;
        let mut actions: Vec<Action> = Vec::new();
        match payload {
            Payload::Update { from, body } => {
                actions.push(Action::LookUpSender { name: from, body });
            },
            Payload::TransferControl { from, to } => {
                actions = transfer_control(from, to, facts);
            },
            Payload::PlayerJoined(player) => {
                actions.push(Action::AddClient { player });
            },
            Payload::Ready => {
                if facts.has_control {
                    actions.push(Action::SendAllCurrent { is_unreliable: false });
                }
            },
            Payload::PlayerLeft { name } => {
                actions.push(Action::RemoveClient { name });
            },
            Payload::SetObserver { to, is_observer } => {
                actions = self.on_observer_change(to, is_observer, facts);
            },
            Payload::SetHost => {
                actions.push(Action::ShowHost);
            },
            Payload::ConnectionDenied { reason } => {
                let mut text: String = "Connection Denied: ".to_string();
                text.append(reason.as_str());
                actions.push(Action::Stop { reason: text });
            },
            Payload::AircraftDefinition { body } => {
                actions.push(Action::LoadReceivedDefinitions { body });
                actions.push(Action::StampConnection);
            },
            _ => {},
        }
        assert(views(actions@) =~= payload_step(before, received, *facts).1);
        actions
    }

    fn on_observer_change(&mut self, to: String, is_observer: bool, facts: &Facts) -> (actions: Vec<
        Action,
    >)
        ensures
            (final(self)@, views(actions@)) == observer_change(
                old(self)@,
                to@,
                is_observer,
                *facts,
            ),
    {
        let ghost who = to@;
        let ghost before = self@;
        let mut actions: Vec<Action> = Vec::new();
        if to == facts.server_name {
            self.observing = is_observer;
            actions.push(Action::ShowSelfObserving { is_observer });
            if !is_observer {
                actions.push(Action::ResetSync);
            }
        } else {
            actions.push(Action::SetObserver { name: to.clone(), is_observer });
            actions.push(Action::ShowObserving { name: to, is_observer });
        }
        assert(views(actions@) =~= observer_change(before, who, is_observer, *facts).1);
        actions
    }

    fn on_event(&mut self, event: NetworkEvent, facts: &Facts) -> (actions: Vec<Action>)
        ensures
            (final(self)@, views(actions@)) == event_step(old(self)@, event, *facts),
    {
        let ghost received = event;
        let ghost before = self@;
        let actions: Vec<Action> = match event {
            NetworkEvent::ConnectionEstablished => {
                if facts.is_host {
                    vec![
                        Action::ShowServerStarted {
                            clients: 0,
                            session_id: copy_optional(&facts.session_id),
                        },
                        Action::TakeControl,
                        Action::ShowGainControl,
                        Action::StampConnection,
                    ]
                } else {
                    vec![Action::ShowConnected, Action::ShowLoseControl]
                }
            },
            NetworkEvent::ConnectionLost { reason } => {
                self.observing = false;
                self.should_set_none_client = true;
                vec![
                    Action::TakeControl,
                    Action::ResetClients,
                    Action::ShowClientFail { reason },
                ]
            },
            NetworkEvent::UnablePunchthrough => {
                vec![
                    Action::ShowClientFail {
                        reason:
                            "Could not connect to host! Please port forward or use 'Cloud Host'!".to_string(),
                    },
                ]
            },
            NetworkEvent::SessionIdFetchFailed => {
                vec![
                    Action::ShowServerFail {
                        reason:
                            "Could not connect to Cloud Server to fetch session ID.".to_string(),
                    },
                ]
            },
            NetworkEvent::Metrics { body } => vec![Action::ShowNetwork { body }],
        };
        assert(views(actions@) =~= event_step(before, received, *facts).1);
        actions
    }

    fn on_program(&self, action: ProgramAction, facts: &Facts) -> (actions: Vec<Action>)
        ensures
            views(actions@) == program_actions(self@, action, *facts),
    {
        let mut actions: Vec<Action> = Vec::new();
        match action {
            ProgramAction::TakeControls => {
                if !facts.has_control && !self.observing {
                    actions = take_from_client(facts);
                }
            },
            ProgramAction::TransferControls => {
                if facts.has_control {
                    if let Some(target) = &facts.next_for_control {
                        actions.push(Action::SendTransferControl { target: target.clone() });
                    }
                } else {
                    actions = take_from_client(facts);
                }
            },
        }
        assert(views(actions@) =~= program_actions(self@, action, *facts));
        actions
    }

    fn on_tick(&mut self, facts: &Facts) -> (actions: Vec<Action>)
        ensures
            (final(self)@, views(actions@)) == tick_step(old(self)@, *facts),
    {
        let ghost before = self@;
        let mut actions: Vec<Action> = Vec::new();
        if let Some(since) = self.connection_time {
            if connection_delay_over(since, facts.now) {
                let can_update = update_due(
                    self.update_rate_instant,
                    facts.now,
                    self.config.update_rate,
                );
                if !self.observing && can_update && self.ready_to_process_data {
                    actions.push(
                        Action::CollectUpdates {
                            permission: SyncPermission {
                                is_server: facts.is_host,
                                is_master: facts.has_control,
                                is_init: false,
                            },
                        },
                    );
                }
                if !self.ready_to_process_data {
                    self.ready_to_process_data = true;
                    actions.push(Action::ResetSync);
                    if !facts.is_host {
                        actions.push(Action::SendReady);
                    }
                }
            }
        }
        assert(views(actions@) =~= tick_step(before, *facts).1);
        actions
    }

    fn on_window(&mut self, message: WindowMessage, facts: &Facts) -> (actions: Vec<Action>)
        ensures
            (final(self)@, views(actions@)) == window_step(old(self)@, message, *facts),
    {
        let ghost received = message;
        let ghost before = self@;
        let mut actions: Vec<Action> = Vec::new();
        match message {
            WindowMessage::StartServer(request) => {
                actions.push(Action::ConnectSim { purpose: SimPurpose::Host(request) });
            },
            WindowMessage::Connect(request) => {
                actions.push(Action::ConnectSim { purpose: SimPurpose::Join(request) });
            },
            WindowMessage::Disconnect => {
                if self.has_client {
                    actions.push(Action::Stop { reason: "Stopped.".to_string() });
                }
            },
            WindowMessage::TransferControl { target } => {
                if self.has_client {
                    actions.push(Action::SendTransferControl { target });
                }
            },
            WindowMessage::SetObserver { target, is_observer } => {
                actions.push(Action::SetObserver { name: target.clone(), is_observer });
                if self.has_client {
                    actions.push(Action::SendSetObserver { target, is_observer });
                }
            },
            WindowMessage::LoadAircraft { config_file_name } => {
                self.config_to_load = config_file_name;
            },
            WindowMessage::Startup => {
                actions.push(Action::ListAircraft);
                actions.push(Action::ShowConfig { config: self.config.clone() });
                actions.push(Action::CheckVersion);
            },
            WindowMessage::RunUpdater => {
                actions.push(Action::RunInstaller);
            },
            WindowMessage::UpdateConfig { new_config } => {
                self.config = new_config;
                actions.push(Action::WriteConfig { config: self.config.clone() });
            },
            WindowMessage::ForceTakeControl => {
                if self.has_client {
                    if let Some(target) = &facts.client_in_control {
                        actions.push(Action::SendTakeControl { target: target.clone() });
                    }
                }
            },
        }
        assert(views(actions@) =~= window_step(before, received, *facts).1);
        actions
    }

    fn on_reply(&mut self, reply: Reply, facts: &Facts) -> (actions: Vec<Action>)
        requires
            admissible(Input::Reply(reply)),
        ensures
            (final(self)@, views(actions@)) == reply_step(old(self)@, reply, *facts),
    {
        let ghost received = reply;
        let ghost before = self@;
        let mut actions: Vec<Action> = Vec::new();
        match reply {
            Reply::SenderFound { sender, body } => {
                if !sender.is_observer && self.ready_to_process_data {
                    actions.push(
                        Action::ApplyUpdate {
                            body,
                            permission: SyncPermission {
                                is_server: sender.is_server,
                                is_master: sender.has_control,
                                is_init: true,
                            },
                        },
                    );
                }
            },
            Reply::UpdateApplied { result } => {
                actions = answer_result(result);
            },
            Reply::ClientAdded { player } => {
                actions = self.welcome_player(player, facts);
            },
            Reply::ClientRemoved { name, had_control } => {
                actions = bid_farewell(name, had_control, facts);
            },
            Reply::DefinitionsReceived { loaded } => {
                if loaded {
                    actions.push(Action::ConnectControl);
                    actions.push(Action::ConnectReceivedDefinitions);
                    actions.push(Action::LoseControl);
                }
            },
            Reply::DefinitionsConnected { connected } => {
                if !connected {
                    actions.push(
                        Action::Stop {
                            reason:
                                "Error starting WS server. Do you have another YourControls open?".to_string(),
                        },
                    );
                }
            },
            Reply::ConnectionStamped => {
                self.connection_time = Some(facts.now);
            },
            Reply::UpdatesWritten => {
                self.update_rate_instant = facts.now;
            },
            Reply::SimConnected { purpose, connected } => {
                actions = self.on_sim_connected(purpose, connected);
            },
            Reply::DefinitionsLoaded { request, connected, loaded } => {
                actions = self.on_definitions_loaded(request, connected, loaded);
            },
            Reply::ServerOpened { request, result } => {
                actions = self.on_server_opened(request, result);
            },
            Reply::HostResolved { request, result } => {
                actions = self.on_host_resolved(request, result);
            },
            Reply::ClientOpened { request, result } => {
                actions = self.on_client_opened(request, result);
            },
            Reply::AircraftListed { configs } => {
                if let Some(names) = configs {
                    actions = show_aircraft(names);
                }
            },
            Reply::VersionChecked { newest } => {
                if let Some(release) = newest {
                    if offers_release(&release, self.config.check_for_betas) {
                        actions.push(Action::ShowVersion { version: release.version });
                    }
                }
            },
            Reply::InstallerRun { started } => {
                if started {
                    self.installer_spawned = true;
                } else {
                    actions.push(Action::ShowUpdateFailed);
                }
            },
        }
        assert(views(actions@) =~= reply_step(before, received, *facts).1);
        actions
    }

    /// Answers a newcomer who is on the list.
    fn welcome_player(&self, player: Player, facts: &Facts) -> (actions: Vec<Action>)
        ensures
            views(actions@) == welcome(self@, player, *facts),
    {
        let ghost newcomer = player;
        let mut actions: Vec<Action> = Vec::new();
        let mut is_observer: bool = player.is_observer;
        if facts.is_host {
            actions.push(report_server(facts));
            actions.push(Action::SendDefinitions { target: player.name.clone() });
            if self.config.start_observer {
                actions.push(
                    Action::SendSetObserver { target: player.name.clone(), is_observer: true },
                );
                is_observer = true;
            }
        }
        actions.push(Action::ShowNewConnection { name: player.name.clone() });
        actions.push(Action::ShowObserving { name: player.name.clone(), is_observer });
        actions.push(Action::SetServer { name: player.name.clone(), is_server: player.is_server });
        actions.push(Action::SetObserver { name: player.name.clone(), is_observer });
        if player.in_control {
            actions.push(Action::ShowInControl { name: player.name.clone() });
            actions.push(Action::SetClientControl { name: player.name });
        }
        assert(views(actions@) =~= welcome(self@, newcomer, *facts));
        actions
    }

    fn on_sim_connected(&self, purpose: SimPurpose, connected: bool) -> (actions: Vec<Action>)
        requires
            purpose matches SimPurpose::Join(request) ==> connected ==> startable(request),
        ensures
            views(actions@) == sim_connected_actions(self@, purpose, connected),
    {
        let ghost aim = purpose;
        let mut actions: Vec<Action> = Vec::new();
        if !connected {
            actions.push(
                Action::ShowError {
                    message: "Could not connect to SimConnect! Is the sim running?".to_string(),
                },
            );
        }
        match purpose {
            SimPurpose::Host(request) => {
                if self.config_to_load.as_str().is_empty() {
                    actions.push(
                        Action::ShowServerFail {
                            reason: "Select an aircraft config first!".to_string(),
                        },
                    );
                } else {
                    actions.push(
                        Action::LoadDefinitions {
                            config_name: self.config_to_load.clone(),
                            request,
                            connected,
                        },
                    );
                }
            },
            SimPurpose::Join(request) => {
                if connected {
                    actions.push(Action::ShowAttempt);
                    actions.push(self.depart(request));
                }
            },
        }
        assert(views(actions@) =~= sim_connected_actions(self@, aim, connected));
        actions
    }

    /// Sets out to join a session.
    fn depart(&self, request: ClientRequest) -> (action: Action)
        requires
            startable(request),
        ensures
            action@ == departure(self@, request),
    {
        match start_client(&request) {
            ClientPlan::Resolve { hostname } => Action::ResolveHost {
                hostname,
                isipv6: request.isipv6,
                request,
            },
            ClientPlan::Open(route) => Action::OpenClient {
                route,
                request,
                conn_timeout: self.config.conn_timeout,
            },
        }
    }

    fn on_definitions_loaded(
        &mut self,
        request: ServerRequest,
        connected: bool,
        loaded: bool,
    ) -> (actions: Vec<Action>)
        ensures
            (final(self)@, views(actions@)) == definitions_loaded_step(
                old(self)@,
                request,
                connected,
                loaded,
            ),
    {
        let ghost wish = request;
        let ghost before = self@;
        let mut actions: Vec<Action> = Vec::new();
        if !loaded {
            self.config_to_load = String::new();
            actions.push(
                Action::ShowError {
                    message:
                        "Error loading definition files. Check the log for more information.".to_string(),
                },
            );
        } else if connected {
            actions.push(Action::ConnectDefinitions);
            actions.push(Action::ConnectControl);
            actions.push(Action::ShowAttempt);
            actions.push(
                Action::OpenServer {
                    route: server_route(&request),
                    request,
                    conn_timeout: self.config.conn_timeout,
                },
            );
        }
        assert(views(actions@) =~= definitions_loaded_step(before, wish, connected, loaded).1);
        assert(self@ =~= definitions_loaded_step(before, wish, connected, loaded).0);
        actions
    }

    fn on_server_opened(&mut self, request: ServerRequest, result: Result<(), String>) -> (actions:
        Vec<Action>)
        ensures
            (final(self)@, views(actions@)) == server_opened_step(old(self)@, request, result),
    {
        let ghost wish = request;
        let ghost outcome = result;
        let ghost before = self@;
        let mut actions: Vec<Action> = Vec::new();
        match result {
            Ok(_) => {
                self.has_client = true;
            },
            Err(error) => {
                if request.method != ConnectionMethod::Relay {
                    actions.push(Action::ShowServerFail { reason: error });
                }
            },
        }
        self.config.port = request.port;
        self.config.name = request.username;
        self.config.use_upnp = request.use_upnp;
        actions.push(Action::WriteConfig { config: self.config.clone() });
        assert(self.config@ =~= hosted_config(before.config, wish));
        assert(views(actions@) =~= server_opened_step(before, wish, outcome).1);
        actions
    }

    /// Keeps the settings of an attempt to join, and has them written.
    fn keep_join(&mut self, request: ClientRequest) -> (action: Action)
        ensures
            final(self)@ == (SessionView {
                config: joined_config(old(self)@.config, request),
                ..old(self)@
            }),
            action@ == (ActionView::WriteConfig { config: final(self)@.config }),
    {
        let ghost wish = request;
        let ghost before = self@;
        self.config.name = request.username;
        self.config.port = request.port.unwrap_or(self.config.port);
        self.config.ip =
        match request.ip {
            Some(ip) => ip,
            None => String::new(),
        };
        assert(self.config@ =~= joined_config(before.config, wish));
        Action::WriteConfig { config: self.config.clone() }
    }

    fn on_host_resolved(&mut self, request: ClientRequest, result: Result<String, String>) -> (
    actions: Vec<Action>)
        requires
            result is Ok ==> request.port is Some,
        ensures
            (final(self)@, views(actions@)) == host_resolved_step(old(self)@, request, result),
    {
        let ghost wish = request;
        let ghost outcome = result;
        let ghost before = self@;
        let mut actions: Vec<Action> = Vec::new();
        match result {
            Ok(ip) => {
                actions.push(
                    Action::OpenClient {
                        route: ClientRoute::Dial { ip, port: request.port.unwrap() },
                        request,
                        conn_timeout: self.config.conn_timeout,
                    },
                );
            },
            Err(error) => {
                actions.push(Action::ShowClientFail { reason: error });
                actions.push(self.keep_join(request));
            },
        }
        assert(views(actions@) =~= host_resolved_step(before, wish, outcome).1);
        actions
    }

    fn on_client_opened(&mut self, request: ClientRequest, result: Result<(), String>) -> (actions:
        Vec<Action>)
        ensures
            (final(self)@, views(actions@)) == client_opened_step(old(self)@, request, result),
    {
        let ghost wish = request;
        let ghost outcome = result;
        let ghost before = self@;
        let mut actions: Vec<Action> = Vec::new();
        match result {
            Ok(_) => {
                self.has_client = true;
            },
            Err(error) => {
                actions.push(
                    Action::ShowClientFail { reason: describe_client_failure(error.as_str()) },
                );
            },
        }
        actions.push(self.keep_join(request));
        assert(views(actions@) =~= client_opened_step(before, wish, outcome).1);
        actions
    }

    fn on_loop_end(&mut self) -> (actions: Vec<Action>)
        ensures
            (final(self)@, views(actions@)) == loop_end_step(old(self)@),
    {
        let ghost before = self@;
        let mut actions: Vec<Action> = Vec::new();
        if self.should_set_none_client {
            self.has_client = false;
            self.should_set_none_client = false;
            self.ready_to_process_data = false;
            self.connection_time = None;
            actions.push(Action::DropClient);
            actions.push(Action::CloseSim);
        }
        assert(views(actions@) =~= loop_end_step(before).1);
        actions
    }
}

} // verus!
