//! Everything that a session asks to be done.
use vstd::prelude::*;

use crate::config::{Config, ConfigView};
use crate::message::{ClientRequest, Player, ServerRequest, SimPurpose, SyncPermission};

verus! {

/// How a host opens its session.
#[derive(Debug, Clone, Copy, PartialEq, Eq, Structural)]
pub enum ServerRoute {
    /// Listen on a port, forwarded by the router where `use_upnp` is set.
    Listen { isipv6: bool, port: u16, use_upnp: bool },
    /// Have participants punch through to this machine.
    HolePunch { isipv6: bool },
    /// Host on the relay, as one of its clients.
    Relay,
}

/// How a participant reaches a session.
#[derive(Debug, PartialEq, Eq)]
pub enum ClientRoute {
    /// Go straight to an address and a port.
    Dial { ip: String, port: u16 },
    /// Punch through to the host of a session.
    HolePunch { session_id: String, isipv6: bool },
}

/// One thing to do. Where [`crate::message::Reply`] has an answer to an action,
/// that answer is handed to the session before the next action is performed.
#[derive(Debug, PartialEq, Eq)]
#[allow(inconsistent_fields)]
pub enum Action {
    // The window.
    ShowError { message: String },
    ShowServerStarted { clients: u16, session_id: Option<String> },
    ShowServerFail { reason: String },
    ShowClientFail { reason: String },
    ShowGainControl,
    ShowLoseControl,
    /// Show who controls the aircraft.
    ShowInControl { name: String },
    ShowNewConnection { name: String },
    ShowLostConnection { name: String },
    /// Show whether a client observes.
    ShowObserving { name: String, is_observer: bool },
    /// Show whether this participant observes.
    ShowSelfObserving { is_observer: bool },
    ShowHost,
    ShowConnected,
    ShowAttempt,
    /// Show the figures kept under a number.
    ShowNetwork { body: u64 },
    ShowAircraft { name: String },
    ShowConfig { config: Config },
    ShowVersion { version: String },
    ShowUpdateFailed,
    // The aircraft's controls.
    /// This participant controls the aircraft from here on.
    TakeControl,
    /// This participant no longer controls the aircraft.
    LoseControl,
    /// Prepare the controls for a simulator that was just connected.
    ConnectControl,
    // The aircraft's data.
    /// Forget what was gathered for sending.
    ResetSync,
    /// Look up what the list of clients says of the sender of an update.
    LookUpSender { name: String, body: u64 },
    /// Write the data kept under a number to the aircraft.
    ApplyUpdate { body: u64, permission: SyncPermission },
    /// Gather what this participant may send, and send it.
    CollectUpdates { permission: SyncPermission },
    ProcessSimObjectData { body: u64 },
    ProcessClientData { body: u64 },
    ProcessEventData { body: u64 },
    /// Load the definitions whose bytes are kept under a number.
    LoadReceivedDefinitions { body: u64 },
    /// Load the definitions of a selected aircraft.
    LoadDefinitions { config_name: String, request: ServerRequest, connected: bool },
    /// Map loaded definitions to the simulator and report how it went.
    ConnectReceivedDefinitions,
    /// Map loaded definitions to the simulator, however it goes.
    ConnectDefinitions,
    // The simulator.
    /// Start from empty definitions and connect to the simulator.
    ConnectSim { purpose: SimPurpose },
    CloseSim,
    // The list of clients.
    AddClient { player: Player },
    RemoveClient { name: String },
    SetServer { name: String, is_server: bool },
    SetObserver { name: String, is_observer: bool },
    /// Note that a client controls the aircraft.
    SetClientControl { name: String },
    /// Note that no client controls the aircraft.
    SetNoControl,
    /// Empty the list.
    ResetClients,
    // The network.
    /// End the connection, for a reason.
    Stop { reason: String },
    SendTransferControl { target: String },
    /// Ask for the control that a client has.
    SendTakeControl { target: String },
    SendSetObserver { target: String, is_observer: bool },
    /// Send the loaded definitions to a client.
    SendDefinitions { target: String },
    SendReady,
    /// Send all current data.
    SendAllCurrent { is_unreliable: bool },
    OpenServer { route: ServerRoute, request: ServerRequest, conn_timeout: u64 },
    ResolveHost { hostname: String, isipv6: bool, request: ClientRequest },
    OpenClient { route: ClientRoute, request: ClientRequest, conn_timeout: u64 },
    /// Let go of the connection.
    DropClient,
    // The rest of the machine.
    WriteConfig { config: Config },
    ListAircraft,
    CheckVersion,
    RunInstaller,
    /// Read the clock for the start of a connection.
    StampConnection,
    Sleep { millis: u64 },
}

/// What an [`Action`] says.
#[verifier::ext_equal]
#[allow(inconsistent_fields)]
pub enum ActionView {
    ShowError { message: Seq<char> },
    ShowServerStarted { clients: u16, session_id: Option<Seq<char>> },
    ShowServerFail { reason: Seq<char> },
    ShowClientFail { reason: Seq<char> },
    ShowGainControl,
    ShowLoseControl,
    ShowInControl { name: Seq<char> },
    ShowNewConnection { name: Seq<char> },
    ShowLostConnection { name: Seq<char> },
    ShowObserving { name: Seq<char>, is_observer: bool },
    ShowSelfObserving { is_observer: bool },
    ShowHost,
    ShowConnected,
    ShowAttempt,
    ShowNetwork { body: u64 },
    ShowAircraft { name: Seq<char> },
    ShowConfig { config: ConfigView },
    ShowVersion { version: Seq<char> },
    ShowUpdateFailed,
    TakeControl,
    LoseControl,
    ConnectControl,
    ResetSync,
    LookUpSender { name: Seq<char>, body: u64 },
    ApplyUpdate { body: u64, permission: SyncPermission },
    CollectUpdates { permission: SyncPermission },
    ProcessSimObjectData { body: u64 },
    ProcessClientData { body: u64 },
    ProcessEventData { body: u64 },
    LoadReceivedDefinitions { body: u64 },
    LoadDefinitions { config_name: Seq<char>, request: ServerRequest, connected: bool },
    ConnectReceivedDefinitions,
    ConnectDefinitions,
    ConnectSim { purpose: SimPurpose },
    CloseSim,
    AddClient { player: Player },
    RemoveClient { name: Seq<char> },
    SetServer { name: Seq<char>, is_server: bool },
    SetObserver { name: Seq<char>, is_observer: bool },
    SetClientControl { name: Seq<char> },
    SetNoControl,
    ResetClients,
    Stop { reason: Seq<char> },
    SendTransferControl { target: Seq<char> },
    SendTakeControl { target: Seq<char> },
    SendSetObserver { target: Seq<char>, is_observer: bool },
    SendDefinitions { target: Seq<char> },
    SendReady,
    SendAllCurrent { is_unreliable: bool },
    OpenServer { route: ServerRoute, request: ServerRequest, conn_timeout: u64 },
    ResolveHost { hostname: Seq<char>, isipv6: bool, request: ClientRequest },
    OpenClient { route: ClientRoute, request: ClientRequest, conn_timeout: u64 },
    DropClient,
    WriteConfig { config: ConfigView },
    ListAircraft,
    CheckVersion,
    RunInstaller,
    StampConnection,
    Sleep { millis: u64 },
}

/// What an optional string holds.
pub open spec fn optional_view(text: Option<String>) -> Option<Seq<char>> {
    match text {
        Some(text) => Some(text@),
        None => None,
    }
}

impl View for Action {
    type V = ActionView;

    open spec fn view(&self) -> ActionView {
        match *self {
            Action::ShowError { message } => ActionView::ShowError { message: message@ },
            Action::ShowServerStarted { clients, session_id } => ActionView::ShowServerStarted {
                clients,
                session_id: optional_view(session_id),
            },
            Action::ShowServerFail { reason } => ActionView::ShowServerFail { reason: reason@ },
            Action::ShowClientFail { reason } => ActionView::ShowClientFail { reason: reason@ },
            Action::ShowGainControl => ActionView::ShowGainControl,
            Action::ShowLoseControl => ActionView::ShowLoseControl,
            Action::ShowInControl { name } => ActionView::ShowInControl { name: name@ },
            Action::ShowNewConnection { name } => ActionView::ShowNewConnection { name: name@ },
            Action::ShowLostConnection { name } => ActionView::ShowLostConnection { name: name@ },
            Action::ShowObserving { name, is_observer } => ActionView::ShowObserving {
                name: name@,
                is_observer,
            },
            Action::ShowSelfObserving { is_observer } => ActionView::ShowSelfObserving {
                is_observer,
            },
            Action::ShowHost => ActionView::ShowHost,
            Action::ShowConnected => ActionView::ShowConnected,
            Action::ShowAttempt => ActionView::ShowAttempt,
            Action::ShowNetwork { body } => ActionView::ShowNetwork { body },
            Action::ShowAircraft { name } => ActionView::ShowAircraft { name: name@ },
            Action::ShowConfig { config } => ActionView::ShowConfig { config: config@ },
            Action::ShowVersion { version } => ActionView::ShowVersion { version: version@ },
            Action::ShowUpdateFailed => ActionView::ShowUpdateFailed,
            Action::TakeControl => ActionView::TakeControl,
            Action::LoseControl => ActionView::LoseControl,
            Action::ConnectControl => ActionView::ConnectControl,
            Action::ResetSync => ActionView::ResetSync,
            Action::LookUpSender { name, body } => ActionView::LookUpSender { name: name@, body },
            Action::ApplyUpdate { body, permission } => ActionView::ApplyUpdate { body, permission },
            Action::CollectUpdates { permission } => ActionView::CollectUpdates { permission },
            Action::ProcessSimObjectData { body } => ActionView::ProcessSimObjectData { body },
            Action::ProcessClientData { body } => ActionView::ProcessClientData { body },
            Action::ProcessEventData { body } => ActionView::ProcessEventData { body },
            Action::LoadReceivedDefinitions { body } => ActionView::LoadReceivedDefinitions { body },
            Action::LoadDefinitions { config_name, request, connected } => {
                ActionView::LoadDefinitions { config_name: config_name@, request, connected }
            },
            Action::ConnectReceivedDefinitions => ActionView::ConnectReceivedDefinitions,
            Action::ConnectDefinitions => ActionView::ConnectDefinitions,
            Action::ConnectSim { purpose } => ActionView::ConnectSim { purpose },
            Action::CloseSim => ActionView::CloseSim,
            Action::AddClient { player } => ActionView::AddClient { player },
            Action::RemoveClient { name } => ActionView::RemoveClient { name: name@ },
            Action::SetServer { name, is_server } => ActionView::SetServer {
                name: name@,
                is_server,
            },
            Action::SetObserver { name, is_observer } => ActionView::SetObserver {
                name: name@,
                is_observer,
            },
            Action::SetClientControl { name } => ActionView::SetClientControl { name: name@ },
            Action::SetNoControl => ActionView::SetNoControl,
            Action::ResetClients => ActionView::ResetClients,
            Action::Stop { reason } => ActionView::Stop { reason: reason@ },
            Action::SendTransferControl { target } => ActionView::SendTransferControl {
                target: target@,
            },
            Action::SendTakeControl { target } => ActionView::SendTakeControl { target: target@ },
            Action::SendSetObserver { target, is_observer } => ActionView::SendSetObserver {
                target: target@,
                is_observer,
            },
            Action::SendDefinitions { target } => ActionView::SendDefinitions { target: target@ },
            Action::SendReady => ActionView::SendReady,
            Action::SendAllCurrent { is_unreliable } => ActionView::SendAllCurrent {
                is_unreliable,
            },
            Action::OpenServer { route, request, conn_timeout } => ActionView::OpenServer {
                route,
                request,
                conn_timeout,
            },
            Action::ResolveHost { hostname, isipv6, request } => ActionView::ResolveHost {
                hostname: hostname@,
                isipv6,
                request,
            },
            Action::OpenClient { route, request, conn_timeout } => ActionView::OpenClient {
                route,
                request,
                conn_timeout,
            },
            Action::DropClient => ActionView::DropClient,
            Action::WriteConfig { config } => ActionView::WriteConfig { config: config@ },
            Action::ListAircraft => ActionView::ListAircraft,
            Action::CheckVersion => ActionView::CheckVersion,
            Action::RunInstaller => ActionView::RunInstaller,
            Action::StampConnection => ActionView::StampConnection,
            Action::Sleep { millis } => ActionView::Sleep { millis },
        }
    }
}

/// What a list of actions says, in order.
pub open spec fn views(actions: Seq<Action>) -> Seq<ActionView> {
    actions.map_values(|action: Action| action@)
}

} // verus!
