//! Everything that a session is told: what arrives from outside, what its own
//! actions brought about, and what holds around it at that moment.
use vstd::prelude::*;

verus! {

/// How participants find each other.
#[derive(Debug, Clone, Copy, PartialEq, Eq, Structural)]
pub enum ConnectionMethod {
    /// To an address and a port.
    Direct,
    /// Through a session that the cloud server brokers.
    CloudServer,
    /// With all traffic going through the cloud server.
    Relay,
}

/// What kind of message the simulator sent. The body of a message stays with the
/// caller, under a number.
#[derive(Debug, Clone, Copy, PartialEq, Eq, Structural)]
pub enum SimMessage {
    SimobjectData { body: u64 },
    Exception,
    ClientData { body: u64 },
    Event { body: u64 },
    Quit,
    /// Any other kind.
    Other,
}

/// A participant who joins.
#[derive(Debug, PartialEq, Eq)]
pub struct Player {
    pub name: String,
    pub in_control: bool,
    pub is_observer: bool,
    pub is_server: bool,
}

/// What the list of clients says of the participant who sent an update.
#[derive(Debug, Clone, Copy, PartialEq, Eq, Structural)]
pub struct Sender {
    pub is_observer: bool,
    pub is_server: bool,
    pub has_control: bool,
}

/// In what role data is read from, or written to, the aircraft.
#[derive(Debug, Clone, Copy, PartialEq, Eq, Structural)]
pub struct SyncPermission {
    pub is_server: bool,
    pub is_master: bool,
    pub is_init: bool,
}

/// A payload that the network delivered. The data of an update and the bytes of
/// an aircraft definition stay with the caller, under a number.
#[derive(Debug, PartialEq, Eq)]
pub enum Payload {
    Handshake,
    HostingReceived,
    AttemptConnection,
    PeerEstablished,
    InvalidVersion,
    InvalidName,
    RequestHosting,
    InitHandshake,
    Heartbeat,
    /// Data of the aircraft.
    Update { from: String, body: u64 },
    /// Control of the aircraft goes from one participant to another.
    TransferControl { from: String, to: String },
    PlayerJoined(Player),
    /// Someone is ready to receive data.
    Ready,
    PlayerLeft { name: String },
    /// A participant becomes an observer, or stops being one.
    SetObserver { to: String, is_observer: bool },
    /// This participant is now the host.
    SetHost,
    ConnectionDenied { reason: String },
    /// The host's description of the aircraft.
    AircraftDefinition { body: u64 },
}

/// Something that happened to the connection.
#[derive(Debug, PartialEq, Eq)]
pub enum NetworkEvent {
    ConnectionEstablished,
    ConnectionLost { reason: String },
    UnablePunchthrough,
    SessionIdFetchFailed,
    /// Figures on the connection, which stay with the caller, under a number.
    Metrics { body: u64 },
}

/// Something that the aircraft's own controls ask of the program.
#[derive(Debug, Clone, Copy, PartialEq, Eq, Structural)]
pub enum ProgramAction {
    TakeControls,
    TransferControls,
}

/// A wish to host a session.
#[derive(Debug, PartialEq, Eq)]
pub struct ServerRequest {
    pub username: String,
    pub port: u16,
    pub isipv6: bool,
    pub method: ConnectionMethod,
    pub use_upnp: bool,
}

/// A wish to join a session. The address is given as printed.
#[derive(Debug, PartialEq, Eq)]
pub struct ClientRequest {
    pub session_id: String,
    pub username: String,
    pub method: ConnectionMethod,
    pub ip: Option<String>,
    pub port: Option<u16>,
    pub isipv6: bool,
    pub hostname: Option<String>,
}

/// Something that the user did in the window.
#[derive(Debug, PartialEq, Eq)]
pub enum WindowMessage {
    StartServer(ServerRequest),
    Connect(ClientRequest),
    Disconnect,
    TransferControl { target: String },
    SetObserver { target: String, is_observer: bool },
    LoadAircraft { config_file_name: String },
    /// The window is ready.
    Startup,
    RunUpdater,
    UpdateConfig { new_config: crate::config::Config },
    ForceTakeControl,
}

/// What the simulator is connected for.
#[derive(Debug, PartialEq, Eq)]
pub enum SimPurpose {
    Host(ServerRequest),
    Join(ClientRequest),
}

/// The newest release of the program, held against the running one.
#[derive(Debug, PartialEq, Eq)]
pub struct Release {
    /// The version as printed.
    pub version: String,
    /// Whether it is later than the running version.
    pub is_newer: bool,
    pub is_prerelease: bool,
}

/// What performing an action brought about.
#[derive(Debug, PartialEq, Eq)]
#[allow(inconsistent_fields)]
pub enum Reply {
    /// Of `LookUpSender`.
    SenderFound { sender: Sender, body: u64 },
    /// Of `ApplyUpdate`.
    UpdateApplied { result: Result<(), String> },
    /// Of `AddClient`.
    ClientAdded { player: Player },
    /// Of `RemoveClient`; whether the client taken off the list had control.
    ClientRemoved { name: String, had_control: bool },
    /// Of `LoadReceivedDefinitions`.
    DefinitionsReceived { loaded: bool },
    /// Of `ConnectReceivedDefinitions`.
    DefinitionsConnected { connected: bool },
    /// Of `StampConnection`.
    ConnectionStamped,
    /// Of `CollectUpdates`.
    UpdatesWritten,
    /// Of `ConnectSim`.
    SimConnected { purpose: SimPurpose, connected: bool },
    /// Of `LoadDefinitions`.
    DefinitionsLoaded { request: ServerRequest, connected: bool, loaded: bool },
    /// Of `OpenServer`.
    ServerOpened { request: ServerRequest, result: Result<(), String> },
    /// Of `ResolveHost`.
    HostResolved { request: ClientRequest, result: Result<String, String> },
    /// Of `OpenClient`.
    ClientOpened { request: ClientRequest, result: Result<(), String> },
    /// Of `ListAircraft`; nothing where the directory could not be read.
    AircraftListed { configs: Option<Vec<String>> },
    /// Of `CheckVersion`; nothing where the newest release is not known.
    VersionChecked { newest: Option<Release> },
    /// Of `RunInstaller`.
    InstallerRun { started: bool },
}

/// One thing that a session is told.
#[derive(Debug, PartialEq, Eq)]
pub enum Input {
    Sim(SimMessage),
    Payload(Payload),
    Event(NetworkEvent),
    /// The aircraft definitions did their work for this pass of the loop.
    Stepped { result: Result<(), String> },
    Program(ProgramAction),
    /// Time for whatever has become due.
    Tick,
    Window(WindowMessage),
    Reply(Reply),
    /// A pass of the main loop ends.
    LoopEnd,
    /// A pass of the main loop took so many milliseconds.
    LoopTimed { millis: u128 },
}

/// What holds around the session at the moment of an input.
#[derive(Debug, PartialEq, Eq)]
pub struct Facts {
    /// The clock reading.
    pub now: u64,
    /// Whether this participant hosts the session.
    pub is_host: bool,
    /// The name of this participant on the network.
    pub server_name: String,
    /// The session's identifier at the cloud server.
    pub session_id: Option<String>,
    /// Whether this participant controls the aircraft.
    pub has_control: bool,
    /// The client on the list that controls the aircraft.
    pub client_in_control: Option<String>,
    /// The client on the list to whom control would go next.
    pub next_for_control: Option<String>,
    /// How many clients are on the list.
    pub number_clients: usize,
}

} // verus!
