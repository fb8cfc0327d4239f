//! The session core of a shared cockpit.
//!
//! Several people fly one simulated aircraft over the network. This crate
//! decides what a participant's program does with everything that reaches it:
//! messages of the simulator, payloads and events of the network, choices made
//! in the window, the passing of time. [`Session::handle`] takes one input and
//! answers with the actions to perform, in order; it touches no socket, file,
//! window or simulator itself.
pub mod action;
pub mod clock;
pub mod config;
pub mod laws;
pub mod message;
pub mod model;
pub mod session;
pub mod startup;
pub mod transfer;

pub use action::{Action, ClientRoute, ServerRoute};
pub use config::Config;
pub use session::Session;
pub use message::{
    ClientRequest, ConnectionMethod, Facts, Input, NetworkEvent, Payload, Player, ProgramAction,
    Release, Reply, Sender, ServerRequest, SimMessage, SimPurpose, SyncPermission, WindowMessage,
};
