//! What holds of every session.
pub mod aircraft;
pub mod answers;
pub mod clients;
pub mod connection;
pub mod control;
pub mod data;
pub mod machine;
pub mod network;
pub mod order;
pub mod participants;
pub mod starting;
pub mod state;
pub mod turns;
pub mod values;
pub mod window;
