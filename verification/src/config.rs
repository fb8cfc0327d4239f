//! The settings that a session reads and keeps.
use vstd::prelude::*;

verus! {

/// Settings of the program, as they are kept between runs.
#[derive(Debug, PartialEq, Eq)]
pub struct Config {
    /// Name under which this participant appears to the others.
    pub name: String,
    /// Address last connected to, as printed; empty where none was given.
    pub ip: String,
    /// Port last hosted on or connected to.
    pub port: u16,
    /// Seconds after which a silent connection counts as lost.
    pub conn_timeout: u64,
    /// How many times per second data is sent, at most.
    pub update_rate: u16,
    /// Whether a host asks the router to forward its port.
    pub use_upnp: bool,
    /// Whether a host makes every newcomer an observer.
    pub start_observer: bool,
    /// Whether prereleases are offered as updates.
    pub check_for_betas: bool,
}

/// What a [`Config`] holds.
#[verifier::ext_equal]
pub struct ConfigView {
    pub name: Seq<char>,
    pub ip: Seq<char>,
    pub port: u16,
    pub conn_timeout: u64,
    pub update_rate: u16,
    pub use_upnp: bool,
    pub start_observer: bool,
    pub check_for_betas: bool,
}

impl View for Config {
    type V = ConfigView;

    open spec fn view(&self) -> ConfigView {
        ConfigView {
            name: self.name@,
            ip: self.ip@,
            port: self.port,
            conn_timeout: self.conn_timeout,
            update_rate: self.update_rate,
            use_upnp: self.use_upnp,
            start_observer: self.start_observer,
            check_for_betas: self.check_for_betas,
        }
    }
}

impl Clone for Config {
    fn clone(&self) -> (copy: Self)
        ensures
            copy == *self,
    {
        Config {
            name: self.name.clone(),
            ip: self.ip.clone(),
            port: self.port,
            conn_timeout: self.conn_timeout,
            update_rate: self.update_rate,
            use_upnp: self.use_upnp,
            start_observer: self.start_observer,
            check_for_betas: self.check_for_betas,
        }
    }
}

} // verus!
