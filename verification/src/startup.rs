//! Getting a session under way: the aircraft to choose from, the releases to
//! offer, and the route by which participants meet.
use vstd::prelude::*;

use crate::action::{ClientRoute, ServerRoute};
use crate::message::{ClientRequest, ConnectionMethod, Release, ServerRequest};

verus! {

/// The first thing to do on the way into a session.
#[derive(Debug, PartialEq, Eq)]
pub enum ClientPlan {
    /// Look up the address of a host name.
    Resolve { hostname: String },
    /// Go by a route that is already known.
    Open(ClientRoute),
}

/// A request that says enough to set out: a direct connection names a host, or
/// an address and a port. A relayed session is only ever hosted.
pub open spec fn startable(request: ClientRequest) -> bool {
    match request.method {
        ConnectionMethod::Direct => request.hostname is Some || (request.ip is Some
            && request.port is Some),
        ConnectionMethod::CloudServer => true,
        ConnectionMethod::Relay => false,
    }
}

/// How a startable request sets out. A host name goes before an address.
pub open spec fn client_plan(request: ClientRequest) -> ClientPlan {
    if request.method == ConnectionMethod::Direct {
        match request.hostname {
            Some(hostname) => ClientPlan::Resolve { hostname },
            None => ClientPlan::Open(ClientRoute::Dial { ip: request.ip->0, port: request.port->0 }),
        }
    } else {
        ClientPlan::Open(
            ClientRoute::HolePunch { session_id: request.session_id, isipv6: request.isipv6 },
        )
    }
}

/// Tells whether a request says enough to set out.
pub fn can_start_client(request: &ClientRequest) -> (can: bool)
    ensures
        can == startable(*request),
{
    match request.method {
        ConnectionMethod::Direct => request.hostname.is_some() || (request.ip.is_some()
            && request.port.is_some()),
        ConnectionMethod::CloudServer => true,
        ConnectionMethod::Relay => false,
    }
}

/// Decides how a request to join sets out.
pub fn start_client(request: &ClientRequest) -> (plan: ClientPlan)
    requires
        startable(*request),
    ensures
        plan == client_plan(*request),
{
    match request.method {
        ConnectionMethod::Direct => match &request.hostname {
            Some(hostname) => ClientPlan::Resolve { hostname: hostname.clone() },
            None => ClientPlan::Open(
                ClientRoute::Dial {
                    ip: request.ip.as_ref().unwrap().clone(),
                    port: request.port.unwrap(),
                },
            ),
        },
        _ => ClientPlan::Open(
            ClientRoute::HolePunch {
                session_id: request.session_id.clone(),
                isipv6: request.isipv6,
            },
        ),
    }
}

/// What is said of a client that could not be started for a reason.
pub open spec fn client_failure(reason: Seq<char>) -> Seq<char> {
    "Could not start client! Reason: "@ + reason
}

/// Says that a client could not be started, and why.
pub fn describe_client_failure(reason: &str) -> (message: String)
    ensures
        message@ == client_failure(reason@),
{
    let mut message: String = "Could not start client! Reason: ".to_string();
    message.append(reason);
    message
}

/// How a request to host opens its session.
pub open spec fn server_route_of(request: ServerRequest) -> ServerRoute {
    match request.method {
        ConnectionMethod::Direct => ServerRoute::Listen {
            isipv6: request.isipv6,
            port: request.port,
            use_upnp: request.use_upnp,
        },
        ConnectionMethod::CloudServer => ServerRoute::HolePunch { isipv6: request.isipv6 },
        ConnectionMethod::Relay => ServerRoute::Relay,
    }
}

/// Decides how a request to host opens its session.
pub fn server_route(request: &ServerRequest) -> (route: ServerRoute)
    ensures
        route == server_route_of(*request),
        match route {
            ServerRoute::Listen { isipv6, port, use_upnp } => {
                &&& request.method == ConnectionMethod::Direct
                &&& isipv6 == request.isipv6 && port == request.port
                &&& use_upnp == request.use_upnp
            },
            ServerRoute::HolePunch { isipv6 } => {
                &&& request.method == ConnectionMethod::CloudServer
                &&& isipv6 == request.isipv6
            },
            ServerRoute::Relay => request.method == ConnectionMethod::Relay,
        },
{
    match request.method {
        ConnectionMethod::Direct => ServerRoute::Listen {
            isipv6: request.isipv6,
            port: request.port,
            use_upnp: request.use_upnp,
        },
        ConnectionMethod::CloudServer => ServerRoute::HolePunch { isipv6: request.isipv6 },
        ConnectionMethod::Relay => ServerRoute::Relay,
    }
}

/// What the window of a version of the program is called.
pub open spec fn title_of(version: Seq<char>) -> Seq<char> {
    "Shared Cockpit v"@ + version
}

/// The title of the program's window, for a version of the program.
pub fn window_title(version: &str) -> (title: String)
    ensures
        title@ == "Shared Cockpit v"@ + version@,
        title@ == title_of(version@),
{
    let mut title: String = "Shared Cockpit v".to_string();
    title.append(version);
    title
}

/// A release worth offering: later than the running one, and no prerelease
/// unless those are wanted.
pub open spec fn offered(release: Release, check_for_betas: bool) -> bool {
    release.is_newer && (release.is_prerelease ==> check_for_betas)
}

/// Tells whether a release is offered to the user.
pub fn offers_release(release: &Release, check_for_betas: bool) -> (offers: bool)
    ensures
        offers == offered(*release, check_for_betas),
{
    release.is_newer && (!release.is_prerelease || check_for_betas)
}

/// The listing fails at position `i`: everything before it could be read.
pub open spec fn fails_first_at<E>(entries: Seq<Result<String, E>>, i: int) -> bool {
    &&& 0 <= i < entries.len()
    &&& entries[i] is Err
    &&& forall|j: int| 0 <= j < i ==> entries[j] is Ok
}

/// What a listing comes to: the names of all entries in their order, or the error
/// of the first entry that could not be read.
pub open spec fn lists<E>(
    entries: Seq<Result<String, E>>,
    configs: Result<Seq<String>, E>,
) -> bool {
    match configs {
        Ok(names) => {
            &&& names.len() == entries.len()
            &&& forall|i: int|
                0 <= i < names.len() ==> #[trigger] entries[i] == Ok::<String, E>(names[i])
        },
        Err(error) => exists|i: int| #[trigger]
            fails_first_at(entries, i) && entries[i] == Err::<String, E>(error),
    }
}

/// Collects the names of the aircraft configurations from the entries of their
/// directory, in the order of the entries. The first entry that could not be
/// read fails the listing.
pub fn get_aircraft_configs<E>(entries: Vec<Result<String, E>>) -> (configs: Result<Vec<String>, E>)
    ensures
        configs is Ok <==> forall|i: int| 0 <= i < entries@.len() ==> entries@[i] is Ok,
        configs matches Ok(names) ==> {
            &&& names@.len() == entries@.len()
            &&& forall|i: int|
                0 <= i < names@.len() ==> #[trigger] entries@[i] == Ok::<String, E>(names@[i])
        },
        configs matches Err(error) ==> exists|i: int| #[trigger]
            fails_first_at(entries@, i) && entries@[i] == Err::<String, E>(error),
        lists(
            entries@,
            match configs {
                Ok(names) => Ok(names@),
                Err(error) => Err(error),
            },
        ),
{
    let ghost all = entries@;
    let mut names: Vec<String> = Vec::new();
    for entry in it: entries
        invariant
            it.seq() == all,
            names@.len() == it.index(),
            forall|i: int|
                0 <= i < names@.len() ==> #[trigger] all[i] == Ok::<String, E>(names@[i]),
    {
        match entry {
            Ok(name) => {
                names.push(name);
            },
            Err(error) => {
                assert(fails_first_at(all, it.index() as int));
                return Err(error);
            },
        }
    }
    Ok(names)
}

} // verus!
