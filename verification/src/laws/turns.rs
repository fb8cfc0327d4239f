//! What a session does in full at its turning points.
use vstd::prelude::*;

use crate::action::{ActionView, ClientRoute, ServerRoute};
use crate::message::{
    ClientRequest, ConnectionMethod, Facts, Input, NetworkEvent, Payload, Player, ProgramAction,
    Release, Reply, ServerRequest, SimPurpose, WindowMessage,
};
use crate::model::{step, SessionView};

verus! {

/// An attempt to host that succeeds makes a connection and says nothing. One that
/// fails leaves the connection as it was, and says why, unless it was relayed. The
/// settings are written last in any case.
pub proof fn law_hosting_comes_to_its_end(
    s: SessionView,
    request: ServerRequest,
    result: Result<(), String>,
    facts: Facts,
)
    ensures
        ({
            let (next, actions) = step(
                s,
                Input::Reply(Reply::ServerOpened { request, result }),
                facts,
            );
            &&& actions.last() == (ActionView::WriteConfig { config: next.config })
            &&& result is Ok ==> next.has_client && actions.len() == 1
            &&& result matches Err(error) ==> {
                &&& next.has_client == s.has_client
                &&& request.method == ConnectionMethod::Relay ==> actions.len() == 1
                &&& request.method == ConnectionMethod::CloudServer ==> actions.len() == 2
                    && actions[0] == (ActionView::ShowServerFail { reason: error@ })
                &&& request.method == ConnectionMethod::Direct ==> actions.len() == 2
                    && actions[0] == (ActionView::ShowServerFail { reason: error@ })
            }
        }),
{
}

/// An attempt to join that succeeds makes a connection and says nothing. One that
/// fails leaves the connection as it was, and says why. The settings are written
/// last in any case.
pub proof fn law_joining_comes_to_its_end(
    s: SessionView,
    request: ClientRequest,
    result: Result<(), String>,
    facts: Facts,
)
    ensures
        ({
            let (next, actions) = step(
                s,
                Input::Reply(Reply::ClientOpened { request, result }),
                facts,
            );
            &&& actions.last() == (ActionView::WriteConfig { config: next.config })
            &&& result is Ok ==> next.has_client && actions.len() == 1
            &&& result matches Err(error) ==> {
                &&& next.has_client == s.has_client
                &&& actions.len() == 2
                &&& actions[0] == (ActionView::ShowClientFail {
                    reason: "Could not start client! Reason: "@ + error@,
                })
            }
        }),
{
}

/// A host name that is found is dialled at once, on the request's port, and nothing
/// changes; one that is not found ends the attempt: the window says why, and the
/// settings are written.
pub proof fn law_lookups_lead_on_or_end(
    s: SessionView,
    request: ClientRequest,
    result: Result<String, String>,
    facts: Facts,
)
    ensures
        ({
            let (next, actions) = step(
                s,
                Input::Reply(Reply::HostResolved { request, result }),
                facts,
            );
            &&& result matches Ok(ip) ==> {
                &&& next == s
                &&& actions.len() == 1
                &&& actions[0] == (ActionView::OpenClient {
                    route: ClientRoute::Dial { ip, port: request.port->0 },
                    request,
                    conn_timeout: s.config.conn_timeout,
                })
            }
            &&& result matches Err(error) ==> {
                &&& next.has_client == s.has_client
                &&& actions.len() == 2
                &&& actions[0] == (ActionView::ShowClientFail { reason: error@ })
                &&& actions[1] == (ActionView::WriteConfig { config: next.config })
            }
        }),
{
}

/// A failed simulator is reported first, and only then. Whoever hosts goes on
/// without it: with the selected aircraft, or to learn that none is.
pub proof fn law_hosting_goes_on_to_the_aircraft(
    s: SessionView,
    request: ServerRequest,
    connected: bool,
    facts: Facts,
)
    ensures
        ({
            let purpose = SimPurpose::Host(request);
            let (next, actions) = step(
                s,
                Input::Reply(Reply::SimConnected { purpose, connected }),
                facts,
            );
            &&& next == s
            &&& actions.len() == if connected {
                1nat
            } else {
                2nat
            }
            &&& !connected ==> actions[0] == (ActionView::ShowError {
                message: "Could not connect to SimConnect! Is the sim running?"@,
            })
            &&& s.config_to_load.len() == 0 ==> actions.last() == (ActionView::ShowServerFail {
                reason: "Select an aircraft config first!"@,
            })
            &&& s.config_to_load.len() > 0 ==> actions.last() == (ActionView::LoadDefinitions {
                config_name: s.config_to_load,
                request,
                connected,
            })
        }),
{
}

/// Whoever joins goes on only with the simulator: to look up the host they named,
/// or to dial the address they gave, or to the session they named.
pub proof fn law_joining_goes_on_to_the_session(
    s: SessionView,
    request: ClientRequest,
    connected: bool,
    facts: Facts,
)
    ensures
        ({
            let purpose = SimPurpose::Join(request);
            let (next, actions) = step(
                s,
                Input::Reply(Reply::SimConnected { purpose, connected }),
                facts,
            );
            let conn_timeout = s.config.conn_timeout;
            &&& next == s
            &&& !connected ==> {
                &&& actions.len() == 1
                &&& actions[0] == (ActionView::ShowError {
                    message: "Could not connect to SimConnect! Is the sim running?"@,
                })
            }
            &&& connected ==> {
                &&& actions.len() == 2
                &&& actions[0] == ActionView::ShowAttempt
                &&& request.method == ConnectionMethod::Direct ==> match request.hostname {
                    Some(hostname) => actions[1] == (ActionView::ResolveHost {
                        hostname: hostname@,
                        isipv6: request.isipv6,
                        request,
                    }),
                    None => actions[1] == (ActionView::OpenClient {
                        route: ClientRoute::Dial { ip: request.ip->0, port: request.port->0 },
                        request,
                        conn_timeout,
                    }),
                }
                &&& request.method == ConnectionMethod::CloudServer ==> actions[1]
                    == (ActionView::OpenClient {
                    route: ClientRoute::HolePunch {
                        session_id: request.session_id,
                        isipv6: request.isipv6,
                    },
                    request,
                    conn_timeout,
                })
            }
        }),
{
}

/// Definitions that do not load deselect their aircraft and are reported. Those that
/// do change nothing, and lead to a session exactly where the simulator is connected:
/// mapped, with the controls connected, shown, and opened.
pub proof fn law_definitions_lead_to_a_session(
    s: SessionView,
    request: ServerRequest,
    connected: bool,
    loaded: bool,
    facts: Facts,
)
    ensures
        ({
            let (next, actions) = step(
                s,
                Input::Reply(Reply::DefinitionsLoaded { request, connected, loaded }),
                facts,
            );
            &&& !loaded ==> {
                &&& next.config_to_load.len() == 0
                &&& actions.len() == 1
                &&& actions[0] == (ActionView::ShowError {
                    message:
                        "Error loading definition files. Check the log for more information."@,
                })
            }
            &&& loaded ==> next == s
            &&& loaded && !connected ==> actions.len() == 0
            &&& loaded && connected ==> {
                &&& actions.len() == 4
                &&& actions[0] == ActionView::ConnectDefinitions
                &&& actions[1] == ActionView::ConnectControl
                &&& actions[2] == ActionView::ShowAttempt
                &&& actions[3] matches ActionView::OpenServer {
                    route,
                    request: wish,
                    conn_timeout,
                }
                &&& wish == request && conn_timeout == s.config.conn_timeout
                &&& request.method == ConnectionMethod::Relay <==> route == ServerRoute::Relay
            }
        }),
{
}

/// A host whose session opens is shown it, empty, takes control, and has the moment
/// stamped; anyone else is shown the connection, without control.
pub proof fn law_connections_are_established(s: SessionView, facts: Facts)
    requires
        s.has_client,
    ensures
        ({
            let (next, actions) = step(
                s,
                Input::Event(NetworkEvent::ConnectionEstablished),
                facts,
            );
            &&& next == s
            &&& facts.is_host ==> {
                &&& actions.len() == 4
                &&& actions[0] matches ActionView::ShowServerStarted { clients, session_id }
                &&& clients == 0
                &&& session_id is Some <==> facts.session_id is Some
                &&& facts.session_id matches Some(id) ==> session_id == Some(id@)
                &&& actions[1] == ActionView::TakeControl
                &&& actions[2] == ActionView::ShowGainControl
                &&& actions[3] == ActionView::StampConnection
            }
            &&& !facts.is_host ==> {
                &&& actions.len() == 2
                &&& actions[0] == ActionView::ShowConnected
                &&& actions[1] == ActionView::ShowLoseControl
            }
        }),
{
}

/// A switch of the aircraft that is used without control takes it from the client
/// who has it, if one does; an observer's switch for taking control, or that of one
/// who has it already, does nothing.
pub proof fn law_control_is_taken_by_switch(
    s: SessionView,
    action: ProgramAction,
    facts: Facts,
)
    requires
        s.has_client,
    ensures
        ({
            let (next, actions) = step(s, Input::Program(action), facts);
            let blocked = facts.has_control || (action == ProgramAction::TakeControls
                && s.observing);
            &&& next == s
            &&& !blocked ==> match facts.client_in_control {
                Some(holder) => {
                    &&& actions.len() == 2
                    &&& actions[0] == ActionView::TakeControl
                    &&& actions[1] == (ActionView::SendTakeControl { target: holder@ })
                },
                None => actions.len() == 0,
            }
            &&& blocked && action == ProgramAction::TakeControls ==> actions.len() == 0
        }),
{
}

/// As time passes, at most one of two things happens on a connection three seconds or
/// more after it was made: data goes out where it is exchanged already, or its
/// exchange begins. Before that, nothing does.
pub proof fn law_time_passes(s: SessionView, facts: Facts)
    requires
        s.has_client,
    ensures
        ({
            let actions = step(s, Input::Tick, facts).1;
            let over = s.connection_time matches Some(since) && since + 3_000_000_000
                <= facts.now;
            &&& !over ==> actions.len() == 0
            &&& over && !s.ready_to_process_data ==> {
                &&& actions[0] == ActionView::ResetSync
                &&& facts.is_host ==> actions.len() == 1
                &&& !facts.is_host ==> actions.len() == 2 && actions[1] == ActionView::SendReady
            }
            &&& over && s.ready_to_process_data ==> {
                &&& actions.len() <= 1
                &&& s.observing ==> actions.len() == 0
                &&& actions.len() == 1 ==> actions[0] is CollectUpdates
            }
        }),
{
}

/// A message about who observes changes what this participant knows of themself, or
/// of another, as it says; one that ends their own observing has gathered data
/// forgotten.
pub proof fn law_observers_change(
    s: SessionView,
    to: String,
    is_observer: bool,
    facts: Facts,
)
    requires
        s.has_client,
    ensures
        ({
            let (next, actions) = step(
                s,
                Input::Payload(Payload::SetObserver { to, is_observer }),
                facts,
            );
            &&& to@ == facts.server_name@ ==> {
                &&& next.observing == is_observer
                &&& actions[0] == (ActionView::ShowSelfObserving { is_observer })
                &&& is_observer ==> actions.len() == 1
                &&& !is_observer ==> actions.len() == 2 && actions[1] == ActionView::ResetSync
            }
            &&& to@ != facts.server_name@ ==> {
                &&& next == s
                &&& actions.len() == 2
                &&& actions[0] == (ActionView::SetObserver { name: to@, is_observer })
                &&& actions[1] == (ActionView::ShowObserving { name: to@, is_observer })
            }
        }),
{
}

/// A newcomer is shown and noted by everyone with the same actions; a host does more
/// before that, and one who joins with control is named last.
pub proof fn law_newcomers_are_welcomed(s: SessionView, player: Player, facts: Facts)
    requires
        s.has_client,
    ensures
        ({
            let actions = step(s, Input::Reply(Reply::ClientAdded { player }), facts).1;
            let name = player.name@;
            let is_observer = player.is_observer || (facts.is_host && s.config.start_observer);
            let before: int = if !facts.is_host {
                0
            } else if s.config.start_observer {
                3
            } else {
                2
            };
            &&& actions.len() == before + if player.in_control {
                6int
            } else {
                4int
            }
            &&& facts.is_host ==> actions[0] is ShowServerStarted && actions[1]
                == (ActionView::SendDefinitions { target: name })
            &&& facts.is_host && s.config.start_observer ==> actions[2]
                == (ActionView::SendSetObserver { target: name, is_observer: true })
            &&& actions[before] == (ActionView::ShowNewConnection { name })
            &&& actions[before + 1] == (ActionView::ShowObserving { name, is_observer })
            &&& actions[before + 2] == (ActionView::SetServer {
                name,
                is_server: player.is_server,
            })
            &&& actions[before + 3] == (ActionView::SetObserver { name, is_observer })
            &&& player.in_control ==> {
                &&& actions[before + 4] == (ActionView::ShowInControl { name })
                &&& actions[before + 5] == (ActionView::SetClientControl { name })
            }
        }),
{
}

/// Whoever leaves is shown to have left. Control that they had is freed first, and
/// taken and announced by the host, who reports the new number of clients last.
pub proof fn law_leavers_are_seen_off(
    s: SessionView,
    name: String,
    had_control: bool,
    facts: Facts,
)
    requires
        s.has_client,
    ensures
        ({
            let actions = step(
                s,
                Input::Reply(Reply::ClientRemoved { name, had_control }),
                facts,
            ).1;
            let before: int = if !had_control {
                0
            } else if facts.is_host {
                4
            } else {
                1
            };
            &&& actions.len() == before + if facts.is_host {
                2int
            } else {
                1int
            }
            &&& had_control ==> actions[0] == ActionView::SetNoControl
            &&& had_control && facts.is_host ==> {
                &&& actions[1] == ActionView::ShowGainControl
                &&& actions[2] == ActionView::TakeControl
                &&& actions[3] == (ActionView::SendTransferControl {
                    target: facts.server_name@,
                })
            }
            &&& actions[before] == (ActionView::ShowLostConnection { name: name@ })
            &&& facts.is_host ==> actions[before + 1] is ShowServerStarted
        }),
{
}

/// Control that is transferred to this participant is taken, shown and nobody
/// else's; transferred to another, it is let go if it was theirs, and the other is
/// shown and noted with it. What was gathered is forgotten first.
pub proof fn law_control_is_transferred(
    s: SessionView,
    from: String,
    to: String,
    facts: Facts,
)
    requires
        s.has_client,
    ensures
        ({
            let (next, actions) = step(
                s,
                Input::Payload(Payload::TransferControl { from, to }),
                facts,
            );
            let me = facts.server_name@;
            &&& next == s
            &&& actions[0] == ActionView::ResetSync
            &&& to@ == me ==> {
                &&& actions.len() == 4
                &&& actions[1] == ActionView::TakeControl
                &&& actions[2] == ActionView::ShowGainControl
                &&& actions[3] == ActionView::SetNoControl
            }
            &&& to@ != me && from@ == me ==> {
                &&& actions.len() == 5
                &&& actions[1] == ActionView::ShowLoseControl
                &&& actions[2] == ActionView::LoseControl
                &&& actions[3] == (ActionView::ShowInControl { name: to@ })
                &&& actions[4] == (ActionView::SetClientControl { name: to@ })
            }
            &&& to@ != me && from@ != me ==> {
                &&& actions.len() == 3
                &&& actions[1] == (ActionView::ShowInControl { name: to@ })
                &&& actions[2] == (ActionView::SetClientControl { name: to@ })
            }
        }),
{
}

/// The newest release is shown where it is final and newer; where it is a
/// prerelease, only if those are wanted; and nothing is where none was found.
pub proof fn law_newest_release_is_judged(
    s: SessionView,
    newest: Option<Release>,
    facts: Facts,
)
    ensures
        ({
            let (next, actions) = step(s, Input::Reply(Reply::VersionChecked { newest }), facts);
            &&& next == s
            &&& newest is None ==> actions.len() == 0
            &&& newest matches Some(release) ==> {
                &&& !release.is_newer ==> actions.len() == 0
                &&& release.is_prerelease && !s.config.check_for_betas ==> actions.len() == 0
                &&& release.is_newer && !release.is_prerelease ==> actions.len() == 1
                &&& release.is_newer && s.config.check_for_betas ==> actions.len() == 1
                &&& actions.len() == 1 ==> actions[0] == (ActionView::ShowVersion {
                    version: release.version@,
                })
            }
        }),
{
}

/// Whatever the user asks of the connection goes out on it, in full and unchanged,
/// and nowhere where there is none.
pub proof fn law_wishes_go_out_on_the_connection(
    s: SessionView,
    target: String,
    facts: Facts,
)
    ensures
        ({
            let stopped = step(s, Input::Window(WindowMessage::Disconnect), facts).1;
            let given = step(s, Input::Window(WindowMessage::TransferControl { target }), facts).1;
            let taken = step(s, Input::Window(WindowMessage::ForceTakeControl), facts).1;
            &&& !s.has_client ==> stopped.len() == 0 && given.len() == 0 && taken.len() == 0
            &&& s.has_client ==> {
                &&& stopped.len() == 1 && stopped[0] == (ActionView::Stop {
                    reason: "Stopped."@,
                })
                &&& given.len() == 1 && given[0] == (ActionView::SendTransferControl {
                    target: target@,
                })
                &&& match facts.client_in_control {
                    Some(holder) => taken.len() == 1 && taken[0] == (ActionView::SendTakeControl {
                        target: holder@,
                    }),
                    None => taken.len() == 0,
                }
            }
        }),
{
}

} // verus!
