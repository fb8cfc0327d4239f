//! What is said to the other participants, and when.
use vstd::prelude::*;

use crate::action::{ActionView, ClientRoute, ServerRoute};
use crate::laws::answers::{
    lemma_answers_are_short, lemma_not_asked, lemma_short_answer, may_answer,
};
use crate::message::{
    ClientRequest, ConnectionMethod, Facts, Input, Payload, ProgramAction, Reply, ServerRequest,
    SimMessage, SimPurpose, WindowMessage,
};
use crate::model::{step, SessionView};

verus! {

/// All current data is sent exactly when another is ready and this participant has
/// control, host or not; and it is sent to arrive.
#[verifier::spinoff_prover]
pub proof fn law_current_data_is_sent_to_the_ready(
    s: SessionView,
    input: Input,
    facts: Facts,
    is_unreliable: bool,
)
    ensures
        step(s, input, facts).1.contains(ActionView::SendAllCurrent { is_unreliable }) <==> {
            &&& s.has_client
            &&& input matches Input::Payload(Payload::Ready)
            &&& facts.has_control
            &&& !is_unreliable
        },
{
    let action = ActionView::SendAllCurrent { is_unreliable };
    if may_answer(action, input) {
        lemma_answers_are_short(s, input, facts);
        lemma_short_answer(step(s, input, facts).1, action);
    } else {
        lemma_not_asked(s, input, facts, action);
    }
}

/// Control is offered to another exactly where the user says so in the window,
/// where one who has control uses the aircraft's switch and someone is next, host
/// or not, and where the host announces that it has taken a leaver's control.
#[verifier::spinoff_prover]
pub proof fn law_control_is_offered(
    s: SessionView,
    input: Input,
    facts: Facts,
    target: Seq<char>,
)
    ensures
        step(s, input, facts).1.contains(ActionView::SendTransferControl { target }) <==> {
            &&& s.has_client
            &&& {
                ||| input matches Input::Window(
                    WindowMessage::TransferControl { target: chosen },
                ) && {
                    &&& target == chosen@
                }
                ||| input matches Input::Program(ProgramAction::TransferControls) && {
                    &&& facts.has_control
                    &&& facts.next_for_control is Some
                    &&& target == facts.next_for_control->0@
                }
                ||| input matches Input::Reply(
                    Reply::ClientRemoved { name: leaver, had_control },
                ) && {
                    &&& had_control
                    &&& facts.is_host
                    &&& target == facts.server_name@
                }
            }
        },
{
    let action = ActionView::SendTransferControl { target };
    if may_answer(action, input) {
        lemma_answers_are_short(s, input, facts);
        lemma_short_answer(step(s, input, facts).1, action);
    } else {
        lemma_not_asked(s, input, facts, action);
    }
}

/// Control is requested exactly of the client who has it: where the user insists in
/// the window, or where one without control uses a switch of the aircraft; but not
/// the switch that takes control, if they observe.
#[verifier::spinoff_prover]
pub proof fn law_control_is_requested(
    s: SessionView,
    input: Input,
    facts: Facts,
    target: Seq<char>,
)
    ensures
        step(s, input, facts).1.contains(ActionView::SendTakeControl { target }) <==> {
            &&& s.has_client
            &&& {
                ||| input matches Input::Window(WindowMessage::ForceTakeControl) && {
                    &&& facts.client_in_control is Some
                    &&& target == facts.client_in_control->0@
                }
                ||| input matches Input::Program(ProgramAction::TransferControls) && {
                    &&& !facts.has_control
                    &&& facts.client_in_control is Some
                    &&& target == facts.client_in_control->0@
                }
                ||| input matches Input::Program(ProgramAction::TakeControls) && {
                    &&& !facts.has_control
                    &&& !s.observing
                    &&& facts.client_in_control is Some
                    &&& target == facts.client_in_control->0@
                }
            }
        },
{
    let action = ActionView::SendTakeControl { target };
    if may_answer(action, input) {
        lemma_answers_are_short(s, input, facts);
        lemma_short_answer(step(s, input, facts).1, action);
    } else {
        lemma_not_asked(s, input, facts, action);
    }
}

/// Another is announced as observing or not exactly as the user says in the window;
/// and a newcomer, as observing, where this host makes every newcomer an observer.
#[verifier::spinoff_prover]
pub proof fn law_observers_are_announced(
    s: SessionView,
    input: Input,
    facts: Facts,
    target: Seq<char>,
    is_observer: bool,
)
    ensures
        step(s, input, facts).1.contains(ActionView::SendSetObserver { target, is_observer }) <==> {
            &&& s.has_client
            &&& {
                ||| input matches Input::Window(
                    WindowMessage::SetObserver { target: chosen, is_observer: said },
                ) && {
                    &&& target == chosen@
                    &&& is_observer == said
                }
                ||| input matches Input::Reply(Reply::ClientAdded { player }) && {
                    &&& facts.is_host
                    &&& s.config.start_observer
                    &&& target == player.name@
                    &&& is_observer
                }
            }
        },
{
    let action = ActionView::SendSetObserver { target, is_observer };
    if may_answer(action, input) {
        lemma_answers_are_short(s, input, facts);
        lemma_short_answer(step(s, input, facts).1, action);
    } else {
        lemma_not_asked(s, input, facts, action);
    }
}

/// The aircraft's definitions are sent exactly by the host to a newcomer.
#[verifier::spinoff_prover]
pub proof fn law_definitions_go_to_newcomers(
    s: SessionView,
    input: Input,
    facts: Facts,
    target: Seq<char>,
)
    ensures
        step(s, input, facts).1.contains(ActionView::SendDefinitions { target }) <==> {
            &&& s.has_client
            &&& input matches Input::Reply(Reply::ClientAdded { player })
            &&& facts.is_host
            &&& target == player.name@
        },
{
    let action = ActionView::SendDefinitions { target };
    if may_answer(action, input) {
        lemma_answers_are_short(s, input, facts);
        lemma_short_answer(step(s, input, facts).1, action);
    } else {
        lemma_not_asked(s, input, facts, action);
    }
}

/// Readiness is announced exactly by one who is no host, when time passes and three
/// seconds have gone by since the connection was made, and data is not exchanged
/// yet.
#[verifier::spinoff_prover]
pub proof fn law_readiness_is_announced(
    s: SessionView,
    input: Input,
    facts: Facts,
)
    ensures
        step(s, input, facts).1.contains(ActionView::SendReady) <==> {
            &&& s.has_client
            &&& input is Tick
            &&& s.connection_time is Some
            &&& s.connection_time->0 + 3_000_000_000 <= facts.now
            &&& !s.ready_to_process_data
            &&& !facts.is_host
        },
{
    let action = ActionView::SendReady;
    if may_answer(action, input) {
        lemma_answers_are_short(s, input, facts);
        lemma_short_answer(step(s, input, facts).1, action);
    } else {
        lemma_not_asked(s, input, facts, action);
    }
}

/// A connection is stopped exactly where the simulator quits, the connection is
/// denied, the definitions fail at their work, at an update or at being mapped, or
/// the user disconnects; each with its own reason.
#[verifier::spinoff_prover]
pub proof fn law_connections_are_stopped(
    s: SessionView,
    input: Input,
    facts: Facts,
    reason: Seq<char>,
)
    ensures
        step(s, input, facts).1.contains(ActionView::Stop { reason }) <==> {
            &&& s.has_client
            &&& {
                ||| input matches Input::Sim(SimMessage::Quit) && reason == "Sim closed."@
                ||| input matches Input::Payload(Payload::ConnectionDenied { reason: given }) && {
                    &&& reason == "Connection Denied: "@ + given@
                }
                ||| input matches Input::Stepped { result: Err(error) } && reason == error@
                ||| input matches Input::Reply(Reply::UpdateApplied { result: Err(error) }) && {
                    &&& reason == error@
                }
                ||| input matches Input::Reply(Reply::DefinitionsConnected { connected }) && {
                    &&& !connected
                    &&& reason
                        == "Error starting WS server. Do you have another YourControls open?"@
                }
                ||| input matches Input::Window(WindowMessage::Disconnect) && reason == "Stopped."@
            }
        },
{
    let action = ActionView::Stop { reason };
    if may_answer(action, input) {
        lemma_answers_are_short(s, input, facts);
        lemma_short_answer(step(s, input, facts).1, action);
    } else {
        lemma_not_asked(s, input, facts, action);
    }
}

/// A session is opened exactly where the selected aircraft is loaded on a connected
/// simulator: for that request, with the timeout of the settings, and by the route
/// of the request's method. A direct one listens with the request's own protocol,
/// port and forwarding; one at the cloud server punches with its own protocol.
#[verifier::spinoff_prover]
pub proof fn law_sessions_are_opened(
    s: SessionView,
    input: Input,
    facts: Facts,
    route: ServerRoute,
    request: ServerRequest,
    conn_timeout: u64,
)
    ensures
        step(s, input, facts).1.contains(
            ActionView::OpenServer { route, request, conn_timeout },
        ) <==> {
            &&& input matches Input::Reply(
                Reply::DefinitionsLoaded { request: wish, connected, loaded },
            )
            &&& connected
            &&& loaded
            &&& request == wish
            &&& conn_timeout == s.config.conn_timeout
            &&& match route {
                ServerRoute::Listen { isipv6, port, use_upnp } => {
                    &&& wish.method == ConnectionMethod::Direct
                    &&& isipv6 == wish.isipv6 && port == wish.port && use_upnp == wish.use_upnp
                },
                ServerRoute::HolePunch { isipv6 } => {
                    &&& wish.method == ConnectionMethod::CloudServer
                    &&& isipv6 == wish.isipv6
                },
                ServerRoute::Relay => wish.method == ConnectionMethod::Relay,
            }
        },
{
    let action = ActionView::OpenServer { route, request, conn_timeout };
    if may_answer(action, input) {
        lemma_answers_are_short(s, input, facts);
        lemma_short_answer(step(s, input, facts).1, action);
    } else {
        lemma_not_asked(s, input, facts, action);
    }
}

/// A host name is looked up exactly where the simulator is connected to join
/// directly and the request gives one, whatever address it gives; in the protocol
/// of the request.
#[verifier::spinoff_prover]
pub proof fn law_host_names_are_looked_up(
    s: SessionView,
    input: Input,
    facts: Facts,
    hostname: Seq<char>,
    isipv6: bool,
    request: ClientRequest,
)
    ensures
        step(s, input, facts).1.contains(
            ActionView::ResolveHost { hostname, isipv6, request },
        ) <==> {
            &&& input matches Input::Reply(
                Reply::SimConnected { purpose: SimPurpose::Join(wish), connected },
            )
            &&& connected
            &&& request == wish
            &&& wish.method == ConnectionMethod::Direct
            &&& wish.hostname is Some
            &&& hostname == wish.hostname->0@
            &&& isipv6 == wish.isipv6
        },
{
    let action = ActionView::ResolveHost { hostname, isipv6, request };
    if may_answer(action, input) {
        lemma_answers_are_short(s, input, facts);
        lemma_short_answer(step(s, input, facts).1, action);
    } else {
        lemma_not_asked(s, input, facts, action);
    }
}

/// A session is entered exactly where the simulator is connected to join and no
/// host name has to be looked up, or where that has given an address: directly, at
/// that address or the request's own, on the port of the request; otherwise at the
/// request's session, in its protocol. Always with the timeout of the settings.
#[verifier::spinoff_prover]
pub proof fn law_sessions_are_entered(
    s: SessionView,
    input: Input,
    facts: Facts,
    route: ClientRoute,
    request: ClientRequest,
    conn_timeout: u64,
)
    ensures
        step(s, input, facts).1.contains(
            ActionView::OpenClient { route, request, conn_timeout },
        ) <==> {
            ||| input matches Input::Reply(
                Reply::SimConnected { purpose: SimPurpose::Join(wish), connected },
            ) && {
                &&& connected
                &&& request == wish
                &&& conn_timeout == s.config.conn_timeout
                &&& match route {
                    ClientRoute::Dial { ip, port } => {
                        &&& wish.method == ConnectionMethod::Direct && wish.hostname is None
                        &&& ip == wish.ip->0 && port == wish.port->0
                    },
                    ClientRoute::HolePunch { session_id, isipv6 } => {
                        &&& wish.method != ConnectionMethod::Direct
                        &&& session_id == wish.session_id && isipv6 == wish.isipv6
                    },
                }
            }
            ||| input matches Input::Reply(
                Reply::HostResolved { request: wish, result: Ok(found) },
            ) && {
                &&& request == wish
                &&& conn_timeout == s.config.conn_timeout
                &&& route == (ClientRoute::Dial { ip: found, port: wish.port->0 })
            }
        },
{
    let action = ActionView::OpenClient { route, request, conn_timeout };
    if may_answer(action, input) {
        lemma_answers_are_short(s, input, facts);
        lemma_short_answer(step(s, input, facts).1, action);
    } else {
        lemma_not_asked(s, input, facts, action);
    }
}

/// A connection is dropped exactly at the end of a pass that lost it.
#[verifier::spinoff_prover]
pub proof fn law_connections_are_dropped(
    s: SessionView,
    input: Input,
    facts: Facts,
)
    ensures
        step(s, input, facts).1.contains(ActionView::DropClient) <==> {
            &&& input is LoopEnd
            &&& s.should_set_none_client
        },
{
    let action = ActionView::DropClient;
    if may_answer(action, input) {
        lemma_answers_are_short(s, input, facts);
        lemma_short_answer(step(s, input, facts).1, action);
    } else {
        lemma_not_asked(s, input, facts, action);
    }
}

} // verus!
