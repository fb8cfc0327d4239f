//! What is done to the aircraft, and when.
use vstd::prelude::*;

use crate::action::ActionView;
use crate::laws::answers::{
    lemma_answers_are_short, lemma_not_asked, lemma_short_answer, may_answer,
};
use crate::message::{
    Facts, Input, NetworkEvent, Payload, ProgramAction, Reply, ServerRequest, SimMessage,
    SimPurpose, SyncPermission, WindowMessage,
};
use crate::model::{step, SessionView};

verus! {

/// Control is taken exactly where it is transferred to this participant, a session
/// is opened by its host, the connection is lost, the host takes it back from one
/// who left, or one without control uses a switch of the aircraft while a client
/// has it; but not the switch that takes control, if they observe.
#[verifier::spinoff_prover]
pub proof fn law_control_is_taken(
    s: SessionView,
    input: Input,
    facts: Facts,
)
    ensures
        step(s, input, facts).1.contains(ActionView::TakeControl) <==> {
            &&& s.has_client
            &&& {
                ||| input matches Input::Payload(Payload::TransferControl { to, .. }) && {
                    &&& to@ == facts.server_name@
                }
                ||| input matches Input::Event(NetworkEvent::ConnectionEstablished) && facts.is_host
                ||| input matches Input::Event(NetworkEvent::ConnectionLost { .. })
                ||| input matches Input::Reply(
                    Reply::ClientRemoved { name: leaver, had_control },
                ) && {
                    &&& had_control
                    &&& facts.is_host
                }
                ||| input matches Input::Program(ProgramAction::TransferControls) && {
                    &&& !facts.has_control
                    &&& facts.client_in_control is Some
                }
                ||| input matches Input::Program(ProgramAction::TakeControls) && {
                    &&& !facts.has_control
                    &&& !s.observing
                    &&& facts.client_in_control is Some
                }
            }
        },
{
    let action = ActionView::TakeControl;
    if may_answer(action, input) {
        lemma_answers_are_short(s, input, facts);
        lemma_short_answer(step(s, input, facts).1, action);
    } else {
        lemma_not_asked(s, input, facts, action);
    }
}

/// Control is let go exactly where this participant's is transferred to another, or
/// where the host's aircraft has been loaded.
#[verifier::spinoff_prover]
pub proof fn law_control_is_let_go(
    s: SessionView,
    input: Input,
    facts: Facts,
)
    ensures
        step(s, input, facts).1.contains(ActionView::LoseControl) <==> {
            &&& s.has_client
            &&& {
                ||| input matches Input::Payload(Payload::TransferControl { from, to }) && {
                    &&& from@ == facts.server_name@
                    &&& to@ != facts.server_name@
                }
                ||| input matches Input::Reply(Reply::DefinitionsReceived { loaded }) && loaded
            }
        },
{
    let action = ActionView::LoseControl;
    if may_answer(action, input) {
        lemma_answers_are_short(s, input, facts);
        lemma_short_answer(step(s, input, facts).1, action);
    } else {
        lemma_not_asked(s, input, facts, action);
    }
}

/// The controls are connected exactly where the host's aircraft has been loaded, or
/// the selected one on a connected simulator.
#[verifier::spinoff_prover]
pub proof fn law_controls_are_connected(
    s: SessionView,
    input: Input,
    facts: Facts,
)
    ensures
        step(s, input, facts).1.contains(ActionView::ConnectControl) <==> {
            ||| input matches Input::Reply(Reply::DefinitionsReceived { loaded }) && {
                &&& s.has_client
                &&& loaded
            }
            ||| input matches Input::Reply(Reply::DefinitionsLoaded { connected, loaded, .. }) && {
                &&& connected
                &&& loaded
            }
        },
{
    let action = ActionView::ConnectControl;
    if may_answer(action, input) {
        lemma_answers_are_short(s, input, facts);
        lemma_short_answer(step(s, input, facts).1, action);
    } else {
        lemma_not_asked(s, input, facts, action);
    }
}

/// Gathered data is forgotten exactly where control is transferred, where this
/// participant stops observing, and where the exchange of data begins.
#[verifier::spinoff_prover]
pub proof fn law_gathered_data_is_forgotten(
    s: SessionView,
    input: Input,
    facts: Facts,
)
    ensures
        step(s, input, facts).1.contains(ActionView::ResetSync) <==> {
            &&& s.has_client
            &&& {
                ||| input matches Input::Payload(Payload::TransferControl { .. })
                ||| input matches Input::Payload(Payload::SetObserver { to, is_observer }) && {
                    &&& to@ == facts.server_name@
                    &&& !is_observer
                }
                ||| input is Tick && {
                    &&& s.connection_time is Some
                    &&& s.connection_time->0 + 3_000_000_000 <= facts.now
                    &&& !s.ready_to_process_data
                }
            }
        },
{
    let action = ActionView::ResetSync;
    if may_answer(action, input) {
        lemma_answers_are_short(s, input, facts);
        lemma_short_answer(step(s, input, facts).1, action);
    } else {
        lemma_not_asked(s, input, facts, action);
    }
}

/// The sender of an update is looked up exactly when it arrives, by their own name.
#[verifier::spinoff_prover]
pub proof fn law_senders_are_looked_up(
    s: SessionView,
    input: Input,
    facts: Facts,
    name: Seq<char>,
    body: u64,
)
    ensures
        step(s, input, facts).1.contains(ActionView::LookUpSender { name, body }) <==> {
            &&& s.has_client
            &&& input matches Input::Payload(Payload::Update { from, body: came })
            &&& name == from@
            &&& body == came
        },
{
    let action = ActionView::LookUpSender { name, body };
    if may_answer(action, input) {
        lemma_answers_are_short(s, input, facts);
        lemma_short_answer(step(s, input, facts).1, action);
    } else {
        lemma_not_asked(s, input, facts, action);
    }
}

/// Data is gathered and sent exactly when time passes, three seconds have gone by
/// since the connection was made, data is exchanged, this participant does not
/// observe, and more than one part in `update_rate` of a second has gone by since
/// data was last sent; in the role of host and holder of control that they have.
#[verifier::spinoff_prover]
pub proof fn law_data_is_gathered(
    s: SessionView,
    input: Input,
    facts: Facts,
    permission: SyncPermission,
)
    ensures
        step(s, input, facts).1.contains(ActionView::CollectUpdates { permission }) <==> {
            &&& s.has_client
            &&& input is Tick
            &&& s.connection_time is Some
            &&& s.connection_time->0 + 3_000_000_000 <= facts.now
            &&& s.ready_to_process_data
            &&& !s.observing
            &&& s.update_rate_instant <= facts.now
            &&& (facts.now - s.update_rate_instant) * s.config.update_rate > 1_000_000_000
            &&& permission.is_server == facts.is_host
            &&& permission.is_master == facts.has_control
            &&& !permission.is_init
        },
{
    let action = ActionView::CollectUpdates { permission };
    if may_answer(action, input) {
        lemma_answers_are_short(s, input, facts);
        lemma_short_answer(step(s, input, facts).1, action);
    } else {
        lemma_not_asked(s, input, facts, action);
    }
}

/// Data on the simulated object is processed exactly when it comes.
#[verifier::spinoff_prover]
pub proof fn law_object_data_is_processed(
    s: SessionView,
    input: Input,
    facts: Facts,
    body: u64,
)
    ensures
        step(s, input, facts).1.contains(ActionView::ProcessSimObjectData { body }) <==> {
            &&& s.has_client
            &&& input matches Input::Sim(SimMessage::SimobjectData { body: came })
            &&& body == came
        },
{
    let action = ActionView::ProcessSimObjectData { body };
    if may_answer(action, input) {
        lemma_answers_are_short(s, input, facts);
        lemma_short_answer(step(s, input, facts).1, action);
    } else {
        lemma_not_asked(s, input, facts, action);
    }
}

/// Client data of the simulator is processed exactly when it comes.
#[verifier::spinoff_prover]
pub proof fn law_client_data_is_processed(
    s: SessionView,
    input: Input,
    facts: Facts,
    body: u64,
)
    ensures
        step(s, input, facts).1.contains(ActionView::ProcessClientData { body }) <==> {
            &&& s.has_client
            &&& input matches Input::Sim(SimMessage::ClientData { body: came })
            &&& body == came
        },
{
    let action = ActionView::ProcessClientData { body };
    if may_answer(action, input) {
        lemma_answers_are_short(s, input, facts);
        lemma_short_answer(step(s, input, facts).1, action);
    } else {
        lemma_not_asked(s, input, facts, action);
    }
}

/// Events of the simulator are processed exactly when they come.
#[verifier::spinoff_prover]
pub proof fn law_event_data_is_processed(
    s: SessionView,
    input: Input,
    facts: Facts,
    body: u64,
)
    ensures
        step(s, input, facts).1.contains(ActionView::ProcessEventData { body }) <==> {
            &&& s.has_client
            &&& input matches Input::Sim(SimMessage::Event { body: came })
            &&& body == came
        },
{
    let action = ActionView::ProcessEventData { body };
    if may_answer(action, input) {
        lemma_answers_are_short(s, input, facts);
        lemma_short_answer(step(s, input, facts).1, action);
    } else {
        lemma_not_asked(s, input, facts, action);
    }
}

/// Definitions from the host are loaded exactly when they come, and they are the
/// ones that came.
#[verifier::spinoff_prover]
pub proof fn law_received_definitions_are_loaded(
    s: SessionView,
    input: Input,
    facts: Facts,
    body: u64,
)
    ensures
        step(s, input, facts).1.contains(ActionView::LoadReceivedDefinitions { body }) <==> {
            &&& s.has_client
            &&& input matches Input::Payload(Payload::AircraftDefinition { body: came })
            &&& body == came
        },
{
    let action = ActionView::LoadReceivedDefinitions { body };
    if may_answer(action, input) {
        lemma_answers_are_short(s, input, facts);
        lemma_short_answer(step(s, input, facts).1, action);
    } else {
        lemma_not_asked(s, input, facts, action);
    }
}

/// Definitions from the host are mapped exactly when they have been loaded.
#[verifier::spinoff_prover]
pub proof fn law_received_definitions_are_mapped(
    s: SessionView,
    input: Input,
    facts: Facts,
)
    ensures
        step(s, input, facts).1.contains(ActionView::ConnectReceivedDefinitions) <==> {
            &&& s.has_client
            &&& input matches Input::Reply(Reply::DefinitionsReceived { loaded })
            &&& loaded
        },
{
    let action = ActionView::ConnectReceivedDefinitions;
    if may_answer(action, input) {
        lemma_answers_are_short(s, input, facts);
        lemma_short_answer(step(s, input, facts).1, action);
    } else {
        lemma_not_asked(s, input, facts, action);
    }
}

/// The definitions of an aircraft are loaded exactly where the simulator has been
/// tried for hosting and an aircraft is selected; they are that aircraft's.
#[verifier::spinoff_prover]
pub proof fn law_selected_definitions_are_loaded(
    s: SessionView,
    input: Input,
    facts: Facts,
    config_name: Seq<char>,
    request: ServerRequest,
    connected: bool,
)
    ensures
        step(s, input, facts).1.contains(
            ActionView::LoadDefinitions { config_name, request, connected },
        ) <==> {
            &&& input matches Input::Reply(
                Reply::SimConnected { purpose: SimPurpose::Host(wish), connected: tried },
            )
            &&& request == wish
            &&& connected == tried
            &&& s.config_to_load.len() > 0
            &&& config_name == s.config_to_load
        },
{
    let action = ActionView::LoadDefinitions { config_name, request, connected };
    if may_answer(action, input) {
        lemma_answers_are_short(s, input, facts);
        lemma_short_answer(step(s, input, facts).1, action);
    } else {
        lemma_not_asked(s, input, facts, action);
    }
}

/// The definitions of the selected aircraft are mapped exactly where they have been
/// loaded on a connected simulator.
#[verifier::spinoff_prover]
pub proof fn law_selected_definitions_are_mapped(
    s: SessionView,
    input: Input,
    facts: Facts,
)
    ensures
        step(s, input, facts).1.contains(ActionView::ConnectDefinitions) <==> {
            &&& input matches Input::Reply(Reply::DefinitionsLoaded { connected, loaded, .. })
            &&& connected
            &&& loaded
        },
{
    let action = ActionView::ConnectDefinitions;
    if may_answer(action, input) {
        lemma_answers_are_short(s, input, facts);
        lemma_short_answer(step(s, input, facts).1, action);
    } else {
        lemma_not_asked(s, input, facts, action);
    }
}

/// The simulator is connected exactly where the user asks to host or to join, and
/// for just that.
#[verifier::spinoff_prover]
pub proof fn law_simulator_is_connected(
    s: SessionView,
    input: Input,
    facts: Facts,
    purpose: SimPurpose,
)
    ensures
        step(s, input, facts).1.contains(ActionView::ConnectSim { purpose }) <==> {
            ||| input matches Input::Window(WindowMessage::StartServer(request)) && {
                &&& purpose == SimPurpose::Host(request)
            }
            ||| input matches Input::Window(WindowMessage::Connect(request)) && {
                &&& purpose == SimPurpose::Join(request)
            }
        },
{
    let action = ActionView::ConnectSim { purpose };
    if may_answer(action, input) {
        lemma_answers_are_short(s, input, facts);
        lemma_short_answer(step(s, input, facts).1, action);
    } else {
        lemma_not_asked(s, input, facts, action);
    }
}

/// The simulator is closed exactly at the end of a pass that lost the connection.
#[verifier::spinoff_prover]
pub proof fn law_simulator_is_closed(
    s: SessionView,
    input: Input,
    facts: Facts,
)
    ensures
        step(s, input, facts).1.contains(ActionView::CloseSim) <==> {
            &&& input is LoopEnd
            &&& s.should_set_none_client
        },
{
    let action = ActionView::CloseSim;
    if may_answer(action, input) {
        lemma_answers_are_short(s, input, facts);
        lemma_short_answer(step(s, input, facts).1, action);
    } else {
        lemma_not_asked(s, input, facts, action);
    }
}

} // verus!
