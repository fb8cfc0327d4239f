//! Which inputs call for which actions.
use vstd::prelude::*;

use crate::action::ActionView;
use crate::message::{
    Facts, Input, NetworkEvent, Payload, Player, Reply, ServerRequest, SimMessage, SimPurpose,
    WindowMessage,
};
use crate::model::{
    definitions_loaded_step, event_step, farewell, needs_client, payload_step, reply_step,
    server_report, sim_connected_actions, step, welcome, window_step, SessionView,
};

verus! {

/// Actions that speak to the other participants, or write what they said to the
/// aircraft.
pub open spec fn is_traffic(action: ActionView) -> bool {
    match action {
        ActionView::Stop { .. }
        | ActionView::SendTransferControl { .. }
        | ActionView::SendTakeControl { .. }
        | ActionView::SendSetObserver { .. }
        | ActionView::SendDefinitions { .. }
        | ActionView::SendReady
        | ActionView::SendAllCurrent { .. }
        | ActionView::CollectUpdates { .. }
        | ActionView::ApplyUpdate { .. } => true,
        _ => false,
    }
}

/// What an action can be an answer to.
pub open spec fn may_answer(action: ActionView, input: Input) -> bool {
    match action {
        ActionView::ShowError { .. } => {
            ||| input matches Input::Reply(Reply::SimConnected { .. })
            ||| input matches Input::Reply(Reply::DefinitionsLoaded { .. })
        },
        ActionView::ShowServerStarted { .. } => {
            ||| input matches Input::Event(NetworkEvent::ConnectionEstablished)
            ||| input matches Input::Reply(Reply::ClientAdded { .. })
            ||| input matches Input::Reply(Reply::ClientRemoved { .. })
        },
        ActionView::ShowServerFail { .. } => {
            ||| input matches Input::Event(NetworkEvent::SessionIdFetchFailed)
            ||| input matches Input::Reply(Reply::SimConnected { .. })
            ||| input matches Input::Reply(Reply::ServerOpened { .. })
        },
        ActionView::ShowClientFail { .. } => {
            ||| input matches Input::Event(NetworkEvent::ConnectionLost { .. })
            ||| input matches Input::Event(NetworkEvent::UnablePunchthrough)
            ||| input matches Input::Reply(Reply::HostResolved { .. })
            ||| input matches Input::Reply(Reply::ClientOpened { .. })
        },
        ActionView::ShowGainControl { .. } => {
            ||| input matches Input::Payload(Payload::TransferControl { .. })
            ||| input matches Input::Event(NetworkEvent::ConnectionEstablished)
            ||| input matches Input::Reply(Reply::ClientRemoved { .. })
        },
        ActionView::ShowLoseControl { .. } => {
            ||| input matches Input::Payload(Payload::TransferControl { .. })
            ||| input matches Input::Event(NetworkEvent::ConnectionEstablished)
        },
        ActionView::ShowInControl { .. }
        | ActionView::SetClientControl { .. } => {
            ||| input matches Input::Payload(Payload::TransferControl { .. })
            ||| input matches Input::Reply(Reply::ClientAdded { .. })
        },
        ActionView::ShowNewConnection { .. }
        | ActionView::SetServer { .. }
        | ActionView::SendDefinitions { .. } => {
            input matches Input::Reply(Reply::ClientAdded { .. })
        },
        ActionView::ShowLostConnection { .. } => {
            input matches Input::Reply(Reply::ClientRemoved { .. })
        },
        ActionView::ShowObserving { .. } => {
            ||| input matches Input::Payload(Payload::SetObserver { .. })
            ||| input matches Input::Reply(Reply::ClientAdded { .. })
        },
        ActionView::ShowSelfObserving { .. } => {
            input matches Input::Payload(Payload::SetObserver { .. })
        },
        ActionView::ShowHost => { input matches Input::Payload(Payload::SetHost) },
        ActionView::ShowConnected => {
            input matches Input::Event(NetworkEvent::ConnectionEstablished)
        },
        ActionView::ShowAttempt => {
            ||| input matches Input::Reply(Reply::SimConnected { .. })
            ||| input matches Input::Reply(Reply::DefinitionsLoaded { .. })
        },
        ActionView::ShowNetwork { .. } => {
            input matches Input::Event(NetworkEvent::Metrics { .. })
        },
        ActionView::ShowAircraft { .. } => {
            input matches Input::Reply(Reply::AircraftListed { .. })
        },
        ActionView::ShowConfig { .. }
        | ActionView::ListAircraft
        | ActionView::CheckVersion => { input matches Input::Window(WindowMessage::Startup) },
        ActionView::ShowVersion { .. } => {
            input matches Input::Reply(Reply::VersionChecked { .. })
        },
        ActionView::ShowUpdateFailed => { input matches Input::Reply(Reply::InstallerRun { .. }) },
        ActionView::TakeControl => {
            ||| input matches Input::Payload(Payload::TransferControl { .. })
            ||| input matches Input::Event(NetworkEvent::ConnectionEstablished)
            ||| input matches Input::Event(NetworkEvent::ConnectionLost { .. })
            ||| input matches Input::Reply(Reply::ClientRemoved { .. })
            ||| input is Program
        },
        ActionView::LoseControl => {
            ||| input matches Input::Payload(Payload::TransferControl { .. })
            ||| input matches Input::Reply(Reply::DefinitionsReceived { .. })
        },
        ActionView::ConnectControl => {
            ||| input matches Input::Reply(Reply::DefinitionsReceived { .. })
            ||| input matches Input::Reply(Reply::DefinitionsLoaded { .. })
        },
        ActionView::ResetSync => {
            ||| input matches Input::Payload(Payload::TransferControl { .. })
            ||| input matches Input::Payload(Payload::SetObserver { .. })
            ||| input is Tick
        },
        ActionView::LookUpSender { .. } => { input matches Input::Payload(Payload::Update { .. }) },
        ActionView::ApplyUpdate { .. } => { input matches Input::Reply(Reply::SenderFound { .. }) },
        ActionView::CollectUpdates { .. }
        | ActionView::SendReady => { input is Tick },
        ActionView::ProcessSimObjectData { .. } => {
            input matches Input::Sim(SimMessage::SimobjectData { .. })
        },
        ActionView::ProcessClientData { .. } => {
            input matches Input::Sim(SimMessage::ClientData { .. })
        },
        ActionView::ProcessEventData { .. } => {
            input matches Input::Sim(SimMessage::Event { .. })
        },
        ActionView::LoadReceivedDefinitions { .. } => {
            input matches Input::Payload(Payload::AircraftDefinition { .. })
        },
        ActionView::LoadDefinitions { .. } => {
            input matches Input::Reply(Reply::SimConnected { .. })
        },
        ActionView::ConnectReceivedDefinitions => {
            input matches Input::Reply(Reply::DefinitionsReceived { .. })
        },
        ActionView::ConnectDefinitions
        | ActionView::OpenServer { .. } => {
            input matches Input::Reply(Reply::DefinitionsLoaded { .. })
        },
        ActionView::ConnectSim { .. } => {
            ||| input matches Input::Window(WindowMessage::StartServer(_))
            ||| input matches Input::Window(WindowMessage::Connect(_))
        },
        ActionView::CloseSim
        | ActionView::DropClient => { input is LoopEnd },
        ActionView::AddClient { .. } => { input matches Input::Payload(Payload::PlayerJoined(_)) },
        ActionView::RemoveClient { .. } => {
            input matches Input::Payload(Payload::PlayerLeft { .. })
        },
        ActionView::SetObserver { .. } => {
            ||| input matches Input::Payload(Payload::SetObserver { .. })
            ||| input matches Input::Reply(Reply::ClientAdded { .. })
            ||| input matches Input::Window(WindowMessage::SetObserver { .. })
        },
        ActionView::SetNoControl => {
            ||| input matches Input::Payload(Payload::TransferControl { .. })
            ||| input matches Input::Reply(Reply::ClientRemoved { .. })
        },
        ActionView::ResetClients => {
            input matches Input::Event(NetworkEvent::ConnectionLost { .. })
        },
        ActionView::Stop { .. } => {
            ||| input matches Input::Sim(SimMessage::Quit)
            ||| input matches Input::Payload(Payload::ConnectionDenied { .. })
            ||| input is Stepped
            ||| input matches Input::Reply(Reply::UpdateApplied { .. })
            ||| input matches Input::Reply(Reply::DefinitionsConnected { .. })
            ||| input matches Input::Window(WindowMessage::Disconnect)
        },
        ActionView::SendTransferControl { .. } => {
            ||| input matches Input::Window(WindowMessage::TransferControl { .. })
            ||| input is Program
            ||| input matches Input::Reply(Reply::ClientRemoved { .. })
        },
        ActionView::SendTakeControl { .. } => {
            ||| input matches Input::Window(WindowMessage::ForceTakeControl)
            ||| input is Program
        },
        ActionView::SendSetObserver { .. } => {
            ||| input matches Input::Window(WindowMessage::SetObserver { .. })
            ||| input matches Input::Reply(Reply::ClientAdded { .. })
        },
        ActionView::SendAllCurrent { .. } => { input matches Input::Payload(Payload::Ready) },
        ActionView::ResolveHost { .. } => {
            input matches Input::Reply(Reply::SimConnected { .. })
        },
        ActionView::OpenClient { .. } => {
            ||| input matches Input::Reply(Reply::SimConnected { .. })
            ||| input matches Input::Reply(Reply::HostResolved { .. })
        },
        ActionView::WriteConfig { .. } => {
            ||| input matches Input::Window(WindowMessage::UpdateConfig { .. })
            ||| input matches Input::Reply(Reply::ServerOpened { .. })
            ||| input matches Input::Reply(Reply::HostResolved { .. })
            ||| input matches Input::Reply(Reply::ClientOpened { .. })
        },
        ActionView::RunInstaller => { input matches Input::Window(WindowMessage::RunUpdater) },
        ActionView::StampConnection => {
            ||| input matches Input::Payload(Payload::AircraftDefinition { .. })
            ||| input matches Input::Event(NetworkEvent::ConnectionEstablished)
        },
        ActionView::Sleep { .. } => { input is LoopTimed },
    }
}

/// Every action is an answer to an input of its own kind.
pub open spec fn all_answer(actions: Seq<ActionView>, input: Input) -> bool {
    forall|i: int| 0 <= i < actions.len() ==> may_answer(#[trigger] actions[i], input)
}

proof fn lemma_payload_answers(s: SessionView, payload: Payload, facts: Facts)
    ensures
        all_answer(payload_step(s, payload, facts).1, Input::Payload(payload)),
{
}

proof fn lemma_event_answers(s: SessionView, event: NetworkEvent, facts: Facts)
    ensures
        all_answer(event_step(s, event, facts).1, Input::Event(event)),
{
}

proof fn lemma_window_answers(s: SessionView, message: WindowMessage, facts: Facts)
    ensures
        all_answer(window_step(s, message, facts).1, Input::Window(message)),
{
}

proof fn lemma_welcome_answers(s: SessionView, player: Player, facts: Facts)
    ensures
        all_answer(welcome(s, player, facts), Input::Reply(Reply::ClientAdded { player })),
{
}

proof fn lemma_farewell_answers(name: String, had_control: bool, facts: Facts)
    ensures
        all_answer(
            farewell(name@, had_control, facts),
            Input::Reply(Reply::ClientRemoved { name, had_control }),
        ),
{
}

proof fn lemma_peer_reply_answers(s: SessionView, reply: Reply, facts: Facts)
    requires
        needs_client(Input::Reply(reply)),
    ensures
        all_answer(reply_step(s, reply, facts).1, Input::Reply(reply)),
{
    match reply {
        Reply::ClientAdded { player } => lemma_welcome_answers(s, player, facts),
        Reply::ClientRemoved { name, had_control } => lemma_farewell_answers(
            name,
            had_control,
            facts,
        ),
        _ => {},
    }
}

/// Answers in which no action is traffic.
spec fn all_answer_quietly(actions: Seq<ActionView>, input: Input) -> bool {
    forall|i: int|
        0 <= i < actions.len() ==> may_answer(#[trigger] actions[i], input) && !is_traffic(
            actions[i],
        )
}

proof fn lemma_sim_connected_answers(s: SessionView, purpose: SimPurpose, connected: bool)
    ensures
        all_answer_quietly(
            sim_connected_actions(s, purpose, connected),
            Input::Reply(Reply::SimConnected { purpose, connected }),
        ),
{
}

proof fn lemma_definitions_loaded_answers(
    s: SessionView,
    request: ServerRequest,
    connected: bool,
    loaded: bool,
)
    ensures
        all_answer_quietly(
            definitions_loaded_step(s, request, connected, loaded).1,
            Input::Reply(Reply::DefinitionsLoaded { request, connected, loaded }),
        ),
{
}

proof fn lemma_opening_answers(s: SessionView, reply: Reply, facts: Facts)
    requires
        reply is ServerOpened || reply is HostResolved || reply is ClientOpened,
    ensures
        all_answer_quietly(reply_step(s, reply, facts).1, Input::Reply(reply)),
{
}

proof fn lemma_program_reply_answers(s: SessionView, reply: Reply, facts: Facts)
    requires
        reply is AircraftListed || reply is VersionChecked || reply is InstallerRun,
    ensures
        all_answer_quietly(reply_step(s, reply, facts).1, Input::Reply(reply)),
{
}

proof fn lemma_own_reply_answers(s: SessionView, reply: Reply, facts: Facts)
    requires
        !needs_client(Input::Reply(reply)),
    ensures
        all_answer_quietly(reply_step(s, reply, facts).1, Input::Reply(reply)),
{
    match reply {
        Reply::SimConnected { purpose, connected } => lemma_sim_connected_answers(
            s,
            purpose,
            connected,
        ),
        Reply::DefinitionsLoaded { request, connected, loaded } => lemma_definitions_loaded_answers(
            s,
            request,
            connected,
            loaded,
        ),
        Reply::AircraftListed { .. }
        | Reply::VersionChecked { .. }
        | Reply::InstallerRun { .. } => lemma_program_reply_answers(s, reply, facts),
        _ => lemma_opening_answers(s, reply, facts),
    }
}

/// Data, control and the connection move only on the inputs that call for it.
pub proof fn law_actions_answer_their_inputs(s: SessionView, input: Input, facts: Facts)
    ensures
        all_answer(step(s, input, facts).1, input),
{
    match input {
        Input::Payload(payload) => lemma_payload_answers(s, payload, facts),
        Input::Event(event) => lemma_event_answers(s, event, facts),
        Input::Window(message) => lemma_window_answers(s, message, facts),
        Input::Reply(reply) => if needs_client(input) {
            lemma_peer_reply_answers(s, reply, facts);
        } else {
            lemma_own_reply_answers(s, reply, facts);
        },
        _ => {},
    }
}

/// An action stands at a place of an answer.
pub open spec fn stands_at(actions: Seq<ActionView>, action: ActionView, place: int) -> bool {
    0 <= place < actions.len() && actions[place] == action
}

/// In a short answer an action stands at one of the first nine places or at none.
pub proof fn lemma_short_answer(actions: Seq<ActionView>, action: ActionView)
    requires
        actions.len() <= 9,
    ensures
        actions.contains(action) <==> {
            ||| stands_at(actions, action, 0)
            ||| stands_at(actions, action, 1)
            ||| stands_at(actions, action, 2)
            ||| stands_at(actions, action, 3)
            ||| stands_at(actions, action, 4)
            ||| stands_at(actions, action, 5)
            ||| stands_at(actions, action, 6)
            ||| stands_at(actions, action, 7)
            ||| stands_at(actions, action, 8)
        },
{
    if actions.contains(action) {
        let place = choose|place: int| 0 <= place < actions.len() && actions[place] == action;
        assert(stands_at(actions, action, place));
    }
}

/// All answers are short, but for the names of the aircraft to choose from.
pub proof fn lemma_answers_are_short(s: SessionView, input: Input, facts: Facts)
    requires
        !(input matches Input::Reply(Reply::AircraftListed { .. })),
    ensures
        step(s, input, facts).1.len() <= 9,
{
}

/// An action that does not answer an input is not in the answer to it.
pub proof fn lemma_not_asked(s: SessionView, input: Input, facts: Facts, action: ActionView)
    requires
        !may_answer(action, input),
    ensures
        !step(s, input, facts).1.contains(action),
{
    law_actions_answer_their_inputs(s, input, facts);
}

/// Without a connection nothing is said to the other participants, and nothing
/// of theirs reaches the aircraft.
pub proof fn law_no_traffic_without_connection(s: SessionView, input: Input, facts: Facts)
    requires
        !s.has_client,
    ensures
        forall|i: int|
            0 <= i < step(s, input, facts).1.len() ==> !is_traffic(
                #[trigger] step(s, input, facts).1[i],
            ),
{
    match input {
        Input::Reply(reply) => if !needs_client(input) {
            lemma_own_reply_answers(s, reply, facts);
        },
        _ => {},
    }
}

/// Only the host reports a hosted session and hands out aircraft definitions,
/// and it reports the clients that are on the list at that moment, or none where
/// the session has just been opened.
pub proof fn law_only_the_host_reports(s: SessionView, input: Input, facts: Facts, i: int)
    requires
        0 <= i < step(s, input, facts).1.len(),
    ensures
        ({
            let action = step(s, input, facts).1[i];
            &&& action is SendDefinitions ==> facts.is_host
            &&& action is ShowServerStarted ==> facts.is_host && {
                ||| action == server_report(facts)
                ||| input matches Input::Event(NetworkEvent::ConnectionEstablished)
            }
        }),
{
    let action = step(s, input, facts).1[i];
    law_actions_answer_their_inputs(s, input, facts);
    assert(may_answer(action, input));
}

/// The window shows a gain of control only where control is taken.
pub proof fn law_gain_is_shown_where_control_is_taken(s: SessionView, input: Input, facts: Facts)
    requires
        step(s, input, facts).1.contains(ActionView::ShowGainControl),
    ensures
        step(s, input, facts).1.contains(ActionView::TakeControl),
{
    let actions = step(s, input, facts).1;
    law_actions_answer_their_inputs(s, input, facts);
    assert(may_answer(ActionView::ShowGainControl, input));
    match input {
        Input::Payload(_) | Input::Event(_) => {
            assert(actions[1] == ActionView::TakeControl);
        },
        _ => {
            assert(actions[2] == ActionView::TakeControl);
        },
    }
}

} // verus!
