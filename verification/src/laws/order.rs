//! In what order an input is answered.
use vstd::prelude::*;

use crate::action::ActionView;
use crate::laws::answers::{lemma_not_asked, may_answer};
use crate::message::{Facts, Input, NetworkEvent, Payload, Reply, WindowMessage};
use crate::model::{step, SessionView};

verus! {

/// The place of an action in the answer to a transfer of control: gathered data
/// is forgotten before control changes hands, and control changes hands before
/// it is noted who has it.
pub open spec fn place_in_transfer(action: ActionView) -> int {
    match action {
        ActionView::ResetSync => 0,
        ActionView::TakeControl | ActionView::ShowLoseControl => 1,
        ActionView::ShowGainControl | ActionView::LoseControl => 2,
        ActionView::SetNoControl | ActionView::ShowInControl { .. } => 3,
        _ => 4,
    }
}

/// The place of an action in the answer to a message about who observes.
pub open spec fn place_in_observer_change(action: ActionView) -> int {
    match action {
        ActionView::ShowSelfObserving { .. } | ActionView::SetObserver { .. } => 0,
        _ => 1,
    }
}

/// The place of an action in the answer to an established connection: the window
/// comes first, and the start of the connection is stamped last.
pub open spec fn place_in_establishment(action: ActionView) -> int {
    match action {
        ActionView::ShowServerStarted { .. } | ActionView::ShowConnected => 0,
        ActionView::TakeControl => 1,
        ActionView::ShowGainControl | ActionView::ShowLoseControl => 2,
        _ => 3,
    }
}

/// The place of an action in the answer to a lost connection: control is taken
/// before the clients are forgotten, and the window comes last.
pub open spec fn place_in_loss(action: ActionView) -> int {
    match action {
        ActionView::TakeControl => 0,
        ActionView::ResetClients => 1,
        _ => 2,
    }
}

/// The place of an action in the answer to the passing of time: gathered data
/// goes out before it is forgotten, and readiness is announced last.
pub open spec fn place_in_tick(action: ActionView) -> int {
    match action {
        ActionView::CollectUpdates { .. } => 0,
        ActionView::ResetSync => 1,
        _ => 2,
    }
}

/// The place of an action in the answer to the start of the window.
pub open spec fn place_in_startup(action: ActionView) -> int {
    match action {
        ActionView::ListAircraft => 0,
        ActionView::ShowConfig { .. } => 1,
        _ => 2,
    }
}

/// The place of an action in the welcome of a newcomer: they are sent what they
/// need before they are shown, shown before they are noted, and named as the one
/// in control last.
pub open spec fn place_in_welcome(action: ActionView) -> int {
    match action {
        ActionView::ShowServerStarted { .. } => 0,
        ActionView::SendDefinitions { .. } => 1,
        ActionView::SendSetObserver { .. } => 2,
        ActionView::ShowNewConnection { .. } => 3,
        ActionView::ShowObserving { .. } => 4,
        ActionView::SetServer { .. } => 5,
        ActionView::SetObserver { .. } => 6,
        ActionView::ShowInControl { .. } => 7,
        _ => 8,
    }
}

/// The place of an action in the farewell of one who left: their control is freed
/// before it is taken, taken before that is announced, and the window learns of
/// the departure last.
pub open spec fn place_in_farewell(action: ActionView) -> int {
    match action {
        ActionView::SetNoControl => 0,
        ActionView::ShowGainControl => 1,
        ActionView::TakeControl => 2,
        ActionView::SendTransferControl { .. } => 3,
        ActionView::ShowLostConnection { .. } => 4,
        _ => 5,
    }
}

/// The place of an action in the answer to definitions that came from the host:
/// control is let go of once they are mapped.
pub open spec fn place_after_received(action: ActionView) -> int {
    match action {
        ActionView::ConnectControl => 0,
        ActionView::ConnectReceivedDefinitions => 1,
        _ => 2,
    }
}

/// The place of an action once the simulator was tried: an error comes first, and
/// an attempt is shown before it is made.
pub open spec fn place_after_sim(action: ActionView) -> int {
    match action {
        ActionView::ShowError { .. } => 0,
        ActionView::ShowServerFail { .. }
        | ActionView::LoadDefinitions { .. }
        | ActionView::ShowAttempt => 1,
        _ => 2,
    }
}

/// The place of an action once definitions were loaded: they are mapped before the
/// controls are connected, and an attempt is shown before it is made.
pub open spec fn place_after_loading(action: ActionView) -> int {
    match action {
        ActionView::ConnectDefinitions => 0,
        ActionView::ConnectControl => 1,
        ActionView::ShowAttempt => 2,
        _ => 3,
    }
}

/// The place of an action in the answer to an input. Inputs that are not named
/// here are answered with one action at most.
pub open spec fn place(input: Input, action: ActionView) -> int {
    match input {
        Input::Payload(Payload::TransferControl { .. }) => place_in_transfer(action),
        Input::Payload(Payload::SetObserver { .. }) => place_in_observer_change(action),
        Input::Payload(Payload::AircraftDefinition { .. }) => if action
            is LoadReceivedDefinitions {
            0
        } else {
            1
        },
        Input::Event(NetworkEvent::ConnectionEstablished) => place_in_establishment(action),
        Input::Event(NetworkEvent::ConnectionLost { .. }) => place_in_loss(action),
        Input::Program(_) => if action is TakeControl {
            0
        } else {
            1
        },
        Input::Tick => place_in_tick(action),
        Input::Window(WindowMessage::SetObserver { .. }) => if action is SetObserver {
            0
        } else {
            1
        },
        Input::Window(WindowMessage::Startup) => place_in_startup(action),
        Input::Reply(Reply::ClientAdded { .. }) => place_in_welcome(action),
        Input::Reply(Reply::ClientRemoved { .. }) => place_in_farewell(action),
        Input::Reply(Reply::DefinitionsReceived { .. }) => place_after_received(action),
        Input::Reply(Reply::SimConnected { .. }) => place_after_sim(action),
        Input::Reply(Reply::DefinitionsLoaded { .. }) => place_after_loading(action),
        Input::Reply(Reply::ServerOpened { .. })
        | Input::Reply(Reply::HostResolved { .. })
        | Input::Reply(Reply::ClientOpened { .. }) => if action is WriteConfig {
            1
        } else {
            0
        },
        Input::LoopEnd => if action is DropClient {
            0
        } else {
            1
        },
        _ => 0,
    }
}

/// The answer to a payload is in order.
proof fn lemma_order_in_payload(
    s: SessionView,
    input: Input,
    facts: Facts,
    earlier: int,
    later: int,
)
    requires
        input matches Input::Payload(_),
        0 <= earlier < later < step(s, input, facts).1.len(),
    ensures
        place(input, step(s, input, facts).1[earlier]) < place(
            input,
            step(s, input, facts).1[later],
        ),
{
}

/// The answer to an event is in order.
proof fn lemma_order_in_event(
    s: SessionView,
    input: Input,
    facts: Facts,
    earlier: int,
    later: int,
)
    requires
        input matches Input::Event(_),
        0 <= earlier < later < step(s, input, facts).1.len(),
    ensures
        place(input, step(s, input, facts).1[earlier]) < place(
            input,
            step(s, input, facts).1[later],
        ),
{
}

/// The answer to the user is in order.
proof fn lemma_order_in_window(
    s: SessionView,
    input: Input,
    facts: Facts,
    earlier: int,
    later: int,
)
    requires
        input matches Input::Window(_),
        0 <= earlier < later < step(s, input, facts).1.len(),
    ensures
        place(input, step(s, input, facts).1[earlier]) < place(
            input,
            step(s, input, facts).1[later],
        ),
{
}

/// The answer to a newcomer is in order.
proof fn lemma_order_in_welcome(
    s: SessionView,
    input: Input,
    facts: Facts,
    earlier: int,
    later: int,
)
    requires
        input matches Input::Reply(Reply::ClientAdded { .. }),
        0 <= earlier < later < step(s, input, facts).1.len(),
    ensures
        place(input, step(s, input, facts).1[earlier]) < place(
            input,
            step(s, input, facts).1[later],
        ),
{
}

/// The answer to one who left is in order.
proof fn lemma_order_in_farewell(
    s: SessionView,
    input: Input,
    facts: Facts,
    earlier: int,
    later: int,
)
    requires
        input matches Input::Reply(Reply::ClientRemoved { .. }),
        0 <= earlier < later < step(s, input, facts).1.len(),
    ensures
        place(input, step(s, input, facts).1[earlier]) < place(
            input,
            step(s, input, facts).1[later],
        ),
{
}

/// The actions of an answer stand in the order of their places. So each stands in
/// it at most once. The names of the aircraft to choose from have an order of
/// their own.
pub proof fn law_answers_keep_their_order(
    s: SessionView,
    input: Input,
    facts: Facts,
    earlier: int,
    later: int,
)
    requires
        !(input matches Input::Reply(Reply::AircraftListed { .. })),
        0 <= earlier < later < step(s, input, facts).1.len(),
    ensures
        place(input, step(s, input, facts).1[earlier]) < place(
            input,
            step(s, input, facts).1[later],
        ),
{
    match input {
        Input::Payload(_) => lemma_order_in_payload(s, input, facts, earlier, later),
        Input::Event(_) => lemma_order_in_event(s, input, facts, earlier, later),
        Input::Window(_) => lemma_order_in_window(s, input, facts, earlier, later),
        Input::Reply(Reply::ClientAdded { .. }) => {
            lemma_order_in_welcome(s, input, facts, earlier, later);
        },
        Input::Reply(Reply::ClientRemoved { .. }) => {
            lemma_order_in_farewell(s, input, facts, earlier, later);
        },
        _ => {},
    }
}

/// The aircraft to choose from are shown one by one, all of them, under their own
/// names and in their own order, and nothing else is done about them; where they
/// could not be listed, nothing is done.
pub proof fn law_aircraft_are_shown_in_order(
    s: SessionView,
    facts: Facts,
    configs: Option<Vec<String>>,
    i: int,
)
    ensures
        configs matches Some(names) ==> {
            let actions = step(s, Input::Reply(Reply::AircraftListed { configs }), facts).1;
            &&& actions.len() == names@.len()
            &&& 0 <= i < names@.len() ==> actions[i] == (ActionView::ShowAircraft {
                name: names@[i]@,
            })
        },
        configs is None ==> step(
            s,
            Input::Reply(Reply::AircraftListed { configs }),
            facts,
        ).1.len() == 0,
{
}

/// Aircraft are shown in answer to nothing but their listing.
pub proof fn law_aircraft_are_shown_when_listed(
    s: SessionView,
    input: Input,
    facts: Facts,
    name: Seq<char>,
)
    ensures
        step(s, input, facts).1.contains(ActionView::ShowAircraft { name }) <==> {
            &&& input matches Input::Reply(Reply::AircraftListed { configs: Some(names) })
            &&& exists|i: int| 0 <= i < names@.len() && #[trigger] names@[i]@ == name
        },
{
    let actions = step(s, input, facts).1;
    let action = ActionView::ShowAircraft { name };
    if may_answer(action, input) {
        if let Input::Reply(Reply::AircraftListed { configs }) = input {
            if let Some(names) = configs {
                if actions.contains(action) {
                    let i = actions.index_of(action);
                    assert(names@[i]@ == name);
                }
                assert forall|i: int| 0 <= i < names@.len() && #[trigger] names@[i]@
                    == name implies actions.contains(action) by {
                    assert(actions[i] == action);
                }
            }
        }
    } else {
        lemma_not_asked(s, input, facts, action);
    }
}

} // verus!
