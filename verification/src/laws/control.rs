//! Who controls the aircraft.
use vstd::prelude::*;

use crate::action::ActionView;
use crate::laws::answers::{law_actions_answer_their_inputs, may_answer};
use crate::message::{Facts, Input, NetworkEvent, Payload, ProgramAction, Reply, WindowMessage};
use crate::model::{is_self, server_report, step, SessionView};

verus! {

/// Whether this participant has control after performing actions.
pub open spec fn control_after(had_control: bool, actions: Seq<ActionView>) -> bool
    decreases actions.len(),
{
    if actions.len() == 0 {
        had_control
    } else {
        match actions.last() {
            ActionView::TakeControl => true,
            ActionView::LoseControl => false,
            _ => control_after(had_control, actions.drop_last()),
        }
    }
}

/// Which client is noted to have control after performing actions.
pub open spec fn holder_after(holder: Option<Seq<char>>, actions: Seq<ActionView>) -> Option<
    Seq<char>,
>
    decreases actions.len(),
{
    if actions.len() == 0 {
        holder
    } else {
        match actions.last() {
            ActionView::SetClientControl { name } => Some(name),
            ActionView::SetNoControl => None,
            ActionView::ResetClients => None,
            _ => holder_after(holder, actions.drop_last()),
        }
    }
}

/// Actions that leave control where it is.
pub open spec fn leaves_control(action: ActionView) -> bool {
    match action {
        ActionView::TakeControl
        | ActionView::LoseControl
        | ActionView::SetClientControl { .. }
        | ActionView::SetNoControl
        | ActionView::ResetClients => false,
        _ => true,
    }
}

proof fn lemma_control_stays(
    had_control: bool,
    holder: Option<Seq<char>>,
    actions: Seq<ActionView>,
)
    requires
        forall|i: int| 0 <= i < actions.len() ==> leaves_control(#[trigger] actions[i]),
    ensures
        control_after(had_control, actions) == had_control,
        holder_after(holder, actions) == holder,
    decreases actions.len(),
{
    if actions.len() > 0 {
        assert(leaves_control(actions[actions.len() - 1]));
        let rest = actions.drop_last();
        assert forall|i: int| 0 <= i < rest.len() implies leaves_control(#[trigger] rest[i]) by {
            assert(rest[i] == actions[i]);
        }
        lemma_control_stays(had_control, holder, rest);
    }
}

proof fn lemma_control_in_turn(
    here: bool,
    holder: Option<Seq<char>>,
    first: Seq<ActionView>,
    second: Seq<ActionView>,
)
    ensures
        control_after(here, first + second) == control_after(control_after(here, first), second),
        holder_after(holder, first + second) == holder_after(holder_after(holder, first), second),
    decreases second.len(),
{
    if second.len() == 0 {
        assert(first + second =~= first);
    } else {
        lemma_control_in_turn(here, holder, first, second.drop_last());
        assert((first + second).drop_last() =~= first + second.drop_last());
        assert((first + second).last() == second.last());
    }
}

/// A transfer of control settles who has it. Control that comes to this
/// participant is held here and by no client; control that goes to another is
/// noted as theirs, and is no longer held here if it was given from here.
pub proof fn law_transfer_settles_control(
    s: SessionView,
    from: String,
    to: String,
    facts: Facts,
    had_control: bool,
    holder: Option<Seq<char>>,
)
    requires
        s.has_client,
    ensures
        ({
            let (next, actions) = step(
                s,
                Input::Payload(Payload::TransferControl { from, to }),
                facts,
            );
            &&& next == s
            &&& is_self(to@, facts) ==> control_after(had_control, actions) && holder_after(
                holder,
                actions,
            ) is None
            &&& !is_self(to@, facts) ==> {
                &&& holder_after(holder, actions) == Some(to@)
                &&& control_after(had_control, actions) == (had_control && !is_self(from@, facts))
            }
        }),
{
    let actions = step(s, Input::Payload(Payload::TransferControl { from, to }), facts).1;
    reveal_with_fuel(control_after, 6);
    reveal_with_fuel(holder_after, 6);
    if is_self(to@, facts) {
        assert(actions =~= seq![
            ActionView::ResetSync,
            ActionView::TakeControl,
            ActionView::ShowGainControl,
            ActionView::SetNoControl,
        ]);
    } else if is_self(from@, facts) {
        assert(actions =~= seq![
            ActionView::ResetSync,
            ActionView::ShowLoseControl,
            ActionView::LoseControl,
            ActionView::ShowInControl { name: to@ },
            ActionView::SetClientControl { name: to@ },
        ]);
    } else {
        assert(actions =~= seq![
            ActionView::ResetSync,
            ActionView::ShowInControl { name: to@ },
            ActionView::SetClientControl { name: to@ },
        ]);
    }
}

/// Control does not stay with one who is gone. Where a participant who had it
/// leaves, no client has it any more; the host takes it and tells the others so.
/// Where they had it not, control stays where it is.
pub proof fn law_departure_frees_control(
    s: SessionView,
    name: String,
    had_control: bool,
    facts: Facts,
    here: bool,
    holder: Option<Seq<char>>,
)
    requires
        s.has_client,
    ensures
        ({
            let actions = step(
                s,
                Input::Reply(Reply::ClientRemoved { name, had_control }),
                facts,
            ).1;
            &&& holder_after(holder, actions) == if had_control {
                None
            } else {
                holder
            }
            &&& control_after(here, actions) == (here || (had_control && facts.is_host))
            &&& actions.contains(
                ActionView::SendTransferControl { target: facts.server_name@ },
            ) == (had_control && facts.is_host)
        }),
{
    let actions = step(s, Input::Reply(Reply::ClientRemoved { name, had_control }), facts).1;
    reveal_with_fuel(control_after, 7);
    reveal_with_fuel(holder_after, 7);
    let sent = ActionView::SendTransferControl { target: facts.server_name@ };
    if had_control && facts.is_host {
        assert(actions =~= seq![
            ActionView::SetNoControl,
            ActionView::ShowGainControl,
            ActionView::TakeControl,
            sent,
            ActionView::ShowLostConnection { name: name@ },
            server_report(facts),
        ]);
        assert(actions[3] == sent);
    } else if had_control {
        assert(actions =~= seq![
            ActionView::SetNoControl,
            ActionView::ShowLostConnection { name: name@ },
        ]);
    } else {
        lemma_control_stays(here, holder, actions);
    }
}

/// One who loses the connection flies alone: control is held here, and by no
/// client.
pub proof fn law_lost_connection_returns_control(
    s: SessionView,
    reason: String,
    facts: Facts,
    here: bool,
    holder: Option<Seq<char>>,
)
    requires
        s.has_client,
    ensures
        ({
            let actions = step(
                s,
                Input::Event(NetworkEvent::ConnectionLost { reason }),
                facts,
            ).1;
            control_after(here, actions) && holder_after(holder, actions) is None
        }),
{
    reveal_with_fuel(control_after, 4);
    reveal_with_fuel(holder_after, 4);
}

/// Nothing done in the window moves control by itself: a request goes out, and
/// control moves with the transfer that comes back.
pub proof fn law_window_leaves_control(
    s: SessionView,
    message: WindowMessage,
    facts: Facts,
    here: bool,
    holder: Option<Seq<char>>,
)
    ensures
        ({
            let actions = step(s, Input::Window(message), facts).1;
            control_after(here, actions) == here && holder_after(holder, actions) == holder
        }),
{
    let input = Input::Window(message);
    let actions = step(s, input, facts).1;
    law_actions_answer_their_inputs(s, input, facts);
    assert forall|i: int| 0 <= i < actions.len() implies leaves_control(#[trigger] actions[i]) by {
        assert(may_answer(actions[i], input));
    }
    lemma_control_stays(here, holder, actions);
}

/// Giving control away in the window: the request is all that goes out, and once
/// it comes back as a transfer from here, control is the other participant's
/// and no longer held here.
pub proof fn law_control_is_given_by_request(
    s: SessionView,
    target: String,
    me: String,
    facts: Facts,
    later: Facts,
    here: bool,
    holder: Option<Seq<char>>,
)
    requires
        s.has_client,
        is_self(me@, later),
        !is_self(target@, later),
    ensures
        ({
            let (asked, request) = step(
                s,
                Input::Window(WindowMessage::TransferControl { target }),
                facts,
            );
            let answer = step(
                asked,
                Input::Payload(Payload::TransferControl { from: me, to: target }),
                later,
            ).1;
            &&& asked == s
            &&& request == seq![ActionView::SendTransferControl { target: target@ }]
            &&& control_after(here, request) == here
            &&& !control_after(here, request + answer)
            &&& holder_after(holder, request + answer) == Some(target@)
        }),
{
    let message = WindowMessage::TransferControl { target };
    let request = step(s, Input::Window(message), facts).1;
    law_window_leaves_control(s, message, facts, here, holder);
    law_transfer_settles_control(s, me, target, later, here, holder);
    let answer = step(
        s,
        Input::Payload(Payload::TransferControl { from: me, to: target }),
        later,
    ).1;
    lemma_control_in_turn(here, holder, request, answer);
}

/// Taking control by the controls of the aircraft: it is held here at once and
/// asked of the client that has it, and once the transfer from that client comes
/// back, it is held here and by no client.
pub proof fn law_control_is_taken_by_request(
    s: SessionView,
    action: ProgramAction,
    holder: String,
    me: String,
    facts: Facts,
    later: Facts,
    here: bool,
)
    requires
        s.has_client,
        action == ProgramAction::TakeControls ==> !s.observing,
        !facts.has_control,
        facts.client_in_control == Some(holder),
        is_self(me@, later),
    ensures
        ({
            let (asked, request) = step(s, Input::Program(action), facts);
            let answer = step(
                asked,
                Input::Payload(Payload::TransferControl { from: holder, to: me }),
                later,
            ).1;
            &&& asked == s
            &&& request == seq![
                ActionView::TakeControl,
                ActionView::SendTakeControl { target: holder@ },
            ]
            &&& control_after(here, request)
            &&& holder_after(Some(holder@), request) == Some(holder@)
            &&& control_after(here, request + answer)
            &&& holder_after(Some(holder@), request + answer) is None
        }),
{
    let request = step(s, Input::Program(action), facts).1;
    let transfer = Input::Payload(Payload::TransferControl { from: holder, to: me });
    reveal_with_fuel(control_after, 3);
    reveal_with_fuel(holder_after, 3);
    assert(request =~= seq![
        ActionView::TakeControl,
        ActionView::SendTakeControl { target: holder@ },
    ]);
    law_transfer_settles_control(s, holder, me, later, true, Some(holder@));
    lemma_control_in_turn(here, Some(holder@), request, step(s, transfer, later).1);
}

/// The aircraft's switch passes control on: where one who has it uses the switch,
/// it is offered to the one who is next, and nothing else is done; where nobody is
/// next, nothing is done at all. Hosts and others fare alike.
pub proof fn law_control_is_passed_on(s: SessionView, facts: Facts)
    requires
        s.has_client,
        facts.has_control,
    ensures
        ({
            let (after, actions) = step(
                s,
                Input::Program(ProgramAction::TransferControls),
                facts,
            );
            &&& after == s
            &&& facts.next_for_control matches Some(next) ==> actions == seq![
                ActionView::SendTransferControl { target: next@ },
            ]
            &&& facts.next_for_control is None ==> actions.len() == 0
        }),
{
}

/// To the aircraft's switches it makes no difference who is the host: two who
/// differ in nothing else do the same.
pub proof fn law_switches_work_alike_for_hosts(
    s: SessionView,
    action: ProgramAction,
    facts: Facts,
    other: Facts,
)
    requires
        facts.has_control == other.has_control,
        facts.client_in_control == other.client_in_control,
        facts.next_for_control == other.next_for_control,
    ensures
        step(s, Input::Program(action), facts) == step(s, Input::Program(action), other),
{
}

/// A host has control from the moment its session is open.
pub proof fn law_host_starts_in_control(s: SessionView, facts: Facts, here: bool)
    requires
        s.has_client,
        facts.is_host,
    ensures
        control_after(
            here,
            step(s, Input::Event(NetworkEvent::ConnectionEstablished), facts).1,
        ),
{
    reveal_with_fuel(control_after, 5);
}

/// One who has loaded the host's aircraft has no control of it until it is
/// given to them.
pub proof fn law_received_aircraft_is_not_controlled(s: SessionView, facts: Facts, here: bool)
    requires
        s.has_client,
    ensures
        !control_after(
            here,
            step(s, Input::Reply(Reply::DefinitionsReceived { loaded: true }), facts).1,
        ),
{
    reveal_with_fuel(control_after, 4);
}

/// An observer takes no control by the controls of the aircraft.
pub proof fn law_observers_take_no_control(s: SessionView, facts: Facts)
    requires
        s.observing,
    ensures
        step(s, Input::Program(ProgramAction::TakeControls), facts) == (s, Seq::<
            ActionView,
        >::empty()),
{
}

} // verus!
