//! What is kept of the other participants, and when.
use vstd::prelude::*;

use crate::action::ActionView;
use crate::laws::answers::{
    lemma_answers_are_short, lemma_not_asked, lemma_short_answer, may_answer,
};
use crate::message::{Facts, Input, NetworkEvent, Payload, Player, Reply, WindowMessage};
use crate::model::{step, SessionView};

verus! {

/// A newcomer is put on the list exactly when they join, with all that is said of
/// them.
#[verifier::spinoff_prover]
pub proof fn law_newcomers_are_listed(
    s: SessionView,
    input: Input,
    facts: Facts,
    player: Player,
)
    ensures
        step(s, input, facts).1.contains(ActionView::AddClient { player }) <==> {
            &&& s.has_client
            &&& input matches Input::Payload(Payload::PlayerJoined(newcomer))
            &&& player == newcomer
        },
{
    let action = ActionView::AddClient { player };
    if may_answer(action, input) {
        lemma_answers_are_short(s, input, facts);
        lemma_short_answer(step(s, input, facts).1, action);
    } else {
        lemma_not_asked(s, input, facts, action);
    }
}

/// One is taken off the list exactly when they leave.
#[verifier::spinoff_prover]
pub proof fn law_leavers_are_unlisted(
    s: SessionView,
    input: Input,
    facts: Facts,
    name: Seq<char>,
)
    ensures
        step(s, input, facts).1.contains(ActionView::RemoveClient { name }) <==> {
            &&& s.has_client
            &&& input matches Input::Payload(Payload::PlayerLeft { name: leaver })
            &&& name == leaver@
        },
{
    let action = ActionView::RemoveClient { name };
    if may_answer(action, input) {
        lemma_answers_are_short(s, input, facts);
        lemma_short_answer(step(s, input, facts).1, action);
    } else {
        lemma_not_asked(s, input, facts, action);
    }
}

/// A newcomer is noted as host or not exactly as they say.
#[verifier::spinoff_prover]
pub proof fn law_servers_are_noted(
    s: SessionView,
    input: Input,
    facts: Facts,
    name: Seq<char>,
    is_server: bool,
)
    ensures
        step(s, input, facts).1.contains(ActionView::SetServer { name, is_server }) <==> {
            &&& s.has_client
            &&& input matches Input::Reply(Reply::ClientAdded { player })
            &&& name == player.name@
            &&& is_server == player.is_server
        },
{
    let action = ActionView::SetServer { name, is_server };
    if may_answer(action, input) {
        lemma_answers_are_short(s, input, facts);
        lemma_short_answer(step(s, input, facts).1, action);
    } else {
        lemma_not_asked(s, input, facts, action);
    }
}

/// Another is noted as observing or not exactly as a message about them says, or the
/// user in the window; and a newcomer exactly as they say themselves, or as
/// observing where this host makes every newcomer an observer.
#[verifier::spinoff_prover]
pub proof fn law_observers_are_noted(
    s: SessionView,
    input: Input,
    facts: Facts,
    name: Seq<char>,
    is_observer: bool,
)
    ensures
        step(s, input, facts).1.contains(ActionView::SetObserver { name, is_observer }) <==> {
            ||| input matches Input::Payload(Payload::SetObserver { to, is_observer: told }) && {
                &&& s.has_client
                &&& to@ != facts.server_name@
                &&& name == to@
                &&& is_observer == told
            }
            ||| input matches Input::Window(
                WindowMessage::SetObserver { target, is_observer: said },
            ) && {
                &&& name == target@
                &&& is_observer == said
            }
            ||| input matches Input::Reply(Reply::ClientAdded { player }) && {
                &&& s.has_client
                &&& name == player.name@
                &&& is_observer
                    == ( player.is_observer || (facts.is_host && s.config.start_observer))
            }
        },
{
    let action = ActionView::SetObserver { name, is_observer };
    if may_answer(action, input) {
        lemma_answers_are_short(s, input, facts);
        lemma_short_answer(step(s, input, facts).1, action);
    } else {
        lemma_not_asked(s, input, facts, action);
    }
}

/// A client is noted in control exactly where control is transferred to them, or
/// where they join with it.
#[verifier::spinoff_prover]
pub proof fn law_holders_of_control_are_noted(
    s: SessionView,
    input: Input,
    facts: Facts,
    name: Seq<char>,
)
    ensures
        step(s, input, facts).1.contains(ActionView::SetClientControl { name }) <==> {
            &&& s.has_client
            &&& {
                ||| input matches Input::Payload(Payload::TransferControl { to, .. }) && {
                    &&& to@ != facts.server_name@
                    &&& name == to@
                }
                ||| input matches Input::Reply(Reply::ClientAdded { player }) && {
                    &&& player.in_control
                    &&& name == player.name@
                }
            }
        },
{
    let action = ActionView::SetClientControl { name };
    if may_answer(action, input) {
        lemma_answers_are_short(s, input, facts);
        lemma_short_answer(step(s, input, facts).1, action);
    } else {
        lemma_not_asked(s, input, facts, action);
    }
}

/// No client is noted in control exactly where control is transferred to this
/// participant, or where the one who had it has left.
#[verifier::spinoff_prover]
pub proof fn law_freed_control_is_noted(
    s: SessionView,
    input: Input,
    facts: Facts,
)
    ensures
        step(s, input, facts).1.contains(ActionView::SetNoControl) <==> {
            &&& s.has_client
            &&& {
                ||| input matches Input::Payload(Payload::TransferControl { to, .. }) && {
                    &&& to@ == facts.server_name@
                }
                ||| input matches Input::Reply(Reply::ClientRemoved { had_control, .. }) && {
                    &&& had_control
                }
            }
        },
{
    let action = ActionView::SetNoControl;
    if may_answer(action, input) {
        lemma_answers_are_short(s, input, facts);
        lemma_short_answer(step(s, input, facts).1, action);
    } else {
        lemma_not_asked(s, input, facts, action);
    }
}

/// The list is emptied exactly when the connection is lost.
#[verifier::spinoff_prover]
pub proof fn law_list_is_emptied(
    s: SessionView,
    input: Input,
    facts: Facts,
)
    ensures
        step(s, input, facts).1.contains(ActionView::ResetClients) <==> {
            &&& s.has_client
            &&& input matches Input::Event(NetworkEvent::ConnectionLost { .. })
        },
{
    let action = ActionView::ResetClients;
    if may_answer(action, input) {
        lemma_answers_are_short(s, input, facts);
        lemma_short_answer(step(s, input, facts).1, action);
    } else {
        lemma_not_asked(s, input, facts, action);
    }
}

} // verus!
