//! Those who join and leave.
use vstd::prelude::*;

use crate::action::ActionView;
use crate::laws::clients::law_observers_are_noted;
use crate::laws::window::law_observers_are_shown;
use crate::message::{Facts, Input, Payload, Player, Reply, WindowMessage};
use crate::model::{newcomer_observes, server_report, step, SessionView};

verus! {

/// A newcomer is on the list before a host reports how many are on it.
pub proof fn law_newcomer_is_counted(
    s: SessionView,
    player: Player,
    facts: Facts,
    later: Facts,
)
    requires
        s.has_client,
        later.is_host,
    ensures
        ({
            let (joining, first) = step(s, Input::Payload(Payload::PlayerJoined(player)), facts);
            let report = step(joining, Input::Reply(Reply::ClientAdded { player }), later).1[0];
            &&& first == seq![ActionView::AddClient { player }]
            &&& report == server_report(later)
        }),
{
}

/// One who leaves is off the list before a host reports how many are on it.
pub proof fn law_leaver_is_not_counted(
    s: SessionView,
    name: String,
    facts: Facts,
    had_control: bool,
    later: Facts,
)
    requires
        s.has_client,
        later.is_host,
    ensures
        ({
            let (leaving, first) = step(s, Input::Payload(Payload::PlayerLeft { name }), facts);
            let report = step(
                leaving,
                Input::Reply(Reply::ClientRemoved { name, had_control }),
                later,
            ).1.last();
            &&& first == seq![ActionView::RemoveClient { name: name@ }]
            &&& report == server_report(later)
        }),
{
}

/// A newcomer counts as an observer in the list, in the window and, where this
/// host made them one, on the network: everywhere alike.
pub proof fn law_newcomer_observes_everywhere_alike(s: SessionView, player: Player, facts: Facts)
    requires
        s.has_client,
    ensures
        ({
            let actions = step(s, Input::Reply(Reply::ClientAdded { player }), facts).1;
            let name = player.name@;
            let is_observer = newcomer_observes(s, player, facts);
            &&& actions.contains(ActionView::SetObserver { name, is_observer })
            &&& !actions.contains(ActionView::SetObserver { name, is_observer: !is_observer })
            &&& actions.contains(ActionView::ShowObserving { name, is_observer })
            &&& !actions.contains(ActionView::ShowObserving { name, is_observer: !is_observer })
            &&& actions.contains(
                ActionView::SendSetObserver { target: name, is_observer: true },
            ) == (facts.is_host && s.config.start_observer)
            &&& facts.is_host && s.config.start_observer ==> is_observer
        }),
{
    let actions = step(s, Input::Reply(Reply::ClientAdded { player }), facts).1;
    let name = player.name@;
    let is_observer = newcomer_observes(s, player, facts);
    let before: int = if !facts.is_host {
        0
    } else if s.config.start_observer {
        3
    } else {
        2
    };
    assert(actions[before + 1] == ActionView::ShowObserving { name, is_observer });
    assert(actions[before + 3] == ActionView::SetObserver { name, is_observer });
    if before == 3 {
        assert(actions[2] == ActionView::SendSetObserver { target: name, is_observer: true });
    }
}

/// A newcomer who says that they observe is noted and shown as observing. One who
/// does not is so noted and shown just where this participant is a host who makes
/// every newcomer an observer, and otherwise as not observing. Never are they noted
/// or shown as both.
pub proof fn law_newcomers_observe_by_their_word_or_the_host(
    s: SessionView,
    player: Player,
    facts: Facts,
)
    requires
        s.has_client,
    ensures
        ({
            let actions = step(s, Input::Reply(Reply::ClientAdded { player }), facts).1;
            let name = player.name@;
            let shown = |is_observer: bool|
                actions.contains(ActionView::SetObserver { name, is_observer })
                    && actions.contains(ActionView::ShowObserving { name, is_observer });
            &&& player.is_observer ==> shown(true)
            &&& facts.is_host && s.config.start_observer ==> shown(true)
            &&& !player.is_observer && !facts.is_host ==> shown(false)
            &&& !player.is_observer && !s.config.start_observer ==> shown(false)
            &&& !(actions.contains(ActionView::SetObserver { name, is_observer: true })
                && actions.contains(ActionView::SetObserver { name, is_observer: false }))
            &&& !(actions.contains(ActionView::ShowObserving { name, is_observer: true })
                && actions.contains(ActionView::ShowObserving { name, is_observer: false }))
        }),
{
    let input = Input::Reply(Reply::ClientAdded { player });
    let name = player.name@;
    law_observers_are_noted(s, input, facts, name, true);
    law_observers_are_noted(s, input, facts, name, false);
    law_observers_are_shown(s, input, facts, name, true);
    law_observers_are_shown(s, input, facts, name, false);
}

/// Whoever the user makes an observer, or makes stop observing, in the window is
/// noted just so; on a connection they are announced just so too; and nothing else
/// is done about it.
pub proof fn law_window_sets_observers(
    s: SessionView,
    target: String,
    is_observer: bool,
    facts: Facts,
)
    ensures
        ({
            let (after, actions) = step(
                s,
                Input::Window(WindowMessage::SetObserver { target, is_observer }),
                facts,
            );
            &&& after == s
            &&& actions[0] == (ActionView::SetObserver { name: target@, is_observer })
            &&& s.has_client ==> actions.len() == 2 && actions[1]
                == (ActionView::SendSetObserver { target: target@, is_observer })
            &&& !s.has_client ==> actions.len() == 1
        }),
{
}

/// What the user sets in the window is what the one concerned is told: once the
/// announcement reaches them, they observe just as it was set.
pub proof fn law_observers_learn_what_was_set(
    s: SessionView,
    theirs: SessionView,
    target: String,
    is_observer: bool,
    facts: Facts,
    at_theirs: Facts,
)
    requires
        s.has_client,
        theirs.has_client,
        at_theirs.server_name@ == target@,
    ensures
        ({
            let announced = step(
                s,
                Input::Window(WindowMessage::SetObserver { target, is_observer }),
                facts,
            ).1[1];
            &&& announced matches ActionView::SendSetObserver { target: to, is_observer: told }
            &&& to == target@
            &&& step(
                theirs,
                Input::Payload(Payload::SetObserver { to: target, is_observer: told }),
                at_theirs,
            ).0.observing == is_observer
        }),
{
}

} // verus!
