//! When data is exchanged.
use vstd::prelude::*;

use crate::action::ActionView;
use crate::clock::{
    delay_over, elapsed, interval_over, CONNECTION_DELAY_SECS, NANOS_PER_SEC,
};
use crate::laws::answers::{law_actions_answer_their_inputs, may_answer};
use crate::message::{Facts, Input, NetworkEvent, Payload, Reply, Sender, SyncPermission};
use crate::model::{is_self, step, SessionView};

verus! {

/// Data is written to the aircraft exactly when the sender of an update is known
/// on a connection whose exchange of data has begun, and does not observe; it is
/// that update's data, and it is written in the role that the sender has.
pub proof fn law_updates_are_applied_by_right(
    s: SessionView,
    input: Input,
    facts: Facts,
    body: u64,
    permission: SyncPermission,
)
    ensures
        step(s, input, facts).1.contains(ActionView::ApplyUpdate { body, permission }) <==> {
            &&& s.has_client && s.ready_to_process_data
            &&& input matches Input::Reply(Reply::SenderFound { sender, body: found })
            &&& found == body
            &&& !sender.is_observer
            &&& permission == SyncPermission {
                is_server: sender.is_server,
                is_master: sender.has_control,
                is_init: true,
            }
        },
{
    let actions = step(s, input, facts).1;
    law_actions_answer_their_inputs(s, input, facts);
    match input {
        Input::Reply(Reply::SenderFound { .. }) => {
            assert(actions.len() > 0 ==> actions.contains(actions[0]));
        },
        _ => {
            assert(!may_answer(ActionView::ApplyUpdate { body, permission }, input));
        },
    }
}

/// An update takes two steps to the aircraft: the one who sent it is looked up,
/// and then its data is written, unless they observe or the exchange of data has
/// not begun.
pub proof fn law_update_reaches_the_aircraft(
    s: SessionView,
    from: String,
    body: u64,
    facts: Facts,
    sender: Sender,
    later: Facts,
)
    requires
        s.has_client,
    ensures
        ({
            let (looking, question) = step(
                s,
                Input::Payload(Payload::Update { from, body }),
                facts,
            );
            let (after, answer) = step(
                looking,
                Input::Reply(Reply::SenderFound { sender, body }),
                later,
            );
            &&& question == seq![ActionView::LookUpSender { name: from@, body }]
            &&& after == s
            &&& answer == if s.ready_to_process_data && !sender.is_observer {
                seq![
                    ActionView::ApplyUpdate {
                        body,
                        permission: SyncPermission {
                            is_server: sender.is_server,
                            is_master: sender.has_control,
                            is_init: true,
                        },
                    },
                ]
            } else {
                seq![]
            }
        }),
{
}

/// Data is gathered and sent exactly when time passes on a connection whose
/// exchange of data has begun, three seconds or more after it was made, with the
/// sending interval over, and only by one who does not observe; in the role that
/// this participant has.
pub proof fn law_updates_are_sent_by_right(
    s: SessionView,
    input: Input,
    facts: Facts,
    permission: SyncPermission,
)
    ensures
        step(s, input, facts).1.contains(ActionView::CollectUpdates { permission }) <==> {
            &&& s.has_client && input is Tick
            &&& s.ready_to_process_data && !s.observing
            &&& s.connection_time matches Some(since) && delay_over(since, facts.now)
            &&& interval_over(s.update_rate_instant, facts.now, s.config.update_rate)
            &&& permission == SyncPermission {
                is_server: facts.is_host,
                is_master: facts.has_control,
                is_init: false,
            }
        },
{
    let actions = step(s, input, facts).1;
    law_actions_answer_their_inputs(s, input, facts);
    if input is Tick {
        assert(actions.len() > 0 ==> actions.contains(actions[0]));
    } else {
        assert(!may_answer(ActionView::CollectUpdates { permission }, input));
    }
}

/// Data that is due stays due as time goes on and at any higher rate, and is
/// never due at a rate of zero.
pub proof fn law_due_stays_due(since: u64, now: u64, later: u64, rate: u16, higher: u16)
    requires
        now <= later,
        rate <= higher,
    ensures
        interval_over(since, now, rate) ==> interval_over(since, later, higher),
        !interval_over(since, now, 0),
{
    assert(elapsed(since, now) * rate <= elapsed(since, later) * higher) by (nonlinear_arith)
        requires
            0 <= elapsed(since, now) <= elapsed(since, later),
            0 <= rate <= higher,
    ;
}

/// The exchange of data begins with a clean slate: what was gathered is
/// forgotten, and nothing is sent in the same moment.
pub proof fn law_exchange_begins_clean(s: SessionView, input: Input, facts: Facts)
    requires
        !s.ready_to_process_data,
        step(s, input, facts).0.ready_to_process_data,
    ensures
        input is Tick,
        step(s, input, facts).1.contains(ActionView::ResetSync),
        forall|i: int|
            0 <= i < step(s, input, facts).1.len() ==> !(#[trigger] step(s, input, facts).1[i]
                is CollectUpdates),
{
    let actions = step(s, input, facts).1;
    assert(actions[0] == ActionView::ResetSync);
}

/// Readiness is announced exactly when the exchange of data begins, three
/// seconds or more after the connection was made, and never by the host.
pub proof fn law_readiness_is_announced_when_due(s: SessionView, input: Input, facts: Facts)
    ensures
        step(s, input, facts).1.contains(ActionView::SendReady) <==> {
            &&& s.has_client && input is Tick
            &&& !s.ready_to_process_data && !facts.is_host
            &&& s.connection_time matches Some(since) && delay_over(since, facts.now)
        },
{
    let actions = step(s, input, facts).1;
    law_actions_answer_their_inputs(s, input, facts);
    if input is Tick {
        assert(actions.len() > 1 ==> actions.contains(actions[1]));
    } else {
        assert(!may_answer(ActionView::SendReady, input));
    }
}

/// One who is ready is sent all current data by whoever has control, host or not,
/// and that is all that is done about it; others do nothing.
pub proof fn law_ready_are_served_by_the_holder_of_control(s: SessionView, facts: Facts)
    requires
        s.has_client,
    ensures
        facts.has_control ==> step(s, Input::Payload(Payload::Ready), facts) == (
            s,
            seq![ActionView::SendAllCurrent { is_unreliable: false }],
        ),
        !facts.has_control ==> step(s, Input::Payload(Payload::Ready), facts) == (
            s,
            Seq::<ActionView>::empty(),
        ),
{
}

/// The exchange of data, once begun, goes on until the connection is let go.
pub proof fn law_readiness_lasts(s: SessionView, input: Input, facts: Facts)
    ensures
        s.ready_to_process_data && !step(s, input, facts).0.ready_to_process_data ==> input
            is LoopEnd && s.should_set_none_client,
        step(s, input, facts).1.contains(ActionView::SendReady) ==> step(
            s,
            input,
            facts,
        ).0.ready_to_process_data,
{
    law_readiness_is_announced_when_due(s, input, facts);
}

/// The exchange of data does begin: where time passes on a connection three
/// seconds or more after it was made, data is exchanged from then on.
pub proof fn law_exchange_begins_after_the_delay(s: SessionView, made: Facts, later: Facts)
    requires
        s.has_client,
        made.now + CONNECTION_DELAY_SECS * NANOS_PER_SEC <= later.now,
    ensures
        ({
            let stamped = step(s, Input::Reply(Reply::ConnectionStamped), made).0;
            let (next, actions) = step(stamped, Input::Tick, later);
            &&& next.ready_to_process_data
            &&& !s.ready_to_process_data ==> actions == if later.is_host {
                seq![ActionView::ResetSync]
            } else {
                seq![ActionView::ResetSync, ActionView::SendReady]
            }
        }),
{
    let stamped = step(s, Input::Reply(Reply::ConnectionStamped), made).0;
    let actions = step(stamped, Input::Tick, later).1;
    if !s.ready_to_process_data {
        if later.is_host {
            assert(actions =~= seq![ActionView::ResetSync]);
        } else {
            assert(actions =~= seq![ActionView::ResetSync, ActionView::SendReady]);
        }
    }
}

/// How often readiness is announced in a run.
pub open spec fn announcements(s: SessionView, inputs: Seq<(Input, Facts)>) -> nat
    decreases inputs.len(),
{
    if inputs.len() == 0 {
        0
    } else {
        let (next, actions) = step(s, inputs[0].0, inputs[0].1);
        announcements(next, inputs.drop_first()) + if actions.contains(ActionView::SendReady) {
            1nat
        } else {
            0nat
        }
    }
}

/// How often a connection is let go in a run.
pub open spec fn closings(s: SessionView, inputs: Seq<(Input, Facts)>) -> nat
    decreases inputs.len(),
{
    if inputs.len() == 0 {
        0
    } else {
        let next = step(s, inputs[0].0, inputs[0].1).0;
        closings(next, inputs.drop_first()) + if inputs[0].0 is LoopEnd
            && s.should_set_none_client {
            1nat
        } else {
            0nat
        }
    }
}

/// Readiness is announced at most once per connection: in any run, at most once
/// more often than connections are let go, and no more often than that where the
/// exchange of data had already begun.
pub proof fn law_readiness_is_announced_once(s: SessionView, inputs: Seq<(Input, Facts)>)
    ensures
        announcements(s, inputs) <= closings(s, inputs) + if s.ready_to_process_data {
            0nat
        } else {
            1nat
        },
    decreases inputs.len(),
{
    if inputs.len() > 0 {
        let (input, facts) = inputs[0];
        law_readiness_is_announced_when_due(s, input, facts);
        law_readiness_lasts(s, input, facts);
        law_readiness_is_announced_once(step(s, input, facts).0, inputs.drop_first());
    }
}

/// One starts or stops observing only by a message to that effect, or by losing
/// the connection; and one who stops starts over with the gathered data.
pub proof fn law_observing_changes_by_message(s: SessionView, input: Input, facts: Facts)
    requires
        step(s, input, facts).0.observing != s.observing,
    ensures
        input matches Input::Event(NetworkEvent::ConnectionLost { .. }) || (input
            matches Input::Payload(Payload::SetObserver { to, is_observer }) && is_self(
            to@,
            facts,
        ) && is_observer == step(s, input, facts).0.observing && (!is_observer ==> step(
            s,
            input,
            facts,
        ).1.contains(ActionView::ResetSync))),
{
    let actions = step(s, input, facts).1;
    assert(actions.len() > 1 ==> actions.contains(actions[1]));
}

} // verus!
