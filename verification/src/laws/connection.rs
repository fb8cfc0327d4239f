//! How connections come about and end.
use vstd::prelude::*;

use crate::action::ActionView;
use crate::config::ConfigView;
use crate::message::{Facts, Input, NetworkEvent, Reply};
use crate::model::{consistent, ends, initial, run, step, SessionView};

verus! {

/// Every input keeps a session consistent.
pub proof fn law_consistency_is_kept(s: SessionView, input: Input, facts: Facts)
    requires
        consistent(s),
    ensures
        consistent(step(s, input, facts).0),
{
}

proof fn lemma_run_keeps_consistency(s: SessionView, inputs: Seq<(Input, Facts)>)
    requires
        consistent(s),
    ensures
        consistent(run(s, inputs)),
    decreases inputs.len(),
{
    if inputs.len() > 0 {
        law_consistency_is_kept(s, inputs[0].0, inputs[0].1);
        lemma_run_keeps_consistency(step(s, inputs[0].0, inputs[0].1).0, inputs.drop_first());
    }
}

/// Whatever a program is told from its start on, its session is consistent.
pub proof fn law_reachable_sessions_are_consistent(
    config: ConfigView,
    start: u64,
    inputs: Seq<(Input, Facts)>,
)
    ensures
        consistent(run(initial(config, start), inputs)),
{
    lemma_run_keeps_consistency(initial(config, start), inputs);
}

/// Whatever a program is told from its start on, data is exchanged only on a
/// connection that was made, and only a connection that is there was made or is
/// marked as lost.
pub proof fn law_reachable_sessions_agree_with_themselves(
    config: ConfigView,
    start: u64,
    inputs: Seq<(Input, Facts)>,
)
    ensures
        ({
            let s = run(initial(config, start), inputs);
            &&& s.ready_to_process_data ==> s.has_client && s.connection_time is Some
            &&& s.connection_time is Some ==> s.has_client
            &&& s.should_set_none_client ==> s.has_client
        }),
{
    law_reachable_sessions_are_consistent(config, start, inputs);
}

/// A session is consistent exactly where data is exchanged only on a connection
/// that was made, and only a connection that is there was made or is marked as
/// lost.
pub proof fn law_meaning_of_consistency(s: SessionView)
    ensures
        consistent(s) <==> {
            &&& !s.ready_to_process_data || s.connection_time is Some
            &&& s.has_client || s.connection_time is None && !s.should_set_none_client
        },
{
}

/// A connection comes about only where an attempt to host or to join succeeds.
pub proof fn law_connections_are_opened(s: SessionView, input: Input, facts: Facts)
    requires
        !s.has_client,
        step(s, input, facts).0.has_client,
    ensures
        input matches Input::Reply(Reply::ServerOpened { result: Ok(_), .. }) || input
            matches Input::Reply(Reply::ClientOpened { result: Ok(_), .. }),
{
}

/// Inputs within one pass of the main loop.
pub open spec fn within_a_pass(inputs: Seq<(Input, Facts)>) -> bool {
    forall|i: int| 0 <= i < inputs.len() ==> !((#[trigger] inputs[i]).0 is LoopEnd)
}

proof fn lemma_closing_is_remembered(s: SessionView, inputs: Seq<(Input, Facts)>)
    requires
        s.should_set_none_client,
        within_a_pass(inputs),
    ensures
        run(s, inputs).should_set_none_client,
    decreases inputs.len(),
{
    if inputs.len() > 0 {
        let (input, facts) = inputs[0];
        assert(!(inputs[0].0 is LoopEnd));
        let rest = inputs.drop_first();
        assert forall|i: int| 0 <= i < rest.len() implies !((#[trigger] rest[i]).0 is LoopEnd) by {
            assert(rest[i] == inputs[i + 1]);
        }
        lemma_closing_is_remembered(step(s, input, facts).0, rest);
    }
}

/// A connection that is lost is gone at the end of the pass, whatever else that
/// pass brings: it and the simulator are let go, and no data is exchanged any
/// more.
pub proof fn law_lost_connection_is_let_go(
    s: SessionView,
    reason: String,
    facts: Facts,
    inputs: Seq<(Input, Facts)>,
    end_facts: Facts,
)
    requires
        s.has_client,
        within_a_pass(inputs),
    ensures
        ({
            let lost = step(s, Input::Event(NetworkEvent::ConnectionLost { reason }), facts).0;
            let (end, actions) = step(run(lost, inputs), Input::LoopEnd, end_facts);
            &&& !lost.observing
            &&& !end.has_client && !end.should_set_none_client
            &&& !end.ready_to_process_data && end.connection_time is None
            &&& actions.contains(ActionView::DropClient)
            &&& actions.contains(ActionView::CloseSim)
        }),
{
    let lost = step(s, Input::Event(NetworkEvent::ConnectionLost { reason }), facts).0;
    lemma_closing_is_remembered(lost, inputs);
    let (end, actions) = step(run(lost, inputs), Input::LoopEnd, end_facts);
    assert(actions[0] == ActionView::DropClient);
    assert(actions[1] == ActionView::CloseSim);
}

/// Once an installer was started, the program ends: no input takes that back.
pub proof fn law_installer_ends_the_program(s: SessionView, inputs: Seq<(Input, Facts)>)
    requires
        s.installer_spawned,
    ensures
        run(s, inputs).installer_spawned,
    decreases inputs.len(),
{
    if inputs.len() > 0 {
        law_installer_ends_the_program(
            step(s, inputs[0].0, inputs[0].1).0,
            inputs.drop_first(),
        );
    }
}

/// The program ends where the window was closed, whatever the session; where it was
/// not, it ends exactly if an installer started in its course.
pub proof fn law_program_ends_by_window_or_installer(
    s: SessionView,
    input: Input,
    facts: Facts,
    exited: bool,
)
    ensures
        ends(s, true),
        ends(step(s, input, facts).0, false) <==> ends(s, false) || input == Input::Reply(
            Reply::InstallerRun { started: true },
        ),
        ends(s, exited) && !exited ==> s.installer_spawned,
        s.installer_spawned ==> ends(s, exited),
{
}

} // verus!
