//! What a session remembers, and what changes it.
use vstd::prelude::*;

use crate::action::ActionView;
use crate::config::ConfigView;
use crate::laws::machine::law_settings_are_kept;
use crate::message::{Facts, Input, NetworkEvent, Payload, Reply, WindowMessage};
use crate::model::{first_config, initial, run, step, SessionView};

verus! {

/// Settings that are written are in force from then on, and no other input than
/// the user's change and the end of an attempt changes them.
pub proof fn law_written_settings_are_in_force(
    s: SessionView,
    input: Input,
    facts: Facts,
    config: ConfigView,
)
    ensures
        step(s, input, facts).1.contains(ActionView::WriteConfig { config }) ==> step(
            s,
            input,
            facts,
        ).0.config == config,
        step(s, input, facts).0.config == s.config || {
            ||| input matches Input::Window(WindowMessage::UpdateConfig { .. })
            ||| input matches Input::Reply(Reply::ServerOpened { .. })
            ||| input matches Input::Reply(Reply::HostResolved { result: Err(_), .. })
            ||| input matches Input::Reply(Reply::ClientOpened { .. })
        },
{
    law_settings_are_kept(s, input, facts, config);
    assert(config.ip.len() == 0 ==> config.ip =~= seq![]);
}

/// The aircraft selected for hosting is the one last chosen, and none after its
/// definitions did not load.
pub proof fn law_selected_aircraft(s: SessionView, input: Input, facts: Facts)
    ensures
        ({
            let selected = step(s, input, facts).0.config_to_load;
            match input {
                Input::Window(WindowMessage::LoadAircraft { config_file_name }) => selected
                    == config_file_name@,
                Input::Reply(Reply::DefinitionsLoaded { loaded: false, .. }) => selected.len()
                    == 0,
                _ => selected == s.config_to_load,
            }
        }),
{
}

/// There is a connection after an attempt that succeeded, none after the end of a
/// pass that lost it, and otherwise as before.
pub proof fn law_presence_of_a_connection(s: SessionView, input: Input, facts: Facts)
    ensures
        step(s, input, facts).0.has_client == match input {
            Input::Reply(Reply::ServerOpened { result: Ok(_), .. }) => true,
            Input::Reply(Reply::ClientOpened { result: Ok(_), .. }) => true,
            Input::LoopEnd => s.has_client && !s.should_set_none_client,
            _ => s.has_client,
        },
{
}

/// A connection is marked as lost when it is lost, the mark is gone at the end of
/// the pass, and otherwise it stays as it was.
pub proof fn law_mark_of_a_lost_connection(s: SessionView, input: Input, facts: Facts)
    ensures
        step(s, input, facts).0.should_set_none_client == match input {
            Input::Event(NetworkEvent::ConnectionLost { .. }) => s.should_set_none_client
                || s.has_client,
            Input::LoopEnd => false,
            _ => s.should_set_none_client,
        },
{
}

/// On a connection this participant observes as the last message to them said,
/// and no longer once the connection is lost; without one, and by any other
/// input, that stays as it was.
pub proof fn law_own_observing(s: SessionView, input: Input, facts: Facts)
    ensures
        step(s, input, facts).0.observing == match input {
            Input::Payload(Payload::SetObserver { to, is_observer }) => if s.has_client && to@
                == facts.server_name@ {
                is_observer
            } else {
                s.observing
            },
            Input::Event(NetworkEvent::ConnectionLost { .. }) => s.observing && !s.has_client,
            _ => s.observing,
        },
{
}

/// Data is exchanged from the moment that time passes three seconds or more after
/// the connection was made, until the end of a pass that lost it.
pub proof fn law_exchange_of_data(s: SessionView, input: Input, facts: Facts)
    ensures
        step(s, input, facts).0.ready_to_process_data == match input {
            Input::Tick => s.ready_to_process_data || (s.has_client && s.connection_time is Some
                && s.connection_time->0 + 3_000_000_000 <= facts.now),
            Input::LoopEnd => s.ready_to_process_data && !s.should_set_none_client,
            _ => s.ready_to_process_data,
        },
{
}

/// A connection was made at the moment at which it was last stamped; the end of a
/// pass that lost it forgets that moment.
pub proof fn law_moment_of_the_connection(s: SessionView, input: Input, facts: Facts)
    ensures
        step(s, input, facts).0.connection_time == match input {
            Input::Reply(Reply::ConnectionStamped) => if s.has_client {
                Some(facts.now)
            } else {
                s.connection_time
            },
            Input::LoopEnd => if s.should_set_none_client {
                None
            } else {
                s.connection_time
            },
            _ => s.connection_time,
        },
{
}

/// Data was last sent at the moment at which it was last written to a connection.
pub proof fn law_moment_of_the_last_sending(s: SessionView, input: Input, facts: Facts)
    ensures
        step(s, input, facts).0.update_rate_instant == if s.has_client && input
            == Input::Reply(Reply::UpdatesWritten) {
            facts.now
        } else {
            s.update_rate_instant
        },
{
}

/// An installer counts as started once it did start, and from then on.
pub proof fn law_started_installer(s: SessionView, input: Input, facts: Facts)
    ensures
        step(s, input, facts).0.installer_spawned <==> s.installer_spawned || input == Input::Reply(
            Reply::InstallerRun { started: true },
        ),
{
}

/// Without a connection, nothing that only a connection brings leaves a trace: the
/// session stays as it was, and nothing is done.
pub proof fn law_nothing_is_heard_without_a_connection(
    s: SessionView,
    input: Input,
    facts: Facts,
)
    requires
        !s.has_client,
        match input {
            Input::Sim(_)
            | Input::Payload(_)
            | Input::Event(_)
            | Input::Stepped { .. }
            | Input::Program(_)
            | Input::Tick
            | Input::Reply(Reply::SenderFound { .. })
            | Input::Reply(Reply::UpdateApplied { .. })
            | Input::Reply(Reply::ClientAdded { .. })
            | Input::Reply(Reply::ClientRemoved { .. })
            | Input::Reply(Reply::DefinitionsReceived { .. })
            | Input::Reply(Reply::DefinitionsConnected { .. })
            | Input::Reply(Reply::ConnectionStamped)
            | Input::Reply(Reply::UpdatesWritten) => true,
            _ => false,
        },
    ensures
        step(s, input, facts).0 == s,
        step(s, input, facts).1.len() == 0,
{
}

/// A program starts with its settings, without a selected aircraft and without a
/// connection; nothing is observed, exchanged or installed, and data counts as
/// sent at the start.
pub proof fn law_sessions_start_empty(config: ConfigView, now: u64)
    ensures
        initial(config, now).config == config,
        initial(config, now).config_to_load.len() == 0,
        !initial(config, now).has_client,
        !initial(config, now).should_set_none_client,
        !initial(config, now).observing,
        !initial(config, now).ready_to_process_data,
        initial(config, now).connection_time is None,
        initial(config, now).update_rate_instant == now,
        !initial(config, now).installer_spawned,
{
}

/// Settings that could be read are taken as they are and not written; where none
/// could be read, the default ones are taken, and they alone are written.
pub proof fn law_first_settings(read: Option<ConfigView>, default: ConfigView)
    ensures
        read matches Some(config) ==> {
            &&& first_config(read, default).0 == config
            &&& first_config(read, default).1.len() == 0
        },
        read is None ==> {
            &&& first_config(read, default).0 == default
            &&& first_config(read, default).1.len() == 1
            &&& first_config(read, default).1[0] == (ActionView::WriteConfig { config: default })
        },
{
}

/// A run is its inputs taken one after the other: after one input more, a session
/// is where that input takes it.
pub proof fn law_runs_go_step_by_step(
    s: SessionView,
    inputs: Seq<(Input, Facts)>,
    input: Input,
    facts: Facts,
)
    ensures
        run(s, Seq::<(Input, Facts)>::empty()) == s,
        run(s, inputs.push((input, facts))) == step(run(s, inputs), input, facts).0,
    decreases inputs.len(),
{
    let all = inputs.push((input, facts));
    if inputs.len() == 0 {
        assert(all.drop_first() =~= Seq::<(Input, Facts)>::empty());
        assert(inputs =~= Seq::<(Input, Facts)>::empty());
        reveal_with_fuel(run, 2);
    } else {
        let (first, then) = inputs[0];
        assert(all[0] == inputs[0]);
        assert(all.drop_first() =~= inputs.drop_first().push((input, facts)));
        law_runs_go_step_by_step(step(s, first, then).0, inputs.drop_first(), input, facts);
    }
}

} // verus!
