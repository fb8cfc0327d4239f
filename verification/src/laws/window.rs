//! What the window shows, and when.
use vstd::prelude::*;

use crate::action::ActionView;
use crate::config::ConfigView;
use crate::laws::answers::{
    lemma_answers_are_short, lemma_not_asked, lemma_short_answer, may_answer,
};
use crate::message::{
    ConnectionMethod, Facts, Input, NetworkEvent, Payload, Reply, SimPurpose, WindowMessage,
};
use crate::model::{step, SessionView};

verus! {

/// An error is shown exactly where the simulator could not be connected, or the
/// selected aircraft could not be loaded; each with its own words.
#[verifier::spinoff_prover]
pub proof fn law_errors_are_shown(
    s: SessionView,
    input: Input,
    facts: Facts,
    message: Seq<char>,
)
    ensures
        step(s, input, facts).1.contains(ActionView::ShowError { message }) <==> {
            ||| input matches Input::Reply(Reply::SimConnected { connected, .. }) && {
                &&& !connected
                &&& message == "Could not connect to SimConnect! Is the sim running?"@
            }
            ||| input matches Input::Reply(Reply::DefinitionsLoaded { loaded, .. }) && {
                &&& !loaded
                &&& message
                    == "Error loading definition files. Check the log for more information."@
            }
        },
{
    let action = ActionView::ShowError { message };
    if may_answer(action, input) {
        lemma_answers_are_short(s, input, facts);
        lemma_short_answer(step(s, input, facts).1, action);
    } else {
        lemma_not_asked(s, input, facts, action);
    }
}

/// A hosted session is shown exactly by its host on a connection: as joined by
/// nobody when it is opened, and with the number of clients in sixteen bits when
/// someone has come or gone; always with the session's identifier.
#[verifier::spinoff_prover]
pub proof fn law_hosted_sessions_are_shown(
    s: SessionView,
    input: Input,
    facts: Facts,
    clients: u16,
    session_id: Option<Seq<char>>,
)
    ensures
        step(s, input, facts).1.contains(
            ActionView::ShowServerStarted { clients, session_id },
        ) <==> {
            &&& s.has_client && facts.is_host
            &&& match facts.session_id {
                Some(id) => session_id == Some(id@),
                None => session_id is None,
            }
            &&& {
                ||| input matches Input::Event(NetworkEvent::ConnectionEstablished) && clients == 0
                ||| input matches Input::Reply(Reply::ClientAdded { .. }) && clients
                    == facts.number_clients % 0x1_0000
                ||| input matches Input::Reply(Reply::ClientRemoved { .. }) && clients
                    == facts.number_clients % 0x1_0000
            }
        },
{
    let action = ActionView::ShowServerStarted { clients, session_id };
    if may_answer(action, input) {
        lemma_answers_are_short(s, input, facts);
        lemma_short_answer(step(s, input, facts).1, action);
    } else {
        lemma_not_asked(s, input, facts, action);
    }
}

/// A failure to host is shown exactly where no session identifier could be had,
/// where no aircraft is selected, and where a session other than a relayed one
/// could not be opened; there with the reason given.
#[verifier::spinoff_prover]
pub proof fn law_failures_to_host_are_shown(
    s: SessionView,
    input: Input,
    facts: Facts,
    reason: Seq<char>,
)
    ensures
        step(s, input, facts).1.contains(ActionView::ShowServerFail { reason }) <==> {
            ||| input matches Input::Event(NetworkEvent::SessionIdFetchFailed) && {
                &&& s.has_client
                &&& reason == "Could not connect to Cloud Server to fetch session ID."@
            }
            ||| input matches Input::Reply(
                Reply::SimConnected { purpose: SimPurpose::Host(_), .. },
            ) && {
                &&& s.config_to_load.len() == 0
                &&& reason == "Select an aircraft config first!"@
            }
            ||| input matches Input::Reply(Reply::ServerOpened { request, result: Err(error) }) && {
                &&& request.method != ConnectionMethod::Relay
                &&& reason == error@
            }
        },
{
    let action = ActionView::ShowServerFail { reason };
    if may_answer(action, input) {
        lemma_answers_are_short(s, input, facts);
        lemma_short_answer(step(s, input, facts).1, action);
    } else {
        lemma_not_asked(s, input, facts, action);
    }
}

/// A failure to join is shown exactly where the connection is lost or cannot be
/// punched through, a host name is not found, or the client does not start; with
/// the reason given, which for a client that does not start is introduced.
#[verifier::spinoff_prover]
pub proof fn law_failures_to_join_are_shown(
    s: SessionView,
    input: Input,
    facts: Facts,
    reason: Seq<char>,
)
    ensures
        step(s, input, facts).1.contains(ActionView::ShowClientFail { reason }) <==> {
            ||| input matches Input::Event(NetworkEvent::ConnectionLost { reason: given }) && {
                &&& s.has_client
                &&& reason == given@
            }
            ||| input matches Input::Event(NetworkEvent::UnablePunchthrough) && {
                &&& s.has_client
                &&& reason == "Could not connect to host! Please port forward or use 'Cloud Host'!"@
            }
            ||| input matches Input::Reply(Reply::HostResolved { result: Err(error), .. }) && {
                &&& reason == error@
            }
            ||| input matches Input::Reply(Reply::ClientOpened { result: Err(error), .. }) && {
                &&& reason == "Could not start client! Reason: "@ + error@
            }
        },
{
    let action = ActionView::ShowClientFail { reason };
    if may_answer(action, input) {
        lemma_answers_are_short(s, input, facts);
        lemma_short_answer(step(s, input, facts).1, action);
    } else {
        lemma_not_asked(s, input, facts, action);
    }
}

/// A gain of control is shown exactly where control is transferred to this
/// participant, where a session is opened by its host, and where the host takes
/// back the control of one who left.
#[verifier::spinoff_prover]
pub proof fn law_gains_of_control_are_shown(
    s: SessionView,
    input: Input,
    facts: Facts,
)
    ensures
        step(s, input, facts).1.contains(ActionView::ShowGainControl) <==> {
            &&& s.has_client
            &&& {
                ||| input matches Input::Payload(Payload::TransferControl { to, .. }) && {
                    &&& to@ == facts.server_name@
                }
                ||| input matches Input::Event(NetworkEvent::ConnectionEstablished) && facts.is_host
                ||| input matches Input::Reply(
                    Reply::ClientRemoved { name: leaver, had_control },
                ) && {
                    &&& had_control
                    &&& facts.is_host
                }
            }
        },
{
    let action = ActionView::ShowGainControl;
    if may_answer(action, input) {
        lemma_answers_are_short(s, input, facts);
        lemma_short_answer(step(s, input, facts).1, action);
    } else {
        lemma_not_asked(s, input, facts, action);
    }
}

/// A loss of control is shown exactly where this participant's control is
/// transferred to another, and where a session of another is entered.
#[verifier::spinoff_prover]
pub proof fn law_losses_of_control_are_shown(
    s: SessionView,
    input: Input,
    facts: Facts,
)
    ensures
        step(s, input, facts).1.contains(ActionView::ShowLoseControl) <==> {
            &&& s.has_client
            &&& {
                ||| input matches Input::Payload(Payload::TransferControl { from, to }) && {
                    &&& from@ == facts.server_name@
                    &&& to@ != facts.server_name@
                }
                ||| input matches Input::Event(NetworkEvent::ConnectionEstablished) && {
                    &&& !facts.is_host
                }
            }
        },
{
    let action = ActionView::ShowLoseControl;
    if may_answer(action, input) {
        lemma_answers_are_short(s, input, facts);
        lemma_short_answer(step(s, input, facts).1, action);
    } else {
        lemma_not_asked(s, input, facts, action);
    }
}

/// Another is shown in control exactly where control is transferred to them, or
/// where they join with it.
#[verifier::spinoff_prover]
pub proof fn law_holders_of_control_are_shown(
    s: SessionView,
    input: Input,
    facts: Facts,
    name: Seq<char>,
)
    ensures
        step(s, input, facts).1.contains(ActionView::ShowInControl { name }) <==> {
            &&& s.has_client
            &&& {
                ||| input matches Input::Payload(Payload::TransferControl { to, .. }) && {
                    &&& to@ != facts.server_name@
                    &&& name == to@
                }
                ||| input matches Input::Reply(Reply::ClientAdded { player }) && {
                    &&& player.in_control
                    &&& name == player.name@
                }
            }
        },
{
    let action = ActionView::ShowInControl { name };
    if may_answer(action, input) {
        lemma_answers_are_short(s, input, facts);
        lemma_short_answer(step(s, input, facts).1, action);
    } else {
        lemma_not_asked(s, input, facts, action);
    }
}

/// A newcomer is shown exactly once they are on the list.
#[verifier::spinoff_prover]
pub proof fn law_newcomers_are_shown(
    s: SessionView,
    input: Input,
    facts: Facts,
    name: Seq<char>,
)
    ensures
        step(s, input, facts).1.contains(ActionView::ShowNewConnection { name }) <==> {
            &&& s.has_client
            &&& input matches Input::Reply(Reply::ClientAdded { player })
            &&& name == player.name@
        },
{
    let action = ActionView::ShowNewConnection { name };
    if may_answer(action, input) {
        lemma_answers_are_short(s, input, facts);
        lemma_short_answer(step(s, input, facts).1, action);
    } else {
        lemma_not_asked(s, input, facts, action);
    }
}

/// One who leaves is shown exactly once they are off the list.
#[verifier::spinoff_prover]
pub proof fn law_leavers_are_shown(
    s: SessionView,
    input: Input,
    facts: Facts,
    name: Seq<char>,
)
    ensures
        step(s, input, facts).1.contains(ActionView::ShowLostConnection { name }) <==> {
            &&& s.has_client
            &&& input matches Input::Reply(Reply::ClientRemoved { name: leaver, .. })
            &&& name == leaver@
        },
{
    let action = ActionView::ShowLostConnection { name };
    if may_answer(action, input) {
        lemma_answers_are_short(s, input, facts);
        lemma_short_answer(step(s, input, facts).1, action);
    } else {
        lemma_not_asked(s, input, facts, action);
    }
}

/// Another is shown as observing or not exactly as a message about them says; and
/// a newcomer exactly as they say themselves, or as observing where this host makes
/// every newcomer an observer.
#[verifier::spinoff_prover]
pub proof fn law_observers_are_shown(
    s: SessionView,
    input: Input,
    facts: Facts,
    name: Seq<char>,
    is_observer: bool,
)
    ensures
        step(s, input, facts).1.contains(ActionView::ShowObserving { name, is_observer }) <==> {
            &&& s.has_client
            &&& {
                ||| input matches Input::Payload(Payload::SetObserver { to, is_observer: told }) && {
                    &&& to@ != facts.server_name@
                    &&& name == to@
                    &&& is_observer == told
                }
                ||| input matches Input::Reply(Reply::ClientAdded { player }) && {
                    &&& name == player.name@
                    &&& is_observer
                        == (player.is_observer || ( facts.is_host && s.config.start_observer))
                }
            }
        },
{
    let action = ActionView::ShowObserving { name, is_observer };
    if may_answer(action, input) {
        lemma_answers_are_short(s, input, facts);
        lemma_short_answer(step(s, input, facts).1, action);
    } else {
        lemma_not_asked(s, input, facts, action);
    }
}

/// This participant is shown as observing or not exactly as a message to them
/// says.
#[verifier::spinoff_prover]
pub proof fn law_own_observing_is_shown(
    s: SessionView,
    input: Input,
    facts: Facts,
    is_observer: bool,
)
    ensures
        step(s, input, facts).1.contains(ActionView::ShowSelfObserving { is_observer }) <==> {
            &&& s.has_client
            &&& input matches Input::Payload(Payload::SetObserver { to, is_observer: told })
            &&& to@ == facts.server_name@
            &&& is_observer == told
        },
{
    let action = ActionView::ShowSelfObserving { is_observer };
    if may_answer(action, input) {
        lemma_answers_are_short(s, input, facts);
        lemma_short_answer(step(s, input, facts).1, action);
    } else {
        lemma_not_asked(s, input, facts, action);
    }
}

/// This participant is shown as host exactly when told to be.
#[verifier::spinoff_prover]
pub proof fn law_new_host_is_shown(
    s: SessionView,
    input: Input,
    facts: Facts,
)
    ensures
        step(s, input, facts).1.contains(ActionView::ShowHost) <==> {
            &&& s.has_client
            &&& input matches Input::Payload(Payload::SetHost)
        },
{
    let action = ActionView::ShowHost;
    if may_answer(action, input) {
        lemma_answers_are_short(s, input, facts);
        lemma_short_answer(step(s, input, facts).1, action);
    } else {
        lemma_not_asked(s, input, facts, action);
    }
}

/// A session is shown as entered exactly when its connection is established and
/// it is another's.
#[verifier::spinoff_prover]
pub proof fn law_entered_sessions_are_shown(
    s: SessionView,
    input: Input,
    facts: Facts,
)
    ensures
        step(s, input, facts).1.contains(ActionView::ShowConnected) <==> {
            &&& s.has_client
            &&& input matches Input::Event(NetworkEvent::ConnectionEstablished)
            &&& !facts.is_host
        },
{
    let action = ActionView::ShowConnected;
    if may_answer(action, input) {
        lemma_answers_are_short(s, input, facts);
        lemma_short_answer(step(s, input, facts).1, action);
    } else {
        lemma_not_asked(s, input, facts, action);
    }
}

/// An attempt is shown exactly where the simulator is connected to join, or the
/// selected aircraft is loaded on a connected simulator to host.
#[verifier::spinoff_prover]
pub proof fn law_attempts_are_shown(
    s: SessionView,
    input: Input,
    facts: Facts,
)
    ensures
        step(s, input, facts).1.contains(ActionView::ShowAttempt) <==> {
            ||| input matches Input::Reply(
                Reply::SimConnected { purpose: SimPurpose::Join(_), connected },
            ) && {
                &&& connected
            }
            ||| input matches Input::Reply(Reply::DefinitionsLoaded { connected, loaded, .. }) && {
                &&& connected
                &&& loaded
            }
        },
{
    let action = ActionView::ShowAttempt;
    if may_answer(action, input) {
        lemma_answers_are_short(s, input, facts);
        lemma_short_answer(step(s, input, facts).1, action);
    } else {
        lemma_not_asked(s, input, facts, action);
    }
}

/// Figures on the connection are shown exactly when they come, and they are the
/// ones that came.
#[verifier::spinoff_prover]
pub proof fn law_figures_are_shown(
    s: SessionView,
    input: Input,
    facts: Facts,
    body: u64,
)
    ensures
        step(s, input, facts).1.contains(ActionView::ShowNetwork { body }) <==> {
            &&& s.has_client
            &&& input matches Input::Event(NetworkEvent::Metrics { body: came })
            &&& body == came
        },
{
    let action = ActionView::ShowNetwork { body };
    if may_answer(action, input) {
        lemma_answers_are_short(s, input, facts);
        lemma_short_answer(step(s, input, facts).1, action);
    } else {
        lemma_not_asked(s, input, facts, action);
    }
}

/// The settings are shown exactly when the window starts up, and they are the ones
/// in force.
#[verifier::spinoff_prover]
pub proof fn law_settings_are_shown_at_startup(
    s: SessionView,
    input: Input,
    facts: Facts,
    config: ConfigView,
)
    ensures
        step(s, input, facts).1.contains(ActionView::ShowConfig { config }) <==> {
            &&& input matches Input::Window(WindowMessage::Startup)
            &&& config == s.config
        },
{
    let action = ActionView::ShowConfig { config };
    if may_answer(action, input) {
        lemma_answers_are_short(s, input, facts);
        lemma_short_answer(step(s, input, facts).1, action);
    } else {
        lemma_not_asked(s, input, facts, action);
    }
}

/// A release is shown exactly where the newest one is later than the running one,
/// and no prerelease unless those are wanted.
#[verifier::spinoff_prover]
pub proof fn law_releases_are_shown(
    s: SessionView,
    input: Input,
    facts: Facts,
    version: Seq<char>,
)
    ensures
        step(s, input, facts).1.contains(ActionView::ShowVersion { version }) <==> {
            &&& input matches Input::Reply(Reply::VersionChecked { newest: Some(release) })
            &&& release.is_newer
            &&& (!release.is_prerelease || s.config.check_for_betas)
            &&& version == release.version@
        },
{
    let action = ActionView::ShowVersion { version };
    if may_answer(action, input) {
        lemma_answers_are_short(s, input, facts);
        lemma_short_answer(step(s, input, facts).1, action);
    } else {
        lemma_not_asked(s, input, facts, action);
    }
}

/// A failed update is shown exactly where the installer did not start.
#[verifier::spinoff_prover]
pub proof fn law_failed_installers_are_shown(
    s: SessionView,
    input: Input,
    facts: Facts,
)
    ensures
        step(s, input, facts).1.contains(ActionView::ShowUpdateFailed) <==> {
            &&& input matches Input::Reply(Reply::InstallerRun { started })
            &&& !started
        },
{
    let action = ActionView::ShowUpdateFailed;
    if may_answer(action, input) {
        lemma_answers_are_short(s, input, facts);
        lemma_short_answer(step(s, input, facts).1, action);
    } else {
        lemma_not_asked(s, input, facts, action);
    }
}

} // verus!
