//! What is asked of the machine, and when.
use vstd::prelude::*;

use crate::action::ActionView;
use crate::config::ConfigView;
use crate::laws::answers::{
    lemma_answers_are_short, lemma_not_asked, lemma_short_answer, may_answer,
};
use crate::message::{Facts, Input, NetworkEvent, Payload, Reply, WindowMessage};
use crate::model::{step, SessionView};

verus! {

/// The aircraft are listed exactly when the window starts up.
#[verifier::spinoff_prover]
pub proof fn law_aircraft_are_listed(
    s: SessionView,
    input: Input,
    facts: Facts,
)
    ensures
        step(s, input, facts).1.contains(ActionView::ListAircraft) <==> {
            &&& input matches Input::Window(WindowMessage::Startup)
        },
{
    let action = ActionView::ListAircraft;
    if may_answer(action, input) {
        lemma_answers_are_short(s, input, facts);
        lemma_short_answer(step(s, input, facts).1, action);
    } else {
        lemma_not_asked(s, input, facts, action);
    }
}

/// The newest release is asked for exactly when the window starts up.
#[verifier::spinoff_prover]
pub proof fn law_version_is_checked(
    s: SessionView,
    input: Input,
    facts: Facts,
)
    ensures
        step(s, input, facts).1.contains(ActionView::CheckVersion) <==> {
            &&& input matches Input::Window(WindowMessage::Startup)
        },
{
    let action = ActionView::CheckVersion;
    if may_answer(action, input) {
        lemma_answers_are_short(s, input, facts);
        lemma_short_answer(step(s, input, facts).1, action);
    } else {
        lemma_not_asked(s, input, facts, action);
    }
}

/// The installer is run exactly when the user asks for it.
#[verifier::spinoff_prover]
pub proof fn law_installer_is_run(
    s: SessionView,
    input: Input,
    facts: Facts,
)
    ensures
        step(s, input, facts).1.contains(ActionView::RunInstaller) <==> {
            &&& input matches Input::Window(WindowMessage::RunUpdater)
        },
{
    let action = ActionView::RunInstaller;
    if may_answer(action, input) {
        lemma_answers_are_short(s, input, facts);
        lemma_short_answer(step(s, input, facts).1, action);
    } else {
        lemma_not_asked(s, input, facts, action);
    }
}

/// The start of a connection is stamped exactly when the host's aircraft comes, or
/// when a session is opened by its host.
#[verifier::spinoff_prover]
pub proof fn law_connection_is_stamped(
    s: SessionView,
    input: Input,
    facts: Facts,
)
    ensures
        step(s, input, facts).1.contains(ActionView::StampConnection) <==> {
            &&& s.has_client
            &&& {
                ||| input matches Input::Payload(Payload::AircraftDefinition { .. })
                ||| input matches Input::Event(NetworkEvent::ConnectionEstablished) && facts.is_host
            }
        },
{
    let action = ActionView::StampConnection;
    if may_answer(action, input) {
        lemma_answers_are_short(s, input, facts);
        lemma_short_answer(step(s, input, facts).1, action);
    } else {
        lemma_not_asked(s, input, facts, action);
    }
}

/// The program rests exactly after a pass of less than ten milliseconds, and for
/// ten.
#[verifier::spinoff_prover]
pub proof fn law_short_passes_rest(
    s: SessionView,
    input: Input,
    facts: Facts,
    millis: u64,
)
    ensures
        step(s, input, facts).1.contains(ActionView::Sleep { millis }) <==> {
            &&& input matches Input::LoopTimed { millis: taken }
            &&& taken < 10
            &&& millis == 10
        },
{
    let action = ActionView::Sleep { millis };
    if may_answer(action, input) {
        lemma_answers_are_short(s, input, facts);
        lemma_short_answer(step(s, input, facts).1, action);
    } else {
        lemma_not_asked(s, input, facts, action);
    }
}

/// Settings are written exactly where the user changes them, or an attempt to host
/// or to join has come to its end. The user's are written as they are. Hosting
/// keeps its name, port and forwarding; joining its name, its address or none, and
/// its port if it gave one; all else stays.
#[verifier::spinoff_prover]
pub proof fn law_settings_are_kept(
    s: SessionView,
    input: Input,
    facts: Facts,
    config: ConfigView,
)
    ensures
        step(s, input, facts).1.contains(ActionView::WriteConfig { config }) <==> {
            ||| input matches Input::Window(WindowMessage::UpdateConfig { new_config }) && {
                &&& config == new_config@
            }
            ||| input matches Input::Reply(Reply::ServerOpened { request, .. }) && {
                &&& config.name == request.username@
                &&& config.port == request.port
                &&& config.use_upnp == request.use_upnp
                &&& config.ip == s.config.ip
                &&& config.conn_timeout == s.config.conn_timeout
                &&& config.update_rate == s.config.update_rate
                &&& config.start_observer == s.config.start_observer
                &&& config.check_for_betas == s.config.check_for_betas
            }
            ||| input matches Input::Reply(Reply::HostResolved { request, result: Err(_) }) && {
                &&& config.name == request.username@
                &&& match request.port {
                    Some(port) => config.port == port,
                    None => config.port == s.config.port,
                }
                &&& match request.ip {
                    Some(ip) => config.ip == ip@,
                    None => config.ip.len() == 0,
                }
                &&& config.use_upnp == s.config.use_upnp
                &&& config.conn_timeout == s.config.conn_timeout
                &&& config.update_rate == s.config.update_rate
                &&& config.start_observer == s.config.start_observer
                &&& config.check_for_betas == s.config.check_for_betas
            }
            ||| input matches Input::Reply(Reply::ClientOpened { request, .. }) && {
                &&& config.name == request.username@
                &&& match request.port {
                    Some(port) => config.port == port,
                    None => config.port == s.config.port,
                }
                &&& match request.ip {
                    Some(ip) => config.ip == ip@,
                    None => config.ip.len() == 0,
                }
                &&& config.use_upnp == s.config.use_upnp
                &&& config.conn_timeout == s.config.conn_timeout
                &&& config.update_rate == s.config.update_rate
                &&& config.start_observer == s.config.start_observer
                &&& config.check_for_betas == s.config.check_for_betas
            }
        },
{
    let action = ActionView::WriteConfig { config };
    if may_answer(action, input) {
        lemma_answers_are_short(s, input, facts);
        lemma_short_answer(step(s, input, facts).1, action);
        assert(config.ip.len() == 0 ==> config.ip =~= seq![]);
    } else {
        lemma_not_asked(s, input, facts, action);
    }
}

} // verus!
