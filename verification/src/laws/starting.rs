//! Hosting, joining, and the settings they leave behind.
use vstd::prelude::*;

use crate::action::{ActionView, ClientRoute};
use crate::config::ConfigView;
use crate::laws::answers::{law_actions_answer_their_inputs, may_answer};
use crate::message::{
    ClientRequest, ConnectionMethod, Facts, Input, Reply, ServerRequest, SimPurpose,
    WindowMessage,
};
use crate::model::{departure, hosted_config, joined_config, step, SessionView};
use crate::startup::server_route_of;

verus! {

/// Hosting without an aircraft is refused: no definitions are loaded, and so no
/// session is opened.
pub proof fn law_hosting_takes_an_aircraft(
    s: SessionView,
    request: ServerRequest,
    connected: bool,
    facts: Facts,
)
    requires
        s.config_to_load.len() == 0,
    ensures
        ({
            let actions = step(
                s,
                Input::Reply(
                    Reply::SimConnected { purpose: SimPurpose::Host(request), connected },
                ),
                facts,
            ).1;
            &&& actions.last() == ActionView::ShowServerFail {
                reason: "Select an aircraft config first!"@,
            }
            &&& forall|i: int| 0 <= i < actions.len() ==> !(#[trigger] actions[i] is LoadDefinitions)
        }),
{
}

/// An aircraft whose definitions do not load has to be selected again: until
/// then hosting is refused.
pub proof fn law_unloadable_aircraft_is_deselected(
    s: SessionView,
    request: ServerRequest,
    connected: bool,
    facts: Facts,
    again: ServerRequest,
    connected_again: bool,
    later: Facts,
)
    ensures
        ({
            let (next, failed) = step(
                s,
                Input::Reply(Reply::DefinitionsLoaded { request, connected, loaded: false }),
                facts,
            );
            let refused = step(
                next,
                Input::Reply(
                    Reply::SimConnected {
                        purpose: SimPurpose::Host(again),
                        connected: connected_again,
                    },
                ),
                later,
            ).1;
            &&& next.config_to_load.len() == 0
            &&& next.has_client == s.has_client
            &&& failed == seq![
                ActionView::ShowError {
                    message: "Error loading definition files. Check the log for more information."@,
                },
            ]
            &&& refused.last() == ActionView::ShowServerFail {
                reason: "Select an aircraft config first!"@,
            }
            &&& forall|i: int| 0 <= i < refused.len() ==> !(#[trigger] refused[i] is LoadDefinitions)
        }),
{
}

/// Hosting, where everything succeeds: the simulator is connected, the selected
/// aircraft is loaded and mapped, the session is opened by the route that the
/// request asks for, and its settings are kept.
pub proof fn law_hosting_succeeds(
    s: SessionView,
    request: ServerRequest,
    facts: Seq<Facts>,
)
    requires
        s.config_to_load.len() > 0,
    ensures
        ({
            let (s1, a1) = step(s, Input::Window(WindowMessage::StartServer(request)), facts[0]);
            let purpose = SimPurpose::Host(request);
            let (s2, a2) = step(
                s1,
                Input::Reply(Reply::SimConnected { purpose, connected: true }),
                facts[1],
            );
            let (s3, a3) = step(
                s2,
                Input::Reply(Reply::DefinitionsLoaded { request, connected: true, loaded: true }),
                facts[2],
            );
            let (s4, a4) = step(
                s3,
                Input::Reply(Reply::ServerOpened { request, result: Ok(()) }),
                facts[3],
            );
            let config = hosted_config(s.config, request);
            &&& a1 == seq![ActionView::ConnectSim { purpose }]
            &&& a2 == seq![
                ActionView::LoadDefinitions {
                    config_name: s.config_to_load,
                    request,
                    connected: true,
                },
            ]
            &&& a3 == seq![
                ActionView::ConnectDefinitions,
                ActionView::ConnectControl,
                ActionView::ShowAttempt,
                ActionView::OpenServer {
                    route: server_route_of(request),
                    request,
                    conn_timeout: s.config.conn_timeout,
                },
            ]
            &&& a4 == seq![ActionView::WriteConfig { config }]
            &&& s4 == SessionView { has_client: true, config, ..s }
        }),
{
    let config = hosted_config(s.config, request);
    let purpose = SimPurpose::Host(request);
    let a2 = step(s, Input::Reply(Reply::SimConnected { purpose, connected: true }), facts[1]).1;
    assert(a2 =~= seq![
        ActionView::LoadDefinitions { config_name: s.config_to_load, request, connected: true },
    ]);
    let a4 = step(
        s,
        Input::Reply(Reply::ServerOpened { request, result: Ok(()) }),
        facts[3],
    ).1;
    assert(a4 =~= seq![ActionView::WriteConfig { config }]);
}

/// Joining a host by its name, where everything succeeds: the name is looked up,
/// the address found is dialled on the port asked for, and the settings of the
/// request are kept.
pub proof fn law_joining_by_name_succeeds(
    s: SessionView,
    request: ClientRequest,
    ip: String,
    facts: Seq<Facts>,
)
    requires
        request.method == ConnectionMethod::Direct,
        request.hostname is Some,
        request.port is Some,
    ensures
        ({
            let (s1, a1) = step(s, Input::Window(WindowMessage::Connect(request)), facts[0]);
            let purpose = SimPurpose::Join(request);
            let (s2, a2) = step(
                s1,
                Input::Reply(Reply::SimConnected { purpose, connected: true }),
                facts[1],
            );
            let (s3, a3) = step(
                s2,
                Input::Reply(Reply::HostResolved { request, result: Ok(ip) }),
                facts[2],
            );
            let (s4, a4) = step(
                s3,
                Input::Reply(Reply::ClientOpened { request, result: Ok(()) }),
                facts[3],
            );
            let config = joined_config(s.config, request);
            &&& a1 == seq![ActionView::ConnectSim { purpose }]
            &&& a2 == seq![
                ActionView::ShowAttempt,
                ActionView::ResolveHost {
                    hostname: request.hostname->0@,
                    isipv6: request.isipv6,
                    request,
                },
            ]
            &&& a3 == seq![
                ActionView::OpenClient {
                    route: ClientRoute::Dial { ip, port: request.port->0 },
                    request,
                    conn_timeout: s.config.conn_timeout,
                },
            ]
            &&& a4 == seq![ActionView::WriteConfig { config }]
            &&& s4 == SessionView { has_client: true, config, ..s }
        }),
{
    let config = joined_config(s.config, request);
    let purpose = SimPurpose::Join(request);
    let a2 = step(s, Input::Reply(Reply::SimConnected { purpose, connected: true }), facts[1]).1;
    assert(a2 =~= seq![ActionView::ShowAttempt, departure(s, request)]);
    let a4 = step(
        s,
        Input::Reply(Reply::ClientOpened { request, result: Ok(()) }),
        facts[3],
    ).1;
    assert(a4 =~= seq![ActionView::WriteConfig { config }]);
}

/// Actions on the way into a session.
pub open spec fn opens_session(action: ActionView) -> bool {
    action is OpenServer || action is OpenClient || action is ResolveHost
}

/// One who could not connect to the simulator neither hosts nor joins: the
/// failure is shown, and no session is opened.
pub proof fn law_no_session_without_simulator(
    s: SessionView,
    purpose: SimPurpose,
    facts: Facts,
    request: ServerRequest,
    loaded: bool,
    later: Facts,
)
    ensures
        ({
            let (next, actions) = step(
                s,
                Input::Reply(Reply::SimConnected { purpose, connected: false }),
                facts,
            );
            let (last, more) = step(
                next,
                Input::Reply(Reply::DefinitionsLoaded { request, connected: false, loaded }),
                later,
            );
            &&& actions[0] == ActionView::ShowError {
                message: "Could not connect to SimConnect! Is the sim running?"@,
            }
            &&& next == s && last.has_client == s.has_client
            &&& forall|i: int| 0 <= i < actions.len() ==> !opens_session(#[trigger] actions[i])
            &&& forall|i: int| 0 <= i < more.len() ==> !opens_session(#[trigger] more[i])
        }),
{
}

/// Settings are written whenever they change, and what is written is what the
/// session goes on with.
pub proof fn law_settings_are_written(
    s: SessionView,
    input: Input,
    facts: Facts,
    config: ConfigView,
)
    ensures
        ({
            let (next, actions) = step(s, input, facts);
            &&& next.config != s.config ==> actions.contains(
                ActionView::WriteConfig { config: next.config },
            )
            &&& actions.contains(ActionView::WriteConfig { config }) ==> config == next.config
        }),
{
    let (next, actions) = step(s, input, facts);
    law_actions_answer_their_inputs(s, input, facts);
    if may_answer(ActionView::WriteConfig { config }, input) {
        assert(actions.len() > 0 ==> actions.contains(actions.last()));
    }
}

} // verus!
