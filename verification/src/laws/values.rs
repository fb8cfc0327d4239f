//! What the values that sessions deal in stand for.
use vstd::prelude::*;

use crate::action::{optional_view, views, Action, ActionView, ClientRoute, ServerRoute};
use crate::clock::{delay_over, interval_over};
use crate::config::Config;
use crate::message::{
    ClientRequest, ConnectionMethod, Facts, Input, Release, Reply, ServerRequest, SimPurpose,
};
use crate::model::{admissible, shown_clients, step, SessionView};
use crate::startup::{
    client_failure, client_plan, fails_first_at, lists, offered, server_route_of, startable,
    title_of, ClientPlan,
};
use crate::transfer::{packets, Packet};

verus! {

/// An action says what it holds: it is viewed as the action of its own name, with
/// its own values.
pub proof fn law_actions_say_what_they_hold(action: Action)
    ensures
        match action {
            Action::ShowError { message } => action@
                == (ActionView::ShowError { message: message@ }),
            Action::ShowServerStarted { clients, session_id: Some(id) } => action@
                == (ActionView::ShowServerStarted { clients, session_id: Some(id@) }),
            Action::ShowServerStarted { clients, session_id: None } => action@
                == (ActionView::ShowServerStarted { clients, session_id: None }),
            Action::ShowServerFail { reason } => action@
                == (ActionView::ShowServerFail { reason: reason@ }),
            Action::ShowClientFail { reason } => action@
                == (ActionView::ShowClientFail { reason: reason@ }),
            Action::ShowGainControl => action@ == ActionView::ShowGainControl,
            Action::ShowLoseControl => action@ == ActionView::ShowLoseControl,
            Action::ShowInControl { name } => action@
                == (ActionView::ShowInControl { name: name@ }),
            Action::ShowNewConnection { name } => action@
                == (ActionView::ShowNewConnection { name: name@ }),
            Action::ShowLostConnection { name } => action@
                == (ActionView::ShowLostConnection { name: name@ }),
            Action::ShowObserving { name, is_observer } => action@
                == (ActionView::ShowObserving { name: name@, is_observer }),
            Action::ShowSelfObserving { is_observer } => action@
                == (ActionView::ShowSelfObserving { is_observer }),
            Action::ShowHost => action@ == ActionView::ShowHost,
            Action::ShowConnected => action@ == ActionView::ShowConnected,
            Action::ShowAttempt => action@ == ActionView::ShowAttempt,
            Action::ShowNetwork { body } => action@ == (ActionView::ShowNetwork { body }),
            Action::ShowAircraft { name } => action@ == (ActionView::ShowAircraft { name: name@ }),
            Action::ShowConfig { config } => action@
                == (ActionView::ShowConfig { config: config@ }),
            Action::ShowVersion { version } => action@
                == (ActionView::ShowVersion { version: version@ }),
            Action::ShowUpdateFailed => action@ == ActionView::ShowUpdateFailed,
            Action::TakeControl => action@ == ActionView::TakeControl,
            Action::LoseControl => action@ == ActionView::LoseControl,
            Action::ConnectControl => action@ == ActionView::ConnectControl,
            Action::ResetSync => action@ == ActionView::ResetSync,
            Action::LookUpSender { name, body } => action@
                == (ActionView::LookUpSender { name: name@, body }),
            Action::ApplyUpdate { body, permission } => action@
                == (ActionView::ApplyUpdate { body, permission }),
            Action::CollectUpdates { permission } => action@
                == (ActionView::CollectUpdates { permission }),
            Action::ProcessSimObjectData { body } => action@
                == (ActionView::ProcessSimObjectData { body }),
            Action::ProcessClientData { body } => action@
                == (ActionView::ProcessClientData { body }),
            Action::ProcessEventData { body } => action@ == (ActionView::ProcessEventData { body }),
            Action::LoadReceivedDefinitions { body } => action@
                == (ActionView::LoadReceivedDefinitions { body }),
            Action::LoadDefinitions { config_name, request, connected } => action@
                == (ActionView::LoadDefinitions { config_name: config_name@, request, connected }),
            Action::ConnectReceivedDefinitions => action@ == ActionView::ConnectReceivedDefinitions,
            Action::ConnectDefinitions => action@ == ActionView::ConnectDefinitions,
            Action::ConnectSim { purpose } => action@ == (ActionView::ConnectSim { purpose }),
            Action::CloseSim => action@ == ActionView::CloseSim,
            Action::AddClient { player } => action@ == (ActionView::AddClient { player }),
            Action::RemoveClient { name } => action@ == (ActionView::RemoveClient { name: name@ }),
            Action::SetServer { name, is_server } => action@
                == (ActionView::SetServer { name: name@, is_server }),
            Action::SetObserver { name, is_observer } => action@
                == (ActionView::SetObserver { name: name@, is_observer }),
            Action::SetClientControl { name } => action@
                == (ActionView::SetClientControl { name: name@ }),
            Action::SetNoControl => action@ == ActionView::SetNoControl,
            Action::ResetClients => action@ == ActionView::ResetClients,
            Action::Stop { reason } => action@ == (ActionView::Stop { reason: reason@ }),
            Action::SendTransferControl { target } => action@
                == (ActionView::SendTransferControl { target: target@ }),
            Action::SendTakeControl { target } => action@
                == (ActionView::SendTakeControl { target: target@ }),
            Action::SendSetObserver { target, is_observer } => action@
                == (ActionView::SendSetObserver { target: target@, is_observer }),
            Action::SendDefinitions { target } => action@
                == (ActionView::SendDefinitions { target: target@ }),
            Action::SendReady => action@ == ActionView::SendReady,
            Action::SendAllCurrent { is_unreliable } => action@
                == (ActionView::SendAllCurrent { is_unreliable }),
            Action::OpenServer { route, request, conn_timeout } => action@
                == (ActionView::OpenServer { route, request, conn_timeout }),
            Action::ResolveHost { hostname, isipv6, request } => action@
                == (ActionView::ResolveHost { hostname: hostname@, isipv6, request }),
            Action::OpenClient { route, request, conn_timeout } => action@
                == (ActionView::OpenClient { route, request, conn_timeout }),
            Action::DropClient => action@ == ActionView::DropClient,
            Action::WriteConfig { config } => action@
                == (ActionView::WriteConfig { config: config@ }),
            Action::ListAircraft => action@ == ActionView::ListAircraft,
            Action::CheckVersion => action@ == ActionView::CheckVersion,
            Action::RunInstaller => action@ == ActionView::RunInstaller,
            Action::StampConnection => action@ == ActionView::StampConnection,
            Action::Sleep { millis } => action@ == (ActionView::Sleep { millis }),
        },
{
}

/// A list of actions says what each of them says, in their order.
pub proof fn law_lists_of_actions_say_what_they_hold(actions: Seq<Action>, i: int)
    ensures
        views(actions).len() == actions.len(),
        0 <= i < actions.len() ==> views(actions)[i] == actions[i]@,
{
}

/// Settings say what they hold.
pub proof fn law_settings_say_what_they_hold(config: Config)
    ensures
        config@.name == config.name@,
        config@.ip == config.ip@,
        config@.port == config.port,
        config@.conn_timeout == config.conn_timeout,
        config@.update_rate == config.update_rate,
        config@.use_upnp == config.use_upnp,
        config@.start_observer == config.start_observer,
        config@.check_for_betas == config.check_for_betas,
{
}

/// An optional text is absent where it is absent, and otherwise says what it says.
pub proof fn law_optional_texts_say_what_they_hold(text: Option<String>)
    ensures
        text matches Some(held) ==> optional_view(text) == Some(held@),
        text is None ==> optional_view(text) is None,
{
}

/// The window shows the number of clients where sixteen bits hold it, and otherwise
/// what is left of it in sixteen bits.
pub proof fn law_shown_number_of_clients(number_clients: usize)
    ensures
        number_clients < 65_536 ==> shown_clients(number_clients) == number_clients,
        (number_clients - shown_clients(number_clients)) % 65_536 == 0,
{
}

/// The delay after a connection is made is over three seconds later, counted in
/// nanoseconds, and not before.
pub proof fn law_delay_lasts_three_seconds(since: u64, now: u64)
    ensures
        delay_over(since, now) <==> since + 3_000_000_000 <= now,
{
}

/// Data is due again once more than a second has passed, for each of the sendings
/// that a second holds; never before it was last sent, and never at a rate of zero.
pub proof fn law_sendings_are_a_fraction_of_a_second_apart(since: u64, now: u64, rate: u16)
    ensures
        interval_over(since, now, rate) <==> since < now && (now - since) * rate > 1_000_000_000,
        interval_over(since, now, 1) <==> since + 1_000_000_000 < now,
        !interval_over(since, now, 0),
{
}

/// A request to join says enough exactly where it goes through the cloud server, or
/// goes directly to a named host or to an address and a port.
pub proof fn law_requests_that_can_start(request: ClientRequest)
    ensures
        startable(request) <==> {
            ||| request.method == ConnectionMethod::CloudServer
            ||| request.method == ConnectionMethod::Direct && request.hostname is Some
            ||| request.method == ConnectionMethod::Direct && request.ip is Some && request.port
                is Some
        },
{
}

/// A request to join that names a host is looked up by that very name, whatever
/// address it gives; a direct one without a name goes to its own address and port;
/// one through the cloud server to its own session, in its own protocol.
pub proof fn law_requests_set_out_as_they_say(request: ClientRequest)
    requires
        startable(request),
    ensures
        match client_plan(request) {
            ClientPlan::Resolve { hostname } => {
                &&& request.method == ConnectionMethod::Direct
                &&& request.hostname == Some(hostname)
            },
            ClientPlan::Open(ClientRoute::Dial { ip, port }) => {
                &&& request.method == ConnectionMethod::Direct
                &&& request.hostname is None
                &&& request.ip == Some(ip)
                &&& request.port == Some(port)
            },
            ClientPlan::Open(ClientRoute::HolePunch { session_id, isipv6 }) => {
                &&& request.method == ConnectionMethod::CloudServer
                &&& session_id == request.session_id
                &&& isipv6 == request.isipv6
            },
        },
{
}

/// A session is hosted by the route of its method, in the request's own terms: a
/// direct one listens with the request's protocol, port and forwarding; one at the
/// cloud server punches with the request's protocol, whatever its port and
/// forwarding; a relayed one is relayed.
pub proof fn law_sessions_are_hosted_as_requested(request: ServerRequest)
    ensures
        request.method == ConnectionMethod::Direct ==> {
            &&& server_route_of(request) matches ServerRoute::Listen { isipv6, port, use_upnp }
            &&& isipv6 == request.isipv6
            &&& port == request.port
            &&& use_upnp == request.use_upnp
        },
        request.method == ConnectionMethod::CloudServer ==> {
            &&& server_route_of(request) matches ServerRoute::HolePunch { isipv6 }
            &&& isipv6 == request.isipv6
        },
        request.method == ConnectionMethod::Relay ==> server_route_of(request) is Relay,
{
}

/// Two requests to host by the same method go by the same route exactly where they
/// agree in what that method needs: a direct one in protocol, port and forwarding,
/// one at the cloud server in protocol, and a relayed one in nothing.
pub proof fn law_routes_tell_requests_apart(one: ServerRequest, other: ServerRequest)
    ensures
        server_route_of(one) == server_route_of(other) <==> {
            &&& one.method == other.method
            &&& one.method != ConnectionMethod::Relay ==> one.isipv6 == other.isipv6
            &&& one.method == ConnectionMethod::Direct ==> one.port == other.port && one.use_upnp
                == other.use_upnp
        },
{
}

/// The session that is opened once definitions are loaded goes by the route of the
/// request's method, in the request's own terms.
pub proof fn law_loaded_sessions_are_hosted_as_requested(
    s: SessionView,
    request: ServerRequest,
    facts: Facts,
)
    ensures
        ({
            let input = Input::Reply(
                Reply::DefinitionsLoaded { request, connected: true, loaded: true },
            );
            let actions = step(s, input, facts).1;
            &&& actions.len() == 4
            &&& actions[3] matches ActionView::OpenServer { route, request: wish, conn_timeout }
            &&& wish == request
            &&& conn_timeout == s.config.conn_timeout
            &&& request.method == ConnectionMethod::Direct ==> route == (ServerRoute::Listen {
                isipv6: request.isipv6,
                port: request.port,
                use_upnp: request.use_upnp,
            })
            &&& request.method == ConnectionMethod::CloudServer ==> route
                == (ServerRoute::HolePunch { isipv6: request.isipv6 })
            &&& request.method == ConnectionMethod::Relay ==> route == ServerRoute::Relay
        }),
{
}

/// A client that could not be started is reported with the reason at the end of the
/// report.
pub proof fn law_failures_end_with_their_reason(reason: Seq<char>)
    ensures
        client_failure(reason).len() == 32 + reason.len(),
        client_failure(reason).subrange(0, 32) == "Could not start client! Reason: "@,
        client_failure(reason).skip(32) == reason,
{
    reveal_strlit("Could not start client! Reason: ");
}

/// The title of the window ends with the version, after the name of the program.
pub proof fn law_title_ends_with_the_version(version: Seq<char>)
    ensures
        title_of(version).len() == 16 + version.len(),
        title_of(version).subrange(0, 16) == "Shared Cockpit v"@,
        title_of(version).skip(16) == version,
{
    reveal_strlit("Shared Cockpit v");
}

/// A final release is offered exactly where it is newer; a prerelease exactly where
/// it is newer and prereleases are wanted.
pub proof fn law_offered_releases(release: Release, check_for_betas: bool)
    ensures
        !release.is_prerelease ==> offered(release, check_for_betas) == release.is_newer,
        release.is_prerelease ==> offered(release, check_for_betas) == (release.is_newer
            && check_for_betas),
{
}

/// A listing fails at one position at most, and it fails at one exactly where some
/// entry could not be read.
pub proof fn law_listings_fail_at_their_first_error<E>(
    entries: Seq<Result<String, E>>,
    one: int,
    other: int,
)
    ensures
        fails_first_at(entries, one) && fails_first_at(entries, other) ==> one == other,
        fails_first_at(entries, one) ==> 0 <= one < entries.len() && entries[one] is Err,
        fails_first_at(entries, one) && 0 <= other < one ==> entries[other] is Ok,
        0 <= one < entries.len() && entries[one] is Err ==> exists|first: int|
            first <= one && fails_first_at(entries, first),
    decreases one,
{
    if 0 <= one < entries.len() && entries[one] is Err {
        if exists|j: int| 0 <= j < one && entries[j] is Err {
            let earlier = choose|j: int| 0 <= j < one && entries[j] is Err;
            law_listings_fail_at_their_first_error(entries, earlier, other);
        } else {
            assert(fails_first_at(entries, one));
        }
    }
}

/// A listing comes to one result only: to names exactly where every entry could be
/// read, each entry giving its own name at its own place; otherwise to an error, and
/// every entry before the one with that error could be read.
pub proof fn law_listings_come_to_one_result<E>(
    entries: Seq<Result<String, E>>,
    one: Result<Seq<String>, E>,
    other: Result<Seq<String>, E>,
    i: int,
)
    requires
        lists(entries, one),
    ensures
        lists(entries, other) ==> one == other,
        one matches Ok(names) ==> {
            &&& names.len() == entries.len()
            &&& 0 <= i < entries.len() ==> entries[i] == Ok::<String, E>(names[i])
        },
        one matches Err(error) ==> exists|k: int|
            0 <= k < entries.len() && #[trigger] entries[k] == Err::<String, E>(error) && forall|
                j: int,
            |
                0 <= j < k ==> entries[j] is Ok,
{
    if one is Ok && other is Ok {
        if lists(entries, other) {
            assert forall|k: int| 0 <= k < entries.len() implies one->Ok_0[k]
                == other->Ok_0[k] by {
                assert(entries[k] == Ok::<String, E>(one->Ok_0[k]));
                assert(entries[k] == Ok::<String, E>(other->Ok_0[k]));
            }
            assert(one->Ok_0 =~= other->Ok_0);
        }
    }
    if one is Err {
        let k = choose|k: int| #[trigger]
            fails_first_at(entries, k) && entries[k] == Err::<String, E>(one->Err_0);
        assert(entries[k] == Err::<String, E>(one->Err_0));
        if lists(entries, other) {
            if other is Err {
                let m = choose|m: int| #[trigger]
                    fails_first_at(entries, m) && entries[m] == Err::<String, E>(other->Err_0);
                law_listings_fail_at_their_first_error(entries, k, m);
            }
        }
    } else if lists(entries, other) && other is Err {
        let m = choose|m: int| #[trigger]
            fails_first_at(entries, m) && entries[m] == Err::<String, E>(other->Err_0);
        assert(entries[m] == Ok::<String, E>(one->Ok_0[m]));
    }
}

/// What is gathered is sent, and nothing else: what may get lost as such and first,
/// what must arrive as such and last.
pub proof fn law_gathered_data_is_sent<D>(unreliable: Option<D>, reliable: Option<D>)
    ensures
        ({
            let sent = packets(unreliable, reliable);
            &&& sent.len() == (if unreliable is Some {
                1int
            } else {
                0
            }) + (if reliable is Some {
                1int
            } else {
                0
            })
            &&& unreliable matches Some(data) ==> sent[0].data == data && sent[0].is_unreliable
            &&& reliable matches Some(data) ==> sent.last().data == data
                && !sent.last().is_unreliable
        }),
{
}

/// An input can be answered unless it is a connected simulator for a request to join
/// that does not say enough, or an address found for one that names no port.
pub proof fn law_inputs_that_can_be_answered(input: Input)
    ensures
        admissible(input) <==> match input {
            Input::Reply(
                Reply::SimConnected { purpose: SimPurpose::Join(request), connected: true },
            ) => match request.method {
                ConnectionMethod::Direct => request.hostname is Some || (request.ip is Some
                    && request.port is Some),
                ConnectionMethod::CloudServer => true,
                ConnectionMethod::Relay => false,
            },
            Input::Reply(Reply::HostResolved { request, result: Ok(_) }) => request.port is Some,
            _ => true,
        },
{
}

} // verus!
