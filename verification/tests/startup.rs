use yourcontrols::startup::{
    can_start_client, describe_client_failure, get_aircraft_configs, offers_release, server_route,
    start_client, window_title, ClientPlan,
};
use yourcontrols::{
    ClientRequest, ClientRoute, ConnectionMethod, Release, ServerRequest, ServerRoute,
};

fn join(method: ConnectionMethod, ip: Option<&str>, port: Option<u16>, hostname: Option<&str>) -> ClientRequest {
    ClientRequest {
        session_id: "ABC123".to_string(),
        username: "Ann".to_string(),
        method,
        ip: ip.map(|ip| ip.to_string()),
        port,
        isipv6: true,
        hostname: hostname.map(|hostname| hostname.to_string()),
    }
}

fn host(method: ConnectionMethod) -> ServerRequest {
    ServerRequest {
        username: "Ann".to_string(),
        port: 7777,
        isipv6: true,
        method,
        use_upnp: true,
    }
}

#[test]
fn aircraft_are_listed_in_order() {
    let entries: Vec<Result<String, u8>> = vec![Ok("A320.yaml".to_string()), Ok("C172.yaml".to_string())];
    assert_eq!(
        get_aircraft_configs(entries),
        Ok(vec!["A320.yaml".to_string(), "C172.yaml".to_string()])
    );
}

#[test]
fn empty_directory_lists_nothing() {
    let entries: Vec<Result<String, u8>> = Vec::new();
    assert_eq!(get_aircraft_configs(entries), Ok(Vec::new()));
}

#[test]
fn first_unreadable_entry_fails_the_listing() {
    let entries: Vec<Result<String, u8>> = vec![Ok("A320.yaml".to_string()), Err(1), Ok("B747.yaml".to_string()), Err(2)];
    assert_eq!(get_aircraft_configs(entries), Err(1));
}

#[test]
fn direct_connection_goes_to_the_address() {
    let request = join(ConnectionMethod::Direct, Some("10.0.0.7"), Some(25), None);
    assert!(can_start_client(&request));
    assert_eq!(
        start_client(&request),
        ClientPlan::Open(ClientRoute::Dial { ip: "10.0.0.7".to_string(), port: 25 })
    );
}

#[test]
fn host_name_goes_before_the_address() {
    let request = join(ConnectionMethod::Direct, Some("10.0.0.7"), Some(25), Some("example.org"));
    assert_eq!(
        start_client(&request),
        ClientPlan::Resolve { hostname: "example.org".to_string() }
    );
}

#[test]
fn host_name_sets_out_without_a_port() {
    let request = join(ConnectionMethod::Direct, None, None, Some("example.org"));
    assert!(can_start_client(&request));
}

#[test]
fn cloud_session_is_punched_through_to() {
    let request = join(ConnectionMethod::CloudServer, None, None, None);
    assert!(can_start_client(&request));
    assert_eq!(
        start_client(&request),
        ClientPlan::Open(ClientRoute::HolePunch { session_id: "ABC123".to_string(), isipv6: true })
    );
}

#[test]
fn requests_that_say_too_little_are_not_startable() {
    assert!(!can_start_client(&join(ConnectionMethod::Relay, Some("10.0.0.7"), Some(25), Some("h"))));
    assert!(!can_start_client(&join(ConnectionMethod::Direct, Some("10.0.0.7"), None, None)));
    assert!(!can_start_client(&join(ConnectionMethod::Direct, None, Some(25), None)));
}

#[test]
fn server_routes() {
    assert_eq!(
        server_route(&host(ConnectionMethod::Direct)),
        ServerRoute::Listen { isipv6: true, port: 7777, use_upnp: true }
    );
    assert_eq!(server_route(&host(ConnectionMethod::CloudServer)), ServerRoute::HolePunch { isipv6: true });
    assert_eq!(server_route(&host(ConnectionMethod::Relay)), ServerRoute::Relay);
}

#[test]
fn releases_offered() {
    let release = |is_newer: bool, is_prerelease: bool| Release {
        version: "2.6.0".to_string(),
        is_newer,
        is_prerelease,
    };
    assert!(offers_release(&release(true, false), false));
    assert!(offers_release(&release(true, false), true));
    assert!(!offers_release(&release(true, true), false));
    assert!(offers_release(&release(true, true), true));
    assert!(!offers_release(&release(false, false), true));
    assert!(!offers_release(&release(false, true), true));
}

#[test]
fn failure_of_a_client_is_described() {
    assert_eq!(
        describe_client_failure("address in use"),
        "Could not start client! Reason: address in use"
    );
    assert_eq!(describe_client_failure(""), "Could not start client! Reason: ");
}

#[test]
fn title_names_the_version() {
    assert_eq!(window_title("2.5.6"), "Shared Cockpit v2.5.6");
}
