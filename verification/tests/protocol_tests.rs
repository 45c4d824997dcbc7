//! The protocol logic end to end: endpoint resolution, bootstrap bounds,
//! the keepalive lifecycle, watch ordering, the prepared requests, and the
//! reply interpreters.

use agones::alpha::AlphaRequest;
use agones::beta::BetaRequest;
use agones::bootstrap::{Bootstrap, BootstrapAction, BootstrapPhase};
use agones::endpoint::{host_address, parse_port, port_to_string, resolve_host, resolve_port};
use agones::errors::{Error, RpcStatus};
use agones::health::HealthState;
use agones::proto;
use agones::sdk::SdkRequest;
use agones::sdk_grpc::{CallOption, SdkClient, SdkMethod};
use agones::types::GameServer;
use agones::watch::WatchStream;
use agones::Sdk;

fn status(code: u32, message: &str) -> RpcStatus {
    RpcStatus { code, message: message.to_string() }
}

fn new_sdk() -> Sdk {
    let (sdk, _bootstrap) = Sdk::new(None, None, None).unwrap();
    sdk
}

#[test]
fn port_parsing_matches_the_environment_rules() {
    assert_eq!(parse_port("9357"), Some(9357));
    assert_eq!(parse_port("0042"), Some(42));
    assert_eq!(parse_port("+80"), Some(80));
    assert_eq!(parse_port("65535"), Some(65535));
    assert_eq!(parse_port("65536"), None);
    assert_eq!(parse_port(""), None);
    assert_eq!(parse_port("+"), None);
    assert_eq!(parse_port("80a"), None);
    assert_eq!(parse_port("-80"), None);
    assert_eq!(parse_port("8 0"), None);
}

#[test]
fn port_formatting_is_plain_decimal() {
    assert_eq!(port_to_string(0), "0");
    assert_eq!(port_to_string(7), "7");
    assert_eq!(port_to_string(9357), "9357");
    assert_eq!(port_to_string(65535), "65535");
}

#[test]
fn endpoint_resolution_prefers_explicit_then_environment_then_default() {
    assert_eq!(resolve_port(Some(1234), Some("7777")), 1234);
    assert_eq!(resolve_port(None, Some("7777")), 7777);
    assert_eq!(resolve_port(None, Some("not a port")), 9357);
    assert_eq!(resolve_port(None, None), 9357);

    assert_eq!(resolve_host(Some("http://example"), Some("http://other")), "http://example");
    assert_eq!(resolve_host(None, Some("http://other")), "http://other");
    assert_eq!(resolve_host(None, None), "http://localhost");

    assert_eq!(host_address("http://localhost", 9357), "http://localhost:9357");
}

#[test]
fn sdk_new_resolves_the_default_endpoint() {
    let (sdk, bootstrap) = Sdk::new(None, None, None).unwrap();
    assert_eq!(sdk.channel.addr, "http://localhost:9357");
    assert_eq!(sdk.channel.keep_alive_ms, 30000);
    assert_eq!(bootstrap.deadline_ms, 30000);
    assert_eq!(bootstrap.interval_ms, 100);
    assert_eq!(bootstrap.phase, BootstrapPhase::Probing);
    assert_eq!(sdk.alpha().channel.addr, "http://localhost:9357");
    assert_eq!(sdk.beta().channel.addr, "http://localhost:9357");

    let (sdk, _) = Sdk::new(Some(7777), Some("1111"), Some(5000)).unwrap();
    assert_eq!(sdk.channel.addr, "http://localhost:7777");
    assert_eq!(sdk.channel.keep_alive_ms, 5000);

    let (sdk, _) = Sdk::new_with_host(
        Some("http://sidecar.local"),
        None,
        None,
        Some("+42"),
        None,
    )
    .unwrap();
    assert_eq!(sdk.channel.addr, "http://sidecar.local:42");
}

#[test]
fn a_malformed_endpoint_fails_before_any_probing() {
    let r = Sdk::new_with_host(Some("ht tp://bad host"), None, None, None, None);
    assert!(matches!(r, Err(Error::InvalidUri)));
}

#[test]
fn bootstrap_times_out_after_the_bounded_wait() {
    let mut b = Bootstrap::with_defaults();
    // 30s deadline at one probe per 100ms: 300 failed probes keep it
    // probing, the next one times it out.
    for _ in 0..300 {
        assert_eq!(b.on_probe(false), BootstrapAction::Retry);
        assert_eq!(b.phase, BootstrapPhase::Probing);
    }
    assert_eq!(b.on_probe(false), BootstrapAction::Fail);
    assert_eq!(b.phase, BootstrapPhase::TimedOut);
    assert!(b.elapsed_ms <= b.deadline_ms + b.interval_ms);
    assert!(matches!(b.failure_error(), Error::TimedOut));
}

#[test]
fn bootstrap_connects_on_the_first_successful_probe() {
    let mut b = Bootstrap::with_defaults();
    assert_eq!(b.on_probe(false), BootstrapAction::Retry);
    assert_eq!(b.on_probe(true), BootstrapAction::Done);
    assert_eq!(b.phase, BootstrapPhase::Connected);
    assert_eq!(b.elapsed_ms, 100);
}

#[test]
fn keepalive_sends_then_closes_cleanly() {
    let sdk = new_sdk();
    let mut health = sdk.health_check();
    assert_eq!(health.state, HealthState::Unopened);

    // The first send opens the one stream; further sends reuse it.
    health.send().unwrap();
    assert_eq!(health.state, HealthState::Streaming);
    health.send().unwrap();
    assert!(!health.is_closed());

    // After explicit cancellation every send fails fast.
    health.cancel();
    assert!(health.is_closed());
    let denied = health.send();
    assert!(matches!(denied, Err(Error::HealthPingConnectionFailure(_))));
    let denied_again = health.send();
    assert!(matches!(denied_again, Err(Error::HealthPingConnectionFailure(_))));
}

#[test]
fn keepalive_closes_on_transport_error() {
    let sdk = new_sdk();
    let mut health = sdk.health_check();
    health.send().unwrap();
    health.on_transport_error();
    assert!(health.is_closed());
    assert!(matches!(health.send(), Err(Error::HealthPingConnectionFailure(_))));
}

fn snapshot(state: &str) -> GameServer {
    let mut gs = GameServer::default();
    let mut status = agones::types::GameServerStatus::default();
    status.state = state.to_string();
    gs.status = Some(status);
    gs
}

#[test]
fn watch_delivers_snapshots_in_emission_order() {
    let mut w = WatchStream::new();
    assert!(w.next().is_none());

    let s1 = snapshot("Scheduled");
    let s2 = snapshot("RequestReady");
    let s3 = snapshot("Ready");
    w.on_message(s1.clone());
    w.on_message(s2.clone());
    w.on_message(s3.clone());

    assert_eq!(w.next(), Some(s1));
    assert_eq!(w.next(), Some(s2));
    w.on_closed();
    assert!(w.is_closed());
    // What was pending before the close can still be taken, in order.
    assert_eq!(w.next(), Some(s3));
    assert_eq!(w.next(), None);
}

#[test]
fn lifecycle_requests_carry_the_exact_payloads() {
    let sdk = new_sdk();
    assert_eq!(sdk.ready(), SdkRequest::Ready(proto::Empty {}));
    assert_eq!(sdk.allocate(), SdkRequest::Allocate(proto::Empty {}));
    assert_eq!(sdk.shutdown(), SdkRequest::Shutdown(proto::Empty {}));
    assert_eq!(sdk.get_gameserver(), SdkRequest::GetGameServer(proto::Empty {}));
    assert_eq!(sdk.watch_gameserver(), SdkRequest::WatchGameServer(proto::Empty {}));

    let label = sdk.set_label("test-label", "1511.0");
    assert_eq!(
        label,
        SdkRequest::SetLabel(proto::KeyValue {
            key: "test-label".to_string(),
            value: "1511.0".to_string(),
        })
    );
    let annotation = sdk.set_annotation("test-annotation", "uid-1");
    assert_eq!(
        annotation,
        SdkRequest::SetAnnotation(proto::KeyValue {
            key: "test-annotation".to_string(),
            value: "uid-1".to_string(),
        })
    );
}

#[test]
fn reserve_floors_the_duration_to_one_second() {
    let sdk = new_sdk();
    // A zero-second (or subsecond) request yields exactly one second.
    assert_eq!(sdk.reserve(0), SdkRequest::Reserve(proto::Duration { seconds: 1 }));
    assert_eq!(sdk.reserve(1), SdkRequest::Reserve(proto::Duration { seconds: 1 }));
    assert_eq!(sdk.reserve(5), SdkRequest::Reserve(proto::Duration { seconds: 5 }));
    assert_eq!(
        sdk.reserve(i64::MAX as u64),
        SdkRequest::Reserve(proto::Duration { seconds: i64::MAX })
    );
    // Beyond the wire's signed range the floor applies.
    assert_eq!(sdk.reserve(u64::MAX), SdkRequest::Reserve(proto::Duration { seconds: 1 }));
}

#[test]
fn alpha_requests_carry_the_exact_payloads() {
    let sdk = new_sdk();
    let alpha = sdk.alpha();
    assert_eq!(alpha.get_player_capacity(), AlphaRequest::GetPlayerCapacity(proto::Empty {}));
    assert_eq!(
        alpha.set_player_capacity(10),
        AlphaRequest::SetPlayerCapacity(proto::Count { count: 10 })
    );
    assert_eq!(
        alpha.player_connect("1234"),
        AlphaRequest::PlayerConnect(proto::PlayerId { player_id: "1234".to_string() })
    );
    assert_eq!(
        alpha.player_disconnect("1234"),
        AlphaRequest::PlayerDisconnect(proto::PlayerId { player_id: "1234".to_string() })
    );
    assert_eq!(alpha.get_player_count(), AlphaRequest::GetPlayerCount(proto::Empty {}));
    assert_eq!(
        alpha.is_player_connected("1234"),
        AlphaRequest::IsPlayerConnected(proto::PlayerId { player_id: "1234".to_string() })
    );
    assert_eq!(
        alpha.get_connected_players(),
        AlphaRequest::GetConnectedPlayers(proto::Empty {})
    );
}

#[test]
fn beta_requests_carry_the_exact_payloads() {
    let sdk = new_sdk();
    let beta = sdk.beta();

    assert_eq!(
        beta.get_counter_count("rooms"),
        BetaRequest::GetCounter(proto::GetCounterRequest { name: "rooms".to_string() })
    );
    assert_eq!(
        beta.increment_counter("rooms", 9),
        BetaRequest::UpdateCounter(proto::UpdateCounterRequest {
            counter_update_request: Some(proto::CounterUpdateRequest {
                name: "rooms".to_string(),
                count: None,
                capacity: None,
                count_diff: 9,
            }),
        })
    );
    assert_eq!(
        beta.decrement_counter("rooms", 10),
        BetaRequest::UpdateCounter(proto::UpdateCounterRequest {
            counter_update_request: Some(proto::CounterUpdateRequest {
                name: "rooms".to_string(),
                count: None,
                capacity: None,
                count_diff: -10,
            }),
        })
    );
    assert_eq!(
        beta.set_counter_count("rooms", 10),
        BetaRequest::UpdateCounter(proto::UpdateCounterRequest {
            counter_update_request: Some(proto::CounterUpdateRequest {
                name: "rooms".to_string(),
                count: Some(10),
                capacity: None,
                count_diff: 0,
            }),
        })
    );
    assert_eq!(
        beta.set_counter_capacity("rooms", 42),
        BetaRequest::UpdateCounter(proto::UpdateCounterRequest {
            counter_update_request: Some(proto::CounterUpdateRequest {
                name: "rooms".to_string(),
                count: None,
                capacity: Some(42),
                count_diff: 0,
            }),
        })
    );
    assert_eq!(
        beta.set_list_capacity("players", 10),
        BetaRequest::UpdateList(proto::UpdateListRequest {
            list: Some(proto::List {
                name: "players".to_string(),
                capacity: 10,
                values: vec![],
            }),
            update_mask: Some(proto::FieldMask { paths: vec!["capacity".to_string()] }),
        })
    );
    assert_eq!(
        beta.append_list_value("players", "alice"),
        BetaRequest::AddListValue(proto::AddListValueRequest {
            name: "players".to_string(),
            value: "alice".to_string(),
        })
    );
    assert_eq!(
        beta.delete_list_value("players", "alice"),
        BetaRequest::RemoveListValue(proto::RemoveListValueRequest {
            name: "players".to_string(),
            value: "alice".to_string(),
        })
    );
    assert_eq!(
        beta.get_list_capacity("players"),
        BetaRequest::GetList(proto::GetListRequest { name: "players".to_string() })
    );
    assert_eq!(
        beta.get_list_length("players"),
        BetaRequest::GetList(proto::GetListRequest { name: "players".to_string() })
    );
    assert_eq!(
        beta.get_list_values("players"),
        BetaRequest::GetList(proto::GetListRequest { name: "players".to_string() })
    );
    assert_eq!(
        beta.list_contains("players", "alice"),
        BetaRequest::GetList(proto::GetListRequest { name: "players".to_string() })
    );
}

#[test]
fn sdk_client_prepares_the_wire_calls() {
    let sdk = new_sdk();
    let client = SdkClient::new(sdk.channel.duplicate());
    let req = proto::empty();

    let c = client.ready(&req);
    assert_eq!(c.method, SdkMethod::Ready);
    assert_eq!(c.method.path(), "/stable.agones.dev.sdk.SDK/Ready");
    assert!(c.wait_for_reply);
    assert_eq!(c.opt, CallOption::default());

    let c = client.ready_async(&req);
    assert!(!c.wait_for_reply);

    let c = client.shutdown(&req);
    assert_eq!(c.method, SdkMethod::Shutdown);
    assert_eq!(c.method.path(), "/stable.agones.dev.sdk.SDK/Shutdown");
    assert!(c.wait_for_reply);

    let c = client.shutdown_async_opt(&req, CallOption { timeout_ms: Some(250) });
    assert_eq!(c.opt.timeout_ms, Some(250));
    assert!(!c.wait_for_reply);

    let (open, mut health) = client.health();
    assert_eq!(open.method, SdkMethod::Health);
    assert_eq!(open.method.path(), "/stable.agones.dev.sdk.SDK/Health");
    assert_eq!(health.state, HealthState::Streaming);
    health.send().unwrap();
    health.cancel();
    assert!(health.send().is_err());
}

#[test]
fn reply_interpreters_map_status_to_rpc_errors() {
    let ok = Sdk::complete_call(Ok(proto::Empty {}));
    assert_eq!(ok, Ok(()));

    let denied = Sdk::complete_call(Err(status(13, "boom")));
    match denied {
        Err(Error::Rpc(st)) => {
            assert_eq!(st.code, 13);
            assert_eq!(st.message, "boom");
        }
        other => panic!("expected an rpc failure, got {:?}", other),
    }

    let count = agones::alpha::Alpha::count_response(Ok(proto::Count { count: 7 }));
    assert_eq!(count.unwrap(), 7);
    let connected = agones::alpha::Alpha::bool_response(Ok(proto::Bool { value: true }));
    assert!(connected.unwrap());
    let players = agones::alpha::Alpha::players_response(Ok(proto::PlayerIdList {
        list: vec!["1234".to_string()],
    }));
    assert_eq!(players.unwrap(), vec!["1234".to_string()]);
    assert!(matches!(
        agones::alpha::Alpha::count_response(Err(status(5, "no"))),
        Err(Error::Rpc(_))
    ));

    let counter = proto::Counter { name: "rooms".to_string(), count: 1, capacity: 10 };
    assert_eq!(agones::beta::Beta::counter_count_response(Ok(counter.clone())).unwrap(), 1);
    assert_eq!(agones::beta::Beta::counter_capacity_response(Ok(counter)).unwrap(), 10);

    let list = proto::List {
        name: "players".to_string(),
        capacity: 5,
        values: vec!["abc".to_string(), "def".to_string()],
    };
    assert_eq!(agones::beta::Beta::list_capacity_response(Ok(list.clone())).unwrap(), 5);
    assert_eq!(agones::beta::Beta::list_length_response(Ok(list.clone())).unwrap(), 2);
    assert_eq!(
        agones::beta::Beta::list_values_response(Ok(list.clone())).unwrap(),
        vec!["abc".to_string(), "def".to_string()]
    );
    assert!(agones::beta::Beta::list_contains_response(Ok(list.clone()), "def").unwrap());
    assert!(!agones::beta::Beta::list_contains_response(Ok(list), "ghi").unwrap());
}

#[test]
fn watch_opening_and_record_reads_interpret_replies() {
    let opened = Sdk::open_watch(Ok(()));
    assert!(!opened.unwrap().is_closed());
    assert!(matches!(Sdk::open_watch(Err(status(14, "gone"))), Err(Error::Rpc(_))));

    let msg = proto::GameServer {
        object_meta: Some(proto::ObjectMeta {
            name: "gs-1".to_string(),
            namespace: "default".to_string(),
            uid: "uid-1".to_string(),
            resource_version: "42".to_string(),
            generation: 3,
            creation_timestamp: 1000,
            deletion_timestamp: 0,
            annotations: Default::default(),
            labels: Default::default(),
        }),
        spec: Some(proto::Spec {
            health: Some(proto::SpecHealth {
                disabled: false,
                period_seconds: 5,
                failure_threshold: 3,
                initial_delay_seconds: 10,
            }),
        }),
        status: Some(proto::Status {
            state: "Ready".to_string(),
            address: "10.0.0.1".to_string(),
            ports: vec![proto::StatusPort { name: "game".to_string(), port: 7777 }],
            players: Some(proto::PlayerStatus {
                count: 1,
                capacity: 8,
                ids: vec!["1234".to_string()],
            }),
        }),
    };
    let gs = Sdk::complete_get_gameserver(Ok(msg)).unwrap();
    let meta = gs.object_meta.unwrap();
    assert_eq!(meta.name, "gs-1");
    assert_eq!(meta.namespace, "default");
    assert_eq!(meta.uid, "uid-1");
    assert_eq!(meta.resource_version, "42");
    assert_eq!(meta.generation, 3);
    assert_eq!(meta.creation_timestamp, 1000);
    let health = gs.spec.unwrap().health.unwrap();
    assert!(!health.disabled);
    assert_eq!(health.period_seconds, 5);
    assert_eq!(health.failure_threshold, 3);
    assert_eq!(health.initial_delay_seconds, 10);
    let st = gs.status.unwrap();
    assert_eq!(st.state, "Ready");
    assert_eq!(st.address, "10.0.0.1");
    assert_eq!(st.ports.len(), 1);
    assert_eq!(st.ports[0].name, "game");
    assert_eq!(st.ports[0].port, 7777);
    let players = st.players.unwrap();
    assert_eq!(players.count, 1);
    assert_eq!(players.capacity, 8);
    assert_eq!(players.ids, vec!["1234".to_string()]);

    assert!(matches!(
        Sdk::complete_get_gameserver(Err(status(2, "down"))),
        Err(Error::Rpc(_))
    ));
}

#[test]
fn error_kinds_are_distinguishable() {
    assert_eq!(Error::TimedOut.kind_name(), "timed out waiting for the sidecar");
    assert_eq!(Error::InvalidUri.kind_name(), "failed to parse connection uri");
    assert_eq!(Error::Rpc(status(5, "x")).kind_name(), "rpc failure");
    assert_eq!(Error::Transport("reset".to_string()).kind_name(), "transport failure");
    assert_eq!(
        Error::HealthPingConnectionFailure("closed".to_string()).kind_name(),
        "health ping connection failure"
    );
}
