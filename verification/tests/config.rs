use ombrac::address::{Ipv4Addr, SocketAddr, SocketAddrV4};
use ombrac::client::config::cli::{
    CliConfig, CliEndpointConfig, CliLoggingConfig, CliTransportConfig, CliTunConfig,
};
use ombrac::client::config::json::JsonConfig;
use ombrac::client::config::{
    load, load_from_json, ConfigBuilder, EndpointConfig, LoggingConfig, TlsMode, TransportConfig,
    TunConfig,
};
use ombrac::congestion::Congestion;
use ombrac::server;

fn empty_json() -> JsonConfig {
    JsonConfig {
        secret: None,
        server: None,
        auth_option: None,
        endpoint: None,
        transport: None,
        logging: None,
    }
}

fn minimal_json() -> JsonConfig {
    JsonConfig {
        secret: Some("topsecret".into()),
        server: Some("example.com:443".into()),
        ..empty_json()
    }
}

fn unset_transport() -> TransportConfig {
    CliTransportConfig {
        bind: None,
        server_name: None,
        tls_mode: None,
        ca_cert: None,
        client_cert: None,
        client_key: None,
        zero_rtt: None,
        alpn_protocols: None,
        congestion: None,
        cwnd_init: None,
        idle_timeout: None,
        keep_alive: None,
        max_streams: None,
    }
    .into_transport_config()
}

fn unset_cli() -> CliConfig {
    CliConfig {
        secret: None,
        server: None,
        auth_option: None,
        endpoint: CliEndpointConfig { http: None, socks: None, tun: None }.into_endpoint_config(),
        transport: unset_transport(),
        logging: CliLoggingConfig { log_level: None }.into_logging_config(),
    }
}

#[test]
fn load_from_json_with_only_required_fields_uses_defaults() {
    let cfg = load_from_json(minimal_json()).unwrap();
    assert_eq!(cfg.secret, "topsecret");
    assert_eq!(cfg.server, "example.com:443");
    // Transport defaults applied
    assert_eq!(cfg.transport.tls_mode, Some(TlsMode::Tls));
    assert_eq!(cfg.transport.idle_timeout, Some(30000));
    assert_eq!(cfg.transport.keep_alive, Some(8000));
    assert_eq!(cfg.transport.max_streams, Some(100));
    assert_eq!(cfg.transport.zero_rtt, Some(false));
}

#[test]
fn load_from_json_missing_secret_fails() {
    let json = JsonConfig { server: Some("example.com:443".into()), ..empty_json() };
    let err = load_from_json(json).unwrap_err();
    assert!(err.to_string().contains("secret"));
}

#[test]
fn load_from_json_missing_server_fails() {
    let json = JsonConfig { secret: Some("s".into()), ..empty_json() };
    let err = load_from_json(json).unwrap_err();
    assert!(err.to_string().contains("server"));
}

#[test]
fn load_from_json_overrides_transport_defaults() {
    let json = JsonConfig {
        secret: Some("k".into()),
        server: Some("1.2.3.4:443".into()),
        transport: Some(TransportConfig {
            tls_mode: Some(TlsMode::Insecure),
            idle_timeout: Some(60000),
            keep_alive: Some(4000),
            max_streams: Some(200),
            zero_rtt: Some(true),
            ..unset_transport()
        }),
        ..empty_json()
    };
    let cfg = load_from_json(json).unwrap();
    assert_eq!(cfg.transport.tls_mode, Some(TlsMode::Insecure));
    assert_eq!(cfg.transport.idle_timeout, Some(60000));
    assert_eq!(cfg.transport.keep_alive, Some(4000));
    assert_eq!(cfg.transport.max_streams, Some(200));
    assert_eq!(cfg.transport.zero_rtt, Some(true));
}

#[test]
fn cli_overrides_json_in_merge_order() {
    let json = JsonConfig {
        secret: Some("from_json".into()),
        server: Some("from_json:1".into()),
        auth_option: None,
        endpoint: None,
        transport: Some(TransportConfig {
            idle_timeout: Some(11111),
            keep_alive: Some(2222),
            ..Default::default()
        }),
        logging: None,
    };

    let cli = CliConfig {
        secret: Some("from_cli".into()),
        server: None,
        auth_option: None,
        endpoint: EndpointConfig::default(),
        transport: TransportConfig {
            idle_timeout: Some(99999),
            keep_alive: None,
            ..Default::default()
        },
        logging: LoggingConfig::default(),
    };

    let cfg = ConfigBuilder::new().merge_json(json).merge_cli(cli).build().unwrap();

    assert_eq!(cfg.secret, "from_cli"); // CLI wins
    assert_eq!(cfg.server, "from_json:1"); // JSON wins (CLI absent)
    assert_eq!(cfg.transport.idle_timeout, Some(99999)); // CLI wins
    assert_eq!(cfg.transport.keep_alive, Some(2222)); // JSON wins (CLI absent)
}

#[test]
fn tls_mode_default_is_tls() {
    assert_eq!(TlsMode::default(), TlsMode::Tls);
    assert_eq!(server::config::TlsMode::default(), server::config::TlsMode::Tls);
}

#[test]
fn endpoint_config_defaults_are_empty() {
    let cfg = EndpointConfig::default();
    assert!(cfg.socks.is_none());
    assert!(cfg.http.is_none());
}

#[test]
fn config_builder_build_fails_without_required_fields() {
    let err = ConfigBuilder::new().build().unwrap_err();
    assert!(err.contains("secret"));
}

#[test]
fn endpoint_socks_address_parses_from_json() {
    let json = JsonConfig {
        secret: Some("k".into()),
        server: Some("s:1".into()),
        endpoint: Some(EndpointConfig {
            socks: Some(SocketAddr::V4(SocketAddrV4 { ip: Ipv4Addr::new(127, 0, 0, 1), port: 1080 })),
            ..EndpointConfig::default()
        }),
        ..empty_json()
    };
    let cfg = load_from_json(json).unwrap();
    assert_eq!(cfg.endpoint.socks.unwrap().to_text(), "127.0.0.1:1080");
}

#[test]
fn neutral_command_line_changes_nothing() {
    let cfg = load(Some(minimal_json()), unset_cli()).unwrap();
    assert_eq!(cfg.secret, "topsecret");
    assert_eq!(cfg.transport.congestion, Some(Congestion::Bbr));
    assert_eq!(cfg.transport.alpn_protocols, Some(vec![b"h3".to_vec()]));
    assert_eq!(load(None, unset_cli()).unwrap_err(), "missing required field: secret");
}

#[test]
fn command_line_tun_is_taken_over() {
    let cli = CliTunConfig {
        tun_fd: Some(7),
        tun_ipv4: Some("10.0.0.1/24".into()),
        tun_ipv6: None,
        tun_mtu: Some(1400),
        fake_dns: None,
        disable_udp_443: Some(true),
    };
    let tun: TunConfig = cli.into_tun_config();
    assert_eq!(tun.tun_fd, Some(7));
    assert_eq!(tun.tun_ipv4.as_deref(), Some("10.0.0.1/24"));
    assert_eq!(tun.tun_mtu, Some(1400));
    assert_eq!(tun.disable_udp_443, Some(true));
}

fn listen() -> SocketAddr {
    SocketAddr::V4(SocketAddrV4 { ip: Ipv4Addr::new(0, 0, 0, 0), port: 443 })
}

fn empty_server_json() -> server::config::json::JsonConfig {
    server::config::json::JsonConfig {
        secret: None,
        listen: None,
        transport: None,
        connection: None,
        logging: None,
    }
}

fn unset_server_transport() -> server::config::TransportConfig {
    server::config::cli::CliTransportConfig {
        tls_mode: None,
        ca_cert: None,
        tls_cert: None,
        tls_key: None,
        zero_rtt: None,
        alpn_protocols: None,
        congestion: None,
        cwnd_init: None,
        idle_timeout: None,
        keep_alive: None,
        max_streams: None,
    }
    .into_transport_config()
}

#[test]
fn server_defaults_stand_behind_the_json() {
    let json = server::config::json::JsonConfig {
        secret: Some("k".into()),
        listen: Some(listen()),
        connection: Some(server::config::ConnectionConfig {
            max_connections: Some(5),
            auth_timeout_secs: None,
            max_concurrent_streams: None,
            max_concurrent_datagrams: None,
        }),
        ..empty_server_json()
    };
    let cfg = server::config::load_from_json(json).unwrap();
    assert_eq!(cfg.listen, listen());
    assert_eq!(cfg.connection.max_connections(), 5);
    assert_eq!(cfg.connection.auth_timeout_secs(), 10);
    assert_eq!(cfg.connection.handshake_timeout_secs(), 10);
    assert_eq!(cfg.connection.max_concurrent_streams(), 4096);
    assert_eq!(cfg.connection.max_concurrent_datagrams(), 4096);
    assert_eq!(cfg.transport.max_streams(), 1000);
    assert_eq!(cfg.transport.idle_timeout(), 30000);
    assert_eq!(cfg.transport.keep_alive(), 8000);
    assert_eq!(cfg.transport.congestion(), Congestion::Bbr);
    assert!(!cfg.transport.zero_rtt());
    assert_eq!(cfg.logging.log_level(), "INFO");
    assert_eq!(cfg.transport.alpn_protocols(), vec![b"h3".to_vec()]);
}

#[test]
fn server_configuration_needs_secret_and_address() {
    assert_eq!(
        server::config::load_from_json(empty_server_json()).unwrap_err(),
        "missing required field: secret"
    );
    let json = server::config::json::JsonConfig { secret: Some("k".into()), ..empty_server_json() };
    assert_eq!(
        server::config::load_from_json(json).unwrap_err(),
        "missing required field: listen"
    );
}

#[test]
fn server_command_line_wins() {
    let json = server::config::json::JsonConfig {
        secret: Some("from_json".into()),
        listen: Some(listen()),
        ..empty_server_json()
    };
    let cli = server::config::cli::CliConfig {
        secret: Some("from_cli".into()),
        listen: None,
        transport: server::config::TransportConfig {
            max_streams: Some(7),
            ..unset_server_transport()
        },
        logging: server::config::cli::CliLoggingConfig { log_level: Some("DEBUG".into()) }
            .into_logging_config(),
    };
    let cfg = server::config::load(Some(json), cli).unwrap();
    assert_eq!(cfg.secret, "from_cli");
    assert_eq!(cfg.listen, listen());
    assert_eq!(cfg.transport.max_streams(), 7);
    assert_eq!(cfg.transport.tls_mode(), server::config::TlsMode::Tls);
    assert_eq!(cfg.logging.log_level(), "DEBUG");
}
