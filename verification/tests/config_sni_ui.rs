use std::sync::Arc;

use iii::config::{AppState, IIIConfig, Mode};
use iii::error::{IIIError, IoErrorKind};
use iii::sni::{sni_server_name, tls_client_config, DialRetry, SniProxy, SniTunnel, DIAL_TIMEOUT_SECS};
use iii::text::{join_path, push_decimal};
use iii::ui::{mode_choices, MyApp};

#[test]
fn config_defaults() {
    let c = IIIConfig::with_data_root(Some("/home/u/.local/share".to_string()));
    assert_eq!(c.sni_domain, "fronting.cdn.com");
    assert_eq!(c.mode, "tor");
    assert_eq!(c.order, "i2p_then_tor");
    assert!(c.killswitch_enabled && c.dns_through_tunnel);
    assert_eq!(c.data_dir, "/home/u/.local/share/iii");
    assert_eq!(IIIConfig::with_data_root(None).data_dir, "./iii");
    assert_eq!(IIIConfig::with_data_root(Some("/tmp/".to_string())).data_dir, "/tmp/iii");
    assert!(IIIConfig::default().data_dir.ends_with("iii"));
}

#[test]
fn app_state_defaults() {
    let s = AppState::default();
    assert_eq!(s.mode, Mode::SniTor);
    assert_eq!(s.sni_domain, "fronting.cdn.com");
    assert_eq!(s.target_relay, "1.2.3.4:443");
    assert!(!s.running);
    assert_eq!(Mode::SniI2pTor.name(), format!("{:?}", Mode::SniI2pTor));
}

#[test]
fn text_helpers() {
    assert_eq!(join_path("", "iii"), "iii");
    assert_eq!(join_path("a", "b"), "a/b");
    let mut s = String::from("n=");
    push_decimal(&mut s, 0);
    push_decimal(&mut s, 65535);
    assert_eq!(s, "n=065535");
}

#[test]
fn error_messages() {
    assert_eq!(IIIError::Io(IoErrorKind::TimedOut, "timeout".to_string()).message(), "IO error: timeout");
    assert_eq!(IIIError::Tls("bad".to_string()).message(), "TLS error: bad");
    assert_eq!(IIIError::Tor("x".to_string()).message(), "Tor error: x");
    assert_eq!(IIIError::I2p("x".to_string()).message(), "I2P error: x");
    assert_eq!(IIIError::Vpn("x".to_string()).message(), "VPN error: x");
    assert_eq!(IIIError::InvalidSni.message(), "Invalid SNI domain");
    assert_eq!(IIIError::KillSwitchFailed("x".to_string()).message(), "Kill switch failed: x");
    assert_eq!(IIIError::Config("x".to_string()).message(), "Configuration error: x");
    assert_eq!(IIIError::AlreadyRunning.message(), "Process already running");
}

#[test]
fn server_names() {
    let expected = rustls_pki_types::ServerName::try_from("fronting.cdn.com").unwrap().to_owned();
    assert_eq!(sni_server_name("fronting.cdn.com").unwrap(), expected);
    assert_ne!(sni_server_name("example.com").unwrap(), expected);
    let ip = rustls_pki_types::ServerName::try_from("1.2.3.4").unwrap().to_owned();
    assert_eq!(sni_server_name("1.2.3.4").unwrap(), ip);
    assert_eq!(sni_server_name("not a domain!").err(), Some(IIIError::InvalidSni));
    assert_eq!(sni_server_name("").err(), Some(IIIError::InvalidSni));
}

#[test]
fn sni_proxy_fields() {
    let p = SniProxy::new(
        "127.0.0.1:10000".to_string(),
        "fronting.cdn.com".to_string(),
        "1.2.3.4:443".to_string(),
    )
    .unwrap();
    assert_eq!(p.listen_addr(), "127.0.0.1:10000");
    assert_eq!(p.sni_domain(), "fronting.cdn.com");
    assert_eq!(p.target_relay(), "1.2.3.4:443");
    assert!(p.tls_config().enable_sni);
    let fronting = rustls_pki_types::ServerName::try_from("fronting.cdn.com").unwrap().to_owned();
    assert_eq!(p.server_name().unwrap(), fronting);
    let bad = SniProxy::new(String::new(), "bad domain".to_string(), String::new()).unwrap();
    assert_eq!(bad.server_name().err(), Some(IIIError::InvalidSni));
    let config = tls_client_config();
    assert!(config.enable_sni);
    let t = SniTunnel { sni: Arc::new("fronting.cdn.com".to_string()) };
    assert_eq!(t.sni.as_str(), "fronting.cdn.com");
}

#[test]
fn dial_gives_up_with_last_error() {
    assert_eq!(DIAL_TIMEOUT_SECS, 10);
    let mut d = DialRetry::new(3);
    d.record_failure(IIIError::Tls("handshake".to_string()));
    assert!(d.may_attempt());
    d.record_timeout();
    d.record_failure(IIIError::Io(IoErrorKind::ConnectionRefused, "refused".to_string()));
    assert!(!d.may_attempt());
    assert_eq!(d.into_error(), IIIError::Io(IoErrorKind::ConnectionRefused, "refused".to_string()));
    let mut d = DialRetry::new(1);
    d.record_timeout();
    assert_eq!(d.into_error(), IIIError::Io(IoErrorKind::TimedOut, "timeout".to_string()));
    let d = DialRetry::new(0);
    assert!(!d.may_attempt());
    assert_eq!(d.into_error(), IIIError::Io(IoErrorKind::Other, "all retries failed".to_string()));
}

#[test]
fn control_window() {
    let mut app = MyApp::default();
    assert_eq!(app.sni_domain, "fronting.cdn.com");
    assert_eq!(app.target_relay, "1.2.3.4:443");
    assert_eq!(app.mode, Mode::SniTor);
    assert!(!app.connected);
    assert_eq!(app.button_text(), "ESTABLISH SECURE TUNNEL");
    assert_eq!(app.button_color(), (0, 150, 0));
    assert_eq!(app.status_text(), "○ IDLE");
    assert_eq!(app.routing_text(), None);
    app.toggle_connection();
    assert_eq!(app.button_text(), "TERMINATE CONNECTION");
    assert_eq!(app.button_color(), (200, 0, 0));
    assert_eq!(app.status_text(), "● ENCRYPTED CHAIN ACTIVE");
    assert_eq!(app.routing_text(), Some("Routing: App -> TUN -> SniTor -> Relay".to_string()));
    app.toggle_connection();
    assert!(!app.connected);
    let labels: Vec<String> = mode_choices().into_iter().map(|(_, l)| l).collect();
    assert_eq!(labels, vec!["SNI Only", "SNI + Tor", "SNI + I2P", "SNI + Tor + I2P", "SNI + I2P + Tor"]);
}
