use iii::error::IIIError;
use iii::i2p::I2pManager;
use iii::tor::{pick_tor_binary, tor_binary_candidates, TorInner};

#[test]
fn torrc_without_upstream() {
    let tor = TorInner::new("/var/lib/iii/tor".to_string(), 9050, 9051);
    let start = tor.start(&None).unwrap();
    assert_eq!(start.torrc_path, "/var/lib/iii/tor/torrc");
    assert_eq!(
        start.torrc,
        "SocksPort 9050\nControlPort 9051\nDataDirectory /var/lib/iii/tor\n"
    );
}

#[test]
fn torrc_with_upstream() {
    let tor = TorInner::new("data/".to_string(), 19050, 7);
    let start = tor.start(&Some(("127.0.0.1".to_string(), 10000))).unwrap();
    assert_eq!(start.torrc_path, "data/torrc");
    assert_eq!(
        start.torrc,
        "SocksPort 19050\nControlPort 7\nDataDirectory data/\nSocks5Proxy 127.0.0.1:10000\n"
    );
}

#[test]
fn second_start_is_refused_until_stopped() {
    let mut tor = TorInner::new("d".to_string(), 9050, 9051);
    assert!(!tor.is_running());
    tor.start(&None).unwrap();
    tor.record_started();
    assert_eq!(tor.start(&None).err(), Some(IIIError::AlreadyRunning));
    assert!(tor.stop());
    assert!(!tor.stop());
    assert!(tor.start(&None).is_ok());
    assert_eq!(tor.socks_port(), 9050);
    assert_eq!(tor.data_dir(), "d");
}

#[test]
fn tor_binary_choice() {
    let c = tor_binary_candidates();
    assert_eq!(c, vec!["/data/local/tmp/tor", "./tor", "tor"]);
    assert_eq!(pick_tor_binary(&c, &vec![false, true, false]), "./tor");
    assert_eq!(pick_tor_binary(&c, &vec![true, true, true]), "/data/local/tmp/tor");
    assert_eq!(pick_tor_binary(&c, &vec![false, false, false]), "tor");
}

#[test]
fn i2p_start_and_stop() {
    let mut m = I2pManager::new();
    assert!(!m.is_running());
    assert_eq!(m.start(false), Err(IIIError::I2p("failed to start i2pd".to_string())));
    assert!(!m.is_running());
    assert_eq!(m.start(true), Ok(()));
    assert!(m.is_running());
    m.stop();
    assert!(!m.is_running());
}
