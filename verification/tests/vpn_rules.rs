use iii::error::IIIError;
use iii::ipv4::{ipv4_to_u32, parse_ipv4};
use iii::vpn::{
    relay_host, KillSwitch, Platform, Router, RouterStep, TunDevice, TunInterface,
    LOOPBACK_FILTER_ADDRESS,
};

#[test]
fn relay_host_is_text_before_colon() {
    assert_eq!(relay_host("1.2.3.4:443"), "1.2.3.4");
    assert_eq!(relay_host("relay.example"), "relay.example");
    assert_eq!(relay_host(":443"), "");
    assert_eq!(relay_host("a:b:c"), "a");
    assert_eq!(relay_host(""), "");
}

#[test]
fn nft_rules_name_the_relay() {
    let ks = KillSwitch::new("1.2.3.4".to_string());
    assert_eq!(
        ks.nft_commands(),
        vec![
            "nft add table inet iii_killswitch",
            "nft flush table inet iii_killswitch",
            "nft add chain inet iii_killswitch base_chain { type filter hook output priority 0; policy drop; }",
            "nft add rule inet iii_killswitch base_chain oifname \"lo\" accept",
            "nft add rule inet iii_killswitch base_chain ip daddr 1.2.3.4 accept",
            "nft add rule inet iii_killswitch base_chain oifname \"iii0\" accept",
        ]
    );
    assert_eq!(KillSwitch::nft_teardown(), vec!["delete", "table", "inet", "iii_killswitch"]);
}

#[test]
fn wfp_relay_filter() {
    assert_eq!(KillSwitch::new("127.0.0.1".to_string()).relay_filter_address(), Some(LOOPBACK_FILTER_ADDRESS));
    assert_eq!(KillSwitch::new("1.2.3.4".to_string()).relay_filter_address(), Some(0x0102_0304));
    assert_eq!(KillSwitch::new("relay.example".to_string()).relay_filter_address(), None);
}

#[test]
fn ipv4_parsing_follows_std() {
    assert_eq!(parse_ipv4("1.2.3.4"), Some([1, 2, 3, 4]));
    assert_eq!(parse_ipv4("0.0.0.0"), Some([0, 0, 0, 0]));
    assert_eq!(parse_ipv4("255.255.255.255"), Some([255, 255, 255, 255]));
    assert_eq!(parse_ipv4("10.0.0.1"), Some([10, 0, 0, 1]));
    for bad in [
        "256.1.1.1", "01.2.3.4", "1.2.3", "1.2.3.4.5", "a.b.c.d", "", "1..2.3", " 1.2.3.4",
        "1234.1.1.1", "1.2.3.04", "0.0.0.00", "1.2.3.4.", "+1.2.3.4", "1.2.3.-4", "\u{661}.2.3.4",
        "1.2.3.4:443",
    ] {
        assert_eq!(parse_ipv4(bad), None, "{}", bad);
    }
    assert_eq!(ipv4_to_u32([192, 168, 1, 2]), u32::from_be_bytes([192, 168, 1, 2]));
}

#[test]
fn tun_interface_settings() {
    match TunInterface::create("iii0", "10.0.0.1", "255.255.255.0", Platform::Linux).unwrap() {
        TunDevice::Linux(s) => {
            assert_eq!(s.name, "iii0");
            assert_eq!(s.address, [10, 0, 0, 1]);
            assert_eq!(s.netmask, [255, 255, 255, 0]);
        }
        TunDevice::Windows(_) => panic!("wrong driver"),
    }
    assert!(matches!(
        TunInterface::create("iii0", "10.0.0.1", "255.255.255.0", Platform::Windows),
        Ok(TunDevice::Windows(_))
    ));
    match TunInterface::create("iii0", "10.0.0", "255.255.255.0", Platform::Linux) {
        Err(e) => assert_eq!(e, IIIError::Vpn("invalid IPv4 address syntax".to_string())),
        Ok(_) => panic!("accepted a bad address"),
    }
    assert!(TunInterface::create("iii0", "10.0.0.1", "mask", Platform::Windows).is_err());
}

#[test]
fn router_stops_on_empty_linux_read() {
    let dev = TunInterface::create("iii0", "10.0.0.1", "255.255.255.0", Platform::Linux).unwrap();
    let r = Router::new(dev);
    assert_eq!(r.on_read(0), RouterStep::Stop);
    assert_eq!(r.on_read(60), RouterStep::Packet(60));
    let dev = TunInterface::create("iii0", "10.0.0.1", "255.255.255.0", Platform::Windows).unwrap();
    let r = Router::new(dev);
    assert_eq!(r.on_read(0), RouterStep::Packet(0));
}

#[test]
fn failed_nft_command_fails_the_kill_switch() {
    let cmd = "nft add table inet iii_killswitch";
    assert_eq!(KillSwitch::command_outcome(cmd, true), Ok(()));
    let err = KillSwitch::command_outcome(cmd, false).unwrap_err();
    assert_eq!(
        err,
        IIIError::KillSwitchFailed("Command failed: nft add table inet iii_killswitch".to_string())
    );
    assert_eq!(err.message(), "Kill switch failed: Command failed: nft add table inet iii_killswitch");
}
