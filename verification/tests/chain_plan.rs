use iii::chain::{
    chain_description, chain_hops, chain_plan, LaunchStep, RunningServices, Service,
    I2P_SOCKS_PORT, SNI_PROXY_PORT, TOR_SOCKS_PORT,
};
use iii::config::Mode;

fn summary(mode: Mode) -> Vec<(Service, u16)> {
    chain_plan(mode)
        .steps
        .iter()
        .map(|s| match s {
            LaunchStep::Tor(t) => {
                assert_eq!((t.socks_port, t.control_port), (9050, 9051));
                let (h, p) = t.upstream_proxy.clone().unwrap();
                assert_eq!(h, "127.0.0.1");
                (Service::Tor, p)
            }
            LaunchStep::I2p(i) => {
                assert_eq!((i.http_proxy_port, i.socks_proxy_port), (4444, 4447));
                let (h, p) = i.upstream_proxy.clone().unwrap();
                assert_eq!(h, "127.0.0.1");
                (Service::I2p, p)
            }
        })
        .collect()
}

#[test]
fn plans_for_every_mode() {
    assert!(summary(Mode::SniOnly).is_empty());
    assert_eq!(summary(Mode::SniTor), vec![(Service::Tor, 10000)]);
    assert_eq!(summary(Mode::SniI2p), vec![(Service::I2p, 10000)]);
    assert_eq!(summary(Mode::SniTorI2p), vec![(Service::I2p, 10000), (Service::Tor, 4447)]);
    assert_eq!(summary(Mode::SniI2pTor), vec![(Service::Tor, 10000), (Service::I2p, 9050)]);
    assert_eq!(chain_plan(Mode::SniOnly).sni_listen_addr, "127.0.0.1:10000");
}

#[test]
fn each_hop_forwards_to_the_next() {
    for mode in [Mode::SniOnly, Mode::SniTor, Mode::SniI2p, Mode::SniTorI2p, Mode::SniI2pTor] {
        let hops = chain_hops(mode);
        let plan = summary(mode);
        for (j, svc) in hops.iter().enumerate() {
            let (launched, upstream) = plan[hops.len() - 1 - j];
            assert_eq!(launched, *svc);
            let expected = match hops.get(j + 1) {
                Some(Service::Tor) => TOR_SOCKS_PORT,
                Some(Service::I2p) => I2P_SOCKS_PORT,
                None => SNI_PROXY_PORT,
            };
            assert_eq!(upstream, expected);
        }
    }
}

#[test]
fn descriptions() {
    assert_eq!(chain_description(Mode::SniOnly), "Chain: APP -> SNI -> INTERNET");
    assert_eq!(chain_description(Mode::SniTor), "Chain: APP -> TOR -> SNI -> INTERNET");
    assert_eq!(chain_description(Mode::SniI2p), "Chain: APP -> I2P -> SNI -> INTERNET");
    assert_eq!(chain_description(Mode::SniTorI2p), "Chain: APP -> TOR -> I2P -> SNI -> INTERNET");
    assert_eq!(chain_description(Mode::SniI2pTor), "Chain: APP -> I2P -> TOR -> SNI -> INTERNET");
}

#[test]
fn stop_order_is_tor_then_i2p() {
    let mut running = RunningServices::new();
    running.record_started(Service::I2p);
    running.record_started(Service::Tor);
    assert_eq!(running.take_next_to_stop(), Some(Service::Tor));
    assert_eq!(running.take_next_to_stop(), Some(Service::I2p));
    assert_eq!(running.take_next_to_stop(), None);
    running.record_started(Service::I2p);
    assert_eq!(running.take_next_to_stop(), Some(Service::I2p));
    assert_eq!(running.take_next_to_stop(), None);
}
