//! Which services the daemon starts for a chain mode, in what order, and how
//! each one is pointed at the next hop towards the Internet.
//!
//! Traffic enters the first hop and leaves through the SNI proxy on
//! `127.0.0.1:10000`; every hop forwards to the SOCKS port of the hop after
//! it. Services are launched from the Internet side inwards, so that each one
//! finds its upstream already listening.

use vstd::prelude::*;
use crate::config::Mode;

verus! {

/// The loopback host every local service listens on.
pub open spec fn loopback() -> Seq<char> {
    "127.0.0.1"@
}

/// Port of the local SNI proxy.
pub const SNI_PROXY_PORT: u16 = 10000;
/// SOCKS port of the Tor client.
pub const TOR_SOCKS_PORT: u16 = 9050;
/// Control port of the Tor client.
pub const TOR_CONTROL_PORT: u16 = 9051;
/// HTTP proxy port of the I2P router.
pub const I2P_HTTP_PROXY_PORT: u16 = 4444;
/// SOCKS port of the I2P router.
pub const I2P_SOCKS_PORT: u16 = 4447;

/// An anonymity network the chain can pass through.
#[derive(Debug, Clone, Copy, PartialEq, Eq, Structural)]
pub enum Service {
    Tor,
    I2p,
}

/// The SOCKS port on which a service accepts traffic from the hop before it.
pub open spec fn socks_port(s: Service) -> u16 {
    match s {
        Service::Tor => TOR_SOCKS_PORT,
        Service::I2p => I2P_SOCKS_PORT,
    }
}

/// The hops of a mode, from the applications' side towards the Internet
/// (the SNI proxy, always last, is not listed).
pub open spec fn hops(m: Mode) -> Seq<Service> {
    match m {
        Mode::SniOnly => seq![],
        Mode::SniTor => seq![Service::Tor],
        Mode::SniI2p => seq![Service::I2p],
        Mode::SniTorI2p => seq![Service::Tor, Service::I2p],
        Mode::SniI2pTor => seq![Service::I2p, Service::Tor],
    }
}

/// The order in which a mode's services are launched.
pub open spec fn launch_order(m: Mode) -> Seq<Service> {
    hops(m).reverse()
}

/// The port the `i`-th launched service forwards to: the SNI proxy for the
/// first, the SOCKS port of the one launched just before it otherwise.
pub open spec fn upstream_port_at(order: Seq<Service>, i: int) -> u16 {
    if i == 0 {
        SNI_PROXY_PORT
    } else {
        socks_port(order[i - 1])
    }
}

/// How to start Tor.
pub struct TorLaunch {
    pub socks_port: u16,
    pub control_port: u16,
    pub upstream_proxy: Option<(String, u16)>,
}

/// How to start the I2P router.
pub struct I2pLaunch {
    pub http_proxy_port: u16,
    pub socks_proxy_port: u16,
    pub upstream_proxy: Option<(String, u16)>,
}

/// One service start of a chain.
pub enum LaunchStep {
    Tor(TorLaunch),
    I2p(I2pLaunch),
}

/// The service a step starts.
pub open spec fn step_service(s: LaunchStep) -> Service {
    match s {
        LaunchStep::Tor(_) => Service::Tor,
        LaunchStep::I2p(_) => Service::I2p,
    }
}

/// The upstream proxy a step configures.
pub open spec fn step_upstream(s: LaunchStep) -> Option<(String, u16)> {
    match s {
        LaunchStep::Tor(t) => t.upstream_proxy,
        LaunchStep::I2p(i) => i.upstream_proxy,
    }
}

/// The step starts its service on the fixed ports and forwards to
/// `127.0.0.1:port`.
pub open spec fn step_is(s: LaunchStep, svc: Service, port: u16) -> bool {
    &&& step_service(s) == svc
    &&& match s {
        LaunchStep::Tor(t) => t.socks_port == TOR_SOCKS_PORT && t.control_port
            == TOR_CONTROL_PORT,
        LaunchStep::I2p(i) => i.http_proxy_port == I2P_HTTP_PROXY_PORT && i.socks_proxy_port
            == I2P_SOCKS_PORT,
    }
    &&& match step_upstream(s) {
        Some((host, p)) => host@ == loopback() && p == port,
        None => false,
    }
}

/// What the daemon starts for a chain: the SNI proxy (always, first) and the
/// service steps in launch order.
pub struct ChainPlan {
    pub sni_listen_addr: String,
    pub steps: Vec<LaunchStep>,
}

/// The plan is the one for mode `m`.
pub open spec fn is_plan_for(p: ChainPlan, m: Mode) -> bool {
    &&& p.sni_listen_addr@ == "127.0.0.1:10000"@
    &&& p.steps@.len() == launch_order(m).len()
    &&& forall|i: int|
        0 <= i < p.steps@.len() ==> step_is(
            #[trigger] p.steps@[i],
            launch_order(m)[i],
            upstream_port_at(launch_order(m), i),
        )
}

fn loopback_proxy(port: u16) -> (r: Option<(String, u16)>)
    ensures
        r matches Some((h, p)) && h@ == loopback() && p == port,
{
    Some((String::from_str("127.0.0.1"), port))
}

fn tor_step(upstream: u16) -> (r: LaunchStep)
    ensures
        step_is(r, Service::Tor, upstream),
{
    LaunchStep::Tor(
        TorLaunch {
            socks_port: TOR_SOCKS_PORT,
            control_port: TOR_CONTROL_PORT,
            upstream_proxy: loopback_proxy(upstream),
        },
    )
}

fn i2p_step(upstream: u16) -> (r: LaunchStep)
    ensures
        step_is(r, Service::I2p, upstream),
{
    LaunchStep::I2p(
        I2pLaunch {
            http_proxy_port: I2P_HTTP_PROXY_PORT,
            socks_proxy_port: I2P_SOCKS_PORT,
            upstream_proxy: loopback_proxy(upstream),
        },
    )
}

/// The services to start for `mode`, in order, with their ports and the
/// upstream each forwards to.
pub fn chain_plan(mode: Mode) -> (r: ChainPlan)
    ensures
        is_plan_for(r, mode),
{
    let mut steps: Vec<LaunchStep> = Vec::new();
    match mode {
        Mode::SniOnly => {},
        Mode::SniTor => {
            steps.push(tor_step(SNI_PROXY_PORT));
        },
        Mode::SniI2p => {
            steps.push(i2p_step(SNI_PROXY_PORT));
        },
        Mode::SniTorI2p => {
            steps.push(i2p_step(SNI_PROXY_PORT));
            steps.push(tor_step(I2P_SOCKS_PORT));
        },
        Mode::SniI2pTor => {
            steps.push(tor_step(SNI_PROXY_PORT));
            steps.push(i2p_step(TOR_SOCKS_PORT));
        },
    }
    let ghost order = launch_order(mode);
    assert(order =~= hops(mode).reverse());
    assert(mode == Mode::SniTorI2p ==> order =~= seq![Service::I2p, Service::Tor]);
    assert(mode == Mode::SniI2pTor ==> order =~= seq![Service::Tor, Service::I2p]);
    assert(mode == Mode::SniTor ==> order =~= seq![Service::Tor]);
    assert(mode == Mode::SniI2p ==> order =~= seq![Service::I2p]);
    assert(mode == Mode::SniOnly ==> order =~= Seq::<Service>::empty());
    ChainPlan { sni_listen_addr: String::from_str("127.0.0.1:10000"), steps }
}

/// Every hop of a chain forwards to the next hop towards the Internet, and
/// the last hop to the SNI proxy: in the plan, the service at hop `j` is
/// started with the SOCKS port of hop `j + 1` (or the SNI proxy's port) as
/// its upstream. No service occurs twice in a chain.
pub proof fn lemma_chain_wiring(m: Mode, p: ChainPlan, j: int)
    requires
        is_plan_for(p, m),
        0 <= j < hops(m).len(),
    ensures
        ({
            let k = hops(m).len();
            step_is(
                p.steps@[k - 1 - j],
                hops(m)[j],
                if j + 1 < k {
                    socks_port(hops(m)[j + 1])
                } else {
                    SNI_PROXY_PORT
                },
            )
        }),
        forall|a: int, b: int|
            0 <= a < b < hops(m).len() ==> hops(m)[a] != hops(m)[b],
{
    let k = hops(m).len() as int;
    let order = launch_order(m);
    assert(order[k - 1 - j] == hops(m)[j]);
    if j + 1 < k {
        assert(order[k - 2 - j] == hops(m)[j + 1]);
    }
    assert(step_is(p.steps@[k - 1 - j], order[k - 1 - j], upstream_port_at(order, k - 1 - j)));
}

/// The text of one hop in a chain description.
pub open spec fn hop_label(s: Service) -> Seq<char> {
    match s {
        Service::Tor => "TOR -> "@,
        Service::I2p => "I2P -> "@,
    }
}

/// The hops' labels, in order.
pub open spec fn hop_path(h: Seq<Service>) -> Seq<char>
    decreases h.len(),
{
    if h.len() == 0 {
        Seq::empty()
    } else {
        hop_path(h.drop_last()) + hop_label(h.last())
    }
}

/// How the daemon reports a mode's chain, applications first.
pub open spec fn chain_text(m: Mode) -> Seq<char> {
    "Chain: APP -> "@ + hop_path(hops(m)) + "SNI -> INTERNET"@
}

/// The hops of a mode, from the applications' side towards the Internet.
pub fn chain_hops(mode: Mode) -> (r: Vec<Service>)
    ensures
        r@ == hops(mode),
{
    let mut r = Vec::new();
    match mode {
        Mode::SniOnly => {},
        Mode::SniTor => {
            r.push(Service::Tor);
        },
        Mode::SniI2p => {
            r.push(Service::I2p);
        },
        Mode::SniTorI2p => {
            r.push(Service::Tor);
            r.push(Service::I2p);
        },
        Mode::SniI2pTor => {
            r.push(Service::I2p);
            r.push(Service::Tor);
        },
    }
    assert(r@ =~= hops(mode));
    r
}

/// The line that reports a mode's chain, e.g. `Chain: APP -> TOR -> SNI -> INTERNET`.
pub fn chain_description(mode: Mode) -> (r: String)
    ensures
        r@ == chain_text(mode),
{
    let h = chain_hops(mode);
    let mut r = String::from_str("Chain: APP -> ");
    let mut i: usize = 0;
    while i < h.len()
        invariant
            i <= h@.len(),
            h@ == hops(mode),
            r@ == "Chain: APP -> "@ + hop_path(h@.take(i as int)),
        decreases h@.len() - i,
    {
        assert(h@.take(i + 1).drop_last() =~= h@.take(i as int));
        match h[i] {
            Service::Tor => r.append("TOR -> "),
            Service::I2p => r.append("I2P -> "),
        }
        i = i + 1;
        assert(r@ =~= "Chain: APP -> "@ + hop_path(h@.take(i as int)));
    }
    assert(h@.take(i as int) =~= h@);
    r.append("SNI -> INTERNET");
    r
}

/// Which of the chain's services are running (and must be stopped).
pub struct RunningServices {
    pub tor: bool,
    pub i2p: bool,
}

impl RunningServices {
    /// Nothing started yet.
    pub fn new() -> (r: Self)
        ensures
            !r.tor && !r.i2p,
    {
        RunningServices { tor: false, i2p: false }
    }

    /// Records that `svc` has started.
    pub fn record_started(&mut self, svc: Service)
        ensures
            final(self).tor == (old(self).tor || svc == Service::Tor),
            final(self).i2p == (old(self).i2p || svc == Service::I2p),
    {
        match svc {
            Service::Tor => self.tor = true,
            Service::I2p => self.i2p = true,
        }
    }

    /// The next running service to stop, Tor before I2P, which is then
    /// forgotten; `None` when nothing runs. A service not yet handed out stays
    /// recorded, so a stop that fails half-way leaves the rest to a later one.
    pub fn take_next_to_stop(&mut self) -> (r: Option<Service>)
        ensures
            r == (if old(self).tor {
                Some(Service::Tor)
            } else if old(self).i2p {
                Some(Service::I2p)
            } else {
                None
            }),
            final(self).tor == false,
            final(self).i2p == (old(self).i2p && old(self).tor),
    {
        if self.tor {
            self.tor = false;
            Some(Service::Tor)
        } else if self.i2p {
            self.i2p = false;
            Some(Service::I2p)
        } else {
            None
        }
    }
}

} // verus!
