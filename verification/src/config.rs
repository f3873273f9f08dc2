//! Chain modes, the daemon's shared settings and the persisted configuration.

use vstd::prelude::*;
use crate::text::{path_join, join_path};
use crate::chain::{hops, Service};

verus! {

/// Which anonymity networks sit between the applications and the SNI relay.
#[derive(Debug, Clone, Copy, PartialEq, Eq, Structural)]
pub enum Mode {
    /// Traffic goes straight to the SNI relay.
    SniOnly,
    /// Through Tor, then the SNI relay.
    SniTor,
    /// Through I2P, then the SNI relay.
    SniI2p,
    /// Through Tor, then I2P, then the SNI relay.
    SniTorI2p,
    /// Through I2P, then Tor, then the SNI relay.
    SniI2pTor,
}

/// The name of a mode, as its debug representation prints it.
pub open spec fn mode_name(m: Mode) -> Seq<char> {
    match m {
        Mode::SniOnly => "SniOnly"@,
        Mode::SniTor => "SniTor"@,
        Mode::SniI2p => "SniI2p"@,
        Mode::SniTorI2p => "SniTorI2p"@,
        Mode::SniI2pTor => "SniI2pTor"@,
    }
}

/// A hop's part of a mode's name.
pub open spec fn hop_name(s: Service) -> Seq<char> {
    match s {
        Service::Tor => "Tor"@,
        Service::I2p => "I2p"@,
    }
}

/// The hops' parts of a mode's name, in order.
pub open spec fn hop_names(h: Seq<Service>) -> Seq<char>
    decreases h.len(),
{
    if h.len() == 0 {
        Seq::empty()
    } else {
        hop_names(h.drop_last()) + hop_name(h.last())
    }
}

/// A mode's name spells its chain: `Sni` followed by the name of each hop
/// in the order traffic passes them (`SniOnly` when there is none).
pub proof fn lemma_mode_name_spells_hops(m: Mode)
    ensures
        mode_name(m) == (if hops(m).len() == 0 {
            "SniOnly"@
        } else {
            "Sni"@ + hop_names(hops(m))
        }),
{
    reveal_strlit("Sni");
    reveal_strlit("Tor");
    reveal_strlit("I2p");
    reveal_strlit("SniTor");
    reveal_strlit("SniI2p");
    reveal_strlit("SniTorI2p");
    reveal_strlit("SniI2pTor");
    let h = hops(m);
    match m {
        Mode::SniOnly => {},
        Mode::SniTor | Mode::SniI2p => {
            assert(h.drop_last() =~= Seq::<Service>::empty());
            assert(hop_names(h.drop_last()) == Seq::<char>::empty());
            assert(hop_names(h) =~= hop_name(h[0]));
            assert(mode_name(m) =~= "Sni"@ + hop_names(h));
        },
        _ => {
            let h1 = h.drop_last();
            assert(h1.drop_last() =~= Seq::<Service>::empty());
            assert(h1 =~= seq![h[0]]);
            assert(hop_names(h1.drop_last()) == Seq::<char>::empty());
            assert(hop_names(h1) =~= hop_name(h[0]));
            assert(hop_names(h) =~= hop_name(h[0]) + hop_name(h[1]));
            assert(mode_name(m) =~= "Sni"@ + hop_names(h));
        },
    }
}

/// Different modes have different names.
pub proof fn lemma_mode_names_distinct(m1: Mode, m2: Mode)
    ensures
        m1 != m2 ==> mode_name(m1) != mode_name(m2),
{
    reveal_strlit("SniOnly");
    reveal_strlit("SniTor");
    reveal_strlit("SniI2p");
    reveal_strlit("SniTorI2p");
    reveal_strlit("SniI2pTor");
    if m1 != m2 {
        let a = mode_name(m1);
        let b = mode_name(m2);
        if a.len() == b.len() {
            assert(a[3] != b[3] || a[6] != b[6]);
        }
    }
}

impl Mode {
    /// The mode's name (`SniOnly`, `SniTor`, ...).
    pub fn name(&self) -> (r: String)
        ensures
            r@ == mode_name(*self),
    {
        match self {
            Mode::SniOnly => String::from_str("SniOnly"),
            Mode::SniTor => String::from_str("SniTor"),
            Mode::SniI2p => String::from_str("SniI2p"),
            Mode::SniTorI2p => String::from_str("SniTorI2p"),
            Mode::SniI2pTor => String::from_str("SniI2pTor"),
        }
    }
}

/// The SNI domain the daemon and the user interface start with.
pub open spec fn default_sni_domain() -> Seq<char> {
    "fronting.cdn.com"@
}

/// The relay address the daemon and the user interface start with.
pub open spec fn default_target_relay() -> Seq<char> {
    "1.2.3.4:443"@
}

/// The settings the daemon's components read when they start.
pub struct AppState {
    pub mode: Mode,
    pub sni_domain: String,
    pub target_relay: String,
    pub running: bool,
}

impl Default for AppState {
    /// Tor chaining, the default fronting domain and relay, not running.
    fn default() -> (r: Self)
        ensures
            r.mode == Mode::SniTor,
            r.sni_domain@ == default_sni_domain(),
            r.target_relay@ == default_target_relay(),
            !r.running,
    {
        AppState {
            mode: Mode::SniTor,
            sni_domain: String::from_str("fronting.cdn.com"),
            target_relay: String::from_str("1.2.3.4:443"),
            running: false,
        }
    }
}

/// The persisted configuration.
pub struct IIIConfig {
    pub sni_domain: String,
    /// "tor", "i2p" or "both".
    pub mode: String,
    /// "i2p_then_tor" or "tor_then_i2p".
    pub order: String,
    pub killswitch_enabled: bool,
    pub dns_through_tunnel: bool,
    pub data_dir: String,
}

/// The directory that holds the platform's per-user local data, as text.
///
/// Trusted: calls `dirs::data_local_dir`. What it returns depends on the
/// platform and the environment (`$XDG_DATA_HOME` or `$HOME` on Linux), so no
/// clause is stated; a path that is not valid UTF-8 is converted lossily.
#[verifier::external_body]
fn local_data_dir() -> Option<String> {
    dirs::data_local_dir().map(|p| p.to_string_lossy().into_owned())
}

/// The default configuration's fields other than the data directory.
pub open spec fn has_default_settings(c: IIIConfig) -> bool {
    &&& c.sni_domain@ == default_sni_domain()
    &&& c.mode@ == "tor"@
    &&& c.order@ == "i2p_then_tor"@
    &&& c.killswitch_enabled
    &&& c.dns_through_tunnel
}

/// Where the data directory lies below the local data root (the current
/// directory when there is none).
pub open spec fn data_dir_under(root: Option<Seq<char>>) -> Seq<char> {
    match root {
        Some(r) => path_join(r, "iii"@),
        None => path_join("."@, "iii"@),
    }
}

/// The text an optional string holds.
pub open spec fn text_view(o: Option<String>) -> Option<Seq<char>> {
    match o {
        Some(s) => Some(s@),
        None => None,
    }
}

impl IIIConfig {
    /// The default configuration, with its data directory `iii` below `root`
    /// (the platform's local data directory, or the current directory).
    pub fn with_data_root(root: Option<String>) -> (r: IIIConfig)
        ensures
            has_default_settings(r),
            r.data_dir@ == data_dir_under(text_view(root)),
    {
        let data_dir = match &root {
            Some(base) => join_path(base.as_str(), "iii"),
            None => join_path(".", "iii"),
        };
        IIIConfig {
            sni_domain: String::from_str("fronting.cdn.com"),
            mode: String::from_str("tor"),
            order: String::from_str("i2p_then_tor"),
            killswitch_enabled: true,
            dns_through_tunnel: true,
            data_dir,
        }
    }
}

impl Default for IIIConfig {
    /// The default configuration below the platform's local data directory.
    fn default() -> (r: Self)
        ensures
            has_default_settings(r),
            exists|root: Option<Seq<char>>| r.data_dir@ == data_dir_under(root),
    {
        let root = local_data_dir();
        let ghost g = text_view(root);
        let r = IIIConfig::with_data_root(root);
        assert(r.data_dir@ == data_dir_under(g));
        r
    }
}

} // verus!
