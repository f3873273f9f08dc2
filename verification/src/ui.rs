//! What the control window shows and how it reacts, apart from drawing.

use vstd::prelude::*;
use crate::config::{Mode, mode_name, default_sni_domain, default_target_relay};
use crate::chain::{hops, Service};

verus! {

/// The label of a mode in the chain-mode selector.
pub open spec fn mode_label(m: Mode) -> Seq<char> {
    match m {
        Mode::SniOnly => "SNI Only"@,
        Mode::SniTor => "SNI + Tor"@,
        Mode::SniI2p => "SNI + I2P"@,
        Mode::SniTorI2p => "SNI + Tor + I2P"@,
        Mode::SniI2pTor => "SNI + I2P + Tor"@,
    }
}

/// The modes the selector offers, in order.
pub open spec fn selectable_modes() -> Seq<Mode> {
    seq![Mode::SniOnly, Mode::SniTor, Mode::SniI2p, Mode::SniTorI2p, Mode::SniI2pTor]
}

/// A hop's part of a selector label.
pub open spec fn hop_label_part(s: Service) -> Seq<char> {
    match s {
        Service::Tor => " + Tor"@,
        Service::I2p => " + I2P"@,
    }
}

/// The hops' parts of a selector label, in order.
pub open spec fn hop_label_parts(h: Seq<Service>) -> Seq<char>
    decreases h.len(),
{
    if h.len() == 0 {
        Seq::empty()
    } else {
        hop_label_parts(h.drop_last()) + hop_label_part(h.last())
    }
}

/// Each selector label names its mode's chain: `SNI` followed by
/// ` + Tor` or ` + I2P` for each hop in the order traffic passes them
/// (`SNI Only` when there is none).
pub proof fn lemma_mode_label_names_hops(m: Mode)
    ensures
        mode_label(m) == (if hops(m).len() == 0 {
            "SNI Only"@
        } else {
            "SNI"@ + hop_label_parts(hops(m))
        }),
{
    reveal_strlit("SNI");
    reveal_strlit(" + Tor");
    reveal_strlit(" + I2P");
    reveal_strlit("SNI + Tor");
    reveal_strlit("SNI + I2P");
    reveal_strlit("SNI + Tor + I2P");
    reveal_strlit("SNI + I2P + Tor");
    let h = hops(m);
    match m {
        Mode::SniOnly => {},
        Mode::SniTor | Mode::SniI2p => {
            assert(h.drop_last() =~= Seq::<Service>::empty());
            assert(hop_label_parts(h.drop_last()) == Seq::<char>::empty());
            assert(hop_label_parts(h) =~= hop_label_part(h[0]));
            assert(mode_label(m) =~= "SNI"@ + hop_label_parts(h));
        },
        _ => {
            let h1 = h.drop_last();
            assert(h1.drop_last() =~= Seq::<Service>::empty());
            assert(h1 =~= seq![h[0]]);
            assert(hop_label_parts(h1.drop_last()) == Seq::<char>::empty());
            assert(hop_label_parts(h1) =~= hop_label_part(h[0]));
            assert(hop_label_parts(h) =~= hop_label_part(h[0]) + hop_label_part(h[1]));
            assert(mode_label(m) =~= "SNI"@ + hop_label_parts(h));
        },
    }
}

/// The selector offers every mode exactly once.
pub proof fn lemma_selector_offers_each_mode(m: Mode)
    ensures
        selectable_modes().len() == 5,
        selectable_modes().contains(m),
        forall|i: int, j: int|
            0 <= i < j < 5 ==> selectable_modes()[i] != selectable_modes()[j],
{
    let s = selectable_modes();
    match m {
        Mode::SniOnly => assert(s[0] == m),
        Mode::SniTor => assert(s[1] == m),
        Mode::SniI2p => assert(s[2] == m),
        Mode::SniTorI2p => assert(s[3] == m),
        Mode::SniI2pTor => assert(s[4] == m),
    }
}

/// The text of the connect button.
pub open spec fn button_text_for(connected: bool) -> Seq<char> {
    if connected {
        "TERMINATE CONNECTION"@
    } else {
        "ESTABLISH SECURE TUNNEL"@
    }
}

/// The status line.
pub open spec fn status_text_for(connected: bool) -> Seq<char> {
    if connected {
        "● ENCRYPTED CHAIN ACTIVE"@
    } else {
        "○ IDLE"@
    }
}

/// The routing line shown while connected.
pub open spec fn routing_text_for(m: Mode) -> Seq<char> {
    "Routing: App -> TUN -> "@ + mode_name(m) + " -> Relay"@
}

/// The state of the control window.
pub struct MyApp {
    pub sni_domain: String,
    pub target_relay: String,
    pub mode: Mode,
    pub connected: bool,
}

impl Default for MyApp {
    /// The default domain and relay, Tor chaining, disconnected.
    fn default() -> (r: Self)
        ensures
            r.sni_domain@ == default_sni_domain(),
            r.target_relay@ == default_target_relay(),
            r.mode == Mode::SniTor,
            !r.connected,
    {
        MyApp {
            sni_domain: String::from_str("fronting.cdn.com"),
            target_relay: String::from_str("1.2.3.4:443"),
            mode: Mode::SniTor,
            connected: false,
        }
    }
}

impl MyApp {
    /// The connect button was clicked: connect when disconnected and the
    /// other way round.
    pub fn toggle_connection(&mut self)
        ensures
            final(self).connected == !old(self).connected,
            final(self).mode == old(self).mode,
            final(self).sni_domain == old(self).sni_domain,
            final(self).target_relay == old(self).target_relay,
    {
        self.connected = !self.connected;
    }

    /// The text of the connect button.
    pub fn button_text(&self) -> (r: String)
        ensures
            r@ == button_text_for(self.connected),
    {
        if self.connected {
            String::from_str("TERMINATE CONNECTION")
        } else {
            String::from_str("ESTABLISH SECURE TUNNEL")
        }
    }

    /// The colour of the connect button: red while connected, green otherwise.
    pub fn button_color(&self) -> (r: (u8, u8, u8))
        ensures
            r == (if self.connected {
                (200u8, 0u8, 0u8)
            } else {
                (0u8, 150u8, 0u8)
            }),
    {
        if self.connected {
            (200, 0, 0)
        } else {
            (0, 150, 0)
        }
    }

    /// The status line.
    pub fn status_text(&self) -> (r: String)
        ensures
            r@ == status_text_for(self.connected),
    {
        if self.connected {
            String::from_str("● ENCRYPTED CHAIN ACTIVE")
        } else {
            String::from_str("○ IDLE")
        }
    }

    /// The routing line, shown only while connected.
    pub fn routing_text(&self) -> (r: Option<String>)
        ensures
            match r {
                Some(t) => self.connected && t@ == routing_text_for(self.mode),
                None => !self.connected,
            },
    {
        if self.connected {
            let mut t = String::from_str("Routing: App -> TUN -> ");
            let name = self.mode.name();
            t.append(name.as_str());
            t.append(" -> Relay");
            Some(t)
        } else {
            None
        }
    }
}

/// The modes the selector offers, with their labels, in order.
pub fn mode_choices() -> (r: Vec<(Mode, String)>)
    ensures
        r@.len() == 5,
        forall|i: int|
            0 <= i < 5 ==> (#[trigger] r@[i]).0 == selectable_modes()[i] && r@[i].1@ == mode_label(
                selectable_modes()[i],
            ),
{
    let mut r = Vec::new();
    r.push((Mode::SniOnly, String::from_str("SNI Only")));
    r.push((Mode::SniTor, String::from_str("SNI + Tor")));
    r.push((Mode::SniI2p, String::from_str("SNI + I2P")));
    r.push((Mode::SniTorI2p, String::from_str("SNI + Tor + I2P")));
    r.push((Mode::SniI2pTor, String::from_str("SNI + I2P + Tor")));
    r
}

} // verus!
