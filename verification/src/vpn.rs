//! The VPN side: the kill switch that blocks every route but the relay, the
//! TUN interface's settings and the packet router's decisions.

use vstd::prelude::*;
use crate::error::IIIError;
use crate::ipv4::{ipv4_octets, octets_to_u32, parse_ipv4, ipv4_to_u32};

verus! {

/// The part of `s` before its first `:` (all of `s` when it has none).
pub open spec fn before_colon(s: Seq<char>) -> Seq<char>
    decreases s.len(),
{
    if s.len() == 0 {
        s
    } else if s[0] == ':' {
        Seq::empty()
    } else {
        seq![s[0]] + before_colon(s.drop_first())
    }
}

/// The host of a `host:port` relay address: the text before the first `:`.
pub fn relay_host(target_relay: &str) -> (r: String)
    ensures
        r@ == before_colon(target_relay@),
{
    let n = target_relay.unicode_len();
    let mut i: usize = 0;
    assert(target_relay@.skip(0) =~= target_relay@);
    assert(target_relay@.take(0) + before_colon(target_relay@.skip(0)) =~= before_colon(
        target_relay@,
    ));
    while i < n
        invariant
            n == target_relay@.len(),
            i <= n,
            before_colon(target_relay@) == target_relay@.take(i as int) + before_colon(
                target_relay@.skip(i as int),
            ),
        decreases n - i,
    {
        if target_relay.get_char(i) == ':' {
            assert(before_colon(target_relay@.skip(i as int)) =~= Seq::<char>::empty());
            assert(target_relay@.take(i as int) + Seq::<char>::empty() =~= target_relay@.take(
                i as int,
            ));
            return String::from_str(target_relay.substring_char(0, i));
        }
        let ghost rest = target_relay@.skip(i as int);
        assert(rest.drop_first() =~= target_relay@.skip(i + 1));
        assert(target_relay@.take(i + 1) =~= target_relay@.take(i as int) + seq![rest[0]]);
        i = i + 1;
    }
    assert(target_relay@.skip(i as int) =~= Seq::<char>::empty());
    assert(target_relay@.take(i as int) =~= target_relay@);
    String::from_str(target_relay)
}

/// The name of the TUN interface the VPN creates.
pub open spec fn tun_name_text() -> Seq<char> {
    "iii0"@
}

/// The name of the TUN interface the VPN creates.
pub fn tun_name() -> (r: String)
    ensures
        r@ == tun_name_text(),
{
    String::from_str("iii0")
}

/// The shell commands that install the fail-closed nftables kill switch: a
/// table and an output chain that drops by default, with exceptions for the
/// loopback interface, the relay's address and the TUN interface.
pub open spec fn nft_rules(relay_ip: Seq<char>) -> Seq<Seq<char>> {
    seq![
        "nft add table inet iii_killswitch"@,
        "nft flush table inet iii_killswitch"@,
        "nft add chain inet iii_killswitch base_chain { type filter hook output priority 0; policy drop; }"@,
        "nft add rule inet iii_killswitch base_chain oifname \"lo\" accept"@,
        "nft add rule inet iii_killswitch base_chain ip daddr "@ + relay_ip + " accept"@,
        "nft add rule inet iii_killswitch base_chain oifname \""@ + tun_name_text() + "\" accept"@,
    ]
}

/// The arguments of the `nft` command that removes the kill switch.
pub open spec fn nft_teardown_args() -> Seq<Seq<char>> {
    seq!["delete"@, "table"@, "inet"@, "iii_killswitch"@]
}

/// The message of an installing command that did not succeed.
pub open spec fn failed_command_message(command: Seq<char>) -> Seq<char> {
    "Command failed: "@ + command
}

/// The loopback address the Windows kill switch always permits (127.0.0.1).
pub const LOOPBACK_FILTER_ADDRESS: u32 = 0x7F00_0001;

/// The kill switch, which lets traffic out only through the tunnel and to the
/// relay.
pub struct KillSwitch {
    target_relay_ip: String,
}

/// The text of a list of strings.
pub open spec fn string_texts(v: Seq<String>) -> Seq<Seq<char>> {
    v.map_values(|s: String| s@)
}

impl KillSwitch {
    /// A kill switch for the relay at `target_relay_ip`.
    pub fn new(target_relay_ip: String) -> (r: Self)
        ensures
            r.relay_ip() == target_relay_ip@,
    {
        KillSwitch { target_relay_ip }
    }

    /// The relay address the kill switch lets traffic through to.
    pub closed spec fn relay_ip(&self) -> Seq<char> {
        self.target_relay_ip@
    }

    /// The shell commands that install the kill switch on Linux, in order.
    pub fn nft_commands(&self) -> (r: Vec<String>)
        ensures
            string_texts(r@) == nft_rules(self.relay_ip()),
    {
        let mut r = Vec::new();
        r.push(String::from_str("nft add table inet iii_killswitch"));
        r.push(String::from_str("nft flush table inet iii_killswitch"));
        r.push(
            String::from_str(
                "nft add chain inet iii_killswitch base_chain { type filter hook output priority 0; policy drop; }",
            ),
        );
        r.push(String::from_str("nft add rule inet iii_killswitch base_chain oifname \"lo\" accept"));
        let mut relay = String::from_str("nft add rule inet iii_killswitch base_chain ip daddr ");
        relay.append(self.target_relay_ip.as_str());
        relay.append(" accept");
        r.push(relay);
        let mut tun = String::from_str("nft add rule inet iii_killswitch base_chain oifname \"");
        let name = tun_name();
        tun.append(name.as_str());
        tun.append("\" accept");
        r.push(tun);
        assert(string_texts(r@) =~= nft_rules(self.relay_ip()));
        r
    }

    /// What the exit status of one installing command means for the kill
    /// switch. It fails closed: a command that did not succeed makes enabling
    /// fail with `KillSwitchFailed`, naming the command, and the commands
    /// after it are not run.
    pub fn command_outcome(command: &str, succeeded: bool) -> (r: Result<(), IIIError>)
        ensures
            r is Ok <==> succeeded,
            r matches Err(e) ==> e matches IIIError::KillSwitchFailed(m) && m@
                == failed_command_message(command@),
    {
        if succeeded {
            Ok(())
        } else {
            Err(IIIError::KillSwitchFailed(String::from_str("Command failed: ").concat(command)))
        }
    }

    /// The arguments of the `nft` command that removes the kill switch.
    pub fn nft_teardown() -> (r: Vec<String>)
        ensures
            string_texts(r@) == nft_teardown_args(),
    {
        let mut r = Vec::new();
        r.push(String::from_str("delete"));
        r.push(String::from_str("table"));
        r.push(String::from_str("inet"));
        r.push(String::from_str("iii_killswitch"));
        assert(string_texts(r@) =~= nft_teardown_args());
        r
    }

    /// The remote address the Windows kill switch permits for the relay, as
    /// a 32-bit number; `None` when the relay is not given as an IPv4
    /// address, in which case no relay filter is added.
    pub fn relay_filter_address(&self) -> (r: Option<u32>)
        ensures
            match ipv4_octets(self.relay_ip()) {
                Some(o) => r == Some(octets_to_u32(o) as u32),
                None => r is None,
            },
    {
        match parse_ipv4(self.target_relay_ip.as_str()) {
            Some(a) => Some(ipv4_to_u32(a)),
            None => None,
        }
    }
}

/// The platform whose TUN driver is used.
#[derive(Debug, Clone, Copy, PartialEq, Eq, Structural)]
pub enum Platform {
    Linux,
    Windows,
}

/// The settings of a TUN interface.
pub struct TunSettings {
    pub name: String,
    pub address: [u8; 4],
    pub netmask: [u8; 4],
}

/// A TUN interface, by the driver that provides it.
pub enum TunDevice {
    Linux(TunSettings),
    Windows(TunSettings),
}

/// Creates TUN interfaces.
pub struct TunInterface;

/// The message for an address that is not dotted-decimal IPv4.
pub open spec fn bad_address_message() -> Seq<char> {
    "invalid IPv4 address syntax"@
}

impl TunInterface {
    /// The settings of a TUN interface named `name` with the given address
    /// and netmask (both dotted-decimal IPv4), brought up on `platform`; a
    /// `Vpn` error when either is not an IPv4 address.
    pub fn create(name: &str, address: &str, netmask: &str, platform: Platform) -> (r: Result<
        TunDevice,
        IIIError,
    >)
        ensures
            r is Ok <==> ipv4_octets(address@) is Some && ipv4_octets(netmask@) is Some,
            r matches Err(e) ==> e matches IIIError::Vpn(m) && m@ == bad_address_message(),
            r matches Ok(d) ==> match d {
                TunDevice::Linux(s) => platform == Platform::Linux && s.name@ == name@ && Some(
                    s.address@,
                ) == ipv4_octets(address@) && Some(s.netmask@) == ipv4_octets(netmask@),
                TunDevice::Windows(s) => platform == Platform::Windows && s.name@ == name@
                    && Some(s.address@) == ipv4_octets(address@) && Some(s.netmask@)
                    == ipv4_octets(netmask@),
            },
    {
        let addr = match parse_ipv4(address) {
            Some(a) => a,
            None => {
                return Err(IIIError::Vpn(String::from_str("invalid IPv4 address syntax")));
            },
        };
        let mask = match parse_ipv4(netmask) {
            Some(m) => m,
            None => {
                return Err(IIIError::Vpn(String::from_str("invalid IPv4 address syntax")));
            },
        };
        let settings = TunSettings { name: String::from_str(name), address: addr, netmask: mask };
        match platform {
            Platform::Linux => Ok(TunDevice::Linux(settings)),
            Platform::Windows => Ok(TunDevice::Windows(settings)),
        }
    }
}

/// What the router does with the result of one read from the TUN interface.
#[derive(Debug, Clone, Copy, PartialEq, Eq, Structural)]
pub enum RouterStep {
    /// The interface is closed: the router stops.
    Stop,
    /// A packet of this many bytes was read.
    Packet(usize),
}

/// The size of the buffer packets are read into.
pub const PACKET_BUFFER_LEN: usize = 1600;

/// Moves packets between the TUN interface and the upstream chain.
pub struct Router {
    tun: TunDevice,
}

impl Router {
    /// A router for the given interface, which it keeps as it is.
    pub fn new(tun: TunDevice) -> (r: Self)
        ensures
            r.tun_spec() == tun,
    {
        Router { tun }
    }

    /// The interface the router reads from.
    pub closed spec fn tun_spec(&self) -> TunDevice {
        self.tun
    }

    /// The router reads through the Linux driver.
    pub open spec fn is_linux(&self) -> bool {
        self.tun_spec() is Linux
    }

    /// What to do after a read of `n` bytes: on Linux a read of nothing means
    /// the interface is closed; every other read is a packet.
    pub fn on_read(&self, n: usize) -> (r: RouterStep)
        ensures
            r == (if self.is_linux() && n == 0 {
                RouterStep::Stop
            } else {
                RouterStep::Packet(n)
            }),
    {
        match &self.tun {
            TunDevice::Linux(_) => {
                if n == 0 {
                    RouterStep::Stop
                } else {
                    RouterStep::Packet(n)
                }
            },
            TunDevice::Windows(_) => RouterStep::Packet(n),
        }
    }
}

} // verus!
