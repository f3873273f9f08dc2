//! Bookkeeping for the Tor client process: when it may be started, the torrc
//! it is started with, and which binary runs it.

use vstd::prelude::*;
use crate::error::IIIError;
use crate::text::{decimal, path_join, join_path, push_decimal};

verus! {

/// The torrc that configures Tor's ports, data directory and (optionally) the
/// SOCKS5 proxy it must reach the network through.
pub open spec fn torrc_text(
    data_dir: Seq<char>,
    socks_port: u16,
    control_port: u16,
    upstream: Option<(Seq<char>, u16)>,
) -> Seq<char> {
    "SocksPort "@ + decimal(socks_port as nat) + "\n"@ + "ControlPort "@ + decimal(
        control_port as nat,
    ) + "\n"@ + "DataDirectory "@ + data_dir + "\n"@ + match upstream {
        Some((host, port)) => "Socks5Proxy "@ + host + ":"@ + decimal(port as nat) + "\n"@,
        None => Seq::empty(),
    }
}

/// The text an optional upstream proxy holds.
pub open spec fn upstream_view(u: Option<(String, u16)>) -> Option<(Seq<char>, u16)> {
    match u {
        Some((h, p)) => Some((h@, p)),
        None => None,
    }
}

/// What starting Tor takes: where to write which torrc.
pub struct TorStart {
    pub torrc_path: String,
    pub torrc: String,
}

/// A Tor client with its ports and data directory, and whether its process
/// is running.
pub struct TorInner {
    data_dir: String,
    socks_port: u16,
    control_port: u16,
    running: bool,
}

/// The abstract state of a Tor client.
pub struct TorView {
    pub data_dir: Seq<char>,
    pub socks_port: u16,
    pub control_port: u16,
    pub running: bool,
}

impl View for TorInner {
    type V = TorView;

    closed spec fn view(&self) -> TorView {
        TorView {
            data_dir: self.data_dir@,
            socks_port: self.socks_port,
            control_port: self.control_port,
            running: self.running,
        }
    }
}

/// Starting is refused while the process runs.
pub open spec fn start_refused(v: TorView) -> bool {
    v.running
}

/// The state once the process has been spawned.
pub open spec fn after_started(v: TorView) -> TorView {
    TorView { running: true, ..v }
}

/// The state once the process has been stopped.
pub open spec fn after_stop(v: TorView) -> TorView {
    TorView { running: false, ..v }
}

/// A Tor client that has been started refuses a second start, and once
/// stopped it may be started again, with the same ports and directory.
pub proof fn lemma_tor_restart(v: TorView)
    ensures
        start_refused(after_started(v)),
        !start_refused(after_stop(after_started(v))),
        after_stop(after_started(v)) == after_stop(v),
{
}

impl TorInner {
    /// A Tor client that is not running yet.
    pub fn new(data_dir: String, socks_port: u16, control_port: u16) -> (r: Self)
        ensures
            r@ == (TorView { data_dir: data_dir@, socks_port, control_port, running: false }),
    {
        TorInner { data_dir, socks_port, control_port, running: false }
    }

    /// Whether the Tor process is running.
    pub fn is_running(&self) -> (r: bool)
        ensures
            r == self@.running,
    {
        self.running
    }

    /// The SOCKS port Tor listens on.
    pub fn socks_port(&self) -> (r: u16)
        ensures
            r == self@.socks_port,
    {
        self.socks_port
    }

    /// The data directory Tor keeps its state in.
    pub fn data_dir(&self) -> (r: &str)
        ensures
            r@ == self@.data_dir,
    {
        self.data_dir.as_str()
    }

    /// Starts Tor: the torrc to write (as `torrc` in the data directory)
    /// before its process is spawned, or `AlreadyRunning`, with nothing
    /// changed, while its process runs. Once spawned, the process is
    /// recorded with `record_started`.
    pub fn start(&self, upstream_proxy: &Option<(String, u16)>) -> (r: Result<
        TorStart,
        IIIError,
    >)
        ensures
            start_refused(self@) <==> r is Err,
            r matches Err(e) ==> e == IIIError::AlreadyRunning,
            r matches Ok(s) ==> s.torrc_path@ == path_join(self@.data_dir, "torrc"@)
                && s.torrc@ == torrc_text(
                self@.data_dir,
                self@.socks_port,
                self@.control_port,
                upstream_view(*upstream_proxy),
            ),
    {
        if self.running {
            return Err(IIIError::AlreadyRunning);
        }
        let torrc_path = join_path(self.data_dir.as_str(), "torrc");
        let mut t = String::from_str("SocksPort ");
        push_decimal(&mut t, self.socks_port as u64);
        t.append("\n");
        t.append("ControlPort ");
        push_decimal(&mut t, self.control_port as u64);
        t.append("\n");
        t.append("DataDirectory ");
        t.append(self.data_dir.as_str());
        t.append("\n");
        let ghost before = t@;
        match upstream_proxy {
            Some((host, port)) => {
                t.append("Socks5Proxy ");
                t.append(host.as_str());
                t.append(":");
                push_decimal(&mut t, *port as u64);
                t.append("\n");
            },
            None => {},
        }
        proof {
            match upstream_proxy {
                Some((host, port)) => {
                    assert(t@ =~= before + ("Socks5Proxy "@ + host@ + ":"@ + decimal(*port as nat)
                        + "\n"@));
                },
                None => {
                    assert(t@ =~= before + Seq::<char>::empty());
                },
            }
        }
        Ok(TorStart { torrc_path, torrc: t })
    }

    /// Records that the Tor process has been spawned.
    pub fn record_started(&mut self)
        ensures
            final(self)@ == after_started(old(self)@),
    {
        self.running = true;
    }

    /// Forgets the Tor process; the result says whether one was running and
    /// must be killed and waited for.
    pub fn stop(&mut self) -> (r: bool)
        ensures
            r == old(self)@.running,
            final(self)@ == after_stop(old(self)@),
    {
        let was = self.running;
        self.running = false;
        was
    }
}

/// Where a Tor binary may be installed on Android, in the order they are
/// tried.
pub open spec fn tor_binary_candidates_text() -> Seq<Seq<char>> {
    seq!["/data/local/tmp/tor"@, "./tor"@, "tor"@]
}

/// The places a Tor binary may be installed, in the order they are tried.
pub fn tor_binary_candidates() -> (r: Vec<String>)
    ensures
        r@.len() == 3,
        forall|i: int| 0 <= i < 3 ==> #[trigger] r@[i]@ == tor_binary_candidates_text()[i],
{
    let mut r = Vec::new();
    r.push(String::from_str("/data/local/tmp/tor"));
    r.push(String::from_str("./tor"));
    r.push(String::from_str("tor"));
    r
}

/// The first candidate that exists, or `tor` (found through `PATH`) when
/// none does.
pub open spec fn first_present(candidates: Seq<Seq<char>>, present: Seq<bool>) -> Seq<char>
    decreases candidates.len(),
{
    if candidates.len() == 0 || present.len() == 0 {
        "tor"@
    } else if present[0] {
        candidates[0]
    } else {
        first_present(candidates.drop_first(), present.drop_first())
    }
}

/// The text of a list of strings.
pub open spec fn texts(v: Seq<String>) -> Seq<Seq<char>> {
    v.map_values(|s: String| s@)
}

/// Picks the Tor binary: the first candidate whose file exists
/// (`present[i]` tells whether `candidates[i]` does), else `tor`.
pub fn pick_tor_binary(candidates: &Vec<String>, present: &Vec<bool>) -> (r: String)
    requires
        candidates@.len() == present@.len(),
    ensures
        r@ == first_present(texts(candidates@), present@),
{
    let mut i: usize = 0;
    assert(texts(candidates@).skip(0) =~= texts(candidates@));
    assert(present@.skip(0) =~= present@);
    while i < candidates.len()
        invariant
            i <= candidates@.len(),
            candidates@.len() == present@.len(),
            first_present(texts(candidates@), present@) == first_present(
                texts(candidates@).skip(i as int),
                present@.skip(i as int),
            ),
        decreases candidates@.len() - i,
    {
        assert(texts(candidates@).skip(i as int).drop_first() =~= texts(candidates@).skip(
            i + 1,
        ));
        assert(present@.skip(i as int).drop_first() =~= present@.skip(i + 1));
        if present[i] {
            return candidates[i].clone();
        }
        i = i + 1;
    }
    assert(texts(candidates@).skip(i as int).len() == 0);
    String::from_str("tor")
}

} // verus!
