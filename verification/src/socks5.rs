//! The client side of a SOCKS5 (RFC 1928) handshake as the local proxy runs it:
//! a greeting whose version byte must be 5, the client's method list (ignored:
//! "no authentication" is always chosen), then a CONNECT request whose target
//! address is read and recorded; every connection is relayed to the SNI relay.
//!
//! The proxy reads the stream in pieces whose sizes depend on what came before,
//! so the handshake is a machine: it says how many bytes it wants next, takes
//! exactly those bytes, and answers with the bytes to write back (if any).

use vstd::prelude::*;

verus! {

/// The reply that selects "no authentication required".
pub open spec fn method_reply() -> Seq<u8> {
    seq![5u8, 0u8]
}

/// The reply that reports a successful CONNECT (bound address 0.0.0.0:0).
pub open spec fn success_reply() -> Seq<u8> {
    seq![5u8, 0u8, 0u8, 1u8, 0u8, 0u8, 0u8, 0u8, 0u8, 0u8]
}

/// Why a client's handshake is refused.
#[derive(Debug, Clone, Copy, PartialEq, Eq, Structural)]
pub enum Socks5Error {
    /// The greeting's version byte is not 5.
    UnsupportedVersion,
    /// The request's command is not CONNECT (1).
    UnsupportedCommand,
    /// The request's address type is none of IPv4 (1), domain (3), IPv6 (4).
    InvalidAddressType,
}

/// The message reported for a refused handshake.
pub open spec fn socks5_error_message(e: Socks5Error) -> Seq<char> {
    match e {
        Socks5Error::UnsupportedVersion => "Only SOCKS5 is supported"@,
        Socks5Error::UnsupportedCommand => "Only SOCKS5 CONNECT is supported"@,
        Socks5Error::InvalidAddressType => "Invalid address type"@,
    }
}

impl Socks5Error {
    /// The message reported for this refusal.
    pub fn message(&self) -> (r: String)
        ensures
            r@ == socks5_error_message(*self),
    {
        match self {
            Socks5Error::UnsupportedVersion => String::from_str("Only SOCKS5 is supported"),
            Socks5Error::UnsupportedCommand => String::from_str(
                "Only SOCKS5 CONNECT is supported",
            ),
            Socks5Error::InvalidAddressType => String::from_str("Invalid address type"),
        }
    }
}

/// Where the handshake stands: which part of the client's bytes comes next.
#[derive(Debug, Clone, Copy, PartialEq, Eq, Structural)]
pub enum Stage {
    /// Version and number of methods (2 bytes).
    Greeting,
    /// The list of methods, of the given length.
    Methods(u8),
    /// Version, command, reserved byte and address type (4 bytes).
    Request,
    /// The length byte of a domain name.
    DomainLength,
    /// The address itself, of the given length.
    Address(u8),
    /// The port, big-endian (2 bytes).
    Port,
    /// The handshake is complete.
    Done,
}

/// How many bytes the stage reads.
pub open spec fn stage_need(stage: Stage) -> nat {
    match stage {
        Stage::Greeting => 2,
        Stage::Methods(n) => n as nat,
        Stage::Request => 4,
        Stage::DomainLength => 1,
        Stage::Address(n) => n as nat,
        Stage::Port => 2,
        Stage::Done => 0,
    }
}

/// Position of the stage in the handshake.
pub open spec fn stage_rank(stage: Stage) -> nat {
    match stage {
        Stage::Greeting => 0,
        Stage::Methods(_) => 1,
        Stage::Request => 2,
        Stage::DomainLength => 3,
        Stage::Address(_) => 4,
        Stage::Port => 5,
        Stage::Done => 6,
    }
}

/// The abstract state of a handshake in progress.
pub struct HandshakeView {
    pub stage: Stage,
    /// Address type of the request (0 until the request header is read).
    pub atyp: u8,
    /// Target address bytes (empty until read).
    pub address: Seq<u8>,
    /// Target port (0 until read).
    pub port: u16,
}

/// The state a fresh connection starts in.
pub open spec fn initial_view() -> HandshakeView {
    HandshakeView { stage: Stage::Greeting, atyp: 0, address: Seq::empty(), port: 0 }
}

/// One step of the handshake: the state after reading `input` (which holds
/// exactly `stage_need(v.stage)` bytes) and the bytes written back, or the
/// reason the connection is refused.
pub open spec fn handshake_step(v: HandshakeView, input: Seq<u8>) -> Result<
    (HandshakeView, Seq<u8>),
    Socks5Error,
> {
    match v.stage {
        Stage::Greeting => {
            if input[0] != 5 {
                Err(Socks5Error::UnsupportedVersion)
            } else {
                Ok((HandshakeView { stage: Stage::Methods(input[1]), ..v }, Seq::empty()))
            }
        },
        Stage::Methods(_) => Ok((HandshakeView { stage: Stage::Request, ..v }, method_reply())),
        Stage::Request => {
            if input[1] != 1 {
                Err(Socks5Error::UnsupportedCommand)
            } else if input[3] == 1 {
                Ok((HandshakeView { stage: Stage::Address(4), atyp: 1, ..v }, Seq::empty()))
            } else if input[3] == 3 {
                Ok((HandshakeView { stage: Stage::DomainLength, atyp: 3, ..v }, Seq::empty()))
            } else if input[3] == 4 {
                Ok((HandshakeView { stage: Stage::Address(16), atyp: 4, ..v }, Seq::empty()))
            } else {
                Err(Socks5Error::InvalidAddressType)
            }
        },
        Stage::DomainLength => Ok(
            (HandshakeView { stage: Stage::Address(input[0]), ..v }, Seq::empty()),
        ),
        Stage::Address(_) => Ok(
            (HandshakeView { stage: Stage::Port, address: input, ..v }, Seq::empty()),
        ),
        Stage::Port => Ok(
            (
                HandshakeView {
                    stage: Stage::Done,
                    port: (input[0] as nat * 256 + input[1] as nat) as u16,
                    ..v
                },
                success_reply(),
            ),
        ),
        Stage::Done => Ok((v, Seq::empty())),
    }
}


/// What becomes of a client's byte stream: the handshake completes after
/// `consumed` bytes with the given target, is refused, or needs more bytes;
/// `written` is everything the proxy wrote back to the client meanwhile.
pub enum HandshakeOutcome {
    Accepted { consumed: nat, atyp: u8, address: Seq<u8>, port: u16, written: Seq<u8> },
    Refused { error: Socks5Error, written: Seq<u8> },
    Incomplete { written: Seq<u8> },
}

/// `o`, with `w` written before whatever `o` writes.
pub open spec fn written_before(w: Seq<u8>, o: HandshakeOutcome) -> HandshakeOutcome {
    match o {
        HandshakeOutcome::Accepted { consumed, atyp, address, port, written } => {
            HandshakeOutcome::Accepted { consumed, atyp, address, port, written: w + written }
        },
        HandshakeOutcome::Refused { error, written } => HandshakeOutcome::Refused {
            error,
            written: w + written,
        },
        HandshakeOutcome::Incomplete { written } => HandshakeOutcome::Incomplete {
            written: w + written,
        },
    }
}

/// Runs the machine from state `v` over the stream `s`, whose first `pos`
/// bytes are already consumed, feeding it each piece it asks for.
pub open spec fn run_machine(v: HandshakeView, s: Seq<u8>, pos: nat) -> HandshakeOutcome
    decreases 6 - stage_rank(v.stage),
{
    if v.stage == Stage::Done {
        HandshakeOutcome::Accepted {
            consumed: pos,
            atyp: v.atyp,
            address: v.address,
            port: v.port,
            written: Seq::empty(),
        }
    } else if pos + stage_need(v.stage) > s.len() {
        HandshakeOutcome::Incomplete { written: Seq::empty() }
    } else {
        match handshake_step(v, s.subrange(pos as int, (pos + stage_need(v.stage)) as int)) {
            Err(e) => HandshakeOutcome::Refused { error: e, written: Seq::empty() },
            Ok((v2, w)) => written_before(w, run_machine(v2, s, pos + stage_need(v.stage))),
        }
    }
}

/// The SOCKS5 client handshake as a grammar over the whole byte stream `s`:
/// `05 n m1..mn` then `ver 01 rsv atyp`, then a 4-byte IPv4 address (atyp 1),
/// a length-prefixed domain name (atyp 3) or a 16-byte IPv6 address (atyp 4),
/// then a 2-byte big-endian port.
pub open spec fn client_handshake(s: Seq<u8>) -> HandshakeOutcome {
    if s.len() < 2 {
        HandshakeOutcome::Incomplete { written: Seq::empty() }
    } else if s[0] != 5 {
        HandshakeOutcome::Refused { error: Socks5Error::UnsupportedVersion, written: Seq::empty() }
    } else {
        let req: int = 2 + s[1] as int;
        if s.len() < req {
            HandshakeOutcome::Incomplete { written: Seq::empty() }
        } else if s.len() < req + 4 {
            HandshakeOutcome::Incomplete { written: method_reply() }
        } else if s[req + 1] != 1 {
            HandshakeOutcome::Refused {
                error: Socks5Error::UnsupportedCommand,
                written: method_reply(),
            }
        } else {
            let atyp = s[req + 3];
            if atyp != 1 && atyp != 3 && atyp != 4 {
                HandshakeOutcome::Refused {
                    error: Socks5Error::InvalidAddressType,
                    written: method_reply(),
                }
            } else if atyp == 3 && s.len() < req + 5 {
                HandshakeOutcome::Incomplete { written: method_reply() }
            } else {
                let start: int = if atyp == 3 {
                    req + 5
                } else {
                    req + 4
                };
                let len: int = if atyp == 1 {
                    4
                } else if atyp == 4 {
                    16
                } else {
                    s[req + 4] as int
                };
                let end: int = start + len;
                if s.len() < end + 2 {
                    HandshakeOutcome::Incomplete { written: method_reply() }
                } else {
                    HandshakeOutcome::Accepted {
                        consumed: (end + 2) as nat,
                        atyp,
                        address: s.subrange(start, end),
                        port: (s[end] as nat * 256 + s[end + 1] as nat) as u16,
                        written: method_reply() + success_reply(),
                    }
                }
            }
        }
    }
}

/// Feeding a fresh handshake machine a client's byte stream, piece by piece as
/// it asks, ends exactly as the SOCKS5 grammar says: it accepts precisely the
/// streams that begin with a well-formed greeting and CONNECT request, with the
/// same target and the same number of bytes consumed, refuses the others for
/// the same reason, and writes back the same bytes (nothing before the
/// methods are read, `05 00` after them, the success reply at the end).
pub proof fn lemma_machine_follows_grammar(s: Seq<u8>)
    ensures
        run_machine(initial_view(), s, 0) == client_handshake(s),
{
    reveal_with_fuel(run_machine, 7);
    assert(method_reply() + Seq::<u8>::empty() =~= method_reply());
    assert(Seq::<u8>::empty() + method_reply() =~= method_reply());
    assert(Seq::<u8>::empty() + (method_reply() + success_reply()) =~= method_reply() + success_reply());
}

/// Where the request header starts: after the greeting and its method list.
pub open spec fn request_pos(s: Seq<u8>) -> int {
    2 + s[1] as int
}

/// Where the requested destination (DST.ADDR, without a domain name's
/// length byte) starts.
pub open spec fn destination_start(s: Seq<u8>) -> int {
    if s[request_pos(s) + 3] == 3 {
        request_pos(s) + 5
    } else {
        request_pos(s) + 4
    }
}

/// Where the requested destination and port (DST.PORT) end.
pub open spec fn destination_end(s: Seq<u8>) -> int {
    let atyp = s[request_pos(s) + 3];
    destination_start(s) + (if atyp == 1 {
        4
    } else if atyp == 4 {
        16
    } else {
        s[request_pos(s) + 4] as int
    }) + 2
}

/// Both handshakes complete after the same number of bytes, with the same
/// address type, and the same bytes written back.
pub open spec fn accepted_alike(o1: HandshakeOutcome, o2: HandshakeOutcome) -> bool {
    match (o1, o2) {
        (
            HandshakeOutcome::Accepted { consumed: c1, atyp: a1, written: w1, .. },
            HandshakeOutcome::Accepted { consumed: c2, atyp: a2, written: w2, .. },
        ) => c1 == c2 && a1 == a2 && w1 == w2,
        _ => false,
    }
}

/// The destination a client asks for does not change how its handshake
/// goes: two streams that differ only in the requested address and port
/// bytes (same address type, same length) are both accepted, after the same
/// number of bytes, with the same replies written back. (The relay the
/// proxy then connects to and the server name it presents come from the
/// proxy's own settings alone.)
pub proof fn lemma_destination_does_not_matter(s1: Seq<u8>, s2: Seq<u8>)
    requires
        client_handshake(s1) is Accepted,
        s2.len() == s1.len(),
        forall|i: int|
            0 <= i < s1.len() && !(destination_start(s1) <= i < destination_end(s1)) ==> s1[i]
                == s2[i],
    ensures
        accepted_alike(client_handshake(s1), client_handshake(s2)),
{
    let req = request_pos(s1);
    assert(s1[0] == s2[0]);
    assert(s1[1] == s2[1]);
    assert(s1[req + 1] == s2[req + 1]);
    assert(s1[req + 3] == s2[req + 3]);
    if s1[req + 3] == 3 {
        assert(s1[req + 4] == s2[req + 4]);
    }
}

/// The machine that carries out one client's handshake.
pub struct Socks5Handshake {
    stage: Stage,
    atyp: u8,
    address: Vec<u8>,
    port: u16,
}

impl View for Socks5Handshake {
    type V = HandshakeView;

    closed spec fn view(&self) -> HandshakeView {
        HandshakeView {
            stage: self.stage,
            atyp: self.atyp,
            address: self.address@,
            port: self.port,
        }
    }
}

impl Socks5Handshake {
    /// A handshake waiting for the client's greeting.
    pub fn new() -> (r: Self)
        ensures
            r@ == initial_view(),
    {
        Socks5Handshake { stage: Stage::Greeting, atyp: 0, address: Vec::new(), port: 0 }
    }

    /// How many bytes to read next (0 once the handshake is complete).
    pub fn expected_len(&self) -> (r: usize)
        ensures
            r as nat == stage_need(self@.stage),
    {
        match self.stage {
            Stage::Greeting => 2,
            Stage::Methods(n) => n as usize,
            Stage::Request => 4,
            Stage::DomainLength => 1,
            Stage::Address(n) => n as usize,
            Stage::Port => 2,
            Stage::Done => 0,
        }
    }

    /// Whether the handshake is complete.
    pub fn is_done(&self) -> (r: bool)
        ensures
            r == (self@.stage == Stage::Done),
    {
        self.stage == Stage::Done
    }

    /// The address type the client asked for.
    pub fn address_type(&self) -> (r: u8)
        ensures
            r == self@.atyp,
    {
        self.atyp
    }

    /// The target address bytes the client sent.
    pub fn address(&self) -> (r: &Vec<u8>)
        ensures
            r@ == self@.address,
    {
        &self.address
    }

    /// The target port the client sent.
    pub fn port(&self) -> (r: u16)
        ensures
            r == self@.port,
    {
        self.port
    }

    /// Takes the bytes the machine asked for and returns what to write back
    /// to the client (possibly nothing), or why the connection is refused.
    pub fn feed(&mut self, input: &[u8]) -> (r: Result<Vec<u8>, Socks5Error>)
        requires
            old(self)@.stage != Stage::Done,
            input@.len() == stage_need(old(self)@.stage),
        ensures
            match r {
                Ok(w) => handshake_step(old(self)@, input@) == Ok::<
                    (HandshakeView, Seq<u8>),
                    Socks5Error,
                >((final(self)@, w@)),
                Err(e) => handshake_step(old(self)@, input@) == Err::<
                    (HandshakeView, Seq<u8>),
                    Socks5Error,
                >(e),
            },
    {
        match self.stage {
            Stage::Greeting => {
                if input[0] != 5 {
                    return Err(Socks5Error::UnsupportedVersion);
                }
                self.stage = Stage::Methods(input[1]);
                Ok(Vec::new())
            },
            Stage::Methods(_) => {
                self.stage = Stage::Request;
                let mut w = Vec::new();
                w.push(5u8);
                w.push(0u8);
                assert(w@ =~= method_reply());
                Ok(w)
            },
            Stage::Request => {
                if input[1] != 1 {
                    return Err(Socks5Error::UnsupportedCommand);
                }
                if input[3] == 1 {
                    self.stage = Stage::Address(4);
                    self.atyp = 1;
                } else if input[3] == 3 {
                    self.stage = Stage::DomainLength;
                    self.atyp = 3;
                } else if input[3] == 4 {
                    self.stage = Stage::Address(16);
                    self.atyp = 4;
                } else {
                    return Err(Socks5Error::InvalidAddressType);
                }
                Ok(Vec::new())
            },
            Stage::DomainLength => {
                self.stage = Stage::Address(input[0]);
                Ok(Vec::new())
            },
            Stage::Address(_) => {
                self.stage = Stage::Port;
                self.address = vstd::slice::slice_to_vec(input);
                Ok(Vec::new())
            },
            Stage::Port => {
                self.stage = Stage::Done;
                self.port = (input[0] as u16) * 256 + (input[1] as u16);
                let w = vec![5u8, 0u8, 0u8, 1u8, 0u8, 0u8, 0u8, 0u8, 0u8, 0u8];
                assert(w@ =~= success_reply());
                Ok(w)
            },
            Stage::Done => Ok(Vec::new()),
        }
    }
}

} // verus!
