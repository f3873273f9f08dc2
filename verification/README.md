# iii

The verified core of a VPN daemon that sends traffic through a local SOCKS5
proxy to a TLS relay (presenting a fronting domain as SNI), optionally through
Tor and/or I2P first, behind a fail-closed kill switch and a TUN interface.

- `src/` — the library, verified with Verus:
  - `socks5` — the SOCKS5 handshake machine and the proof that it follows the
    SOCKS5 grammar;
  - `chain` — which services a chain mode starts, in what order, wired to
    which upstream, and the proof of that wiring;
  - `tor`, `i2p` — process bookkeeping and the torrc format;
  - `sni` — the TLS client configuration (SNI on, webpki roots, no client
    certificate, stated over names of the rustls configuration), server
    names, the dial retry policy;
  - `vpn`, `ipv4` — kill-switch rules, relay address handling, TUN settings,
    packet-router decisions;
  - `config`, `error`, `ui`, `text` — settings, error messages, control-window
    texts, text helpers.
- `app/` — the daemon: sockets, processes, TLS streams, the TUN device and the
  Windows Filtering Platform calls, driven by the library.
- `tests/` — scenarios run against the library.
