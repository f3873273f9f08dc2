use iii::socks5::{Socks5Error, Socks5Handshake};

/// Feeds `stream` to a fresh machine as the proxy does; returns the bytes
/// written back and the result.
fn drive(stream: &[u8]) -> (Vec<u8>, Result<Socks5Handshake, Socks5Error>) {
    let mut hs = Socks5Handshake::new();
    let mut pos = 0;
    let mut written = Vec::new();
    while !hs.is_done() {
        let n = hs.expected_len();
        assert!(pos + n <= stream.len(), "stream too short");
        match hs.feed(&stream[pos..pos + n]) {
            Ok(w) => written.extend_from_slice(&w),
            Err(e) => return (written, Err(e)),
        }
        pos += n;
    }
    assert_eq!(pos, stream.len());
    (written, Ok(hs))
}

#[test]
fn connect_ipv4_is_accepted() {
    let stream = [5, 1, 0, 5, 1, 0, 1, 10, 0, 0, 1, 1, 187];
    let (written, r) = drive(&stream);
    let hs = r.unwrap();
    assert_eq!(written, vec![5, 0, 5, 0, 0, 1, 0, 0, 0, 0, 0, 0]);
    assert_eq!(hs.address_type(), 1);
    assert_eq!(hs.address(), &vec![10, 0, 0, 1]);
    assert_eq!(hs.port(), 443);
}

#[test]
fn connect_domain_is_accepted() {
    let mut stream = vec![5, 2, 0, 2, 5, 1, 0, 3, 11];
    stream.extend_from_slice(b"example.com");
    stream.extend_from_slice(&[0, 80]);
    let (written, r) = drive(&stream);
    let hs = r.unwrap();
    assert_eq!(written, vec![5, 0, 5, 0, 0, 1, 0, 0, 0, 0, 0, 0]);
    assert_eq!(hs.address_type(), 3);
    assert_eq!(hs.address(), &b"example.com".to_vec());
    assert_eq!(hs.port(), 80);
}

#[test]
fn connect_ipv6_is_accepted() {
    let mut stream = vec![5, 0, 5, 1, 0, 4];
    stream.extend_from_slice(&[0u8; 15]);
    stream.push(1);
    stream.extend_from_slice(&[0x1f, 0x90]);
    let (_, r) = drive(&stream);
    let hs = r.unwrap();
    assert_eq!(hs.address_type(), 4);
    assert_eq!(hs.address().len(), 16);
    assert_eq!(hs.port(), 8080);
}

#[test]
fn zero_methods_reads_nothing() {
    let mut hs = Socks5Handshake::new();
    assert_eq!(hs.expected_len(), 2);
    assert_eq!(hs.feed(&[5, 0]).unwrap(), Vec::<u8>::new());
    assert_eq!(hs.expected_len(), 0);
    assert_eq!(hs.feed(&[]).unwrap(), vec![5, 0]);
    assert_eq!(hs.expected_len(), 4);
}

#[test]
fn socks4_is_refused_without_reply() {
    let (written, r) = drive(&[4, 1, 0]);
    assert!(written.is_empty());
    assert_eq!(r.err(), Some(Socks5Error::UnsupportedVersion));
}

#[test]
fn bind_is_refused_after_method_reply() {
    let (written, r) = drive(&[5, 1, 0, 5, 2, 0, 1]);
    assert_eq!(written, vec![5, 0]);
    assert_eq!(r.err(), Some(Socks5Error::UnsupportedCommand));
}

#[test]
fn unknown_address_type_is_refused() {
    let (written, r) = drive(&[5, 1, 0, 5, 1, 0, 2]);
    assert_eq!(written, vec![5, 0]);
    assert_eq!(r.err(), Some(Socks5Error::InvalidAddressType));
}

#[test]
fn refusal_messages() {
    assert_eq!(Socks5Error::UnsupportedVersion.message(), "Only SOCKS5 is supported");
    assert_eq!(Socks5Error::UnsupportedCommand.message(), "Only SOCKS5 CONNECT is supported");
    assert_eq!(Socks5Error::InvalidAddressType.message(), "Invalid address type");
}

#[test]
fn destination_does_not_change_replies() {
    let a = [5, 1, 0, 5, 1, 0, 1, 10, 0, 0, 1, 1, 187];
    let b = [5, 1, 0, 5, 1, 0, 1, 93, 184, 216, 34, 0, 80];
    let (wa, ra) = drive(&a);
    let (wb, rb) = drive(&b);
    assert_eq!(wa, wb);
    assert_eq!(ra.unwrap().address_type(), rb.unwrap().address_type());
}
