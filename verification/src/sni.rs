//! The SNI side: the TLS client configuration used towards the relay, the
//! server name presented in the TLS handshake, and the retry policy for
//! dialing the relay.

use vstd::prelude::*;
use std::sync::Arc;
use rustls::{ClientConfig, RootCertStore};
use rustls_pki_types::ServerName;
use crate::error::{IIIError, IoErrorKind};

verus! {

#[verifier::external_type_specification]
#[verifier::external_body]
pub struct ExServerName<'a>(ServerName<'a>);

#[verifier::external_type_specification]
#[verifier::external_body]
pub struct ExClientConfig(ClientConfig);

#[verifier::external_type_specification]
#[verifier::external_body]
pub struct ExRootCertStore(RootCertStore);

/// Whether rustls accepts `name` as the server name of a TLS connection:
/// a syntactically valid DNS name, or else an IPv4 or IPv6 address.
pub uninterp spec fn accepts_server_name(name: Seq<char>) -> bool;

/// Whether `name` is the server name the text `host` denotes: the DNS name
/// `host` itself, or the IP address `host` spells.
pub uninterp spec fn names_host(name: ServerName<'static>, host: Seq<char>) -> bool;

/// The server name to present for `domain`.
///
/// Trusted: calls `rustls_pki_types::ServerName::try_from(&str)` and turns
/// the name it returns into an owned one (`ServerName::to_owned`).
/// `try_from` keeps the text as a DNS name, or else parses it as an IP
/// address, and `to_owned` copies it unchanged; the contract says that a name
/// comes back exactly when rustls accepts `domain`, and that it is the name
/// `domain` denotes.
#[verifier::external_body]
fn lookup_server_name(domain: &str) -> (r: Option<ServerName<'static>>)
    ensures
        r is Some <==> accepts_server_name(domain@),
        r matches Some(n) ==> names_host(n, domain@),
{
    match ServerName::try_from(domain) {
        Ok(name) => Some(name.to_owned()),
        Err(_) => None,
    }
}

/// The server name, or `InvalidSni` when there is none.
pub fn server_name_or_invalid(name: Option<ServerName<'static>>) -> (r: Result<
    ServerName<'static>,
    IIIError,
>)
    ensures
        r is Ok <==> name is Some,
        r matches Ok(n) ==> name == Some(n),
        r matches Err(e) ==> e == IIIError::InvalidSni,
{
    match name {
        Some(n) => Ok(n),
        None => Err(IIIError::InvalidSni),
    }
}

/// The server name to present to the relay for the fronting domain: the
/// name `domain` denotes, or an `InvalidSni` error when rustls does not
/// accept the domain.
pub fn sni_server_name(domain: &str) -> (r: Result<ServerName<'static>, IIIError>)
    ensures
        r is Ok <==> accepts_server_name(domain@),
        r matches Ok(n) ==> names_host(n, domain@),
        r matches Err(e) ==> e == IIIError::InvalidSni,
{
    server_name_or_invalid(lookup_server_name(domain))
}

/// Whether `roots` holds exactly the Mozilla root certificates that
/// webpki-roots ships (`webpki_roots::TLS_SERVER_ROOTS`).
pub uninterp spec fn holds_webpki_roots(roots: RootCertStore) -> bool;

/// Whether `config` checks the relay's certificate chain with a webpki
/// verifier over exactly the root certificates of `roots`.
pub uninterp spec fn trusts_roots(config: ClientConfig, roots: RootCertStore) -> bool;

/// Whether `config` never presents a client certificate.
pub uninterp spec fn sends_no_client_cert(config: ClientConfig) -> bool;

/// Whether `config` sends the Server Name Indication extension (its
/// `enable_sni` field).
pub uninterp spec fn sni_enabled(config: ClientConfig) -> bool;

/// A root store holding the Mozilla roots that webpki-roots ships.
///
/// Trusted: calls `RootCertStore::empty` and extends it with
/// `webpki_roots::TLS_SERVER_ROOTS`; the contract says the store holds
/// exactly those roots.
#[verifier::external_body]
fn webpki_root_store() -> (r: RootCertStore)
    ensures
        holds_webpki_roots(r),
{
    let mut store = RootCertStore::empty();
    store.extend(webpki_roots::TLS_SERVER_ROOTS.iter().cloned());
    store
}

/// A TLS client configuration that trusts `roots` and sends no client
/// certificate.
///
/// Trusted: calls `ClientConfig::builder().with_root_certificates(roots)
/// .with_no_client_auth()`. The builder uses the process's crypto provider,
/// which the `ring` feature (the only provider enabled) supplies, so it does
/// not panic. `with_root_certificates` installs a webpki verifier over
/// `roots`, and `with_no_client_auth` a resolver that never yields a client
/// certificate; the contract says so. The other settings (ALPN, resumption,
/// the SNI flag, ...) are not stated.
#[verifier::external_body]
fn client_config(roots: RootCertStore) -> (r: ClientConfig)
    ensures
        trusts_roots(r, roots),
        sends_no_client_cert(r),
{
    ClientConfig::builder().with_root_certificates(roots).with_no_client_auth()
}

/// Turns the Server Name Indication extension on or off.
///
/// Trusted: assigns the public `enable_sni` field of the rustls
/// configuration; the contract says the flag is then `on`, and that the
/// certificate verifier and the client-certificate resolver, which the
/// assignment does not touch, stay as they were.
#[verifier::external_body]
fn set_sni(config: &mut ClientConfig, on: bool)
    ensures
        sni_enabled(*final(config)) == on,
        forall|roots: RootCertStore|
            #[trigger] trusts_roots(*final(config), roots) == trusts_roots(*old(config), roots),
        sends_no_client_cert(*final(config)) == sends_no_client_cert(*old(config)),
{
    config.enable_sni = on;
}

/// The TLS configuration towards the relay: it sends SNI, presents no
/// client certificate and trusts exactly the webpki roots.
pub open spec fn fronting_tls_config(c: ClientConfig) -> bool {
    &&& sni_enabled(c)
    &&& sends_no_client_cert(c)
    &&& exists|roots: RootCertStore| holds_webpki_roots(roots) && #[trigger] trusts_roots(c, roots)
}

/// The TLS configuration used towards the relay: it trusts the webpki
/// roots, sends no client certificate and sends the server name (SNI).
pub fn tls_client_config() -> (r: Arc<ClientConfig>)
    ensures
        fronting_tls_config(*r),
{
    let roots = webpki_root_store();
    let ghost store = roots;
    let mut config = client_config(roots);
    set_sni(&mut config, true);
    assert(holds_webpki_roots(store) && trusts_roots(config, store));
    Arc::new(config)
}

/// The local proxy that accepts SOCKS5 clients and relays each connection
/// over TLS, with the fronting domain as SNI, to the relay.
pub struct SniProxy {
    listen_addr: String,
    sni_domain: String,
    target_relay: String,
    tls_config: Arc<ClientConfig>,
}

impl SniProxy {
    /// A proxy listening on `listen_addr` that fronts with `sni_domain` and
    /// relays to `target_relay`, with a TLS configuration that trusts the
    /// webpki roots and sends SNI.
    pub fn new(listen_addr: String, sni_domain: String, target_relay: String) -> (r: Result<
        Self,
        IIIError,
    >)
        ensures
            r matches Ok(p) && p.listen_addr_spec() == listen_addr@ && p.sni_domain_spec()
                == sni_domain@ && p.target_relay_spec() == target_relay@ && fronting_tls_config(
                *p.tls_config_spec(),
            ),
    {
        Ok(SniProxy { listen_addr, sni_domain, target_relay, tls_config: tls_client_config() })
    }

    pub closed spec fn listen_addr_spec(&self) -> Seq<char> {
        self.listen_addr@
    }

    pub closed spec fn sni_domain_spec(&self) -> Seq<char> {
        self.sni_domain@
    }

    pub closed spec fn target_relay_spec(&self) -> Seq<char> {
        self.target_relay@
    }

    /// The address the proxy listens on.
    pub fn listen_addr(&self) -> (r: &str)
        ensures
            r@ == self.listen_addr_spec(),
    {
        self.listen_addr.as_str()
    }

    /// The fronting domain sent as SNI.
    pub fn sni_domain(&self) -> (r: &str)
        ensures
            r@ == self.sni_domain_spec(),
    {
        self.sni_domain.as_str()
    }

    /// The relay every connection goes to.
    pub fn target_relay(&self) -> (r: &str)
        ensures
            r@ == self.target_relay_spec(),
    {
        self.target_relay.as_str()
    }

    /// The TLS configuration the proxy was made with.
    pub closed spec fn tls_config_spec(&self) -> Arc<ClientConfig> {
        self.tls_config
    }

    /// The shared TLS configuration.
    pub fn tls_config(&self) -> (r: Arc<ClientConfig>)
        ensures
            r == self.tls_config_spec(),
    {
        self.tls_config.clone()
    }

    /// The server name presented to the relay: the name the fronting domain
    /// denotes, or an `InvalidSni` error when rustls does not accept it.
    pub fn server_name(&self) -> (r: Result<ServerName<'static>, IIIError>)
        ensures
            r is Ok <==> accepts_server_name(self.sni_domain_spec()),
            r matches Ok(n) ==> names_host(n, self.sni_domain_spec()),
            r matches Err(e) ==> e == IIIError::InvalidSni,
    {
        sni_server_name(self.sni_domain.as_str())
    }
}


/// A tunnel that reaches its targets over TLS with the given SNI.
pub struct SniTunnel {
    pub sni: Arc<String>,
}

/// How long one attempt to dial the relay may take, in seconds.
pub const DIAL_TIMEOUT_SECS: u64 = 10;

/// `e` is the error recorded for an attempt that ran out of time: an I/O
/// error of kind `TimedOut` with the message "timeout".
pub open spec fn is_timeout_error(e: IIIError) -> bool {
    e matches IIIError::Io(k, m) && k == IoErrorKind::TimedOut && m@ == "timeout"@
}

/// The abstract state of a retrying dial: how many attempts it may make,
/// how many it made, and the last attempt's error.
pub struct DialView {
    pub max_attempts: u32,
    pub attempts: u32,
    pub last_error: Option<IIIError>,
}

/// The state after one more attempt, which failed with `error`.
pub open spec fn after_failure(v: DialView, error: IIIError) -> DialView {
    DialView { attempts: (v.attempts + 1) as u32, last_error: Some(error), ..v }
}

/// The state after the attempts that failed with `errors`, in order.
pub open spec fn after_failures(v: DialView, errors: Seq<IIIError>) -> DialView
    decreases errors.len(),
{
    if errors.len() == 0 {
        v
    } else {
        after_failure(after_failures(v, errors.drop_last()), errors.last())
    }
}

/// Retries dialing the relay up to a number of times, keeping the last
/// attempt's error to report when every attempt fails.
pub struct DialRetry {
    max_attempts: u32,
    attempts: u32,
    last_error: Option<IIIError>,
}

impl View for DialRetry {
    type V = DialView;

    closed spec fn view(&self) -> DialView {
        DialView {
            max_attempts: self.max_attempts,
            attempts: self.attempts,
            last_error: self.last_error,
        }
    }
}

impl DialRetry {
    /// A dial that may make up to `max_retries` attempts.
    pub fn new(max_retries: u32) -> (r: Self)
        ensures
            r@ == (DialView { max_attempts: max_retries, attempts: 0, last_error: None }),
    {
        DialRetry { max_attempts: max_retries, attempts: 0, last_error: None }
    }

    /// Whether another attempt may be made.
    pub fn may_attempt(&self) -> (r: bool)
        ensures
            r == (self@.attempts < self@.max_attempts),
    {
        self.attempts < self.max_attempts
    }

    /// Records an attempt that failed with `error`.
    pub fn record_failure(&mut self, error: IIIError)
        requires
            old(self)@.attempts < old(self)@.max_attempts,
        ensures
            final(self)@ == after_failure(old(self)@, error),
    {
        self.attempts = self.attempts + 1;
        self.last_error = Some(error);
    }

    /// Records an attempt that ran out of time: it failed with the I/O error
    /// of kind `TimedOut` and message "timeout".
    pub fn record_timeout(&mut self)
        requires
            old(self)@.attempts < old(self)@.max_attempts,
        ensures
            final(self)@.last_error matches Some(e) && is_timeout_error(e) && final(self)@
                == after_failure(old(self)@, e),
    {
        self.record_failure(IIIError::Io(IoErrorKind::TimedOut, String::from_str("timeout")));
    }

    /// The error to give up with: the last attempt's error, or the I/O error
    /// "all retries failed" when no attempt was made.
    pub fn into_error(self) -> (r: IIIError)
        ensures
            match self@.last_error {
                Some(e) => r == e,
                None => r matches IIIError::Io(k, m) && k == IoErrorKind::Other && m@
                    == "all retries failed"@,
            },
    {
        match self.last_error {
            Some(e) => e,
            None => IIIError::Io(IoErrorKind::Other, String::from_str("all retries failed")),
        }
    }
}

/// A dial whose attempts all fail makes exactly as many attempts as it is
/// allowed: before each of them `may_attempt` holds, after the last it does
/// not, and it gives up with the error of the last attempt (or, allowed none,
/// with "all retries failed"); the errors of earlier attempts are dropped.
pub proof fn lemma_dial_gives_up_with_last_error(max_retries: u32, errors: Seq<IIIError>)
    requires
        errors.len() == max_retries,
    ensures
        forall|k: int|
            0 <= k < max_retries ==> #[trigger] after_failures(
                DialView { max_attempts: max_retries, attempts: 0, last_error: None },
                errors.take(k),
            ).attempts < max_retries,
        ({
            let v = after_failures(
                DialView { max_attempts: max_retries, attempts: 0, last_error: None },
                errors,
            );
            &&& v.attempts == max_retries
            &&& !(v.attempts < v.max_attempts)
            &&& v.last_error == (if max_retries == 0 {
                None
            } else {
                Some(errors.last())
            })
        }),
{
    let init = DialView { max_attempts: max_retries, attempts: 0, last_error: None };
    lemma_after_failures_counts(init, errors);
    assert forall|k: int| 0 <= k < max_retries implies #[trigger] after_failures(
        init,
        errors.take(k),
    ).attempts < max_retries by {
        lemma_after_failures_counts(init, errors.take(k));
    }
}

proof fn lemma_after_failures_counts(v: DialView, errors: Seq<IIIError>)
    requires
        v.attempts + errors.len() <= u32::MAX,
    ensures
        after_failures(v, errors).attempts == v.attempts + errors.len(),
        after_failures(v, errors).max_attempts == v.max_attempts,
        errors.len() > 0 ==> after_failures(v, errors).last_error == Some(errors.last()),
        errors.len() == 0 ==> after_failures(v, errors).last_error == v.last_error,
    decreases errors.len(),
{
    if errors.len() > 0 {
        lemma_after_failures_counts(v, errors.drop_last());
    }
}

} // verus!
