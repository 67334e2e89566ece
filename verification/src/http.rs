//! The HTTP driver: how it is built, and which failure of its client is which.

use crate::client::{
    build_client, certificate_from_pem, error_message, ClientSettings, FaultView, ProxySettings,
};
use crate::error::{ErrorView, IoSource, SourceView, TransportError};
use crate::proxy::{build_reqwest_proxy, ProxyConfig};
use crate::text::{has_text, push_decimal, to_chars, utf8_text};
use crate::time::duration_of;
use crate::tls::{TlsConfig, TlsMode, TlsModeView, TlsView};
use reqwest::{Certificate, Client, ClientBuilder, Proxy};
use std::time::Duration;
use vstd::prelude::*;
use vstd::string::StringExecFns;

verus! {

// ---------------------------------------------------------------------------
// Failures
// ---------------------------------------------------------------------------

/// What an error of the client is.
#[derive(Clone, Copy, Debug, PartialEq, Eq)]
pub enum FaultClass {
    /// A timeout while connecting.
    ConnectTimeout,
    /// A timeout later on.
    ReadTimeout,
    /// A request that cannot be put together.
    BadRequest,
    /// A failure of the I/O.
    Io,
}

/// What an error of the client is, by what the client says of it.
pub open spec fn fault_class(is_timeout: bool, is_connect: bool, is_builder: bool) -> FaultClass {
    if is_timeout {
        if is_connect {
            FaultClass::ConnectTimeout
        } else {
            FaultClass::ReadTimeout
        }
    } else if is_builder {
        FaultClass::BadRequest
    } else {
        FaultClass::Io
    }
}

/// The transport error for an error of the client, of which `f` is read: a timeout, a request
/// that cannot be put together, or an I/O failure that keeps the error.
pub open spec fn fault_error(f: FaultView, error: reqwest::Error) -> ErrorView {
    match fault_class(f.is_timeout, f.is_connect, f.is_builder) {
        FaultClass::ConnectTimeout => ErrorView::ConnectTimeout,
        FaultClass::ReadTimeout => ErrorView::ReadTimeout,
        FaultClass::BadRequest => ErrorView::ProtocolViolation(f.text),
        FaultClass::Io => ErrorView::Io(SourceView::Http(error)),
    }
}

/// The timeout that an error of the client is, where it is one.
pub open spec fn timeout_error(is_timeout: bool, is_connect: bool) -> Option<ErrorView> {
    if !is_timeout {
        None
    } else if is_connect {
        Some(ErrorView::ConnectTimeout)
    } else {
        Some(ErrorView::ReadTimeout)
    }
}

/// Tells the timeouts apart: while connecting, or later.
pub fn classify_reqwest_timeout(is_timeout: bool, is_connect: bool) -> (r: Option<TransportError>)
    ensures
        match r {
            Some(e) => timeout_error(is_timeout, is_connect) == Some(e@),
            None => timeout_error(is_timeout, is_connect) is None,
        },
{
    if !is_timeout {
        None
    } else if is_connect {
        Some(TransportError::ConnectTimeout)
    } else {
        Some(TransportError::ReadTimeout)
    }
}

/// Tells the errors of the client apart. A timeout is one whatever else it is.
pub fn classify_reqwest_fault(is_timeout: bool, is_connect: bool, is_builder: bool) -> (r:
    FaultClass)
    ensures
        r == fault_class(is_timeout, is_connect, is_builder),
{
    if is_timeout {
        if is_connect {
            FaultClass::ConnectTimeout
        } else {
            FaultClass::ReadTimeout
        }
    } else if is_builder {
        FaultClass::BadRequest
    } else {
        FaultClass::Io
    }
}

/// The transport error for an error while a request is built, sent or answered.
pub fn map_reqwest_error(error: reqwest::Error) -> (r: TransportError)
    ensures
        r@ == fault_error(crate::client::fault_of(error), error),
{
    if let Some(timeout) = classify_reqwest_timeout(error.is_timeout(), error.is_connect()) {
        return timeout;
    }
    match classify_reqwest_fault(false, error.is_connect(), error.is_builder()) {
        FaultClass::BadRequest => TransportError::ProtocolViolation(error_message(&error)),
        _ => TransportError::Io(IoSource::Http(error)),
    }
}

/// The transport error for an error while a client is built: an I/O failure, always.
pub fn map_client_build_error(error: reqwest::Error) -> (r: TransportError)
    ensures
        r@ == ErrorView::Io(SourceView::Http(error)),
{
    TransportError::Io(IoSource::Http(error))
}

// ---------------------------------------------------------------------------
// The driver
// ---------------------------------------------------------------------------

/// The total timeout of a driver that none is given for: 30 seconds.
pub fn default_request_timeout() -> (r: Duration)
    ensures
        crate::time::duration_nanos(r) == 30_000_000_000,
{
    duration_of(crate::DEFAULT_REQUEST_TIMEOUT_SECS, 0)
}

/// An HTTP driver on a `reqwest` client, with a limit on request and response bodies.
pub struct ReqwestHttpDriver {
    client: Client,
    max_response_body_bytes: usize,
    max_request_body_bytes: usize,
}

/// A driver as mathematical values.
pub struct DriverView {
    /// What its client was set up with.
    pub settings: ClientSettings,
    /// The limit on response bodies; zero for none.
    pub response_limit: nat,
    /// The limit on request bodies; zero for none.
    pub request_limit: nat,
}

impl View for ReqwestHttpDriver {
    type V = DriverView;

    closed spec fn view(&self) -> DriverView {
        DriverView {
            settings: crate::client::client_settings(self.client),
            response_limit: self.max_response_body_bytes as nat,
            request_limit: self.max_request_body_bytes as nat,
        }
    }
}

/// A driver that waits for the contents of its CA file.
pub struct PendingDriver {
    path: String,
    timeout: Option<Duration>,
    max_response_body_bytes: usize,
    max_request_body_bytes: usize,
    proxy: Option<ProxyConfig>,
}

/// A waiting driver as mathematical values.
pub struct PendingView {
    /// The path of the CA file.
    pub path: Seq<char>,
    /// The total timeout, in nanoseconds.
    pub timeout: Option<nat>,
    pub response_limit: nat,
    pub request_limit: nat,
    pub proxy: Option<ProxySettings>,
}

/// An optional proxy as mathematical values.
pub open spec fn proxy_view(proxy: Option<ProxyConfig>) -> Option<ProxySettings> {
    match proxy {
        Some(p) => Some(p@),
        None => None,
    }
}

impl View for PendingDriver {
    type V = PendingView;

    closed spec fn view(&self) -> PendingView {
        PendingView {
            path: self.path@,
            timeout: crate::time::span_nanos(self.timeout),
            response_limit: self.max_response_body_bytes as nat,
            request_limit: self.max_request_body_bytes as nat,
            proxy: proxy_view(self.proxy),
        }
    }
}

/// How far a driver has come.
pub enum DriverBuild {
    /// It can be used.
    Ready(ReqwestHttpDriver),
    /// The file at [`PendingDriver::path`] has to be read first.
    NeedsCaFile(PendingDriver),
}

/// How far a driver has come, as mathematical values.
pub enum BuildView {
    Ready(DriverView),
    NeedsCaFile(PendingView),
}

impl View for DriverBuild {
    type V = BuildView;

    open spec fn view(&self) -> BuildView {
        match *self {
            DriverBuild::Ready(d) => BuildView::Ready(d@),
            DriverBuild::NeedsCaFile(p) => BuildView::NeedsCaFile(p@),
        }
    }
}

/// A driver, or the error that came instead.
pub open spec fn driver_result(r: Result<ReqwestHttpDriver, TransportError>) -> Result<
    DriverView,
    ErrorView,
> {
    match r {
        Ok(d) => Ok(d@),
        Err(e) => Err(e@),
    }
}

/// How far a driver has come, or the error that came instead.
pub open spec fn build_result(r: Result<DriverBuild, TransportError>) -> Result<
    BuildView,
    ErrorView,
> {
    match r {
        Ok(b) => Ok(b@),
        Err(e) => Err(e@),
    }
}

// ---------------------------------------------------------------------------
// What comes of building a driver
// ---------------------------------------------------------------------------

/// What a driver is to be built from.
pub struct Setup {
    /// The total timeout, in nanoseconds.
    pub timeout: Option<nat>,
    pub response_limit: nat,
    pub request_limit: nat,
    pub tls: Option<TlsView>,
    pub proxy: Option<ProxySettings>,
}

/// The default timeout and limits, and nothing else.
pub open spec fn default_setup() -> Setup {
    Setup {
        timeout: Some(30_000_000_000),
        response_limit: 16_777_216,
        request_limit: 16_777_216,
        tls: None,
        proxy: None,
    }
}

/// The proxies of a client that is given at most one.
pub open spec fn proxy_list(proxy: Option<ProxySettings>) -> Seq<ProxySettings> {
    match proxy {
        Some(p) => seq![p],
        None => Seq::empty(),
    }
}

/// Settings with these proxies in place of others.
pub open spec fn with_proxies(
    settings: ClientSettings,
    proxies: Seq<ProxySettings>,
) -> ClientSettings {
    ClientSettings { proxies, ..settings }
}

/// The settings of the client that a driver without a CA file is built on. Certificates go
/// unchecked in the development mode alone.
pub open spec fn setup_settings(s: Setup) -> ClientSettings {
    ClientSettings {
        timeout: s.timeout,
        roots: Seq::empty(),
        accept_invalid_certs: s.tls matches Some(t) && t.mode is InsecureDevOnly,
        proxies: proxy_list(s.proxy),
    }
}

/// The settings of the client that a driver is built on once the bytes of its CA file are
/// known.
pub open spec fn pending_settings(p: PendingView, pem: Seq<u8>) -> ClientSettings {
    ClientSettings {
        timeout: p.timeout,
        roots: seq![pem],
        accept_invalid_certs: false,
        proxies: proxy_list(p.proxy),
    }
}

/// Whether this may come of building a client with these settings: a client that has them, or
/// an error. Which of the two comes rests on the machine.
pub open spec fn client_build(
    settings: ClientSettings,
    built: Result<Client, reqwest::Error>,
) -> bool {
    built matches Ok(c) ==> crate::client::client_settings(c) == settings
}

/// Whether this may come of reading a certificate from these bytes. Which of the two comes
/// rests on the TLS backend.
pub open spec fn certificate_read(
    pem: Seq<u8>,
    certificate: Result<Certificate, reqwest::Error>,
) -> bool {
    certificate matches Ok(c) ==> crate::client::certificate_pem(c) == pem
}

/// The error with which an optional proxy is refused, where it is.
pub open spec fn proxy_option_error(proxy: Option<ProxySettings>) -> Option<ErrorView> {
    match proxy {
        Some(p) => crate::proxy::proxy_error(p),
        None => None,
    }
}

/// A driver on the client that was built, or the I/O failure that keeps the error which came
/// instead.
pub open spec fn driver_on(
    built: Result<Client, reqwest::Error>,
    response_limit: nat,
    request_limit: nat,
) -> Result<DriverView, ErrorView> {
    match built {
        Ok(c) => Ok(
            DriverView {
                settings: crate::client::client_settings(c),
                response_limit,
                request_limit,
            },
        ),
        Err(error) => Err(ErrorView::Io(SourceView::Http(error))),
    }
}

/// What comes of a driver without a CA file, given what came of building its client: the error
/// of its proxy, where that is refused, or else a driver on that client.
pub open spec fn driver_outcome(
    proxy: Option<ProxySettings>,
    response_limit: nat,
    request_limit: nat,
    built: Result<Client, reqwest::Error>,
) -> Result<DriverView, ErrorView> {
    match proxy_option_error(proxy) {
        Some(refused) => Err(refused),
        None => driver_on(built, response_limit, request_limit),
    }
}

/// What comes of [`ReqwestHttpDriver::builder`], given what came of building the client, where
/// one was built.
pub open spec fn build_outcome(s: Setup, built: Result<Client, reqwest::Error>) -> Result<
    BuildView,
    ErrorView,
> {
    if s.tls matches Some(t) && !t.sni {
        Err(ErrorView::ProtocolViolation("SNI=false 当前未接线，拒绝静默忽略"@))
    } else if s.tls matches Some(t) && t.mode is CustomCa {
        Ok(
            BuildView::NeedsCaFile(
                PendingView {
                    path: s.tls->Some_0.mode->path,
                    timeout: s.timeout,
                    response_limit: s.response_limit,
                    request_limit: s.request_limit,
                    proxy: s.proxy,
                },
            ),
        )
    } else {
        match driver_outcome(s.proxy, s.response_limit, s.request_limit, built) {
            Ok(d) => Ok(BuildView::Ready(d)),
            Err(e) => Err(e),
        }
    }
}

/// Whether this is what comes of a driver that is set up so and built at once, given what came
/// of building its client.
pub open spec fn driver_of(
    s: Setup,
    r: Result<DriverView, ErrorView>,
    built: Result<Client, reqwest::Error>,
) -> bool {
    &&& client_build(setup_settings(s), built)
    &&& r == driver_outcome(s.proxy, s.response_limit, s.request_limit, built)
}

/// Whether this is what comes of [`ReqwestHttpDriver::builder`], given what came of building the
/// client, where one was built.
pub open spec fn build_of(
    s: Setup,
    r: Result<BuildView, ErrorView>,
    built: Result<Client, reqwest::Error>,
) -> bool {
    &&& client_build(setup_settings(s), built)
    &&& r == build_outcome(s, built)
}

/// A timeout and limits, and nothing else.
pub open spec fn limits_setup(
    timeout: Option<nat>,
    response_limit: nat,
    request_limit: nat,
) -> Setup {
    Setup { timeout, response_limit, request_limit, tls: None, proxy: None }
}

/// A timeout, or none, with the default limits.
pub open spec fn timeout_setup(timeout: Option<nat>) -> Setup {
    Setup { timeout, ..default_setup() }
}

/// TLS settings with the default timeout and limits.
pub open spec fn tls_setup(tls: TlsView) -> Setup {
    Setup { tls: Some(tls), ..default_setup() }
}

/// A proxy with the default timeout and limits.
pub open spec fn proxy_setup(proxy: ProxySettings) -> Setup {
    Setup { proxy: Some(proxy), ..default_setup() }
}

/// What [`ReqwestHttpDriver::builder`] is given.
pub open spec fn given_setup(
    timeout: Option<Duration>,
    max_response_body_bytes: usize,
    max_request_body_bytes: usize,
    tls: Option<TlsConfig>,
    proxy: Option<ProxyConfig>,
) -> Setup {
    Setup {
        timeout: crate::time::span_nanos(timeout),
        response_limit: max_response_body_bytes as nat,
        request_limit: max_request_body_bytes as nat,
        tls: match tls {
            Some(t) => Some(t@),
            None => None,
        },
        proxy: proxy_view(proxy),
    }
}

/// The line that a certificate in a PEM file starts with.
pub open spec fn pem_marker() -> Seq<char> {
    "-----BEGIN CERTIFICATE-----"@
}

/// The error with which the bytes of a CA file are refused, where they are.
pub open spec fn pem_error(pem: Seq<u8>) -> Option<ErrorView> {
    if !vstd::utf8::valid_utf8(pem) {
        Some(ErrorView::ProtocolViolation("invalid CA pem: not utf-8"@))
    } else if !crate::text::contains_text(vstd::utf8::decode_utf8(pem), pem_marker()) {
        Some(ErrorView::ProtocolViolation("invalid CA pem: missing BEGIN CERTIFICATE"@))
    } else {
        None
    }
}

/// What comes of a waiting driver, given what came of reading its CA file, of reading a
/// certificate from it, and of building the client. A file that could not be read is an I/O
/// failure that keeps the error and names the file.
pub open spec fn finish_outcome(
    p: PendingView,
    read: Result<Seq<u8>, std::io::Error>,
    certificate: Result<Certificate, reqwest::Error>,
    built: Result<Client, reqwest::Error>,
) -> Result<DriverView, ErrorView> {
    match read {
        Err(error) => Err(ErrorView::Io(SourceView::CaFile { path: p.path, error })),
        Ok(pem) => match pem_error(pem) {
            Some(refused) => Err(refused),
            None => match certificate {
                Err(error) => Err(ErrorView::Io(SourceView::Http(error))),
                Ok(_) => driver_outcome(p.proxy, p.response_limit, p.request_limit, built),
            },
        },
    }
}

/// Whether this is what comes of a waiting driver, given what came of reading its CA file, of
/// reading a certificate from it, and of building the client.
pub open spec fn finish_of(
    p: PendingView,
    read: Result<Seq<u8>, std::io::Error>,
    r: Result<DriverView, ErrorView>,
    certificate: Result<Certificate, reqwest::Error>,
    built: Result<Client, reqwest::Error>,
) -> bool {
    &&& read matches Ok(pem) ==> certificate_read(pem, certificate) && client_build(
        pending_settings(p, pem),
        built,
    )
    &&& r == finish_outcome(p, read, certificate, built)
}

/// The bytes that were read, or the error that came instead.
pub open spec fn read_result(read: Result<Vec<u8>, std::io::Error>) -> Result<
    Seq<u8>,
    std::io::Error,
> {
    match read {
        Ok(pem) => Ok(pem@),
        Err(error) => Err(error),
    }
}

// ---------------------------------------------------------------------------
// Building a driver
// ---------------------------------------------------------------------------

/// A client builder with an optional timeout.
fn start_build(timeout: Option<Duration>) -> (r: ClientBuilder)
    ensures
        crate::client::builder_settings(r) == (ClientSettings {
            timeout: crate::time::span_nanos(timeout),
            ..crate::client::default_settings()
        }),
{
    let builder: ClientBuilder = Client::builder();
    match timeout {
        Some(timeout) => builder.timeout(timeout),
        None => builder,
    }
}

/// Whether the bytes of a CA file look like a PEM certificate.
pub fn check_ca_pem(pem: &Vec<u8>) -> (r: Result<(), TransportError>)
    ensures
        match r {
            Ok(_) => pem_error(pem@) is None,
            Err(e) => pem_error(pem@) == Some(e@),
        },
{
    match utf8_text(pem.as_slice()) {
        Some(text) => {
            let chars: Vec<char> = to_chars(text);
            if has_text(&chars, "-----BEGIN CERTIFICATE-----") {
                Ok(())
            } else {
                Err(
                    TransportError::ProtocolViolation(
                        "invalid CA pem: missing BEGIN CERTIFICATE".to_owned(),
                    ),
                )
            }
        },
        None => Err(TransportError::ProtocolViolation("invalid CA pem: not utf-8".to_owned())),
    }
}

impl ReqwestHttpDriver {
    /// A driver on the client that was built, or the transport error for the one that came
    /// instead.
    pub fn from_built_client(
        built: Result<Client, reqwest::Error>,
        max_response_body_bytes: usize,
        max_request_body_bytes: usize,
    ) -> (r: Result<Self, TransportError>)
        ensures
            driver_result(r) == driver_on(
                built,
                max_response_body_bytes as nat,
                max_request_body_bytes as nat,
            ),
            match built {
                Ok(c) => r matches Ok(d) && d@.settings == crate::client::client_settings(c)
                    && d@.response_limit == max_response_body_bytes && d@.request_limit
                    == max_request_body_bytes,
                Err(error) => r matches Err(e) && e@ == ErrorView::Io(SourceView::Http(error)),
            },
    {
        match built {
            Ok(client) => Ok(
                ReqwestHttpDriver { client, max_response_body_bytes, max_request_body_bytes },
            ),
            Err(error) => Err(map_client_build_error(error)),
        }
    }

    /// Adds the proxy, where there is one, and builds the client.
    fn finish_build(
        builder: ClientBuilder,
        max_response_body_bytes: usize,
        max_request_body_bytes: usize,
        proxy: &Option<ProxyConfig>,
    ) -> (r: Result<Self, TransportError>)
        requires
            crate::client::builder_settings(builder).proxies == Seq::<ProxySettings>::empty(),
        ensures
            exists|built: Result<Client, reqwest::Error>| #[trigger]
                client_build(
                    with_proxies(
                        crate::client::builder_settings(builder),
                        proxy_list(proxy_view(*proxy)),
                    ),
                    built,
                ) && driver_result(r) == driver_outcome(
                    proxy_view(*proxy),
                    max_response_body_bytes as nat,
                    max_request_body_bytes as nat,
                    built,
                ),
    {
        let ghost settings = with_proxies(
            crate::client::builder_settings(builder),
            proxy_list(proxy_view(*proxy)),
        );
        let mut builder: ClientBuilder = builder;
        match proxy {
            Some(config) => {
                let proxy: Proxy = match build_reqwest_proxy(config) {
                    Ok(proxy) => proxy,
                    Err(error) => {
                        assert(client_build(settings, Err(arbitrary())));
                        return Err(error);
                    },
                };
                builder = builder.proxy(proxy);
                assert(Seq::<ProxySettings>::empty().push(config@) =~= seq![config@]);
            },
            None => {},
        }
        let built: Result<Client, reqwest::Error> = build_client(builder);
        assert(client_build(settings, built));
        Self::from_built_client(built, max_response_body_bytes, max_request_body_bytes)
    }

    /// A driver on a client with a timeout and, where asked for, without certificate checks.
    fn build_now(
        timeout: Option<Duration>,
        max_response_body_bytes: usize,
        max_request_body_bytes: usize,
        insecure: bool,
        proxy: &Option<ProxyConfig>,
        Ghost(setup): Ghost<Setup>,
    ) -> (r: Result<Self, TransportError>)
        requires
            setup.timeout == crate::time::span_nanos(timeout),
            setup.response_limit == max_response_body_bytes,
            setup.request_limit == max_request_body_bytes,
            setup.proxy == proxy_view(*proxy),
            insecure <==> (setup.tls matches Some(t) && t.mode is InsecureDevOnly),
        ensures
            exists|built: Result<Client, reqwest::Error>| #[trigger]
                driver_of(setup, driver_result(r), built),
    {
        let mut builder: ClientBuilder = start_build(timeout);
        if insecure {
            builder = builder.danger_accept_invalid_certs(true);
        }
        let ghost settings = with_proxies(
            crate::client::builder_settings(builder),
            proxy_list(setup.proxy),
        );
        assert(settings == setup_settings(setup));
        let r: Result<Self, TransportError> = Self::finish_build(
            builder,
            max_response_body_bytes,
            max_request_body_bytes,
            proxy,
        );
        proof {
            let built = choose|built: Result<Client, reqwest::Error>| #[trigger]
                client_build(settings, built) && driver_result(r) == driver_outcome(
                    setup.proxy,
                    setup.response_limit,
                    setup.request_limit,
                    built,
                );
            assert(driver_of(setup, driver_result(r), built));
        }
        r
    }

    /// A driver with every setting given.
    ///
    /// A body limit of zero is none. `sni = false` is refused, for it is not wired up. Where
    /// the TLS mode names a CA file, the driver waits for its contents; otherwise it is built
    /// at once, or refused for its proxy, or fails with the error of the client.
    pub fn builder(
        timeout: Option<Duration>,
        max_response_body_bytes: usize,
        max_request_body_bytes: usize,
        tls: Option<TlsConfig>,
        proxy: Option<ProxyConfig>,
    ) -> (r: Result<DriverBuild, TransportError>)
        ensures
            exists|built: Result<Client, reqwest::Error>| #[trigger]
                build_of(
                    given_setup(
                        timeout,
                        max_response_body_bytes,
                        max_request_body_bytes,
                        tls,
                        proxy,
                    ),
                    build_result(r),
                    built,
                ),
            tls matches Some(t) && !t.sni ==> (r matches Err(e) && e@ is ProtocolViolation),
            tls matches Some(t) && t.sni && t.mode is CustomCa ==> r matches Ok(
                DriverBuild::NeedsCaFile(_),
            ),
            r matches Ok(DriverBuild::Ready(d)) ==> {
                &&& tls matches Some(t) ==> t.sni && !(t.mode is CustomCa)
                &&& d@.settings.timeout == crate::time::span_nanos(timeout)
                &&& d@.settings.roots.len() == 0
                &&& d@.settings.accept_invalid_certs <==> (tls matches Some(t)
                    && t.mode is InsecureDevOnly)
                &&& d@.response_limit == max_response_body_bytes
                &&& d@.request_limit == max_request_body_bytes
                &&& proxy is None ==> d@.settings.proxies.len() == 0
                &&& proxy matches Some(given) ==> d@.settings.proxies.len() == 1
                    && d@.settings.proxies[0] == given@
            },
            r matches Ok(DriverBuild::NeedsCaFile(p)) ==> {
                &&& tls matches Some(t) && t.sni && (t.mode matches TlsMode::CustomCa { path }
                    && p@.path == path@)
                &&& p@.timeout == crate::time::span_nanos(timeout)
                &&& p@.response_limit == max_response_body_bytes
                &&& p@.request_limit == max_request_body_bytes
                &&& proxy is None ==> p@.proxy is None
                &&& proxy matches Some(given) ==> p@.proxy == Some(given@)
            },
    {
        let ghost setup = given_setup(
            timeout,
            max_response_body_bytes,
            max_request_body_bytes,
            tls,
            proxy,
        );
        let ghost none: Result<Client, reqwest::Error> = Err(arbitrary());
        let mut insecure: bool = false;
        if let Some(tls) = tls {
            if !tls.sni {
                let refused: Result<DriverBuild, TransportError> = Err(
                    TransportError::ProtocolViolation(
                        "SNI=false 当前未接线，拒绝静默忽略".to_owned(),
                    ),
                );
                assert(build_of(setup, build_result(refused), none));
                return refused;
            }
            match tls.mode {
                TlsMode::SystemRoots => {},
                TlsMode::CustomCa { path } => {
                    let waiting: Result<DriverBuild, TransportError> = Ok(
                        DriverBuild::NeedsCaFile(
                            PendingDriver {
                                path,
                                timeout,
                                max_response_body_bytes,
                                max_request_body_bytes,
                                proxy,
                            },
                        ),
                    );
                    assert(build_of(setup, build_result(waiting), none));
                    return waiting;
                },
                TlsMode::InsecureDevOnly => {
                    insecure = true;
                },
            }
        }
        let driver: Result<Self, TransportError> = Self::build_now(
            timeout,
            max_response_body_bytes,
            max_request_body_bytes,
            insecure,
            &proxy,
            Ghost(setup),
        );
        let ghost built = choose|built: Result<Client, reqwest::Error>| #[trigger]
            driver_of(setup, driver_result(driver), built);
        let r: Result<DriverBuild, TransportError> = match driver {
            Ok(driver) => Ok(DriverBuild::Ready(driver)),
            Err(error) => Err(error),
        };
        assert(build_of(setup, build_result(r), built));
        r
    }

    /// A driver with a timeout and body limits; a limit of zero is none.
    pub fn with_limits(
        timeout: Option<Duration>,
        max_response_body_bytes: usize,
        max_request_body_bytes: usize,
    ) -> (r: Result<Self, TransportError>)
        ensures
            exists|built: Result<Client, reqwest::Error>| #[trigger]
                driver_of(
                    limits_setup(
                        crate::time::span_nanos(timeout),
                        max_response_body_bytes as nat,
                        max_request_body_bytes as nat,
                    ),
                    driver_result(r),
                    built,
                ),
            r matches Ok(d) ==> {
                &&& d@.settings.timeout == crate::time::span_nanos(timeout)
                &&& d@.settings.roots.len() == 0
                &&& !d@.settings.accept_invalid_certs
                &&& d@.response_limit == max_response_body_bytes
                &&& d@.request_limit == max_request_body_bytes
                &&& d@.settings.proxies.len() == 0
            },
            r matches Err(e) ==> e@ is Io,
    {
        Self::build_now(
            timeout,
            max_response_body_bytes,
            max_request_body_bytes,
            false,
            &None,
            Ghost(
                limits_setup(
                    crate::time::span_nanos(timeout),
                    max_response_body_bytes as nat,
                    max_request_body_bytes as nat,
                ),
            ),
        )
    }

    /// A driver with a timeout, or explicitly without one, and the default body limits.
    pub fn with_timeout(timeout: Option<Duration>) -> (r: Result<Self, TransportError>)
        ensures
            exists|built: Result<Client, reqwest::Error>| #[trigger]
                driver_of(
                    timeout_setup(crate::time::span_nanos(timeout)),
                    driver_result(r),
                    built,
                ),
            r matches Ok(d) ==> {
                &&& d@.settings.timeout == crate::time::span_nanos(timeout)
                &&& d@.settings.roots.len() == 0
                &&& !d@.settings.accept_invalid_certs
                &&& d@.response_limit == 16_777_216
                &&& d@.request_limit == 16_777_216
                &&& d@.settings.proxies.len() == 0
            },
            r matches Err(e) ==> e@ is Io,
    {
        Self::with_limits(
            timeout,
            crate::DEFAULT_MAX_RESPONSE_BODY_BYTES,
            crate::DEFAULT_MAX_REQUEST_BODY_BYTES,
        )
    }

    /// A driver with the default timeout and the default body limits.
    pub fn new() -> (r: Result<Self, TransportError>)
        ensures
            exists|built: Result<Client, reqwest::Error>| #[trigger]
                driver_of(default_setup(), driver_result(r), built),
            r matches Ok(d) ==> {
                &&& d@.settings.timeout == Some(30_000_000_000nat)
                &&& d@.settings.roots.len() == 0
                &&& !d@.settings.accept_invalid_certs
                &&& d@.response_limit == 16_777_216
                &&& d@.request_limit == 16_777_216
                &&& d@.settings.proxies.len() == 0
            },
            r matches Err(e) ==> e@ is Io,
    {
        Self::with_timeout(Some(default_request_timeout()))
    }

    /// A driver with a TLS configuration and the default timeout and limits.
    pub fn with_tls(tls: TlsConfig) -> (r: Result<DriverBuild, TransportError>)
        ensures
            exists|built: Result<Client, reqwest::Error>| #[trigger]
                build_of(
                    tls_setup(tls@),
                    build_result(r),
                    built,
                ),
            !tls.sni ==> (r matches Err(e) && e@ is ProtocolViolation),
            tls.sni && tls.mode is CustomCa ==> r matches Ok(DriverBuild::NeedsCaFile(_)),
            r matches Ok(DriverBuild::Ready(d)) ==> {
                &&& tls.sni && !(tls.mode is CustomCa)
                &&& d@.settings.timeout == Some(30_000_000_000nat)
                &&& d@.settings.roots.len() == 0
                &&& d@.settings.accept_invalid_certs <==> tls.mode is InsecureDevOnly
                &&& d@.response_limit == 16_777_216
                &&& d@.request_limit == 16_777_216
                &&& d@.settings.proxies.len() == 0
            },
            r matches Ok(DriverBuild::NeedsCaFile(p)) ==> {
                &&& tls.sni
                &&& tls.mode matches TlsMode::CustomCa { path } && p@.path == path@
                &&& p@.timeout == Some(30_000_000_000nat)
                &&& p@.response_limit == 16_777_216
                &&& p@.request_limit == 16_777_216
                &&& p@.proxy is None
            },
    {
        Self::builder(
            Some(default_request_timeout()),
            crate::DEFAULT_MAX_RESPONSE_BODY_BYTES,
            crate::DEFAULT_MAX_REQUEST_BODY_BYTES,
            Some(tls),
            None,
        )
    }

    /// A driver with a proxy and the default timeout and limits.
    pub fn with_proxy(proxy: ProxyConfig) -> (r: Result<Self, TransportError>)
        ensures
            exists|built: Result<Client, reqwest::Error>| #[trigger]
                driver_of(
                    proxy_setup(proxy@),
                    driver_result(r),
                    built,
                ),
            r matches Ok(d) ==> {
                &&& d@.settings.timeout == Some(30_000_000_000nat)
                &&& d@.settings.roots.len() == 0
                &&& !d@.settings.accept_invalid_certs
                &&& d@.response_limit == 16_777_216
                &&& d@.request_limit == 16_777_216
                &&& d@.settings.proxies.len() == 1
                &&& d@.settings.proxies[0] == proxy@
                &&& crate::proxy::proxy_error(proxy@) is None
            },
            crate::proxy::proxy_error(proxy@) matches Some(refused) ==> (r matches Err(e) && e@
                == refused),
    {
        let ghost setup = proxy_setup(proxy@);
        Self::build_now(
            Some(default_request_timeout()),
            crate::DEFAULT_MAX_RESPONSE_BODY_BYTES,
            crate::DEFAULT_MAX_REQUEST_BODY_BYTES,
            false,
            &Some(proxy),
            Ghost(setup),
        )
    }

    /// The limit on response bodies, in bytes; zero for none.
    pub fn max_response_body_bytes(&self) -> (r: usize)
        ensures
            r == self@.response_limit,
    {
        self.max_response_body_bytes
    }

    /// The limit on request bodies, in bytes; zero for none.
    pub fn max_request_body_bytes(&self) -> (r: usize)
        ensures
            r == self@.request_limit,
    {
        self.max_request_body_bytes
    }

    /// The client that sends the prepared requests.
    pub fn client(&self) -> (r: &Client)
        ensures
            crate::client::client_settings(*r) == self@.settings,
    {
        &self.client
    }

    /// The text of the driver: its limits, and nothing of the client.
    pub fn debug_string(&self) -> (r: String)
        ensures
            r@ == "ReqwestHttpDriver { max_response_body_bytes: "@ + crate::text::decimal(
                self@.response_limit,
            ) + ", max_request_body_bytes: "@ + crate::text::decimal(self@.request_limit)
                + ", .. }"@,
    {
        let mut out: String = "ReqwestHttpDriver { max_response_body_bytes: ".to_owned();
        push_decimal(&mut out, self.max_response_body_bytes as u64);
        out.append(", max_request_body_bytes: ");
        push_decimal(&mut out, self.max_request_body_bytes as u64);
        out.append(", .. }");
        out
    }
}

impl Clone for ReqwestHttpDriver {
    fn clone(&self) -> (r: Self)
        ensures
            r@ == self@,
    {
        ReqwestHttpDriver {
            client: self.client.clone(),
            max_response_body_bytes: self.max_response_body_bytes,
            max_request_body_bytes: self.max_request_body_bytes,
        }
    }
}

impl PendingDriver {
    /// The path of the CA file to read.
    pub fn path(&self) -> (r: &str)
        ensures
            r@ == self@.path,
    {
        self.path.as_str()
    }

    /// The driver, once a certificate is read from the CA file, or the transport error for the
    /// one that came instead.
    pub fn finish_with(self, certificate: Result<Certificate, reqwest::Error>) -> (r: Result<
        ReqwestHttpDriver,
        TransportError,
    >)
        ensures
            match certificate {
                Ok(c) => exists|built: Result<Client, reqwest::Error>| #[trigger]
                    client_build(
                        pending_settings(self@, crate::client::certificate_pem(c)),
                        built,
                    ) && driver_result(r) == driver_outcome(
                        self@.proxy,
                        self@.response_limit,
                        self@.request_limit,
                        built,
                    ),
                Err(error) => r matches Err(e) && e@ == ErrorView::Io(SourceView::Http(error)),
            },
            r matches Ok(d) ==> {
                &&& certificate is Ok
                &&& d@.settings.timeout == self@.timeout
                &&& d@.settings.roots.len() == 1
                &&& d@.settings.roots[0] == crate::client::certificate_pem(certificate->Ok_0)
                &&& !d@.settings.accept_invalid_certs
                &&& d@.response_limit == self@.response_limit
                &&& d@.request_limit == self@.request_limit
                &&& self@.proxy is None ==> d@.settings.proxies.len() == 0
                &&& self@.proxy matches Some(given) ==> d@.settings.proxies.len() == 1
                    && d@.settings.proxies[0] == given
            },
    {
        match certificate {
            Ok(certificate) => {
                let ghost pem = crate::client::certificate_pem(certificate);
                assert(Seq::<Seq<u8>>::empty().push(pem) =~= seq![pem]);
                ReqwestHttpDriver::finish_build(
                    start_build(self.timeout).add_root_certificate(certificate),
                    self.max_response_body_bytes,
                    self.max_request_body_bytes,
                    &self.proxy,
                )
            },
            Err(error) => Err(map_client_build_error(error)),
        }
    }

    /// The driver, given what came of reading the CA file. A file that could not be read is an
    /// I/O failure that keeps the error. Bytes that are no text, or hold no certificate header,
    /// are refused.
    pub fn finish(self, read: Result<Vec<u8>, std::io::Error>) -> (r: Result<
        ReqwestHttpDriver,
        TransportError,
    >)
        ensures
            exists|
                certificate: Result<Certificate, reqwest::Error>,
                built: Result<Client, reqwest::Error>,
            | #[trigger]
                finish_of(self@, read_result(read), driver_result(r), certificate, built),
            read matches Err(error) ==> (r matches Err(TransportError::Io(source))
                && crate::error::source_kind(source@) == Some(crate::io::error_kind(error))),
            r matches Ok(d) ==> {
                &&& read is Ok
                &&& pem_error(read->Ok_0@) is None
                &&& d@.settings.timeout == self@.timeout
                &&& d@.settings.roots.len() == 1
                &&& d@.settings.roots[0] == read->Ok_0@
                &&& !d@.settings.accept_invalid_certs
                &&& d@.response_limit == self@.response_limit
                &&& d@.request_limit == self@.request_limit
                &&& self@.proxy is None ==> d@.settings.proxies.len() == 0
                &&& self@.proxy matches Some(given) ==> d@.settings.proxies.len() == 1
                    && d@.settings.proxies[0] == given
            },
    {
        let ghost before = self@;
        let ghost given = read_result(read);
        match read {
            Ok(pem) => {
                match check_ca_pem(&pem) {
                    Ok(_) => {},
                    Err(error) => {
                        assert(finish_of(
                            before,
                            given,
                            Err(error@),
                            Err(arbitrary()),
                            Err(arbitrary()),
                        ));
                        return Err(error);
                    },
                }
                let certificate: Result<Certificate, reqwest::Error> = certificate_from_pem(
                    pem.as_slice(),
                );
                let ghost c = certificate;
                let r: Result<ReqwestHttpDriver, TransportError> = self.finish_with(certificate);
                proof {
                    let built = if c is Ok {
                        choose|built: Result<Client, reqwest::Error>| #[trigger]
                            client_build(pending_settings(before, pem@), built) && driver_result(r)
                                == driver_outcome(
                                before.proxy,
                                before.response_limit,
                                before.request_limit,
                                built,
                            )
                    } else {
                        Err(arbitrary())
                    };
                    assert(finish_of(before, given, driver_result(r), c, built));
                }
                r
            },
            Err(error) => {
                let r: Result<ReqwestHttpDriver, TransportError> = Err(
                    TransportError::Io(IoSource::CaFile { path: self.path, error }),
                );
                assert(finish_of(
                    before,
                    given,
                    driver_result(r),
                    Err(arbitrary()),
                    Err(arbitrary()),
                ));
                r
            },
        }
    }
}

// ---------------------------------------------------------------------------
// Laws
// ---------------------------------------------------------------------------

/// `sni = false` is refused, whatever else is configured and whatever a client build would
/// give.
pub proof fn law_sni_off_is_refused(s: Setup, built: Result<Client, reqwest::Error>)
    requires
        s.tls matches Some(t) && !t.sni,
    ensures
        build_outcome(s, built) matches Err(e) && e is ProtocolViolation,
{
}

/// Certificates go unchecked in the development mode alone: a driver that is built at once
/// accepts invalid certificates exactly where that mode was asked for, and one with a CA file
/// never does.
pub proof fn law_certificates_are_checked_unless_insecure(
    s: Setup,
    r: Result<BuildView, ErrorView>,
    built: Result<Client, reqwest::Error>,
    p: PendingView,
    pem: Seq<u8>,
)
    requires
        build_of(s, r, built),
    ensures
        r matches Ok(BuildView::Ready(d)) ==> (d.settings.accept_invalid_certs <==> (
        s.tls matches Some(t) && t.mode is InsecureDevOnly)),
        !pending_settings(p, pem).accept_invalid_certs,
{
}

/// Whether two outcomes are of one kind: both succeeded alike, or both failed with the same
/// class of error.
pub open spec fn end_alike<T>(a: Result<T, ErrorView>, b: Result<T, ErrorView>) -> bool {
    match (a, b) {
        (Ok(x), Ok(y)) => x == y,
        (Err(x), Err(y)) => x == y || (x is Io && y is Io),
        _ => false,
    }
}

/// [`ReqwestHttpDriver::with_tls`] ends as [`ReqwestHttpDriver::builder`] does with 30 seconds,
/// 16 MiB each way and no proxy. Where the client builds end the same, so do the two calls;
/// where both or neither succeed, they end alike; and where a CA file has to be read, both wait
/// for it in the same way, whatever the builds.
pub proof fn law_with_tls_is_builder_with_defaults(
    tls: TlsView,
    a: Result<BuildView, ErrorView>,
    b: Result<BuildView, ErrorView>,
    built_a: Result<Client, reqwest::Error>,
    built_b: Result<Client, reqwest::Error>,
)
    requires
        build_of(tls_setup(tls), a, built_a),
        build_of(
            (Setup {
                timeout: Some(30_000_000_000),
                response_limit: 16_777_216,
                request_limit: 16_777_216,
                tls: Some(tls),
                proxy: None,
            }),
            b,
            built_b,
        ),
    ensures
        built_a == built_b ==> a == b,
        (built_a is Ok <==> built_b is Ok) ==> end_alike(a, b),
        !tls.sni || tls.mode is CustomCa ==> a == b,
{
}

/// [`ReqwestHttpDriver::with_timeout`] ends as [`ReqwestHttpDriver::with_limits`] does with
/// 16 MiB each way. Where the client builds end the same, so do the two calls; where both or
/// neither succeed, they end alike. The timeout of the driver is the one given, and there is
/// none where none was given.
pub proof fn law_with_timeout_is_with_limits_with_defaults(
    timeout: Option<nat>,
    a: Result<DriverView, ErrorView>,
    b: Result<DriverView, ErrorView>,
    built_a: Result<Client, reqwest::Error>,
    built_b: Result<Client, reqwest::Error>,
)
    requires
        driver_of(timeout_setup(timeout), a, built_a),
        driver_of(limits_setup(timeout, 16_777_216, 16_777_216), b, built_b),
    ensures
        built_a == built_b ==> a == b,
        (built_a is Ok <==> built_b is Ok) ==> end_alike(a, b),
        a is Ok <==> built_a is Ok,
        a matches Ok(d) ==> d.settings.timeout == timeout && d.response_limit == 16_777_216
            && d.request_limit == 16_777_216,
{
}

/// Two waiting drivers that are set up alike end alike on the same file: where reading the
/// certificate and building the client end the same, so do they.
pub proof fn law_same_file_same_driver(
    p: PendingView,
    read: Result<Seq<u8>, std::io::Error>,
    a: Result<DriverView, ErrorView>,
    b: Result<DriverView, ErrorView>,
    certificate_a: Result<Certificate, reqwest::Error>,
    certificate_b: Result<Certificate, reqwest::Error>,
    built_a: Result<Client, reqwest::Error>,
    built_b: Result<Client, reqwest::Error>,
)
    requires
        finish_of(p, read, a, certificate_a, built_a),
        finish_of(p, read, b, certificate_b, built_b),
    ensures
        certificate_a == certificate_b && built_a == built_b ==> a == b,
        (certificate_a is Ok <==> certificate_b is Ok) && (built_a is Ok <==> built_b is Ok)
            ==> end_alike(a, b),
{
}

/// A CA file that cannot be read is an I/O failure that keeps the error of the read, its kind
/// included, and names the file: no driver comes of it, on whatever roots.
pub proof fn law_unreadable_ca_file_is_an_error(
    p: PendingView,
    error: std::io::Error,
    r: Result<DriverView, ErrorView>,
    certificate: Result<Certificate, reqwest::Error>,
    built: Result<Client, reqwest::Error>,
)
    requires
        finish_of(p, Err(error), r, certificate, built),
    ensures
        r matches Err(ErrorView::Io(source)) && source == (SourceView::CaFile {
            path: p.path,
            error,
        }) && crate::error::source_kind(source) == Some(crate::io::error_kind(error)),
{
}

// ---------------------------------------------------------------------------
// Laws in plain terms
// ---------------------------------------------------------------------------

/// Which transport error each error of the client is: a timeout first of all, while connecting
/// or later; then a request that cannot be put together, with the message of the client; and
/// else an I/O failure that keeps the error.
pub proof fn law_which_client_error_is_which(f: FaultView, error: reqwest::Error)
    ensures
        f.is_timeout && f.is_connect ==> fault_error(f, error) is ConnectTimeout,
        f.is_timeout && !f.is_connect ==> fault_error(f, error) is ReadTimeout,
        !f.is_timeout && f.is_builder ==> fault_error(f, error) == ErrorView::ProtocolViolation(
            f.text,
        ),
        !f.is_timeout && !f.is_builder ==> fault_error(f, error) == ErrorView::Io(
            SourceView::Http(error),
        ),
        timeout_error(false, f.is_connect) is None,
        timeout_error(true, true) == Some(ErrorView::ConnectTimeout),
        timeout_error(true, false) == Some(ErrorView::ReadTimeout),
        fault_class(true, true, f.is_builder) is ConnectTimeout,
        fault_class(true, false, f.is_builder) is ReadTimeout,
        fault_class(false, f.is_connect, true) is BadRequest,
        fault_class(false, f.is_connect, false) is Io,
{
}

/// What a driver is to be built from is what was given, each in its place; what was not given
/// is 30 seconds, 16 MiB each way, no TLS settings and no proxy.
pub proof fn law_a_setup_is_what_was_given(
    timeout: Option<Duration>,
    nanos: Option<nat>,
    response: usize,
    request: usize,
    tls: Option<TlsConfig>,
    tls_view: TlsView,
    proxy: Option<ProxyConfig>,
    settings: ProxySettings,
)
    ensures
        ({
            let s = given_setup(timeout, response, request, tls, proxy);
            &&& timeout is None ==> s.timeout is None
            &&& timeout matches Some(d) ==> s.timeout == Some(crate::time::duration_nanos(d))
            &&& s.response_limit == response
            &&& s.request_limit == request
            &&& tls is None ==> s.tls is None
            &&& tls matches Some(t) ==> s.tls == Some(t@)
            &&& proxy is None ==> s.proxy is None
            &&& proxy matches Some(p) ==> s.proxy == Some(p@)
        }),
        ({
            let s = limits_setup(nanos, response as nat, request as nat);
            s.timeout == nanos && s.response_limit == response && s.request_limit == request
                && s.tls is None && s.proxy is None
        }),
        ({
            let s = timeout_setup(nanos);
            s.timeout == nanos && s.response_limit == 16_777_216 && s.request_limit == 16_777_216
                && s.tls is None && s.proxy is None
        }),
        ({
            let s = default_setup();
            s.timeout == Some(30_000_000_000nat) && s.response_limit == 16_777_216
                && s.request_limit == 16_777_216 && s.tls is None && s.proxy is None
        }),
        ({
            let s = tls_setup(tls_view);
            s.timeout == Some(30_000_000_000nat) && s.response_limit == 16_777_216
                && s.request_limit == 16_777_216 && s.tls == Some(tls_view) && s.proxy is None
        }),
        ({
            let s = proxy_setup(settings);
            s.timeout == Some(30_000_000_000nat) && s.response_limit == 16_777_216
                && s.request_limit == 16_777_216 && s.tls is None && s.proxy == Some(settings)
        }),
{
}

/// The outcome of a call is the driver that came, or the error that came, and nothing else; so
/// is that of a read.
pub proof fn law_outcomes_are_what_came(
    d: ReqwestHttpDriver,
    p: PendingDriver,
    e: TransportError,
    pem: Vec<u8>,
    error: std::io::Error,
    proxy: ProxyConfig,
)
    ensures
        driver_result(Ok(d)) == Ok::<DriverView, ErrorView>(d@),
        driver_result(Err(e)) == Err::<DriverView, ErrorView>(e@),
        build_result(Ok(DriverBuild::Ready(d))) == Ok::<BuildView, ErrorView>(
            BuildView::Ready(d@),
        ),
        build_result(Ok(DriverBuild::NeedsCaFile(p))) == Ok::<BuildView, ErrorView>(
            BuildView::NeedsCaFile(p@),
        ),
        build_result(Err(e)) == Err::<BuildView, ErrorView>(e@),
        read_result(Ok(pem)) == Ok::<Seq<u8>, std::io::Error>(pem@),
        read_result(Err(error)) == Err::<Seq<u8>, std::io::Error>(error),
        proxy_view(Some(proxy)) == Some(proxy@),
        proxy_view(None) is None,
{
}

/// A driver that is built at once has what was asked for: the timeout, or none; the two limits,
/// each in its place; no added certificates; certificates checked unless the development mode
/// was asked for; and, where a proxy was given, that proxy alone, with its URL and credentials,
/// and else none.
pub proof fn law_a_driver_has_what_was_asked_for(
    s: Setup,
    r: Result<DriverView, ErrorView>,
    built: Result<Client, reqwest::Error>,
)
    requires
        driver_of(s, r, built),
    ensures
        r matches Ok(d) ==> {
            &&& d.settings.timeout == s.timeout
            &&& d.settings.roots.len() == 0
            &&& d.settings.accept_invalid_certs <==> (s.tls is Some
                && s.tls->Some_0.mode is InsecureDevOnly)
            &&& d.response_limit == s.response_limit
            &&& d.request_limit == s.request_limit
            &&& s.proxy is None ==> d.settings.proxies.len() == 0
            &&& s.proxy is Some ==> d.settings.proxies.len() == 1 && d.settings.proxies[0].url
                == s.proxy->Some_0.url && d.settings.proxies[0].auth == s.proxy->Some_0.auth
        },
        r is Ok ==> built is Ok && (s.proxy matches Some(p) ==> crate::proxy::proxy_error(p)
            is None),
{
}

/// A driver comes exactly where its proxy is not refused and its client is built. A refused
/// proxy is the error of that proxy, and a failed build an I/O failure that keeps its error.
pub proof fn law_when_a_driver_comes(
    s: Setup,
    r: Result<DriverView, ErrorView>,
    built: Result<Client, reqwest::Error>,
)
    requires
        driver_of(s, r, built),
    ensures
        ({
            let refused = s.proxy is Some && crate::proxy::proxy_error(s.proxy->Some_0) is Some;
            &&& r is Ok <==> !refused && built is Ok
            &&& refused ==> r == Err::<DriverView, ErrorView>(
                crate::proxy::proxy_error(s.proxy->Some_0)->Some_0,
            )
            &&& !refused && built is Err ==> r == Err::<DriverView, ErrorView>(
                ErrorView::Io(SourceView::Http(built->Err_0)),
            )
        }),
{
}

/// The builder refuses a server name that is not sent; waits, with all that it was given, where
/// a CA file is named; and otherwise ends as a driver that is built at once.
pub proof fn law_what_the_builder_does(
    s: Setup,
    r: Result<BuildView, ErrorView>,
    built: Result<Client, reqwest::Error>,
)
    requires
        build_of(s, r, built),
    ensures
        s.tls matches Some(t) && !t.sni ==> r == Err::<BuildView, ErrorView>(
            ErrorView::ProtocolViolation("SNI=false 当前未接线，拒绝静默忽略"@),
        ),
        s.tls is Some && s.tls->Some_0.sni && s.tls->Some_0.mode is CustomCa ==> {
            &&& r matches Ok(BuildView::NeedsCaFile(p))
            &&& p.path == s.tls->Some_0.mode->path
            &&& p.timeout == s.timeout
            &&& p.response_limit == s.response_limit
            &&& p.request_limit == s.request_limit
            &&& p.proxy == s.proxy
        },
        s.tls is None || (s.tls->Some_0.sni && !(s.tls->Some_0.mode is CustomCa)) ==> match r {
            Ok(BuildView::Ready(d)) => driver_of(s, Ok(d), built),
            Ok(BuildView::NeedsCaFile(_)) => false,
            Err(e) => driver_of(s, Err(e), built),
        },
{
}

/// The bytes of a CA file are taken exactly where they are UTF-8 and the header of a
/// certificate stands somewhere in them; the error says which of the two is missing.
pub proof fn law_which_ca_files_are_taken(pem: Seq<u8>)
    ensures
        ({
            let text = vstd::utf8::decode_utf8(pem);
            let held = exists|pre: Seq<char>, post: Seq<char>|
                text == #[trigger] (pre + "-----BEGIN CERTIFICATE-----"@ + post);
            &&& pem_error(pem) is None <==> vstd::utf8::valid_utf8(pem) && held
            &&& !vstd::utf8::valid_utf8(pem) ==> pem_error(pem) == Some(
                ErrorView::ProtocolViolation("invalid CA pem: not utf-8"@),
            )
            &&& vstd::utf8::valid_utf8(pem) && !held ==> pem_error(pem) == Some(
                ErrorView::ProtocolViolation("invalid CA pem: missing BEGIN CERTIFICATE"@),
            )
        }),
{
    crate::text::law_holding_a_text_is_having_it_between(
        vstd::utf8::decode_utf8(pem),
        "-----BEGIN CERTIFICATE-----"@,
    );
}

/// A driver that waited for its CA file comes only from a file that was read and taken, and
/// then has what was asked for: the timeout; the two limits, each in its place; the bytes of
/// the file as its one added root; certificates checked; and its proxy alone, where it has one.
pub proof fn law_a_driver_with_a_ca_file_has_what_was_asked_for(
    p: PendingView,
    read: Result<Seq<u8>, std::io::Error>,
    r: Result<DriverView, ErrorView>,
    certificate: Result<Certificate, reqwest::Error>,
    built: Result<Client, reqwest::Error>,
)
    requires
        finish_of(p, read, r, certificate, built),
    ensures
        r matches Ok(d) ==> {
            &&& read is Ok
            &&& pem_error(read->Ok_0) is None
            &&& certificate is Ok
            &&& built is Ok
            &&& d.settings.timeout == p.timeout
            &&& d.settings.roots.len() == 1
            &&& d.settings.roots[0] == read->Ok_0
            &&& crate::client::certificate_pem(certificate->Ok_0) == read->Ok_0
            &&& !d.settings.accept_invalid_certs
            &&& d.response_limit == p.response_limit
            &&& d.request_limit == p.request_limit
            &&& p.proxy is None ==> d.settings.proxies.len() == 0
            &&& p.proxy is Some ==> d.settings.proxies.len() == 1 && d.settings.proxies[0].url
                == p.proxy->Some_0.url && d.settings.proxies[0].auth == p.proxy->Some_0.auth
                && crate::proxy::proxy_error(p.proxy->Some_0) is None
        },
        read is Err ==> r == Err::<DriverView, ErrorView>(
            ErrorView::Io(SourceView::CaFile { path: p.path, error: read->Err_0 }),
        ),
        read is Ok && pem_error(read->Ok_0) is Some ==> r == Err::<DriverView, ErrorView>(
            pem_error(read->Ok_0)->Some_0,
        ),
        read is Ok && pem_error(read->Ok_0) is None ==> {
            let refused = p.proxy is Some && crate::proxy::proxy_error(p.proxy->Some_0) is Some;
            &&& certificate is Err ==> r == Err::<DriverView, ErrorView>(
                ErrorView::Io(SourceView::Http(certificate->Err_0)),
            )
            &&& certificate is Ok && refused ==> r == Err::<DriverView, ErrorView>(
                crate::proxy::proxy_error(p.proxy->Some_0)->Some_0,
            )
            &&& certificate is Ok && !refused && built is Err ==> r == Err::<
                DriverView,
                ErrorView,
            >(ErrorView::Io(SourceView::Http(built->Err_0)))
            &&& certificate is Ok && !refused && built is Ok ==> r is Ok
        },
{
}

/// The client of a driver is asked for what was given and no more: the timeout, or none; the
/// bytes of the CA file as the one added root, where there is one; certificates unchecked in
/// the development mode alone; and the proxy alone, where there is one. To set proxies leaves
/// every other setting as it was.
pub proof fn law_settings_are_what_was_given(
    s: Setup,
    p: PendingView,
    pem: Seq<u8>,
    c: ClientSettings,
    given: ProxySettings,
)
    ensures
        setup_settings(s).timeout == s.timeout,
        setup_settings(s).roots.len() == 0,
        setup_settings(s).accept_invalid_certs <==> (s.tls matches Some(t)
            && t.mode is InsecureDevOnly),
        s.proxy is None ==> setup_settings(s).proxies.len() == 0,
        s.proxy == Some(given) ==> setup_settings(s).proxies.len() == 1
            && setup_settings(s).proxies[0] == given,
        pending_settings(p, pem).timeout == p.timeout,
        pending_settings(p, pem).roots.len() == 1,
        pending_settings(p, pem).roots[0] == pem,
        !pending_settings(p, pem).accept_invalid_certs,
        p.proxy is None ==> pending_settings(p, pem).proxies.len() == 0,
        p.proxy == Some(given) ==> pending_settings(p, pem).proxies.len() == 1
            && pending_settings(p, pem).proxies[0] == given,
        proxy_list(Some(given)).len() == 1,
        proxy_list(Some(given))[0] == given,
        proxy_list(None).len() == 0,
        with_proxies(c, proxy_list(Some(given))).proxies.len() == 1,
        with_proxies(c, proxy_list(Some(given))).timeout == c.timeout,
        with_proxies(c, proxy_list(Some(given))).roots == c.roots,
        with_proxies(c, proxy_list(Some(given))).accept_invalid_certs == c.accept_invalid_certs,
{
}

} // verus!
