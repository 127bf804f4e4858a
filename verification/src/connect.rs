//! The connector: from a target to the address to dial and the timeouts to
//! dial it with.

use crate::address::decode_unix_path;
use crate::address::unix_path_of;
use crate::address::Address;
use crate::address::AddressView;
use crate::address::PathError;
use crate::address::SocketAddress;
use crate::address::hex_encoded;
use crate::address::lemma_unix_path_round_trip;
use crate::http::bytes_eq;
use crate::service::InvocationService;
use crate::time::TimeSpan;
use std::future::Ready;
use std::task::Context;
use std::task::Poll;
use vstd::prelude::*;
use vstd::utf8::encode_utf8;
use vstd::utf8::encode_utf8_decode_utf8;

verus! {

/// The three timeouts of a dial. An unset timeout does not limit.
#[derive(Clone, Copy, Debug)]
pub struct Config {
    /// Caps the dial itself.
    pub connect_timeout: Option<TimeSpan>,
    /// Applies to reads on the stream that the dial gives.
    pub read_timeout: Option<TimeSpan>,
    /// Applies to writes on the stream that the dial gives.
    pub write_timeout: Option<TimeSpan>,
}

impl Default for Config {
    /// No timeout is set.
    fn default() -> (cfg: Config)
        ensures
            cfg.connect_timeout is None,
            cfg.read_timeout is None,
            cfg.write_timeout is None,
    {
        Config { connect_timeout: None, read_timeout: None, write_timeout: None }
    }
}

/// The maker of transports: it holds the timeouts that every dial gets.
#[derive(Clone, Copy, Debug)]
pub struct DefaultMakeTransport {
    cfg: Config,
}

impl DefaultMakeTransport {
    /// The timeouts that a dial gets.
    pub closed spec fn timeouts(&self) -> Config {
        self.cfg
    }

    /// A maker with no timeout set.
    pub fn new() -> (maker: DefaultMakeTransport)
        ensures
            maker.timeouts().connect_timeout is None,
            maker.timeouts().read_timeout is None,
            maker.timeouts().write_timeout is None,
    {
        DefaultMakeTransport { cfg: Config::default() }
    }

    pub fn config(&self) -> (cfg: Config)
        ensures
            cfg == self.timeouts(),
    {
        self.cfg
    }

    pub fn set_connect_timeout(&mut self, timeout: Option<TimeSpan>)
        ensures
            final(self).timeouts() == (Config { connect_timeout: timeout, ..old(self).timeouts() }),
    {
        self.cfg.connect_timeout = timeout;
    }

    pub fn set_read_timeout(&mut self, timeout: Option<TimeSpan>)
        ensures
            final(self).timeouts() == (Config { read_timeout: timeout, ..old(self).timeouts() }),
    {
        self.cfg.read_timeout = timeout;
    }

    pub fn set_write_timeout(&mut self, timeout: Option<TimeSpan>)
        ensures
            final(self).timeouts() == (Config { write_timeout: timeout, ..old(self).timeouts() }),
    {
        self.cfg.write_timeout = timeout;
    }
}

/// What a connection target says, as plain values.
#[derive(Debug)]
pub struct TargetUri {
    /// The scheme, where the target has one.
    pub scheme: Option<String>,
    /// The authority: `host:port`, or the hex form of a path.
    pub authority: String,
    /// The authority read strictly as a socket address, where it is one.
    pub socket: Option<SocketAddress>,
}

/// Why a target gives nothing to dial.
#[derive(Clone, Copy, PartialEq, Eq, Structural, Debug)]
pub enum ConnectError {
    /// The authority of an `http` target is no socket address.
    InvalidSocketAddr,
    /// The authority of an `http+unix` target is no hex text.
    InvalidHexPath,
    /// The path of an `http+unix` target is not UTF-8.
    InvalidUtf8Path,
    /// The scheme is neither `http` nor `http+unix`.
    UnsupportedScheme,
}

/// The two conditions that a failed resolution reports.
#[derive(Clone, Copy, PartialEq, Eq, Structural, Debug)]
pub enum ConnectErrorKind {
    InvalidInput,
    Unimplemented,
}

impl ConnectError {
    /// Invalid input for a malformed authority, unimplemented for a scheme
    /// that the connector does not know.
    pub open spec fn kind_of(self) -> ConnectErrorKind {
        match self {
            ConnectError::UnsupportedScheme => ConnectErrorKind::Unimplemented,
            _ => ConnectErrorKind::InvalidInput,
        }
    }

    pub fn kind(&self) -> (kind: ConnectErrorKind)
        ensures
            kind == self.kind_of(),
    {
        match self {
            ConnectError::UnsupportedScheme => ConnectErrorKind::Unimplemented,
            _ => ConnectErrorKind::InvalidInput,
        }
    }

    /// The sentence that goes with the error.
    pub fn message(&self) -> (text: &'static str)
        ensures
            text@ == match self {
                ConnectError::InvalidSocketAddr => "authority must be valid SocketAddr"@,
                ConnectError::InvalidHexPath => "authority must be hex-encoded path"@,
                ConnectError::InvalidUtf8Path => "authority must be valid UTF-8"@,
                ConnectError::UnsupportedScheme => "scheme is not implemented"@,
            },
    {
        match self {
            ConnectError::InvalidSocketAddr => "authority must be valid SocketAddr",
            ConnectError::InvalidHexPath => "authority must be hex-encoded path",
            ConnectError::InvalidUtf8Path => "authority must be valid UTF-8",
            ConnectError::UnsupportedScheme => "scheme is not implemented",
        }
    }
}

/// Whether two texts are the same.
pub fn text_eq(a: &str, b: &str) -> (same: bool)
    ensures
        same == (a@ == b@),
{
    proof {
        encode_utf8_decode_utf8(a@);
        encode_utf8_decode_utf8(b@);
    }
    bytes_eq(a.as_bytes(), b.as_bytes())
}

/// The address that a target names, or why it names none.
pub open spec fn address_of(
    scheme: Option<Seq<char>>,
    authority: Seq<char>,
    socket: Option<SocketAddress>,
) -> Result<AddressView, ConnectError> {
    if scheme == Some("http"@) {
        match socket {
            Some(addr) => Ok(AddressView::Ip(addr)),
            None => Err(ConnectError::InvalidSocketAddr),
        }
    } else if scheme == Some("http+unix"@) {
        match unix_path_of(authority) {
            Ok(path) => Ok(AddressView::Unix(path)),
            Err(PathError::NotHex) => Err(ConnectError::InvalidHexPath),
            Err(PathError::NotUtf8) => Err(ConnectError::InvalidUtf8Path),
        }
    } else {
        Err(ConnectError::UnsupportedScheme)
    }
}

impl TargetUri {
    /// The scheme as a sequence of characters.
    pub open spec fn scheme_view(&self) -> Option<Seq<char>> {
        match self.scheme {
            Some(s) => Some(s@),
            None => None,
        }
    }

    /// The address that this target names, or why it names none.
    pub open spec fn address(&self) -> Result<AddressView, ConnectError> {
        address_of(self.scheme_view(), self.authority@, self.socket)
    }

    /// Resolves the target. An `http` target is its socket address, an
    /// `http+unix` target is the path that its authority decodes to, and no
    /// other scheme resolves.
    pub fn resolve(&self) -> (resolved: Result<Address, ConnectError>)
        ensures
            match resolved {
                Ok(addr) => self.address() == Ok::<AddressView, ConnectError>(addr@),
                Err(e) => self.address() == Err::<AddressView, ConnectError>(e),
            },
    {
        match &self.scheme {
            Some(scheme) => {
                if text_eq(scheme.as_str(), "http") {
                    match self.socket {
                        Some(addr) => Ok(Address::Ip(addr)),
                        None => Err(ConnectError::InvalidSocketAddr),
                    }
                } else if text_eq(scheme.as_str(), "http+unix") {
                    match decode_unix_path(self.authority.as_str()) {
                        Ok(path) => Ok(Address::Unix(path)),
                        Err(PathError::NotHex) => Err(ConnectError::InvalidHexPath),
                        Err(PathError::NotUtf8) => Err(ConnectError::InvalidUtf8Path),
                    }
                } else {
                    Err(ConnectError::UnsupportedScheme)
                }
            },
            None => Err(ConnectError::UnsupportedScheme),
        }
    }
}

/// What to dial, and with which timeouts.
#[derive(Debug)]
pub struct Dial {
    pub address: Address,
    pub timeouts: Config,
}

/// Resolves targets. It holds the timeouts and nothing else, so calls do not
/// affect one another.
#[derive(Clone, Copy, Debug)]
pub struct Connector(pub DefaultMakeTransport);

impl Connector {
    /// A connector with the timeouts of `cfg`, or with none set where `cfg`
    /// is absent.
    pub fn new(cfg: Option<Config>) -> (connector: Connector)
        ensures
            connector.0.timeouts() == match cfg {
                Some(c) => c,
                None => Config { connect_timeout: None, read_timeout: None, write_timeout: None },
            },
    {
        let mut mt = DefaultMakeTransport::new();
        if let Some(cfg) = cfg {
            mt.set_connect_timeout(cfg.connect_timeout);
            mt.set_read_timeout(cfg.read_timeout);
            mt.set_write_timeout(cfg.write_timeout);
        }
        Connector(mt)
    }

    /// What to dial for `target`: its address with this connector's
    /// timeouts, or the reason why nothing is dialled.
    pub fn plan(&self, target: &TargetUri) -> (planned: Result<Dial, ConnectError>)
        ensures
            match planned {
                Ok(dial) => target.address() == Ok::<AddressView, ConnectError>(dial.address@)
                    && dial.timeouts == self.0.timeouts(),
                Err(e) => target.address() == Err::<AddressView, ConnectError>(e),
            },
    {
        match target.resolve() {
            Ok(address) => Ok(Dial { address, timeouts: self.0.config() }),
            Err(e) => Err(e),
        }
    }
}

impl Default for Connector {
    fn default() -> (connector: Connector)
        ensures
            connector.0.timeouts().connect_timeout is None,
            connector.0.timeouts().read_timeout is None,
            connector.0.timeouts().write_timeout is None,
    {
        Connector::new(None)
    }
}

impl InvocationService<TargetUri> for Connector {
    type Response = Dial;

    type Error = ConnectError;

    type Future = Ready<Result<Dial, ConnectError>>;

    /// A connector is always ready.
    open spec fn is_ready(&self) -> bool {
        true
    }

    open spec fn polled(&self, after: &Self, outcome: Poll<Result<(), ConnectError>>) -> bool {
        &&& outcome == Poll::Ready(Ok::<(), ConnectError>(()))
        &&& *after == *self
    }

    /// The outcome is the plan for the target, and the connector is as it
    /// was.
    open spec fn called(
        &self,
        req: TargetUri,
        after: &Self,
        outcome: Result<Dial, ConnectError>,
    ) -> bool {
        &&& *after == *self
        &&& match outcome {
            Ok(dial) => req.address() == Ok::<AddressView, ConnectError>(dial.address@)
                && dial.timeouts == self.0.timeouts(),
            Err(e) => req.address() == Err::<AddressView, ConnectError>(e),
        }
    }

    fn poll_ready(&mut self, cx: &mut Context<'_>) -> (r: Poll<Result<(), ConnectError>>) {
        Poll::Ready(Ok(()))
    }

    fn call(&mut self, uri: TargetUri) -> (fut: Self::Future) {
        std::future::ready(self.plan(&uri))
    }
}

/// An `http` target resolves to exactly the socket address that its
/// authority reads as, and fails as invalid input, with nothing to dial,
/// where the authority reads as none.
pub proof fn lemma_http_target(authority: Seq<char>, socket: Option<SocketAddress>)
    ensures
        socket matches Some(addr) ==> address_of(Some("http"@), authority, socket) == Ok::<
            AddressView,
            ConnectError,
        >(AddressView::Ip(addr)),
        socket is None ==> address_of(Some("http"@), authority, socket) == Err::<
            AddressView,
            ConnectError,
        >(ConnectError::InvalidSocketAddr),
        ConnectError::InvalidSocketAddr.kind_of() == ConnectErrorKind::InvalidInput,
{
}

/// The hex text of a path's UTF-8 bytes, as the authority of an
/// `http+unix` target, resolves to exactly that path.
pub proof fn lemma_unix_target_round_trip(
    path: Seq<char>,
    authority: Seq<char>,
    socket: Option<SocketAddress>,
)
    requires
        encode_utf8(authority) == hex_encoded(encode_utf8(path)),
    ensures
        address_of(Some("http+unix"@), authority, socket) == Ok::<AddressView, ConnectError>(
            AddressView::Unix(path),
        ),
{
    lemma_unix_path_round_trip(path, authority);
    assert("http"@ != "http+unix"@) by {
        reveal_strlit("http");
        reveal_strlit("http+unix");
        assert("http"@.len() == 4);
    }
}

} // verus!
