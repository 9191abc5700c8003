//! The connection to the remote listener, as far as it is a matter of
//! decisions: where it leads, whether it is up, when to dial, and when a
//! write counts as delivered. The socket itself is held by the caller.
use vstd::prelude::*;

verus! {

/// The port that is used when none is configured.
pub const DEFAULT_PORT: u16 = 34254;

/// A host and a port, as the contracts see them.
pub struct Address {
    pub host: Seq<char>,
    pub port: u16,
}

/// Where the listener is reached. Set when the bridge is built and never
/// changed afterwards.
pub struct RemoteEndpoint {
    host: String,
    port: u16,
}

impl View for RemoteEndpoint {
    type V = Address;

    closed spec fn view(&self) -> Address {
        Address { host: self.host@, port: self.port }
    }
}

impl RemoteEndpoint {
    /// The endpoint `host:port`.
    pub fn new(host: String, port: u16) -> (endpoint: Self)
        ensures
            endpoint@ == (Address { host: host@, port }),
    {
        RemoteEndpoint { host, port }
    }

    /// The host name or address of the listener.
    pub fn host(&self) -> (host: &str)
        ensures
            host@ == self@.host,
    {
        self.host.as_str()
    }

    /// The port the listener accepts connections on.
    pub fn port(&self) -> (port: u16)
        ensures
            port == self@.port,
    {
        self.port
    }
}

impl Default for RemoteEndpoint {
    /// The local listener, `127.0.0.1:34254`.
    fn default() -> (endpoint: Self)
        ensures
            endpoint@ == (Address { host: "127.0.0.1"@, port: DEFAULT_PORT }),
    {
        RemoteEndpoint { host: "127.0.0.1".to_owned(), port: DEFAULT_PORT }
    }
}

/// Whether a live connection is held.
#[derive(Clone, Copy, Debug, PartialEq, Eq, Structural)]
pub enum LinkState {
    Disconnected,
    Connected,
}

/// The link after a connect attempt: up if the attempt succeeded, down if
/// it failed.
pub open spec fn after_connect(connected: bool) -> LinkState {
    if connected {
        LinkState::Connected
    } else {
        LinkState::Disconnected
    }
}

/// Whether a send of `expected` bytes was delivered: a connection was held
/// and the write took all of them. A write that failed, or that took only
/// part of the bytes, is not a delivery; neither is a send without a
/// connection, which fails without a write.
pub open spec fn delivered(link: LinkState, expected: nat, written: Option<usize>) -> bool {
    &&& link is Connected
    &&& written matches Some(taken)
    &&& taken == expected
}

/// The link after a send: kept if the bytes were delivered, dropped if not.
pub open spec fn after_send(link: LinkState, expected: nat, written: Option<usize>) -> LinkState {
    if delivered(link, expected, written) {
        LinkState::Connected
    } else {
        LinkState::Disconnected
    }
}

/// Keeps track of the one connection to a fixed endpoint.
///
/// The manager starts without a connection. It never fails: a connect or a
/// write that went wrong leaves it disconnected, and the next call of
/// [`ConnectionManager::needs_connect`] asks for a fresh attempt.
pub struct ConnectionManager {
    endpoint: RemoteEndpoint,
    link: LinkState,
}

impl View for ConnectionManager {
    type V = LinkState;

    closed spec fn view(&self) -> LinkState {
        self.link
    }
}

impl ConnectionManager {
    /// The endpoint this manager was built for.
    pub closed spec fn address(&self) -> Address {
        self.endpoint@
    }

    /// A manager for `endpoint` that holds no connection yet.
    pub fn new(endpoint: RemoteEndpoint) -> (manager: Self)
        ensures
            manager@ is Disconnected,
            manager.address() == endpoint@,
    {
        ConnectionManager { endpoint, link: LinkState::Disconnected }
    }

    /// The endpoint this manager was built for.
    pub fn endpoint(&self) -> (endpoint: &RemoteEndpoint)
        ensures
            endpoint@ == self.address(),
    {
        &self.endpoint
    }

    /// Whether a connection is held.
    pub fn link(&self) -> (link: LinkState)
        ensures
            link == self@,
    {
        self.link
    }

    /// Whether a connection is held, as a flag.
    pub fn is_connected(&self) -> (up: bool)
        ensures
            up == (self@ is Connected),
    {
        match self.link {
            LinkState::Connected => true,
            LinkState::Disconnected => false,
        }
    }

    /// Whether ensuring a connection takes a connect attempt: it does exactly
    /// when none is held.
    pub fn needs_connect(&self) -> (dial: bool)
        ensures
            dial == (self@ is Disconnected),
    {
        !self.is_connected()
    }

    /// Takes in the outcome of a connect attempt.
    pub fn connect_finished(&mut self, connected: bool)
        ensures
            final(self)@ == after_connect(connected),
            final(self).address() == old(self).address(),
        no_unwind
    {
        if connected {
            self.link = LinkState::Connected;
        } else {
            self.link = LinkState::Disconnected;
        }
    }

    /// Takes in the outcome of sending `expected` bytes and tells whether
    /// they were delivered. `written` is the number of bytes the write took,
    /// or nothing if it failed or no connection was held.
    pub fn send_finished(&mut self, expected: usize, written: Option<usize>) -> (ok: bool)
        ensures
            ok == delivered(old(self)@, expected as nat, written),
            final(self)@ == after_send(old(self)@, expected as nat, written),
            final(self).address() == old(self).address(),
        no_unwind
    {
        let complete = match written {
            Some(taken) => taken == expected,
            None => false,
        };
        let ok = match self.link {
            LinkState::Connected => complete,
            LinkState::Disconnected => false,
        };
        if !ok {
            self.link = LinkState::Disconnected;
        }
        ok
    }
}

/// A send that fails on a live connection leaves the manager disconnected,
/// so that it asks for a fresh connect. If that connect succeeds, a send
/// whose write takes all its bytes is delivered, and the connection is kept.
pub proof fn lemma_manager_recovers(expected: nat, failed: Option<usize>, len: usize)
    requires
        !delivered(LinkState::Connected, expected, failed),
    ensures
        after_send(LinkState::Connected, expected, failed) is Disconnected,
        after_connect(true) is Connected,
        delivered(after_connect(true), len as nat, Some(len)),
        after_send(after_connect(true), len as nat, Some(len)) is Connected,
{
}

} // verus!
