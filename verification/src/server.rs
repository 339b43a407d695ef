//! The actor core's verified heart: the process-wide client id allocator,
//! the registry of live connections, and the single-writer loop's transition
//! function from control message to next registry state and loop action.
//!
//! One authoritative task owns the registry and processes an ordered stream
//! of control messages; every other task only sends messages. The i/o around
//! the loop (channels, sockets, the atomic cell holding the allocator) lives
//! outside the library and calls into these functions.
use std::collections::HashMap;
use vstd::prelude::*;

verus! {

broadcast use vstd::std_specs::hash::group_hash_axioms;

/// A process-wide unique, monotonically increasing client identifier;
/// never reused.
#[derive(Copy, Clone, Debug, Eq, PartialEq, Hash, Structural)]
pub struct ClientId(pub usize);

/// A message pushed from the registry toward one live connection.
#[derive(Debug, Clone)]
pub enum FromServer {
    /// A chat message.
    Message(String),
}

/// A control message into the authoritative registry loop.
#[derive(Debug, Clone)]
pub enum ToServer {
    /// A new connection has started.
    NewClient { id: ClientId, actor_id: u32 },
    /// A connection sent a message.
    Message(ClientId, String),
    /// A connection disconnected.
    Disconnected(ClientId),
    /// A fatal error occurred: the only message that stops the loop.
    FatalError,
}

/// Whether the registry loop keeps running after one message.
#[derive(Debug, Clone, Copy, PartialEq, Eq, Structural)]
pub enum LoopAction {
    Continue,
    Stop,
}

/// Hands out strictly increasing client ids, no id skipped and none
/// repeated: the `k`-th call on a fresh allocator returns exactly `k`.
/// The process shares one allocator cell; only the allocation itself
/// needs to be atomic.
#[derive(Debug, Clone, PartialEq, Eq, Structural)]
pub struct ClientIdAllocator {
    pub next: usize,
}

impl ClientIdAllocator {
    /// A fresh allocator, starting at id 0.
    pub fn new() -> (r: Self)
        ensures
            r.next == 0,
    {
        ClientIdAllocator { next: 0 }
    }

    /// Allocates the next client id: exactly the count of ids handed out
    /// before it.
    pub fn next_id(&mut self) -> (r: ClientId)
        requires
            old(self).next < usize::MAX,
        ensures
            r.0 == old(self).next,
            final(self).next == old(self).next + 1,
    {
        let id = self.next;
        self.next = self.next + 1;
        ClientId(id)
    }
}

/// The id the `k`-th allocation returns when the allocator's counter
/// stands at `start`.
pub open spec fn spec_issued_id(start: nat, k: nat) -> nat {
    start + k
}

/// Client id uniqueness: any number of allocations from one counter yield
/// pairwise distinct ids, and consecutive allocations skip no value.
pub proof fn lemma_client_ids_unique(start: nat, count: nat)
    ensures
        forall|i: nat, j: nat|
            i < j < count ==> #[trigger] spec_issued_id(start, i) != #[trigger] spec_issued_id(
                start,
                j,
            ),
        forall|i: nat|
            i + 1 < count ==> #[trigger] spec_issued_id(start, i + 1) == spec_issued_id(start, i)
                + 1,
{
}

/// The authoritative registry: the map from live client id to its
/// application-level actor id. Exclusively owned and mutated by the single
/// registry task; everything else talks to it by message.
pub struct Registry {
    clients: HashMap<usize, u32>,
}

impl View for Registry {
    type V = Map<usize, u32>;

    closed spec fn view(&self) -> Map<usize, u32> {
        self.clients@
    }
}

/// What one control message does to the registry, and whether the loop
/// keeps running: a new client is inserted, a disconnected client's entry
/// is reaped, a payload message leaves the registry as it is, and only a
/// fatal error stops the loop.
pub open spec fn spec_registry_step(m: Map<usize, u32>, msg: ToServer) -> (Map<usize, u32>, LoopAction) {
    match msg {
        ToServer::NewClient { id, actor_id } => (m.insert(id.0, actor_id), LoopAction::Continue),
        ToServer::Message(id, text) => (m, LoopAction::Continue),
        ToServer::Disconnected(id) => (m.remove(id.0), LoopAction::Continue),
        ToServer::FatalError => (m, LoopAction::Stop),
    }
}

impl Registry {
    /// An empty registry.
    pub fn new() -> (r: Self)
        ensures
            r@ == Map::<usize, u32>::empty(),
    {
        Registry { clients: HashMap::new() }
    }

    /// Whether a client id has a live entry.
    pub fn contains(&self, id: ClientId) -> (r: bool)
        ensures
            r == self@.contains_key(id.0),
    {
        self.clients.contains_key(&id.0)
    }

    /// The actor id of a live entry.
    pub fn actor_of(&self, id: ClientId) -> (r: Option<u32>)
        ensures
            r is Some <==> self@.contains_key(id.0),
            r is Some ==> r.unwrap() == self@[id.0],
    {
        match self.clients.get(&id.0) {
            Some(v) => Some(*v),
            None => None,
        }
    }

    /// Number of live entries.
    pub fn len(&self) -> (r: usize)
        ensures
            r == self@.dom().len(),
    {
        self.clients.len()
    }

    /// Processes one control message: the registry moves to exactly the
    /// state the step function gives, and only `FatalError` stops the loop.
    pub fn process(&mut self, msg: &ToServer) -> (r: LoopAction)
        ensures
            (final(self)@, r) == spec_registry_step(old(self)@, *msg),
    {
        match msg {
            ToServer::NewClient { id, actor_id } => {
                self.clients.insert(id.0, *actor_id);
                LoopAction::Continue
            },
            ToServer::Message(id, text) => LoopAction::Continue,
            ToServer::Disconnected(id) => {
                self.clients.remove(&id.0);
                LoopAction::Continue
            },
            ToServer::FatalError => LoopAction::Stop,
        }
    }
}

/// Registry ordering law: if the loop processes `NewClient` and then
/// `Disconnected` for the same id, in that order, the registry holds no
/// entry for that id afterwards, whatever else it held and whatever the
/// client's actor id was.
pub proof fn lemma_registry_ordering(m: Map<usize, u32>, id: ClientId, actor_id: u32)
    ensures
        ({
            let m1 = spec_registry_step(m, ToServer::NewClient { id, actor_id }).0;
            let m2 = spec_registry_step(m1, ToServer::Disconnected(id)).0;
            !m2.contains_key(id.0)
        }),
{
}

/// The life of one connection, from the socket being accepted to its end.
/// `Disconnected` is terminal.
#[derive(Debug, Clone, Copy, PartialEq, Eq, Structural)]
pub enum ConnectionLifecycle {
    Accepted,
    HandshakePending,
    Secured,
    Active,
    Disconnected,
}

/// What happens to a connection.
#[derive(Debug, Clone, Copy, PartialEq, Eq, Structural)]
pub enum ConnectionEvent {
    /// The socket was accepted and the read loop starts.
    SocketReady,
    /// The key exchange completed and a session key was derived.
    KeyDerived,
    /// The application-level login handshake completed.
    LoginComplete,
    /// A socket read or write failed.
    TransportError,
    /// A zero-byte read past the keep-alive threshold.
    IdleTimeout,
    /// The application layer signalled a graceful logout.
    GracefulLogout,
}

/// The connection state machine: accepted connections enter the handshake,
/// the derived key secures them, the application's login activates them, and
/// any transport error, idle timeout or graceful logout disconnects them.
/// A disconnected connection never leaves that state.
pub open spec fn spec_lifecycle_step(
    s: ConnectionLifecycle,
    e: ConnectionEvent,
) -> ConnectionLifecycle {
    if s == ConnectionLifecycle::Disconnected {
        ConnectionLifecycle::Disconnected
    } else {
        match e {
            ConnectionEvent::SocketReady => {
                if s == ConnectionLifecycle::Accepted {
                    ConnectionLifecycle::HandshakePending
                } else {
                    s
                }
            },
            ConnectionEvent::KeyDerived => {
                if s == ConnectionLifecycle::HandshakePending {
                    ConnectionLifecycle::Secured
                } else {
                    s
                }
            },
            ConnectionEvent::LoginComplete => {
                if s == ConnectionLifecycle::Secured {
                    ConnectionLifecycle::Active
                } else {
                    s
                }
            },
            ConnectionEvent::TransportError => ConnectionLifecycle::Disconnected,
            ConnectionEvent::IdleTimeout => ConnectionLifecycle::Disconnected,
            ConnectionEvent::GracefulLogout => ConnectionLifecycle::Disconnected,
        }
    }
}

/// Advances a connection's lifecycle by one event.
pub fn lifecycle_step(s: ConnectionLifecycle, e: ConnectionEvent) -> (r: ConnectionLifecycle)
    ensures
        r == spec_lifecycle_step(s, e),
{
    if matches!(s, ConnectionLifecycle::Disconnected) {
        return ConnectionLifecycle::Disconnected;
    }
    match e {
        ConnectionEvent::SocketReady => {
            if matches!(s, ConnectionLifecycle::Accepted) {
                ConnectionLifecycle::HandshakePending
            } else {
                s
            }
        },
        ConnectionEvent::KeyDerived => {
            if matches!(s, ConnectionLifecycle::HandshakePending) {
                ConnectionLifecycle::Secured
            } else {
                s
            }
        },
        ConnectionEvent::LoginComplete => {
            if matches!(s, ConnectionLifecycle::Secured) {
                ConnectionLifecycle::Active
            } else {
                s
            }
        },
        ConnectionEvent::TransportError => ConnectionLifecycle::Disconnected,
        ConnectionEvent::IdleTimeout => ConnectionLifecycle::Disconnected,
        ConnectionEvent::GracefulLogout => ConnectionLifecycle::Disconnected,
    }
}

/// Disconnection is terminal: no event leads out of it.
pub proof fn lemma_disconnected_is_terminal(e: ConnectionEvent)
    ensures
        spec_lifecycle_step(ConnectionLifecycle::Disconnected, e)
            == ConnectionLifecycle::Disconnected,
{
}

/// Milliseconds of silence after a zero-byte read before a connection is
/// considered gone.
pub const KEEP_ALIVE_TIMEOUT_MS: u64 = 5000;

/// The connection loop's verdict on a zero-byte read: disconnect exactly
/// when the last observed keep-alive lies further back than the timeout.
pub fn should_disconnect_on_empty_read(elapsed_ms_since_keep_alive: u64) -> (r: bool)
    ensures
        r == (elapsed_ms_since_keep_alive > KEEP_ALIVE_TIMEOUT_MS),
{
    elapsed_ms_since_keep_alive > KEEP_ALIVE_TIMEOUT_MS
}

} // verus!
