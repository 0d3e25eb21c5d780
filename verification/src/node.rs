//! A node: the settings it is made from, its session and connection state,
//! and the transitions of that state.

use vstd::prelude::*;
use vstd::string::*;
use crate::decoder::EventView;
use crate::events::{dispatch, dispatch_invocations, invocation_views, EventKind, Events, Invocation};
use crate::handshake::{
    generate_key,
    handshake_outcome,
    handshake_request,
    handshake_view,
    lemma_key_is_header_text,
    websocket_key,
    ConnectError,
    HandshakeFailure,
    HandshakeRequest,
    HeaderField,
};
use crate::json::{json_model, json_parse, parse_value};
use crate::model::UserId;
use crate::reaction::{reaction, Action, ActionView};

verus! {

/// A builder for the node.
#[derive(Clone, Debug, Hash)]
pub struct NodeBuilder<H> {
    /// The hostname of the Lavalink server, such as `localhost:2333`.
    pub hostname: String,
    /// If the Lavalink server is behind SSL encryption.
    pub is_ssl: bool,
    /// The event handlers specific for this node.
    pub events: Events<H>,
    /// The Lavalink server password.
    pub password: String,
    /// The bot user that will use Lavalink.
    pub user_id: UserId,
    /// The previous session identifier, if resuming.
    pub session_id: Option<String>,
}

impl<H> Default for NodeBuilder<H> {
    fn default() -> (builder: Self)
        ensures
            builder.hostname@ == Seq::<char>::empty(),
            !builder.is_ssl,
            forall|kind: EventKind| builder.events.slot(kind) is None,
            builder.password@ == Seq::<char>::empty(),
            builder.user_id == UserId(0),
            builder.session_id is None,
    {
        NodeBuilder {
            hostname: String::new(),
            is_ssl: false,
            events: Events::new(),
            password: String::new(),
            user_id: UserId(0),
            session_id: None,
        }
    }
}

/// A Lavalink server node: one connection to one server.
#[derive(Clone, Debug)]
pub struct Node<H> {
    pub id: usize,
    /// The session that the server last issued, or the one to resume; empty
    /// while there is none.
    pub session_id: String,
    pub websocket_address: String,
    pub events: Events<H>,
    /// Whether the node's read loop is running.
    pub is_running: bool,
    pub password: String,
    pub user_id: UserId,
}

/// What the transport hands the read loop when asked for the next frame.
#[derive(Clone, Debug)]
pub enum Incoming {
    /// A text frame, with its text.
    Text(String),
    /// A frame of any other kind: binary, ping, pong, close or raw.
    Other,
    /// The transport failed.
    Failed,
    /// The stream is at its end.
    Closed,
}

/// What the read loop does with what it was handed.
#[derive(Debug)]
pub enum LoopStep {
    /// Hand this envelope to a task of its own, and read on without waiting
    /// for it.
    Spawn(serde_json::Value),
    /// Read on.
    Skip,
    /// Leave the loop: the node has stopped.
    Stop,
}

/// The session identifier of a node after `action`: the new one where the
/// action sets one, and the same as before otherwise.
pub open spec fn session_after(session_id: Seq<char>, action: ActionView) -> Seq<char> {
    match action {
        ActionView::SetSession(new_id) => new_id,
        _ => session_id,
    }
}

impl<H> Node<H> {
    /// A stopped node with identity `id` at `websocket_address`, with the
    /// settings of `builder`. Its session is the one to resume, if the
    /// builder names one, and empty otherwise.
    pub fn new(id: usize, websocket_address: String, builder: NodeBuilder<H>) -> (node: Self)
        ensures
            node.id == id,
            node.websocket_address == websocket_address,
            node.events == builder.events,
            node.password == builder.password,
            node.user_id == builder.user_id,
            !node.is_running,
            node.session_id@ == match builder.session_id {
                Some(session_id) => session_id@,
                None => Seq::<char>::empty(),
            },
    {
        let session_id = match builder.session_id {
            Some(session_id) => session_id,
            None => String::new(),
        };
        Node {
            id,
            session_id,
            websocket_address,
            events: builder.events,
            is_running: false,
            password: builder.password,
            user_id: builder.user_id,
        }
    }

    /// The upgrade request of this node for the WebSocket key `key`, or the
    /// fault that stops it. The node's current session identifier goes into
    /// the request: empty for a first connection, the last session to resume.
    pub fn handshake_request(&self, key: &str) -> (r: Result<HandshakeRequest, ConnectError>)
        ensures
            handshake_view(r) == handshake_outcome(
                self.websocket_address@,
                self.password@,
                self.user_id,
                self.session_id@,
                key@,
            ),
    {
        handshake_request(
            self.websocket_address.as_str(),
            self.password.as_str(),
            self.user_id,
            self.session_id.as_str(),
            key,
        )
    }

    /// The upgrade request of this node with a fresh random key: that of
    /// `handshake_request` for some key of sixteen bytes in base 64. Such a
    /// key may stand in a header, so the key is never the fault.
    pub fn fresh_handshake_request(&self) -> (r: Result<HandshakeRequest, ConnectError>)
        ensures
            exists|key: Seq<char>|
                websocket_key(key) && #[trigger] handshake_outcome(
                    self.websocket_address@,
                    self.password@,
                    self.user_id,
                    self.session_id@,
                    key,
                ) == handshake_view(r),
            r != Err::<HandshakeRequest, ConnectError>(
                ConnectError::HeaderEncoding(HeaderField::WebSocketKey),
            ),
    {
        let key = generate_key();
        proof {
            lemma_key_is_header_text(key@);
        }
        self.handshake_request(key.as_str())
    }

    /// Takes in the outcome of the upgrade handshake. After a handshake that
    /// succeeded the node is running, and its read loop is to be started;
    /// after one that failed the node is as it was and the failure is
    /// returned as the error that it is.
    pub fn connect(&mut self, handshake: Result<(), HandshakeFailure>) -> (r: Result<
        (),
        ConnectError,
    >)
        ensures
            match handshake {
                Ok(_) => r is Ok && *final(self) == (Node { is_running: true, ..*old(self) }),
                Err(HandshakeFailure::Network) => r == Err::<(), ConnectError>(
                    ConnectError::Network,
                ) && *final(self) == *old(self),
                Err(HandshakeFailure::Rejected) => r == Err::<(), ConnectError>(
                    ConnectError::Rejected,
                ) && *final(self) == *old(self),
            },
            r is Ok ==> final(self).is_running,
            r is Err ==> final(self).is_running == old(self).is_running,
    {
        match handshake {
            Ok(_) => {
                self.is_running = true;
                Ok(())
            },
            Err(HandshakeFailure::Network) => Err(ConnectError::Network),
            Err(HandshakeFailure::Rejected) => Err(ConnectError::Rejected),
        }
    }

    /// One turn of the read loop. A text frame that is a JSON document is to
    /// be handed to a task of its own; a text frame that is none, and a frame
    /// that is no text, are passed over in silence. When the transport fails
    /// or the stream ends the loop is left, and the node is stopped.
    pub fn receive(&mut self, incoming: Incoming) -> (step: LoopStep)
        ensures
            match incoming {
                Incoming::Text(text) => match json_parse(text@) {
                    Some(document) => step matches LoopStep::Spawn(envelope) && json_model(envelope)
                        == document,
                    None => step is Skip,
                },
                Incoming::Other => step is Skip,
                Incoming::Failed => step is Stop,
                Incoming::Closed => step is Stop,
            },
            step is Stop ==> *final(self) == (Node { is_running: false, ..*old(self) }),
            !(step is Stop) ==> *final(self) == *old(self),
    {
        match incoming {
            Incoming::Text(text) => match parse_value(text.as_str()) {
                Ok(envelope) => LoopStep::Spawn(envelope),
                Err(_) => LoopStep::Skip,
            },
            Incoming::Other => LoopStep::Skip,
            Incoming::Failed => {
                self.is_running = false;
                LoopStep::Stop
            },
            Incoming::Closed => {
                self.is_running = false;
                LoopStep::Stop
            },
        }
    }

    /// Carries out on the node what `action` changes of it: a new session
    /// identifier replaces the old one, whole. Every other action leaves the
    /// node as it is.
    pub fn apply(&mut self, action: &Action)
        ensures
            final(self).session_id@ == session_after(old(self).session_id@, action@),
            *final(self) == (Node { session_id: final(self).session_id, ..*old(self) }),
    {
        match action {
            Action::SetSession(session_id) => {
                self.session_id = session_id.clone();
            },
            _ => {},
        }
    }

    /// Routes an event of kind `kind` to the handlers installed for it, the
    /// node's own before the client's, each with the node's session
    /// identifier as it is now.
    pub fn dispatch<'a>(&'a self, client: &'a Events<H>, kind: EventKind) -> (calls: Vec<
        Invocation<'a, H>,
    >)
        ensures
            invocation_views(calls@) == dispatch_invocations(
                self.events,
                *client,
                kind,
                self.session_id@,
            ),
    {
        dispatch(&self.events, client, kind, self.session_id.as_str())
    }
}

/// Once the side effect of a `ready` event is done, every dispatch reads
/// the session identifier that the event brought, whatever it was before:
/// the first step of the reaction to the event sets it, and each invocation
/// of a dispatch made on the node after that step carries it.
pub proof fn lemma_dispatch_reads_new_session<H>(
    before: Seq<char>,
    session_id: Seq<char>,
    resumed: bool,
    registered: bool,
    node: Events<H>,
    client: Events<H>,
    kind: EventKind,
)
    ensures
        reaction(Some(EventView::Ready { session_id, resumed }), registered)[0]
            == ActionView::SetSession(session_id),
        session_after(before, ActionView::SetSession(session_id)) == session_id,
        forall|i: int|
            0 <= i < dispatch_invocations(node, client, kind, session_id).len()
                ==> (#[trigger] dispatch_invocations(node, client, kind, session_id)[i]).session_id
                == session_id,
{
}

/// The session identifier is replaced whole or not at all: after any action
/// it is the one that the action brought, or the one it was before, and it
/// is the latter for every action but the one that sets it.
pub proof fn lemma_session_whole(before: Seq<char>, action: ActionView)
    ensures
        action is SetSession ==> action == ActionView::SetSession(session_after(before, action)),
        !(action is SetSession) ==> session_after(before, action) == before,
{
}

} // verus!
