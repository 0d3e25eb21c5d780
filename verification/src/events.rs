//! The handler registries and the dispatch protocol.

use vstd::prelude::*;
use vstd::string::*;

verus! {

/// The kinds of event that a registry has a slot for: one per typed
/// notification, and `Raw` for the untyped envelope of every message.
#[derive(Clone, Copy, PartialEq, Eq, Structural, Debug, Hash)]
pub enum EventKind {
    Raw,
    Ready,
    PlayerUpdate,
    Stats,
    TrackStart,
    TrackEnd,
    TrackException,
    TrackStuck,
    WebSocketClosed,
}

/// A handler registry: one optional handler of type `H` per event kind.
#[derive(Clone, Debug, Hash)]
pub struct Events<H> {
    pub raw: Option<H>,
    pub ready: Option<H>,
    pub player_update: Option<H>,
    pub stats: Option<H>,
    pub track_start: Option<H>,
    pub track_end: Option<H>,
    pub track_exception: Option<H>,
    pub track_stuck: Option<H>,
    pub websocket_closed: Option<H>,
}

/// Which of the two registries an invocation comes from.
#[derive(Clone, Copy, PartialEq, Eq, Structural, Debug, Hash)]
pub enum Registry {
    /// The registry of the node that received the message.
    NodeLocal,
    /// The registry of the client, shared by all nodes.
    Global,
}

/// One handler call that a dispatch asks for.
#[derive(Debug)]
pub struct Invocation<'a, H> {
    pub registry: Registry,
    pub handler: &'a H,
    /// The session identifier as it was when the dispatch was made.
    pub session_id: String,
}

/// An invocation as a plain value.
pub ghost struct InvocationView<H> {
    pub registry: Registry,
    pub handler: H,
    pub session_id: Seq<char>,
}

impl<'a, H> View for Invocation<'a, H> {
    type V = InvocationView<H>;

    open spec fn view(&self) -> InvocationView<H> {
        InvocationView {
            registry: self.registry,
            handler: *self.handler,
            session_id: self.session_id@,
        }
    }
}

impl<H> Events<H> {
    /// The handler in the slot for `kind`, if one is installed.
    pub open spec fn slot(self, kind: EventKind) -> Option<H> {
        match kind {
            EventKind::Raw => self.raw,
            EventKind::Ready => self.ready,
            EventKind::PlayerUpdate => self.player_update,
            EventKind::Stats => self.stats,
            EventKind::TrackStart => self.track_start,
            EventKind::TrackEnd => self.track_end,
            EventKind::TrackException => self.track_exception,
            EventKind::TrackStuck => self.track_stuck,
            EventKind::WebSocketClosed => self.websocket_closed,
        }
    }

    /// A registry with no handler installed.
    pub fn new() -> (events: Self)
        ensures
            forall|kind: EventKind| events.slot(kind) is None,
    {
        Events {
            raw: None,
            ready: None,
            player_update: None,
            stats: None,
            track_start: None,
            track_end: None,
            track_exception: None,
            track_stuck: None,
            websocket_closed: None,
        }
    }

    /// The handler installed for `kind`, if any.
    pub fn handler(&self, kind: EventKind) -> (found: Option<&H>)
        ensures
            match found {
                Some(handler) => self.slot(kind) == Some(*handler),
                None => self.slot(kind) is None,
            },
    {
        match kind {
            EventKind::Raw => self.raw.as_ref(),
            EventKind::Ready => self.ready.as_ref(),
            EventKind::PlayerUpdate => self.player_update.as_ref(),
            EventKind::Stats => self.stats.as_ref(),
            EventKind::TrackStart => self.track_start.as_ref(),
            EventKind::TrackEnd => self.track_end.as_ref(),
            EventKind::TrackException => self.track_exception.as_ref(),
            EventKind::TrackStuck => self.track_stuck.as_ref(),
            EventKind::WebSocketClosed => self.websocket_closed.as_ref(),
        }
    }
}

impl<H> Default for Events<H> {
    fn default() -> (events: Self)
        ensures
            forall|kind: EventKind| events.slot(kind) is None,
    {
        Events::new()
    }
}

/// The invocations that one registry contributes to a dispatch: its handler
/// for `kind` where it has one, and none otherwise.
pub open spec fn registry_invocations<H>(
    registry: Registry,
    events: Events<H>,
    kind: EventKind,
    session_id: Seq<char>,
) -> Seq<InvocationView<H>> {
    match events.slot(kind) {
        Some(handler) => seq![InvocationView { registry, handler, session_id }],
        None => seq![],
    }
}

/// The invocations of a dispatch, in the order in which they are made and
/// awaited: the node's own registry first, the client's second.
pub open spec fn dispatch_invocations<H>(
    node: Events<H>,
    client: Events<H>,
    kind: EventKind,
    session_id: Seq<char>,
) -> Seq<InvocationView<H>> {
    registry_invocations(Registry::NodeLocal, node, kind, session_id) + registry_invocations(
        Registry::Global,
        client,
        kind,
        session_id,
    )
}

/// The views of a sequence of invocations.
pub open spec fn invocation_views<'a, H>(calls: Seq<Invocation<'a, H>>) -> Seq<InvocationView<H>> {
    calls.map_values(|call: Invocation<'a, H>| call@)
}

/// Routes an event of kind `kind` to the handlers installed for it: consults
/// the node's registry and then the client's, and asks for one call of each
/// handler found, each with the session identifier `session_id`.
pub fn dispatch<'a, H>(
    node: &'a Events<H>,
    client: &'a Events<H>,
    kind: EventKind,
    session_id: &str,
) -> (calls: Vec<Invocation<'a, H>>)
    ensures
        invocation_views(calls@) == dispatch_invocations(*node, *client, kind, session_id@),
{
    let mut calls: Vec<Invocation<'a, H>> = Vec::new();
    match node.handler(kind) {
        Some(handler) => {
            calls.push(
                Invocation { registry: Registry::NodeLocal, handler, session_id: session_id.to_owned() },
            );
        },
        None => {},
    }
    assert(invocation_views(calls@) =~= registry_invocations(
        Registry::NodeLocal,
        *node,
        kind,
        session_id@,
    ));
    match client.handler(kind) {
        Some(handler) => {
            calls.push(
                Invocation { registry: Registry::Global, handler, session_id: session_id.to_owned() },
            );
        },
        None => {},
    }
    assert(invocation_views(calls@) =~= dispatch_invocations(*node, *client, kind, session_id@));
    calls
}

/// Where both registries have a handler for the kind of an event, the
/// dispatch asks for the node's handler first and the client's second, and
/// for nothing else: the client's handler is not begun before the node's
/// has been awaited.
pub proof fn lemma_node_handler_first<H>(
    node: Events<H>,
    client: Events<H>,
    kind: EventKind,
    session_id: Seq<char>,
)
    requires
        node.slot(kind) is Some,
        client.slot(kind) is Some,
    ensures
        dispatch_invocations(node, client, kind, session_id) == seq![
            InvocationView { registry: Registry::NodeLocal, handler: node.slot(kind)->0, session_id },
            InvocationView { registry: Registry::Global, handler: client.slot(kind)->0, session_id },
        ],
{
}

/// A registry without a handler for the kind of an event adds nothing to the
/// dispatch, and in no dispatch does a handler of the client come before one
/// of the node.
pub proof fn lemma_dispatch_order<H>(
    node: Events<H>,
    client: Events<H>,
    kind: EventKind,
    session_id: Seq<char>,
)
    ensures
        dispatch_invocations(node, client, kind, session_id).len() == (if node.slot(kind) is Some {
            1nat
        } else {
            0nat
        }) + (if client.slot(kind) is Some {
            1nat
        } else {
            0nat
        }),
        forall|i: int, j: int|
            0 <= i < j < dispatch_invocations(node, client, kind, session_id).len() ==> {
                &&& (#[trigger] dispatch_invocations(node, client, kind, session_id)[i]).registry
                    == Registry::NodeLocal
                &&& (#[trigger] dispatch_invocations(node, client, kind, session_id)[j]).registry
                    == Registry::Global
            },
{
}

} // verus!
