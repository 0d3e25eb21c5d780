//! What the node does about a decoded message: the side effects of the
//! event it announces, then the dispatch of the typed event and of the raw
//! envelope, in that order.

use vstd::prelude::*;
use vstd::string::*;
use crate::decoder::{decode, decode_envelope, DecodeError, Event, EventView};
use crate::json::{json_member_text, json_model, Json};
use crate::events::EventKind;
use crate::model::GuildId;

verus! {

/// One step of the node's reaction to a message.
#[derive(Clone, Debug)]
pub enum Action {
    /// Replace the node's session identifier, whole, by this one.
    SetSession(String),
    /// Push the state snapshot of the message into the guild's playback handle.
    UpdateState { guild_id: GuildId },
    /// Push the track of the message into the guild's playback handle as its
    /// current track.
    UpdateTrack { guild_id: GuildId },
    /// Mark the current track of the guild's playback handle finished, for
    /// this reason.
    Finish { guild_id: GuildId, reason: String },
    /// Dispatch the message to the handlers of this kind.
    Dispatch(EventKind),
}

/// An action as a plain value.
pub ghost enum ActionView {
    SetSession(Seq<char>),
    UpdateState { guild_id: GuildId },
    UpdateTrack { guild_id: GuildId },
    Finish { guild_id: GuildId, reason: Seq<char> },
    Dispatch(EventKind),
}

impl View for Action {
    type V = ActionView;

    open spec fn view(&self) -> ActionView {
        match *self {
            Action::SetSession(session_id) => ActionView::SetSession(session_id@),
            Action::UpdateState { guild_id } => ActionView::UpdateState { guild_id },
            Action::UpdateTrack { guild_id } => ActionView::UpdateTrack { guild_id },
            Action::Finish { guild_id, reason } => ActionView::Finish { guild_id, reason: reason@ },
            Action::Dispatch(kind) => ActionView::Dispatch(kind),
        }
    }
}

impl ActionView {
    /// Whether the action is a call into a playback handle.
    pub open spec fn is_push(self) -> bool {
        self is UpdateState || self is UpdateTrack || self is Finish
    }
}

/// The views of a sequence of actions.
pub open spec fn action_views(actions: Seq<Action>) -> Seq<ActionView> {
    actions.map_values(|action: Action| action@)
}

/// The side effects of `event`, in order. `registered` says whether a
/// playback handle is registered for the guild that the event updates; where
/// none is, the event updates nothing.
pub open spec fn side_effects(event: EventView, registered: bool) -> Seq<ActionView> {
    match event {
        EventView::Ready { session_id, .. } => seq![ActionView::SetSession(session_id)],
        EventView::PlayerUpdate { guild_id } => if registered {
            seq![ActionView::UpdateState { guild_id }]
        } else {
            seq![]
        },
        EventView::TrackStart { guild_id } => if registered {
            seq![ActionView::UpdateTrack { guild_id }]
        } else {
            seq![]
        },
        EventView::TrackEnd { guild_id, reason } => if registered {
            seq![ActionView::Finish { guild_id, reason }, ActionView::UpdateTrack { guild_id }]
        } else {
            seq![]
        },
        _ => seq![],
    }
}

/// The node's reaction to a decoded message: the side effects of its typed
/// event, the dispatch of that event, and last the dispatch of the raw
/// envelope, which every decoded message gets.
pub open spec fn reaction(event: Option<EventView>, registered: bool) -> Seq<ActionView> {
    match event {
        Some(event) => side_effects(event, registered) + seq![
            ActionView::Dispatch(event.kind()),
            ActionView::Dispatch(EventKind::Raw),
        ],
        None => seq![ActionView::Dispatch(EventKind::Raw)],
    }
}

/// The view of an optional event.
pub open spec fn event_view(event: Option<Event>) -> Option<EventView> {
    match event {
        Some(event) => Some(event@),
        None => None,
    }
}

/// Plans the node's reaction to a decoded message. `event` is the typed
/// event of the message, if it has one; `registered` says whether a playback
/// handle is registered for the guild that the event updates, and is not
/// read for an event that updates none.
///
/// A push that fails is logged by the caller and the plan goes on: no step
/// depends on the outcome of another.
pub fn react(event: &Option<Event>, registered: bool) -> (plan: Vec<Action>)
    ensures
        action_views(plan@) == reaction(event_view(*event), registered),
{
    let mut plan: Vec<Action> = Vec::new();
    match event {
        Some(event) => {
            match event {
                Event::Ready { session_id, .. } => {
                    plan.push(Action::SetSession(session_id.clone()));
                },
                Event::PlayerUpdate { guild_id } => {
                    if registered {
                        plan.push(Action::UpdateState { guild_id: *guild_id });
                    }
                },
                Event::TrackStart { guild_id } => {
                    if registered {
                        plan.push(Action::UpdateTrack { guild_id: *guild_id });
                    }
                },
                Event::TrackEnd { guild_id, reason } => {
                    if registered {
                        plan.push(Action::Finish { guild_id: *guild_id, reason: reason.clone() });
                        plan.push(Action::UpdateTrack { guild_id: *guild_id });
                    }
                },
                _ => {},
            }
            assert(action_views(plan@) =~= side_effects(event@, registered));
            plan.push(Action::Dispatch(event.kind()));
        },
        None => {},
    }
    plan.push(Action::Dispatch(EventKind::Raw));
    assert(action_views(plan@) =~= reaction(event_view(*event), registered));
    plan
}

/// The view of an optional guild's event: the guild whose playback handle the
/// event updates.
pub open spec fn event_player(event: Option<EventView>) -> Option<GuildId> {
    match event {
        Some(event) => event.player(),
        None => None,
    }
}

/// Decodes the envelope of a message and plans the node's reaction to it.
/// `registered` is asked, once, whether a playback handle is registered for
/// the guild that the event updates, and is not asked for an event that
/// updates none.
///
/// A message that cannot be decoded is given up with the decoder's error:
/// nothing is to be changed and nothing dispatched for it, the raw envelope
/// included.
pub fn process<F: Fn(GuildId) -> bool>(envelope: &serde_json::Value, registered: F) -> (r: Result<
    Vec<Action>,
    DecodeError,
>)
    requires
        forall|guild: GuildId| call_requires(registered, (guild,)),
    ensures
        match decode_envelope(json_model(*envelope)) {
            Err(fault) => r == Err::<Vec<Action>, DecodeError>(fault),
            Ok(event) => r matches Ok(plan) && match event_player(event) {
                Some(guild) => exists|found: bool|
                    call_ensures(registered, (guild,), found) && action_views(plan@)
                        == #[trigger] reaction(event, found),
                None => forall|found: bool|
                    action_views(plan@) == #[trigger] reaction(event, found),
            },
        },
{
    match decode(envelope) {
        Err(fault) => Err(fault),
        Ok(event) => {
            let found = match &event {
                Some(typed) => match typed.player() {
                    Some(guild) => registered(guild),
                    None => false,
                },
                None => false,
            };
            let plan = react(&event, found);
            proof {
                let view = event_view(event);
                assert(view == decode_envelope(json_model(*envelope))->Ok_0);
                if event_player(view) is None {
                    assert forall|other: bool|
                        action_views(plan@) == #[trigger] reaction(view, other) by {
                        assert(reaction(view, other) =~= reaction(view, found));
                    }
                }
            }
            Ok(plan)
        },
    }
}

/// Every decoded message has its raw envelope dispatched exactly once,
/// whatever its typed event and whether it has one: the last step of the
/// reaction is the raw dispatch, and no other step is.
pub proof fn lemma_raw_dispatched_once(event: Option<EventView>, registered: bool)
    ensures
        reaction(event, registered).len() >= 1,
        forall|i: int|
            0 <= i < reaction(event, registered).len() ==> (#[trigger] reaction(
                event,
                registered,
            )[i] == ActionView::Dispatch(EventKind::Raw) <==> i == reaction(event, registered).len()
                - 1),
{
}

/// A message with a typed event has that event dispatched exactly once, just
/// before the raw envelope and after every side effect.
pub proof fn lemma_typed_dispatched_once(event: EventView, registered: bool)
    ensures
        reaction(Some(event), registered).len() >= 2,
        forall|i: int|
            0 <= i < reaction(Some(event), registered).len() ==> (#[trigger] reaction(
                Some(event),
                registered,
            )[i] is Dispatch <==> i >= reaction(Some(event), registered).len() - 2),
        reaction(Some(event), registered)[reaction(Some(event), registered).len() - 2]
            == ActionView::Dispatch(event.kind()),
        event.kind() != EventKind::Raw,
{
}

/// A message without a typed event has nothing dispatched but its raw
/// envelope, once, and has no side effect.
pub proof fn lemma_untyped_reaction(registered: bool)
    ensures
        reaction(None, registered) == seq![ActionView::Dispatch(EventKind::Raw)],
{
}

/// An envelope whose `op` is none of the four known has no typed event: the
/// reaction to it is the dispatch of the raw envelope, once, and nothing else.
pub proof fn lemma_unrecognized_op(doc: Json, registered: bool)
    requires
        json_member_text(doc, "op"@) matches Some(op) && op != "ready"@ && op != "playerUpdate"@
            && op != "stats"@ && op != "event"@,
    ensures
        decode_envelope(doc) == Ok::<Option<EventView>, DecodeError>(None),
        reaction(decode_envelope(doc)->Ok_0, registered) == seq![
            ActionView::Dispatch(EventKind::Raw),
        ],
{
}

/// An envelope that announces `event` with a `type` that is none of the five
/// known has no typed event: the reaction to it is the dispatch of the raw
/// envelope, once, and nothing else.
pub proof fn lemma_unrecognized_type(doc: Json, registered: bool)
    requires
        json_member_text(doc, "op"@) == Some("event"@),
        json_member_text(doc, "type"@) matches Some(name) && name != "TrackStartEvent"@ && name
            != "TrackEndEvent"@ && name != "TrackExceptionEvent"@ && name != "TrackStuckEvent"@
            && name != "WebSocketClosedEvent"@,
    ensures
        decode_envelope(doc) == Ok::<Option<EventView>, DecodeError>(None),
        reaction(decode_envelope(doc)->Ok_0, registered) == seq![
            ActionView::Dispatch(EventKind::Raw),
        ],
{
    reveal_strlit("ready");
    reveal_strlit("playerUpdate");
    reveal_strlit("stats");
    reveal_strlit("event");
    assert("event"@ != "ready"@) by {
        assert("event"@[0] != "ready"@[0]);
    }
    assert("event"@ != "stats"@) by {
        assert("event"@[0] != "stats"@[0]);
    }
    assert("event"@ != "playerUpdate"@) by {
        assert("event"@.len() != "playerUpdate"@.len());
    }
}

/// Without a registered playback handle no event pushes anything.
pub proof fn lemma_no_handle_no_push(event: Option<EventView>)
    ensures
        forall|i: int|
            0 <= i < reaction(event, false).len() ==> !(#[trigger] reaction(event, false)[i]).is_push(),
{
}

/// The playback handle of the guild of a `TrackEnd` is told that the track
/// finished, then given the new track, and both before any dispatch.
pub proof fn lemma_track_end_order(guild_id: GuildId, reason: Seq<char>)
    ensures
        reaction(Some(EventView::TrackEnd { guild_id, reason }), true) == seq![
            ActionView::Finish { guild_id, reason },
            ActionView::UpdateTrack { guild_id },
            ActionView::Dispatch(EventKind::TrackEnd),
            ActionView::Dispatch(EventKind::Raw),
        ],
{
}

} // verus!
