//! One client's event stream, from the moment the client connects to the
//! moment the stream ends.
//!
//! The session decides; its caller waits. The caller tells the session what
//! happened (an event arrived, the heartbeat is due, the client went away)
//! and does what the session answers.

use crate::event::AppEvent;
use crate::model::User;
use crate::registry::{
    lemma_last_session_takes_entry, lemma_release_undoes_subscribe, released, sessions_of,
    subscribed, Subscription, SubscriptionRegistry, MAX_SUBSCRIBERS,
};
use std::sync::Arc;
use tokio::sync::broadcast::{Receiver, Sender};
use vstd::prelude::*;

verus! {

/// The seconds between two heartbeats.
pub const HEARTBEAT_SECS: u64 = 1;

/// What a heartbeat says.
pub fn heartbeat_text() -> (text: &'static str)
    ensures
        text@ == "keep-alive-text"@,
{
    "keep-alive-text"
}

#[derive(Debug, Clone, Copy, PartialEq, Eq, Structural)]
pub enum SessionState {
    Connecting,
    Streaming,
    Terminated,
}

/// What can happen to a session.
#[derive(Debug, Clone)]
pub enum SessionInput {
    /// The next event came out of the user's channel.
    Event(Arc<AppEvent>),
    /// The channel dropped this many events that the session had not read.
    Lagged(u64),
    /// The heartbeat is due.
    Tick,
    /// The client went away.
    Disconnected,
    /// The server is shutting down.
    Shutdown,
    /// The user's channel is gone.
    ChannelClosed,
}

impl SessionInput {
    /// Whether the input ends a session.
    pub open spec fn ends(self) -> bool {
        self is Disconnected || self is Shutdown || self is ChannelClosed
    }
}

/// What the caller of a session is to do next.
#[derive(Debug, Clone)]
pub enum SessionAction {
    /// Write the event to the client, under the event's name.
    Emit(Arc<AppEvent>),
    /// Write a heartbeat to the client.
    KeepAlive,
    /// Nothing.
    Idle,
    /// Close the stream.
    Close,
}

/// A session as its caller sees it.
pub struct SessionView {
    pub user_id: u64,
    pub state: SessionState,
    /// The events that the session is known to have missed.
    pub missed: u64,
}

/// `a + b`, or the greatest number if that is less.
pub open spec fn capped_sum(a: u64, b: u64) -> u64 {
    if a + b > u64::MAX {
        u64::MAX
    } else {
        (a + b) as u64
    }
}

/// The session after an input.
pub open spec fn stepped(s: SessionView, input: SessionInput) -> SessionView {
    match s.state {
        SessionState::Terminated => s,
        SessionState::Connecting => if input.ends() {
            SessionView { state: SessionState::Terminated, ..s }
        } else {
            s
        },
        SessionState::Streaming => match input {
            SessionInput::Event(_) => s,
            SessionInput::Tick => s,
            SessionInput::Lagged(n) => SessionView { missed: capped_sum(s.missed, n), ..s },
            _ => SessionView { state: SessionState::Terminated, ..s },
        },
    }
}

/// What the session answers to an input.
pub open spec fn reaction(s: SessionView, input: SessionInput) -> SessionAction {
    match s.state {
        SessionState::Terminated => SessionAction::Close,
        SessionState::Connecting => if input.ends() {
            SessionAction::Close
        } else {
            SessionAction::Idle
        },
        SessionState::Streaming => match input {
            SessionInput::Event(event) => SessionAction::Emit(event),
            SessionInput::Tick => SessionAction::KeepAlive,
            SessionInput::Lagged(_) => SessionAction::Idle,
            _ => SessionAction::Close,
        },
    }
}

/// Whether the input makes the session give up its place in the registry:
/// the one input that ends it while it streams.
pub open spec fn lets_go(s: SessionView, input: SessionInput) -> bool {
    s.state is Streaming && input.ends()
}

/// The session after a run of inputs.
pub open spec fn ran(s: SessionView, inputs: Seq<SessionInput>) -> SessionView
    decreases inputs.len(),
{
    if inputs.len() == 0 {
        s
    } else {
        stepped(ran(s, inputs.drop_last()), inputs.last())
    }
}

/// The registry after a session took a run of inputs.
pub open spec fn registry_after(
    s: SessionView,
    m: Map<u64, usize>,
    inputs: Seq<SessionInput>,
) -> Map<u64, usize>
    decreases inputs.len(),
{
    if inputs.len() == 0 {
        m
    } else {
        let before = registry_after(s, m, inputs.drop_last());
        if lets_go(ran(s, inputs.drop_last()), inputs.last()) {
            released(before, s.user_id)
        } else {
            before
        }
    }
}

/// What the session answered to the input at `at` of a run.
pub open spec fn answer_at(s: SessionView, inputs: Seq<SessionInput>, at: int) -> SessionAction {
    reaction(ran(s, inputs.subrange(0, at)), inputs[at])
}

/// A session keeps its user, and once it has ended it stays ended.
pub proof fn lemma_run_keeps_user(s: SessionView, inputs: Seq<SessionInput>)
    ensures
        ran(s, inputs).user_id == s.user_id,
        s.state is Terminated ==> ran(s, inputs) == s,
    decreases inputs.len(),
{
    if inputs.len() > 0 {
        lemma_run_keeps_user(s, inputs.drop_last());
    }
}

/// A streaming session goes on streaming for as long as nothing ends it.
pub proof fn lemma_streams_until_ended(s: SessionView, inputs: Seq<SessionInput>)
    requires
        s.state is Streaming,
        forall|i: int| 0 <= i < inputs.len() ==> !inputs[i].ends(),
    ensures
        ran(s, inputs).state is Streaming,
    decreases inputs.len(),
{
    if inputs.len() > 0 {
        let init = inputs.drop_last();
        assert forall|i: int| 0 <= i < init.len() implies !init[i].ends() by {
            assert(init[i] == inputs[i]);
        }
        lemma_streams_until_ended(s, init);
    }
}

/// Events leave a session as they came in: while nothing has ended the
/// session, every event that it is given is written out at once, so of two
/// events the one given first is written first, and none is held back or
/// written twice.
pub proof fn lemma_events_pass_in_order(s: SessionView, inputs: Seq<SessionInput>, at: int)
    requires
        s.state is Streaming,
        0 <= at < inputs.len(),
        forall|i: int| 0 <= i < at ==> !inputs[i].ends(),
    ensures
        inputs[at] matches SessionInput::Event(event) ==> answer_at(s, inputs, at)
            == SessionAction::Emit(event),
        inputs[at] is Tick ==> answer_at(s, inputs, at) == SessionAction::KeepAlive,
        inputs[at] is Lagged ==> answer_at(s, inputs, at) == SessionAction::Idle,
{
    let earlier = inputs.subrange(0, at);
    assert forall|i: int| 0 <= i < earlier.len() implies !earlier[i].ends() by {
        assert(earlier[i] == inputs[i]);
    }
    lemma_streams_until_ended(s, earlier);
}

/// A session gives up its place in the registry once, on whatever way it
/// ends: however many inputs follow the one that ended it, the registry has
/// seen exactly one release for the session's user. A session that was
/// never ended, or never streamed, has released nothing.
pub proof fn lemma_released_once(s: SessionView, m: Map<u64, usize>, inputs: Seq<SessionInput>)
    requires
        !(s.state is Connecting),
    ensures
        !(ran(s, inputs).state is Connecting),
        registry_after(s, m, inputs) == (if s.state is Streaming && ran(s, inputs).state
            is Terminated {
            released(m, s.user_id)
        } else {
            m
        }),
        s.state is Streaming && (exists|i: int| 0 <= i < inputs.len() && inputs[i].ends())
            ==> ran(s, inputs).state is Terminated,
    decreases inputs.len(),
{
    if inputs.len() > 0 {
        let init = inputs.drop_last();
        lemma_released_once(s, m, init);
        lemma_run_keeps_user(s, init);
        if s.state is Streaming && exists|i: int| 0 <= i < inputs.len() && inputs[i].ends() {
            let i = choose|i: int| 0 <= i < inputs.len() && inputs[i].ends();
            if i < init.len() {
                assert(init[i] == inputs[i]);
            }
        }
    }
}

/// When a session that streams comes to its end, the registry is left as
/// it was before the session connected, whatever the session was given in
/// between: if it was the user's only session, the user's entry is gone;
/// if the user has other sessions, their entry stands and counts them as
/// before.
pub proof fn lemma_session_leaves_no_trace(
    s: SessionView,
    before: Map<u64, usize>,
    inputs: Seq<SessionInput>,
)
    requires
        s.state is Streaming,
        sessions_of(before, s.user_id) < MAX_SUBSCRIBERS,
        exists|i: int| 0 <= i < inputs.len() && inputs[i].ends(),
    ensures
        ran(s, inputs).state is Terminated,
        sessions_of(before, s.user_id) == 0 ==> !registry_after(
            s,
            subscribed(before, s.user_id),
            inputs,
        ).contains_key(s.user_id),
        sessions_of(before, s.user_id) >= 1 ==> registry_after(
            s,
            subscribed(before, s.user_id),
            inputs,
        ) == before,
        forall|other: u64|
            other != s.user_id && before.contains_key(other) ==> registry_after(
                s,
                subscribed(before, s.user_id),
                inputs,
            )[other] == before[other],
{
    let joined = subscribed(before, s.user_id);
    lemma_released_once(s, joined, inputs);
    if sessions_of(before, s.user_id) == 0 {
        lemma_last_session_takes_entry(before, s.user_id);
    } else {
        lemma_release_undoes_subscribe(before, s.user_id);
    }
}

/// The event stream of one connected client.
pub struct StreamSession {
    user_id: u64,
    state: SessionState,
    subscription: Option<Subscription>,
    missed: u64,
}

impl View for StreamSession {
    type V = SessionView;

    closed spec fn view(&self) -> SessionView {
        SessionView { user_id: self.user_id, state: self.state, missed: self.missed }
    }
}

impl StreamSession {
    /// A session holds a receiving handle, its user's, exactly while it
    /// streams.
    pub closed spec fn wf(&self) -> bool {
        &&& self.state is Streaming <==> self.subscription is Some
        &&& self.subscription matches Some(sub) ==> sub.user() == self.user_id
    }

    /// The channel that the session receives from, while it streams.
    pub closed spec fn channel(&self) -> Sender<Arc<AppEvent>> {
        self.subscription->0.channel()
    }

    /// A session for `user`, who has been authenticated, before it is
    /// connected.
    pub fn new(user: &User) -> (session: StreamSession)
        ensures
            session.wf(),
            session@ == (SessionView {
                user_id: user.id as u64,
                state: SessionState::Connecting,
                missed: 0,
            }),
    {
        StreamSession {
            user_id: user.id as u64,
            state: SessionState::Connecting,
            subscription: None,
            missed: 0,
        }
    }

    pub fn user_id(&self) -> (id: u64)
        ensures
            id == self@.user_id,
    {
        self.user_id
    }

    pub fn state(&self) -> (state: SessionState)
        ensures
            state == self@.state,
    {
        self.state
    }

    pub fn missed(&self) -> (n: u64)
        ensures
            n == self@.missed,
    {
        self.missed
    }

    /// The receiving handle to wait on, while the session streams.
    pub fn receiver(&mut self) -> (rx: Option<&mut Receiver<Arc<AppEvent>>>)
        requires
            old(self).wf(),
        ensures
            rx is Some <==> old(self)@.state is Streaming,
            final(self)@ == old(self)@,
            final(self).wf(),
    {
        match &mut self.subscription {
            Some(sub) => Some(sub.receiver()),
            None => None,
        }
    }

    /// Connects the session: it takes a receiving handle from the registry
    /// and streams from now on, from the channel that the registry holds
    /// for its user. That is the channel which the user's other sessions
    /// receive from, if there are any; nobody's channel is replaced. A
    /// session that is not waiting to connect stays as it is. A user who
    /// already has as many sessions as a channel can feed is turned away:
    /// the session ends without having streamed. Nothing is sent.
    pub fn connect(&mut self, registry: &mut SubscriptionRegistry)
        requires
            old(self).wf(),
        ensures
            final(self).wf(),
            final(self)@.user_id == old(self)@.user_id,
            final(self)@.missed == old(self)@.missed,
            final(registry).offered() == old(registry).offered(),
            !(old(self)@.state is Connecting) ==> final(self)@ == old(self)@ && final(registry)@
                == old(registry)@ && final(registry).channels() == old(registry).channels(),
            old(self)@.state is Connecting ==> (if old(registry)@.contains_key(old(self)@.user_id)
                && old(registry)@[old(self)@.user_id] >= MAX_SUBSCRIBERS {
                final(self)@.state is Terminated && final(registry)@ == old(registry)@ && final(registry).channels() == old(registry).channels()
            } else {
                &&& final(self)@.state is Streaming
                &&& final(registry)@ == subscribed(old(registry)@, old(self)@.user_id)
                &&& final(registry).channels().contains_key(old(self)@.user_id)
                &&& final(self).channel() == final(registry).channels()[old(self)@.user_id]
                &&& old(registry)@.contains_key(old(self)@.user_id) ==> final(registry).channels() == old(registry).channels()
                &&& !old(registry)@.contains_key(old(self)@.user_id) ==> final(registry).channels() == old(registry).channels().insert(
                    old(self)@.user_id,
                    final(self).channel(),
                )
            }),
    {
        match self.state {
            SessionState::Connecting => {
                if registry.has_room(self.user_id) {
                    let sub = registry.get_or_create(self.user_id);
                    self.subscription = Some(sub);
                    self.state = SessionState::Streaming;
                } else {
                    self.state = SessionState::Terminated;
                }
            },
            _ => {},
        }
    }

    /// Takes one input and says what to do. While the session streams, an
    /// event is passed on, a heartbeat is sent when it is due, and lost
    /// events are counted. The first input that ends the session releases
    /// its handle to the registry, once; whatever comes after finds the
    /// session ended and changes nothing. The user's channel goes with the
    /// user's last session and not before; every other channel stays.
    pub fn step(&mut self, registry: &mut SubscriptionRegistry, input: SessionInput) -> (action:
        SessionAction)
        requires
            old(self).wf(),
        ensures
            final(self).wf(),
            final(self)@ == stepped(old(self)@, input),
            action == reaction(old(self)@, input),
            final(registry)@ == (if lets_go(old(self)@, input) {
                released(old(registry)@, old(self)@.user_id)
            } else {
                old(registry)@
            }),
            final(registry).channels() == (if lets_go(old(self)@, input) && old(registry)@.contains_key(old(self)@.user_id) && old(registry)@[old(self)@.user_id] <= 1 {
                old(registry).channels().remove(old(self)@.user_id)
            } else {
                old(registry).channels()
            }),
            final(registry).offered() == old(registry).offered(),
    {
        match self.state {
            SessionState::Terminated => SessionAction::Close,
            SessionState::Connecting => match input {
                SessionInput::Disconnected | SessionInput::Shutdown | SessionInput::ChannelClosed => {
                    self.state = SessionState::Terminated;
                    SessionAction::Close
                },
                _ => SessionAction::Idle,
            },
            SessionState::Streaming => match input {
                SessionInput::Event(event) => SessionAction::Emit(event),
                SessionInput::Tick => SessionAction::KeepAlive,
                SessionInput::Lagged(n) => {
                    self.missed = if n > u64::MAX - self.missed {
                        u64::MAX
                    } else {
                        self.missed + n
                    };
                    SessionAction::Idle
                },
                SessionInput::Disconnected | SessionInput::Shutdown | SessionInput::ChannelClosed => {
                    match self.subscription.take() {
                        Some(sub) => {
                            let _ = registry.release(sub);
                        },
                        None => {},
                    }
                    self.state = SessionState::Terminated;
                    SessionAction::Close
                },
            },
        }
    }
}

} // verus!
