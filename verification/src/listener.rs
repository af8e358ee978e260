//! The listener: the one task that hears the store's change notifications
//! and hands each to the router. It must never stop over a notification it
//! cannot read, and it must find its way back when the store goes away.

use crate::event::{audience, AppEvent};
use crate::notify::{announced, ChangePayload, DecodeError, Notification};
use vstd::prelude::*;

verus! {

/// How long to wait before trying the store again: `base_ms` at first,
/// twice as long after each failure, never longer than `max_ms`.
#[derive(Debug, Clone, Copy, PartialEq, Eq, Structural)]
pub struct Backoff {
    pub base_ms: u64,
    pub max_ms: u64,
}

/// `base`, doubled `times` times.
pub open spec fn doubled(base: nat, times: nat) -> nat
    decreases times,
{
    if times == 0 {
        base
    } else {
        2 * doubled(base, (times - 1) as nat)
    }
}

/// The wait before attempt number `attempt` (counted from 0), in
/// milliseconds.
pub open spec fn wait_ms(policy: Backoff, attempt: nat) -> nat {
    if doubled(policy.base_ms as nat, attempt) < policy.max_ms {
        doubled(policy.base_ms as nat, attempt)
    } else {
        policy.max_ms as nat
    }
}

/// Doubling never makes a wait shorter.
pub proof fn lemma_doubled_grows(base: nat, i: nat, j: nat)
    requires
        i <= j,
    ensures
        doubled(base, i) <= doubled(base, j),
        base == 0 ==> doubled(base, j) == 0,
    decreases j,
{
    if j > 0 {
        if i < j {
            lemma_doubled_grows(base, i, (j - 1) as nat);
        } else {
            lemma_doubled_grows(base, (i - 1) as nat, (j - 1) as nat);
        }
    }
}

/// Waits grow with the attempts and stay within the policy's limit.
pub proof fn lemma_wait_grows(policy: Backoff, i: nat, j: nat)
    requires
        i <= j,
    ensures
        wait_ms(policy, i) <= wait_ms(policy, j) <= policy.max_ms,
{
    lemma_doubled_grows(policy.base_ms as nat, i, j);
}

impl Backoff {
    /// The wait before attempt number `attempt`.
    pub fn delay_ms(&self, attempt: u32) -> (ms: u64)
        ensures
            ms == wait_ms(*self, attempt as nat),
    {
        let mut wait: u64 = if self.base_ms < self.max_ms {
            self.base_ms
        } else {
            self.max_ms
        };
        let mut i: u32 = 0;
        while i < attempt && 0 < wait && wait < self.max_ms
            invariant
                i <= attempt,
                wait == wait_ms(*self, i as nat),
            decreases attempt - i,
        {
            if wait > self.max_ms / 2 {
                wait = self.max_ms;
            } else {
                wait = wait * 2;
            }
            i = i + 1;
        }
        proof {
            lemma_doubled_grows(self.base_ms as nat, 0, i as nat);
            lemma_doubled_grows(self.base_ms as nat, i as nat, attempt as nat);
        }
        wait
    }
}

/// Where the listener stands.
#[derive(Debug, Clone, Copy, PartialEq, Eq, Structural)]
pub enum ListenerState {
    /// It has not yet heard from the store.
    Starting,
    Listening,
    /// It lost the store and has tried this many times to get it back.
    Reconnecting(u32),
    /// It never reached the store: the server cannot run.
    Failed,
}

/// What can happen to the listener.
#[derive(Debug, Clone)]
pub enum ListenerInput {
    /// The subscription to the store stands.
    Connected,
    /// An attempt to subscribe failed.
    ConnectFailed,
    /// A notification arrived and could be taken apart.
    Received(ChangePayload),
    /// A notification arrived and could not be taken apart.
    Malformed,
    /// The subscription broke.
    Lost,
}

/// What the listener's caller is to do next.
#[derive(Debug, Clone)]
pub enum ListenerAction {
    /// Hand the notification to the router.
    Route(Notification),
    /// Note why a notification was passed over, and go on.
    Skip(DecodeError),
    /// Wait this many milliseconds, then subscribe again.
    Reconnect(u64),
    /// Give up: the server must not start.
    Fail,
    /// Nothing.
    Idle,
}

pub enum ActionView {
    Route(AppEvent, Seq<u64>),
    Skip(DecodeError),
    Reconnect(u64),
    Fail,
    Idle,
}

impl View for ListenerAction {
    type V = ActionView;

    open spec fn view(&self) -> ActionView {
        match *self {
            ListenerAction::Route(n) => ActionView::Route(*n.event, n.user_ids@),
            ListenerAction::Skip(why) => ActionView::Skip(why),
            ListenerAction::Reconnect(ms) => ActionView::Reconnect(ms),
            ListenerAction::Fail => ActionView::Fail,
            ListenerAction::Idle => ActionView::Idle,
        }
    }
}

/// One more attempt, as far as attempts can be counted.
pub open spec fn one_more(attempt: u32) -> u32 {
    if attempt == u32::MAX {
        attempt
    } else {
        (attempt + 1) as u32
    }
}

/// The listener's state after an input. A failure before the store was
/// ever reached is final; a failure afterwards starts, or continues, the
/// attempts to reconnect.
pub open spec fn next_state(state: ListenerState, input: ListenerInput) -> ListenerState {
    match state {
        ListenerState::Starting => match input {
            ListenerInput::Connected => ListenerState::Listening,
            ListenerInput::ConnectFailed => ListenerState::Failed,
            ListenerInput::Lost => ListenerState::Failed,
            _ => state,
        },
        ListenerState::Listening => match input {
            ListenerInput::Lost => ListenerState::Reconnecting(0),
            _ => state,
        },
        ListenerState::Reconnecting(attempt) => match input {
            ListenerInput::Connected => ListenerState::Listening,
            ListenerInput::ConnectFailed => ListenerState::Reconnecting(one_more(attempt)),
            ListenerInput::Lost => ListenerState::Reconnecting(one_more(attempt)),
            _ => state,
        },
        ListenerState::Failed => state,
    }
}

/// What the listener answers to an input.
pub open spec fn reply(state: ListenerState, policy: Backoff, input: ListenerInput) -> ActionView {
    match state {
        ListenerState::Starting => match input {
            ListenerInput::ConnectFailed => ActionView::Fail,
            ListenerInput::Lost => ActionView::Fail,
            _ => ActionView::Idle,
        },
        ListenerState::Listening => match input {
            ListenerInput::Received(payload) => match announced(payload) {
                Ok(event) => ActionView::Route(event, audience(event, payload.recipients@)),
                Err(why) => ActionView::Skip(why),
            },
            ListenerInput::Malformed => ActionView::Skip(DecodeError::Malformed),
            ListenerInput::Lost => ActionView::Reconnect(wait_ms(policy, 0) as u64),
            _ => ActionView::Idle,
        },
        ListenerState::Reconnecting(attempt) => match input {
            ListenerInput::ConnectFailed => ActionView::Reconnect(
                wait_ms(policy, one_more(attempt) as nat) as u64,
            ),
            ListenerInput::Lost => ActionView::Reconnect(
                wait_ms(policy, one_more(attempt) as nat) as u64,
            ),
            _ => ActionView::Idle,
        },
        ListenerState::Failed => ActionView::Fail,
    }
}

/// The listener.
pub struct ChangeListener {
    state: ListenerState,
    policy: Backoff,
}

impl ChangeListener {
    pub closed spec fn spec_state(&self) -> ListenerState {
        self.state
    }

    pub closed spec fn spec_policy(&self) -> Backoff {
        self.policy
    }

    /// A listener that has not yet heard from the store.
    pub fn new(policy: Backoff) -> (listener: ChangeListener)
        ensures
            listener.spec_state() == ListenerState::Starting,
            listener.spec_policy() == policy,
    {
        ChangeListener { state: ListenerState::Starting, policy }
    }

    pub fn state(&self) -> (state: ListenerState)
        ensures
            state == self.spec_state(),
    {
        self.state
    }

    /// Takes one input and says what to do. A notification that cannot be
    /// read is passed over and changes nothing.
    pub fn step(&mut self, input: ListenerInput) -> (action: ListenerAction)
        ensures
            final(self).spec_policy() == old(self).spec_policy(),
            final(self).spec_state() == next_state(old(self).spec_state(), input),
            action@ == reply(old(self).spec_state(), old(self).spec_policy(), input),
    {
        match self.state {
            ListenerState::Starting => match input {
                ListenerInput::Connected => {
                    self.state = ListenerState::Listening;
                    ListenerAction::Idle
                },
                ListenerInput::ConnectFailed | ListenerInput::Lost => {
                    self.state = ListenerState::Failed;
                    ListenerAction::Fail
                },
                _ => ListenerAction::Idle,
            },
            ListenerState::Listening => match input {
                ListenerInput::Received(payload) => match Notification::load(payload) {
                    Ok(notification) => ListenerAction::Route(notification),
                    Err(why) => ListenerAction::Skip(why),
                },
                ListenerInput::Malformed => ListenerAction::Skip(DecodeError::Malformed),
                ListenerInput::Lost => {
                    self.state = ListenerState::Reconnecting(0);
                    ListenerAction::Reconnect(self.policy.delay_ms(0))
                },
                _ => ListenerAction::Idle,
            },
            ListenerState::Reconnecting(attempt) => match input {
                ListenerInput::Connected => {
                    self.state = ListenerState::Listening;
                    ListenerAction::Idle
                },
                ListenerInput::ConnectFailed | ListenerInput::Lost => {
                    let next: u32 = if attempt == u32::MAX {
                        attempt
                    } else {
                        attempt + 1
                    };
                    self.state = ListenerState::Reconnecting(next);
                    ListenerAction::Reconnect(self.policy.delay_ms(next))
                },
                _ => ListenerAction::Idle,
            },
            ListenerState::Failed => ListenerAction::Fail,
        }
    }
}

/// A notification that cannot be read neither stops the listener nor
/// leaves a trace: the listener passes it over and goes on listening, and
/// the notification that comes next is handled as if the unreadable one had
/// never arrived. If it announces an event, that event is routed to its
/// audience.
pub proof fn lemma_unreadable_is_passed_over(
    policy: Backoff,
    unreadable: ListenerInput,
    next: ChangePayload,
)
    requires
        unreadable is Malformed || (unreadable matches ListenerInput::Received(p) && announced(p)
            is Err),
    ensures
        reply(ListenerState::Listening, policy, unreadable) is Skip,
        next_state(ListenerState::Listening, unreadable) == ListenerState::Listening,
        reply(
            next_state(ListenerState::Listening, unreadable),
            policy,
            ListenerInput::Received(next),
        ) == reply(ListenerState::Listening, policy, ListenerInput::Received(next)),
        announced(next) matches Ok(event) ==> reply(
            next_state(ListenerState::Listening, unreadable),
            policy,
            ListenerInput::Received(next),
        ) == ActionView::Route(event, audience(event, next.recipients@)),
{
}

} // verus!
