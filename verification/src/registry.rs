//! Who is listening: for each user with a live event stream, the channel
//! that feeds the user's sessions and the number of sessions fed.
//!
//! The channels are `tokio` broadcast channels, kept in a `DashMap`. The
//! registry owns the map, hands out one receiver per session and takes it
//! back when the session ends, so the number of receivers that it has out is
//! its own to count.
//!
//! Three things are said of the registry: how many sessions each user has,
//! which channel each user has, and which events were handed to each
//! user's channel, in order. What a channel does with an event once it has
//! it, and how many receivers it finds, is the channel's own affair.

use crate::event::AppEvent;
use dashmap::DashMap;
use std::sync::Arc;
use tokio::sync::broadcast::{Receiver, Sender};
use vstd::prelude::*;

verus! {

/// `dashmap::DashMap`, known here by what its wrappers below say of it.
#[verifier::external_type_specification]
#[verifier::external_body]
#[verifier::reject_recursive_types(K)]
#[verifier::reject_recursive_types(V)]
#[verifier::reject_recursive_types(S)]
pub struct ExDashMap<K, V, S>(DashMap<K, V, S>);

/// The sending half of a `tokio` broadcast channel. Nothing is known of
/// what is inside one.
#[verifier::external_type_specification]
#[verifier::external_body]
#[verifier::reject_recursive_types(T)]
pub struct ExSender<T>(Sender<T>);

/// A receiving half of a `tokio` broadcast channel. Nothing is known of
/// what is inside one.
#[verifier::external_type_specification]
#[verifier::external_body]
#[verifier::reject_recursive_types(T)]
pub struct ExReceiver<T>(Receiver<T>);

/// How many events a channel keeps for a session that has fallen behind.
/// When more are waiting, the oldest is dropped.
pub const CHANNEL_CAPACITY: usize = 256;

/// The number of sessions that one user's channel can feed.
pub const MAX_SUBSCRIBERS: usize = 0x3fff_ffff;

/// A user's place in the registry: the sending half of the user's channel,
/// and the number of receivers that are out.
pub struct Entry {
    tx: Sender<Arc<AppEvent>>,
    subscribers: usize,
}

/// The receiving handle of one session. Only the registry makes one, and
/// it takes each back when the session ends.
pub struct Subscription {
    user_id: u64,
    rx: Receiver<Arc<AppEvent>>,
}

impl Subscription {
    /// The user whose events the handle receives.
    pub closed spec fn user(&self) -> u64 {
        self.user_id
    }

    pub fn user_id(&self) -> (id: u64)
        ensures
            id == self.user(),
    {
        self.user_id
    }

    /// The receiver that the handle holds.
    pub closed spec fn held(&self) -> Receiver<Arc<AppEvent>> {
        self.rx
    }

    /// The channel that the handle receives from.
    pub closed spec fn channel(&self) -> Sender<Arc<AppEvent>> {
        tuned_to(self.rx)
    }

    /// The receiver to wait on: the one that the handle holds, lent out.
    /// What the borrower leaves of it is what the handle holds afterwards,
    /// and the handle stays with its user.
    pub fn receiver(&mut self) -> (rx: &mut Receiver<Arc<AppEvent>>)
        ensures
            *rx == old(self).held(),
            final(self).held() == *final(rx),
            final(self).user() == old(self).user(),
    {
        &mut self.rx
    }
}

/// What became of a published event.
#[derive(Debug, Clone, Copy, PartialEq, Eq, Structural)]
pub enum Delivery {
    /// It was put before this many sessions.
    Delivered(usize),
    /// Nobody was listening.
    Unobserved,
}

impl Delivery {
    /// A delivery that was observed was put before somebody.
    pub open spec fn credible(self) -> bool {
        self matches Delivery::Delivered(n) ==> n >= 1
    }
}

/// What a map of users holds: for each user in it, the subscriber count of
/// the user's entry.
pub uninterp spec fn entries(users: DashMap<u64, Entry>) -> Map<u64, usize>;

/// What a map of users holds besides: for each user in it, the sending half
/// of the user's entry, which stands for the user's channel.
pub uninterp spec fn channels(users: DashMap<u64, Entry>) -> Map<u64, Sender<Arc<AppEvent>>>;

/// What has been sent by way of a map of users: for each user, the events
/// that were handed to `send` on the channel held under the user, oldest
/// first. A user to whom nothing was sent may be missing.
pub uninterp spec fn offered(users: DashMap<u64, Entry>) -> Map<u64, Seq<AppEvent>>;

/// The channel that a receiver receives from. A receiver is bound to one
/// channel for as long as it lives.
pub uninterp spec fn tuned_to(rx: Receiver<Arc<AppEvent>>) -> Sender<Arc<AppEvent>>;

pub open spec fn nobody() -> Map<u64, usize> {
    Map::empty()
}

pub open spec fn no_channels() -> Map<u64, Sender<Arc<AppEvent>>> {
    Map::empty()
}

pub open spec fn nothing_offered() -> Map<u64, Seq<AppEvent>> {
    Map::empty()
}

/// What a log says was handed to `user`'s channel: nothing, if it does not
/// speak of the user.
pub open spec fn handed_in(log: Map<u64, Seq<AppEvent>>, user: u64) -> Seq<AppEvent> {
    if log.contains_key(user) {
        log[user]
    } else {
        Seq::empty()
    }
}

/// The log after `event` was handed to `user`'s channel.
pub open spec fn hand(log: Map<u64, Seq<AppEvent>>, user: u64, event: AppEvent) -> Map<
    u64,
    Seq<AppEvent>,
> {
    log.insert(user, handed_in(log, user).push(event))
}

/// `DashMap::new`: a map that holds nothing, by way of which nothing was
/// sent.
#[verifier::external_body]
fn users_new() -> (users: DashMap<u64, Entry>)
    ensures
        entries(users) == nobody(),
        channels(users) == no_channels(),
        offered(users) == nothing_offered(),
{
    DashMap::new()
}

/// `DashMap::insert`: afterwards the map holds `entry` under `user`, in
/// place of what it held there, and is otherwise unchanged. Nothing is sent.
#[verifier::external_body]
fn users_put(users: &mut DashMap<u64, Entry>, user: u64, entry: Entry)
    ensures
        entries(*final(users)) == entries(*old(users)).insert(user, entry.subscribers),
        channels(*final(users)) == channels(*old(users)).insert(user, entry.tx),
        offered(*final(users)) == offered(*old(users)),
{
    users.insert(user, entry);
}

/// `DashMap::remove`: what the map held under `user` is handed out, and the
/// map holds nothing there afterwards. Nothing is sent.
#[verifier::external_body]
fn users_take(users: &mut DashMap<u64, Entry>, user: u64) -> (taken: Option<Entry>)
    ensures
        entries(*final(users)) == entries(*old(users)).remove(user),
        channels(*final(users)) == channels(*old(users)).remove(user),
        offered(*final(users)) == offered(*old(users)),
        taken is Some <==> entries(*old(users)).contains_key(user),
        taken is Some <==> channels(*old(users)).contains_key(user),
        taken matches Some(entry) ==> entry.subscribers == entries(*old(users))[user],
        taken matches Some(entry) ==> entry.tx == channels(*old(users))[user],
{
    match users.remove(&user) {
        Some((_, entry)) => Some(entry),
        None => None,
    }
}

/// `DashMap::get`, for the subscriber count alone: the count of `user`'s
/// entry, if the map holds one. An entry is a count and a channel: where
/// there is the one, there is the other.
#[verifier::external_body]
fn users_count(users: &DashMap<u64, Entry>, user: u64) -> (count: Option<usize>)
    ensures
        count is Some <==> entries(*users).contains_key(user),
        count is Some <==> channels(*users).contains_key(user),
        count matches Some(n) ==> n == entries(*users)[user],
{
    users.get(&user).map(|entry| entry.subscribers)
}

/// `DashMap::get`, then `Sender::send` on the channel found: `event` is
/// handed to the channel that the map holds under `user`, and the answer is
/// the number of receivers that the channel had, which is at least one.
/// There is no answer when the channel had no receiver, or when the map
/// holds nothing under `user`; in that case nothing is sent. The map holds
/// afterwards what it held before. The call never waits: a receiver that is
/// a channel's capacity behind loses the oldest event.
#[verifier::external_body]
fn users_send(users: &mut DashMap<u64, Entry>, user: u64, event: Arc<AppEvent>) -> (sent: Option<
    usize,
>)
    ensures
        entries(*final(users)) == entries(*old(users)),
        channels(*final(users)) == channels(*old(users)),
        offered(*final(users)) == (if entries(*old(users)).contains_key(user) {
            hand(offered(*old(users)), user, *event)
        } else {
            offered(*old(users))
        }),
        sent matches Some(n) ==> n >= 1 && entries(*old(users)).contains_key(user),
{
    users.get(&user).and_then(|entry| entry.tx.send(event).ok())
}

/// `Sender::new`: the sending half of a fresh channel that keeps `capacity`
/// events and has no receiver yet. The call does not return for a capacity
/// of 0 or above `usize::MAX / 2`.
#[verifier::external_body]
fn open_channel(capacity: usize) -> Sender<Arc<AppEvent>>
    requires
        0 < capacity <= usize::MAX / 2,
{
    Sender::new(capacity)
}

/// `Sender::subscribe`: a new receiver of the entry's channel, which will
/// see what is sent from now on. The call does not return when the channel
/// already has `usize::MAX / 4` receivers; the entry counts every receiver
/// that was made here and has not been handed back.
#[verifier::external_body]
fn attach(entry: &Entry) -> (rx: Receiver<Arc<AppEvent>>)
    requires
        entry.subscribers < MAX_SUBSCRIBERS,
    ensures
        tuned_to(rx) == entry.tx,
{
    entry.tx.subscribe()
}

/// The registry after `user` opened one more session.
pub open spec fn subscribed(m: Map<u64, usize>, user: u64) -> Map<u64, usize> {
    if m.contains_key(user) {
        m.insert(user, (m[user] + 1) as usize)
    } else {
        m.insert(user, 1)
    }
}

/// The registry after an event was published to `user`: a user who had no
/// entry has one now, with nobody listening.
pub open spec fn addressed(m: Map<u64, usize>, user: u64) -> Map<u64, usize> {
    if m.contains_key(user) {
        m
    } else {
        m.insert(user, 0)
    }
}

/// The registry after one of `user`'s sessions ended: the entry goes with
/// its last session.
pub open spec fn released(m: Map<u64, usize>, user: u64) -> Map<u64, usize> {
    if !m.contains_key(user) {
        m
    } else if m[user] <= 1 {
        m.remove(user)
    } else {
        m.insert(user, (m[user] - 1) as usize)
    }
}

/// The registry after `user` opened `n` sessions, one after the other.
pub open spec fn subscribed_times(m: Map<u64, usize>, user: u64, n: nat) -> Map<u64, usize>
    decreases n,
{
    if n == 0 {
        m
    } else {
        subscribed(subscribed_times(m, user, (n - 1) as nat), user)
    }
}

/// The sessions that `user` has: none without an entry.
pub open spec fn sessions_of(m: Map<u64, usize>, user: u64) -> nat {
    if m.contains_key(user) {
        m[user] as nat
    } else {
        0
    }
}

/// However many sessions a user opens, the user has one entry, which counts
/// them all; nobody else's entry is touched, and an event published
/// afterwards finds that entry and makes no other.
pub proof fn lemma_sessions_share_one_entry(m: Map<u64, usize>, user: u64, n: nat)
    requires
        n >= 1,
        sessions_of(m, user) + n <= MAX_SUBSCRIBERS,
    ensures
        subscribed_times(m, user, n).dom() == m.dom().insert(user),
        sessions_of(subscribed_times(m, user, n), user) == sessions_of(m, user) + n,
        forall|other: u64|
            other != user && m.contains_key(other) ==> subscribed_times(m, user, n)[other]
                == m[other],
        addressed(subscribed_times(m, user, n), user) == subscribed_times(m, user, n),
    decreases n,
{
    if n == 1 {
        assert(subscribed_times(m, user, 0) == m);
        assert(subscribed_times(m, user, 1) == subscribed(m, user));
        assert(subscribed(m, user).dom() =~= m.dom().insert(user));
    } else {
        lemma_sessions_share_one_entry(m, user, (n - 1) as nat);
        let before = subscribed_times(m, user, (n - 1) as nat);
        assert(subscribed_times(m, user, n) == subscribed(before, user));
        assert(before.contains_key(user));
        assert(subscribed(before, user).dom() =~= m.dom().insert(user));
    }
}

/// When the only session of a user ends, the user's entry goes: the
/// registry is as it was before the session was opened, or, if an event had
/// been published to the user before anyone listened, without the entry
/// that the event had made.
pub proof fn lemma_last_session_takes_entry(m: Map<u64, usize>, user: u64)
    requires
        sessions_of(m, user) == 0,
    ensures
        !released(subscribed(m, user), user).contains_key(user),
        released(subscribed(m, user), user) == m.remove(user),
{
    assert(released(subscribed(m, user), user) =~= m.remove(user));
}

/// When one of several sessions of a user ends, the others keep their
/// entry: it stays, and counts one session less.
pub proof fn lemma_other_sessions_keep_entry(m: Map<u64, usize>, user: u64)
    requires
        sessions_of(m, user) >= 2,
    ensures
        released(m, user).contains_key(user),
        sessions_of(released(m, user), user) == sessions_of(m, user) - 1,
        released(m, user).dom() == m.dom(),
        forall|other: u64|
            other != user && m.contains_key(other) ==> released(m, user)[other] == m[other],
{
    assert(released(m, user).dom() =~= m.dom());
}

/// Ending a session undoes opening it, whoever else is connected.
pub proof fn lemma_release_undoes_subscribe(m: Map<u64, usize>, user: u64)
    requires
        m.contains_key(user),
        1 <= m[user] < MAX_SUBSCRIBERS,
    ensures
        released(subscribed(m, user), user) == m,
{
    assert(released(subscribed(m, user), user) =~= m);
}

/// Whether every entry has a session listening.
pub open spec fn all_heard(m: Map<u64, usize>) -> bool {
    forall|user: u64| m.contains_key(user) ==> #[trigger] m[user] >= 1
}

/// An entry without a listener comes from publishing alone. Opening and
/// ending sessions never leave one behind: where every entry had a
/// listener before, every entry has one after. Publishing adds at most the
/// one entry of the user published to, and leaves all others as they are.
pub proof fn lemma_entries_have_listeners(m: Map<u64, usize>, user: u64)
    requires
        all_heard(m),
        sessions_of(m, user) < MAX_SUBSCRIBERS,
    ensures
        all_heard(subscribed(m, user)),
        all_heard(released(m, user)),
        forall|other: u64| other != user ==> (addressed(m, user).contains_key(other)
            <==> m.contains_key(other)),
        forall|other: u64| m.contains_key(other) ==> addressed(m, user)[other] == m[other],
{
    assert forall|u: u64| subscribed(m, user).contains_key(u) implies #[trigger] subscribed(
        m,
        user,
    )[u] >= 1 by {
        if u != user {
            assert(m.contains_key(u));
        }
    }
    assert forall|u: u64| released(m, user).contains_key(u) implies #[trigger] released(
        m,
        user,
    )[u] >= 1 by {
        assert(m.contains_key(u));
    }
}

/// Events are handed to a user's channel in the order in which they are
/// published: of two, the one published first stands first, right after
/// what was handed before, and nobody else's channel is handed anything.
pub proof fn lemma_handed_in_order(
    log: Map<u64, Seq<AppEvent>>,
    user: u64,
    first: AppEvent,
    second: AppEvent,
)
    ensures
        handed_in(hand(hand(log, user, first), user, second), user) == handed_in(log, user).push(
            first,
        ).push(second),
        forall|other: u64|
            other != user ==> handed_in(hand(hand(log, user, first), user, second), other)
                == handed_in(log, other),
{
}

/// The registry of live event streams.
pub struct SubscriptionRegistry {
    users: DashMap<u64, Entry>,
}

impl View for SubscriptionRegistry {
    type V = Map<u64, usize>;

    /// For each registered user, the number of live sessions.
    closed spec fn view(&self) -> Map<u64, usize> {
        entries(self.users)
    }
}

impl SubscriptionRegistry {
    /// For each registered user, the user's channel.
    pub closed spec fn channels(&self) -> Map<u64, Sender<Arc<AppEvent>>> {
        channels(self.users)
    }

    /// For each user, the events that were handed to the user's channel,
    /// oldest first.
    pub closed spec fn offered(&self) -> Map<u64, Seq<AppEvent>> {
        offered(self.users)
    }

    /// The events that were handed to `user_id`'s channel, oldest first.
    pub open spec fn handed(&self, user_id: u64) -> Seq<AppEvent> {
        handed_in(self.offered(), user_id)
    }

    pub fn new() -> (registry: SubscriptionRegistry)
        ensures
            registry@ == nobody(),
            registry.channels() == no_channels(),
            registry.offered() == nothing_offered(),
    {
        SubscriptionRegistry { users: users_new() }
    }

    /// The number of live sessions of `user_id`, if the user is registered.
    /// Who is registered has a channel, and nobody else has.
    pub fn subscribers(&self, user_id: u64) -> (count: Option<usize>)
        ensures
            count is Some <==> self@.contains_key(user_id),
            count is Some <==> self.channels().contains_key(user_id),
            count matches Some(n) ==> n == self@[user_id],
    {
        users_count(&self.users, user_id)
    }

    /// Whether `user_id` has an entry.
    pub fn contains(&self, user_id: u64) -> (held: bool)
        ensures
            held == self@.contains_key(user_id),
            held == self.channels().contains_key(user_id),
    {
        users_count(&self.users, user_id).is_some()
    }

    /// Whether `user_id` can open one more session.
    pub fn has_room(&self, user_id: u64) -> (room: bool)
        ensures
            room == (self@.contains_key(user_id) ==> self@[user_id] < MAX_SUBSCRIBERS),
    {
        match users_count(&self.users, user_id) {
            Some(n) => n < MAX_SUBSCRIBERS,
            None => true,
        }
    }

    /// Opens a session for `user_id`: a receiver of the user's channel,
    /// which is created if the user has none. A user never has two
    /// channels: a registered user keeps the channel that the user's other
    /// sessions receive from, and the new session receives from it too.
    /// Nobody else's channel is touched, and nothing is sent.
    pub fn get_or_create(&mut self, user_id: u64) -> (sub: Subscription)
        requires
            old(self)@.contains_key(user_id) ==> old(self)@[user_id] < MAX_SUBSCRIBERS,
        ensures
            sub.user() == user_id,
            final(self)@ == subscribed(old(self)@, user_id),
            final(self).channels().contains_key(user_id),
            sub.channel() == final(self).channels()[user_id],
            old(self)@.contains_key(user_id) ==> final(self).channels() == old(self).channels(),
            !old(self)@.contains_key(user_id) ==> final(self).channels() == old(self).channels().insert(user_id, sub.channel()),
            final(self).offered() == old(self).offered(),
    {
        let entry = match users_take(&mut self.users, user_id) {
            Some(entry) => entry,
            None => Entry { tx: open_channel(CHANNEL_CAPACITY), subscribers: 0 },
        };
        let rx = attach(&entry);
        let Entry { tx, subscribers } = entry;
        users_put(&mut self.users, user_id, Entry { tx, subscribers: subscribers + 1 });
        proof {
            let m = old(self)@;
            let c = old(self).channels();
            assert(m.remove(user_id).insert(user_id, (subscribers + 1) as usize) =~= subscribed(
                m,
                user_id,
            ));
            if m.contains_key(user_id) {
                assert(c.remove(user_id).insert(user_id, tx) =~= c);
            } else {
                assert(c.remove(user_id).insert(user_id, tx) =~= c.insert(user_id, tx));
            }
        }
        Subscription { user_id, rx }
    }

    /// Publishes `event` to `user_id`. The caller is never held up. A user
    /// without an entry gets one, with a fresh channel, and the event passes
    /// unobserved. To a registered user's channel the event is handed, after
    /// all that was handed to it before; the channel says how many sessions
    /// it was put before, or that there was none. Every channel stays where
    /// it is.
    pub fn publish(&mut self, user_id: u64, event: Arc<AppEvent>) -> (delivery: Delivery)
        ensures
            final(self)@ == addressed(old(self)@, user_id),
            !old(self)@.contains_key(user_id) ==> delivery == Delivery::Unobserved,
            delivery.credible(),
            final(self).channels().contains_key(user_id),
            old(self)@.contains_key(user_id) ==> final(self).channels() == old(self).channels(),
            !old(self)@.contains_key(user_id) ==> final(self).channels() == old(self).channels().insert(user_id, final(self).channels()[user_id]),
            final(self).offered() == (if old(self)@.contains_key(user_id) {
                hand(old(self).offered(), user_id, *event)
            } else {
                old(self).offered()
            }),
    {
        match users_count(&self.users, user_id) {
            Some(_) => {
                let sent = users_send(&mut self.users, user_id, event);
                delivery_of(sent)
            },
            None => {
                let tx = open_channel(CHANNEL_CAPACITY);
                users_put(&mut self.users, user_id, Entry { tx, subscribers: 0 });
                Delivery::Unobserved
            },
        }
    }

    /// Ends the session that held `sub`. The user's entry is removed, and
    /// its channel with it, if this was the user's last session, and only
    /// then: the sessions that the user still has keep their channel.
    /// Nobody else's channel is touched, and nothing is sent. Says whether
    /// the entry was removed.
    pub fn release(&mut self, sub: Subscription) -> (removed: bool)
        ensures
            final(self)@ == released(old(self)@, sub.user()),
            removed == (old(self)@.contains_key(sub.user()) && old(self)@[sub.user()] <= 1),
            final(self).channels() == (if removed {
                old(self).channels().remove(sub.user())
            } else {
                old(self).channels()
            }),
            final(self).offered() == old(self).offered(),
    {
        let user_id: u64 = sub.user_id;
        match users_take(&mut self.users, user_id) {
            Some(entry) => {
                if entry.subscribers <= 1 {
                    true
                } else {
                    let Entry { tx, subscribers } = entry;
                    users_put(&mut self.users, user_id, Entry { tx, subscribers: subscribers - 1 });
                    proof {
                        let m = old(self)@;
                        let c = old(self).channels();
                        assert(m.remove(user_id).insert(user_id, (subscribers - 1) as usize)
                            =~= released(m, user_id));
                        assert(c.remove(user_id).insert(user_id, tx) =~= c);
                    }
                    false
                }
            },
            None => {
                proof {
                    let m = old(self)@;
                    let c = old(self).channels();
                    assert(m.remove(user_id) =~= m);
                    assert(c.remove(user_id) =~= c);
                }
                false
            },
        }
    }
}

/// What the channel's answer to a send means.
pub fn delivery_of(sent: Option<usize>) -> (delivery: Delivery)
    ensures
        delivery == (match sent {
            Some(n) => Delivery::Delivered(n),
            None => Delivery::Unobserved,
        }),
{
    match sent {
        Some(n) => Delivery::Delivered(n),
        None => Delivery::Unobserved,
    }
}

} // verus!
