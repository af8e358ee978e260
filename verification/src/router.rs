//! Bringing an event to its audience.

use crate::event::AppEvent;
use crate::notify::Notification;
use crate::registry::{addressed, hand, handed_in, Delivery, SubscriptionRegistry};
use std::sync::Arc;
use vstd::prelude::*;

verus! {

/// `Arc::clone`: one more handle to the same event.
#[verifier::external_body]
fn share(event: &Arc<AppEvent>) -> (shared: Arc<AppEvent>)
    ensures
        shared == *event,
{
    Arc::clone(event)
}

/// The registry after an event was published to each of `users` in turn.
pub open spec fn addressed_all(m: Map<u64, usize>, users: Seq<u64>) -> Map<u64, usize>
    decreases users.len(),
{
    if users.len() == 0 {
        m
    } else {
        addressed(addressed_all(m, users.drop_last()), users.last())
    }
}

/// Publishing to an audience registers who was not registered, with nobody
/// listening, and changes nothing else: no user who is registered loses or
/// gains a session, and nobody outside the audience appears.
pub proof fn lemma_addressed_all(m: Map<u64, usize>, users: Seq<u64>)
    ensures
        forall|u: u64|
            #![trigger addressed_all(m, users).contains_key(u)]
            #![trigger m.contains_key(u)]
            #![trigger users.contains(u)]
            addressed_all(m, users).contains_key(u) <==> m.contains_key(u) || users.contains(u),
        forall|u: u64|
            #![trigger addressed_all(m, users)[u]]
            #![trigger m.contains_key(u)]
            m.contains_key(u) ==> addressed_all(m, users)[u] == m[u],
        forall|u: u64|
            #![trigger addressed_all(m, users)[u]]
            #![trigger users.contains(u)]
            !m.contains_key(u) && users.contains(u) ==> addressed_all(m, users)[u] == 0,
    decreases users.len(),
{
    if users.len() > 0 {
        let init = users.drop_last();
        let last = users.last();
        lemma_addressed_all(m, init);
        let before = addressed_all(m, init);
        let after = addressed_all(m, users);
        assert(after == addressed(before, last));
        assert forall|u: u64| users.contains(u) <==> init.contains(u) || u == last by {
            if init.contains(u) {
                let i = choose|i: int| 0 <= i < init.len() && init[i] == u;
                assert(users[i] == u);
            }
            if u == last {
                assert(users[users.len() - 1] == u);
            }
            if users.contains(u) {
                let i = choose|i: int| 0 <= i < users.len() && users[i] == u;
                if i < init.len() {
                    assert(init[i] == u);
                }
            }
        }
        assert forall|u: u64| after.contains_key(u) <==> m.contains_key(u) || users.contains(
            u,
        ) by {
            assert(after.contains_key(u) <==> before.contains_key(u) || u == last);
        }
        assert forall|u: u64| m.contains_key(u) implies after[u] == m[u] by {
            assert(before.contains_key(u));
        }
        assert forall|u: u64| !m.contains_key(u) && users.contains(u) implies after[u] == 0 by {
            if init.contains(u) {
                assert(before.contains_key(u));
            }
        }
    }
}

/// What has been handed to whose channel after `event` was published to
/// each of `users` in turn, starting from the counts `m` and the log `log`:
/// the event is handed to each user who is registered when the user's turn
/// comes.
pub open spec fn offered_all(
    m: Map<u64, usize>,
    log: Map<u64, Seq<AppEvent>>,
    users: Seq<u64>,
    event: AppEvent,
) -> Map<u64, Seq<AppEvent>>
    decreases users.len(),
{
    if users.len() == 0 {
        log
    } else {
        let before = offered_all(m, log, users.drop_last(), event);
        if addressed_all(m, users.drop_last()).contains_key(users.last()) {
            hand(before, users.last(), event)
        } else {
            before
        }
    }
}

/// An event routed to an audience in which nobody stands twice is handed
/// once to the channel of each member who is registered, after all that
/// was handed to it before, and to no other channel.
pub proof fn lemma_offered_all(
    m: Map<u64, usize>,
    log: Map<u64, Seq<AppEvent>>,
    users: Seq<u64>,
    event: AppEvent,
)
    requires
        users.no_duplicates(),
    ensures
        forall|u: u64|
            #![trigger handed_in(offered_all(m, log, users, event), u)]
            handed_in(offered_all(m, log, users, event), u) == (if m.contains_key(u)
                && users.contains(u) {
                handed_in(log, u).push(event)
            } else {
                handed_in(log, u)
            }),
    decreases users.len(),
{
    if users.len() > 0 {
        let init = users.drop_last();
        let last = users.last();
        lemma_offered_all(m, log, init, event);
        lemma_addressed_all(m, init);
        let before = offered_all(m, log, init, event);
        assert(users =~= init.push(last));
        assert(!init.contains(last)) by {
            if init.contains(last) {
                let i = choose|i: int| 0 <= i < init.len() && init[i] == last;
                assert(users[i] == users[users.len() - 1]);
            }
        }
        assert forall|u: u64| users.contains(u) <==> init.contains(u) || u == last by {
            if init.contains(u) {
                let i = choose|i: int| 0 <= i < init.len() && init[i] == u;
                assert(users[i] == u);
            }
            if u == last {
                assert(users[users.len() - 1] == u);
            }
            if users.contains(u) {
                let i = choose|i: int| 0 <= i < users.len() && users[i] == u;
                if i < init.len() {
                    assert(init[i] == u);
                }
            }
        }
        assert forall|u: u64|
            #![trigger handed_in(offered_all(m, log, users, event), u)]
            handed_in(offered_all(m, log, users, event), u) == (if m.contains_key(u)
                && users.contains(u) {
                handed_in(log, u).push(event)
            } else {
                handed_in(log, u)
            }) by {
            assert(handed_in(before, u) == (if m.contains_key(u) && init.contains(u) {
                handed_in(log, u).push(event)
            } else {
                handed_in(log, u)
            }));
            assert(addressed_all(m, init).contains_key(last) <==> m.contains_key(last));
        }
    }
}

/// Publishes the event of `notification` to every user of its audience, in
/// the order of the audience, and reports what became of it for each. The
/// event is handed to the channel of each user who is registered when the
/// user's turn comes; a user who is not gets an entry and hears nothing,
/// makes no difference to the others and is no error. Every registered
/// user keeps the channel the user had.
pub fn route(registry: &mut SubscriptionRegistry, notification: &Notification) -> (outcome: Vec<
    Delivery,
>)
    ensures
        final(registry)@ == addressed_all(old(registry)@, notification.user_ids@),
        final(registry).offered() == offered_all(
            old(registry)@,
            old(registry).offered(),
            notification.user_ids@,
            *notification.event,
        ),
        forall|u: u64|
            #![trigger final(registry).channels()[u]]
            old(registry)@.contains_key(u) ==> final(registry).channels()[u] == old(registry).channels()[u],
        outcome@.len() == notification.user_ids@.len(),
        forall|i: int|
            0 <= i < outcome@.len() && !addressed_all(
                old(registry)@,
                notification.user_ids@.subrange(0, i),
            ).contains_key(notification.user_ids@[i]) ==> outcome@[i] == Delivery::Unobserved,
        forall|i: int| 0 <= i < outcome@.len() ==> (#[trigger] outcome@[i]).credible(),
{
    let mut outcome: Vec<Delivery> = Vec::new();
    let mut i: usize = 0;
    let ghost users = notification.user_ids@;
    let ghost start = registry@;
    let ghost log = registry.offered();
    let ghost lines = registry.channels();
    proof {
        assert(users.subrange(0, 0) =~= Seq::<u64>::empty());
    }
    while i < notification.user_ids.len()
        invariant
            i <= users.len(),
            users == notification.user_ids@,
            outcome@.len() == i,
            registry@ == addressed_all(start, users.subrange(0, i as int)),
            registry.offered() == offered_all(
                start,
                log,
                users.subrange(0, i as int),
                *notification.event,
            ),
            forall|u: u64|
                #![trigger registry.channels()[u]]
                start.contains_key(u) ==> registry.channels()[u] == lines[u],
            forall|j: int|
                0 <= j < i && !addressed_all(start, users.subrange(0, j)).contains_key(users[j])
                    ==> outcome@[j] == Delivery::Unobserved,
            forall|j: int| 0 <= j < i ==> (#[trigger] outcome@[j]).credible(),
        decreases users.len() - i,
    {
        let user: u64 = notification.user_ids[i];
        proof {
            let next = users.subrange(0, i + 1);
            assert(next.drop_last() =~= users.subrange(0, i as int));
            assert(next.last() == user);
            lemma_addressed_all(start, users.subrange(0, i as int));
        }
        let delivery = registry.publish(user, share(&notification.event));
        outcome.push(delivery);
        i = i + 1;
    }
    proof {
        assert(users.subrange(0, users.len() as int) =~= users);
    }
    outcome
}

} // verus!
