//! The events that connected users are told of, and who is told.

use crate::model::{Chat, Message};
use vstd::prelude::*;

verus! {

/// Something that happened to a chat or in it, with the chat or the message
/// as it is afterwards.
#[derive(Debug, Clone, PartialEq)]
pub enum AppEvent {
    NewChat(Chat),
    AddToChat(Chat),
    RemoveFromChat(Chat),
    NewMessage(Message),
    ChatNameUpdated(Chat),
}

impl AppEvent {
    /// The label under which the event travels: the name of its variant.
    pub open spec fn label(self) -> Seq<char> {
        match self {
            AppEvent::NewChat(_) => "NewChat"@,
            AppEvent::AddToChat(_) => "AddToChat"@,
            AppEvent::RemoveFromChat(_) => "RemoveFromChat"@,
            AppEvent::NewMessage(_) => "NewMessage"@,
            AppEvent::ChatNameUpdated(_) => "ChatNameUpdated"@,
        }
    }

    pub fn name(&self) -> (name: &'static str)
        ensures
            name@ == self.label(),
    {
        match self {
            AppEvent::NewChat(_) => "NewChat",
            AppEvent::AddToChat(_) => "AddToChat",
            AppEvent::RemoveFromChat(_) => "RemoveFromChat",
            AppEvent::NewMessage(_) => "NewMessage",
            AppEvent::ChatNameUpdated(_) => "ChatNameUpdated",
        }
    }

    /// The members of the chat that the event carries; a message carries
    /// none.
    pub open spec fn members(self) -> Seq<i64> {
        match self {
            AppEvent::NewChat(c) => c.members@,
            AppEvent::AddToChat(c) => c.members@,
            AppEvent::RemoveFromChat(c) => c.members@,
            AppEvent::NewMessage(_) => Seq::empty(),
            AppEvent::ChatNameUpdated(c) => c.members@,
        }
    }

    /// Whether the recipients named beside the event are told too: the
    /// former members of a chat that lost members, and the members of the
    /// chat that a message was sent to.
    pub open spec fn hears_recipients(self) -> bool {
        self is RemoveFromChat || self is NewMessage
    }
}

/// The keys under which member ids are registered: each id read as an
/// unsigned number.
pub open spec fn keys(ids: Seq<i64>) -> Seq<u64> {
    ids.map_values(|id: i64| id as u64)
}

/// `s` without repetitions: each value stays where it first stood.
pub open spec fn distinct(s: Seq<u64>) -> Seq<u64>
    decreases s.len(),
{
    if s.len() == 0 {
        Seq::empty()
    } else {
        let before = distinct(s.drop_last());
        if before.contains(s.last()) {
            before
        } else {
            before.push(s.last())
        }
    }
}

/// Everyone who is named: the recipients first, if the event lets them
/// hear, then the members that the event carries.
pub open spec fn addressees(event: AppEvent, recipients: Seq<i64>) -> Seq<u64> {
    if event.hears_recipients() {
        keys(recipients) + keys(event.members())
    } else {
        keys(event.members())
    }
}

/// The audience of an event: its addressees, each once.
pub open spec fn audience(event: AppEvent, recipients: Seq<i64>) -> Seq<u64> {
    distinct(addressees(event, recipients))
}

/// What a sequence holds after a push: what it held, and the new value.
proof fn lemma_push_holds(s: Seq<u64>, a: u64, x: u64)
    ensures
        s.push(a).contains(x) <==> s.contains(x) || x == a,
{
    if s.contains(x) {
        let i = choose|i: int| 0 <= i < s.len() && s[i] == x;
        assert(s.push(a)[i] == x);
    }
    if x == a {
        assert(s.push(a)[s.len() as int] == x);
    }
    if s.push(a).contains(x) {
        let i = choose|i: int| 0 <= i < s.push(a).len() && s.push(a)[i] == x;
        if i < s.len() {
            assert(s[i] == x);
        }
    }
}

/// `distinct` repeats nothing and loses nobody.
pub proof fn lemma_distinct(s: Seq<u64>)
    ensures
        distinct(s).no_duplicates(),
        forall|x: u64| distinct(s).contains(x) <==> s.contains(x),
        distinct(s).len() <= s.len(),
    decreases s.len(),
{
    if s.len() > 0 {
        let init = s.drop_last();
        let last = s.last();
        lemma_distinct(init);
        let before = distinct(init);
        assert(s =~= init.push(last));
        assert forall|x: u64| distinct(s).contains(x) <==> s.contains(x) by {
            lemma_push_holds(init, last, x);
            lemma_push_holds(before, last, x);
        }
    }
}

fn holds(ids: &Vec<u64>, id: u64) -> (found: bool)
    ensures
        found == ids@.contains(id),
{
    let mut i: usize = 0;
    while i < ids.len()
        invariant
            i <= ids.len(),
            forall|j: int| 0 <= j < i ==> ids@[j] != id,
        decreases ids.len() - i,
    {
        if ids[i] == id {
            return true;
        }
        i = i + 1;
    }
    false
}

/// Adds the keys of `ids` to `out`, skipping those it already holds.
fn gather(out: &mut Vec<u64>, ids: &Vec<i64>, Ghost(seen): Ghost<Seq<u64>>)
    requires
        old(out)@ == distinct(seen),
    ensures
        final(out)@ == distinct(seen + keys(ids@)),
{
    let mut i: usize = 0;
    proof {
        assert(seen + keys(ids@).subrange(0, 0) =~= seen);
    }
    while i < ids.len()
        invariant
            i <= ids.len(),
            out@ == distinct(seen + keys(ids@).subrange(0, i as int)),
        decreases ids.len() - i,
    {
        let key: u64 = ids[i] as u64;
        proof {
            let done = seen + keys(ids@).subrange(0, i as int);
            let next = seen + keys(ids@).subrange(0, i + 1);
            assert(next.drop_last() =~= done);
            assert(next.last() == key);
        }
        if !holds(out, key) {
            out.push(key);
        }
        i = i + 1;
    }
    proof {
        assert(keys(ids@).subrange(0, ids@.len() as int) =~= keys(ids@));
    }
}

/// Resolves who must receive `event`. `recipients` are the users named
/// beside it: the members a chat had before it lost some, or the members of
/// the chat a message was sent to. Everyone appears once, in the order in
/// which they are first named.
pub fn resolve_audience(event: &AppEvent, recipients: &Vec<i64>) -> (users: Vec<u64>)
    ensures
        users@ == audience(*event, recipients@),
        users@.no_duplicates(),
        forall|u: u64| users@.contains(u) <==> addressees(*event, recipients@).contains(u),
{
    let mut users: Vec<u64> = Vec::new();
    proof {
        assert(distinct(Seq::<u64>::empty()) =~= Seq::<u64>::empty());
        assert(keys(Seq::<i64>::empty()) =~= Seq::<u64>::empty());
    }
    match event {
        AppEvent::NewChat(chat) | AppEvent::AddToChat(chat) | AppEvent::ChatNameUpdated(chat) => {
            gather(&mut users, &chat.members, Ghost(Seq::empty()));
            proof {
                assert(Seq::<u64>::empty() + keys(chat.members@) =~= keys(chat.members@));
            }
        },
        AppEvent::RemoveFromChat(chat) => {
            gather(&mut users, recipients, Ghost(Seq::empty()));
            proof {
                assert(Seq::<u64>::empty() + keys(recipients@) =~= keys(recipients@));
            }
            gather(&mut users, &chat.members, Ghost(keys(recipients@)));
        },
        AppEvent::NewMessage(_) => {
            gather(&mut users, recipients, Ghost(Seq::empty()));
            proof {
                assert(Seq::<u64>::empty() + keys(recipients@) =~= keys(recipients@));
                assert(keys(recipients@) + keys(Seq::<i64>::empty()) =~= keys(recipients@));
            }
        },
    }
    proof {
        lemma_distinct(addressees(*event, recipients@));
    }
    users
}

/// When a chat loses members, everyone who was or still is a member is in
/// the audience, and is there exactly once: those who stay, and those who
/// were removed.
pub proof fn lemma_removal_reaches_everyone_once(chat: Chat, former: Seq<i64>, member: i64)
    requires
        chat.members@.contains(member) || former.contains(member),
    ensures
        audience(AppEvent::RemoveFromChat(chat), former).to_multiset().count(member as u64) == 1,
{
    let event = AppEvent::RemoveFromChat(chat);
    let named = addressees(event, former);
    lemma_distinct(named);
    if former.contains(member) {
        let i = choose|i: int| 0 <= i < former.len() && former[i] == member;
        assert(named[i] == member as u64);
        assert(named.contains(member as u64));
    } else {
        let i = choose|i: int| 0 <= i < chat.members@.len() && chat.members@[i] == member;
        assert(named[former.len() + i] == member as u64);
        assert(named.contains(member as u64));
    }
    assert(audience(event, former).contains(member as u64));
    audience(event, former).to_multiset_ensures();
    audience(event, former).lemma_multiset_has_no_duplicates();
}

} // verus!
