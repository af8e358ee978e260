//! Reading change notifications: what the store announces after each
//! committed change becomes an event and the users who must hear of it.

use crate::event::{audience, resolve_audience, AppEvent};
use crate::model::{Chat, Message};
use crate::text::same_text;
use std::sync::Arc;
use vstd::prelude::*;

verus! {

/// The chat or the message that a notification is about, as it is after the
/// change.
#[derive(Debug, Clone, PartialEq)]
pub enum Snapshot {
    Chat(Chat),
    Message(Message),
}

/// A change notification, taken apart but not yet understood.
#[derive(Debug, Clone, PartialEq)]
pub struct ChangePayload {
    /// The kind of thing that changed: `chat` or `message`.
    pub entity: String,
    /// What happened to it, by the name of the event that reports it.
    pub op: String,
    pub snapshot: Snapshot,
    /// Users to tell besides those in the snapshot: the members that a chat
    /// had before the change, or the members of the chat that a message was
    /// sent to.
    pub recipients: Vec<i64>,
}

/// Why a notification is passed over.
#[derive(Debug, Clone, Copy, PartialEq, Eq, Structural)]
pub enum DecodeError {
    /// It could not be taken apart at all.
    Malformed,
    /// It is about a kind of thing that is not known here.
    UnknownEntity,
    /// Nothing of the kind happens to such a thing.
    UnknownOperation,
    /// The snapshot is not of the kind that was announced.
    SnapshotMismatch,
}

/// An event on its way out: the users to tell, each once, and what to tell
/// them.
#[derive(Debug, Clone)]
pub struct Notification {
    pub user_ids: Vec<u64>,
    pub event: Arc<AppEvent>,
}

/// The event that a payload announces, or why it announces none. The entity
/// is looked at first, the operation next, the snapshot last.
pub open spec fn announced(payload: ChangePayload) -> Result<AppEvent, DecodeError> {
    let op = payload.op@;
    if payload.entity@ == "chat"@ {
        if op != "NewChat"@ && op != "AddToChat"@ && op != "RemoveFromChat"@ && op
            != "ChatNameUpdated"@ {
            Err(DecodeError::UnknownOperation)
        } else {
            match payload.snapshot {
                Snapshot::Message(_) => Err(DecodeError::SnapshotMismatch),
                Snapshot::Chat(chat) => if op == "NewChat"@ {
                    Ok(AppEvent::NewChat(chat))
                } else if op == "AddToChat"@ {
                    Ok(AppEvent::AddToChat(chat))
                } else if op == "RemoveFromChat"@ {
                    Ok(AppEvent::RemoveFromChat(chat))
                } else {
                    Ok(AppEvent::ChatNameUpdated(chat))
                },
            }
        }
    } else if payload.entity@ == "message"@ {
        if op != "NewMessage"@ {
            Err(DecodeError::UnknownOperation)
        } else {
            match payload.snapshot {
                Snapshot::Chat(_) => Err(DecodeError::SnapshotMismatch),
                Snapshot::Message(message) => Ok(AppEvent::NewMessage(message)),
            }
        }
    } else {
        Err(DecodeError::UnknownEntity)
    }
}

/// Reads the event out of a payload.
pub fn read_event(payload: ChangePayload) -> (res: Result<(AppEvent, Vec<i64>), DecodeError>)
    ensures
        match announced(payload) {
            Ok(event) => res matches Ok(pair) && pair.0 == event && pair.1 == payload.recipients,
            Err(why) => res matches Err(e) && e == why,
        },
{
    let ChangePayload { entity, op, snapshot, recipients } = payload;
    if same_text(entity.as_str(), "chat") {
        let new_chat: bool = same_text(op.as_str(), "NewChat");
        let add: bool = same_text(op.as_str(), "AddToChat");
        let remove: bool = same_text(op.as_str(), "RemoveFromChat");
        let rename: bool = same_text(op.as_str(), "ChatNameUpdated");
        if !new_chat && !add && !remove && !rename {
            return Err(DecodeError::UnknownOperation);
        }
        match snapshot {
            Snapshot::Message(_) => Err(DecodeError::SnapshotMismatch),
            Snapshot::Chat(chat) => {
                let event = if new_chat {
                    AppEvent::NewChat(chat)
                } else if add {
                    AppEvent::AddToChat(chat)
                } else if remove {
                    AppEvent::RemoveFromChat(chat)
                } else {
                    AppEvent::ChatNameUpdated(chat)
                };
                Ok((event, recipients))
            },
        }
    } else if same_text(entity.as_str(), "message") {
        if !same_text(op.as_str(), "NewMessage") {
            return Err(DecodeError::UnknownOperation);
        }
        match snapshot {
            Snapshot::Chat(_) => Err(DecodeError::SnapshotMismatch),
            Snapshot::Message(message) => Ok((AppEvent::NewMessage(message), recipients)),
        }
    } else {
        Err(DecodeError::UnknownEntity)
    }
}

impl Notification {
    /// Understands a payload: the event it announces, and the audience of
    /// that event. A new chat, new members and a new name are told to the
    /// chat's members; a removal is told to those who were members and those
    /// who are; a message is told to the members of its chat.
    pub fn load(payload: ChangePayload) -> (res: Result<Notification, DecodeError>)
        ensures
            match announced(payload) {
                Ok(event) => res matches Ok(n) && *n.event == event && n.user_ids@ == audience(
                    event,
                    payload.recipients@,
                ),
                Err(why) => res matches Err(e) && e == why,
            },
    {
        match read_event(payload) {
            Ok((event, recipients)) => {
                let user_ids = resolve_audience(&event, &recipients);
                Ok(Notification { user_ids, event: Arc::new(event) })
            },
            Err(e) => Err(e),
        }
    }
}

} // verus!
