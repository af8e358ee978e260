//! The chat data model shared by the API server and the notification server.

use vstd::prelude::*;

verus! {

/// What an optional string holds, character by character.
pub open spec fn opt_text(s: Option<String>) -> Option<Seq<char>> {
    match s {
        Some(s) => Some(s@),
        None => None,
    }
}

/// How a chat is presented: decided by its name, its size and its visibility.
#[derive(Debug, Clone, Copy, PartialEq, Eq, Structural)]
pub enum ChatType {
    Single,
    Group,
    PrivateChannel,
    PublicChannel,
}

/// An account. `created_at` counts microseconds since the Unix epoch, UTC.
#[derive(Debug, Clone, PartialEq)]
pub struct User {
    pub id: i64,
    pub username: String,
    pub ws_id: i64,
    pub email: String,
    pub password_hash: Option<String>,
    pub created_at: i64,
}

pub struct UserView {
    pub id: i64,
    pub username: Seq<char>,
    pub ws_id: i64,
    pub email: Seq<char>,
    pub password_hash: Option<Seq<char>>,
    pub created_at: i64,
}

impl View for User {
    type V = UserView;

    open spec fn view(&self) -> UserView {
        UserView {
            id: self.id,
            username: self.username@,
            ws_id: self.ws_id,
            email: self.email@,
            password_hash: opt_text(self.password_hash),
            created_at: self.created_at,
        }
    }
}

/// The part of an account that other members of a workspace may see.
#[derive(Debug, Clone, PartialEq)]
pub struct ChatUser {
    pub id: i64,
    pub username: String,
    pub email: String,
}

pub struct ChatUserView {
    pub id: i64,
    pub username: Seq<char>,
    pub email: Seq<char>,
}

impl View for ChatUser {
    type V = ChatUserView;

    open spec fn view(&self) -> ChatUserView {
        ChatUserView { id: self.id, username: self.username@, email: self.email@ }
    }
}

/// A workspace. An `owner_id` of 0 means that nobody owns it yet.
#[derive(Debug, Clone, PartialEq)]
pub struct Workspace {
    pub id: i64,
    pub name: String,
    pub owner_id: i64,
    pub created_at: i64,
}

pub struct WorkspaceView {
    pub id: i64,
    pub name: Seq<char>,
    pub owner_id: i64,
    pub created_at: i64,
}

impl View for Workspace {
    type V = WorkspaceView;

    open spec fn view(&self) -> WorkspaceView {
        WorkspaceView {
            id: self.id,
            name: self.name@,
            owner_id: self.owner_id,
            created_at: self.created_at,
        }
    }
}

/// A snapshot of a chat: its members are user ids, in the order they were
/// stored.
#[derive(Debug, Clone, PartialEq)]
pub struct Chat {
    pub id: i64,
    pub ws_id: i64,
    pub name: Option<String>,
    pub chat_type: ChatType,
    pub members: Vec<i64>,
    pub created_at: i64,
}

pub struct ChatView {
    pub id: i64,
    pub ws_id: i64,
    pub name: Option<Seq<char>>,
    pub chat_type: ChatType,
    pub members: Seq<i64>,
    pub created_at: i64,
}

impl View for Chat {
    type V = ChatView;

    open spec fn view(&self) -> ChatView {
        ChatView {
            id: self.id,
            ws_id: self.ws_id,
            name: opt_text(self.name),
            chat_type: self.chat_type,
            members: self.members@,
            created_at: self.created_at,
        }
    }
}

/// A snapshot of a message. `files` holds the URLs of its attachments.
#[derive(Debug, Clone, PartialEq)]
pub struct Message {
    pub id: i64,
    pub chat_id: i64,
    pub sender_id: i64,
    pub content: String,
    pub files: Vec<String>,
    pub created_at: i64,
}

pub struct MessageView {
    pub id: i64,
    pub chat_id: i64,
    pub sender_id: i64,
    pub content: Seq<char>,
    pub files: Seq<Seq<char>>,
    pub created_at: i64,
}

impl View for Message {
    type V = MessageView;

    open spec fn view(&self) -> MessageView {
        MessageView {
            id: self.id,
            chat_id: self.chat_id,
            sender_id: self.sender_id,
            content: self.content@,
            files: self.files.deep_view(),
            created_at: self.created_at,
        }
    }
}

/// The current time as microseconds since the Unix epoch, read from
/// `chrono::Utc::now` through `DateTime::timestamp_micros`. Nothing is
/// claimed of the value: it is whatever the clock says.
#[verifier::external_body]
fn now_micros() -> i64 {
    chrono::Utc::now().timestamp_micros()
}

impl User {
    /// An account outside any workspace, without a password, created now.
    pub fn new(id: i64, username: &str, email: &str) -> (user: User)
        ensures
            user.id == id,
            user.ws_id == 0,
            user.username@ == username@,
            user.email@ == email@,
            user.password_hash is None,
    {
        User {
            id,
            ws_id: 0,
            username: String::from_str(username),
            email: String::from_str(email),
            password_hash: None,
            created_at: now_micros(),
        }
    }
}

} // verus!
