//! The rules for creating and changing a chat. The database is asked one
//! thing only, how many of the proposed members exist, and its answer is
//! handed in as a number.

use crate::error::AppError;
use crate::model::{opt_text, Chat, ChatType, ChatView};
use vstd::prelude::*;
use vstd::slice::slice_to_vec;
use vstd::string::StringExecFns;
use vstd::utf8::encode_utf8;

verus! {

/// A request to open a chat.
#[derive(Debug, Clone, PartialEq)]
pub struct CreateChat {
    pub name: Option<String>,
    pub members: Vec<i64>,
    pub public: bool,
}

/// A request to change a chat: each field that is present replaces the
/// chat's own.
#[derive(Debug, Clone)]
pub struct UpdateChat {
    pub name: Option<String>,
    pub members: Option<Vec<i64>>,
    pub public: Option<bool>,
}

/// The row that a valid `CreateChat` asks the database to store.
#[derive(Debug, Clone, PartialEq)]
pub struct ChatDraft {
    pub ws_id: i64,
    pub name: Option<String>,
    pub chat_type: ChatType,
    pub members: Vec<i64>,
}

/// The length of a text in bytes, as UTF-8.
pub open spec fn byte_len(s: Seq<char>) -> nat {
    encode_utf8(s).len()
}

/// The type of a chat with `size` members: without a name it is a
/// conversation between two or a group, with a name it is a channel.
pub open spec fn chat_type_for(named: bool, size: nat, public: bool) -> ChatType {
    if !named {
        if size == 2 {
            ChatType::Single
        } else {
            ChatType::Group
        }
    } else if public {
        ChatType::PublicChannel
    } else {
        ChatType::PrivateChannel
    }
}

/// Why a chat with these members and this name may not be created by
/// `user_id`, before the database is asked anything; `None` if it may.
pub open spec fn create_fault(name: Option<Seq<char>>, members: Seq<i64>, user_id: u64) -> Option<
    Seq<char>,
> {
    if members.len() < 2 {
        Some("Chat must have at least 2 members"@)
    } else if !members.contains(user_id as i64) {
        Some("You must be a member of the chat"@)
    } else if name is Some && byte_len(name->0) < 3 {
        Some("Chat name must have at least 3 characters"@)
    } else if members.len() > 8 && name is None {
        Some("Group chat with more than 8 members must have a name"@)
    } else {
        None
    }
}

/// Why a chat, named or not, may not take `members` as its new members,
/// before the database is asked anything; `None` if it may.
pub open spec fn members_fault(named: bool, members: Seq<i64>) -> Option<Seq<char>> {
    if members.len() < 2 {
        Some("Chat must have at least 2 members"@)
    } else if members.len() > 8 && !named {
        Some("Group chat with more than 8 members must have a name"@)
    } else {
        None
    }
}

/// The chat after a change of name, if one was asked for.
pub open spec fn renamed(chat: ChatView, name: Option<Seq<char>>) -> ChatView {
    if name is Some {
        ChatView { name, ..chat }
    } else {
        chat
    }
}

/// The type of a chat after its members were settled: the visibility that
/// was asked for decides; without one, a chat without a name follows its
/// size and a named chat keeps its type.
pub open spec fn retyped(chat: ChatView, public: Option<bool>) -> ChatType {
    match public {
        Some(true) => ChatType::PublicChannel,
        Some(false) => ChatType::PrivateChannel,
        None => if chat.name is None {
            chat_type_for(false, chat.members.len(), false)
        } else {
            chat.chat_type
        },
    }
}

fn has_member(members: &Vec<i64>, id: i64) -> (found: bool)
    ensures
        found == members@.contains(id),
{
    let mut i: usize = 0;
    while i < members.len()
        invariant
            i <= members.len(),
            forall|j: int| 0 <= j < i ==> members@[j] != id,
        decreases members.len() - i,
    {
        if members[i] == id {
            return true;
        }
        i = i + 1;
    }
    false
}

fn utf8_len(s: &str) -> (n: usize)
    ensures
        n == byte_len(s@),
{
    s.as_bytes().len()
}

impl CreateChat {
    /// A request with the given members; an empty `name` asks for a chat
    /// without a name.
    pub fn new(name: &str, members: &[i64], public: bool) -> (input: CreateChat)
        ensures
            opt_text(input.name) == (if name@.len() == 0 {
                None
            } else {
                Some(name@)
            }),
            input.members@ == members@,
            input.public == public,
    {
        let name = if name.is_empty() {
            None
        } else {
            Some(String::from_str(name))
        };
        CreateChat { name, members: slice_to_vec(members), public }
    }

    /// The type that the chat will have.
    pub fn chat_type(&self) -> (t: ChatType)
        ensures
            t == chat_type_for(self.name is Some, self.members@.len(), self.public),
    {
        match &self.name {
            None => if self.members.len() == 2 {
                ChatType::Single
            } else {
                ChatType::Group
            },
            Some(_) => if self.public {
                ChatType::PublicChannel
            } else {
                ChatType::PrivateChannel
            },
        }
    }

    /// Checks what can be checked without the database: at least two
    /// members, the requesting user among them, a name of at least three
    /// bytes if there is one, and a name for more than eight members. The
    /// first rule that is broken is reported.
    pub fn validate(&self, user_id: u64) -> (res: Result<(), AppError>)
        ensures
            res is Ok <==> create_fault(opt_text(self.name), self.members@, user_id) is None,
            res matches Err(e) ==> e is CreateChatError && Some(e.detail()) == create_fault(
                opt_text(self.name),
                self.members@,
                user_id,
            ),
    {
        let len: usize = self.members.len();
        if len < 2 {
            return Err(
                AppError::CreateChatError(String::from_str("Chat must have at least 2 members")),
            );
        }
        if !has_member(&self.members, user_id as i64) {
            return Err(
                AppError::CreateChatError(String::from_str("You must be a member of the chat")),
            );
        }
        match &self.name {
            Some(name) => {
                if utf8_len(name.as_str()) < 3 {
                    return Err(
                        AppError::CreateChatError(
                            String::from_str("Chat name must have at least 3 characters"),
                        ),
                    );
                }
            },
            None => {
                if len > 8 {
                    return Err(
                        AppError::CreateChatError(
                            String::from_str(
                                "Group chat with more than 8 members must have a name",
                            ),
                        ),
                    );
                }
            },
        }
        Ok(())
    }
}

/// Decides whether `input` becomes a chat of workspace `ws_id`, created by
/// `user_id`. `found` is the number of users that the database knows among
/// `input.members`. A request that breaks a rule of [`CreateChat::validate`]
/// is refused with that rule; one that names a member who does not exist is
/// refused next; any other becomes the row to store.
pub fn create_chat(input: CreateChat, user_id: u64, ws_id: u64, found: usize) -> (res: Result<
    ChatDraft,
    AppError,
>)
    ensures
        match create_fault(opt_text(input.name), input.members@, user_id) {
            Some(why) => res matches Err(e) && e is CreateChatError && e.detail() == why,
            None => if found != input.members@.len() {
                res matches Err(e) && e is CreateChatError && e.detail()
                    == "Some members do not exist"@
            } else {
                res matches Ok(draft) && draft.ws_id == ws_id as i64 && opt_text(draft.name)
                    == opt_text(input.name) && draft.members@ == input.members@
                    && draft.chat_type == chat_type_for(
                    input.name is Some,
                    input.members@.len(),
                    input.public,
                )
            },
        },
{
    match input.validate(user_id) {
        Err(e) => {
            return Err(e);
        },
        Ok(()) => {},
    }
    if found != input.members.len() {
        return Err(AppError::CreateChatError(String::from_str("Some members do not exist")));
    }
    let chat_type = input.chat_type();
    Ok(ChatDraft { ws_id: ws_id as i64, name: input.name, chat_type, members: input.members })
}

impl UpdateChat {
    pub open spec fn spec_name(self) -> Option<Seq<char>> {
        opt_text(self.name)
    }

    pub open spec fn spec_members(self) -> Option<Seq<i64>> {
        match self.members {
            Some(m) => Some(m@),
            None => None,
        }
    }

    /// Why the change is refused, given that `found` of the new members
    /// exist; `None` if it goes through. `chat` is the chat before the
    /// change.
    pub open spec fn fault(self, chat: ChatView, found: nat) -> Option<Seq<char>> {
        match self.spec_members() {
            Some(m) => {
                let early = members_fault(renamed(chat, self.spec_name()).name is Some, m);
                if early is Some {
                    early
                } else if found != m.len() {
                    Some("Some members do not exist"@)
                } else {
                    None
                }
            },
            None => None,
        }
    }

    /// The chat after the change went through.
    pub open spec fn outcome(self, chat: ChatView) -> ChatView {
        let named = renamed(chat, self.spec_name());
        let settled = match self.spec_members() {
            Some(m) => ChatView { members: m, ..named },
            None => named,
        };
        ChatView { chat_type: retyped(settled, self.public), ..settled }
    }

    /// Checks the new members, if there are any, as far as that can be done
    /// without the database. `Ok(true)` says that the database must now be
    /// asked how many of them exist, `Ok(false)` that there is nothing to
    /// ask.
    pub fn check_members(&self, chat: &Chat) -> (res: Result<bool, AppError>)
        ensures
            match self.spec_members() {
                Some(m) => match members_fault(
                    renamed(chat@, self.spec_name()).name is Some,
                    m,
                ) {
                    Some(why) => res matches Err(e) && e is UpdateChatError && e.detail() == why,
                    None => res matches Ok(ask) && ask,
                },
                None => res matches Ok(ask) && !ask,
            },
    {
        match &self.members {
            None => Ok(false),
            Some(members) => {
                let len: usize = members.len();
                if len < 2 {
                    return Err(
                        AppError::UpdateChatError(
                            String::from_str("Chat must have at least 2 members"),
                        ),
                    );
                }
                if len > 8 && self.name.is_none() && chat.name.is_none() {
                    return Err(
                        AppError::UpdateChatError(
                            String::from_str(
                                "Group chat with more than 8 members must have a name",
                            ),
                        ),
                    );
                }
                Ok(true)
            },
        }
    }
}

/// Applies `input` to `chat`. `found` is the number of users that the
/// database knows among the new members; it is not looked at when the
/// members stay as they are. The name is replaced first, and stays replaced
/// when the new members are then refused; members and type change only when
/// the whole change goes through.
pub fn apply_updates(chat: &mut Chat, input: UpdateChat, found: usize) -> (res: Result<
    (),
    AppError,
>)
    ensures
        match input.fault(old(chat)@, found as nat) {
            Some(why) => {
                &&& res matches Err(e) && e is UpdateChatError && e.detail() == why
                &&& final(chat)@ == renamed(old(chat)@, input.spec_name())
            },
            None => res is Ok && final(chat)@ == input.outcome(old(chat)@),
        },
{
    let UpdateChat { name, members, public } = input;
    match name {
        Some(name) => {
            chat.name = Some(name);
        },
        None => {},
    }
    match members {
        Some(members) => {
            let len: usize = members.len();
            if len < 2 {
                return Err(
                    AppError::UpdateChatError(
                        String::from_str("Chat must have at least 2 members"),
                    ),
                );
            }
            if len > 8 && chat.name.is_none() {
                return Err(
                    AppError::UpdateChatError(
                        String::from_str("Group chat with more than 8 members must have a name"),
                    ),
                );
            }
            if found != len {
                return Err(
                    AppError::UpdateChatError(String::from_str("Some members do not exist")),
                );
            }
            chat.members = members;
        },
        None => {},
    }
    match public {
        Some(public) => {
            chat.chat_type = if public {
                ChatType::PublicChannel
            } else {
                ChatType::PrivateChannel
            };
        },
        None => {
            if chat.name.is_none() {
                chat.chat_type = if chat.members.len() == 2 {
                    ChatType::Single
                } else {
                    ChatType::Group
                };
            }
        },
    }
    Ok(())
}

} // verus!
