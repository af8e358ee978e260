//! Who may do what to a chat: the answers that the request handlers give
//! once the database has been asked.

use crate::error::AppError;
use crate::model::{Chat, User};
use crate::text::{decimal, decimal_text, signed_decimal, signed_text};
use vstd::prelude::*;
use vstd::string::StringExecFns;

verus! {

fn not_found(what: &str, id: u64) -> (err: AppError)
    ensures
        err is NotFound,
        err.detail() == what@ + decimal(id as nat),
{
    AppError::NotFound(String::from_str(what).concat(decimal_text(id as u128).as_str()))
}

/// The chat that was asked for by id, or the error that says it is not
/// there.
pub fn found_chat(found: Option<Chat>, id: u64) -> (res: Result<Chat, AppError>)
    ensures
        match found {
            Some(chat) => res matches Ok(c) && c == chat,
            None => res matches Err(e) && e is NotFound && e.detail() == "chat id "@ + decimal(
                id as nat,
            ),
        },
{
    match found {
        Some(chat) => Ok(chat),
        None => Err(not_found("chat id ", id)),
    }
}

/// Whether a chat, looked up under `chat_id`, may be touched by `user`: it
/// must exist, and it must belong to the user's workspace. `refusal` is
/// what a user of another workspace is told.
fn workspace_chat(found: Option<Chat>, chat_id: u64, user: &User, refusal: &str) -> (res: Result<
    Chat,
    AppError,
>)
    ensures
        match found {
            None => res matches Err(e) && e is NotFound && e.detail() == "Chat id "@ + decimal(
                chat_id as nat,
            ),
            Some(chat) => if chat.ws_id != user.ws_id {
                res matches Err(e) && e is Unauthorized && e.detail() == refusal@
            } else {
                res matches Ok(c) && c == chat
            },
        },
{
    match found {
        None => Err(not_found("Chat id ", chat_id)),
        Some(chat) => {
            if chat.ws_id != user.ws_id {
                Err(AppError::Unauthorized(String::from_str(refusal)))
            } else {
                Ok(chat)
            }
        },
    }
}

/// The chat that `user` wants to change, if it exists and is of the user's
/// workspace.
pub fn fetch_and_verify_chat(found: Option<Chat>, chat_id: u64, user: &User) -> (res: Result<
    Chat,
    AppError,
>)
    ensures
        match found {
            None => res matches Err(e) && e is NotFound && e.detail() == "Chat id "@ + decimal(
                chat_id as nat,
            ),
            Some(chat) => if chat.ws_id != user.ws_id {
                res matches Err(e) && e is Unauthorized && e.detail()
                    == "You do not have permission to update this chat."@
            } else {
                res matches Ok(c) && c == chat
            },
        },
{
    workspace_chat(found, chat_id, user, "You do not have permission to update this chat.")
}

/// The chat that `user` wants to delete, if it exists and is of the user's
/// workspace.
pub fn verify_delete(found: Option<Chat>, chat_id: u64, user: &User) -> (res: Result<
    Chat,
    AppError,
>)
    ensures
        match found {
            None => res matches Err(e) && e is NotFound && e.detail() == "Chat id "@ + decimal(
                chat_id as nat,
            ),
            Some(chat) => if chat.ws_id != user.ws_id {
                res matches Err(e) && e is Unauthorized && e.detail()
                    == "You do not have permission to delete this chat."@
            } else {
                res matches Ok(c) && c == chat
            },
        },
{
    workspace_chat(found, chat_id, user, "You do not have permission to delete this chat.")
}

/// Lets a request for a chat's messages through if the user is a member of
/// the chat, as the database says.
pub fn verify_chat(is_member: bool, user: &User, chat_id: u64) -> (res: Result<(), AppError>)
    ensures
        is_member ==> res is Ok,
        !is_member ==> (res matches Err(e) && e is CreateMessageError && e.detail() == "User "@
            + signed_decimal(user.id as int) + " is not a member of chat "@ + decimal(
            chat_id as nat,
        )),
{
    if is_member {
        Ok(())
    } else {
        let mut text = String::from_str("User ");
        text.append(signed_text(user.id).as_str());
        text.append(" is not a member of chat ");
        text.append(decimal_text(chat_id as u128).as_str());
        Err(AppError::CreateMessageError(text))
    }
}

} // verus!
