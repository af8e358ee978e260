//! The rules for sending a message and for paging through a chat.

use crate::error::AppError;
use crate::file::{file_at, ChatFile};
use vstd::prelude::*;
use vstd::string::StringExecFns;

verus! {

/// A request to send a message. `files` holds the URLs of its attachments.
#[derive(Debug, Clone)]
pub struct CreateMessage {
    pub content: String,
    pub files: Vec<String>,
}

/// A request for a page of messages: at most `limit` of them, all older
/// than `last_id`, or the newest if there is no `last_id`.
#[derive(Debug, Clone)]
pub struct ListMessages {
    pub last_id: Option<u64>,
    pub limit: u64,
}

/// What is wrong with a message.
pub enum MessageFault {
    /// An attachment's URL cannot be read; the complaint is the reader's.
    File(Seq<char>),
    /// The message itself is refused.
    Message(Seq<char>),
}

/// Whether the attachment at `i` is on disk, by what the caller found out.
/// An attachment that the caller said nothing of is not.
pub open spec fn on_disk(exists: Seq<bool>, i: int) -> bool {
    0 <= i < exists.len() && exists[i]
}

/// What is wrong with the attachments from `from` on: each must have a URL
/// that can be read and must be on disk, and the first that fails either
/// is reported.
pub open spec fn files_fault(files: Seq<Seq<char>>, exists: Seq<bool>, from: int) -> Option<
    MessageFault,
>
    decreases files.len() - from,
{
    if from < 0 || from >= files.len() {
        None
    } else {
        match file_at(files[from]) {
            Err(why) => Some(MessageFault::File(why)),
            Ok(_) => if !on_disk(exists, from) {
                Some(MessageFault::Message("File "@ + files[from] + " doesn't exist"@))
            } else {
                files_fault(files, exists, from + 1)
            },
        }
    }
}

/// What is wrong with a message: it must say something, and its
/// attachments must be in order.
pub open spec fn message_fault(
    content: Seq<char>,
    files: Seq<Seq<char>>,
    exists: Seq<bool>,
) -> Option<MessageFault> {
    if content.len() == 0 {
        Some(MessageFault::Message("Content cannot be empty"@))
    } else {
        files_fault(files, exists, 0)
    }
}

impl CreateMessage {
    /// Checks a message before it is stored. `exists` says of each
    /// attachment, in order, whether its file is on disk. The first thing
    /// that is wrong is reported: an unreadable URL as `ChatFileError`,
    /// anything else as `CreateMessageError`.
    pub fn check(&self, exists: &Vec<bool>) -> (res: Result<(), AppError>)
        ensures
            match message_fault(self.content@, self.files.deep_view(), exists@) {
                None => res is Ok,
                Some(MessageFault::File(why)) => res matches Err(e) && e is ChatFileError
                    && e.detail() == why,
                Some(MessageFault::Message(why)) => res matches Err(e) && e is CreateMessageError
                    && e.detail() == why,
            },
    {
        if self.content.as_str().is_empty() {
            return Err(AppError::CreateMessageError(String::from_str("Content cannot be empty")));
        }
        let ghost files = self.files.deep_view();
        let mut i: usize = 0;
        while i < self.files.len()
            invariant
                i <= self.files@.len(),
                self.content@.len() != 0,
                files == self.files.deep_view(),
                files.len() == self.files@.len(),
                files_fault(files, exists@, 0) == files_fault(files, exists@, i as int),
            decreases self.files@.len() - i,
        {
            let url = &self.files[i];
            assert(files[i as int] == url@);
            match ChatFile::from_str(url.as_str()) {
                Err(e) => {
                    return Err(e);
                },
                Ok(_) => {
                    if !(i < exists.len() && exists[i]) {
                        let mut text = String::from_str("File ");
                        text.append(url.as_str());
                        text.append(" doesn't exist");
                        return Err(AppError::CreateMessageError(text));
                    }
                },
            }
            i = i + 1;
        }
        Ok(())
    }
}

impl ListMessages {
    /// The id that every message of the page must be below.
    pub fn before_id(&self) -> (id: i64)
        ensures
            id == (match self.last_id {
                Some(last) => last as i64,
                None => i64::MAX,
            }),
    {
        match self.last_id {
            Some(last) => last as i64,
            None => i64::MAX,
        }
    }

    /// The size of the page, as the database takes it.
    pub fn page_size(&self) -> (size: i64)
        ensures
            size == self.limit as i64,
    {
        self.limit as i64
    }
}

} // verus!
