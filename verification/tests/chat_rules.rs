use chat_core::access::{fetch_and_verify_chat, found_chat, verify_chat, verify_delete};
use chat_core::chat::{apply_updates, create_chat, CreateChat, UpdateChat};
use chat_core::error::{AppError, ErrorOutput};
use chat_core::model::{Chat, ChatType, User};

fn chat(id: i64, ws_id: i64, name: Option<&str>, chat_type: ChatType, members: &[i64]) -> Chat {
    Chat {
        id,
        ws_id,
        name: name.map(|s| s.to_string()),
        chat_type,
        members: members.to_vec(),
        created_at: 0,
    }
}

#[test]
fn create_single_chat_should_work() {
    let input = CreateChat::new("", &[1, 2], false);
    let chat = create_chat(input, 1, 1, 2).expect("create chat failed");
    assert_eq!(chat.ws_id, 1);
    assert_eq!(chat.members.len(), 2);
    assert_eq!(chat.chat_type, ChatType::Single);
}

#[test]
fn create_public_named_chat_should_work() {
    let input = CreateChat::new("general", &[1, 2, 3], true);
    let chat = create_chat(input, 1, 1, 3).expect("create chat failed");
    assert_eq!(chat.ws_id, 1);
    assert_eq!(chat.members.len(), 3);
    assert_eq!(chat.chat_type, ChatType::PublicChannel);
}

#[test]
fn create_chat_builder_reads_empty_name_as_none() {
    let input = CreateChat::new("", &[4, 5], true);
    assert_eq!(input.name, None);
    assert_eq!(input.members, vec![4, 5]);
    assert!(input.public);
    let named = CreateChat::new("team", &[4, 5], false);
    assert_eq!(named.name, Some("team".to_string()));
}

#[test]
fn create_chat_types_follow_name_size_and_visibility() {
    assert_eq!(CreateChat::new("", &[1, 2], true).chat_type(), ChatType::Single);
    assert_eq!(CreateChat::new("", &[1, 2, 3], false).chat_type(), ChatType::Group);
    assert_eq!(CreateChat::new("", &[1], false).chat_type(), ChatType::Group);
    assert_eq!(CreateChat::new("dev", &[1, 2], false).chat_type(), ChatType::PrivateChannel);
    assert_eq!(CreateChat::new("dev", &[1, 2], true).chat_type(), ChatType::PublicChannel);
}

fn create_error(input: CreateChat, user_id: u64, found: usize) -> String {
    match create_chat(input, user_id, 1, found) {
        Err(AppError::CreateChatError(text)) => text,
        other => panic!("expected a create chat error, got {:?}", other),
    }
}

#[test]
fn create_chat_needs_two_members() {
    let text = create_error(CreateChat::new("", &[1], false), 1, 1);
    assert_eq!(text, "Chat must have at least 2 members");
}

#[test]
fn create_chat_needs_the_creator_among_members() {
    let text = create_error(CreateChat::new("", &[2, 3], false), 1, 2);
    assert_eq!(text, "You must be a member of the chat");
}

#[test]
fn create_chat_needs_a_name_of_three_bytes() {
    let text = create_error(CreateChat::new("ab", &[1, 2], false), 1, 2);
    assert_eq!(text, "Chat name must have at least 3 characters");
    // Two characters, four bytes: long enough.
    assert!(create_chat(CreateChat::new("éé", &[1, 2], false), 1, 1, 2).is_ok());
}

#[test]
fn create_chat_needs_a_name_for_more_than_eight() {
    let members = [1, 2, 3, 4, 5, 6, 7, 8, 9];
    let text = create_error(CreateChat::new("", &members, false), 1, 9);
    assert_eq!(text, "Group chat with more than 8 members must have a name");
    let eight = [1, 2, 3, 4, 5, 6, 7, 8];
    let chat = create_chat(CreateChat::new("", &eight, false), 1, 1, 8).unwrap();
    assert_eq!(chat.chat_type, ChatType::Group);
    let named = create_chat(CreateChat::new("crowd", &members, false), 1, 1, 9).unwrap();
    assert_eq!(named.chat_type, ChatType::PrivateChannel);
}

#[test]
fn create_chat_needs_members_that_exist() {
    let text = create_error(CreateChat::new("", &[1, 2, 3], false), 1, 2);
    assert_eq!(text, "Some members do not exist");
}

#[test]
fn create_chat_reports_the_first_broken_rule() {
    // One member, who is not the creator: the size is reported.
    let text = create_error(CreateChat::new("x", &[2], false), 1, 0);
    assert_eq!(text, "Chat must have at least 2 members");
    // Creator missing and name too short: the creator is reported.
    let text = create_error(CreateChat::new("x", &[2, 3], false), 1, 0);
    assert_eq!(text, "You must be a member of the chat");
}

#[test]
fn create_chat_keeps_name_and_members() {
    let draft = create_chat(CreateChat::new("general", &[3, 1, 2], false), 2, 9, 3).unwrap();
    assert_eq!(draft.ws_id, 9);
    assert_eq!(draft.name, Some("general".to_string()));
    assert_eq!(draft.members, vec![3, 1, 2]);
    assert_eq!(draft.chat_type, ChatType::PrivateChannel);
}

#[test]
fn check_members_says_whether_to_ask_the_database() {
    let group = chat(1, 1, None, ChatType::Group, &[1, 2, 3]);
    let nothing = UpdateChat { name: None, members: None, public: None };
    assert_eq!(nothing.check_members(&group).unwrap(), false);
    let some = UpdateChat { name: None, members: Some(vec![1, 2]), public: None };
    assert_eq!(some.check_members(&group).unwrap(), true);
    let few = UpdateChat { name: None, members: Some(vec![1]), public: None };
    match few.check_members(&group) {
        Err(AppError::UpdateChatError(text)) => {
            assert_eq!(text, "Chat must have at least 2 members")
        }
        other => panic!("unexpected {:?}", other),
    }
    let many = UpdateChat {
        name: None,
        members: Some(vec![1, 2, 3, 4, 5, 6, 7, 8, 9]),
        public: None,
    };
    match many.check_members(&group) {
        Err(AppError::UpdateChatError(text)) => {
            assert_eq!(text, "Group chat with more than 8 members must have a name")
        }
        other => panic!("unexpected {:?}", other),
    }
    let many_named = UpdateChat {
        name: Some("crowd".to_string()),
        members: Some(vec![1, 2, 3, 4, 5, 6, 7, 8, 9]),
        public: None,
    };
    assert_eq!(many_named.check_members(&group).unwrap(), true);
}

#[test]
fn apply_updates_renames_and_keeps_a_named_chat_type() {
    let mut c = chat(42, 1, Some("old"), ChatType::PrivateChannel, &[1, 2, 3]);
    let input = UpdateChat { name: Some("Project X".to_string()), members: None, public: None };
    apply_updates(&mut c, input, 0).unwrap();
    assert_eq!(c.name, Some("Project X".to_string()));
    assert_eq!(c.members, vec![1, 2, 3]);
    assert_eq!(c.chat_type, ChatType::PrivateChannel);
    assert_eq!(c.id, 42);
}

#[test]
fn apply_updates_retypes_an_unnamed_chat_by_size() {
    let mut c = chat(1, 1, None, ChatType::Single, &[1, 2]);
    let input = UpdateChat { name: None, members: Some(vec![1, 2, 3]), public: None };
    apply_updates(&mut c, input, 3).unwrap();
    assert_eq!(c.members, vec![1, 2, 3]);
    assert_eq!(c.chat_type, ChatType::Group);
    let back = UpdateChat { name: None, members: Some(vec![2, 3]), public: None };
    apply_updates(&mut c, back, 2).unwrap();
    assert_eq!(c.chat_type, ChatType::Single);
}

#[test]
fn apply_updates_lets_visibility_decide() {
    let mut c = chat(1, 1, None, ChatType::Group, &[1, 2, 3]);
    let open = UpdateChat { name: None, members: None, public: Some(true) };
    apply_updates(&mut c, open, 0).unwrap();
    assert_eq!(c.chat_type, ChatType::PublicChannel);
    let shut = UpdateChat { name: None, members: None, public: Some(false) };
    apply_updates(&mut c, shut, 0).unwrap();
    assert_eq!(c.chat_type, ChatType::PrivateChannel);
}

#[test]
fn apply_updates_refuses_unknown_members_and_keeps_the_new_name() {
    let mut c = chat(1, 1, None, ChatType::Group, &[1, 2, 3]);
    let input = UpdateChat {
        name: Some("team".to_string()),
        members: Some(vec![1, 2, 99]),
        public: Some(true),
    };
    match apply_updates(&mut c, input, 2) {
        Err(AppError::UpdateChatError(text)) => assert_eq!(text, "Some members do not exist"),
        other => panic!("unexpected {:?}", other),
    }
    assert_eq!(c.name, Some("team".to_string()));
    assert_eq!(c.members, vec![1, 2, 3]);
    assert_eq!(c.chat_type, ChatType::Group);
}

#[test]
fn apply_updates_refuses_too_few_members() {
    let mut c = chat(1, 1, None, ChatType::Group, &[1, 2, 3]);
    let input = UpdateChat { name: None, members: Some(vec![1]), public: None };
    match apply_updates(&mut c, input, 1) {
        Err(AppError::UpdateChatError(text)) => {
            assert_eq!(text, "Chat must have at least 2 members")
        }
        other => panic!("unexpected {:?}", other),
    }
    assert_eq!(c.members, vec![1, 2, 3]);
}

#[test]
fn chat_get_by_id_reports_a_missing_chat() {
    match found_chat(None, 10) {
        Err(AppError::NotFound(text)) => assert_eq!(text, "chat id 10"),
        other => panic!("unexpected {:?}", other),
    }
    let c = chat(1, 1, Some("general"), ChatType::PublicChannel, &[1, 2, 3, 4, 5]);
    let got = found_chat(Some(c.clone()), 1).unwrap();
    assert_eq!(got, c);
}

#[test]
fn chats_of_other_workspaces_are_out_of_reach() {
    let mut user = User::new(1, "test", "test@test.com");
    user.ws_id = 1;
    let mine = chat(3, 1, None, ChatType::Single, &[1, 2]);
    let theirs = chat(4, 2, None, ChatType::Single, &[1, 2]);
    assert_eq!(fetch_and_verify_chat(Some(mine.clone()), 3, &user).unwrap(), mine);
    assert_eq!(verify_delete(Some(mine.clone()), 3, &user).unwrap(), mine);
    match fetch_and_verify_chat(Some(theirs.clone()), 4, &user) {
        Err(e) => {
            assert_eq!(e.status_code(), 401);
            assert_eq!(
                e.message(),
                "Unauthorized: You do not have permission to update this chat."
            );
        }
        Ok(_) => panic!("expected a refusal"),
    }
    match verify_delete(Some(theirs), 4, &user) {
        Err(e) => assert_eq!(
            e.message(),
            "Unauthorized: You do not have permission to delete this chat."
        ),
        Ok(_) => panic!("expected a refusal"),
    }
    match fetch_and_verify_chat(None, 18446744073709551615, &user) {
        Err(e) => {
            assert_eq!(e.status_code(), 404);
            assert_eq!(e.message(), "Not found: Chat id 18446744073709551615");
        }
        Ok(_) => panic!("expected not found"),
    }
}

#[test]
fn verify_chat_middleware_should_work() {
    let user = User::new(1, "test", "test@test.com");
    assert!(verify_chat(true, &user, 1).is_ok());
    let err = verify_chat(false, &user, 5).unwrap_err();
    assert_eq!(err.status_code(), 400);
    assert_eq!(err.message(), "create message error: User 1 is not a member of chat 5");
    let odd = User::new(-12, "odd", "odd@test.com");
    let err = verify_chat(false, &odd, 0).unwrap_err();
    assert_eq!(err.message(), "create message error: User -12 is not a member of chat 0");
    let least = User::new(i64::MIN, "least", "least@test.com");
    let err = verify_chat(false, &least, 7).unwrap_err();
    assert_eq!(
        err.message(),
        "create message error: User -9223372036854775808 is not a member of chat 7"
    );
}

#[test]
fn errors_carry_their_status_and_text() {
    let cases: Vec<(AppError, u16, &str)> = vec![
        (AppError::EmailAlreadyExists("a@b.c".into()), 409, "Email already exists: a@b.c"),
        (AppError::SqlxError("x".into()), 500, "sqlx error: x"),
        (AppError::PasswordHashError("x".into()), 422, "password hashing error: x"),
        (AppError::AnyError("x".into()), 500, "general error: x"),
        (AppError::HttpHeaderError("x".into()), 400, "http header parse error: x"),
        (AppError::CreateChatError("x".into()), 400, "create chat error: x"),
        (AppError::NotFound("x".into()), 404, "Not found: x"),
        (AppError::IoError("x".into()), 500, "io error: x"),
        (AppError::Unauthorized("x".into()), 401, "Unauthorized: x"),
        (AppError::UpdateChatError("x".into()), 400, "Update chat error: x"),
        (AppError::ChatFileError("x".into()), 400, "x"),
        (AppError::CreateMessageError("x".into()), 400, "create message error: x"),
    ];
    for (err, status, text) in cases {
        assert_eq!(err.status_code(), status);
        assert_eq!(err.message(), text);
        assert_eq!(err.output(), ErrorOutput::new(text));
    }
}
