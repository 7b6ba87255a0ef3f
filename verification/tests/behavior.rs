use chatgpt_assistant::config::{Config, Profile};
use chatgpt_assistant::editor::{Editor, Key, StepResult, run_editor};
use chatgpt_assistant::gpt::{ChatMessage, ChatResponse, Choice, Role, default_model, is_valid_role};
use chatgpt_assistant::session::{Session, SessionAction, SimpleStep, simple_step};
use chatgpt_assistant::text::trimmed;

fn user_msg(content: &str) -> ChatMessage {
    ChatMessage::new(content.to_owned(), "user".to_owned())
}

fn system_msg(content: &str) -> ChatMessage {
    ChatMessage::new(content.to_owned(), "system".to_owned())
}

fn reply_with(content: &str) -> ChatResponse {
    let message = ChatMessage::new(content.to_owned(), "assistant".to_owned());
    let choice = Choice::new(0, message, "stop".to_owned());
    ChatResponse::new("id".to_owned(), "chat.completion".to_owned(), 0, vec![choice])
}

#[test]
fn editor_content_matches_simulation() {
    let keys = vec![
        Key::Char('h'),
        Key::Char('i'),
        Key::Backspace,
        Key::Char('e'),
        Key::Char('y'),
        Key::Char('\n'),
    ];
    let m = run_editor(&keys).unwrap();
    assert_eq!(m.get_content(), "hey");
    assert_eq!(m.get_role(), "user");
}

#[test]
fn editor_tab_toggles_role() {
    let keys = vec![Key::Char('\t'), Key::Char('a'), Key::Char('\n')];
    let m = run_editor(&keys).unwrap();
    assert_eq!(m.get_role(), "system");
    assert_eq!(m.get_content(), "a");

    let keys = vec![Key::Char('\t'), Key::Char('\t'), Key::Char('a'), Key::Char('\n')];
    let m = run_editor(&keys).unwrap();
    assert_eq!(m.get_role(), "user");
}

#[test]
fn editor_starts_as_user() {
    let keys = vec![Key::Char('\n')];
    let m = run_editor(&keys).unwrap();
    assert_eq!(m.get_role(), "user");
    assert_eq!(m.get_content(), "");
}

#[test]
fn editor_backspace_on_empty_is_noop() {
    let keys = vec![
        Key::Backspace,
        Key::Backspace,
        Key::Char('a'),
        Key::Char('\n'),
    ];
    let m = run_editor(&keys).unwrap();
    assert_eq!(m.get_content(), "a");
}

#[test]
fn editor_interrupt_yields_no_message() {
    let keys = vec![Key::Char('a'), Key::Ctrl('c')];
    assert!(run_editor(&keys).is_none());

    let keys = vec![Key::Char('a'), Key::Ctrl('c'), Key::Char('\n')];
    assert!(run_editor(&keys).is_none());

    let keys = vec![Key::Ctrl('c')];
    assert!(run_editor(&keys).is_none());
}

#[test]
fn editor_ignores_other_keys() {
    let keys = vec![
        Key::Other,
        Key::Char('x'),
        Key::Ctrl('d'),
        Key::Other,
        Key::Char('\n'),
    ];
    let m = run_editor(&keys).unwrap();
    assert_eq!(m.get_content(), "x");
}

#[test]
fn editor_without_terminator_yields_no_message() {
    let keys = vec![Key::Char('a'), Key::Char('b')];
    assert!(run_editor(&keys).is_none());
}

#[test]
fn editor_step_outcomes() {
    let mut ed = Editor::new();
    assert_eq!(ed.apply_key(Key::Char('a')), StepResult::Pending);
    assert_eq!(ed.apply_key(Key::Char('\t')), StepResult::Pending);
    assert_eq!(ed.apply_key(Key::Backspace), StepResult::Pending);
    assert_eq!(ed.apply_key(Key::Other), StepResult::Pending);
    assert_eq!(ed.apply_key(Key::Ctrl('x')), StepResult::Pending);
    assert_eq!(ed.apply_key(Key::Char('\n')), StepResult::Submit);
    assert_eq!(ed.apply_key(Key::Ctrl('c')), StepResult::Abort);
}

#[test]
fn prompt_line_shows_role_and_buffer() {
    let mut ed = Editor::new();
    ed.apply_key(Key::Char('a'));
    ed.apply_key(Key::Char('b'));
    assert_eq!(ed.prompt_line(), "[user] ab");
    ed.apply_key(Key::Char('\t'));
    assert_eq!(ed.prompt_line(), "[system] ab");
}

#[test]
fn role_toggle_alternates_from_user() {
    let mut role = Role::new();
    assert_eq!(role.get_role_string(), "user");
    role.toggle();
    assert_eq!(role.get_role_string(), "system");
    role.toggle();
    assert_eq!(role.get_role_string(), "user");
}

#[test]
fn trimmed_removes_surrounding_whitespace() {
    assert_eq!(trimmed("  hello \n"), "hello");
    assert_eq!(trimmed("hello"), "hello");
    assert_eq!(trimmed(""), "");
    assert_eq!(trimmed(" \t\r\n "), "");
    assert_eq!(trimmed("a b"), "a b");
    assert_eq!(trimmed("\tspaced out\t"), "spaced out");
}

#[test]
fn trimmed_removes_unicode_whitespace() {
    assert_eq!(trimmed("\u{00A0}hello\u{2003}"), "hello");
    assert_eq!(trimmed("\u{3000}wide\u{3000}"), "wide");
    assert_eq!(trimmed("\u{00A0}\u{2028}\u{205F}"), "");
    assert_eq!(trimmed("a\u{00A0}b"), "a\u{00A0}b");
    assert_eq!(trimmed("  hi "), "  hi ".trim());
    assert_eq!(trimmed("\u{0085}x\u{202F}"), "\u{0085}x\u{202F}".trim());
}

#[test]
fn quit_padded_with_unicode_whitespace_still_quits() {
    let mut messages = vec![system_msg("A")];
    let step = simple_step(&mut messages, "\u{00A0}quit\u{00A0}");
    assert_eq!(step, SimpleStep::Quit);
    assert_eq!(messages.len(), 1);
}

#[test]
fn only_the_three_role_names_are_valid() {
    assert!(is_valid_role("user"));
    assert!(is_valid_role("system"));
    assert!(is_valid_role("assistant"));
    assert!(!is_valid_role("robot"));
    assert!(!is_valid_role("User"));
    assert!(!is_valid_role(""));
}

#[test]
fn request_payload_preserves_seed_and_input_order() {
    let mut session = Session::new(vec![system_msg("A")], false);
    session.on_editor_result(Some(user_msg("hello")));
    assert_eq!(session.next_action(), SessionAction::Send);

    let request = session.build_request(default_model());
    assert_eq!(request.get_model(), "gpt-3.5-turbo");
    let messages = request.get_messages();
    assert_eq!(messages.len(), 2);
    assert_eq!(messages[0].get_role(), "system");
    assert_eq!(messages[0].get_content(), "A");
    assert_eq!(messages[1].get_role(), "user");
    assert_eq!(messages[1].get_content(), "hello");
}

#[test]
fn session_stacks_system_messages_before_sending() {
    let mut session = Session::new(vec![], false);
    session.on_editor_result(Some(system_msg("context")));
    assert_eq!(session.next_action(), SessionAction::Compose);
    session.on_editor_result(Some(user_msg("go")));
    assert_eq!(session.next_action(), SessionAction::Send);
    assert_eq!(session.message_count(), 2);
}

#[test]
fn session_abort_ends_without_partial_message() {
    let mut session = Session::new(vec![system_msg("A")], false);
    session.on_editor_result(None);
    assert_eq!(session.next_action(), SessionAction::End);
    assert_eq!(session.message_count(), 1);
}

#[test]
fn quit_ends_simple_loop_without_sending() {
    let mut messages = vec![system_msg("A")];
    let step = simple_step(&mut messages, " quit \n");
    assert_eq!(step, SimpleStep::Quit);
    assert_eq!(messages.len(), 1);
}

#[test]
fn simple_loop_appends_user_message() {
    let mut messages = vec![];
    let step = simple_step(&mut messages, " hi there \n");
    assert_eq!(step, SimpleStep::Send);
    assert_eq!(messages.len(), 1);
    assert_eq!(messages[0].get_role(), "user");
    assert_eq!(messages[0].get_content(), "hi there");
}

#[test]
fn quit_must_match_exactly_after_trimming() {
    let mut messages = vec![];
    let step = simple_step(&mut messages, "quit now");
    assert_eq!(step, SimpleStep::Send);
    assert_eq!(messages.len(), 1);
}

#[test]
fn oneshot_ends_after_one_appended_reply() {
    let mut session = Session::new(vec![], true);
    session.on_editor_result(Some(user_msg("question")));
    let shown = session.on_reply(Some(&reply_with("  answer  ")));
    assert_eq!(shown.unwrap(), "answer");
    assert_eq!(session.message_count(), 2);
    assert_eq!(session.next_action(), SessionAction::End);
}

#[test]
fn conversation_continues_when_not_oneshot() {
    let mut session = Session::new(vec![], false);
    session.on_editor_result(Some(user_msg("question")));
    let shown = session.on_reply(Some(&reply_with("answer")));
    assert_eq!(shown.unwrap(), "answer");
    assert_eq!(session.message_count(), 2);
    assert_eq!(session.next_action(), SessionAction::Compose);
}

#[test]
fn failed_request_ends_session_with_nothing_shown() {
    let mut session = Session::new(vec![], false);
    session.on_editor_result(Some(user_msg("question")));
    let shown = session.on_reply(None);
    assert!(shown.is_none());
    assert_eq!(session.message_count(), 1);
    assert_eq!(session.next_action(), SessionAction::End);
}

#[test]
fn reply_without_choices_ends_session() {
    let mut session = Session::new(vec![], false);
    session.on_editor_result(Some(user_msg("question")));
    let empty = ChatResponse::new("id".to_owned(), "chat.completion".to_owned(), 0, vec![]);
    let shown = session.on_reply(Some(&empty));
    assert!(shown.is_none());
    assert_eq!(session.next_action(), SessionAction::End);
}

#[test]
fn first_message_takes_the_first_choice() {
    let first = Choice::new(0, ChatMessage::new("one".to_owned(), "assistant".to_owned()), "stop".to_owned());
    let second = Choice::new(1, ChatMessage::new("two".to_owned(), "assistant".to_owned()), "stop".to_owned());
    let response = ChatResponse::new("id".to_owned(), "chat.completion".to_owned(), 0, vec![first, second]);
    assert_eq!(response.first_message().unwrap().get_content(), "one");
    assert_eq!(response.get_choices().len(), 2);
    assert_eq!(response.get_choices()[1].get_message().get_content(), "two");
}

#[test]
fn unknown_profile_is_not_found() {
    let profile = Profile::new(vec![system_msg("seed")]);
    let config = Config::new(vec![("default".to_owned(), profile)]);
    assert!(config.get_profile("missing".to_owned()).is_none());
}

#[test]
fn known_profile_returns_its_messages() {
    let profile = Profile::new(vec![system_msg("seed")]);
    let config = Config::new(vec![("default".to_owned(), profile)]);
    let found = config.get_profile("default".to_owned()).unwrap();
    assert_eq!(found.get_messages().len(), 1);
    assert_eq!(found.get_messages()[0].get_content(), "seed");
}

#[test]
fn message_accessors_round_trip() {
    let m = ChatMessage::new("content".to_owned(), "user".to_owned());
    assert_eq!(m.get_content(), "content");
    assert_eq!(m.get_role(), "user");
    assert!(m.is_user_role());
    let s = system_msg("x");
    assert!(!s.is_user_role());
    let copy = m.duplicate();
    assert_eq!(copy.get_content(), "content");
    assert_eq!(copy.get_role(), "user");
}
