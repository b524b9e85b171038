use chat_room::codec::{DecodeError, MessageData, Operation};
use chat_room::room::{
    avatar_url, build_outgoing_message, build_registration, fallback_avatar_url, is_image, Chat,
    Roster, UserProfile,
};

const FALLBACK: &str = "https://avatars.dicebear.com/api/adventurer-neutral/unknown.svg";

fn owned(s: &str) -> String {
    s.to_string()
}

fn snapshot(names: &[&str]) -> Operation {
    Operation::RosterSnapshot { members: names.iter().map(|n| n.to_string()).collect() }
}

fn chat_message(sender: &str, body: &str) -> Operation {
    Operation::ChatMessage { sender: owned(sender), body: owned(body) }
}

fn profile(name: &str) -> UserProfile {
    UserProfile {
        name: owned(name),
        avatar: format!("https://avatars.dicebear.com/api/adventurer-neutral/{}.svg", name),
    }
}

fn entry(from: &str, message: &str) -> MessageData {
    MessageData { from: owned(from), message: owned(message) }
}

#[test]
fn avatar_is_service_name_and_svg() {
    assert_eq!(
        avatar_url("alice"),
        "https://avatars.dicebear.com/api/adventurer-neutral/alice.svg"
    );
    assert_eq!(avatar_url(""), "https://avatars.dicebear.com/api/adventurer-neutral/.svg");
}

#[test]
fn avatar_takes_the_name_as_it_is() {
    assert_eq!(
        avatar_url("a b/c"),
        "https://avatars.dicebear.com/api/adventurer-neutral/a b/c.svg"
    );
}

#[test]
fn fallback_avatar_is_the_one_of_unknown() {
    assert_eq!(fallback_avatar_url(), FALLBACK);
    assert_eq!(fallback_avatar_url(), avatar_url("unknown"));
}

#[test]
fn gif_bodies_are_images() {
    assert!(is_image("http://x/y/cat.gif"));
    assert!(is_image(".gif"));
    assert!(is_image("\u{1F600}.gif"));
}

#[test]
fn other_bodies_are_not_images() {
    assert!(!is_image("hello.gif.txt"));
    assert!(!is_image("hello"));
    assert!(!is_image(""));
    assert!(!is_image("gif"));
    assert!(!is_image("cat.GIF"));
    assert!(!is_image("cat.gif "));
    assert!(!is_image("cat.gi"));
    assert!(!is_image("cat gif"));
}

#[test]
fn registration_holds_the_username() {
    assert_eq!(build_registration(owned("alice")), Operation::Registration { name: owned("alice") });
}

#[test]
fn empty_submission_builds_nothing() {
    assert_eq!(build_outgoing_message(""), None);
    assert_eq!(build_outgoing_message("   "), None);
}

#[test]
fn white_space_of_any_kind_builds_nothing() {
    assert_eq!(build_outgoing_message("\t\n\r"), None);
    assert_eq!(build_outgoing_message(" \u{a0}\u{2003}\u{3000} "), None);
}

#[test]
fn a_text_builds_a_message_with_no_sender() {
    assert_eq!(build_outgoing_message("hi"), Some(chat_message("", "hi")));
}

#[test]
fn a_text_is_sent_as_it_was_typed() {
    assert_eq!(build_outgoing_message("  hi  "), Some(chat_message("", "  hi  ")));
    assert_eq!(build_outgoing_message(" . "), Some(chat_message("", " . ")));
}

#[test]
fn new_room_is_empty() {
    let chat = Chat::new();
    assert!(chat.users().is_empty());
    assert!(chat.messages().is_empty());
}

#[test]
fn snapshot_sets_the_roster_in_order() {
    let mut chat = Chat::new();
    assert!(chat.apply_incoming(snapshot(&["alice", "bob"])));
    assert_eq!(chat.users(), &vec![profile("alice"), profile("bob")]);
    assert!(chat.messages().is_empty());
}

#[test]
fn snapshot_replaces_the_roster_wholesale() {
    let mut chat = Chat::new();
    chat.apply_incoming(snapshot(&["alice", "bob"]));
    assert!(chat.apply_incoming(snapshot(&["carol"])));
    assert_eq!(chat.users(), &vec![profile("carol")]);
    assert!(chat.apply_incoming(snapshot(&[])));
    assert!(chat.users().is_empty());
}

#[test]
fn same_snapshot_twice_leaves_the_same_roster() {
    let mut chat = Chat::new();
    assert!(chat.apply_incoming(snapshot(&["a", "b"])));
    let once = chat.users().clone();
    assert!(chat.apply_incoming(snapshot(&["a", "b"])));
    assert_eq!(chat.users(), &once);
    assert_eq!(once, vec![profile("a"), profile("b")]);
}

#[test]
fn snapshot_keeps_a_name_that_occurs_twice() {
    let mut chat = Chat::new();
    chat.apply_incoming(snapshot(&["a", "a"]));
    assert_eq!(chat.users(), &vec![profile("a"), profile("a")]);
}

#[test]
fn message_is_appended_to_the_log() {
    let mut chat = Chat::new();
    assert!(chat.apply_incoming(chat_message("alice", "one")));
    assert!(chat.apply_incoming(chat_message("bob", "two")));
    assert!(chat.apply_incoming(chat_message("alice", "one")));
    assert_eq!(chat.messages(), &vec![entry("alice", "one"), entry("bob", "two"), entry("alice", "one")]);
    assert!(chat.users().is_empty());
}

#[test]
fn snapshot_leaves_the_log_alone() {
    let mut chat = Chat::new();
    chat.apply_incoming(chat_message("alice", "one"));
    chat.apply_incoming(snapshot(&["bob"]));
    assert_eq!(chat.messages(), &vec![entry("alice", "one")]);
}

#[test]
fn registration_changes_nothing() {
    let mut chat = Chat::new();
    chat.apply_incoming(snapshot(&["alice"]));
    chat.apply_incoming(chat_message("alice", "one"));
    let before = chat.clone();
    assert!(!chat.apply_incoming(Operation::Registration { name: owned("bob") }));
    assert_eq!(chat, before);
}

#[test]
fn unknown_sender_gets_the_fallback() {
    let mut chat = Chat::new();
    chat.apply_incoming(chat_message("ghost", "hi"));
    assert_eq!(chat.resolve_avatar("ghost"), FALLBACK);
    assert_eq!(chat.messages(), &vec![entry("ghost", "hi")]);
}

#[test]
fn fallback_does_not_depend_on_the_sender() {
    let mut chat = Chat::new();
    chat.apply_incoming(snapshot(&["alice"]));
    assert_eq!(chat.resolve_avatar("ghost"), chat.resolve_avatar("someone else"));
    assert_eq!(chat.resolve_avatar(""), FALLBACK);
}

#[test]
fn known_sender_gets_the_roster_avatar() {
    let mut chat = Chat::new();
    chat.apply_incoming(snapshot(&["alice", "bob"]));
    assert_eq!(
        chat.resolve_avatar("bob"),
        "https://avatars.dicebear.com/api/adventurer-neutral/bob.svg"
    );
    assert_eq!(chat.resolve_avatar("bob"), chat.users()[1].avatar);
}

#[test]
fn names_match_exactly() {
    let mut chat = Chat::new();
    chat.apply_incoming(snapshot(&["alice"]));
    assert_eq!(chat.resolve_avatar("Alice"), FALLBACK);
    assert_eq!(chat.resolve_avatar("alice "), FALLBACK);
    assert_eq!(chat.resolve_avatar("alic"), FALLBACK);
}

#[test]
fn a_member_named_unknown_has_the_fallback_picture_too() {
    let mut chat = Chat::new();
    chat.apply_incoming(snapshot(&["unknown"]));
    assert_eq!(chat.resolve_avatar("unknown"), FALLBACK);
}

#[test]
fn sender_who_left_falls_back() {
    let mut chat = Chat::new();
    chat.apply_incoming(snapshot(&["alice"]));
    chat.apply_incoming(chat_message("alice", "bye"));
    chat.apply_incoming(snapshot(&["bob"]));
    assert_eq!(chat.resolve_avatar("alice"), FALLBACK);
    assert_eq!(chat.messages(), &vec![entry("alice", "bye")]);
}

#[test]
fn roster_from_names_derives_every_avatar() {
    let roster = Roster::from_names(&vec![owned("x"), owned("y")]);
    assert_eq!(roster.members(), &vec![profile("x"), profile("y")]);
    assert_eq!(roster.avatar_for("y"), profile("y").avatar);
    assert_eq!(roster.avatar_for("z"), FALLBACK);
    assert!(Roster::new().members().is_empty());
}

#[test]
fn receive_users_frame_sets_roster_and_avatars() {
    let mut chat = Chat::new();
    let outcome = chat.receive(r#"{"messageType":"users","dataArray":["alice","bob"]}"#);
    assert_eq!(outcome, Ok(true));
    let users = chat.users();
    assert_eq!(users.len(), 2);
    assert_eq!(users[0].name, "alice");
    assert_eq!(users[0].avatar, "https://avatars.dicebear.com/api/adventurer-neutral/alice.svg");
    assert_eq!(users[1].name, "bob");
    assert_eq!(users[1].avatar, "https://avatars.dicebear.com/api/adventurer-neutral/bob.svg");
}

#[test]
fn receive_message_frame_appends_and_resolves() {
    let mut chat = Chat::new();
    chat.receive(r#"{"messageType":"users","dataArray":["alice","bob"]}"#).unwrap();
    let outcome = chat
        .receive(r#"{"messageType":"message","data":"{\"from\":\"alice\",\"message\":\"hi\"}"}"#);
    assert_eq!(outcome, Ok(true));
    assert_eq!(chat.messages(), &vec![entry("alice", "hi")]);
    let sender = chat.messages()[0].from.clone();
    assert_eq!(
        chat.resolve_avatar(&sender),
        "https://avatars.dicebear.com/api/adventurer-neutral/alice.svg"
    );
    assert_eq!(chat.resolve_avatar(&sender), chat.users()[0].avatar);
}

#[test]
fn receive_malformed_frame_changes_nothing_and_next_frame_works() {
    let mut chat = Chat::new();
    chat.receive(r#"{"messageType":"users","dataArray":["alice"]}"#).unwrap();
    chat.receive(r#"{"messageType":"message","data":"{\"from\":\"alice\",\"message\":\"one\"}"}"#)
        .unwrap();
    let before = chat.clone();
    assert_eq!(chat.receive(r#"{"type":"users","list":["mallory"]}"#), Err(DecodeError::Envelope));
    assert_eq!(chat, before);
    assert_eq!(chat.receive("{{{"), Err(DecodeError::Envelope));
    assert_eq!(chat, before);
    assert_eq!(
        chat.receive(r#"{"messageType":"message","data":"not a record"}"#),
        Err(DecodeError::Payload)
    );
    assert_eq!(chat, before);
    let next = chat
        .receive(r#"{"messageType":"message","data":"{\"from\":\"bob\",\"message\":\"two\"}"}"#);
    assert_eq!(next, Ok(true));
    assert_eq!(chat.messages(), &vec![entry("alice", "one"), entry("bob", "two")]);
    assert_eq!(chat.users(), &vec![profile("alice")]);
}

#[test]
fn receive_register_frame_is_a_no_op() {
    let mut chat = Chat::new();
    chat.receive(r#"{"messageType":"users","dataArray":["alice"]}"#).unwrap();
    let before = chat.clone();
    assert_eq!(chat.receive(r#"{"messageType":"register","data":"bob"}"#), Ok(false));
    assert_eq!(chat, before);
}

#[test]
fn receive_unknown_tag_is_tolerated_as_a_no_op() {
    let mut chat = Chat::new();
    chat.receive(r#"{"messageType":"users","dataArray":["alice"]}"#).unwrap();
    let before = chat.clone();
    assert_eq!(chat.receive(r#"{"messageType":"typing","data":"bob"}"#), Ok(false));
    assert_eq!(chat, before);
    assert_eq!(chat.receive(r#"{"messageType":"typing","data":7}"#), Err(DecodeError::Envelope));
    assert_eq!(chat, before);
}

#[test]
fn entry_knows_whether_it_is_an_image() {
    assert!(entry("alice", "http://x/y/cat.gif").is_image());
    assert!(!entry("cat.gif", "hello.gif.txt").is_image());
}

#[test]
fn receive_identical_roster_still_asks_for_a_redraw() {
    let mut chat = Chat::new();
    let frame = r#"{"messageType":"users","dataArray":["alice"]}"#;
    assert_eq!(chat.receive(frame), Ok(true));
    assert_eq!(chat.receive(frame), Ok(true));
    assert_eq!(chat.users(), &vec![profile("alice")]);
}
