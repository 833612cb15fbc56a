use chatbot_core::catalog::{get_default_role, Role, RoleCatalog};
use chatbot_core::chats::SessionMap;
use chatbot_core::session::{MsgRole, Session, State};

fn fresh_session() -> Session {
    Session::new("assistant".to_string(), "you are a helpful assistant.")
}

#[test]
fn new_session_has_single_system_message() {
    let s = fresh_session();
    assert_eq!(s.history_len(), 1);
    assert_eq!(s.message_at(0).role, MsgRole::System);
    assert_eq!(s.message_at(0).content, "you are a helpful assistant.");
    assert_eq!(s.active_role(), "assistant");
    assert!(matches!(s.dialogue(), State::Idle));
}

#[test]
fn clear_keeps_exactly_the_active_system_message() {
    let mut s = fresh_session();
    s.append_user("one");
    s.append_assistant("two");
    s.append_user("three");
    assert_eq!(s.history_len(), 4);
    s.clear_to_system();
    assert_eq!(s.history_len(), 1);
    assert_eq!(s.message_at(0).role, MsgRole::System);
    assert_eq!(s.message_at(0).content, "you are a helpful assistant.");
    s.append_user("again");
    s.clear_to_system();
    assert_eq!(s.history_len(), 1);
    assert_eq!(s.message_at(0).content, "you are a helpful assistant.");
}

#[test]
fn set_active_role_reseeds_history_whatever_its_length() {
    let mut s = fresh_session();
    for i in 0..10 {
        s.append_user(&format!("question {i}"));
        s.append_assistant(&format!("answer {i}"));
    }
    assert_eq!(s.history_len(), 21);
    s.set_active_role("Tutor".to_string(), "You are a patient math tutor.");
    assert_eq!(s.history_len(), 1);
    assert_eq!(s.message_at(0).role, MsgRole::System);
    assert_eq!(s.message_at(0).content, "You are a patient math tutor.");
    assert_eq!(s.active_role(), "Tutor");
}

#[test]
fn snapshot_copies_the_history_in_order() {
    let mut s = fresh_session();
    s.append_user("hi");
    s.append_assistant("hello");
    let snap = s.snapshot();
    assert_eq!(snap.len(), 3);
    assert_eq!(snap[0].role, MsgRole::System);
    assert_eq!(snap[1].role, MsgRole::User);
    assert_eq!(snap[1].content, "hi");
    assert_eq!(snap[2].role, MsgRole::Assistant);
    assert_eq!(snap[2].content, "hello");
}

#[test]
fn catalog_insert_get_overwrite_remove() {
    let mut cat = RoleCatalog::new();
    assert!(cat.insert("Tutor".to_string(), Role { system: "tutor text".to_string() }));
    assert!(cat.insert("Coder".to_string(), Role { system: "coder text".to_string() }));
    assert_eq!(cat.len(), 2);
    assert_eq!(cat.get("Tutor").unwrap().system, "tutor text");
    assert!(cat.get("Ghost").is_none());

    assert!(cat.insert("Tutor".to_string(), Role { system: "new tutor text".to_string() }));
    assert_eq!(cat.len(), 2);
    assert_eq!(cat.name_at(0), "Tutor");
    assert_eq!(cat.get("Tutor").unwrap().system, "new tutor text");

    assert!(!cat.insert("bad name".to_string(), Role { system: "x".to_string() }));
    assert_eq!(cat.len(), 2);

    assert!(cat.remove("Tutor"));
    assert_eq!(cat.len(), 1);
    assert!(cat.get("Tutor").is_none());
    assert!(!cat.remove("Tutor"));
}

#[test]
fn default_role_is_first_inserted_or_builtin() {
    let mut cat = RoleCatalog::new();
    let (name, system) = get_default_role(&cat);
    assert_eq!(name, "assistant");
    assert_eq!(system, "you are a helpful assistant.");
    cat.insert("Tutor".to_string(), Role { system: "tutor text".to_string() });
    cat.insert("Coder".to_string(), Role { system: "coder text".to_string() });
    let (name, system) = get_default_role(&cat);
    assert_eq!(name, "Tutor");
    assert_eq!(system, "tutor text");
}

#[test]
fn session_map_takes_and_puts_by_chat() {
    let mut m = SessionMap::new();
    assert!(!m.contains(7));
    assert!(m.take(7).is_none());
    m.put(7, fresh_session());
    m.put(8, Session::new("Tutor".to_string(), "tutor text"));
    assert!(m.contains(7));
    assert_eq!(m.len(), 2);
    let s = m.take(8).unwrap();
    assert_eq!(s.active_role(), "Tutor");
    assert!(!m.contains(8));
    m.put(8, s);
    assert!(m.contains(8));
}
