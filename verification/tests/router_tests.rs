use chatbot_core::callback::{
    build_role_choices, decode_callback, encode_callback, CallbackAction, ChoiceCommand,
};
use chatbot_core::catalog::{Role, RoleCatalog};
use chatbot_core::router::{
    apply_completion, clear_conversation, command_handler, do_delete_role, do_switch_role,
    handle_callback, handle_free_text, handle_message, just_for_test, list_roles,
    persist_failure_notice, Action, Command, CompletionKind,
};
use chatbot_core::session::{MsgRole, Session, State};

fn fresh_session() -> Session {
    Session::new("assistant".to_string(), "you are a helpful assistant.")
}

fn catalog_of(entries: &[(&str, &str)]) -> RoleCatalog {
    let mut cat = RoleCatalog::new();
    for (name, system) in entries {
        assert!(cat.insert(name.to_string(), Role { system: system.to_string() }));
    }
    cat
}

#[test]
fn switching_to_known_role_reseeds_history() {
    let roles = catalog_of(&[("Tutor", "tutor text"), ("Coder", "coder text")]);
    let mut s = fresh_session();
    s.append_user("hi");
    let action = do_switch_role(&mut s, &roles, "Coder");
    match action {
        Action::Edit { text, markdown } => {
            assert_eq!(text, "Switched to role *Coder*\\.");
            assert!(markdown);
        }
        _ => panic!("expected an edit"),
    }
    assert_eq!(s.history_len(), 1);
    assert_eq!(s.message_at(0).role, MsgRole::System);
    assert_eq!(s.message_at(0).content, "coder text");
    assert_eq!(s.active_role(), "Coder");
}

#[test]
fn switching_to_active_role_changes_nothing() {
    let roles = catalog_of(&[("Tutor", "tutor text")]);
    let mut s = Session::new("Tutor".to_string(), "tutor text");
    s.append_user("hi");
    s.append_assistant("hello");
    let action = do_switch_role(&mut s, &roles, "Tutor");
    match action {
        Action::Edit { text, markdown } => {
            assert_eq!(text, "I'm already this role.");
            assert!(!markdown);
        }
        _ => panic!("expected an edit"),
    }
    assert_eq!(s.history_len(), 3);
    assert_eq!(s.active_role(), "Tutor");
}

#[test]
fn switching_to_absent_role_changes_nothing() {
    let roles = catalog_of(&[("Tutor", "tutor text")]);
    let mut s = fresh_session();
    s.append_user("hi");
    let action = do_switch_role(&mut s, &roles, "Ghost");
    match action {
        Action::Reply { text, markdown } => {
            assert_eq!(text, "Role *Ghost* not found\\.");
            assert!(markdown);
        }
        _ => panic!("expected a reply"),
    }
    assert_eq!(s.history_len(), 2);
    assert_eq!(s.active_role(), "assistant");
}

#[test]
fn deleting_a_role_persists_the_rest() {
    let mut roles = catalog_of(&[("Tutor", "tutor text"), ("Coder", "coder text")]);
    let action = do_delete_role(&mut roles, "Tutor");
    match action {
        Action::SaveAndReply { encoded, reply, markdown } => {
            assert_eq!(encoded, "Coder\ncoder text\n");
            assert_eq!(reply, "Role *Tutor* deleted successfully\\.");
            assert!(markdown);
        }
        _ => panic!("expected a save"),
    }
    assert_eq!(roles.len(), 1);
    assert!(roles.get("Tutor").is_none());

    let action = do_delete_role(&mut roles, "Tutor");
    match action {
        Action::Reply { text, .. } => assert_eq!(text, "Role *Tutor* not found\\."),
        _ => panic!("expected a reply"),
    }
    assert_eq!(roles.len(), 1);
}

#[test]
fn clear_command_reports_and_truncates() {
    let mut s = fresh_session();
    s.append_user("hi");
    let action = clear_conversation(&mut s);
    match action {
        Action::Reply { text, markdown } => {
            assert_eq!(text, "Conversation history cleared, new session started.");
            assert!(!markdown);
        }
        _ => panic!("expected a reply"),
    }
    assert_eq!(s.history_len(), 1);
}

#[test]
fn listing_underlines_the_active_role() {
    let roles = catalog_of(&[("One", "first"), ("Two", "second")]);
    let action = list_roles(&roles, "Two");
    match action {
        Action::Reply { text, markdown } => {
            assert_eq!(text, "Roles:\n1\\. *One*: first\n2\\. __*Two*: second__");
            assert!(markdown);
        }
        _ => panic!("expected a reply"),
    }
}

#[test]
fn sample_message_is_fixed() {
    match just_for_test() {
        Action::Reply { text, markdown } => {
            assert!(text.starts_with("*bold \\*text*\n"));
            assert!(markdown);
        }
        _ => panic!("expected a reply"),
    }
}

#[test]
fn dialogue_flow_creates_and_activates_a_role() {
    let mut s = fresh_session();
    let mut roles = RoleCatalog::new();

    let action = handle_message(&mut s, &mut roles, Some("/new-role"));
    assert!(matches!(action, Action::Reply { .. }));
    assert!(matches!(s.dialogue(), State::AwaitingRoleName));

    let action = handle_message(&mut s, &mut roles, Some("Tutor"));
    assert!(matches!(action, Action::Reply { .. }));
    assert!(matches!(s.dialogue(), State::AwaitingRoleSystemText { .. }));

    let action = handle_message(&mut s, &mut roles, Some("You are a patient math tutor."));
    match action {
        Action::SaveAndReply { reply, .. } => {
            assert_eq!(
                reply,
                "Role *Tutor* added successfully\\. And now I'm Tutor"
            );
        }
        _ => panic!("expected a save"),
    }
    assert_eq!(roles.len(), 1);
    assert_eq!(roles.get("Tutor").unwrap().system, "You are a patient math tutor.");
    assert_eq!(s.active_role(), "Tutor");
    assert!(matches!(s.dialogue(), State::Idle));
    assert_eq!(s.history_len(), 1);
    assert_eq!(s.message_at(0).role, MsgRole::System);
    assert_eq!(s.message_at(0).content, "You are a patient math tutor.");
}

#[test]
fn dialogue_reprompts_on_missing_or_invalid_name() {
    let mut s = fresh_session();
    let mut roles = RoleCatalog::new();
    handle_message(&mut s, &mut roles, Some("/new-role"));

    let action = handle_message(&mut s, &mut roles, None);
    match action {
        Action::Reply { text, .. } => assert_eq!(text, "Please enter a valid role name."),
        _ => panic!("expected a reply"),
    }
    assert!(matches!(s.dialogue(), State::AwaitingRoleName));

    let action = handle_message(&mut s, &mut roles, Some("a name with spaces"));
    match action {
        Action::Reply { text, .. } => assert_eq!(text, "Please enter a valid role name."),
        _ => panic!("expected a reply"),
    }
    assert!(matches!(s.dialogue(), State::AwaitingRoleName));
}

#[test]
fn inline_role_creation_parses_name_and_persona() {
    let mut s = fresh_session();
    let mut roles = RoleCatalog::new();
    let action = handle_message(&mut s, &mut roles, Some("/new-role Tutor:You are a tutor."));
    assert!(matches!(action, Action::SaveAndReply { .. }));
    assert_eq!(roles.get("Tutor").unwrap().system, "You are a tutor.");
    assert_eq!(s.active_role(), "Tutor");

    let action = handle_message(&mut s, &mut roles, Some("/new-role no colon"));
    match action {
        Action::Reply { text, .. } => assert_eq!(text, "A new role needs the shape name:persona."),
        _ => panic!("expected a reply"),
    }
    assert_eq!(roles.len(), 1);
}

#[test]
fn callback_roundtrip_routes_to_the_delete_handler() {
    let roles = catalog_of(&[("One", "a"), ("Tutor", "b"), ("Three", "c")]);
    let choices = build_role_choices(&roles, ChoiceCommand::DeleteRole);
    assert_eq!(choices.len(), 3);
    assert_eq!(choices[1].label, "Tutor");
    let payload = &choices[1].payload;
    assert_eq!(payload, "delete-role Tutor");
    match decode_callback(payload) {
        CallbackAction::DeleteRole { role_name } => assert_eq!(role_name, "Tutor"),
        _ => panic!("expected a delete"),
    }

    let mut s = fresh_session();
    let mut roles = roles;
    let action = handle_callback(&mut s, &mut roles, payload);
    assert!(matches!(action, Action::SaveAndReply { .. }));
    assert!(roles.get("Tutor").is_none());
    assert_eq!(roles.len(), 2);
}

#[test]
fn unrecognized_callback_is_ignored() {
    assert!(matches!(decode_callback("nonsense"), CallbackAction::Unrecognized));
    assert!(matches!(decode_callback("other-tag Tutor"), CallbackAction::Unrecognized));
    let mut s = fresh_session();
    let mut roles = catalog_of(&[("Tutor", "b")]);
    let action = handle_callback(&mut s, &mut roles, "stale payload");
    assert!(matches!(action, Action::Silent));
    assert_eq!(roles.len(), 1);
    assert_eq!(s.history_len(), 1);
}

#[test]
fn callback_encoding_is_stable() {
    assert_eq!(encode_callback(ChoiceCommand::SwitchRole, "Tutor"), "switch-role Tutor");
    match decode_callback("switch-role Tutor") {
        CallbackAction::SwitchRole { role_name } => assert_eq!(role_name, "Tutor"),
        _ => panic!("expected a switch"),
    }
}

#[test]
fn free_text_requests_a_completion_over_the_whole_history() {
    let mut s = fresh_session();
    let action = handle_message(&mut s, &mut RoleCatalog::new(), Some("What is 2+2?"));
    match action {
        Action::Complete { request, kind } => {
            assert_eq!(kind, CompletionKind::Chat);
            assert_eq!(request.len(), 2);
            assert_eq!(request[0].role, MsgRole::System);
            assert_eq!(request[1].role, MsgRole::User);
            assert_eq!(request[1].content, "What is 2+2?");
        }
        _ => panic!("expected a completion request"),
    }
    assert_eq!(s.history_len(), 2);
}

#[test]
fn failed_completion_leaves_history_untouched() {
    let mut s = fresh_session();
    handle_free_text(&mut s, "question");
    assert_eq!(s.history_len(), 2);
    let action = apply_completion(&mut s, None);
    assert!(matches!(action, Action::Silent));
    assert_eq!(s.history_len(), 2);
    assert_eq!(s.message_at(1).content, "question");
}

#[test]
fn two_serialized_exchanges_keep_their_pairs_adjacent() {
    let mut s = fresh_session();
    handle_free_text(&mut s, "q1");
    apply_completion(&mut s, Some("a1"));
    handle_free_text(&mut s, "q2");
    apply_completion(&mut s, Some("a2"));
    assert_eq!(s.history_len(), 5);
    let expect = [
        (MsgRole::System, "you are a helpful assistant."),
        (MsgRole::User, "q1"),
        (MsgRole::Assistant, "a1"),
        (MsgRole::User, "q2"),
        (MsgRole::Assistant, "a2"),
    ];
    for (i, (role, content)) in expect.iter().enumerate() {
        assert_eq!(s.message_at(i).role, *role);
        assert_eq!(&s.message_at(i).content, content);
    }
}

#[test]
fn one_shot_commands_build_two_message_requests() {
    let mut s = fresh_session();
    let mut roles = RoleCatalog::new();
    let action = command_handler(
        &mut s,
        &mut roles,
        Command::Translate { args: "-lfr hello world".to_string() },
    );
    match action {
        Action::Complete { request, kind } => {
            assert_eq!(kind, CompletionKind::Direct);
            assert_eq!(request.len(), 2);
            assert_eq!(request[0].role, MsgRole::System);
            assert_eq!(request[0].content, "translate following text to fr");
            assert_eq!(request[1].content, "hello world");
        }
        _ => panic!("expected a completion request"),
    }
    assert_eq!(s.history_len(), 1);

    let action = command_handler(
        &mut s,
        &mut roles,
        Command::CheckGrammar { args: "He go home".to_string() },
    );
    match action {
        Action::Complete { request, .. } => {
            assert_eq!(
                request[0].content,
                "You are a language teacher, diagnose grammar problems for me and explain them to me in Chinese."
            );
            assert_eq!(request[1].content, "My input is: He go home");
        }
        _ => panic!("expected a completion request"),
    }

    let action = command_handler(
        &mut s,
        &mut roles,
        Command::VariableNamer { args: "a counter of retries".to_string() },
    );
    match action {
        Action::Complete { request, .. } => {
            assert_eq!(
                request[0].content,
                "Just give a variable name or method name based on the scene I ask you"
            );
            assert_eq!(request[1].content, "The scene is: a counter of retries");
        }
        _ => panic!("expected a completion request"),
    }
}

#[test]
fn assistant_reply_is_escaped_for_markup() {
    let mut s = fresh_session();
    handle_free_text(&mut s, "hi");
    let action = apply_completion(&mut s, Some("Sure! See (docs)."));
    match action {
        Action::Reply { text, markdown } => {
            assert_eq!(text, "Sure\\! See \\(docs\\)\\.");
            assert!(markdown);
        }
        _ => panic!("expected a reply"),
    }
    assert_eq!(s.message_at(2).content, "Sure! See (docs).");
}

#[test]
fn persist_failure_notice_is_fixed() {
    assert_eq!(
        persist_failure_notice(),
        "Could not save the roles; the change was rolled back."
    );
}

#[test]
fn mid_dialogue_commands_are_swallowed_as_text() {
    let mut s = fresh_session();
    let mut roles = RoleCatalog::new();
    handle_message(&mut s, &mut roles, Some("/new-role"));
    let action = handle_message(&mut s, &mut roles, Some("/clear"));
    assert!(matches!(action, Action::Reply { .. }));
    assert!(matches!(s.dialogue(), State::AwaitingRoleSystemText { .. }));
    let action = handle_message(&mut s, &mut roles, Some("persona text"));
    assert!(matches!(action, Action::SaveAndReply { .. }));
    assert_eq!(roles.get("/clear").unwrap().system, "persona text");
}

#[test]
fn interactive_switch_presents_all_roles_in_order() {
    let mut s = fresh_session();
    let mut roles = catalog_of(&[("One", "a"), ("Two", "b"), ("Three", "c")]);
    let action = handle_message(&mut s, &mut roles, Some("/switch-role"));
    match action {
        Action::Choices { prompt, choices } => {
            assert_eq!(prompt, "Choose a role from the list below:");
            let labels: Vec<&str> = choices.iter().map(|c| c.label.as_str()).collect();
            assert_eq!(labels, ["One", "Two", "Three"]);
            assert_eq!(choices[0].payload, "switch-role One");
        }
        _ => panic!("expected a choice list"),
    }
    let action = handle_message(&mut s, &mut roles, Some("/delete-role"));
    match action {
        Action::Choices { prompt, .. } => assert_eq!(prompt, "Choose a role to delete:"),
        _ => panic!("expected a choice list"),
    }
}

#[test]
fn deleting_the_active_role_leaves_a_dangling_label() {
    let mut roles = catalog_of(&[("Tutor", "tutor text"), ("Coder", "coder text")]);
    let mut s = Session::new("Tutor".to_string(), "tutor text");
    do_delete_role(&mut roles, "Tutor");
    assert_eq!(s.active_role(), "Tutor");
    // The label now dangles: switching back to it is handled as not-found
    // and the loaded history stays valid.
    let action = do_switch_role(&mut s, &roles, "Tutor");
    match action {
        Action::Reply { text, .. } => assert_eq!(text, "Role *Tutor* not found\\."),
        _ => panic!("expected a reply"),
    }
    assert_eq!(s.history_len(), 1);
    assert_eq!(s.message_at(0).content, "tutor text");
}

#[test]
fn explicit_switch_command_goes_through_the_router() {
    let mut s = fresh_session();
    let mut roles = catalog_of(&[("Tutor", "tutor text")]);
    let action = handle_message(&mut s, &mut roles, Some("/switch-role Tutor"));
    assert!(matches!(action, Action::Edit { .. }));
    assert_eq!(s.active_role(), "Tutor");
    assert_eq!(s.message_at(0).content, "tutor text");
}
