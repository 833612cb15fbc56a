//! The command router: classifies each inbound event as a slash-command,
//! free text, or a callback selection, and dispatches it to a handler that
//! mutates the session or the catalog and returns the outbound action the
//! driver must perform.
//!
//! Every handler is a pure state transition; the driver performs the
//! returned [`Action`] (send, edit, present choices, ask the completion
//! service, or persist the catalog) outside this crate.

use vstd::prelude::*;

verus! {

use vstd::pervasive::unreached;
use vstd::string::{StrSliceExecFns, StringExecFns};
use crate::callback::{
    build_role_choices, decode_callback, decode_spec, encode_spec, CallbackAction,
    CallbackActionView, Choice, ChoiceCommand, ChoiceView,
};
use crate::catalog::{Role, RoleCatalog};
use crate::escape::{escape_markdown_v2_reversed_chars, escape_seq};
use crate::options::{name_persona_split, opt_split, parse_name_and_persona};
use crate::requests::{
    check_grammar_request, grammar_system, grammar_user, naming_system, naming_user,
    naming_variable_request, translate_request, translate_system,
};
use crate::session::{
    msg_view, Message, MessageView, MsgRole, Session, SessionView, State, StateView,
};
use crate::store::{enc_entries, encode_catalog};
use crate::text::{dec_str, find_char, first_idx, has_char, push_char, str_eq, u64_to_string};

/// A recognized slash-command, with its raw argument text.
pub enum Command {
    Test,
    Clear,
    ListRoles,
    NewRole { args: String },
    DeleteRole { args: String },
    SwitchRole { args: String },
    Translate { args: String },
    VariableNamer { args: String },
    CheckGrammar { args: String },
}

/// The mathematical value of a [`Command`].
pub ghost enum CommandView {
    Test,
    Clear,
    ListRoles,
    NewRole { args: Seq<char> },
    DeleteRole { args: Seq<char> },
    SwitchRole { args: Seq<char> },
    Translate { args: Seq<char> },
    VariableNamer { args: Seq<char> },
    CheckGrammar { args: Seq<char> },
}

impl View for Command {
    type V = CommandView;

    open spec fn view(&self) -> CommandView {
        match self {
            Command::Test => CommandView::Test,
            Command::Clear => CommandView::Clear,
            Command::ListRoles => CommandView::ListRoles,
            Command::NewRole { args } => CommandView::NewRole { args: args@ },
            Command::DeleteRole { args } => CommandView::DeleteRole { args: args@ },
            Command::SwitchRole { args } => CommandView::SwitchRole { args: args@ },
            Command::Translate { args } => CommandView::Translate { args: args@ },
            Command::VariableNamer { args } => CommandView::VariableNamer { args: args@ },
            Command::CheckGrammar { args } => CommandView::CheckGrammar { args: args@ },
        }
    }
}

/// Whether a completion answer continues the conversation or is relayed as
/// a standalone reply.
#[derive(Clone, Copy, PartialEq, Eq, Structural, Debug)]
pub enum CompletionKind {
    /// The answer belongs to the conversation history.
    Chat,
    /// The answer is sent back on its own, leaving the history alone.
    Direct,
}

/// What the driver must do after a handler ran.
pub enum Action {
    /// Nothing: the event is tolerated and dropped.
    Silent,
    /// Send a message; `markdown` asks for the rich-text parse mode.
    Reply { text: String, markdown: bool },
    /// Edit the message that carried the selected choice.
    Edit { text: String, markdown: bool },
    /// Present a transient choice list.
    Choices { prompt: String, choices: Vec<Choice> },
    /// Ask the completion service with this request, then feed the answer
    /// back (see `apply_completion` for `Chat` requests).
    Complete { request: Vec<Message>, kind: CompletionKind },
    /// Write the encoded catalog to the store, then send the reply; on a
    /// write failure the driver restores the previous catalog and sends
    /// [`persist_failure_notice`] instead.
    SaveAndReply { encoded: String, reply: String, markdown: bool },
}

/// The mathematical value of an [`Action`].
pub ghost enum ActionView {
    Silent,
    Reply { text: Seq<char>, markdown: bool },
    Edit { text: Seq<char>, markdown: bool },
    Choices { prompt: Seq<char>, choices: Seq<ChoiceView> },
    Complete { request: Seq<MessageView>, kind: CompletionKind },
    SaveAndReply { encoded: Seq<char>, reply: Seq<char>, markdown: bool },
}

impl View for Action {
    type V = ActionView;

    open spec fn view(&self) -> ActionView {
        match self {
            Action::Silent => ActionView::Silent,
            Action::Reply { text, markdown } => ActionView::Reply {
                text: text@,
                markdown: *markdown,
            },
            Action::Edit { text, markdown } => ActionView::Edit {
                text: text@,
                markdown: *markdown,
            },
            Action::Choices { prompt, choices } => ActionView::Choices {
                prompt: prompt@,
                choices: choices@.map_values(|c: Choice| c@),
            },
            Action::Complete { request, kind } => ActionView::Complete {
                request: request@.map_values(|m: Message| m@),
                kind: *kind,
            },
            Action::SaveAndReply { encoded, reply, markdown } => ActionView::SaveAndReply {
                encoded: encoded@,
                reply: reply@,
                markdown: *markdown,
            },
        }
    }
}

/// The reading of an inbound text as a slash-command: `None` is free text.
/// A leading `/` starts a command; the name runs to the first space and the
/// rest is the raw argument text.  An unrecognized name is treated as free
/// text, as the transport's command filter would.
pub open spec fn classify_spec(text: Seq<char>) -> Option<CommandView> {
    if text.len() == 0 || text[0] != '/' {
        None
    } else {
        let body = text.skip(1);
        let i = first_idx(body, ' ');
        let name = body.take(i);
        let args = if i == body.len() {
            Seq::<char>::empty()
        } else {
            body.skip(i + 1)
        };
        if name == "test"@ {
            Some(CommandView::Test)
        } else if name == "clear"@ {
            Some(CommandView::Clear)
        } else if name == "list-roles"@ {
            Some(CommandView::ListRoles)
        } else if name == "new-role"@ {
            Some(CommandView::NewRole { args })
        } else if name == "delete-role"@ {
            Some(CommandView::DeleteRole { args })
        } else if name == "switch-role"@ {
            Some(CommandView::SwitchRole { args })
        } else if name == "translate"@ {
            Some(CommandView::Translate { args })
        } else if name == "naming"@ {
            Some(CommandView::VariableNamer { args })
        } else if name == "check-grammar"@ {
            Some(CommandView::CheckGrammar { args })
        } else {
            None
        }
    }
}

/// Classifies an inbound text: a recognized slash-command, or free text.
pub fn classify(text: &str) -> (r: Option<Command>)
    ensures
        r matches Some(c) ==> classify_spec(text@) == Some(c@),
        r is None ==> classify_spec(text@) is None,
{
    let n = text.unicode_len();
    if n == 0 {
        return None;
    }
    if text.get_char(0) != '/' {
        return None;
    }
    let body = text.substring_char(1, n);
    proof {
        assert(body@ =~= text@.skip(1));
        crate::text::lemma_first_idx(body@, ' ');
    }
    let (name, args) = match find_char(body, ' ') {
        None => (body.to_owned(), String::new()),
        Some(i) => {
            let m = body.unicode_len();
            let name = body.substring_char(0, i);
            let args = body.substring_char(i + 1, m);
            proof {
                assert(name@ =~= body@.take(i as int));
                assert(args@ =~= body@.skip(i + 1));
            }
            (name.to_owned(), args.to_owned())
        },
    };
    proof {
        let i = first_idx(text@.skip(1), ' ');
        if i == text@.skip(1).len() {
            assert(text@.skip(1).take(i) =~= text@.skip(1));
        }
    }
    if str_eq(name.as_str(), "test") {
        Some(Command::Test)
    } else if str_eq(name.as_str(), "clear") {
        Some(Command::Clear)
    } else if str_eq(name.as_str(), "list-roles") {
        Some(Command::ListRoles)
    } else if str_eq(name.as_str(), "new-role") {
        Some(Command::NewRole { args })
    } else if str_eq(name.as_str(), "delete-role") {
        Some(Command::DeleteRole { args })
    } else if str_eq(name.as_str(), "switch-role") {
        Some(Command::SwitchRole { args })
    } else if str_eq(name.as_str(), "translate") {
        Some(Command::Translate { args })
    } else if str_eq(name.as_str(), "naming") {
        Some(Command::VariableNamer { args })
    } else if str_eq(name.as_str(), "check-grammar") {
        Some(Command::CheckGrammar { args })
    } else {
        None
    }
}

/// The fixed formatting-capability sample that the `test` command emits.
pub open spec fn sample_text() -> Seq<char> {
    "*bold \\*text*\n_italic \\*text_\n__underline__\n~strikethrough~\n||spoiler||\n*bold _italic bold ~italic bold strikethrough ||italic bold strikethrough spoiler||~ __underline italic bold___ bold*\n[inline URL](http://www.example.com/)\n[inline mention of a user](tg://user?id=123456789)\n`inline fixed-width code`\n```\npre-formatted fixed-width code block\n```\n```python\npre-formatted fixed-width code block written in the Python programming language\n```"@
}

/// Emits the fixed formatting sample; no data operation.
pub fn just_for_test() -> (r: Action)
    ensures
        r@ == (ActionView::Reply { text: sample_text(), markdown: true }),
{
    Action::Reply {
        text: "*bold \\*text*\n_italic \\*text_\n__underline__\n~strikethrough~\n||spoiler||\n*bold _italic bold ~italic bold strikethrough ||italic bold strikethrough spoiler||~ __underline italic bold___ bold*\n[inline URL](http://www.example.com/)\n[inline mention of a user](tg://user?id=123456789)\n`inline fixed-width code`\n```\npre-formatted fixed-width code block\n```\n```python\npre-formatted fixed-width code block written in the Python programming language\n```".to_owned(),
        markdown: true,
    }
}

/// A message whose user-facing text wraps a role name: `prefix name suffix`,
/// escaped for the markup dialect.
fn spliced_reply(prefix: &str, name: &str, suffix: &str) -> (r: String)
    ensures
        r@ == escape_seq(prefix@ + name@ + suffix@),
{
    let mut t = prefix.to_owned();
    t.append(name);
    t.append(suffix);
    proof {
        assert(t@ =~= prefix@ + name@ + suffix@);
    }
    escape_markdown_v2_reversed_chars(t.as_str())
}

/// The confirmation sent after a successful role switch.
pub open spec fn switched_reply(name: Seq<char>) -> Seq<char> {
    escape_seq("Switched to role *"@ + name + "*."@)
}

/// The report sent when a named role is not in the catalog.
pub open spec fn not_found_reply(name: Seq<char>) -> Seq<char> {
    escape_seq("Role *"@ + name + "* not found."@)
}

/// The confirmation sent after a successful role deletion.
pub open spec fn deleted_reply(name: Seq<char>) -> Seq<char> {
    escape_seq("Role *"@ + name + "* deleted successfully."@)
}

/// The confirmation sent after a role was created and made active.
pub open spec fn added_reply(name: Seq<char>) -> Seq<char> {
    escape_seq("Role *"@ + name + "* added successfully. And now I'm "@ + name)
}

/// The hint sent when an entered role name is rejected.
pub open spec fn invalid_name_reply() -> Seq<char> {
    "Please enter a valid role name."@
}

/// The notice a driver sends when persisting the catalog failed and the
/// in-memory change was rolled back.
pub fn persist_failure_notice() -> (r: String)
    ensures
        r@ == "Could not save the roles; the change was rolled back."@,
{
    "Could not save the roles; the change was rolled back.".to_owned()
}

/// How a session changes under `clear`: the history is truncated to the
/// System message that was active immediately before, everything else stays.
pub open spec fn clear_step(s0: SessionView, s1: SessionView, a: ActionView) -> bool {
    &&& s1.history == seq![s0.history[0]]
    &&& s1.active_role == s0.active_role
    &&& s1.dialogue == s0.dialogue
    &&& a == (ActionView::Reply {
        text: "Conversation history cleared, new session started."@,
        markdown: false,
    })
}

/// How a session changes under `switch-role <name>`: a missing name and a
/// switch to the already-active role both leave the session unchanged, with
/// distinct responses; otherwise the history is reseeded from the named
/// role's persona and the active-role label is updated.
pub open spec fn switch_step(
    s0: SessionView,
    roles: RoleCatalog,
    name: Seq<char>,
    s1: SessionView,
    a: ActionView,
) -> bool {
    if !roles.contains_name(name) {
        &&& s1 == s0
        &&& a == (ActionView::Reply { text: not_found_reply(name), markdown: true })
    } else if s0.active_role == name {
        &&& s1 == s0
        &&& a == (ActionView::Edit { text: "I'm already this role."@, markdown: false })
    } else {
        &&& s1.history == seq![msg_view(MsgRole::System, roles.spec_role(name))]
        &&& s1.active_role == name
        &&& s1.dialogue == s0.dialogue
        &&& a == (ActionView::Edit { text: switched_reply(name), markdown: true })
    }
}

/// How the catalog changes under `delete-role <name>`: the named entry is
/// removed and the shrunken catalog is persisted, or nothing changes and a
/// not-found report goes back.
pub open spec fn delete_step(
    c0: RoleCatalog,
    name: Seq<char>,
    c1: Seq<(Seq<char>, Seq<char>)>,
    a: ActionView,
) -> bool {
    if c0.contains_name(name) {
        &&& c1 == c0@.remove(c0.name_index(name))
        &&& a == (ActionView::SaveAndReply {
            encoded: enc_entries(c1),
            reply: deleted_reply(name),
            markdown: true,
        })
    } else {
        &&& c1 == c0@
        &&& a == (ActionView::Reply { text: not_found_reply(name), markdown: true })
    }
}

/// The choice list presented for an interactive delete or switch: one choice
/// per catalog entry, in catalog order, labelled with the role name and
/// carrying the encoded command/name payload.
pub open spec fn choice_list_step(
    roles: RoleCatalog,
    cmd: ChoiceCommand,
    prompt: Seq<char>,
    a: ActionView,
) -> bool {
    &&& a matches ActionView::Choices { prompt: p, choices } && p == prompt && choices.len()
        == roles@.len() && forall|i: int|
        0 <= i < roles@.len() ==> (#[trigger] choices[i]).label == roles@[i].0
            && choices[i].payload == encode_spec(cmd, roles@[i].0)
}

/// How session and catalog change when a role is created: a space-free name
/// is recorded (overwriting in place, appending otherwise), persisted, and
/// made the active role over a fresh history; a name with a space is
/// rejected and nothing changes.
pub open spec fn create_step(
    s0: SessionView,
    c0: RoleCatalog,
    name: Seq<char>,
    persona: Seq<char>,
    s1: SessionView,
    c1: Seq<(Seq<char>, Seq<char>)>,
    a: ActionView,
) -> bool {
    if !has_char(name, ' ') {
        &&& c1 == if c0.contains_name(name) {
            c0@.update(c0.name_index(name), (name, persona))
        } else {
            c0@.push((name, persona))
        }
        &&& s1.history == seq![msg_view(MsgRole::System, persona)]
        &&& s1.active_role == name
        &&& s1.dialogue == StateView::Idle
        &&& a == (ActionView::SaveAndReply {
            encoded: enc_entries(c1),
            reply: added_reply(name),
            markdown: true,
        })
    } else {
        &&& s1 == s0
        &&& c1 == c0@
        &&& a == (ActionView::Reply { text: invalid_name_reply(), markdown: false })
    }
}

/// How a session changes on free text: the text joins the history as a User
/// message and the whole history is sent off for completion.
pub open spec fn free_text_step(
    s0: SessionView,
    text: Seq<char>,
    s1: SessionView,
    a: ActionView,
) -> bool {
    &&& s1.history == s0.history.push(msg_view(MsgRole::User, text))
    &&& s1.active_role == s0.active_role
    &&& s1.dialogue == s0.dialogue
    &&& a == (ActionView::Complete { request: s1.history, kind: CompletionKind::Chat })
}

/// How a session changes when a completion answer (or failure) comes back
/// for a conversation request: an answer joins the history as an Assistant
/// message and is relayed escaped; a failure leaves the session exactly as
/// it was and nothing is sent.
pub open spec fn completion_step(
    s0: SessionView,
    answer: Option<Seq<char>>,
    s1: SessionView,
    a: ActionView,
) -> bool {
    match answer {
        Some(ans) => {
            &&& s1.history == s0.history.push(msg_view(MsgRole::Assistant, ans))
            &&& s1.active_role == s0.active_role
            &&& s1.dialogue == s0.dialogue
            &&& a == (ActionView::Reply { text: escape_seq(ans), markdown: true })
        },
        None => s1 == s0 && a == ActionView::Silent,
    }
}

/// How a session changes while a role name is awaited: a space-free text
/// advances the dialogue and asks for the persona; anything else reprompts
/// and changes nothing.
pub open spec fn name_step(
    s0: SessionView,
    text: Option<Seq<char>>,
    s1: SessionView,
    a: ActionView,
) -> bool {
    &&& s1.history == s0.history
    &&& s1.active_role == s0.active_role
    &&& match text {
        Some(t) => if !has_char(t, ' ') {
            &&& s1.dialogue == (StateView::AwaitingRoleSystemText { role_name: t })
            &&& a == (ActionView::Reply {
                text: "Next, enter the description of the role. It will be used as a system for ChatGPT."@,
                markdown: false,
            })
        } else {
            &&& s1.dialogue == s0.dialogue
            &&& a == (ActionView::Reply { text: invalid_name_reply(), markdown: false })
        },
        None => {
            &&& s1.dialogue == s0.dialogue
            &&& a == (ActionView::Reply { text: invalid_name_reply(), markdown: false })
        },
    }
}

/// The role name held by a dialogue that awaits a persona text.
pub open spec fn awaited_role_name(st: StateView) -> Seq<char> {
    match st {
        StateView::AwaitingRoleSystemText { role_name } => role_name,
        _ => Seq::empty(),
    }
}

/// How session and catalog change while a persona text is awaited: a text
/// completes the creation of the awaited role; an event without text
/// reprompts and changes nothing.
pub open spec fn system_step(
    s0: SessionView,
    c0: RoleCatalog,
    text: Option<Seq<char>>,
    s1: SessionView,
    c1: Seq<(Seq<char>, Seq<char>)>,
    a: ActionView,
) -> bool {
    match text {
        Some(t) => create_step(s0, c0, awaited_role_name(s0.dialogue), t, s1, c1, a),
        None => {
            &&& s1 == s0
            &&& c1 == c0@
            &&& a == (ActionView::Reply {
                text: "Please enter a valid role system."@,
                markdown: false,
            })
        },
    }
}

/// Emits the fixed sample message and clears the history back to its System
/// message.
pub fn clear_conversation(session: &mut Session) -> (r: Action)
    requires
        old(session).wf(),
    ensures
        final(session).wf(),
        clear_step(old(session)@, final(session)@, r@),
{
    session.clear_to_system();
    Action::Reply {
        text: "Conversation history cleared, new session started.".to_owned(),
        markdown: false,
    }
}

/// Presents the interactive role-switch choice list.
pub fn switch_role(roles: &RoleCatalog) -> (r: Action)
    ensures
        choice_list_step(*roles, ChoiceCommand::SwitchRole, "Choose a role from the list below:"@, r@),
{
    Action::Choices {
        prompt: "Choose a role from the list below:".to_owned(),
        choices: build_role_choices(roles, ChoiceCommand::SwitchRole),
    }
}

/// Presents the interactive role-delete choice list.
pub fn delete_role(roles: &RoleCatalog) -> (r: Action)
    ensures
        choice_list_step(*roles, ChoiceCommand::DeleteRole, "Choose a role to delete:"@, r@),
{
    Action::Choices {
        prompt: "Choose a role to delete:".to_owned(),
        choices: build_role_choices(roles, ChoiceCommand::DeleteRole),
    }
}

/// Switches the session to the named role, as [`switch_step`] describes.
pub fn do_switch_role(session: &mut Session, roles: &RoleCatalog, role_name: &str) -> (r: Action)
    requires
        old(session).wf(),
        roles.wf(),
    ensures
        final(session).wf(),
        switch_step(old(session)@, *roles, role_name@, final(session)@, r@),
{
    match roles.get(role_name) {
        None => Action::Reply {
            text: spliced_reply("Role *", role_name, "* not found."),
            markdown: true,
        },
        Some(role) => {
            if str_eq(session.active_role().as_str(), role_name) {
                Action::Edit { text: "I'm already this role.".to_owned(), markdown: false }
            } else {
                let system = role.system.clone();
                session.set_active_role(role_name.to_owned(), system.as_str());
                Action::Edit {
                    text: spliced_reply("Switched to role *", role_name, "*."),
                    markdown: true,
                }
            }
        },
    }
}

/// Deletes the named role, as [`delete_step`] describes.
pub fn do_delete_role(roles: &mut RoleCatalog, role_name: &str) -> (r: Action)
    requires
        old(roles).wf(),
    ensures
        final(roles).wf(),
        delete_step(*old(roles), role_name@, final(roles)@, r@),
{
    if roles.remove(role_name) {
        let encoded = encode_catalog(roles);
        Action::SaveAndReply {
            encoded,
            reply: spliced_reply("Role *", role_name, "* deleted successfully."),
            markdown: true,
        }
    } else {
        Action::Reply { text: spliced_reply("Role *", role_name, "* not found."), markdown: true }
    }
}

/// Enters the interactive role-creation flow.
pub fn start_new_role_dialogue(session: &mut Session) -> (r: Action)
    ensures
        final(session)@.history == old(session)@.history,
        final(session)@.active_role == old(session)@.active_role,
        final(session)@.dialogue == StateView::AwaitingRoleName,
        r@ == (ActionView::Reply {
            text: "Let's start creating a role. Please tell me what is the name of the role?"@,
            markdown: false,
        }),
{
    session.set_dialogue(State::AwaitingRoleName);
    Action::Reply {
        text: "Let's start creating a role. Please tell me what is the name of the role?".to_owned(),
        markdown: false,
    }
}

/// Receives the role name of the creation flow, as [`name_step`] describes.
pub fn receive_new_role_name(session: &mut Session, text: Option<&str>) -> (r: Action)
    ensures
        name_step(old(session)@, match text {
            Some(t) => Some(t@),
            None => None,
        }, final(session)@, r@),
{
    match text {
        Some(t) => {
            if crate::text::contains_char(t, ' ') {
                Action::Reply { text: "Please enter a valid role name.".to_owned(), markdown: false }
            } else {
                session.set_dialogue(State::AwaitingRoleSystemText { role_name: t.to_owned() });
                Action::Reply {
                    text: "Next, enter the description of the role. It will be used as a system for ChatGPT.".to_owned(),
                    markdown: false,
                }
            }
        },
        None => Action::Reply {
            text: "Please enter a valid role name.".to_owned(),
            markdown: false,
        },
    }
}

/// Creates the role `name` with persona `persona`, persists the catalog and
/// makes the new role active, as [`create_step`] describes.
fn create_and_activate(
    session: &mut Session,
    roles: &mut RoleCatalog,
    name: &str,
    persona: &str,
) -> (r: Action)
    requires
        old(session).wf(),
        old(roles).wf(),
    ensures
        final(session).wf(),
        final(roles).wf(),
        create_step(old(session)@, *old(roles), name@, persona@, final(session)@, final(roles)@, r@),
{
    if !roles.insert(name.to_owned(), Role { system: persona.to_owned() }) {
        Action::Reply { text: "Please enter a valid role name.".to_owned(), markdown: false }
    } else {
        session.set_active_role(name.to_owned(), persona);
        session.set_dialogue(State::Idle);
        let encoded = encode_catalog(roles);
        Action::SaveAndReply {
            encoded,
            reply: added_role_reply(name),
            markdown: true,
        }
    }
}

/// The escaped confirmation for a newly created role, which names the role
/// twice.
fn added_role_reply(name: &str) -> (r: String)
    ensures
        r@ == added_reply(name@),
{
    let mut t = "Role *".to_owned();
    t.append(name);
    t.append("* added successfully. And now I'm ");
    t.append(name);
    proof {
        assert(t@ =~= "Role *"@ + name@ + "* added successfully. And now I'm "@ + name@);
    }
    escape_markdown_v2_reversed_chars(t.as_str())
}

/// Receives the persona text of the creation flow, as [`system_step`]
/// describes.
pub fn receive_new_role_system(
    session: &mut Session,
    roles: &mut RoleCatalog,
    text: Option<&str>,
) -> (r: Action)
    requires
        old(session).wf(),
        old(roles).wf(),
        old(session)@.dialogue matches StateView::AwaitingRoleSystemText { .. },
    ensures
        final(session).wf(),
        final(roles).wf(),
        system_step(old(session)@, *old(roles), match text {
            Some(t) => Some(t@),
            None => None,
        }, final(session)@, final(roles)@, r@),
{
    match text {
        Some(t) => {
            let st = session.dialogue().clone();
            match st {
                State::AwaitingRoleSystemText { role_name } => {
                    create_and_activate(session, roles, role_name.as_str(), t)
                },
                _ => unreached(),
            }
        },
        None => Action::Reply {
            text: "Please enter a valid role system.".to_owned(),
            markdown: false,
        },
    }
}

/// Appends the free text as a User message and hands back the full history
/// as a conversation completion request, as [`free_text_step`] describes.
pub fn handle_free_text(session: &mut Session, text: &str) -> (r: Action)
    requires
        old(session).wf(),
    ensures
        final(session).wf(),
        free_text_step(old(session)@, text@, final(session)@, r@),
{
    session.append_user(text);
    let request = session.snapshot();
    proof {
        assert(request@.map_values(|m: Message| m@) == crate::session::msgs_view(request@));
    }
    Action::Complete { request, kind: CompletionKind::Chat }
}

/// Feeds a conversation completion result back into the session, as
/// [`completion_step`] describes: on failure the history is left exactly as
/// it was, and no reply goes out.
pub fn apply_completion(session: &mut Session, answer: Option<&str>) -> (r: Action)
    requires
        old(session).wf(),
    ensures
        final(session).wf(),
        completion_step(old(session)@, match answer {
            Some(a) => Some(a@),
            None => None,
        }, final(session)@, r@),
{
    match answer {
        Some(a) => {
            session.append_assistant(a);
            Action::Reply { text: escape_markdown_v2_reversed_chars(a), markdown: true }
        },
        None => Action::Silent,
    }
}


/// The underline mark that distinguishes the active role in the listing.
pub open spec fn underline_mark(active: bool) -> Seq<char> {
    if active {
        "__"@
    } else {
        Seq::empty()
    }
}

/// One line of the role listing: a one-based index, then the name and the
/// persona text, underlined when the role is the active one.
pub open spec fn entry_line(idx: nat, name: Seq<char>, system: Seq<char>, active: bool) -> Seq<
    char,
> {
    dec_str(idx) + ". "@ + underline_mark(active) + "*"@ + name + "*: "@ + system
        + underline_mark(active)
}

/// The listing's lines, each preceded by a line break, numbered from
/// `base + 1`.
pub open spec fn roles_lines(
    v: Seq<(Seq<char>, Seq<char>)>,
    active: Seq<char>,
    base: nat,
) -> Seq<char>
    decreases v.len(),
{
    if v.len() == 0 {
        Seq::empty()
    } else {
        seq!['\n'] + entry_line(base + 1, v[0].0, v[0].1, v[0].0 == active) + roles_lines(
            v.skip(1),
            active,
            base + 1,
        )
    }
}

/// The whole role listing, before escaping.
pub open spec fn list_text(v: Seq<(Seq<char>, Seq<char>)>, active: Seq<char>) -> Seq<char> {
    "Roles:"@ + roles_lines(v, active, 0)
}

proof fn lemma_roles_lines_concat(
    u: Seq<(Seq<char>, Seq<char>)>,
    w: Seq<(Seq<char>, Seq<char>)>,
    active: Seq<char>,
    base: nat,
)
    ensures
        roles_lines(u + w, active, base) == roles_lines(u, active, base) + roles_lines(
            w,
            active,
            base + u.len(),
        ),
    decreases u.len(),
{
    if u.len() == 0 {
        assert(u + w =~= w);
        assert(roles_lines(u, active, base) + roles_lines(w, active, base + u.len())
            =~= roles_lines(w, active, base));
    } else {
        lemma_roles_lines_concat(u.skip(1), w, active, base + 1);
        assert((u + w).skip(1) =~= u.skip(1) + w);
        assert((u + w)[0] == u[0]);
        let h = seq!['\n'] + entry_line(base + 1, u[0].0, u[0].1, u[0].0 == active);
        assert(roles_lines(u + w, active, base) == h + (roles_lines(u.skip(1), active, base + 1)
            + roles_lines(w, active, base + 1 + u.skip(1).len())));
        assert(h + (roles_lines(u.skip(1), active, base + 1) + roles_lines(
            w,
            active,
            base + u.len(),
        )) =~= (h + roles_lines(u.skip(1), active, base + 1)) + roles_lines(
            w,
            active,
            base + u.len(),
        ));
    }
}

/// Renders the catalog listing with the active role underlined, escaped for
/// the markup dialect.
#[verifier::rlimit(60)]
pub fn list_roles(roles: &RoleCatalog, current_role: &str) -> (r: Action)
    ensures
        r@ == (ActionView::Reply {
            text: escape_seq(list_text(roles@, current_role@)),
            markdown: true,
        }),
{
    let n = roles.len();
    let mut acc = "Roles:".to_owned();
    let mut i: usize = 0;
    proof {
        assert(roles@.take(0) =~= Seq::<(Seq<char>, Seq<char>)>::empty());
        assert(acc@ =~= "Roles:"@ + roles_lines(roles@.take(0), current_role@, 0));
    }
    while i < n
        invariant
            n == roles@.len(),
            i <= n,
            acc@ == "Roles:"@ + roles_lines(roles@.take(i as int), current_role@, 0),
        decreases n - i,
    {
        let name = roles.name_at(i).clone();
        let system = roles.system_at(i).clone();
        let active = str_eq(name.as_str(), current_role);
        push_char(&mut acc, '\n');
        let num = u64_to_string(i as u64 + 1);
        acc.append(num.as_str());
        acc.append(". ");
        if active {
            acc.append("__");
        }
        acc.append("*");
        acc.append(name.as_str());
        acc.append("*: ");
        acc.append(system.as_str());
        if active {
            acc.append("__");
        }
        proof {
            let v = roles@;
            let e = v[i as int];
            lemma_roles_lines_concat(v.take(i as int), seq![e], current_role@, 0);
            assert(v.take(i + 1 as int) =~= v.take(i as int) + seq![e]);
            assert(seq![e].skip(1) =~= Seq::<(Seq<char>, Seq<char>)>::empty());
            assert(roles_lines(seq![e], current_role@, i as nat) == seq!['\n'] + entry_line(
                i as nat + 1,
                e.0,
                e.1,
                e.0 == current_role@,
            ) + roles_lines(seq![e].skip(1), current_role@, i as nat + 1));
            assert(acc@ =~= "Roles:"@ + roles_lines(v.take(i + 1 as int), current_role@, 0));
        }
        i = i + 1;
    }
    proof {
        assert(roles@.take(n as int) =~= roles@);
    }
    Action::Reply { text: escape_markdown_v2_reversed_chars(acc.as_str()), markdown: true }
}

/// How session and catalog change under each recognized command.
pub open spec fn command_step(
    s0: SessionView,
    c0: RoleCatalog,
    cmd: CommandView,
    s1: SessionView,
    c1: Seq<(Seq<char>, Seq<char>)>,
    a: ActionView,
) -> bool {
    match cmd {
        CommandView::Test => {
            &&& s1 == s0
            &&& c1 == c0@
            &&& a == (ActionView::Reply { text: sample_text(), markdown: true })
        },
        CommandView::Clear => c1 == c0@ && clear_step(s0, s1, a),
        CommandView::ListRoles => {
            &&& s1 == s0
            &&& c1 == c0@
            &&& a == (ActionView::Reply {
                text: escape_seq(list_text(c0@, s0.active_role)),
                markdown: true,
            })
        },
        CommandView::NewRole { args } => if args.len() == 0 {
            &&& s1.history == s0.history
            &&& s1.active_role == s0.active_role
            &&& s1.dialogue == StateView::AwaitingRoleName
            &&& c1 == c0@
            &&& a == (ActionView::Reply {
                text: "Let's start creating a role. Please tell me what is the name of the role?"@,
                markdown: false,
            })
        } else {
            match name_persona_split(args) {
                Some(p) => create_step(s0, c0, p.0, p.1, s1, c1, a),
                None => {
                    &&& s1 == s0
                    &&& c1 == c0@
                    &&& a == (ActionView::Reply {
                        text: "A new role needs the shape name:persona."@,
                        markdown: false,
                    })
                },
            }
        },
        CommandView::DeleteRole { args } => if args.len() == 0 {
            &&& s1 == s0
            &&& c1 == c0@
            &&& choice_list_step(c0, ChoiceCommand::DeleteRole, "Choose a role to delete:"@, a)
        } else {
            s1 == s0 && delete_step(c0, args, c1, a)
        },
        CommandView::SwitchRole { args } => if args.len() == 0 {
            &&& s1 == s0
            &&& c1 == c0@
            &&& choice_list_step(
                c0,
                ChoiceCommand::SwitchRole,
                "Choose a role from the list below:"@,
                a,
            )
        } else {
            c1 == c0@ && switch_step(s0, c0, args, s1, a)
        },
        CommandView::Translate { args } => {
            &&& s1 == s0
            &&& c1 == c0@
            &&& a == (ActionView::Complete {
                request: seq![
                    msg_view(MsgRole::System, translate_system(opt_split(args, "english"@, 'l').0)),
                    msg_view(MsgRole::User, opt_split(args, "english"@, 'l').1),
                ],
                kind: CompletionKind::Direct,
            })
        },
        CommandView::VariableNamer { args } => {
            &&& s1 == s0
            &&& c1 == c0@
            &&& a == (ActionView::Complete {
                request: seq![
                    msg_view(MsgRole::System, naming_system()),
                    msg_view(MsgRole::User, naming_user(args)),
                ],
                kind: CompletionKind::Direct,
            })
        },
        CommandView::CheckGrammar { args } => {
            &&& s1 == s0
            &&& c1 == c0@
            &&& a == (ActionView::Complete {
                request: seq![
                    msg_view(MsgRole::System, grammar_system(opt_split(args, "Chinese"@, 'l').0)),
                    msg_view(MsgRole::User, grammar_user(opt_split(args, "Chinese"@, 'l').1)),
                ],
                kind: CompletionKind::Direct,
            })
        },
    }
}

/// Dispatches one recognized command, as [`command_step`] describes.
pub fn command_handler(session: &mut Session, roles: &mut RoleCatalog, cmd: Command) -> (r: Action)
    requires
        old(session).wf(),
        old(roles).wf(),
    ensures
        final(session).wf(),
        final(roles).wf(),
        command_step(old(session)@, *old(roles), cmd@, final(session)@, final(roles)@, r@),
{
    match cmd {
        Command::Test => just_for_test(),
        Command::Clear => clear_conversation(session),
        Command::ListRoles => {
            let active = session.active_role().clone();
            list_roles(roles, active.as_str())
        },
        Command::NewRole { args } => {
            if args.as_str().is_empty() {
                start_new_role_dialogue(session)
            } else {
                match parse_name_and_persona(args.as_str()) {
                    Some(p) => create_and_activate(session, roles, p.0.as_str(), p.1.as_str()),
                    None => Action::Reply {
                        text: "A new role needs the shape name:persona.".to_owned(),
                        markdown: false,
                    },
                }
            }
        },
        Command::DeleteRole { args } => {
            if args.as_str().is_empty() {
                delete_role(roles)
            } else {
                do_delete_role(roles, args.as_str())
            }
        },
        Command::SwitchRole { args } => {
            if args.as_str().is_empty() {
                switch_role(roles)
            } else {
                do_switch_role(session, roles, args.as_str())
            }
        },
        Command::Translate { args } => Action::Complete {
            request: translate_request(args),
            kind: CompletionKind::Direct,
        },
        Command::VariableNamer { args } => Action::Complete {
            request: naming_variable_request(args),
            kind: CompletionKind::Direct,
        },
        Command::CheckGrammar { args } => Action::Complete {
            request: check_grammar_request(args),
            kind: CompletionKind::Direct,
        },
    }
}

/// How session and catalog change on one inbound message event: while a
/// dialogue is in progress its state-specific handler takes priority, so a
/// command typed mid-dialogue is consumed as plain input to that state;
/// otherwise a recognized command is dispatched and anything else is free
/// text.
pub open spec fn message_step(
    s0: SessionView,
    c0: RoleCatalog,
    text: Option<Seq<char>>,
    s1: SessionView,
    c1: Seq<(Seq<char>, Seq<char>)>,
    a: ActionView,
) -> bool {
    match s0.dialogue {
        StateView::AwaitingRoleName => c1 == c0@ && name_step(s0, text, s1, a),
        StateView::AwaitingRoleSystemText { .. } => system_step(s0, c0, text, s1, c1, a),
        StateView::Idle => match text {
            None => s1 == s0 && c1 == c0@ && a == ActionView::Silent,
            Some(t) => match classify_spec(t) {
                Some(cmd) => command_step(s0, c0, cmd, s1, c1, a),
                None => c1 == c0@ && free_text_step(s0, t, s1, a),
            },
        },
    }
}

/// Routes one inbound message event, as [`message_step`] describes.
pub fn handle_message(session: &mut Session, roles: &mut RoleCatalog, text: Option<&str>) -> (r:
    Action)
    requires
        old(session).wf(),
        old(roles).wf(),
    ensures
        final(session).wf(),
        final(roles).wf(),
        message_step(old(session)@, *old(roles), match text {
            Some(t) => Some(t@),
            None => None,
        }, final(session)@, final(roles)@, r@),
{
    let st = session.dialogue().clone();
    match st {
        State::AwaitingRoleName => receive_new_role_name(session, text),
        State::AwaitingRoleSystemText { .. } => receive_new_role_system(session, roles, text),
        State::Idle => match text {
            None => Action::Silent,
            Some(t) => match classify(t) {
                Some(cmd) => command_handler(session, roles, cmd),
                None => handle_free_text(session, t),
            },
        },
    }
}

/// How session and catalog change on one callback selection: the payload is
/// decoded totally and routed; an unrecognized or stale payload is ignored
/// without any report.
pub open spec fn callback_step(
    s0: SessionView,
    c0: RoleCatalog,
    payload: Seq<char>,
    s1: SessionView,
    c1: Seq<(Seq<char>, Seq<char>)>,
    a: ActionView,
) -> bool {
    match decode_spec(payload) {
        CallbackActionView::DeleteRole { role_name } => s1 == s0 && delete_step(
            c0,
            role_name,
            c1,
            a,
        ),
        CallbackActionView::SwitchRole { role_name } => c1 == c0@ && switch_step(
            s0,
            c0,
            role_name,
            s1,
            a,
        ),
        CallbackActionView::Unrecognized => s1 == s0 && c1 == c0@ && a == ActionView::Silent,
    }
}

/// Routes one callback selection, as [`callback_step`] describes.
pub fn handle_callback(session: &mut Session, roles: &mut RoleCatalog, payload: &str) -> (r:
    Action)
    requires
        old(session).wf(),
        old(roles).wf(),
    ensures
        final(session).wf(),
        final(roles).wf(),
        callback_step(old(session)@, *old(roles), payload@, final(session)@, final(roles)@, r@),
{
    match decode_callback(payload) {
        CallbackAction::DeleteRole { role_name } => do_delete_role(roles, role_name.as_str()),
        CallbackAction::SwitchRole { role_name } => do_switch_role(
            session,
            roles,
            role_name.as_str(),
        ),
        CallbackAction::Unrecognized => Action::Silent,
    }
}

/// Serializing two text exchanges on one chat (each: the free text handled,
/// then its successful completion applied) leaves a history in which each
/// user message is immediately followed by its own assistant reply; handlers
/// that run one at a time under the chat's lock can never interleave the
/// pairs.
pub proof fn lemma_serialized_exchanges_do_not_interleave(
    s0: SessionView,
    s1: SessionView,
    s2: SessionView,
    s3: SessionView,
    s4: SessionView,
    t1: Seq<char>,
    a1: Seq<char>,
    t2: Seq<char>,
    a2: Seq<char>,
    r1: ActionView,
    r2: ActionView,
    r3: ActionView,
    r4: ActionView,
)
    requires
        free_text_step(s0, t1, s1, r1),
        completion_step(s1, Some(a1), s2, r2),
        free_text_step(s2, t2, s3, r3),
        completion_step(s3, Some(a2), s4, r4),
    ensures
        s4.history == s0.history + seq![
            msg_view(MsgRole::User, t1),
            msg_view(MsgRole::Assistant, a1),
            msg_view(MsgRole::User, t2),
            msg_view(MsgRole::Assistant, a2),
        ],
        s4.history[s0.history.len() as int] == msg_view(MsgRole::User, t1),
        s4.history[s0.history.len() as int + 1] == msg_view(MsgRole::Assistant, a1),
        s4.history[s0.history.len() as int + 2] == msg_view(MsgRole::User, t2),
        s4.history[s0.history.len() as int + 3] == msg_view(MsgRole::Assistant, a2),
{
    assert(s4.history =~= s0.history + seq![
        msg_view(MsgRole::User, t1),
        msg_view(MsgRole::Assistant, a1),
        msg_view(MsgRole::User, t2),
        msg_view(MsgRole::Assistant, a2),
    ]);
}

} // verus!
