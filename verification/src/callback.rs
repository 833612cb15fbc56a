//! The callback-payload protocol.
//!
//! When the router presents a transient list of choices (pick a role to
//! delete or to switch to), every choice carries an opaque payload of the
//! shape `<tag> <role-name>`, where the tag names the router action that
//! must run when the choice is selected.  Decoding is total: a payload whose
//! tag is not in the known set is reported as unrecognized, never as an
//! error.

use vstd::prelude::*;

verus! {

use vstd::string::{StrSliceExecFns, StringExecFns};
use crate::catalog::RoleCatalog;
use crate::text::{find_char, first_idx, lemma_first_idx, push_char, str_eq};

/// The commands that may stand behind a choice list.
#[derive(Clone, Copy, PartialEq, Eq, Structural, Debug)]
pub enum ChoiceCommand {
    DeleteRole,
    SwitchRole,
}

/// The serialized tag of a choice command.
pub open spec fn tag_str(cmd: ChoiceCommand) -> Seq<char> {
    match cmd {
        ChoiceCommand::DeleteRole => "delete-role"@,
        ChoiceCommand::SwitchRole => "switch-role"@,
    }
}

/// The payload encoding a command together with its role-name argument.
pub open spec fn encode_spec(cmd: ChoiceCommand, role_name: Seq<char>) -> Seq<char> {
    tag_str(cmd) + seq![' '] + role_name
}

/// The decoded meaning of a callback payload.
pub enum CallbackAction {
    DeleteRole { role_name: String },
    SwitchRole { role_name: String },
    Unrecognized,
}

/// The mathematical value of a [`CallbackAction`].
pub ghost enum CallbackActionView {
    DeleteRole { role_name: Seq<char> },
    SwitchRole { role_name: Seq<char> },
    Unrecognized,
}

impl View for CallbackAction {
    type V = CallbackActionView;

    open spec fn view(&self) -> CallbackActionView {
        match self {
            CallbackAction::DeleteRole { role_name } => CallbackActionView::DeleteRole {
                role_name: role_name@,
            },
            CallbackAction::SwitchRole { role_name } => CallbackActionView::SwitchRole {
                role_name: role_name@,
            },
            CallbackAction::Unrecognized => CallbackActionView::Unrecognized,
        }
    }
}

/// The total reading of a payload: split on the first space, match the tag,
/// and hand the remainder over as the role name.
pub open spec fn decode_spec(s: Seq<char>) -> CallbackActionView {
    let i = first_idx(s, ' ');
    if i == s.len() {
        CallbackActionView::Unrecognized
    } else {
        let tag = s.take(i);
        let role_name = s.skip(i + 1);
        if tag == "delete-role"@ {
            CallbackActionView::DeleteRole { role_name }
        } else if tag == "switch-role"@ {
            CallbackActionView::SwitchRole { role_name }
        } else {
            CallbackActionView::Unrecognized
        }
    }
}

fn tag_of(cmd: ChoiceCommand) -> (r: String)
    ensures
        r@ == tag_str(cmd),
{
    match cmd {
        ChoiceCommand::DeleteRole => "delete-role".to_owned(),
        ChoiceCommand::SwitchRole => "switch-role".to_owned(),
    }
}

/// Builds the payload for one choice.
pub fn encode_callback(cmd: ChoiceCommand, role_name: &str) -> (r: String)
    ensures
        r@ == encode_spec(cmd, role_name@),
{
    let mut out = tag_of(cmd);
    push_char(&mut out, ' ');
    out.append(role_name);
    proof {
        assert(out@ =~= encode_spec(cmd, role_name@));
    }
    out
}

/// Reads a payload back.  Total: never fails, and reports an unknown or
/// spaceless payload as `Unrecognized`.
pub fn decode_callback(payload: &str) -> (r: CallbackAction)
    ensures
        r@ == decode_spec(payload@),
{
    proof {
        lemma_first_idx(payload@, ' ');
    }
    match find_char(payload, ' ') {
        None => CallbackAction::Unrecognized,
        Some(i) => {
            let n = payload.unicode_len();
            let tag = payload.substring_char(0, i);
            let role_name = payload.substring_char(i + 1, n);
            proof {
                assert(tag@ =~= payload@.take(i as int));
                assert(role_name@ =~= payload@.skip(i + 1));
            }
            if str_eq(tag, "delete-role") {
                CallbackAction::DeleteRole { role_name: role_name.to_owned() }
            } else if str_eq(tag, "switch-role") {
                CallbackAction::SwitchRole { role_name: role_name.to_owned() }
            } else {
                CallbackAction::Unrecognized
            }
        },
    }
}

/// Decoding an encoded choice always yields the encoded command and role
/// name, whatever the role name holds and however many other choices were
/// listed alongside it.
pub proof fn lemma_callback_roundtrip(cmd: ChoiceCommand, role_name: Seq<char>)
    ensures
        decode_spec(encode_spec(cmd, role_name)) == (match cmd {
            ChoiceCommand::DeleteRole => CallbackActionView::DeleteRole { role_name },
            ChoiceCommand::SwitchRole => CallbackActionView::SwitchRole { role_name },
        }),
{
    reveal_strlit("delete-role");
    reveal_strlit("switch-role");
    let tag = tag_str(cmd);
    let s = encode_spec(cmd, role_name);
    assert(tag.len() == 11);
    assert(s[tag.len() as int] == ' ');
    assert forall|k: int| 0 <= k < tag.len() implies s[k] != ' ' by {
        assert(s[k] == tag[k]);
    }
    lemma_first_idx(s, ' ');
    let i = first_idx(s, ' ');
    assert(i == tag.len());
    assert(s.take(i) =~= tag);
    assert(s.skip(i + 1) =~= role_name);
    match cmd {
        ChoiceCommand::DeleteRole => {
            assert(s.take(i) == "delete-role"@);
        },
        ChoiceCommand::SwitchRole => {
            assert("switch-role"@[0] != "delete-role"@[0]);
            assert(s.take(i) == "switch-role"@);
        },
    }
}

/// One entry of a transient choice list: the label shown to the user and
/// the opaque payload delivered back on selection.
pub struct Choice {
    pub label: String,
    pub payload: String,
}

/// The mathematical value of a [`Choice`].
pub ghost struct ChoiceView {
    pub label: Seq<char>,
    pub payload: Seq<char>,
}

impl View for Choice {
    type V = ChoiceView;

    open spec fn view(&self) -> ChoiceView {
        ChoiceView { label: self.label@, payload: self.payload@ }
    }
}

/// Builds one choice per catalog entry, in catalog order: the role name as
/// the label, and the encoded command/name pair as the payload.
pub fn build_role_choices(roles: &RoleCatalog, cmd: ChoiceCommand) -> (r: Vec<Choice>)
    ensures
        r@.len() == roles@.len(),
        forall|i: int|
            0 <= i < r@.len() ==> (#[trigger] r@[i])@.label == roles@[i].0 && r@[i]@.payload
                == encode_spec(cmd, roles@[i].0),
{
    let n = roles.len();
    let mut r: Vec<Choice> = Vec::new();
    let mut i: usize = 0;
    while i < n
        invariant
            n == roles@.len(),
            i <= n,
            r@.len() == i,
            forall|j: int|
                0 <= j < i ==> (#[trigger] r@[j])@.label == roles@[j].0 && r@[j]@.payload
                    == encode_spec(cmd, roles@[j].0),
        decreases n - i,
    {
        let name = roles.name_at(i);
        let payload = encode_callback(cmd, name.as_str());
        r.push(Choice { label: name.clone(), payload });
        i = i + 1;
    }
    r
}

} // verus!
