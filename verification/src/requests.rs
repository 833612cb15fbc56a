//! Builders for the one-shot completion requests behind the translation,
//! variable-naming and grammar-check commands: each is a fixed system
//! instruction plus the user payload, independent of the conversation
//! history.

use vstd::prelude::*;

verus! {

use vstd::string::StringExecFns;
use crate::options::{get_lang_and_text, opt_split, split_options_and_body};
use crate::session::{mk_message, msg_view, msgs_view, Message, MsgRole};

/// The system instruction of a translation request.
pub open spec fn translate_system(lang: Seq<char>) -> Seq<char> {
    "translate following text to "@ + lang
}

/// The system instruction of a grammar-check request.
pub open spec fn grammar_system(lang: Seq<char>) -> Seq<char> {
    "You are a language teacher, diagnose grammar problems for me and explain them to me in "@
        + lang + "."@
}

/// The user payload of a grammar-check request.
pub open spec fn grammar_user(text: Seq<char>) -> Seq<char> {
    "My input is: "@ + text
}

/// The system instruction of a variable-naming request.
pub open spec fn naming_system() -> Seq<char> {
    "Just give a variable name or method name based on the scene I ask you"@
}

/// The user payload of a variable-naming request.
pub open spec fn naming_user(scene: Seq<char>) -> Seq<char> {
    "The scene is: "@ + scene
}

/// The request sent for `translate`: the target language is read from an
/// optional `-l<lang>` prefix, defaulting to `english`.
pub fn translate_request(user_input: String) -> (r: Vec<Message>)
    ensures
        msgs_view(r@) == seq![
            msg_view(MsgRole::System, translate_system(opt_split(user_input@, "english"@, 'l').0)),
            msg_view(MsgRole::User, opt_split(user_input@, "english"@, 'l').1),
        ],
{
    let ghost input = user_input@;
    let (lang, text) = get_lang_and_text(user_input);
    let mut system = "translate following text to ".to_owned();
    system.append(lang.as_str());
    let mut r: Vec<Message> = Vec::new();
    r.push(mk_message(MsgRole::System, system.as_str()));
    r.push(mk_message(MsgRole::User, text.as_str()));
    proof {
        assert(msgs_view(r@) =~= seq![
            msg_view(MsgRole::System, translate_system(opt_split(input, "english"@, 'l').0)),
            msg_view(MsgRole::User, opt_split(input, "english"@, 'l').1),
        ]);
    }
    r
}

/// The request sent for `check-grammar`: the explanation language is read
/// from an optional `-l<lang>` prefix, defaulting to `Chinese`.
pub fn check_grammar_request(user_input: String) -> (r: Vec<Message>)
    ensures
        msgs_view(r@) == seq![
            msg_view(MsgRole::System, grammar_system(opt_split(user_input@, "Chinese"@, 'l').0)),
            msg_view(MsgRole::User, grammar_user(opt_split(user_input@, "Chinese"@, 'l').1)),
        ],
{
    let ghost input = user_input@;
    let (lang, text) = split_options_and_body(user_input, "Chinese".to_owned(), 'l');
    let mut system =
        "You are a language teacher, diagnose grammar problems for me and explain them to me in ".to_owned();
    system.append(lang.as_str());
    system.append(".");
    let mut user = "My input is: ".to_owned();
    user.append(text.as_str());
    let mut r: Vec<Message> = Vec::new();
    r.push(mk_message(MsgRole::System, system.as_str()));
    r.push(mk_message(MsgRole::User, user.as_str()));
    proof {
        assert(msgs_view(r@) =~= seq![
            msg_view(MsgRole::System, grammar_system(opt_split(input, "Chinese"@, 'l').0)),
            msg_view(MsgRole::User, grammar_user(opt_split(input, "Chinese"@, 'l').1)),
        ]);
    }
    r
}

/// The request sent for `naming`: the whole argument is the described scene.
pub fn naming_variable_request(scene: String) -> (r: Vec<Message>)
    ensures
        msgs_view(r@) == seq![
            msg_view(MsgRole::System, naming_system()),
            msg_view(MsgRole::User, naming_user(scene@)),
        ],
{
    let ghost input = scene@;
    let mut user = "The scene is: ".to_owned();
    user.append(scene.as_str());
    let mut r: Vec<Message> = Vec::new();
    r.push(
        mk_message(
            MsgRole::System,
            "Just give a variable name or method name based on the scene I ask you",
        ),
    );
    r.push(mk_message(MsgRole::User, user.as_str()));
    proof {
        assert(msgs_view(r@) =~= seq![
            msg_view(MsgRole::System, naming_system()),
            msg_view(MsgRole::User, naming_user(input)),
        ]);
    }
    r
}

} // verus!
