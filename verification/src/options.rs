//! Parsing of command arguments: the optional leading option flag (such as a
//! target language) and the `name:persona` shape used by inline role
//! creation.

use vstd::prelude::*;

verus! {

use vstd::string::StrSliceExecFns;
use crate::text::{find_char, first_idx, lemma_first_idx};

/// The result of splitting an input on its optional leading `-<flag>` token:
/// the chosen option value and the payload text.
///
/// The input is split on the first space.  If there is no space at all, the
/// default option value is used and the whole input is the payload.  If the
/// first token is `-<flag><value>` with a non-empty `<value>`, that value is
/// the option and the rest of the input is the payload; with an empty
/// `<value>` the default is used instead.  Any other first token leaves the
/// whole input (first token included) as the payload.
pub open spec fn opt_split(s: Seq<char>, default: Seq<char>, flag: char) -> (Seq<char>, Seq<
    char,
>) {
    let i = first_idx(s, ' ');
    if i == s.len() {
        (default, s)
    } else {
        let head = s.take(i);
        let tail = s.skip(i + 1);
        if head.len() >= 2 && head[0] == '-' && head[1] == flag {
            let value = head.skip(2);
            if value.len() == 0 {
                (default, tail)
            } else {
                (value, tail)
            }
        } else {
            (default, s)
        }
    }
}

/// Splits `user_input` into an option value and a payload as [`opt_split`]
/// describes, using `default` when no `-<option_flag>` value is given.
pub fn split_options_and_body(user_input: String, default: String, option_flag: char) -> (r: (
    String,
    String,
))
    ensures
        r.0@ == opt_split(user_input@, default@, option_flag).0,
        r.1@ == opt_split(user_input@, default@, option_flag).1,
{
    let s = user_input.as_str();
    match find_char(s, ' ') {
        None => (default, user_input),
        Some(i) => {
            let n = s.unicode_len();
            let head = s.substring_char(0, i);
            let tail = s.substring_char(i + 1, n);
            proof {
                assert(head@ =~= user_input@.take(i as int));
                assert(tail@ =~= user_input@.skip(i + 1 as int));
            }
            let head_len = head.unicode_len();
            if head_len >= 2 && head.get_char(0) == '-' && head.get_char(1) == option_flag {
                let value = head.substring_char(2, head_len);
                proof {
                    assert(value@ =~= head@.skip(2));
                }
                if value.unicode_len() == 0 {
                    (default, tail.to_owned())
                } else {
                    (value.to_owned(), tail.to_owned())
                }
            } else {
                (default, user_input)
            }
        },
    }
}

/// Splits `user_input` into a target language and a payload, defaulting to
/// `english` when no `-l<lang>` option is present.
pub fn get_lang_and_text(user_input: String) -> (r: (String, String))
    ensures
        r.0@ == opt_split(user_input@, "english"@, 'l').0,
        r.1@ == opt_split(user_input@, "english"@, 'l').1,
{
    split_options_and_body(user_input, "english".to_owned(), 'l')
}

/// The `name:persona` reading of an inline role-creation argument: the parts
/// before and after the first colon, or `None` when the argument has no
/// colon at all.
pub open spec fn name_persona_split(s: Seq<char>) -> Option<(Seq<char>, Seq<char>)> {
    let i = first_idx(s, ':');
    if i == s.len() {
        None
    } else {
        Some((s.take(i), s.skip(i + 1)))
    }
}

/// Parses an inline role-creation argument of the shape `name:persona`,
/// splitting on the first colon.  Returns `None` when the colon is missing,
/// which callers report as a usage hint.
pub fn parse_name_and_persona(arg: &str) -> (r: Option<(String, String)>)
    ensures
        r matches Some(p) ==> name_persona_split(arg@) == Some((p.0@, p.1@)),
        r is None ==> name_persona_split(arg@) is None,
{
    match find_char(arg, ':') {
        None => None,
        Some(i) => {
            let n = arg.unicode_len();
            let name = arg.substring_char(0, i);
            let persona = arg.substring_char(i + 1, n);
            proof {
                lemma_first_idx(arg@, ':');
                assert(name@ =~= arg@.take(i as int));
                assert(persona@ =~= arg@.skip(i + 1 as int));
            }
            Some((name.to_owned(), persona.to_owned()))
        },
    }
}

} // verus!
