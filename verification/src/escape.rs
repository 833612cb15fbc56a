//! Escaping of user-supplied text for the transport's rich-text markup
//! dialect: every reserved character is preceded by a backslash.

use vstd::prelude::*;

verus! {

use vstd::string::StrSliceExecFns;
use crate::text::push_char;

/// The characters that the markup dialect reserves and that must be escaped
/// wherever they occur in data-derived content.
pub open spec fn is_reserved_char(c: char) -> bool {
    ||| c == '['
    ||| c == ']'
    ||| c == '('
    ||| c == ')'
    ||| c == '~'
    ||| c == '>'
    ||| c == '#'
    ||| c == '+'
    ||| c == '-'
    ||| c == '='
    ||| c == '|'
    ||| c == '{'
    ||| c == '}'
    ||| c == '.'
    ||| c == '!'
}

/// `s` with a backslash inserted before every reserved character.
pub open spec fn escape_seq(s: Seq<char>) -> Seq<char>
    decreases s.len(),
{
    if s.len() == 0 {
        Seq::empty()
    } else {
        escape_seq(s.drop_last()) + (if is_reserved_char(s.last()) {
            seq!['\\', s.last()]
        } else {
            seq![s.last()]
        })
    }
}

fn reserved(c: char) -> (r: bool)
    ensures
        r == is_reserved_char(c),
{
    match c {
        '[' | ']' | '(' | ')' | '~' | '>' | '#' | '+' | '-' | '=' | '|' | '{' | '}' | '.'
        | '!' => true,
        _ => false,
    }
}

/// Escapes every reserved markup character in `input` with a preceding
/// backslash, leaving all other characters as they are.
pub fn escape_markdown_v2_reversed_chars(input: &str) -> (output: String)
    ensures
        output@ == escape_seq(input@),
{
    let n = input.unicode_len();
    let mut output = String::new();
    let mut i: usize = 0;
    while i < n
        invariant
            n == input@.len(),
            i <= n,
            output@ == escape_seq(input@.take(i as int)),
        decreases n - i,
    {
        let c = input.get_char(i);
        if reserved(c) {
            push_char(&mut output, '\\');
        }
        push_char(&mut output, c);
        proof {
            let t = input@.take(i + 1 as int);
            assert(t.drop_last() =~= input@.take(i as int));
            assert(t.last() == input@[i as int]);
        }
        i = i + 1;
    }
    proof {
        assert(input@.take(n as int) =~= input@);
    }
    output
}

} // verus!
