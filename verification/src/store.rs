//! The textual form in which the role catalog is persisted.
//!
//! Each catalog entry becomes two lines: the escaped role name and the
//! escaped persona text.  Escaping replaces a backslash by two backslashes
//! and a line break by `\n`, so a line never contains a raw line break and
//! decoding is the exact inverse of encoding.  The unverified store reads
//! and writes the encoded text as a whole; this module owns the format.

use vstd::prelude::*;

verus! {

use vstd::string::{StrSliceExecFns, StringExecFns};
use crate::catalog::{catalog_wf, Role, RoleCatalog};
use crate::text::{find_char, first_idx, has_char, lemma_first_idx, push_char};

/// One escaped character.
pub open spec fn esc_char(c: char) -> Seq<char> {
    if c == '\\' {
        seq!['\\', '\\']
    } else if c == '\n' {
        seq!['\\', 'n']
    } else {
        seq![c]
    }
}

/// A text with backslashes and line breaks escaped.
pub open spec fn esc(s: Seq<char>) -> Seq<char>
    decreases s.len(),
{
    if s.len() == 0 {
        Seq::empty()
    } else {
        esc_char(s[0]) + esc(s.skip(1))
    }
}

/// The inverse of [`esc`]: `None` when the text ends in a dangling
/// backslash, uses an unknown escape, or contains a raw line break.
pub open spec fn unesc(s: Seq<char>) -> Option<Seq<char>>
    decreases s.len(),
{
    if s.len() == 0 {
        Some(Seq::empty())
    } else if s[0] == '\\' {
        if s.len() >= 2 && s[1] == '\\' {
            match unesc(s.skip(2)) {
                Some(r) => Some(seq!['\\'] + r),
                None => None,
            }
        } else if s.len() >= 2 && s[1] == 'n' {
            match unesc(s.skip(2)) {
                Some(r) => Some(seq!['\n'] + r),
                None => None,
            }
        } else {
            None
        }
    } else if s[0] == '\n' {
        None
    } else {
        match unesc(s.skip(1)) {
            Some(r) => Some(seq![s[0]] + r),
            None => None,
        }
    }
}

/// Escaped text never contains a raw line break.
pub proof fn lemma_esc_no_newline(s: Seq<char>)
    ensures
        forall|i: int| 0 <= i < esc(s).len() ==> esc(s)[i] != '\n',
    decreases s.len(),
{
    if s.len() > 0 {
        lemma_esc_no_newline(s.skip(1));
        assert forall|i: int| 0 <= i < esc(s).len() implies esc(s)[i] != '\n' by {
            let h = esc_char(s[0]);
            if i >= h.len() {
                assert(esc(s)[i] == esc(s.skip(1))[i - h.len()]);
            }
        }
    }
}

/// Unescaping undoes escaping exactly.
pub proof fn lemma_esc_roundtrip(s: Seq<char>)
    ensures
        unesc(esc(s)) == Some(s),
    decreases s.len(),
{
    if s.len() == 0 {
        assert(esc(s).len() == 0);
    } else {
        lemma_esc_roundtrip(s.skip(1));
        let h = esc_char(s[0]);
        let e = esc(s);
        assert(e == h + esc(s.skip(1)));
        if s[0] == '\\' {
            assert(e.skip(2) =~= esc(s.skip(1)));
            assert(unesc(e) == Some(seq!['\\'] + s.skip(1)));
            assert(seq!['\\'] + s.skip(1) =~= s);
        } else if s[0] == '\n' {
            assert(e.skip(2) =~= esc(s.skip(1)));
            assert(unesc(e) == Some(seq!['\n'] + s.skip(1)));
            assert(seq!['\n'] + s.skip(1) =~= s);
        } else {
            assert(e[0] == s[0]);
            assert(e.skip(1) =~= esc(s.skip(1)));
            assert(unesc(e) == Some(seq![s[0]] + s.skip(1)));
            assert(seq![s[0]] + s.skip(1) =~= s);
        }
    }
}

/// The encoded form of a sequence of catalog entries: two escaped lines per
/// entry, in catalog order.
pub open spec fn enc_entries(v: Seq<(Seq<char>, Seq<char>)>) -> Seq<char>
    decreases v.len(),
{
    if v.len() == 0 {
        Seq::empty()
    } else {
        esc(v[0].0) + seq!['\n'] + esc(v[0].1) + seq!['\n'] + enc_entries(v.skip(1))
    }
}

/// The inverse of [`enc_entries`]: reads pairs of lines, unescaping each;
/// `None` on a missing line terminator or an invalid escape.
pub open spec fn dec_entries(s: Seq<char>) -> Option<Seq<(Seq<char>, Seq<char>)>>
    decreases s.len(),
    via dec_entries_decreases
{
    if s.len() == 0 {
        Some(Seq::empty())
    } else {
        let i = first_idx(s, '\n');
        if i >= s.len() {
            None
        } else {
            let rest1 = s.skip(i + 1);
            let j = first_idx(rest1, '\n');
            if j >= rest1.len() {
                None
            } else {
                match (unesc(s.take(i)), unesc(rest1.take(j)), dec_entries(rest1.skip(j + 1))) {
                    (Some(name), Some(system), Some(tail)) => Some(seq![(name, system)] + tail),
                    _ => None,
                }
            }
        }
    }
}

#[via_fn]
proof fn dec_entries_decreases(s: Seq<char>) {
    lemma_first_idx(s, '\n');
    if s.len() > 0 {
        let i = first_idx(s, '\n');
        if i < s.len() {
            lemma_first_idx(s.skip(i + 1), '\n');
        }
    }
}

/// Decoding undoes encoding exactly, for every sequence of entries.
pub proof fn lemma_entries_roundtrip(v: Seq<(Seq<char>, Seq<char>)>)
    ensures
        dec_entries(enc_entries(v)) == Some(v),
    decreases v.len(),
{
    if v.len() == 0 {
        assert(enc_entries(v).len() == 0);
    } else {
        lemma_entries_roundtrip(v.skip(1));
        lemma_esc_no_newline(v[0].0);
        lemma_esc_no_newline(v[0].1);
        lemma_esc_roundtrip(v[0].0);
        lemma_esc_roundtrip(v[0].1);
        let a = esc(v[0].0);
        let b = esc(v[0].1);
        let tail = enc_entries(v.skip(1));
        let s = enc_entries(v);
        assert(s == a + seq!['\n'] + b + seq!['\n'] + tail);
        lemma_first_idx(s, '\n');
        assert(s[a.len() as int] == '\n');
        assert forall|k: int| 0 <= k < a.len() implies s[k] != '\n' by {
            assert(s[k] == a[k]);
        }
        let i = first_idx(s, '\n');
        assert(i == a.len());
        assert(s.take(i) =~= a);
        let rest1 = s.skip(i + 1);
        assert(rest1 =~= b + seq!['\n'] + tail);
        lemma_first_idx(rest1, '\n');
        assert(rest1[b.len() as int] == '\n');
        assert forall|k: int| 0 <= k < b.len() implies rest1[k] != '\n' by {
            assert(rest1[k] == b[k]);
        }
        let j = first_idx(rest1, '\n');
        assert(j == b.len());
        assert(rest1.take(j) =~= b);
        assert(rest1.skip(j + 1) =~= tail);
        assert(unesc(s.take(i)) == Some(v[0].0));
        assert(unesc(rest1.take(j)) == Some(v[0].1));
        assert(dec_entries(rest1.skip(j + 1)) == Some(v.skip(1)));
        assert(seq![(v[0].0, v[0].1)] + v.skip(1) =~= v);
        assert((v[0].0, v[0].1) == v[0]);
    }
}

/// Escaping distributes over concatenation.
pub proof fn lemma_esc_concat(a: Seq<char>, b: Seq<char>)
    ensures
        esc(a + b) == esc(a) + esc(b),
    decreases a.len(),
{
    if a.len() == 0 {
        assert(a + b =~= b);
        assert(esc(a) + esc(b) =~= esc(b));
    } else {
        lemma_esc_concat(a.skip(1), b);
        assert((a + b).skip(1) =~= a.skip(1) + b);
        assert((a + b)[0] == a[0]);
        assert(esc_char(a[0]) + (esc(a.skip(1)) + esc(b)) =~= (esc_char(a[0]) + esc(a.skip(1)))
            + esc(b));
    }
}

/// Escapes one line of stored text.
fn escape_store(line: &str) -> (r: String)
    ensures
        r@ == esc(line@),
{
    let n = line.unicode_len();
    let mut out = String::new();
    let mut i: usize = 0;
    while i < n
        invariant
            n == line@.len(),
            i <= n,
            out@ == esc(line@.take(i as int)),
        decreases n - i,
    {
        let c = line.get_char(i);
        if c == '\\' {
            push_char(&mut out, '\\');
            push_char(&mut out, '\\');
        } else if c == '\n' {
            push_char(&mut out, '\\');
            push_char(&mut out, 'n');
        } else {
            push_char(&mut out, c);
        }
        proof {
            let g = line@[i as int];
            lemma_esc_concat(line@.take(i as int), seq![g]);
            assert(line@.take(i + 1 as int) =~= line@.take(i as int) + seq![g]);
            assert(seq![g].skip(1) =~= Seq::<char>::empty());
            assert(esc(seq![g]) == esc_char(g) + esc(seq![g].skip(1)));
            assert(esc(seq![g]) =~= esc_char(g));
            assert(out@ =~= esc(line@.take(i as int)) + esc_char(g));
        }
        i = i + 1;
    }
    proof {
        assert(line@.take(n as int) =~= line@);
    }
    out
}

/// Unescapes one line of stored text; `None` on an invalid escape.
fn unescape_store(line: &str) -> (r: Option<String>)
    ensures
        r matches Some(s) ==> unesc(line@) == Some(s@),
        r is None ==> unesc(line@) is None,
{
    let n = line.unicode_len();
    let mut out = String::new();
    let mut pos: usize = 0;
    proof {
        assert(line@.skip(0) =~= line@);
        match unesc(line@) {
            Some(r) => {
                assert(Seq::<char>::empty() + r =~= r);
            },
            None => {},
        }
    }
    while pos < n
        invariant
            n == line@.len(),
            pos <= n,
            match unesc(line@.skip(pos as int)) {
                Some(r) => unesc(line@) == Some(out@ + r),
                None => unesc(line@) is None,
            },
        decreases n - pos,
    {
        let ghost prev = line@.skip(pos as int);
        let c = line.get_char(pos);
        proof {
            assert(prev[0] == line@[pos as int]);
        }
        if c == '\\' {
            if pos + 1 >= n {
                proof {
                    assert(prev.len() < 2);
                    assert(unesc(prev) is None);
                }
                return None;
            }
            let c2 = line.get_char(pos + 1);
            proof {
                assert(prev[1] == line@[pos + 1 as int]);
                assert(prev.skip(2) =~= line@.skip(pos + 2 as int));
            }
            if c2 == '\\' {
                let ghost out0 = out@;
                push_char(&mut out, '\\');
                proof {
                    match unesc(line@.skip(pos + 2 as int)) {
                        Some(r) => {
                            assert(out@ + r =~= out0 + (seq!['\\'] + r));
                        },
                        None => {},
                    }
                }
                pos = pos + 2;
            } else if c2 == 'n' {
                let ghost out0 = out@;
                push_char(&mut out, '\n');
                proof {
                    match unesc(line@.skip(pos + 2 as int)) {
                        Some(r) => {
                            assert(out@ + r =~= out0 + (seq!['\n'] + r));
                        },
                        None => {},
                    }
                }
                pos = pos + 2;
            } else {
                proof {
                    assert(unesc(prev) is None);
                }
                return None;
            }
        } else if c == '\n' {
            proof {
                assert(unesc(prev) is None);
            }
            return None;
        } else {
            let ghost out0 = out@;
            push_char(&mut out, c);
            proof {
                assert(prev.skip(1) =~= line@.skip(pos + 1 as int));
                match unesc(line@.skip(pos + 1 as int)) {
                    Some(r) => {
                        assert(out@ + r =~= out0 + (seq![line@[pos as int]] + r));
                    },
                    None => {},
                }
            }
            pos = pos + 1;
        }
    }
    proof {
        assert(line@.skip(n as int) =~= Seq::<char>::empty());
        assert(out@ + Seq::<char>::empty() =~= out@);
    }
    Some(out)
}

/// Entry encoding distributes over concatenation.
pub proof fn lemma_enc_concat(a: Seq<(Seq<char>, Seq<char>)>, b: Seq<(Seq<char>, Seq<char>)>)
    ensures
        enc_entries(a + b) == enc_entries(a) + enc_entries(b),
    decreases a.len(),
{
    if a.len() == 0 {
        assert(a + b =~= b);
        assert(enc_entries(a) + enc_entries(b) =~= enc_entries(b));
    } else {
        lemma_enc_concat(a.skip(1), b);
        assert((a + b).skip(1) =~= a.skip(1) + b);
        assert((a + b)[0] == a[0]);
        let h = esc(a[0].0) + seq!['\n'] + esc(a[0].1) + seq!['\n'];
        assert(enc_entries(a + b) == h + (enc_entries(a.skip(1)) + enc_entries(b)));
        assert(h + (enc_entries(a.skip(1)) + enc_entries(b)) =~= (h + enc_entries(a.skip(1)))
            + enc_entries(b));
    }
}

/// Renders the whole catalog in its stored form.
pub fn encode_catalog(roles: &RoleCatalog) -> (r: String)
    ensures
        r@ == enc_entries(roles@),
{
    let n = roles.len();
    let mut out = String::new();
    let mut i: usize = 0;
    while i < n
        invariant
            n == roles@.len(),
            i <= n,
            out@ == enc_entries(roles@.take(i as int)),
        decreases n - i,
    {
        let name_esc = escape_store(roles.name_at(i).as_str());
        let sys_esc = escape_store(roles.system_at(i).as_str());
        out.append(name_esc.as_str());
        push_char(&mut out, '\n');
        out.append(sys_esc.as_str());
        push_char(&mut out, '\n');
        proof {
            let e = roles@[i as int];
            lemma_enc_concat(roles@.take(i as int), seq![e]);
            assert(roles@.take(i + 1 as int) =~= roles@.take(i as int) + seq![e]);
            assert(seq![e].skip(1) =~= Seq::<(Seq<char>, Seq<char>)>::empty());
            assert(enc_entries(seq![e]) == esc(e.0) + seq!['\n'] + esc(e.1) + seq!['\n']
                + enc_entries(seq![e].skip(1)));
            assert(out@ =~= enc_entries(roles@.take(i as int)) + enc_entries(seq![e]));
        }
        i = i + 1;
    }
    proof {
        assert(roles@.take(n as int) =~= roles@);
    }
    out
}

/// Why a stored catalog was rejected.
#[derive(Clone, Copy, PartialEq, Eq, Structural, Debug)]
pub enum StoreError {
    /// The text is not a sequence of well-escaped line pairs.
    Malformed,
    /// The entries decode, but their names collide or contain a space.
    InvalidNames,
}


/// The values of a raw parsed entry list.
pub open spec fn pairs_view(s: Seq<(String, String)>) -> Seq<(Seq<char>, Seq<char>)> {
    s.map_values(|e: (String, String)| (e.0@, e.1@))
}

/// Parses the stored text into its raw list of name/persona pairs, without
/// validating the names.
fn parse_entries(input: &str) -> (r: Option<Vec<(String, String)>>)
    ensures
        r matches Some(v) ==> dec_entries(input@) == Some(pairs_view(v@)),
        r is None ==> dec_entries(input@) is None,
{
    let n = input.unicode_len();
    let mut entries: Vec<(String, String)> = Vec::new();
    let mut pos: usize = 0;
    proof {
        assert(input@.skip(0) =~= input@);
        match dec_entries(input@) {
            Some(t) => {
                assert(pairs_view(entries@) + t =~= t);
            },
            None => {},
        }
    }
    while pos < n
        invariant
            n == input@.len(),
            pos <= n,
            match dec_entries(input@.skip(pos as int)) {
                Some(t) => dec_entries(input@) == Some(pairs_view(entries@) + t),
                None => dec_entries(input@) is None,
            },
        decreases n - pos,
    {
        let ghost remaining = input@.skip(pos as int);
        let rest = input.substring_char(pos, n);
        proof {
            assert(rest@ =~= remaining);
            lemma_first_idx(remaining, '\n');
        }
        let i = match find_char(rest, '\n') {
            None => {
                return None;
            },
            Some(i) => i,
        };
        let name_line = rest.substring_char(0, i);
        let rest1 = input.substring_char(pos + i + 1, n);
        proof {
            assert(name_line@ =~= remaining.take(i as int));
            assert(rest1@ =~= remaining.skip(i + 1));
            lemma_first_idx(rest1@, '\n');
        }
        let j = match find_char(rest1, '\n') {
            None => {
                return None;
            },
            Some(j) => j,
        };
        let sys_line = rest1.substring_char(0, j);
        proof {
            assert(sys_line@ =~= rest1@.take(j as int));
        }
        let name = match unescape_store(name_line) {
            None => {
                return None;
            },
            Some(s) => s,
        };
        let system = match unescape_store(sys_line) {
            None => {
                return None;
            },
            Some(s) => s,
        };
        let ghost cur: (Seq<char>, Seq<char>) = (name@, system@);
        let ghost tail_src = rest1@.skip(j + 1);
        let ghost pv0 = pairs_view(entries@);
        proof {
            assert(dec_entries(remaining) == match dec_entries(tail_src) {
                Some(tail) => Some(seq![cur] + tail),
                None => None,
            });
        }
        entries.push((name, system));
        proof {
            assert(pairs_view(entries@) =~= pv0.push(cur));
            assert(tail_src =~= input@.skip(pos + i + 1 + j + 1));
            match dec_entries(tail_src) {
                Some(tail) => {
                    assert(pv0 + (seq![cur] + tail) =~= pv0.push(cur) + tail);
                },
                None => {},
            }
        }
        pos = pos + i + 1 + j + 1;
    }
    proof {
        assert(input@.skip(n as int) =~= Seq::<char>::empty());
        assert(pairs_view(entries@) + Seq::<(Seq<char>, Seq<char>)>::empty() =~= pairs_view(
            entries@,
        ));
    }
    Some(entries)
}

/// Reads a catalog back from its stored form.  Succeeds exactly on texts
/// that decode to a well-formed catalog, and returns that catalog.
pub fn decode_catalog(input: &str) -> (r: Result<RoleCatalog, StoreError>)
    ensures
        r matches Ok(c) ==> c.wf() && dec_entries(input@) == Some(c@),
        match dec_entries(input@) {
            Some(v) => if catalog_wf(v) {
                r matches Ok(c) && c@ == v
            } else {
                r == Err::<RoleCatalog, StoreError>(StoreError::InvalidNames)
            },
            None => r == Err::<RoleCatalog, StoreError>(StoreError::Malformed),
        },
{
    let entries = match parse_entries(input) {
        None => {
            return Err(StoreError::Malformed);
        },
        Some(e) => e,
    };
    let ghost full = pairs_view(entries@);
    let m = entries.len();
    let mut cat = RoleCatalog::new();
    let mut k: usize = 0;
    proof {
        assert(cat@ =~= full.take(0));
    }
    while k < m
        invariant
            m == entries@.len(),
            k <= m,
            cat.wf(),
            full == pairs_view(entries@),
            dec_entries(input@) == Some(full),
            cat@ == full.take(k as int),
        decreases m - k,
    {
        let name = entries[k].0.clone();
        let system = entries[k].1.clone();
        proof {
            assert(full[k as int] == (name@, system@));
        }
        let dup = match cat.find(name.as_str()) {
            Some(_) => true,
            None => false,
        };
        let ghost cat0 = cat@;
        if dup {
            proof {
                let d = choose|d: int| 0 <= d < cat0.len() && (#[trigger] cat0[d]).0 == name@;
                assert(full[d] == cat0[d]);
                assert(full[d].0 == full[k as int].0);
                if catalog_wf(full) {
                    assert(full[d].0 != full[k as int].0);
                }
            }
            return Err(StoreError::InvalidNames);
        }
        if !cat.insert(name, Role { system }) {
            proof {
                assert(has_char(full[k as int].0, ' '));
                if catalog_wf(full) {
                    assert(!has_char(full[k as int].0, ' '));
                }
            }
            return Err(StoreError::InvalidNames);
        }
        proof {
            assert(cat@ =~= full.take(k + 1 as int));
        }
        k = k + 1;
    }
    proof {
        assert(full.take(m as int) =~= full);
    }
    Ok(cat)
}

} // verus!
