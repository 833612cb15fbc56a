//! The role catalog: an insertion-ordered mapping from role name to persona
//! text.  Names are unique keys and may not contain a space, since they are
//! embedded verbatim in callback payloads that are split on the first space;
//! such names are rejected at creation time.  The first-inserted role is the
//! default one.

use vstd::prelude::*;

verus! {

use crate::text::{contains_char, has_char, str_eq};

/// A persona: a reusable system instruction that seeds a conversation.
pub struct Role {
    pub system: String,
}

impl View for Role {
    type V = Seq<char>;

    open spec fn view(&self) -> Seq<char> {
        self.system@
    }
}

impl Clone for Role {
    fn clone(&self) -> (r: Self)
        ensures
            r@ == self@,
    {
        Role { system: self.system.clone() }
    }
}

/// A catalog entry is a pair of role name and persona text.
pub struct RoleCatalog {
    entries: Vec<(String, Role)>,
}

/// Well-formedness of a catalog's contents: names are pairwise distinct and
/// contain no space.
pub open spec fn catalog_wf(v: Seq<(Seq<char>, Seq<char>)>) -> bool {
    &&& forall|i: int, j: int| 0 <= i < j < v.len() ==> v[i].0 != v[j].0
    &&& forall|i: int| 0 <= i < v.len() ==> !has_char(#[trigger] v[i].0, ' ')
}

impl View for RoleCatalog {
    type V = Seq<(Seq<char>, Seq<char>)>;

    closed spec fn view(&self) -> Self::V {
        self.entries@.map_values(|e: (String, Role)| (e.0@, e.1@))
    }
}

impl RoleCatalog {
    pub open spec fn wf(self) -> bool {
        catalog_wf(self@)
    }

    /// Whether some entry carries the given name.
    pub open spec fn contains_name(self, name: Seq<char>) -> bool {
        exists|i: int| 0 <= i < self@.len() && (#[trigger] self@[i]).0 == name
    }

    /// The index of the entry carrying the given name (meaningful only when
    /// `contains_name` holds; unique under `wf`).
    pub open spec fn name_index(self, name: Seq<char>) -> int {
        choose|i: int| 0 <= i < self@.len() && (#[trigger] self@[i]).0 == name
    }

    /// The persona text recorded under the given name.
    pub open spec fn spec_role(self, name: Seq<char>) -> Seq<char> {
        self@[self.name_index(name)].1
    }

    /// An empty catalog.
    pub fn new() -> (c: RoleCatalog)
        ensures
            c@ == Seq::<(Seq<char>, Seq<char>)>::empty(),
            c.wf(),
    {
        let c = RoleCatalog { entries: Vec::new() };
        proof {
            assert(c@ =~= Seq::<(Seq<char>, Seq<char>)>::empty());
        }
        c
    }

    pub fn len(&self) -> (n: usize)
        ensures
            n == self@.len(),
    {
        self.entries.len()
    }

    /// The name of the entry at position `i`.
    pub fn name_at(&self, i: usize) -> (r: &String)
        requires
            i < self@.len(),
        ensures
            r@ == self@[i as int].0,
    {
        &self.entries[i].0
    }

    /// The persona text of the entry at position `i`.
    pub fn system_at(&self, i: usize) -> (r: &String)
        requires
            i < self@.len(),
        ensures
            r@ == self@[i as int].1,
    {
        &self.entries[i].1.system
    }

    /// The position of the entry named `name`, if any.
    pub fn find(&self, name: &str) -> (r: Option<usize>)
        requires
            self.wf(),
        ensures
            r matches Some(i) ==> self.contains_name(name@) && i < self@.len()
                && self@[i as int].0 == name@ && i == self.name_index(name@),
            r is None ==> !self.contains_name(name@),
    {
        let n = self.entries.len();
        let mut i: usize = 0;
        while i < n
            invariant
                self.wf(),
                n == self@.len(),
                i <= n,
                forall|j: int| 0 <= j < i ==> (#[trigger] self@[j]).0 != name@,
            decreases n - i,
        {
            if str_eq(self.entries[i].0.as_str(), name) {
                proof {
                    assert(self@[i as int].0 == name@);
                    let k = self.name_index(name@);
                    assert(0 <= k < self@.len() && self@[k].0 == name@);
                    if k != i {
                        assert(self@[k].0 != self@[i as int].0);
                    }
                }
                return Some(i);
            }
            i = i + 1;
        }
        None
    }

    /// The role recorded under `name`, if any.
    pub fn get(&self, name: &str) -> (r: Option<&Role>)
        requires
            self.wf(),
        ensures
            r matches Some(role) ==> self.contains_name(name@) && role@ == self.spec_role(name@),
            r is None ==> !self.contains_name(name@),
    {
        match self.find(name) {
            Some(i) => Some(&self.entries[i].1),
            None => None,
        }
    }

    /// Records `role` under `name`, overwriting an existing entry in place
    /// and appending a new one otherwise.  A name containing a space is
    /// rejected, and the catalog is left unchanged; every other insertion
    /// succeeds.
    pub fn insert(&mut self, name: String, role: Role) -> (ok: bool)
        requires
            old(self).wf(),
        ensures
            final(self).wf(),
            ok == !has_char(name@, ' '),
            !ok ==> final(self)@ == old(self)@,
            (ok && old(self).contains_name(name@)) ==> final(self)@ == old(self)@.update(
                old(self).name_index(name@),
                (name@, role@),
            ),
            (ok && !old(self).contains_name(name@)) ==> final(self)@ == old(self)@.push(
                (name@, role@),
            ),
    {
        if contains_char(name.as_str(), ' ') {
            return false;
        }
        match self.find(name.as_str()) {
            Some(i) => {
                let ghost k = old(self).name_index(name@);
                self.entries.remove(i);
                self.entries.insert(i, (name, role));
                proof {
                    assert(final(self)@ =~= old(self)@.update(k, (name@, role@)));
                    assert forall|p: int, q: int|
                        0 <= p < q < final(self)@.len() implies final(self)@[p].0
                        != final(self)@[q].0 by {
                        assert(old(self)@[p].0 != old(self)@[q].0);
                        if p != k && q != k {
                            assert(final(self)@[p].0 == old(self)@[p].0);
                        }
                    }
                }
                true
            },
            None => {
                self.entries.push((name, role));
                proof {
                    assert(final(self)@ =~= old(self)@.push((name@, role@)));
                }
                true
            },
        }
    }

    /// Removes the entry named `name`, reporting whether it was present.
    /// All other entries keep their relative order, and under `wf` the name
    /// no longer occurs afterwards.
    pub fn remove(&mut self, name: &str) -> (found: bool)
        requires
            old(self).wf(),
        ensures
            final(self).wf(),
            found == old(self).contains_name(name@),
            found ==> final(self)@ == old(self)@.remove(old(self).name_index(name@)),
            !found ==> final(self)@ == old(self)@,
            !final(self).contains_name(name@),
    {
        match self.find(name) {
            Some(i) => {
                let ghost k = old(self).name_index(name@);
                self.entries.remove(i);
                proof {
                    assert(final(self)@ =~= old(self)@.remove(k));
                    assert forall|p: int|
                        0 <= p < final(self)@.len() implies (#[trigger] final(self)@[p]).0
                        != name@ by {
                        if p < k {
                            assert(final(self)@[p] == old(self)@[p]);
                            assert(old(self)@[p].0 != old(self)@[k].0);
                        } else {
                            assert(final(self)@[p] == old(self)@[p + 1]);
                            assert(old(self)@[p + 1].0 != old(self)@[k].0);
                        }
                    }
                }
                true
            },
            None => false,
        }
    }
}

impl Clone for RoleCatalog {
    fn clone(&self) -> (r: Self)
        ensures
            r@ == self@,
    {
        let n = self.entries.len();
        let mut entries: Vec<(String, Role)> = Vec::new();
        let mut i: usize = 0;
        while i < n
            invariant
                n == self@.len(),
                i <= n,
                entries@.len() == i,
                forall|j: int|
                    0 <= j < i ==> ((#[trigger] entries@[j]).0@, entries@[j].1@) == self@[j],
            decreases n - i,
        {
            entries.push((self.entries[i].0.clone(), self.entries[i].1.clone()));
            i = i + 1;
        }
        let r = RoleCatalog { entries };
        proof {
            assert(r@ =~= self@);
        }
        r
    }
}

/// The default role of a catalog: its first-inserted entry, or a built-in
/// assistant persona when the catalog is empty.
pub fn get_default_role(roles: &RoleCatalog) -> (r: (String, String))
    ensures
        roles@.len() > 0 ==> r.0@ == roles@[0].0 && r.1@ == roles@[0].1,
        roles@.len() == 0 ==> r.0@ == "assistant"@ && r.1@ == "you are a helpful assistant."@,
{
    if roles.len() > 0 {
        (roles.name_at(0).clone(), roles.system_at(0).clone())
    } else {
        ("assistant".to_owned(), "you are a helpful assistant.".to_owned())
    }
}

} // verus!
