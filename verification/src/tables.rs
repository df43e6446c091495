//! Run-scoped tracking of table names and table schemas.

use vstd::prelude::*;

use crate::strutil;

verus! {

/// Whether a sequence of names contains `n`.
pub open spec fn name_seq_contains(s: Seq<String>, n: Seq<char>) -> bool {
    exists|i: int| 0 <= i < s.len() && s[i]@ == n
}

/// No name appears twice.
pub open spec fn names_unique(s: Seq<String>) -> bool {
    forall|i: int, j: int| 0 <= i < j < s.len() ==> s[i]@ != s[j]@
}

/// The set of table names created so far in a run, in creation order.
pub struct TableSet {
    pub items: Vec<String>,
}

impl TableSet {
    /// A name appears at most once.
    pub open spec fn wf(&self) -> bool {
        names_unique(self.items@)
    }

    pub open spec fn spec_contains(&self, n: Seq<char>) -> bool {
        name_seq_contains(self.items@, n)
    }

    pub fn new() -> (r: TableSet)
        ensures
            r.items@ =~= Seq::<String>::empty(),
            r.wf(),
    {
        TableSet { items: Vec::new() }
    }

    pub fn contains(&self, n: &str) -> (r: bool)
        ensures
            r == self.spec_contains(n@),
    {
        let mut i: usize = 0;
        while i < self.items.len()
            invariant
                i <= self.items@.len(),
                forall|j: int| 0 <= j < i ==> self.items@[j]@ != n@,
            decreases self.items@.len() - i,
        {
            if strutil::str_eq(self.items[i].as_str(), n) {
                return true;
            }
            i += 1;
        }
        false
    }

    /// Record a newly created table; the name must not be present yet.
    pub fn insert(&mut self, n: String)
        requires
            !old(self).spec_contains(n@),
        ensures
            final(self).items@ == old(self).items@.push(n),
            old(self).wf() ==> final(self).wf(),
    {
        proof {
            assert forall|i: int, j: int|
                0 <= i < j < old(self).items@.push(n).len() && old(self).wf() implies old(
                self,
            ).items@.push(n)[i]@ != old(self).items@.push(n)[j]@ by {
                if j == old(self).items@.len() {
                    assert(old(self).items@[i]@ != n@);
                }
            }
        }
        self.items.push(n);
    }
}

/// Whether a vector of names contains `n`.
pub fn names_contain(items: &Vec<String>, n: &str) -> (r: bool)
    ensures
        r == name_seq_contains(items@, n@),
{
    let mut i: usize = 0;
    while i < items.len()
        invariant
            i <= items@.len(),
            forall|j: int| 0 <= j < i ==> items@[j]@ != n@,
        decreases items@.len() - i,
    {
        if strutil::str_eq(items[i].as_str(), n) {
            return true;
        }
        i += 1;
    }
    false
}

/// Declared shape of one feature type's table: its name, its statically
/// known columns, and whether its features carry geometry.
pub struct TableInfo {
    pub name: String,
    pub columns: Vec<String>,
    pub has_geometry: bool,
}

/// Whether a slice of table infos declares a table named `n`.
pub open spec fn infos_contain(s: Seq<TableInfo>, n: Seq<char>) -> bool {
    exists|i: int| 0 <= i < s.len() && s[i].name@ == n
}

/// The first declared info for the table named `n`.
pub open spec fn info_index(s: Seq<TableInfo>, n: Seq<char>) -> int
    decreases s.len(),
{
    if s.len() == 0 {
        -1
    } else if s[0].name@ == n {
        0
    } else {
        let r = info_index(s.drop_first(), n);
        if r == -1 {
            -1
        } else {
            r + 1
        }
    }
}

pub proof fn lemma_info_index(s: Seq<TableInfo>, n: Seq<char>)
    ensures
        infos_contain(s, n) <==> 0 <= info_index(s, n) < s.len(),
        infos_contain(s, n) ==> s[info_index(s, n)].name@ == n,
    decreases s.len(),
{
    if s.len() == 0 {
    } else if s[0].name@ == n {
    } else {
        lemma_info_index(s.drop_first(), n);
        if infos_contain(s, n) {
            let i = choose|i: int| 0 <= i < s.len() && s[i].name@ == n;
            assert(s.drop_first()[i - 1] == s[i]);
            assert(infos_contain(s.drop_first(), n));
        }
        if infos_contain(s.drop_first(), n) {
            let r = info_index(s.drop_first(), n);
            assert(s[r + 1] == s.drop_first()[r]);
        }
    }
}

/// Look up the declared info of a table by name.
pub fn find_info<'a>(infos: &'a Vec<TableInfo>, n: &str) -> (r: Option<&'a TableInfo>)
    ensures
        match r {
            Some(info) => infos_contain(infos@, n@) && *info == infos@[info_index(infos@, n@)],
            None => !infos_contain(infos@, n@),
        },
{
    proof {
        lemma_info_index(infos@, n@);
    }
    let mut i: usize = 0;
    while i < infos.len()
        invariant
            i <= infos@.len(),
            forall|j: int| 0 <= j < i ==> infos@[j].name@ != n@,
        decreases infos@.len() - i,
    {
        if strutil::str_eq(infos[i].name.as_str(), n) {
            proof {
                lemma_info_index_at(infos@, i as int, n@);
            }
            return Some(&infos[i]);
        }
        i += 1;
    }
    None
}

/// `info_index` finds the first matching position.
pub proof fn lemma_info_index_at(s: Seq<TableInfo>, i: int, n: Seq<char>)
    requires
        0 <= i < s.len(),
        s[i].name@ == n,
        forall|j: int| 0 <= j < i ==> s[j].name@ != n,
    ensures
        info_index(s, n) == i,
    decreases s.len(),
{
    if i == 0 {
    } else {
        assert forall|j: int| 0 <= j < i - 1 implies s.drop_first()[j].name@ != n by {
            assert(s.drop_first()[j] == s[j + 1]);
        }
        assert(s.drop_first()[i - 1] == s[i]);
        lemma_info_index_at(s.drop_first(), i - 1, n);
    }
}

} // verus!
