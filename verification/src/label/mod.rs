//! Label names and label matchers.

pub mod matcher;

use crate::util::text::lemma_lex_le_order;
use crate::util::text::lex_le;
use crate::util::text::ref_views;
use crate::util::text::str_eq;
use crate::util::text::str_lt;
use crate::util::text::string_views;
use vstd::prelude::*;
use vstd::std_specs::cmp::PartialEqSpecImpl;

verus! {

/// The label under which a series carries its metric name.
pub const METRIC_NAME: &'static str = "__name__";

/// `l` is in `s` and no member of `s` comes before it.
pub open spec fn is_least(l: Seq<char>, s: Set<Seq<char>>) -> bool {
    &&& s.contains(l)
    &&& forall|m: Seq<char>| s.contains(m) ==> lex_le(l, m)
}

/// The lexicographically first member of `s`. Meaningful where `s` has a
/// first member, as the labels that two sets of labels share have.
pub open spec fn least(s: Set<Seq<char>>) -> Seq<char> {
    choose|l: Seq<char>| is_least(l, s)
}

/// A set has at most one first member, and `least` names it.
pub proof fn lemma_least_unique(l: Seq<char>, s: Set<Seq<char>>)
    requires
        is_least(l, s),
    ensures
        least(s) == l,
{
    let m = least(s);
    lemma_lex_le_order(l, m, l);
}

/// The members of `a` that are in `b`, in the order in which `a` lists them.
pub open spec fn common(a: Seq<Seq<char>>, b: Set<Seq<char>>) -> Seq<Seq<char>>
    decreases a.len(),
{
    if a.len() == 0 {
        Seq::empty()
    } else if b.contains(a.last()) {
        common(a.drop_last(), b).push(a.last())
    } else {
        common(a.drop_last(), b)
    }
}

/// `common` lists exactly the members of `a` that `b` holds.
pub proof fn lemma_common_contains(a: Seq<Seq<char>>, b: Set<Seq<char>>, l: Seq<char>)
    ensures
        common(a, b).contains(l) <==> a.contains(l) && b.contains(l),
    decreases a.len(),
{
    if a.len() > 0 {
        lemma_common_contains(a.drop_last(), b, l);
        let rest = common(a.drop_last(), b);
        if a.contains(l) && b.contains(l) {
            let i = choose|i: int| 0 <= i < a.len() && a[i] == l;
            if i < a.len() - 1 {
                assert(a.drop_last()[i] == l);
                let j = choose|j: int| 0 <= j < rest.len() && rest[j] == l;
                assert(common(a, b)[j] == l);
            } else {
                assert(common(a, b).last() == l);
            }
        }
        if common(a, b).contains(l) {
            let j = choose|j: int| 0 <= j < common(a, b).len() && common(a, b)[j] == l;
            if j < rest.len() {
                assert(rest[j] == l);
                let i = choose|i: int| 0 <= i < a.drop_last().len() && a.drop_last()[i] == l;
                assert(a[i] == l);
            } else {
                assert(a[a.len() - 1] == l);
            }
        }
    }
}

/// What `a` and `b` have in common is listed once, where `a` lists nothing
/// twice.
pub proof fn lemma_common_distinct(a: Seq<Seq<char>>, b: Set<Seq<char>>)
    requires
        a.no_duplicates(),
    ensures
        common(a, b).no_duplicates(),
    decreases a.len(),
{
    if a.len() > 0 {
        let rest = common(a.drop_last(), b);
        lemma_common_distinct(a.drop_last(), b);
        lemma_common_contains(a.drop_last(), b, a.last());
        if rest.contains(a.last()) {
            let i = choose|i: int| 0 <= i < a.drop_last().len() && a.drop_last()[i] == a.last();
            assert(a[i] == a[a.len() - 1]);
        }
    }
}

/// The strings of `s` in their order, each where it first occurs.
pub open spec fn distinct(s: Seq<Seq<char>>) -> Seq<Seq<char>>
    decreases s.len(),
{
    if s.len() == 0 {
        Seq::empty()
    } else if distinct(s.drop_last()).contains(s.last()) {
        distinct(s.drop_last())
    } else {
        distinct(s.drop_last()).push(s.last())
    }
}

/// `distinct` lists every string of `s`, and none twice.
pub proof fn lemma_distinct(s: Seq<Seq<char>>)
    ensures
        distinct(s).no_duplicates(),
        forall|l: Seq<char>| distinct(s).contains(l) <==> s.contains(l),
    decreases s.len(),
{
    if s.len() > 0 {
        let rest = distinct(s.drop_last());
        lemma_distinct(s.drop_last());
        assert forall|l: Seq<char>| distinct(s).contains(l) <==> s.contains(l) by {
            if s.contains(l) {
                let i = choose|i: int| 0 <= i < s.len() && s[i] == l;
                if i < s.len() - 1 {
                    assert(s.drop_last()[i] == l);
                    assert(s.drop_last().contains(l));
                    assert(rest.contains(l));
                    let j = choose|j: int| 0 <= j < rest.len() && rest[j] == l;
                    assert(distinct(s)[j] == l);
                } else if !rest.contains(s.last()) {
                    assert(distinct(s).last() == l);
                } else {
                    let j = choose|j: int| 0 <= j < rest.len() && rest[j] == l;
                    assert(distinct(s)[j] == l);
                }
            }
            if distinct(s).contains(l) {
                let j = choose|j: int| 0 <= j < distinct(s).len() && distinct(s)[j] == l;
                if j < rest.len() {
                    assert(rest[j] == l);
                    assert(s.drop_last().contains(l));
                    let i = choose|i: int| 0 <= i < s.drop_last().len() && s.drop_last()[i] == l;
                    assert(s[i] == l);
                } else {
                    assert(s[s.len() - 1] == l);
                }
            }
        }
    }
}

/// A set of label names.
///
/// The names are kept in a vector in the order in which they were given.
/// What the set holds is its view: the order of the vector does not show in
/// it, nor would a name listed twice. `new` lists no name twice.
#[derive(Debug)]
pub struct Labels {
    pub labels: Vec<String>,
}

impl Clone for Labels {
    /// The same names, listed in the same order.
    fn clone(&self) -> (r: Labels)
        ensures
            self.is_copy(&r),
    {
        let mut labels: Vec<String> = Vec::new();
        let mut i: usize = 0;
        while i < self.labels.len()
            invariant
                i <= self.labels.len(),
                labels@ == self.labels@.take(i as int),
            decreases self.labels.len() - i,
        {
            labels.push(self.labels[i].clone());
            assert(labels@ =~= self.labels@.take(i + 1));
            i += 1;
        }
        assert(self.labels@.take(i as int) =~= self.labels@);
        Labels { labels }
    }
}

impl View for Labels {
    type V = Set<Seq<char>>;

    open spec fn view(&self) -> Set<Seq<char>> {
        Set::new(|l: Seq<char>| self.names().contains(l))
    }
}

impl Labels {
    /// `other` lists the same names in the same order: it is a copy of this
    /// list, and so the same set.
    pub open spec fn is_copy(&self, other: &Labels) -> bool {
        other.labels@ == self.labels@
    }

    /// The names in the order in which the vector lists them.
    pub open spec fn names(&self) -> Seq<Seq<char>> {
        string_views(self.labels@)
    }

    /// No name is listed twice.
    pub open spec fn wf(&self) -> bool {
        self.names().no_duplicates()
    }

    /// The set of the given names. A name given twice is listed once.
    pub fn new(ls: Vec<&str>) -> (r: Labels)
        ensures
            r.names() == distinct(ls@.map_values(|s: &str| s@)),
            r.wf(),
            forall|l: Seq<char>| r@.contains(l) <==> ls@.map_values(|s: &str| s@).contains(l),
    {
        let ghost given = ls@.map_values(|s: &str| s@);
        let mut r = Labels { labels: Vec::new() };
        let mut i: usize = 0;
        assert(r.names() =~= distinct(given.take(0)));
        while i < ls.len()
            invariant
                i <= ls.len(),
                given == ls@.map_values(|s: &str| s@),
                r.names() == distinct(given.take(i as int)),
            decreases ls.len() - i,
        {
            proof {
                let next = given.take(i + 1);
                assert(next.drop_last() =~= given.take(i as int));
            }
            let ghost before = r.names();
            if !r.contains(ls[i]) {
                r.labels.push(String::from_str(ls[i]));
                assert(r.names() =~= before.push(ls[i as int]@));
            }
            i += 1;
        }
        proof {
            assert(given.take(i as int) =~= given);
            lemma_distinct(given);
        }
        r
    }

    /// Whether the set holds the name `l`.
    pub fn contains(&self, l: &str) -> (r: bool)
        ensures
            r == self@.contains(l@),
    {
        let mut i: usize = 0;
        while i < self.labels.len()
            invariant
                i <= self.labels.len(),
                forall|k: int| 0 <= k < i ==> self.names()[k] != l@,
            decreases self.labels.len() - i,
        {
            if str_eq(self.labels[i].as_str(), l) {
                assert(self.names()[i as int] == l@);
                return true;
            }
            i += 1;
        }
        false
    }

    /// Whether the set holds no name.
    pub fn is_empty(&self) -> (r: bool)
        ensures
            r == (self@ == Set::<Seq<char>>::empty()),
    {
        let r = self.labels.len() == 0;
        proof {
            if r {
                assert(self@ =~= Set::<Seq<char>>::empty());
            } else {
                assert(self@.contains(self.names()[0]));
            }
        }
        r
    }

    /// Whether every name of this set is in `other`.
    pub fn is_subset(&self, other: &Labels) -> (r: bool)
        ensures
            r == self@.subset_of(other@),
    {
        let mut i: usize = 0;
        while i < self.labels.len()
            invariant
                i <= self.labels.len(),
                forall|k: int| 0 <= k < i ==> other@.contains(self.names()[k]),
            decreases self.labels.len() - i,
        {
            if !other.contains(self.labels[i].as_str()) {
                assert(self@.contains(self.names()[i as int]));
                return false;
            }
            i += 1;
        }
        true
    }

    /// Whether the two sets share no name.
    pub fn is_disjoint(&self, other: &Labels) -> (r: bool)
        ensures
            r == self@.disjoint(other@),
    {
        let mut i: usize = 0;
        while i < self.labels.len()
            invariant
                i <= self.labels.len(),
                forall|k: int| 0 <= k < i ==> !other@.contains(self.names()[k]),
            decreases self.labels.len() - i,
        {
            if other.contains(self.labels[i].as_str()) {
                assert(self@.contains(self.names()[i as int]));
                return false;
            }
            i += 1;
        }
        true
    }

    /// The names of this set that are also in `other`, in the order in which
    /// this set lists them.
    pub fn intersection<'a>(&'a self, other: &Labels) -> (r: Vec<&'a String>)
        ensures
            ref_views(r@) == common(self.names(), other@),
            self.wf() ==> ref_views(r@).no_duplicates(),
    {
        let mut found: Vec<&'a String> = Vec::new();
        let mut i: usize = 0;
        while i < self.labels.len()
            invariant
                i <= self.labels.len(),
                ref_views(found@) == common(self.names().take(i as int), other@),
            decreases self.labels.len() - i,
        {
            proof {
                let next = self.names().take(i + 1);
                assert(next.drop_last() =~= self.names().take(i as int));
            }
            let ghost before = ref_views(found@);
            if other.contains(self.labels[i].as_str()) {
                found.push(&self.labels[i]);
                assert(ref_views(found@) =~= before.push(self.names()[i as int]));
            }
            i += 1;
        }
        proof {
            assert(self.names().take(i as int) =~= self.names());
            if self.wf() {
                lemma_common_distinct(self.names(), other@);
            }
        }
        found
    }

    /// The lexicographically first name that both sets hold, if they share
    /// one.
    pub fn first_common<'a>(&'a self, other: &Labels) -> (r: Option<&'a String>)
        ensures
            r is None <==> self@.disjoint(other@),
            r matches Some(l) ==> is_least(l@, self@.intersect(other@)),
    {
        let mut best: Option<usize> = None;
        let mut i: usize = 0;
        while i < self.labels.len()
            invariant
                i <= self.labels.len(),
                best matches Some(b) ==> b < i && other@.contains(self.names()[b as int]),
                best matches Some(b) ==> forall|k: int|
                    0 <= k < i && other@.contains(self.names()[k]) ==> lex_le(
                        self.names()[b as int],
                        #[trigger] self.names()[k],
                    ),
                best is None ==> forall|k: int| 0 <= k < i ==> !other@.contains(self.names()[k]),
            decreases self.labels.len() - i,
        {
            if other.contains(self.labels[i].as_str()) {
                match best {
                    None => {
                        best = Some(i);
                    },
                    Some(b) => {
                        if str_lt(self.labels[i].as_str(), self.labels[b].as_str()) {
                            proof {
                                let new = self.names()[i as int];
                                let old = self.names()[b as int];
                                assert forall|k: int|
                                    0 <= k < i + 1 && other@.contains(
                                        self.names()[k],
                                    ) implies lex_le(new, #[trigger] self.names()[k]) by {
                                    if k < i {
                                        lemma_lex_le_order(new, old, self.names()[k]);
                                    }
                                }
                            }
                            best = Some(i);
                        } else {
                            proof {
                                lemma_lex_le_order(
                                    self.names()[b as int],
                                    self.names()[i as int],
                                    self.names()[i as int],
                                );
                            }
                        }
                    },
                }
            }
            i += 1;
        }
        match best {
            None => None,
            Some(b) => {
                proof {
                    let l = self.names()[b as int];
                    assert forall|m: Seq<char>| self@.intersect(other@).contains(m) implies lex_le(
                        l,
                        m,
                    ) by {
                        let k = choose|k: int| 0 <= k < self.names().len() && self.names()[k] == m;
                        assert(lex_le(l, self.names()[k]));
                    }
                }
                Some(&self.labels[b])
            },
        }
    }
}

impl PartialEq for Labels {
    fn eq(&self, other: &Self) -> (r: bool) {
        let r = self.is_subset(other) && other.is_subset(self);
        proof {
            if r {
                assert(self@ =~= other@);
            }
        }
        r
    }
}

impl PartialEqSpecImpl for Labels {
    open spec fn obeys_eq_spec() -> bool {
        true
    }

    /// Two sets of labels are equal when they hold the same names.
    open spec fn eq_spec(&self, other: &Self) -> bool {
        self@ == other@
    }
}

impl Eq for Labels {

}

} // verus!
