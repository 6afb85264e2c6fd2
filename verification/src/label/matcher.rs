//! Label matchers: a label name, a way of matching, and the value or
//! pattern to match against.
//!
//! Patterns are compiled and run by the `regex` crate. A compiled `Regex` is
//! opaque to the verifier. It stands for the texts it matches: that set and
//! the pattern it was made from have a name each, and the items at the head of
//! this file say over those names what the library takes on trust of the
//! crate.

use crate::label::METRIC_NAME;
use crate::parser::token::token_display;
use crate::parser::token::token_text;
use crate::parser::token::TokenId;
use crate::parser::token::T_EQL;
use crate::parser::token::T_EQL_REGEX;
use crate::parser::token::T_NEQ;
use crate::parser::token::T_NEQ_REGEX;
use crate::util::text::str_eq;
use crate::util::text::string_views;
use regex::Regex;
use vstd::prelude::*;
use vstd::std_specs::cmp::PartialEqSpecImpl;

verus! {

/// `regex::Regex`, carried through as an opaque value.
#[verifier::external_type_specification]
#[verifier::external_body]
pub struct ExRegex(Regex);

/// `regex::Error`, carried through as an opaque value.
#[verifier::external_type_specification]
#[verifier::external_body]
pub struct ExRegexError(regex::Error);

/// What a compiled expression holds: the texts in which it finds a match.
pub uninterp spec fn regex_language(re: Regex) -> Set<Seq<char>>;

/// The pattern that a compiled expression was made from.
pub uninterp spec fn regex_pattern(re: Regex) -> Seq<char>;

/// `Regex::new`: where the pattern compiles, the expression remembers the
/// pattern it was made from. Nothing is claimed of which patterns compile.
pub assume_specification[ Regex::new ](re: &str) -> (r: Result<Regex, regex::Error>)
    ensures
        r matches Ok(compiled) ==> regex_pattern(compiled) == re@,
;

/// `Regex::is_match`: whether the expression finds a match anywhere in the
/// text; the answer depends on the expression and the text alone.
pub assume_specification[ Regex::is_match ](re: &Regex, haystack: &str) -> (r: bool)
    ensures
        r == regex_language(*re).contains(haystack@),
;

/// `Regex::as_str`: the pattern that the expression was made from.
pub assume_specification<'a>[ Regex::as_str ](re: &'a Regex) -> (r: &'a str)
    ensures
        r@ == regex_pattern(*re),
;

/// `Regex::clone`: the clone is the same expression.
pub assume_specification[ <Regex as Clone>::clone ](re: &Regex) -> (r: Regex)
    ensures
        r == *re,
;

/// How a matcher compares the value of a label.
#[derive(Debug)]
pub enum MatchOp {
    /// The value is the matcher's value.
    Equal,
    /// The value is not the matcher's value.
    NotEqual,
    /// The expression finds a match in the value.
    Re(Regex),
    /// The expression finds no match in the value.
    NotRe(Regex),
}

impl MatchOp {
    /// The two operators are of the same kind and, where they hold an
    /// expression, were made from the same pattern.
    pub open spec fn same(&self, other: &MatchOp) -> bool {
        match (self, other) {
            (MatchOp::Equal, MatchOp::Equal) => true,
            (MatchOp::NotEqual, MatchOp::NotEqual) => true,
            (MatchOp::Re(a), MatchOp::Re(b)) => regex_pattern(*a) == regex_pattern(*b),
            (MatchOp::NotRe(a), MatchOp::NotRe(b)) => regex_pattern(*a) == regex_pattern(*b),
            _ => false,
        }
    }

    /// The operator as a query writes it.
    pub open spec fn text(&self) -> Seq<char> {
        match self {
            MatchOp::Equal => "="@,
            MatchOp::NotEqual => "!="@,
            MatchOp::Re(_) => "=~"@,
            MatchOp::NotRe(_) => "!~"@,
        }
    }

    /// The operator as a query writes it.
    pub fn as_str(&self) -> (r: &'static str)
        ensures
            r@ == self.text(),
    {
        match self {
            MatchOp::Equal => "=",
            MatchOp::NotEqual => "!=",
            MatchOp::Re(_) => "=~",
            MatchOp::NotRe(_) => "!~",
        }
    }
}

impl Clone for MatchOp {
    /// The same operator, with the same expression where it holds one.
    fn clone(&self) -> (r: MatchOp)
        ensures
            r == *self,
    {
        match self {
            MatchOp::Equal => MatchOp::Equal,
            MatchOp::NotEqual => MatchOp::NotEqual,
            MatchOp::Re(re) => MatchOp::Re(re.clone()),
            MatchOp::NotRe(re) => MatchOp::NotRe(re.clone()),
        }
    }
}

impl PartialEq for MatchOp {
    fn eq(&self, other: &Self) -> (r: bool) {
        match (self, other) {
            (MatchOp::Equal, MatchOp::Equal) => true,
            (MatchOp::NotEqual, MatchOp::NotEqual) => true,
            (MatchOp::Re(a), MatchOp::Re(b)) => str_eq(a.as_str(), b.as_str()),
            (MatchOp::NotRe(a), MatchOp::NotRe(b)) => str_eq(a.as_str(), b.as_str()),
            _ => false,
        }
    }
}

impl PartialEqSpecImpl for MatchOp {
    open spec fn obeys_eq_spec() -> bool {
        true
    }

    open spec fn eq_spec(&self, other: &Self) -> bool {
        self.same(other)
    }
}

impl Eq for MatchOp {

}

/// A condition on one label of a series.
#[derive(Debug)]
pub struct Matcher {
    pub op: MatchOp,
    pub name: String,
    pub value: String,
}

impl Clone for Matcher {
    /// The same matcher.
    fn clone(&self) -> (r: Matcher)
        ensures
            r == *self,
    {
        Matcher { op: self.op.clone(), name: self.name.clone(), value: self.value.clone() }
    }
}

/// The diagnostic for a token that is no match operator.
pub open spec fn invalid_match_op_text(id: TokenId) -> Seq<char> {
    "invalid match op "@ + token_text(id)
}

/// The diagnostic for a pattern that does not compile.
pub open spec fn illegal_regex_text(value: Seq<char>) -> Seq<char> {
    "illegal regex for "@ + value
}

impl Matcher {
    /// The two matchers have the same operator and name the same label and
    /// value.
    pub open spec fn same(&self, other: &Matcher) -> bool {
        self.op.same(&other.op) && self.name@ == other.name@ && self.value@ == other.value@
    }

    /// Whether the matcher accepts `s` as the value of its label.
    pub open spec fn matches(&self, s: Seq<char>) -> bool {
        match self.op {
            MatchOp::Equal => self.value@ == s,
            MatchOp::NotEqual => self.value@ != s,
            MatchOp::Re(re) => regex_language(re).contains(s),
            MatchOp::NotRe(re) => !regex_language(re).contains(s),
        }
    }

    /// The matcher that asks `op` of the label `name` against `value`.
    pub fn new(op: MatchOp, name: String, value: String) -> (r: Matcher)
        ensures
            r == (Matcher { op, name, value }),
    {
        Matcher { op, name, value }
    }

    /// The matcher that a named selector implies: the metric-name label
    /// equals `value`.
    pub fn new_eq_metric_matcher(value: String) -> (r: Matcher)
        ensures
            r.op == MatchOp::Equal,
            r.name@ == METRIC_NAME@,
            r.value == value,
    {
        Matcher { op: MatchOp::Equal, name: String::from_str(METRIC_NAME), value }
    }

    /// The matcher that `name <op> value` writes, where the token `id` is one
    /// of `=`, `!=`, `=~`, `!~`.
    ///
    /// Any other token is refused. For `=~` and `!~` the value is compiled as
    /// a pattern, and refused if the `regex` crate does not compile it.
    pub fn new_matcher(id: TokenId, name: String, value: String) -> (r: Result<Matcher, String>)
        ensures
            id != T_EQL && id != T_NEQ && id != T_EQL_REGEX && id != T_NEQ_REGEX ==> r is Err
                && r->Err_0@ == invalid_match_op_text(id),
            id == T_EQL ==> r == Ok::<Matcher, String>(Matcher { op: MatchOp::Equal, name, value }),
            id == T_NEQ ==> r == Ok::<Matcher, String>(
                Matcher { op: MatchOp::NotEqual, name, value },
            ),
            id == T_EQL_REGEX || id == T_NEQ_REGEX ==> match r {
                Ok(m) => {
                    &&& m.name == name
                    &&& m.value == value
                    &&& id == T_EQL_REGEX ==> m.op is Re && regex_pattern(m.op->Re_0) == value@
                    &&& id == T_NEQ_REGEX ==> m.op is NotRe && regex_pattern(m.op->NotRe_0)
                        == value@
                },
                Err(e) => e@ == illegal_regex_text(value@),
            },
    {
        if id == T_EQL {
            Ok(Matcher { op: MatchOp::Equal, name, value })
        } else if id == T_NEQ {
            Ok(Matcher { op: MatchOp::NotEqual, name, value })
        } else if id == T_EQL_REGEX || id == T_NEQ_REGEX {
            match Regex::new(value.as_str()) {
                Ok(re) => {
                    if id == T_EQL_REGEX {
                        Ok(Matcher { op: MatchOp::Re(re), name, value })
                    } else {
                        Ok(Matcher { op: MatchOp::NotRe(re), name, value })
                    }
                },
                Err(_) => {
                    let mut msg = String::from_str("illegal regex for ");
                    msg.append(value.as_str());
                    Err(msg)
                },
            }
        } else {
            let mut msg = String::from_str("invalid match op ");
            msg.append(token_display(id));
            Err(msg)
        }
    }

    /// Whether the matcher accepts `s` as the value of its label.
    pub fn is_match(&self, s: &str) -> (r: bool)
        ensures
            r == self.matches(s@),
    {
        match &self.op {
            MatchOp::Equal => str_eq(self.value.as_str(), s),
            MatchOp::NotEqual => !str_eq(self.value.as_str(), s),
            MatchOp::Re(re) => re.is_match(s),
            MatchOp::NotRe(re) => !re.is_match(s),
        }
    }
}

impl PartialEq for Matcher {
    fn eq(&self, other: &Self) -> (r: bool) {
        self.op == other.op && self.name == other.name && self.value == other.value
    }
}

impl PartialEqSpecImpl for Matcher {
    open spec fn obeys_eq_spec() -> bool {
        true
    }

    open spec fn eq_spec(&self, other: &Self) -> bool {
        self.same(other)
    }
}

impl Eq for Matcher {

}

/// The values of the matchers in `ms` whose label is `name`, in the order
/// of `ms`.
pub open spec fn values_named(ms: Seq<Matcher>, name: Seq<char>) -> Seq<Seq<char>>
    decreases ms.len(),
{
    if ms.len() == 0 {
        Seq::empty()
    } else if ms.last().name@ == name {
        values_named(ms.drop_last(), name).push(ms.last().value@)
    } else {
        values_named(ms.drop_last(), name)
    }
}

/// The matchers of a selector.
///
/// They are kept in a vector in the order in which they were added. The
/// constructors add no matcher that equals one already there.
#[derive(Debug)]
pub struct Matchers {
    pub matchers: Vec<Matcher>,
}

impl Clone for Matchers {
    /// The same matchers, listed in the same order.
    fn clone(&self) -> (r: Matchers)
        ensures
            self.is_copy(&r),
    {
        let mut matchers: Vec<Matcher> = Vec::new();
        let mut i: usize = 0;
        while i < self.matchers.len()
            invariant
                i <= self.matchers.len(),
                matchers@ == self.matchers@.take(i as int),
            decreases self.matchers.len() - i,
        {
            matchers.push(self.matchers[i].clone());
            assert(matchers@ =~= self.matchers@.take(i + 1));
            i += 1;
        }
        assert(self.matchers@.take(i as int) =~= self.matchers@);
        Matchers { matchers }
    }
}

impl Matchers {
    /// `other` lists the same matchers in the same order: it is a copy of
    /// this list.
    pub open spec fn is_copy(&self, other: &Matchers) -> bool {
        other.matchers@ == self.matchers@
    }

    /// A matcher equal to `m` is among these.
    pub open spec fn holds(&self, m: Matcher) -> bool {
        exists|i: int| 0 <= i < self.matchers.len() && (#[trigger] self.matchers[i]).same(&m)
    }

    /// Each matcher of either collection has an equal in the other.
    pub open spec fn same(&self, other: &Matchers) -> bool {
        &&& forall|i: int|
            0 <= i < self.matchers.len() ==> other.holds(#[trigger] self.matchers[i])
        &&& forall|i: int|
            0 <= i < other.matchers.len() ==> self.holds(#[trigger] other.matchers[i])
    }

    /// No matcher is listed twice.
    pub open spec fn wf(&self) -> bool {
        forall|i: int, j: int|
            0 <= i < j < self.matchers.len() ==> !(#[trigger] self.matchers[i]).same(
                #[trigger] &self.matchers[j],
            )
    }

    /// Every matcher accepts the empty string, so that the selector would
    /// select every series. True in particular where there is no matcher.
    pub open spec fn all_match_empty(&self) -> bool {
        forall|i: int|
            0 <= i < self.matchers.len() ==> (#[trigger] self.matchers[i]).matches(
                Seq::<char>::empty(),
            )
    }

    /// No matchers.
    pub fn empty() -> (r: Matchers)
        ensures
            r.matchers@ == Seq::<Matcher>::empty(),
            r.wf(),
    {
        Matchers { matchers: Vec::new() }
    }

    /// The one matcher `m`.
    pub fn one(m: Matcher) -> (r: Matchers)
        ensures
            r.matchers@ == seq![m],
            r.wf(),
    {
        let mut matchers: Vec<Matcher> = Vec::new();
        matchers.push(m);
        Matchers { matchers }
    }

    /// Whether a matcher equal to `m` is among these.
    pub fn contains(&self, m: &Matcher) -> (r: bool)
        ensures
            r == self.holds(*m),
    {
        let mut i: usize = 0;
        while i < self.matchers.len()
            invariant
                i <= self.matchers.len(),
                forall|k: int| 0 <= k < i ==> !(#[trigger] self.matchers[k]).same(m),
            decreases self.matchers.len() - i,
        {
            if self.matchers[i] == *m {
                return true;
            }
            i += 1;
        }
        false
    }

    /// These matchers and `m`; unchanged where a matcher equal to `m` is
    /// already among them.
    pub fn append(self, m: Matcher) -> (r: Matchers)
        ensures
            r.matchers@ == if self.holds(m) {
                self.matchers@
            } else {
                self.matchers@.push(m)
            },
            self.wf() ==> r.wf(),
    {
        if self.contains(&m) {
            self
        } else {
            let mut matchers = self.matchers;
            matchers.push(m);
            Matchers { matchers }
        }
    }

    /// Whether every matcher accepts the empty string, so that the selector
    /// would select every series.
    pub fn is_empty_matchers(&self) -> (r: bool)
        ensures
            r == self.all_match_empty(),
    {
        let mut i: usize = 0;
        while i < self.matchers.len()
            invariant
                i <= self.matchers.len(),
                forall|k: int| 0 <= k < i ==> (#[trigger] self.matchers[k]).matches(Seq::<char>::empty()),
            decreases self.matchers.len() - i,
        {
            let empty = "";
            proof {
                reveal_strlit("");
                assert(empty@ =~= Seq::<char>::empty());
            }
            if !self.matchers[i].is_match(empty) {
                return false;
            }
            i += 1;
        }
        true
    }

    /// The values of the matchers whose label is `name`, in their order.
    pub fn find_matchers(&self, name: &str) -> (r: Vec<String>)
        ensures
            string_views(r@) == values_named(self.matchers@, name@),
    {
        let mut found: Vec<String> = Vec::new();
        let mut i: usize = 0;
        while i < self.matchers.len()
            invariant
                i <= self.matchers.len(),
                string_views(found@) == values_named(self.matchers@.take(i as int), name@),
            decreases self.matchers.len() - i,
        {
            proof {
                let next = self.matchers@.take(i + 1);
                assert(next.drop_last() =~= self.matchers@.take(i as int));
            }
            if str_eq(self.matchers[i].name.as_str(), name) {
                found.push(self.matchers[i].value.clone());
            }
            i += 1;
        }
        assert(self.matchers@.take(i as int) =~= self.matchers@);
        found
    }

    /// Whether every matcher of these has an equal among `other`.
    pub fn is_subset(&self, other: &Matchers) -> (r: bool)
        ensures
            r == forall|i: int| 0 <= i < self.matchers.len() ==> other.holds(#[trigger] self.matchers[i]),
    {
        let mut i: usize = 0;
        while i < self.matchers.len()
            invariant
                i <= self.matchers.len(),
                forall|k: int| 0 <= k < i ==> other.holds(#[trigger] self.matchers[k]),
            decreases self.matchers.len() - i,
        {
            if !other.contains(&self.matchers[i]) {
                return false;
            }
            i += 1;
        }
        true
    }
}

/// Equality of matchers is reflexive, symmetric and transitive.
pub proof fn lemma_same_equivalence(a: Matcher, b: Matcher, c: Matcher)
    ensures
        a.same(&a),
        a.same(&b) ==> b.same(&a),
        a.same(&b) && b.same(&c) ==> a.same(&c),
{
}

impl PartialEq for Matchers {
    fn eq(&self, other: &Self) -> (r: bool) {
        self.is_subset(other) && other.is_subset(self)
    }
}

impl PartialEqSpecImpl for Matchers {
    open spec fn obeys_eq_spec() -> bool {
        true
    }

    open spec fn eq_spec(&self, other: &Self) -> bool {
        self.same(other)
    }
}

impl Eq for Matchers {

}

} // verus!
