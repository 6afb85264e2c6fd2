//! The nodes of the expression tree.

use crate::label::common;
use crate::label::matcher::Matchers;
use crate::label::Labels;
use crate::parser::function::Function;
use crate::parser::function::FunctionArgs;
use crate::parser::token::TokenType;
use crate::parser::value::ValueType;
use crate::util::number::ieee_eq;
use crate::util::number::is_nan;
use crate::util::text::ref_views;
use crate::util::number::bits_ieee_eq;
use crate::util::number::bits_is_nan;
use std::time::Duration;
use std::time::SystemTime;
use vstd::prelude::*;
use vstd::std_specs::cmp::PartialEqSpecImpl;

verus! {

/// A list of labels with the way it is to be read.
///
/// On an aggregation, `Include` is `by` and `Exclude` is `without`. On a
/// binary operator, `Include` is `on` and `Exclude` is `ignoring`.
#[derive(Debug, PartialEq, Eq)]
pub enum LabelModifier {
    Include(Labels),
    Exclude(Labels),
}

impl Clone for LabelModifier {
    /// The same list, to be read the same way.
    fn clone(&self) -> (r: LabelModifier)
        ensures
            self.is_copy(&r),
    {
        match self {
            LabelModifier::Include(l) => LabelModifier::Include(l.clone()),
            LabelModifier::Exclude(l) => LabelModifier::Exclude(l.clone()),
        }
    }
}

impl LabelModifier {
    /// `other` is a copy of this modifier: a copy of the list, to be read the
    /// same way.
    pub open spec fn is_copy(&self, other: &LabelModifier) -> bool {
        match (self, other) {
            (LabelModifier::Include(a), LabelModifier::Include(b)) => a.is_copy(b),
            (LabelModifier::Exclude(a), LabelModifier::Exclude(b)) => a.is_copy(b),
            _ => false,
        }
    }

    /// The labels listed, whichever way they are to be read.
    pub open spec fn spec_labels(&self) -> Labels {
        match self {
            LabelModifier::Include(l) => *l,
            LabelModifier::Exclude(l) => *l,
        }
    }

    /// The labels listed, whichever way they are to be read.
    pub fn labels(&self) -> (r: &Labels)
        ensures
            *r == self.spec_labels(),
    {
        match self {
            LabelModifier::Include(l) => l,
            LabelModifier::Exclude(l) => l,
        }
    }

    /// Whether the modifier is `on` (or `by`).
    pub fn is_on(&self) -> (r: bool)
        ensures
            r == (self is Include),
    {
        match self {
            LabelModifier::Include(_) => true,
            LabelModifier::Exclude(_) => false,
        }
    }
}

/// How the series of the two sides of a binary operator pair up.
///
/// `ManyToOne` is `group_left` and `OneToMany` is `group_right`; each carries
/// the labels to bring over from the "one" side. `ManyToMany` is the pairing
/// of the set operators.
#[derive(Debug, PartialEq, Eq)]
pub enum VectorMatchCardinality {
    OneToOne,
    ManyToOne(Labels),
    OneToMany(Labels),
    ManyToMany,
}

impl Clone for VectorMatchCardinality {
    /// The same pairing, with the same labels.
    fn clone(&self) -> (r: VectorMatchCardinality)
        ensures
            self.is_copy(&r),
    {
        match self {
            VectorMatchCardinality::OneToOne => VectorMatchCardinality::OneToOne,
            VectorMatchCardinality::ManyToOne(l) => VectorMatchCardinality::ManyToOne(l.clone()),
            VectorMatchCardinality::OneToMany(l) => VectorMatchCardinality::OneToMany(l.clone()),
            VectorMatchCardinality::ManyToMany => VectorMatchCardinality::ManyToMany,
        }
    }
}

impl VectorMatchCardinality {
    /// `other` is a copy of this pairing: the same kind, with a copy of the
    /// labels where it carries some.
    pub open spec fn is_copy(&self, other: &VectorMatchCardinality) -> bool {
        match (self, other) {
            (VectorMatchCardinality::OneToOne, VectorMatchCardinality::OneToOne) => true,
            (VectorMatchCardinality::ManyToOne(a), VectorMatchCardinality::ManyToOne(b)) =>
                a.is_copy(b),
            (VectorMatchCardinality::OneToMany(a), VectorMatchCardinality::OneToMany(b)) =>
                a.is_copy(b),
            (VectorMatchCardinality::ManyToMany, VectorMatchCardinality::ManyToMany) => true,
            _ => false,
        }
    }

    /// The labels of a `group_left` or `group_right`; none for the other two
    /// pairings.
    pub open spec fn spec_labels(&self) -> Option<Labels> {
        match self {
            VectorMatchCardinality::ManyToOne(l) => Some(*l),
            VectorMatchCardinality::OneToMany(l) => Some(*l),
            VectorMatchCardinality::ManyToMany => None,
            VectorMatchCardinality::OneToOne => None,
        }
    }

    /// The labels of a `group_left` or `group_right`; none for the other two
    /// pairings.
    pub fn labels(&self) -> (r: Option<&Labels>)
        ensures
            match r {
                Some(l) => self.spec_labels() == Some(*l),
                None => self.spec_labels() is None,
            },
    {
        match self {
            VectorMatchCardinality::ManyToOne(l) => Some(l),
            VectorMatchCardinality::OneToMany(l) => Some(l),
            VectorMatchCardinality::ManyToMany => None,
            VectorMatchCardinality::OneToOne => None,
        }
    }
}

/// The modifiers of a binary operator.
#[derive(Debug, PartialEq, Eq)]
pub struct BinModifier {
    /// How the series of the two sides pair up.
    pub card: VectorMatchCardinality,
    /// The `on` or `ignoring` list, if one was written.
    pub matching: Option<LabelModifier>,
    /// Whether a comparison returns 0 or 1 rather than filtering.
    pub return_bool: bool,
}

/// `b` is a copy of `a`: a copy of the list it holds, or none as `a` holds
/// none.
pub open spec fn is_list_copy(a: Option<LabelModifier>, b: Option<LabelModifier>) -> bool {
    match (a, b) {
        (Some(a), Some(b)) => a.is_copy(&b),
        (None, None) => true,
        _ => false,
    }
}

fn clone_list(list: &Option<LabelModifier>) -> (r: Option<LabelModifier>)
    ensures
        is_list_copy(*list, r),
{
    match list {
        Some(list) => Some(list.clone()),
        None => None,
    }
}

impl Clone for BinModifier {
    /// The same modifiers.
    fn clone(&self) -> (r: BinModifier)
        ensures
            self.is_copy(&r),
    {
        BinModifier {
            card: self.card.clone(),
            matching: clone_list(&self.matching),
            return_bool: self.return_bool,
        }
    }
}

impl Default for BinModifier {
    /// One-to-one pairing, no matching list, no `bool`.
    fn default() -> (r: Self)
        ensures
            r == (BinModifier {
                card: VectorMatchCardinality::OneToOne,
                matching: None,
                return_bool: false,
            }),
    {
        BinModifier { card: VectorMatchCardinality::OneToOne, matching: None, return_bool: false }
    }
}

impl BinModifier {
    /// `other` is a copy of these modifiers: a copy of the pairing and of the
    /// matching list, with `bool` written or not as here.
    pub open spec fn is_copy(&self, other: &BinModifier) -> bool {
        &&& self.card.is_copy(&other.card)
        &&& is_list_copy(self.matching, other.matching)
        &&& other.return_bool == self.return_bool
    }

    /// The labels that the `group_left` or `group_right` list and the `on` or
    /// `ignoring` list share; `None` unless both lists were written.
    pub open spec fn joint_labels(&self) -> Option<Set<Seq<char>>> {
        match (self.card.spec_labels(), self.matching) {
            (Some(group), Some(matching)) => Some(matching.spec_labels()@.intersect(group@)),
            _ => None,
        }
    }

    /// Both lists were written and share a label.
    pub open spec fn spec_is_labels_joint(&self) -> bool {
        self.joint_labels() matches Some(shared) && shared != Set::<Seq<char>>::empty()
    }

    /// The matching list was written with `on`.
    pub open spec fn spec_is_matching_on(&self) -> bool {
        self.matching matches Some(matching) && matching is Include
    }

    /// A matching list was written and names a label.
    pub open spec fn spec_is_matching_labels_not_empty(&self) -> bool {
        self.matching matches Some(matching) && matching.spec_labels()@ != Set::<
            Seq<char>,
        >::empty()
    }

    /// These modifiers with the pairing `card`.
    pub fn with_card(self, card: VectorMatchCardinality) -> (r: Self)
        ensures
            r == (BinModifier { card, ..self }),
    {
        BinModifier { card, matching: self.matching, return_bool: self.return_bool }
    }

    /// These modifiers with the matching list `matching`.
    pub fn with_matching(self, matching: Option<LabelModifier>) -> (r: Self)
        ensures
            r == (BinModifier { matching, ..self }),
    {
        BinModifier { card: self.card, matching, return_bool: self.return_bool }
    }

    /// These modifiers with `bool` written or not.
    pub fn with_return_bool(self, return_bool: bool) -> (r: Self)
        ensures
            r == (BinModifier { return_bool, ..self }),
    {
        BinModifier { card: self.card, matching: self.matching, return_bool }
    }

    /// Whether the `group_left` or `group_right` list and the `on` or
    /// `ignoring` list were both written and share a label.
    #[verifier::when_used_as_spec(spec_is_labels_joint)]
    pub fn is_labels_joint(&self) -> (r: bool)
        ensures
            r == self.spec_is_labels_joint(),
    {
        match (self.card.labels(), &self.matching) {
            (Some(labels), Some(matching)) => {
                let disjoint = matching.labels().is_disjoint(labels);
                proof {
                    let shared = matching.spec_labels()@.intersect(labels@);
                    if disjoint {
                        assert(shared =~= Set::<Seq<char>>::empty());
                    } else {
                        let l = choose|l: Seq<char>|
                            matching.spec_labels()@.contains(l) && labels@.contains(l);
                        assert(shared.contains(l));
                    }
                }
                !disjoint
            },
            _ => false,
        }
    }

    /// The labels of the `on` or `ignoring` list that the `group_left` or
    /// `group_right` list also names, in the order of the former; `None`
    /// unless both lists were written.
    pub fn intersect_labels(&self) -> (r: Option<Vec<&String>>)
        ensures
            match r {
                Some(shared) => {
                    &&& self.joint_labels() is Some
                    &&& ref_views(shared@) == common(
                        self.matching->0.spec_labels().names(),
                        self.card.spec_labels()->0@,
                    )
                },
                None => self.joint_labels() is None,
            },
    {
        match (self.card.labels(), &self.matching) {
            (Some(labels), Some(matching)) => Some(matching.labels().intersection(labels)),
            _ => None,
        }
    }

    /// Whether the matching list was written with `on`.
    #[verifier::when_used_as_spec(spec_is_matching_on)]
    pub fn is_matching_on(&self) -> (r: bool)
        ensures
            r == self.spec_is_matching_on(),
    {
        match &self.matching {
            Some(matching) => matching.is_on(),
            None => false,
        }
    }

    /// Whether a matching list was written and names a label.
    #[verifier::when_used_as_spec(spec_is_matching_labels_not_empty)]
    pub fn is_matching_labels_not_empty(&self) -> (r: bool)
        ensures
            r == self.spec_is_matching_labels_not_empty(),
    {
        match &self.matching {
            Some(matching) => !matching.labels().is_empty(),
            None => false,
        }
    }
}

/// A signed shift of the evaluation time.
#[derive(Debug, PartialEq, Eq)]
pub enum Offset {
    Pos(Duration),
    Neg(Duration),
}

impl Clone for Offset {
    /// The same shift.
    fn clone(&self) -> (r: Offset)
        ensures
            r == *self,
    {
        match self {
            Offset::Pos(d) => Offset::Pos(d.clone()),
            Offset::Neg(d) => Offset::Neg(d.clone()),
        }
    }
}

/// The instant that an `@` modifier pins a selector to.
#[derive(Debug, PartialEq, Eq)]
pub enum AtModifier {
    /// The start of the query range.
    Start,
    /// The end of the query range.
    End,
    /// A fixed instant, which may lie before the Unix epoch.
    At(SystemTime),
}

impl Clone for AtModifier {
    /// The same instant.
    fn clone(&self) -> (r: AtModifier)
        ensures
            r == *self,
    {
        match self {
            AtModifier::Start => AtModifier::Start,
            AtModifier::End => AtModifier::End,
            AtModifier::At(t) => AtModifier::At(t.clone()),
        }
    }
}

/// An expression together with the range it is to be evaluated on.
#[derive(Debug, Clone)]
pub struct EvalStmt {
    /// The expression to evaluate.
    pub expr: Expr,
    /// The first instant of the range. Where it equals `end`, one instant is
    /// evaluated.
    pub start: SystemTime,
    /// The last instant of the range.
    pub end: SystemTime,
    /// The time between two instants of the range.
    pub interval: Duration,
    /// How far back a selector looks for a sample.
    pub lookback_delta: Duration,
}

/// An aggregation over a vector:
/// `<op> [by|without (<labels>)] ([<parameter>,] <vector>)`.
#[derive(Debug, Clone, PartialEq, Eq)]
pub struct AggregateExpr {
    /// The aggregation operator.
    pub op: TokenType,
    /// The vector that is aggregated.
    pub expr: Box<Expr>,
    /// The parameter that some aggregators take.
    pub param: Option<Box<Expr>>,
    /// The `by` or `without` list, if one was written.
    pub modifier: Option<LabelModifier>,
}

/// The negation of an expression.
#[derive(Debug, Clone, PartialEq, Eq)]
pub struct UnaryExpr {
    pub expr: Box<Expr>,
}

/// A binary operator between two expressions.
#[derive(Debug, Clone, PartialEq, Eq)]
pub struct BinaryExpr {
    /// The operator.
    pub op: TokenType,
    /// The left operand.
    pub lhs: Box<Expr>,
    /// The right operand.
    pub rhs: Box<Expr>,
    /// The modifiers, if any were written.
    pub modifier: Option<BinModifier>,
}

impl BinaryExpr {
    /// The `bool` modifier was written.
    pub open spec fn spec_return_bool(&self) -> bool {
        self.modifier matches Some(modifier) && modifier.return_bool
    }

    /// The matching list was written with `on`.
    pub open spec fn spec_is_matching_on(&self) -> bool {
        self.modifier matches Some(modifier) && modifier.is_matching_on()
    }

    /// A matching list was written and names a label.
    pub open spec fn spec_is_matching_labels_not_empty(&self) -> bool {
        self.modifier matches Some(modifier) && modifier.is_matching_labels_not_empty()
    }

    /// The grouping list and the matching list were both written and share a
    /// label.
    pub open spec fn spec_is_labels_joint(&self) -> bool {
        self.modifier matches Some(modifier) && modifier.is_labels_joint()
    }

    /// Whether the matching list was written with `on`.
    #[verifier::when_used_as_spec(spec_is_matching_on)]
    pub fn is_matching_on(&self) -> (r: bool)
        ensures
            r == self.spec_is_matching_on(),
    {
        match &self.modifier {
            Some(modifier) => modifier.is_matching_on(),
            None => false,
        }
    }

    /// Whether a matching list was written and names a label.
    #[verifier::when_used_as_spec(spec_is_matching_labels_not_empty)]
    pub fn is_matching_labels_not_empty(&self) -> (r: bool)
        ensures
            r == self.spec_is_matching_labels_not_empty(),
    {
        match &self.modifier {
            Some(modifier) => modifier.is_matching_labels_not_empty(),
            None => false,
        }
    }

    /// Whether the `bool` modifier was written.
    #[verifier::when_used_as_spec(spec_return_bool)]
    pub fn return_bool(&self) -> (r: bool)
        ensures
            r == self.spec_return_bool(),
    {
        match &self.modifier {
            Some(modifier) => modifier.return_bool,
            None => false,
        }
    }

    /// Whether the grouping list and the matching list were both written and
    /// share a label.
    #[verifier::when_used_as_spec(spec_is_labels_joint)]
    pub fn is_labels_joint(&self) -> (r: bool)
        ensures
            r == self.spec_is_labels_joint(),
    {
        match &self.modifier {
            Some(modifier) => modifier.is_labels_joint(),
            None => false,
        }
    }

    /// The labels of the matching list that the grouping list also names;
    /// `None` unless both lists were written.
    pub fn intersect_labels(&self) -> (r: Option<Vec<&String>>)
        ensures
            match r {
                Some(shared) => {
                    &&& self.modifier is Some
                    &&& self.modifier->0.joint_labels() is Some
                    &&& ref_views(shared@) == common(
                        self.modifier->0.matching->0.spec_labels().names(),
                        self.modifier->0.card.spec_labels()->0@,
                    )
                },
                None => self.modifier matches Some(modifier) ==> modifier.joint_labels() is None,
            },
    {
        match &self.modifier {
            Some(modifier) => modifier.intersect_labels(),
            None => None,
        }
    }
}

/// An expression in parentheses.
#[derive(Debug, Clone, PartialEq, Eq)]
pub struct ParenExpr {
    pub expr: Box<Expr>,
}

/// An instant query sampled over a range:
/// `<expr> [<range>:<step>] [@ <time>] [offset <duration>]`.
#[derive(Debug, Clone, PartialEq, Eq)]
pub struct SubqueryExpr {
    pub expr: Box<Expr>,
    pub offset: Option<Offset>,
    pub at: Option<AtModifier>,
    pub range: Duration,
    /// The step; where none is written the evaluation interval applies.
    pub step: Option<Duration>,
}

/// A number, held as the bits of its IEEE 754 double-precision encoding.
#[derive(Debug, Clone, Copy)]
pub struct NumberLiteral {
    pub bits: u64,
}

impl NumberLiteral {
    /// Two literals hold equal numbers, or neither holds a number.
    pub open spec fn same(&self, other: &NumberLiteral) -> bool {
        ieee_eq(self.bits, other.bits) || (is_nan(self.bits) && is_nan(other.bits))
    }

    /// The literal with the given encoding.
    pub fn new(bits: u64) -> (r: Self)
        ensures
            r.bits == bits,
    {
        NumberLiteral { bits }
    }
}

impl PartialEq for NumberLiteral {
    fn eq(&self, other: &Self) -> (r: bool) {
        bits_ieee_eq(self.bits, other.bits) || (bits_is_nan(self.bits) && bits_is_nan(
            other.bits,
        ))
    }
}

impl PartialEqSpecImpl for NumberLiteral {
    open spec fn obeys_eq_spec() -> bool {
        true
    }

    open spec fn eq_spec(&self, other: &Self) -> bool {
        self.same(other)
    }
}

impl Eq for NumberLiteral {

}

/// Equality of number literals is an equivalence, and it holds between any
/// two literals that are not a number: a tree that holds NaN equals itself.
pub proof fn lemma_number_literal_equality(a: NumberLiteral, b: NumberLiteral, c: NumberLiteral)
    ensures
        a.same(&a),
        a.same(&b) == b.same(&a),
        a.same(&b) && b.same(&c) ==> a.same(&c),
        is_nan(a.bits) && is_nan(b.bits) ==> a.same(&b),
        is_nan(a.bits) && !is_nan(b.bits) ==> !a.same(&b),
{
}

/// A string.
#[derive(Debug, Clone, PartialEq, Eq)]
pub struct StringLiteral {
    pub val: String,
}

/// A selection of series at one instant.
#[derive(Debug, Clone, PartialEq, Eq)]
pub struct VectorSelector {
    /// The metric name, where the selector was written with one.
    pub name: Option<String>,
    pub matchers: Matchers,
    pub offset: Option<Offset>,
    pub at: Option<AtModifier>,
}

/// A selection of series over a range.
#[derive(Debug, Clone, PartialEq, Eq)]
pub struct MatrixSelector {
    pub vector_selector: VectorSelector,
    pub range: Duration,
}

/// A call of a function.
#[derive(Debug, Clone, PartialEq, Eq)]
pub struct Call {
    pub func: Function,
    pub args: FunctionArgs,
}

/// A node that the host application supplies.
///
/// The tree does not look inside it: the node declares its own name and
/// value type and lists the expressions it holds.
#[derive(Debug, Clone, PartialEq, Eq)]
pub struct Extension {
    pub name: String,
    pub value_type: ValueType,
    pub children: Vec<Expr>,
}

/// An expression.
#[derive(Debug, PartialEq, Eq)]
pub enum Expr {
    /// An aggregation over a vector.
    Aggregate(AggregateExpr),
    /// The negation of an expression.
    Unary(UnaryExpr),
    /// A binary operator between two expressions.
    Binary(BinaryExpr),
    /// An expression in parentheses.
    Paren(ParenExpr),
    /// A subquery.
    Subquery(SubqueryExpr),
    /// A number.
    NumberLiteral(NumberLiteral),
    /// A string.
    StringLiteral(StringLiteral),
    /// A selection of series at one instant.
    VectorSelector(VectorSelector),
    /// A selection of series over a range.
    MatrixSelector(MatrixSelector),
    /// A call of a function.
    Call(Call),
    /// A node that the host application supplies.
    Extension(Extension),
}

fn clone_args(args: &Vec<Box<Expr>>) -> (r: Vec<Box<Expr>>)
    ensures
        are_argument_copies(args@, r@),
    decreases args,
{
    let mut out: Vec<Box<Expr>> = Vec::new();
    let mut i: usize = 0;
    while i < args.len()
        invariant
            i <= args.len(),
            out.len() == i,
            forall|k: int| 0 <= k < i ==> (#[trigger] args@[k]).is_copy(&*out@[k]),
        decreases args.len() - i,
    {
        out.push(Box::new(clone_expr(&*args[i])));
        i += 1;
    }
    out
}

fn clone_children(children: &Vec<Expr>) -> (r: Vec<Expr>)
    ensures
        are_copies(children@, r@),
    decreases children,
{
    let mut out: Vec<Expr> = Vec::new();
    let mut i: usize = 0;
    while i < children.len()
        invariant
            i <= children.len(),
            out.len() == i,
            forall|k: int| 0 <= k < i ==> (#[trigger] children@[k]).is_copy(&out@[k]),
        decreases children.len() - i,
    {
        out.push(clone_expr(&children[i]));
        i += 1;
    }
    out
}

fn clone_selector(vs: &VectorSelector) -> (r: VectorSelector)
    ensures
        vs.is_copy(&r),
{
    VectorSelector {
        name: match &vs.name {
            Some(name) => Some(name.clone()),
            None => None,
        },
        matchers: vs.matchers.clone(),
        offset: match &vs.offset {
            Some(offset) => Some(offset.clone()),
            None => None,
        },
        at: match &vs.at {
            Some(at) => Some(at.clone()),
            None => None,
        },
    }
}

fn clone_expr(e: &Expr) -> (r: Expr)
    ensures
        e.is_copy(&r),
    decreases e,
{
    match e {
        Expr::Aggregate(ex) => Expr::Aggregate(
            AggregateExpr {
                op: ex.op,
                expr: Box::new(clone_expr(&*ex.expr)),
                param: match &ex.param {
                    Some(param) => Some(Box::new(clone_expr(&**param))),
                    None => None,
                },
                modifier: clone_list(&ex.modifier),
            },
        ),
        Expr::Unary(ex) => Expr::Unary(UnaryExpr { expr: Box::new(clone_expr(&*ex.expr)) }),
        Expr::Binary(ex) => Expr::Binary(
            BinaryExpr {
                op: ex.op,
                lhs: Box::new(clone_expr(&*ex.lhs)),
                rhs: Box::new(clone_expr(&*ex.rhs)),
                modifier: match &ex.modifier {
                    Some(modifier) => Some(modifier.clone()),
                    None => None,
                },
            },
        ),
        Expr::Paren(ex) => Expr::Paren(ParenExpr { expr: Box::new(clone_expr(&*ex.expr)) }),
        Expr::Subquery(ex) => Expr::Subquery(
            SubqueryExpr {
                expr: Box::new(clone_expr(&*ex.expr)),
                offset: match &ex.offset {
                    Some(offset) => Some(offset.clone()),
                    None => None,
                },
                at: match &ex.at {
                    Some(at) => Some(at.clone()),
                    None => None,
                },
                range: ex.range.clone(),
                step: match &ex.step {
                    Some(step) => Some(step.clone()),
                    None => None,
                },
            },
        ),
        Expr::NumberLiteral(ex) => Expr::NumberLiteral(*ex),
        Expr::StringLiteral(ex) => Expr::StringLiteral(StringLiteral { val: ex.val.clone() }),
        Expr::VectorSelector(ex) => Expr::VectorSelector(clone_selector(ex)),
        Expr::MatrixSelector(ex) => Expr::MatrixSelector(
            MatrixSelector {
                vector_selector: clone_selector(&ex.vector_selector),
                range: ex.range.clone(),
            },
        ),
        Expr::Call(ex) => Expr::Call(
            Call { func: ex.func.clone(), args: FunctionArgs { args: clone_args(&ex.args.args) } },
        ),
        Expr::Extension(ex) => Expr::Extension(
            Extension {
                name: ex.name.clone(),
                value_type: ex.value_type,
                children: clone_children(&ex.children),
            },
        ),
    }
}

impl Clone for Expr {
    /// A copy of the whole tree.
    fn clone(&self) -> (r: Expr)
        ensures
            self.is_copy(&r),
    {
        clone_expr(self)
    }
}

impl VectorSelector {
    /// `other` is a copy of this selector: the same name, `offset` and `@`,
    /// and the same matchers in the same order.
    pub open spec fn is_copy(&self, other: &VectorSelector) -> bool {
        &&& other.name == self.name
        &&& self.matchers.is_copy(&other.matchers)
        &&& other.offset == self.offset
        &&& other.at == self.at
    }
}

/// `b` lists as many arguments as `a`, each a copy of the one in its place.
pub open spec fn are_argument_copies(a: Seq<Box<Expr>>, b: Seq<Box<Expr>>) -> bool {
    &&& b.len() == a.len()
    &&& forall|i: int| 0 <= i < a.len() ==> (#[trigger] a[i]).is_copy(&*b[i])
}

/// `b` lists as many expressions as `a`, each a copy of the one in its place.
pub open spec fn are_copies(a: Seq<Expr>, b: Seq<Expr>) -> bool {
    &&& b.len() == a.len()
    &&& forall|i: int| 0 <= i < a.len() ==> (#[trigger] a[i]).is_copy(&b[i])
}

impl Expr {
    /// `other` is a copy of this tree: node for node of the same kind, with
    /// the same operators, numbers, strings, durations and instants, with
    /// copies of the modifiers, matchers and signatures, and with copies of
    /// the operands in the same places.
    pub open spec fn is_copy(&self, other: &Expr) -> bool
        decreases self,
    {
        match (self, other) {
            (Expr::Aggregate(a), Expr::Aggregate(b)) => {
                &&& b.op == a.op
                &&& a.expr.is_copy(&*b.expr)
                &&& match (a.param, b.param) {
                    (Some(p), Some(q)) => p.is_copy(&*q),
                    (None, None) => true,
                    _ => false,
                }
                &&& is_list_copy(a.modifier, b.modifier)
            },
            (Expr::Unary(a), Expr::Unary(b)) => a.expr.is_copy(&*b.expr),
            (Expr::Binary(a), Expr::Binary(b)) => {
                &&& b.op == a.op
                &&& a.lhs.is_copy(&*b.lhs)
                &&& a.rhs.is_copy(&*b.rhs)
                &&& match (a.modifier, b.modifier) {
                    (Some(m), Some(n)) => m.is_copy(&n),
                    (None, None) => true,
                    _ => false,
                }
            },
            (Expr::Paren(a), Expr::Paren(b)) => a.expr.is_copy(&*b.expr),
            (Expr::Subquery(a), Expr::Subquery(b)) => {
                &&& a.expr.is_copy(&*b.expr)
                &&& b.offset == a.offset
                &&& b.at == a.at
                &&& b.range == a.range
                &&& b.step == a.step
            },
            (Expr::NumberLiteral(a), Expr::NumberLiteral(b)) => b == a,
            (Expr::StringLiteral(a), Expr::StringLiteral(b)) => b == a,
            (Expr::VectorSelector(a), Expr::VectorSelector(b)) => a.is_copy(b),
            (Expr::MatrixSelector(a), Expr::MatrixSelector(b)) => {
                &&& a.vector_selector.is_copy(&b.vector_selector)
                &&& b.range == a.range
            },
            (Expr::Call(a), Expr::Call(b)) => {
                &&& a.func.is_copy(&b.func)
                &&& b.args.args@.len() == a.args.args@.len()
                &&& forall|i: int|
                    0 <= i < a.args.args@.len() ==> (#[trigger] a.args.args@[i]).is_copy(
                        &*b.args.args@[i],
                    )
            },
            (Expr::Extension(a), Expr::Extension(b)) => {
                &&& b.name == a.name
                &&& b.value_type == a.value_type
                &&& b.children@.len() == a.children@.len()
                &&& forall|i: int|
                    0 <= i < a.children@.len() ==> (#[trigger] a.children@[i]).is_copy(
                        &b.children@[i],
                    )
            },
            _ => false,
        }
    }
}

} // verus!
