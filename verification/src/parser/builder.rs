//! The constructors of the tree.
//!
//! A grammar driver calls them bottom-up. Each one either returns the new
//! node or refuses the composition with a diagnostic; what it checks is local
//! to the node, and what depends on the types of whole subtrees is left to
//! `check_ast`.

use crate::label::matcher::MatchOp;
use crate::label::matcher::Matcher;
use crate::label::matcher::Matchers;
use crate::label::METRIC_NAME;
use crate::parser::ast::AggregateExpr;
use crate::parser::ast::AtModifier;
use crate::parser::ast::BinModifier;
use crate::parser::ast::BinaryExpr;
use crate::parser::ast::Call;
use crate::parser::ast::Expr;
use crate::parser::ast::LabelModifier;
use crate::parser::ast::MatrixSelector;
use crate::parser::ast::NumberLiteral;
use crate::parser::ast::Offset;
use crate::parser::ast::ParenExpr;
use crate::parser::ast::StringLiteral;
use crate::parser::ast::SubqueryExpr;
use crate::parser::ast::UnaryExpr;
use crate::parser::ast::VectorSelector;
use crate::parser::diag::agrees;
use crate::parser::diag::fail;
use crate::parser::diag::join3;
use crate::parser::function::Function;
use crate::parser::function::FunctionArgs;
use crate::parser::token::token_display;
use crate::parser::token::token_text;
use crate::parser::token::TokenId;
use crate::parser::token::TokenType;
use crate::parser::value::ValueType;
use crate::util::number::bits_negated;
use crate::util::number::negated;
use crate::util::text::decimal;
use crate::util::text::decimal_string;
use core::ops::Neg;
use std::time::Duration;
use vstd::prelude::*;
use vstd::std_specs::convert::FromSpecImpl;
use vstd::std_specs::ops::NegSpecImpl;

verus! {

/// The diagnostic for an aggregation written without arguments.
pub open spec fn no_arguments_text(op: TokenId) -> Seq<char> {
    "no arguments for aggregate expression '"@ + token_text(op) + "' provided"@
}

/// The diagnostic for an aggregation written with `got` arguments where its
/// operator takes `expected`.
pub open spec fn wrong_argument_count_text(expected: nat, got: nat) -> Seq<char> {
    "wrong number of arguments for aggregate expression provided, expected "@ + decimal(expected)
        + ", got "@ + decimal(got)
}

/// The number of arguments an aggregation takes: the vector, and before it a
/// parameter where the operator has one.
pub open spec fn aggregate_arity(op: TokenType) -> nat {
    if op.is_aggregator_with_param() {
        2
    } else {
        1
    }
}

impl NumberLiteral {
    /// The literal of the negated number.
    pub open spec fn negation(self) -> NumberLiteral {
        NumberLiteral { bits: negated(self.bits) }
    }
}

impl Neg for NumberLiteral {
    type Output = NumberLiteral;

    /// The literal of the negated number.
    fn neg(self) -> (r: NumberLiteral) {
        NumberLiteral { bits: bits_negated(self.bits) }
    }
}

impl NegSpecImpl for NumberLiteral {
    open spec fn obeys_neg_spec() -> bool {
        true
    }

    open spec fn neg_req(self) -> bool {
        true
    }

    open spec fn neg_spec(self) -> NumberLiteral {
        self.negation()
    }
}

impl Neg for VectorSelector {
    type Output = UnaryExpr;

    /// The negation of the selector.
    fn neg(self) -> (r: UnaryExpr) {
        UnaryExpr { expr: Box::new(Expr::VectorSelector(self)) }
    }
}

impl NegSpecImpl for VectorSelector {
    open spec fn obeys_neg_spec() -> bool {
        true
    }

    open spec fn neg_req(self) -> bool {
        true
    }

    open spec fn neg_spec(self) -> UnaryExpr {
        UnaryExpr { expr: Box::new(Expr::VectorSelector(self)) }
    }
}

impl Neg for Expr {
    type Output = Expr;

    /// The negation of the expression.
    fn neg(self) -> (r: Expr) {
        match self {
            Expr::NumberLiteral(nl) => Expr::NumberLiteral(nl.neg()),
            _ => Expr::Unary(UnaryExpr { expr: Box::new(self) }),
        }
    }
}

impl NegSpecImpl for Expr {
    open spec fn obeys_neg_spec() -> bool {
        true
    }

    open spec fn neg_req(self) -> bool {
        true
    }

    open spec fn neg_spec(self) -> Expr {
        self.negation()
    }
}

impl From<String> for VectorSelector {
    /// The selector of the metric `name`: its one matcher asks that the
    /// metric-name label equal `name`.
    fn from(name: String) -> (r: VectorSelector)
        ensures
            r.is_named(name@),
    {
        let matcher = Matcher::new_eq_metric_matcher(name.clone());
        VectorSelector { name: Some(name), offset: None, at: None, matchers: Matchers::one(matcher) }
    }
}

impl FromSpecImpl<String> for VectorSelector {
    /// The conversion makes a new string, which no specification function
    /// can name: its contract is the `ensures` it carries.
    open spec fn obeys_from_spec() -> bool {
        false
    }

    open spec fn from_spec(name: String) -> VectorSelector {
        arbitrary()
    }
}

impl From<&str> for VectorSelector {
    /// The selector of the metric `name`.
    fn from(name: &str) -> (r: VectorSelector)
        ensures
            r.is_named(name@),
    {
        VectorSelector::from(String::from_str(name))
    }
}

impl FromSpecImpl<&str> for VectorSelector {
    /// The conversion makes a new string, which no specification function
    /// can name: its contract is the `ensures` it carries.
    open spec fn obeys_from_spec() -> bool {
        false
    }

    open spec fn from_spec(name: &str) -> VectorSelector {
        arbitrary()
    }
}

impl VectorSelector {
    /// The selector is that of the metric `name` and nothing else: it has no
    /// `offset` and no `@`, and its one matcher asks that the metric-name
    /// label equal `name`.
    pub open spec fn is_named(&self, name: Seq<char>) -> bool {
        &&& self.name matches Some(n) && n@ == name
        &&& self.offset is None
        &&& self.at is None
        &&& self.matchers.matchers@.len() == 1
        &&& self.matchers.matchers@[0].op == MatchOp::Equal
        &&& self.matchers.matchers@[0].name@ == METRIC_NAME@
        &&& self.matchers.matchers@[0].value@ == name
    }
}

impl From<String> for Expr {
    /// The string literal `val`.
    fn from(val: String) -> (r: Expr) {
        Expr::StringLiteral(StringLiteral { val })
    }
}

impl FromSpecImpl<String> for Expr {
    open spec fn obeys_from_spec() -> bool {
        true
    }

    open spec fn from_spec(val: String) -> Expr {
        Expr::StringLiteral(StringLiteral { val })
    }
}

impl From<&str> for Expr {
    /// The string literal that holds the text `s`.
    fn from(s: &str) -> (r: Expr)
        ensures
            r matches Expr::StringLiteral(l) && l.val@ == s@,
    {
        Expr::StringLiteral(StringLiteral { val: String::from_str(s) })
    }
}

impl FromSpecImpl<&str> for Expr {
    /// The conversion makes a new string, which no specification function
    /// can name: its contract is the `ensures` it carries.
    open spec fn obeys_from_spec() -> bool {
        false
    }

    open spec fn from_spec(s: &str) -> Expr {
        arbitrary()
    }
}

impl From<u64> for Expr {
    /// The number literal with the encoding `bits`.
    fn from(bits: u64) -> (r: Expr) {
        Expr::NumberLiteral(NumberLiteral { bits })
    }
}

impl FromSpecImpl<u64> for Expr {
    open spec fn obeys_from_spec() -> bool {
        true
    }

    open spec fn from_spec(bits: u64) -> Expr {
        Expr::NumberLiteral(NumberLiteral { bits })
    }
}

impl From<VectorSelector> for Expr {
    /// The expression that is the selector `vs`.
    fn from(vs: VectorSelector) -> (r: Expr) {
        Expr::VectorSelector(vs)
    }
}

impl FromSpecImpl<VectorSelector> for Expr {
    open spec fn obeys_from_spec() -> bool {
        true
    }

    open spec fn from_spec(vs: VectorSelector) -> Expr {
        Expr::VectorSelector(vs)
    }
}

impl Expr {
    /// The negation of the expression: a number literal negates in place,
    /// and any other expression is wrapped in a `Unary` node.
    pub open spec fn negation(self) -> Expr {
        match self {
            Expr::NumberLiteral(nl) => Expr::NumberLiteral(nl.negation()),
            _ => Expr::Unary(UnaryExpr { expr: Box::new(self) }),
        }
    }

    /// The type of value the expression yields.
    ///
    /// An aggregation and a vector selector yield a vector; a subquery and a
    /// matrix selector a matrix; a number a scalar; a string a string. A binary
    /// operator yields a scalar where both sides do, and a vector otherwise.
    /// Negation and parentheses yield what their operand yields, a call what
    /// its function returns, and a host-supplied node what it declares.
    pub open spec fn spec_value_type(&self) -> ValueType
        decreases self,
    {
        match self {
            Expr::Aggregate(_) => ValueType::Vector,
            Expr::Unary(ex) => ex.expr.spec_value_type(),
            Expr::Binary(ex) => if ex.lhs.spec_value_type() == ValueType::Scalar
                && ex.rhs.spec_value_type() == ValueType::Scalar {
                ValueType::Scalar
            } else {
                ValueType::Vector
            },
            Expr::Paren(ex) => ex.expr.spec_value_type(),
            Expr::Subquery(_) => ValueType::Matrix,
            Expr::NumberLiteral(_) => ValueType::Scalar,
            Expr::StringLiteral(_) => ValueType::String,
            Expr::VectorSelector(_) => ValueType::Vector,
            Expr::MatrixSelector(_) => ValueType::Matrix,
            Expr::Call(ex) => ex.func.return_type,
            Expr::Extension(ex) => ex.value_type,
        }
    }

    /// The type of value the expression yields.
    #[verifier::when_used_as_spec(spec_value_type)]
    pub fn value_type(&self) -> (r: ValueType)
        ensures
            r == self.spec_value_type(),
        decreases self,
    {
        match self {
            Expr::Aggregate(_) => ValueType::Vector,
            Expr::Unary(ex) => ex.expr.value_type(),
            Expr::Binary(ex) => {
                if ex.lhs.value_type() == ValueType::Scalar && ex.rhs.value_type()
                    == ValueType::Scalar {
                    ValueType::Scalar
                } else {
                    ValueType::Vector
                }
            },
            Expr::Paren(ex) => ex.expr.value_type(),
            Expr::Subquery(_) => ValueType::Matrix,
            Expr::NumberLiteral(_) => ValueType::Scalar,
            Expr::StringLiteral(_) => ValueType::String,
            Expr::VectorSelector(_) => ValueType::Vector,
            Expr::MatrixSelector(_) => ValueType::Matrix,
            Expr::Call(ex) => ex.func.return_type,
            Expr::Extension(ex) => ex.value_type,
        }
    }

    /// The encoding of the number, where the expression is a number literal.
    pub fn scalar_value(&self) -> (r: Option<u64>)
        ensures
            r == match self {
                Expr::NumberLiteral(nl) => Some(nl.bits),
                _ => None,
            },
    {
        match self {
            Expr::NumberLiteral(nl) => Some(nl.bits),
            _ => None,
        }
    }

    /// A vector selector with the given name and matchers, and neither
    /// `offset` nor `@`. Nothing is checked here.
    pub fn new_vector_selector(name: Option<String>, matchers: Matchers) -> (r: Result<
        Expr,
        String,
    >)
        ensures
            r == Ok::<Expr, String>(
                Expr::VectorSelector(VectorSelector { name, matchers, offset: None, at: None }),
            ),
    {
        Ok(Expr::VectorSelector(VectorSelector { name, offset: None, at: None, matchers }))
    }

    /// What `new_unary_expr` returns: the negation of `expr`, unless `expr`
    /// yields a string or a matrix.
    pub open spec fn spec_new_unary_expr(expr: Expr) -> Result<Expr, Seq<char>> {
        match expr.spec_value_type() {
            ValueType::String => Err(
                "unary expression only allowed on expressions of type scalar or vector, got: string"@,
            ),
            ValueType::Matrix => Err(
                "unary expression only allowed on expressions of type scalar or vector, got: matrix"@,
            ),
            _ => Ok(expr.negation()),
        }
    }

    /// The negation of `expr`, which must yield a scalar or a vector.
    pub fn new_unary_expr(expr: Expr) -> (r: Result<Expr, String>)
        ensures
            agrees(r, Expr::spec_new_unary_expr(expr)),
    {
        match expr.value_type() {
            ValueType::String => fail(
                "unary expression only allowed on expressions of type scalar or vector, got: string",
            ),
            ValueType::Matrix => fail(
                "unary expression only allowed on expressions of type scalar or vector, got: matrix",
            ),
            _ => Ok(expr.neg()),
        }
    }

    /// The subquery over `expr`, with neither `offset` nor `@`. The type of
    /// `expr` is not checked here.
    pub fn new_subquery_expr(expr: Expr, range: Duration, step: Option<Duration>) -> (r: Result<
        Expr,
        String,
    >)
        ensures
            r == Ok::<Expr, String>(
                Expr::Subquery(
                    SubqueryExpr { expr: Box::new(expr), offset: None, at: None, range, step },
                ),
            ),
    {
        Ok(Expr::Subquery(SubqueryExpr { expr: Box::new(expr), offset: None, at: None, range, step }))
    }

    /// `expr` in parentheses.
    pub fn new_paren_expr(expr: Expr) -> (r: Result<Expr, String>)
        ensures
            r == Ok::<Expr, String>(Expr::Paren(ParenExpr { expr: Box::new(expr) })),
    {
        Ok(Expr::Paren(ParenExpr { expr: Box::new(expr) }))
    }

    /// What `new_matrix_selector` returns: the matrix selector over `expr`
    /// where `expr` is a vector selector with neither `offset` nor `@`.
    pub open spec fn spec_new_matrix_selector(expr: Expr, range: Duration) -> Result<
        Expr,
        Seq<char>,
    > {
        match expr {
            Expr::VectorSelector(vs) => if vs.offset is Some {
                Err("no offset modifiers allowed before range"@)
            } else if vs.at is Some {
                Err("no @ modifiers allowed before range"@)
            } else {
                Ok(Expr::MatrixSelector(MatrixSelector { vector_selector: vs, range }))
            },
            _ => Err("ranges only allowed for vector selectors"@),
        }
    }

    /// The matrix selector of the vector selector `expr` over `range`.
    ///
    /// `expr` must be a vector selector on which neither `offset` nor `@` is
    /// set yet; they may be set on the matrix selector afterwards.
    pub fn new_matrix_selector(expr: Expr, range: Duration) -> (r: Result<Expr, String>)
        ensures
            agrees(r, Expr::spec_new_matrix_selector(expr, range)),
    {
        match expr {
            Expr::VectorSelector(vs) => {
                if vs.offset.is_some() {
                    fail("no offset modifiers allowed before range")
                } else if vs.at.is_some() {
                    fail("no @ modifiers allowed before range")
                } else {
                    Ok(Expr::MatrixSelector(MatrixSelector { vector_selector: vs, range }))
                }
            },
            _ => fail("ranges only allowed for vector selectors"),
        }
    }

    /// What `at_expr` returns: the node with its `@` set to `at`, where the
    /// node is a vector selector, a matrix selector or a subquery on which
    /// `@` is not set yet.
    pub open spec fn spec_at_expr(self, at: AtModifier) -> Result<Expr, Seq<char>> {
        match self {
            Expr::VectorSelector(vs) => if vs.at is None {
                Ok(Expr::VectorSelector(VectorSelector { at: Some(at), ..vs }))
            } else {
                Err("@ <timestamp> may not be set multiple times"@)
            },
            Expr::MatrixSelector(ms) => if ms.vector_selector.at is None {
                Ok(
                    Expr::MatrixSelector(
                        MatrixSelector {
                            vector_selector: VectorSelector { at: Some(at), ..ms.vector_selector },
                            ..ms
                        },
                    ),
                )
            } else {
                Err("@ <timestamp> may not be set multiple times"@)
            },
            Expr::Subquery(s) => if s.at is None {
                Ok(Expr::Subquery(SubqueryExpr { at: Some(at), ..s }))
            } else {
                Err("@ <timestamp> may not be set multiple times"@)
            },
            _ => Err(
                "@ modifier must be preceded by an vector selector or matrix selector or a subquery"@,
            ),
        }
    }

    /// Sets the `@` modifier of a vector selector, of the vector selector
    /// inside a matrix selector, or of a subquery. It can be set once.
    pub fn at_expr(self, at: AtModifier) -> (r: Result<Expr, String>)
        ensures
            agrees(r, self.spec_at_expr(at)),
    {
        match self {
            Expr::VectorSelector(vs) => {
                if vs.at.is_none() {
                    Ok(
                        Expr::VectorSelector(
                            VectorSelector {
                                name: vs.name,
                                matchers: vs.matchers,
                                offset: vs.offset,
                                at: Some(at),
                            },
                        ),
                    )
                } else {
                    fail("@ <timestamp> may not be set multiple times")
                }
            },
            Expr::MatrixSelector(ms) => {
                if ms.vector_selector.at.is_none() {
                    let vs = ms.vector_selector;
                    Ok(
                        Expr::MatrixSelector(
                            MatrixSelector {
                                vector_selector: VectorSelector {
                                    name: vs.name,
                                    matchers: vs.matchers,
                                    offset: vs.offset,
                                    at: Some(at),
                                },
                                range: ms.range,
                            },
                        ),
                    )
                } else {
                    fail("@ <timestamp> may not be set multiple times")
                }
            },
            Expr::Subquery(s) => {
                if s.at.is_none() {
                    Ok(
                        Expr::Subquery(
                            SubqueryExpr {
                                expr: s.expr,
                                offset: s.offset,
                                at: Some(at),
                                range: s.range,
                                step: s.step,
                            },
                        ),
                    )
                } else {
                    fail("@ <timestamp> may not be set multiple times")
                }
            },
            _ => fail(
                "@ modifier must be preceded by an vector selector or matrix selector or a subquery",
            ),
        }
    }

    /// What `offset_expr` returns: the node with its offset set to `offset`,
    /// where the node is a vector selector, a matrix selector or a subquery
    /// on which no offset is set yet.
    pub open spec fn spec_offset_expr(self, offset: Offset) -> Result<Expr, Seq<char>> {
        match self {
            Expr::VectorSelector(vs) => if vs.offset is None {
                Ok(Expr::VectorSelector(VectorSelector { offset: Some(offset), ..vs }))
            } else {
                Err("offset may not be set multiple times"@)
            },
            Expr::MatrixSelector(ms) => if ms.vector_selector.offset is None {
                Ok(
                    Expr::MatrixSelector(
                        MatrixSelector {
                            vector_selector: VectorSelector {
                                offset: Some(offset),
                                ..ms.vector_selector
                            },
                            ..ms
                        },
                    ),
                )
            } else {
                Err("offset may not be set multiple times"@)
            },
            Expr::Subquery(s) => if s.offset is None {
                Ok(Expr::Subquery(SubqueryExpr { offset: Some(offset), ..s }))
            } else {
                Err("offset may not be set multiple times"@)
            },
            _ => Err(
                "offset modifier must be preceded by an vector selector or matrix selector or a subquery"@,
            ),
        }
    }

    /// Sets the offset of a vector selector, of the vector selector inside a
    /// matrix selector, or of a subquery. It can be set once.
    pub fn offset_expr(self, offset: Offset) -> (r: Result<Expr, String>)
        ensures
            agrees(r, self.spec_offset_expr(offset)),
    {
        match self {
            Expr::VectorSelector(vs) => {
                if vs.offset.is_none() {
                    Ok(
                        Expr::VectorSelector(
                            VectorSelector {
                                name: vs.name,
                                matchers: vs.matchers,
                                offset: Some(offset),
                                at: vs.at,
                            },
                        ),
                    )
                } else {
                    fail("offset may not be set multiple times")
                }
            },
            Expr::MatrixSelector(ms) => {
                if ms.vector_selector.offset.is_none() {
                    let vs = ms.vector_selector;
                    Ok(
                        Expr::MatrixSelector(
                            MatrixSelector {
                                vector_selector: VectorSelector {
                                    name: vs.name,
                                    matchers: vs.matchers,
                                    offset: Some(offset),
                                    at: vs.at,
                                },
                                range: ms.range,
                            },
                        ),
                    )
                } else {
                    fail("offset may not be set multiple times")
                }
            },
            Expr::Subquery(s) => {
                if s.offset.is_none() {
                    Ok(
                        Expr::Subquery(
                            SubqueryExpr {
                                expr: s.expr,
                                offset: Some(offset),
                                at: s.at,
                                range: s.range,
                                step: s.step,
                            },
                        ),
                    )
                } else {
                    fail("offset may not be set multiple times")
                }
            },
            _ => fail(
                "offset modifier must be preceded by an vector selector or matrix selector or a subquery",
            ),
        }
    }

    /// The call of `func` on `args`. The arguments are not checked here.
    pub fn new_call(func: Function, args: FunctionArgs) -> (r: Result<Expr, String>)
        ensures
            r == Ok::<Expr, String>(Expr::Call(Call { func, args })),
    {
        Ok(Expr::Call(Call { func, args }))
    }

    /// The binary operator `op` between `lhs` and `rhs`. Nothing is checked
    /// here.
    pub fn new_binary_expr(lhs: Expr, op: TokenId, modifier: Option<BinModifier>, rhs: Expr) -> (r:
        Result<Expr, String>)
        ensures
            r == Ok::<Expr, String>(
                Expr::Binary(
                    BinaryExpr {
                        op: TokenType(op),
                        lhs: Box::new(lhs),
                        rhs: Box::new(rhs),
                        modifier,
                    },
                ),
            ),
    {
        Ok(
            Expr::Binary(
                BinaryExpr { op: TokenType::new(op), lhs: Box::new(lhs), rhs: Box::new(rhs), modifier },
            ),
        )
    }

    /// What `new_aggregate_expr` returns: the aggregation of the last
    /// argument, with the first as its parameter where the operator takes
    /// one, provided the number of arguments is the operator's.
    pub open spec fn spec_new_aggregate_expr(
        op: TokenId,
        modifier: Option<LabelModifier>,
        args: FunctionArgs,
    ) -> Result<Expr, Seq<char>> {
        if args.args@.len() == 0 {
            Err(no_arguments_text(op))
        } else if args.args@.len() != aggregate_arity(TokenType(op)) {
            Err(wrong_argument_count_text(aggregate_arity(TokenType(op)), args.args@.len()))
        } else {
            Ok(
                Expr::Aggregate(
                    AggregateExpr {
                        op: TokenType(op),
                        expr: args.args@.last(),
                        param: if TokenType(op).is_aggregator_with_param() {
                            Some(args.args@[0])
                        } else {
                            None
                        },
                        modifier,
                    },
                ),
            )
        }
    }

    /// The aggregation `op` over `args`.
    ///
    /// `topk`, `bottomk`, `quantile` and `count_values` take a parameter and
    /// then the vector; every other operator takes the vector alone. Whether
    /// `op` is an aggregator at all, and the types of the arguments, are left
    /// to `check_ast`.
    pub fn new_aggregate_expr(op: TokenId, modifier: Option<LabelModifier>, args: FunctionArgs) -> (r:
        Result<Expr, String>)
        ensures
            agrees(r, Expr::spec_new_aggregate_expr(op, modifier, args)),
    {
        let op_type = TokenType::new(op);
        let given = args.args.len();
        if given == 0 {
            return Err(
                join3("no arguments for aggregate expression '", token_display(op), "' provided"),
            );
        }
        let with_param = op_type.is_aggregator_with_param();
        let expected: usize = if with_param {
            2
        } else {
            1
        };
        if given != expected {
            let expected_text = decimal_string(expected);
            let given_text = decimal_string(given);
            let mut msg = String::from_str(
                "wrong number of arguments for aggregate expression provided, expected ",
            );
            msg.append(expected_text.as_str());
            msg.append(", got ");
            msg.append(given_text.as_str());
            return Err(msg);
        }
        let mut rest = args.args;
        let expr = rest.pop().unwrap();
        let param = if with_param {
            rest.pop()
        } else {
            None
        };
        Ok(Expr::Aggregate(AggregateExpr { op: op_type, expr, param, modifier }))
    }
}

/// Negating a number literal gives the literal of the negated number, and
/// negating it again gives the literal back. Negating any other expression
/// wraps it in a `Unary` node.
pub proof fn lemma_negation(expr: Expr)
    ensures
        expr matches Expr::NumberLiteral(nl) ==> expr.negation() == Expr::NumberLiteral(
            NumberLiteral { bits: negated(nl.bits) },
        ) && expr.negation().negation() == expr,
        !(expr is NumberLiteral) ==> expr.negation() == Expr::Unary(
            UnaryExpr { expr: Box::new(expr) },
        ),
        expr.negation().spec_value_type() == expr.spec_value_type(),
{
}

/// `@` can be set once: where `at_expr` has set it, a second `at_expr` on
/// the result is refused, whatever the two modifiers are.
pub proof fn lemma_at_set_once(expr: Expr, first: AtModifier, second: AtModifier)
    ensures
        expr.spec_at_expr(first) matches Ok(set) ==> set.spec_at_expr(second) == Err::<
            Expr,
            Seq<char>,
        >("@ <timestamp> may not be set multiple times"@),
{
}

/// An offset can be set once: where `offset_expr` has set it, a second
/// `offset_expr` on the result is refused, whatever the two offsets are.
pub proof fn lemma_offset_set_once(expr: Expr, first: Offset, second: Offset)
    ensures
        expr.spec_offset_expr(first) matches Ok(set) ==> set.spec_offset_expr(second) == Err::<
            Expr,
            Seq<char>,
        >("offset may not be set multiple times"@),
{
}

/// Setting `@` and setting the offset do not disturb each other: either
/// order gives the same node.
pub proof fn lemma_at_offset_commute(expr: Expr, at: AtModifier, offset: Offset)
    ensures
        expr.spec_at_expr(at) matches Ok(a) ==> (expr.spec_offset_expr(offset) matches Ok(o)
            ==> a.spec_offset_expr(offset) == o.spec_at_expr(at)),
{
}

} // verus!
