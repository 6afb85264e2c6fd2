//! What holds of a node that `check_ast` has accepted.

use crate::label::common;
use crate::label::is_least;
use crate::label::least;
use crate::label::lemma_common_contains;
use crate::label::lemma_least_unique;
use crate::label::Labels;
use crate::parser::ast::AggregateExpr;
use crate::parser::ast::AtModifier;
use crate::parser::ast::BinModifier;
use crate::parser::ast::BinaryExpr;
use crate::parser::ast::Call;
use crate::parser::ast::Expr;
use crate::parser::ast::LabelModifier;
use crate::parser::ast::Offset;
use crate::parser::ast::ParenExpr;
use crate::parser::ast::SubqueryExpr;
use crate::parser::ast::VectorSelector;
use crate::parser::check::arg_fits;
use crate::parser::check::arity_error;
use crate::parser::check::is_first_misfit;
use crate::parser::check::is_scalar_or_vector;
use crate::parser::check::is_special_case;
use crate::parser::check::joint_label_text;
use crate::parser::check::metric_names;
use crate::parser::check::normalized_modifier;
use crate::parser::check::param_type;
use crate::parser::check::spec_check_ast;
use crate::parser::check::spec_check_binary;
use crate::parser::check::spec_check_call;
use crate::parser::function::Function;
use crate::parser::function::FunctionArgs;
use crate::parser::token::lemma_token_classes;
use crate::parser::token::TokenId;
use crate::parser::token::TokenType;
use crate::parser::token::T_BOTTOMK;
use crate::parser::token::T_COUNT_VALUES;
use crate::parser::token::T_QUANTILE;
use crate::parser::token::T_TOPK;
use crate::parser::value::ValueType;
use crate::util::text::lemma_least_index;
use crate::util::text::least_index;
use crate::util::text::lex_le;
use std::time::Duration;
use vstd::prelude::*;

verus! {

/// A binary expression obeys the rules of its operator.
///
/// The operator is one; `bool` stands on a comparison only, and a comparison
/// of two scalars has it; an `on` list and a grouping list share no label;
/// both operands yield a scalar or a vector, and a matching list that names a
/// label stands between two vectors only. A set operator stands between two
/// vectors and has no grouping list.
pub open spec fn binary_rules(ex: BinaryExpr) -> bool {
    let lhs = ex.lhs.spec_value_type();
    let rhs = ex.rhs.spec_value_type();
    &&& ex.op.is_operator()
    &&& ex.return_bool() ==> ex.op.is_comparison_operator()
    &&& ex.op.is_comparison_operator() && lhs == ValueType::Scalar && rhs == ValueType::Scalar
        ==> ex.return_bool()
    &&& ex.is_matching_on() ==> !ex.is_labels_joint()
    &&& is_scalar_or_vector(lhs) && is_scalar_or_vector(rhs)
    &&& ex.is_matching_labels_not_empty() ==> lhs == ValueType::Vector && rhs == ValueType::Vector
    &&& ex.op.is_set_operator() ==> {
        &&& lhs == ValueType::Vector && rhs == ValueType::Vector
        &&& !(ex.modifier matches Some(modifier) && (modifier.card is OneToMany
            || modifier.card is ManyToOne))
    }
}

/// A binary expression obeys the rules of its operator and is in normal
/// form: a set operator carries modifiers, and they pair many to many.
pub open spec fn valid_binary(ex: BinaryExpr) -> bool {
    &&& binary_rules(ex)
    &&& ex.op.is_set_operator() ==> (ex.modifier matches Some(modifier)
        && modifier.card is ManyToMany)
}

/// An aggregation has an aggregator for its operator and a vector to
/// aggregate; `topk`, `bottomk` and `quantile` have a scalar parameter, and
/// `count_values` has a string parameter.
pub open spec fn valid_aggregate(ex: AggregateExpr) -> bool {
    let op = ex.op.0;
    &&& ex.op.is_aggregator()
    &&& ex.expr.spec_value_type() == ValueType::Vector
    &&& op == T_TOPK || op == T_BOTTOMK || op == T_QUANTILE ==> param_type(ex) == Some(
        ValueType::Scalar,
    )
    &&& op == T_COUNT_VALUES ==> param_type(ex) == Some(ValueType::String)
}

/// A call has a number of arguments that its function takes, and each
/// argument fits its slot, unless the call is a special case.
pub open spec fn valid_call(call: Call) -> bool {
    &&& arity_error(call) is None
    &&& is_special_case(call) || forall|i: int|
        0 <= i < call.args.args@.len() ==> arg_fits(call, i)
}

/// A vector selector has a matcher that refuses the empty string, and at
/// most one matcher on the metric name.
pub open spec fn valid_vector_selector(ex: VectorSelector) -> bool {
    &&& !ex.matchers.all_match_empty()
    &&& metric_names(ex).len() <= 1
}

/// The node obeys the rules of its kind. Parentheses, literals, matrix
/// selectors and host-supplied nodes have none.
pub open spec fn valid_node(expr: Expr) -> bool {
    match expr {
        Expr::Binary(ex) => valid_binary(ex),
        Expr::Aggregate(ex) => valid_aggregate(ex),
        Expr::Call(ex) => valid_call(ex),
        Expr::Unary(ex) => is_scalar_or_vector(ex.expr.spec_value_type()),
        Expr::Subquery(ex) => ex.expr.spec_value_type() == ValueType::Vector,
        Expr::VectorSelector(ex) => valid_vector_selector(ex),
        _ => true,
    }
}

proof fn lemma_call_accepted(call: Call)
    ensures
        spec_check_call(call) is Ok <==> valid_call(call),
{
    if arity_error(call) is None && !is_special_case(call) {
        if exists|i: int| 0 <= i < call.args.args@.len() && !arg_fits(call, i) {
            let i = choose|i: int| 0 <= i < call.args.args@.len() && !arg_fits(call, i);
            lemma_first_misfit(call, i);
        }
    }
}

proof fn lemma_first_misfit(call: Call, i: int)
    requires
        0 <= i < call.args.args@.len(),
        !arg_fits(call, i),
    ensures
        exists|k: int| is_first_misfit(call, k),
    decreases i,
{
    if exists|j: int| 0 <= j < i && !arg_fits(call, j) {
        let j = choose|j: int| 0 <= j < i && !arg_fits(call, j);
        lemma_first_misfit(call, j);
    } else {
        assert(is_first_misfit(call, i));
    }
}

/// `check_ast` accepts exactly the nodes that obey the rules of their kind.
/// What it returns is the node itself, for a binary expression in normal
/// form; it is valid, yields the same type of value, and passes the check
/// again unchanged.
pub proof fn lemma_check_ast_accepts_valid(expr: Expr)
    ensures
        spec_check_ast(expr) is Ok <==> match expr {
            Expr::Binary(ex) => binary_rules(ex),
            _ => valid_node(expr),
        },
        spec_check_ast(expr) matches Ok(checked) ==> {
            &&& valid_node(checked)
            &&& checked.spec_value_type() == expr.spec_value_type()
            &&& spec_check_ast(checked) == Ok::<Expr, Seq<char>>(checked)
            &&& match expr {
                Expr::Binary(ex) => checked == Expr::Binary(
                    BinaryExpr { modifier: normalized_modifier(ex), ..ex },
                ),
                _ => checked == expr,
            }
        },
{
    match expr {
        Expr::Call(call) => {
            lemma_call_accepted(call);
        },
        Expr::Binary(ex) => {
            lemma_token_classes(ex.op);
        },
        _ => {},
    }
}

/// After the check, a set operator pairs many to many: whatever modifiers
/// an accepted `and`, `or` or `unless` was written with, the node returned
/// carries modifiers, and their pairing is `ManyToMany`.
pub proof fn lemma_set_operator_many_to_many(ex: BinaryExpr)
    requires
        ex.op.is_set_operator(),
        spec_check_ast(Expr::Binary(ex)) is Ok,
    ensures
        spec_check_ast(Expr::Binary(ex)) matches Ok(Expr::Binary(checked)) && {
            &&& checked.modifier matches Some(modifier) && modifier.card is ManyToMany
            &&& checked.op == ex.op
            &&& checked.lhs == ex.lhs
            &&& checked.rhs == ex.rhs
        },
{
}

/// Two sets of labels that share a label have a lexicographically first
/// shared label.
pub proof fn lemma_shared_labels_have_least(a: Labels, b: Labels, label: Seq<char>)
    requires
        a@.contains(label),
        b@.contains(label),
    ensures
        is_least(least(a@.intersect(b@)), a@.intersect(b@)),
{
    let shared = common(a.names(), b@);
    lemma_common_contains(a.names(), b@, label);
    lemma_least_index(shared);
    let first = shared[least_index(shared)];
    lemma_common_contains(a.names(), b@, first);
    assert forall|m: Seq<char>| a@.intersect(b@).contains(m) implies lex_le(
        first,
        m,
    ) by {
        lemma_common_contains(a.names(), b@, m);
        let k = choose|k: int| 0 <= k < shared.len() && shared[k] == m;
        assert(lex_le(first, shared[k]));
    }
    lemma_least_unique(first, a@.intersect(b@));
}

/// The first three rules of a binary expression hold: the operator is one,
/// `bool` stands on a comparison only, and a comparison of two scalars has
/// it.
pub open spec fn operator_rules_hold(ex: BinaryExpr) -> bool {
    &&& ex.op.is_operator()
    &&& ex.return_bool() ==> ex.op.is_comparison_operator()
    &&& ex.op.is_comparison_operator() && ex.lhs.spec_value_type() == ValueType::Scalar
        && ex.rhs.spec_value_type() == ValueType::Scalar ==> ex.return_bool()
}

/// A label in both the `on` list and the grouping list is refused: where
/// `on(..)` and `group_left(..)` or `group_right(..)` share a label, the check
/// rejects the expression. Where the operator rules hold, which are checked
/// before, the diagnostic names the lexicographically first label that the
/// two lists share.
pub proof fn lemma_joint_labels_rejected(ex: BinaryExpr, label: Seq<char>)
    requires
        ex.modifier is Some,
        ex.modifier->0.matching matches Some(LabelModifier::Include(on)) && on@.contains(label),
        ex.modifier->0.card.spec_labels() matches Some(group) && group@.contains(label),
    ensures
        spec_check_ast(Expr::Binary(ex)) is Err,
        operator_rules_hold(ex) ==> {
            let shared = ex.modifier->0.matching->0.spec_labels()@.intersect(
                ex.modifier->0.card.spec_labels()->0@,
            );
            &&& is_least(least(shared), shared)
            &&& spec_check_binary(ex) == Err::<Expr, Seq<char>>(joint_label_text(least(shared)))
        },
{
    let on = ex.modifier->0.matching->0.spec_labels();
    let group = ex.modifier->0.card.spec_labels()->0;
    lemma_shared_labels_have_least(on, group, label);
}

/// The operands of the node are valid trees. The vector selector inside a
/// matrix selector counts as its operand. What a host-supplied node holds is
/// the host's matter.
pub open spec fn valid_operands(expr: Expr) -> bool
    decreases expr, 0nat,
{
    match expr {
        Expr::Aggregate(ex) => valid_tree(*ex.expr) && match ex.param {
            Some(param) => valid_tree(*param),
            None => true,
        },
        Expr::Unary(ex) => valid_tree(*ex.expr),
        Expr::Binary(ex) => valid_tree(*ex.lhs) && valid_tree(*ex.rhs),
        Expr::Paren(ex) => valid_tree(*ex.expr),
        Expr::Subquery(ex) => valid_tree(*ex.expr),
        Expr::MatrixSelector(ex) => valid_vector_selector(ex.vector_selector),
        Expr::Call(ex) => forall|i: int|
            0 <= i < ex.args.args@.len() ==> valid_tree(*#[trigger] ex.args.args@[i]),
        _ => true,
    }
}

/// Every node of the tree obeys the rules of its kind.
pub open spec fn valid_tree(expr: Expr) -> bool
    decreases expr, 1nat,
{
    valid_node(expr) && valid_operands(expr)
}

/// A node that `check_ast` accepts over valid operands is a valid tree: a
/// tree built bottom-up, each node passed through the check once its operands
/// are built, is valid in every node.
pub proof fn lemma_checked_over_valid_operands(expr: Expr)
    requires
        valid_operands(expr),
    ensures
        spec_check_ast(expr) matches Ok(checked) ==> valid_tree(checked),
{
    lemma_check_ast_accepts_valid(expr);
}

/// The constructors keep what is valid. Parentheses, negation, a subquery,
/// a binary operator, an aggregation and a call over valid trees have valid
/// operands; a matrix selector over a valid vector selector is a valid tree;
/// and setting `@` or an offset on a valid tree leaves it one.
pub proof fn lemma_constructors_keep_valid(
    expr: Expr,
    other: Expr,
    op: TokenId,
    modifier: Option<BinModifier>,
    range: Duration,
    step: Option<Duration>,
    at: AtModifier,
    offset: Offset,
)
    requires
        valid_tree(expr),
        valid_tree(other),
    ensures
        valid_operands(Expr::Paren(ParenExpr { expr: Box::new(expr) })),
        Expr::spec_new_unary_expr(expr) matches Ok(negated) ==> valid_tree(negated),
        valid_operands(
            Expr::Subquery(
                SubqueryExpr {
                    expr: Box::new(expr),
                    offset: None,
                    at: None,
                    range,
                    step,
                },
            ),
        ),
        valid_operands(
            Expr::Binary(
                BinaryExpr {
                    op: TokenType(op),
                    lhs: Box::new(expr),
                    rhs: Box::new(other),
                    modifier,
                },
            ),
        ),
        Expr::spec_new_matrix_selector(expr, range) matches Ok(matrix) ==> valid_tree(matrix),
        expr.spec_at_expr(at) matches Ok(set) ==> valid_tree(set),
        expr.spec_offset_expr(offset) matches Ok(set) ==> valid_tree(set),
{
}

/// An aggregation or a call whose arguments are all valid trees has valid
/// operands.
pub proof fn lemma_arguments_keep_valid(
    op: TokenId,
    modifier: Option<LabelModifier>,
    func: Function,
    args: FunctionArgs,
)
    requires
        forall|i: int| 0 <= i < args.args@.len() ==> valid_tree(*#[trigger] args.args@[i]),
    ensures
        Expr::spec_new_aggregate_expr(op, modifier, args) matches Ok(aggregate) ==> valid_operands(
            aggregate,
        ),
        valid_operands(Expr::Call(Call { func, args })),
{
}

} // verus!
