//! The check of a node against the typing rules of the language.
//!
//! `check_ast` looks at one node: at its operator, its modifiers and the
//! types of value that its operands yield. It does not descend. A grammar
//! driver that builds bottom-up passes each node through it once its operands
//! are built.

use crate::label::least;
use crate::label::lemma_least_unique;
use crate::label::matcher::values_named;
use crate::label::METRIC_NAME;
use crate::parser::ast::AggregateExpr;
use crate::parser::ast::BinModifier;
use crate::parser::ast::BinaryExpr;
use crate::parser::ast::Call;
use crate::parser::ast::Expr;
use crate::parser::ast::SubqueryExpr;
use crate::parser::ast::UnaryExpr;
use crate::parser::ast::VectorMatchCardinality;
use crate::parser::ast::VectorSelector;
use crate::parser::diag::agrees;
use crate::parser::diag::fail;
use crate::parser::diag::join3;
use crate::parser::diag::join5;
use crate::parser::function::Function;
use crate::parser::token::token_display;
use crate::parser::token::token_text;
use crate::parser::token::TokenId;
use crate::parser::token::T_BOTTOMK;
use crate::parser::token::T_COUNT_VALUES;
use crate::parser::token::T_QUANTILE;
use crate::parser::token::T_TOPK;
use crate::parser::value::ValueType;
use crate::util::number::bits_is_at_most_zero;
use crate::util::number::bits_is_infinite;
use crate::util::number::bits_is_nan;
use crate::util::number::is_at_most_zero;
use crate::util::number::is_infinite;
use crate::util::number::is_nan;
use crate::util::text::decimal;
use crate::util::text::decimal_string;
use crate::util::text::eq_ignore_ascii_case;
use crate::util::text::index_of_least;
use crate::util::text::str_eq;
use crate::util::text::str_eq_ignore_ascii_case;
use crate::util::text::string_views;
use crate::util::text::two_least;
use vstd::prelude::*;

verus! {

/// The diagnostic for a value of type `actual`, or none at all, where one of
/// type `expected` is called for.
pub open spec fn expect_type_text(
    expected: ValueType,
    actual: Option<ValueType>,
    context: Seq<char>,
) -> Seq<char> {
    "expected type "@ + expected.name() + " in "@ + context + ", got "@ + match actual {
        Some(actual) => actual.name(),
        None => "None"@,
    }
}

/// What `expect_type` returns.
pub open spec fn spec_expect_type(
    expected: ValueType,
    actual: Option<ValueType>,
    context: Seq<char>,
) -> Result<bool, Seq<char>> {
    if actual == Some(expected) {
        Ok(true)
    } else {
        Err(expect_type_text(expected, actual, context))
    }
}

/// Accepts `actual` where it is the type `expected`, and otherwise says in a
/// diagnostic what was expected in `context` and what was found.
pub fn expect_type(expected: ValueType, actual: Option<ValueType>, context: &str) -> (r: Result<
    bool,
    String,
>)
    ensures
        agrees(r, spec_expect_type(expected, actual, context@)),
{
    let found = match actual {
        Some(actual) => {
            if actual == expected {
                return Ok(true);
            }
            actual.as_str()
        },
        None => "None",
    };
    let mut msg = String::from_str("expected type ");
    msg.append(expected.as_str());
    msg.append(" in ");
    msg.append(context);
    msg.append(", got ");
    msg.append(found);
    Err(msg)
}

/// The diagnostic for a binary expression whose operator is none.
pub open spec fn unsupported_operator_text(op: TokenId) -> Seq<char> {
    "binary expression does not support operator '"@ + token_text(op) + "'"@
}

/// The diagnostic for a label that both the `on` list and the grouping list
/// name.
pub open spec fn joint_label_text(label: Seq<char>) -> Seq<char> {
    "label '"@ + label + "' must not occur in ON and GROUP clause at once"@
}

/// The diagnostic for a set operator with a scalar operand.
pub open spec fn set_operator_scalar_text(op: TokenId) -> Seq<char> {
    "set operator '"@ + token_text(op) + "' not allowed in binary scalar expression"@
}

/// The diagnostic for a set operator with a grouping list.
pub open spec fn no_grouping_text(op: TokenId) -> Seq<char> {
    "no grouping allowed for '"@ + token_text(op) + "' operation"@
}

/// The modifiers a checked binary expression carries. A set operator pairs
/// many to many: where it has no modifiers it gets them, and where its
/// modifiers say one-to-one they are corrected. Any other operator keeps what
/// it has.
pub open spec fn normalized_modifier(ex: BinaryExpr) -> Option<BinModifier> {
    if ex.op.is_set_operator() {
        match ex.modifier {
            Some(modifier) => Some(
                if modifier.card is OneToOne {
                    BinModifier { card: VectorMatchCardinality::ManyToMany, ..modifier }
                } else {
                    modifier
                },
            ),
            None => Some(
                BinModifier {
                    card: VectorMatchCardinality::ManyToMany,
                    matching: None,
                    return_bool: false,
                },
            ),
        }
    } else {
        ex.modifier
    }
}

/// The type is that of a scalar or of an instant vector.
pub open spec fn is_scalar_or_vector(t: ValueType) -> bool {
    t == ValueType::Scalar || t == ValueType::Vector
}

/// What the check of a binary expression returns. The rules apply in the
/// order written, and the first one broken gives the diagnostic.
pub open spec fn spec_check_binary(ex: BinaryExpr) -> Result<Expr, Seq<char>> {
    let lhs = ex.lhs.spec_value_type();
    let rhs = ex.rhs.spec_value_type();
    if !ex.op.is_operator() {
        Err(unsupported_operator_text(ex.op.0))
    } else if ex.return_bool() && !ex.op.is_comparison_operator() {
        Err("bool modifier can only be used on comparison operators"@)
    } else if ex.op.is_comparison_operator() && lhs == ValueType::Scalar && rhs
        == ValueType::Scalar && !ex.return_bool() {
        Err("comparisons between scalars must use BOOL modifier"@)
    } else if ex.is_matching_on() && ex.is_labels_joint() {
        Err(joint_label_text(least(ex.modifier->0.joint_labels()->0)))
    } else if ex.op.is_set_operator() && (lhs == ValueType::Scalar || rhs == ValueType::Scalar) {
        Err(set_operator_scalar_text(ex.op.0))
    } else if ex.op.is_set_operator() && lhs == ValueType::Vector && rhs == ValueType::Vector
        && (ex.modifier matches Some(modifier) && (modifier.card is OneToMany
        || modifier.card is ManyToOne)) {
        Err(no_grouping_text(ex.op.0))
    } else if !is_scalar_or_vector(lhs) || !is_scalar_or_vector(rhs) {
        Err("binary expression must contain only scalar and instant vector types"@)
    } else if (lhs != ValueType::Vector || rhs != ValueType::Vector)
        && ex.is_matching_labels_not_empty() {
        Err("vector matching only allowed between vectors"@)
    } else {
        Ok(Expr::Binary(BinaryExpr { modifier: normalized_modifier(ex), ..ex }))
    }
}

fn joint_label_error(ex: &BinaryExpr) -> (r: Option<String>)
    ensures
        r is Some == (ex.is_matching_on() && ex.is_labels_joint()),
        r matches Some(msg) ==> msg@ == joint_label_text(least(ex.modifier->0.joint_labels()->0)),
{
    match &ex.modifier {
        Some(modifier) => {
            if !modifier.is_matching_on() {
                return None;
            }
            match (modifier.card.labels(), &modifier.matching) {
                (Some(group), Some(matching)) => {
                    let on = matching.labels();
                    let ghost shared = on@.intersect(group@);
                    match on.first_common(group) {
                        Some(label) => {
                            proof {
                                lemma_least_unique(label@, shared);
                            }
                            Some(
                                join3(
                                    "label '",
                                    label.as_str(),
                                    "' must not occur in ON and GROUP clause at once",
                                ),
                            )
                        },
                        None => {
                            assert(shared =~= Set::<Seq<char>>::empty());
                            None
                        },
                    }
                },
                _ => None,
            }
        },
        None => None,
    }
}

fn normalize(op_is_set: bool, modifier: Option<BinModifier>) -> (r: Option<BinModifier>)
    ensures
        r == if op_is_set {
            match modifier {
                Some(m) => Some(
                    if m.card is OneToOne {
                        BinModifier { card: VectorMatchCardinality::ManyToMany, ..m }
                    } else {
                        m
                    },
                ),
                None => Some(
                    BinModifier {
                        card: VectorMatchCardinality::ManyToMany,
                        matching: None,
                        return_bool: false,
                    },
                ),
            }
        } else {
            modifier
        },
{
    if !op_is_set {
        return modifier;
    }
    match modifier {
        Some(m) => {
            let one_to_one = match &m.card {
                VectorMatchCardinality::OneToOne => true,
                _ => false,
            };
            if one_to_one {
                Some(m.with_card(VectorMatchCardinality::ManyToMany))
            } else {
                Some(m)
            }
        },
        None => Some(BinModifier::default().with_card(VectorMatchCardinality::ManyToMany)),
    }
}

fn has_grouping(modifier: &Option<BinModifier>) -> (r: bool)
    ensures
        r == (*modifier matches Some(m) && (m.card is OneToMany || m.card is ManyToOne)),
{
    match modifier {
        Some(m) => match &m.card {
            VectorMatchCardinality::OneToMany(_) => true,
            VectorMatchCardinality::ManyToOne(_) => true,
            _ => false,
        },
        None => false,
    }
}

fn scalar_or_vector(t: ValueType) -> (r: bool)
    ensures
        r == is_scalar_or_vector(t),
{
    t == ValueType::Scalar || t == ValueType::Vector
}

fn check_ast_for_binary_expr(ex: BinaryExpr) -> (r: Result<Expr, String>)
    ensures
        agrees(r, spec_check_binary(ex)),
{
    let op = ex.op.id();
    if !ex.op.is_operator() {
        return Err(join3("binary expression does not support operator '", token_display(op), "'"));
    }
    let comparison = ex.op.is_comparison_operator();
    if ex.return_bool() && !comparison {
        return fail("bool modifier can only be used on comparison operators");
    }
    let lhs = ex.lhs.value_type();
    let rhs = ex.rhs.value_type();
    if comparison && lhs == ValueType::Scalar && rhs == ValueType::Scalar && !ex.return_bool() {
        return fail("comparisons between scalars must use BOOL modifier");
    }
    match joint_label_error(&ex) {
        Some(msg) => {
            return Err(msg);
        },
        None => {},
    }
    let set_operator = ex.op.is_set_operator();
    if set_operator {
        if lhs == ValueType::Scalar || rhs == ValueType::Scalar {
            return Err(
                join3(
                    "set operator '",
                    token_display(op),
                    "' not allowed in binary scalar expression",
                ),
            );
        }
        if lhs == ValueType::Vector && rhs == ValueType::Vector && has_grouping(&ex.modifier) {
            return Err(join3("no grouping allowed for '", token_display(op), "' operation"));
        }
    }
    if !scalar_or_vector(lhs) || !scalar_or_vector(rhs) {
        return fail("binary expression must contain only scalar and instant vector types");
    }
    if (lhs != ValueType::Vector || rhs != ValueType::Vector) && ex.is_matching_labels_not_empty() {
        return fail("vector matching only allowed between vectors");
    }
    let modifier = normalize(set_operator, ex.modifier);
    Ok(Expr::Binary(BinaryExpr { op: ex.op, lhs: ex.lhs, rhs: ex.rhs, modifier }))
}

/// The diagnostic for an aggregation whose operator is no aggregator.
pub open spec fn not_an_aggregator_text(op: TokenId) -> Seq<char> {
    "aggregation operator expected in aggregation expression but got '"@ + token_text(op) + "'"@
}

/// The type of value the parameter of an aggregation yields, if it has one.
pub open spec fn param_type(ex: AggregateExpr) -> Option<ValueType> {
    match ex.param {
        Some(param) => Some(param.spec_value_type()),
        None => None,
    }
}

/// What the check of an aggregation returns: the operator must be an
/// aggregator and the aggregated expression a vector; `topk`, `bottomk` and
/// `quantile` need a scalar parameter, `count_values` a string parameter.
pub open spec fn spec_check_aggregate(ex: AggregateExpr) -> Result<Expr, Seq<char>> {
    let context = "aggregation expression"@;
    let op = ex.op.0;
    if !ex.op.is_aggregator() {
        Err(not_an_aggregator_text(op))
    } else if ex.expr.spec_value_type() != ValueType::Vector {
        Err(expect_type_text(ValueType::Vector, Some(ex.expr.spec_value_type()), context))
    } else if (op == T_TOPK || op == T_BOTTOMK || op == T_QUANTILE) && param_type(ex) != Some(
        ValueType::Scalar,
    ) {
        Err(expect_type_text(ValueType::Scalar, param_type(ex), context))
    } else if op == T_COUNT_VALUES && param_type(ex) != Some(ValueType::String) {
        Err(expect_type_text(ValueType::String, param_type(ex), context))
    } else {
        Ok(Expr::Aggregate(ex))
    }
}

fn check_ast_for_aggregate_expr(ex: AggregateExpr) -> (r: Result<Expr, String>)
    ensures
        agrees(r, spec_check_aggregate(ex)),
{
    let op = ex.op.id();
    if !ex.op.is_aggregator() {
        return Err(
            join3(
                "aggregation operator expected in aggregation expression but got '",
                token_display(op),
                "'",
            ),
        );
    }
    match expect_type(ValueType::Vector, Some(ex.expr.value_type()), "aggregation expression") {
        Err(msg) => {
            return Err(msg);
        },
        Ok(_) => {},
    }
    let found = match &ex.param {
        Some(param) => Some(param.value_type()),
        None => None,
    };
    if op == T_TOPK || op == T_BOTTOMK || op == T_QUANTILE {
        match expect_type(ValueType::Scalar, found, "aggregation expression") {
            Err(msg) => {
                return Err(msg);
            },
            Ok(_) => {},
        }
    }
    if op == T_COUNT_VALUES {
        match expect_type(ValueType::String, found, "aggregation expression") {
            Err(msg) => {
                return Err(msg);
            },
            Ok(_) => {},
        }
    }
    Ok(Expr::Aggregate(ex))
}

/// The diagnostic for a call with too few arguments.
pub open spec fn at_least_text(least: nat, name: Seq<char>, got: nat) -> Seq<char> {
    "expected at least "@ + decimal(least) + " argument(s) in call to '"@ + name + "', got "@
        + decimal(got)
}

/// The diagnostic for a call with too many arguments.
pub open spec fn at_most_text(most: nat, name: Seq<char>, got: nat) -> Seq<char> {
    "expected at most "@ + decimal(most) + " argument(s) in call to '"@ + name + "', got "@
        + decimal(got)
}

/// The diagnostic for a call with another number of arguments than its
/// function takes.
pub open spec fn exactly_text(expected: nat, name: Seq<char>, got: nat) -> Seq<char> {
    "expected "@ + decimal(expected) + " argument(s) in call to '"@ + name + "', got "@ + decimal(
        got,
    )
}

/// The context that the diagnostic for an argument of the wrong type names.
pub open spec fn call_context(name: Seq<char>) -> Seq<char> {
    "call to function '"@ + name + "'"@
}

/// The diagnostic for the number of arguments of a call, where it is not one
/// that the function takes.
///
/// A function takes as many arguments as it declares slots. A variadic one
/// may also go without the last, and takes no more than it declares, unless
/// it is `label_join`, which takes any number more.
pub open spec fn arity_error(call: Call) -> Option<Seq<char>> {
    let slots = call.func.arg_types@.len();
    let given = call.args.args@.len();
    let name = call.func.name@;
    if call.func.variadic {
        if slots - 1 > given {
            Some(at_least_text((slots - 1) as nat, name, given))
        } else if given > slots && name != "label_join"@ {
            Some(at_most_text(slots, name, given))
        } else {
            None
        }
    } else if slots != given {
        Some(exactly_text(slots, name, given))
    } else {
        None
    }
}

/// The call applies `exp`, `ln`, `log2` or `log10` to a number literal on
/// which the function has a value of its own: not-a-number or an infinity for
/// all four, and for the logarithms also any number that is at most zero.
/// The function is recognised whatever the case of its name.
pub open spec fn is_special_case(call: Call) -> bool {
    let name = call.func.name@;
    &&& call.args.args@.len() > 0
    &&& *call.args.args@[0] matches Expr::NumberLiteral(nl) && {
        let odd = is_nan(nl.bits) || is_infinite(nl.bits);
        if eq_ignore_ascii_case(name, "exp"@) {
            odd
        } else if eq_ignore_ascii_case(name, "ln"@) || eq_ignore_ascii_case(name, "log2"@)
            || eq_ignore_ascii_case(name, "log10"@) {
            odd || is_at_most_zero(nl.bits)
        } else {
            false
        }
    }
}

/// The type that the function declares for its argument at position `i`:
/// that of slot `i`, and past the last slot that of the last. A function
/// that declares no slot declares no type.
pub open spec fn slot_type(func: Function, i: int) -> Option<ValueType> {
    let slots = func.arg_types@.len();
    if slots == 0 {
        None
    } else if i < slots {
        Some(func.arg_types@[i])
    } else {
        Some(func.arg_types@[slots - 1])
    }
}

/// The argument at position `i` yields the type that the function declares
/// for it.
pub open spec fn arg_fits(call: Call, i: int) -> bool {
    match slot_type(call.func, i) {
        Some(t) => call.args.args@[i].spec_value_type() == t,
        None => true,
    }
}

/// `i` is the position of the first argument that does not fit.
pub open spec fn is_first_misfit(call: Call, i: int) -> bool {
    &&& 0 <= i < call.args.args@.len()
    &&& !arg_fits(call, i)
    &&& forall|j: int| 0 <= j < i ==> arg_fits(call, j)
}

/// What the check of a call returns: the number of arguments must be one
/// that the function takes; then a special case is accepted as it is; then
/// every argument must fit its slot, and the first that does not gives the
/// diagnostic.
pub open spec fn spec_check_call(call: Call) -> Result<Expr, Seq<char>> {
    if arity_error(call) is Some {
        Err(arity_error(call)->0)
    } else if is_special_case(call) {
        Ok(Expr::Call(call))
    } else if exists|i: int| is_first_misfit(call, i) {
        let i = choose|i: int| is_first_misfit(call, i);
        Err(
            expect_type_text(
                slot_type(call.func, i)->0,
                Some(call.args.args@[i].spec_value_type()),
                call_context(call.func.name@),
            ),
        )
    } else {
        Ok(Expr::Call(call))
    }
}

fn count_text(head: &str, count: usize, name: &str, given: usize) -> (r: String)
    ensures
        r@ == head@ + decimal(count as nat) + " argument(s) in call to '"@ + name@ + "', got "@
            + decimal(given as nat),
{
    let count_text = decimal_string(count);
    let given_text = decimal_string(given);
    let mut msg = String::from_str(head);
    msg.append(count_text.as_str());
    msg.append(" argument(s) in call to '");
    msg.append(name);
    msg.append("', got ");
    msg.append(given_text.as_str());
    msg
}

fn check_arity(call: &Call) -> (r: Option<String>)
    ensures
        r is Some == arity_error(*call) is Some,
        r matches Some(msg) ==> msg@ == arity_error(*call)->0,
{
    let slots = call.func.arg_types.len();
    let given = call.args.args.len();
    let name = call.func.name;
    if call.func.variadic {
        if slots > 0 && slots - 1 > given {
            return Some(count_text("expected at least ", slots - 1, name, given));
        }
        if given > slots && !str_eq(name, "label_join") {
            return Some(count_text("expected at most ", slots, name, given));
        }
        None
    } else if slots != given {
        Some(count_text("expected ", slots, name, given))
    } else {
        None
    }
}

fn check_special_case(call: &Call) -> (r: bool)
    ensures
        r == is_special_case(*call),
{
    if call.args.args.len() == 0 {
        return false;
    }
    match &*call.args.args[0] {
        Expr::NumberLiteral(nl) => {
            let name = call.func.name;
            let odd = bits_is_nan(nl.bits) || bits_is_infinite(nl.bits);
            if str_eq_ignore_ascii_case(name, "exp") {
                odd
            } else if str_eq_ignore_ascii_case(name, "ln") || str_eq_ignore_ascii_case(name, "log2")
                || str_eq_ignore_ascii_case(name, "log10") {
                odd || bits_is_at_most_zero(nl.bits)
            } else {
                false
            }
        },
        _ => false,
    }
}

fn check_ast_for_call(ex: Call) -> (r: Result<Expr, String>)
    ensures
        agrees(r, spec_check_call(ex)),
{
    match check_arity(&ex) {
        Some(msg) => {
            return Err(msg);
        },
        None => {},
    }
    if check_special_case(&ex) {
        return Ok(Expr::Call(ex));
    }
    let slots = ex.func.arg_types.len();
    if slots > 0 {
        let mut i: usize = 0;
        while i < ex.args.args.len()
            invariant
                i <= ex.args.args.len(),
                slots == ex.func.arg_types.len(),
                slots > 0,
                arity_error(ex) is None,
                !is_special_case(ex),
                forall|j: int| 0 <= j < i ==> arg_fits(ex, j),
            decreases ex.args.args.len() - i,
        {
            let slot = if i < slots {
                i
            } else {
                slots - 1
            };
            let expected = ex.func.arg_types[slot];
            let actual = ex.args.args[i].value_type();
            if actual != expected {
                proof {
                    assert(is_first_misfit(ex, i as int));
                    let k = choose|k: int| is_first_misfit(ex, k);
                    assert(k == i);
                }
                let context = join3("call to function '", ex.func.name, "'");
                return match expect_type(expected, Some(actual), context.as_str()) {
                    Err(msg) => Err(msg),
                    Ok(_) => Ok(Expr::Call(ex)),
                };
            }
            i += 1;
        }
    }
    Ok(Expr::Call(ex))
}

/// The diagnostic for a negation whose operand yields neither a scalar nor
/// a vector.
pub open spec fn unary_operand_text(t: ValueType) -> Seq<char> {
    "unary expression only allowed on expressions of type scalar or vector, got "@ + t.name()
}

/// What the check of a negation returns: the operand must yield a scalar or
/// a vector.
pub open spec fn spec_check_unary(ex: UnaryExpr) -> Result<Expr, Seq<char>> {
    if is_scalar_or_vector(ex.expr.spec_value_type()) {
        Ok(Expr::Unary(ex))
    } else {
        Err(unary_operand_text(ex.expr.spec_value_type()))
    }
}

fn check_ast_for_unary(ex: UnaryExpr) -> (r: Result<Expr, String>)
    ensures
        agrees(r, spec_check_unary(ex)),
{
    let value_type = ex.expr.value_type();
    if !scalar_or_vector(value_type) {
        let mut msg = String::from_str(
            "unary expression only allowed on expressions of type scalar or vector, got ",
        );
        msg.append(value_type.as_str());
        return Err(msg);
    }
    Ok(Expr::Unary(ex))
}

/// The diagnostic for a subquery over an expression that yields no vector.
pub open spec fn subquery_operand_text(t: ValueType) -> Seq<char> {
    "subquery is only allowed on vector, got "@ + t.name() + " instead"@
}

/// What the check of a subquery returns: the operand must yield a vector.
pub open spec fn spec_check_subquery(ex: SubqueryExpr) -> Result<Expr, Seq<char>> {
    if ex.expr.spec_value_type() == ValueType::Vector {
        Ok(Expr::Subquery(ex))
    } else {
        Err(subquery_operand_text(ex.expr.spec_value_type()))
    }
}

fn check_ast_for_subquery(ex: SubqueryExpr) -> (r: Result<Expr, String>)
    ensures
        agrees(r, spec_check_subquery(ex)),
{
    let value_type = ex.expr.value_type();
    if value_type != ValueType::Vector {
        return Err(
            join3("subquery is only allowed on vector, got ", value_type.as_str(), " instead"),
        );
    }
    Ok(Expr::Subquery(ex))
}

/// The diagnostic for a selector with two matchers on the metric name,
/// whose values come in the order `first`, `second`.
pub open spec fn name_set_twice_text(first: Seq<char>, second: Seq<char>) -> Seq<char> {
    "metric name must not be set twice: '"@ + first + "' or '"@ + second + "'"@
}

/// The values that the matchers of a selector ask of the metric name.
pub open spec fn metric_names(ex: VectorSelector) -> Seq<Seq<char>> {
    values_named(ex.matchers.matchers@, METRIC_NAME@)
}

/// What the check of a vector selector returns. The selector must have a
/// matcher that refuses the empty string, or it would select every series.
/// And it must not match the metric name twice: where it does, the diagnostic
/// names the two values that come first in lexicographic order.
pub open spec fn spec_check_vector_selector(ex: VectorSelector) -> Result<Expr, Seq<char>> {
    if ex.matchers.all_match_empty() {
        Err("vector selector must contain at least one non-empty matcher"@)
    } else if metric_names(ex).len() >= 2 {
        Err(name_set_twice_text(two_least(metric_names(ex)).0, two_least(metric_names(ex)).1))
    } else {
        Ok(Expr::VectorSelector(ex))
    }
}

fn check_ast_for_vector_selector(ex: VectorSelector) -> (r: Result<Expr, String>)
    ensures
        agrees(r, spec_check_vector_selector(ex)),
{
    if ex.matchers.is_empty_matchers() {
        return fail("vector selector must contain at least one non-empty matcher");
    }
    let mut names = ex.matchers.find_matchers(METRIC_NAME);
    if names.len() >= 2 {
        let ghost all = string_views(names@);
        let first_at = index_of_least(&names).unwrap();
        let first = names.remove(first_at);
        assert(string_views(names@) =~= all.remove(first_at as int));
        let second_at = index_of_least(&names).unwrap();
        return Err(
            join5(
                "metric name must not be set twice: '",
                first.as_str(),
                "' or '",
                names[second_at].as_str(),
                "'",
            ),
        );
    }
    Ok(Expr::VectorSelector(ex))
}

/// What `check_ast` returns: the node itself, a binary expression with its
/// modifiers normalised, or the diagnostic of the first rule that the node
/// breaks. Parentheses, literals, matrix selectors and host-supplied nodes
/// have no rule to break.
pub open spec fn spec_check_ast(expr: Expr) -> Result<Expr, Seq<char>> {
    match expr {
        Expr::Binary(ex) => spec_check_binary(ex),
        Expr::Aggregate(ex) => spec_check_aggregate(ex),
        Expr::Call(ex) => spec_check_call(ex),
        Expr::Unary(ex) => spec_check_unary(ex),
        Expr::Subquery(ex) => spec_check_subquery(ex),
        Expr::VectorSelector(ex) => spec_check_vector_selector(ex),
        _ => Ok(expr),
    }
}

/// Checks the node `expr` against the typing rules of the language.
pub fn check_ast(expr: Expr) -> (r: Result<Expr, String>)
    ensures
        agrees(r, spec_check_ast(expr)),
{
    match expr {
        Expr::Binary(ex) => check_ast_for_binary_expr(ex),
        Expr::Aggregate(ex) => check_ast_for_aggregate_expr(ex),
        Expr::Call(ex) => check_ast_for_call(ex),
        Expr::Unary(ex) => check_ast_for_unary(ex),
        Expr::Subquery(ex) => check_ast_for_subquery(ex),
        Expr::VectorSelector(ex) => check_ast_for_vector_selector(ex),
        _ => Ok(expr),
    }
}

} // verus!
