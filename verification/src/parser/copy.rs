//! What holds of a copy of a tree.

use crate::parser::ast::Call;
use crate::parser::ast::Expr;
use crate::parser::check::arg_fits;
use crate::parser::check::arity_error;
use crate::parser::check::is_special_case;
use crate::parser::check::is_first_misfit;
use crate::parser::check::spec_check_ast;
use vstd::prelude::*;

verus! {

/// Every tree is a copy of itself.
pub proof fn lemma_copy_of_itself(expr: Expr)
    ensures
        expr.is_copy(&expr),
    decreases expr,
{
    match expr {
        Expr::Aggregate(ex) => {
            lemma_copy_of_itself(*ex.expr);
            if let Some(param) = ex.param {
                lemma_copy_of_itself(*param);
            }
        },
        Expr::Unary(ex) => {
            lemma_copy_of_itself(*ex.expr);
        },
        Expr::Binary(ex) => {
            lemma_copy_of_itself(*ex.lhs);
            lemma_copy_of_itself(*ex.rhs);
        },
        Expr::Paren(ex) => {
            lemma_copy_of_itself(*ex.expr);
        },
        Expr::Subquery(ex) => {
            lemma_copy_of_itself(*ex.expr);
        },
        Expr::Call(ex) => {
            assert forall|i: int| 0 <= i < ex.args.args@.len() implies (
            #[trigger] ex.args.args@[i]).is_copy(&*ex.args.args@[i]) by {
                lemma_copy_of_itself(*ex.args.args@[i]);
            }
        },
        Expr::Extension(ex) => {
            assert forall|i: int| 0 <= i < ex.children@.len() implies (
            #[trigger] ex.children@[i]).is_copy(&ex.children@[i]) by {
                lemma_copy_of_itself(ex.children@[i]);
            }
        },
        _ => {},
    }
}

/// A copy yields the type of value that the tree yields.
pub proof fn lemma_copy_value_type(expr: Expr, copy: Expr)
    requires
        expr.is_copy(&copy),
    ensures
        copy.spec_value_type() == expr.spec_value_type(),
    decreases expr,
{
    match (expr, copy) {
        (Expr::Unary(a), Expr::Unary(b)) => {
            lemma_copy_value_type(*a.expr, *b.expr);
        },
        (Expr::Binary(a), Expr::Binary(b)) => {
            lemma_copy_value_type(*a.lhs, *b.lhs);
            lemma_copy_value_type(*a.rhs, *b.rhs);
        },
        (Expr::Paren(a), Expr::Paren(b)) => {
            lemma_copy_value_type(*a.expr, *b.expr);
        },
        _ => {},
    }
}

proof fn lemma_copy_arguments_fit(call: Call, copy: Call)
    requires
        Expr::Call(call).is_copy(&Expr::Call(copy)),
    ensures
        forall|i: int|
            0 <= i < call.args.args@.len() ==> arg_fits(call, i) == arg_fits(copy, i),
        forall|i: int| is_first_misfit(call, i) == is_first_misfit(copy, i),
{
    assert forall|i: int| 0 <= i < call.args.args@.len() implies arg_fits(call, i) == arg_fits(
        copy,
        i,
    ) by {
        lemma_copy_value_type(*call.args.args@[i], *copy.args.args@[i]);
    }
}

/// The second verdict is that of a copy: the same diagnostic, or a copy of
/// the node that the first returns.
pub open spec fn is_verdict_copy(
    verdict: Result<Expr, Seq<char>>,
    other: Result<Expr, Seq<char>>,
) -> bool {
    match (verdict, other) {
        (Ok(checked), Ok(checked_copy)) => checked.is_copy(&checked_copy),
        (Err(text), Err(text_of_copy)) => text_of_copy == text,
        _ => false,
    }
}

/// The check gives a copy the verdict that it gives the tree: the same
/// diagnostic, or a copy of the node that it returns for the tree.
pub proof fn lemma_copy_checked_alike(expr: Expr, copy: Expr)
    requires
        expr.is_copy(&copy),
    ensures
        is_verdict_copy(spec_check_ast(expr), spec_check_ast(copy)),
{
    match (expr, copy) {
        (Expr::Binary(a), Expr::Binary(b)) => {
            lemma_copy_value_type(*a.lhs, *b.lhs);
            lemma_copy_value_type(*a.rhs, *b.rhs);
        },
        (Expr::Aggregate(a), Expr::Aggregate(b)) => {
            lemma_copy_value_type(*a.expr, *b.expr);
            if let (Some(p), Some(q)) = (a.param, b.param) {
                lemma_copy_value_type(*p, *q);
            }
        },
        (Expr::Call(a), Expr::Call(b)) => {
            lemma_copy_arguments_fit(a, b);
            if a.args.args@.len() > 0 {
                assert(a.args.args@[0].is_copy(&*b.args.args@[0]));
            }
            assert(is_special_case(a) == is_special_case(b));
            if exists|i: int| is_first_misfit(a, i) {
                let i = choose|i: int| is_first_misfit(a, i);
                let j = choose|j: int| is_first_misfit(b, j);
                assert(is_first_misfit(b, i));
                assert(i == j);
                lemma_copy_value_type(*a.args.args@[i], *b.args.args@[i]);
            }
        },
        (Expr::Unary(a), Expr::Unary(b)) => {
            lemma_copy_value_type(*a.expr, *b.expr);
        },
        (Expr::Subquery(a), Expr::Subquery(b)) => {
            lemma_copy_value_type(*a.expr, *b.expr);
        },
        _ => {},
    }
}

} // verus!
