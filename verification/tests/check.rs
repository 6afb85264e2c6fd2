use promql_ast::label::matcher::Matcher;
use promql_ast::label::matcher::Matchers;
use promql_ast::label::Labels;
use promql_ast::parser::check::expect_type;
use promql_ast::parser::check_ast;
use promql_ast::parser::token::T_ADD;
use promql_ast::parser::token::T_AVG;
use promql_ast::parser::token::T_BOTTOMK;
use promql_ast::parser::token::T_COUNT_VALUES;
use promql_ast::parser::token::T_EQL;
use promql_ast::parser::token::T_EQLC;
use promql_ast::parser::token::T_EQL_REGEX;
use promql_ast::parser::token::T_LAND;
use promql_ast::parser::token::T_LOR;
use promql_ast::parser::token::T_LUNLESS;
use promql_ast::parser::token::T_NEQ;
use promql_ast::parser::token::T_NEQ_REGEX;
use promql_ast::parser::token::T_QUANTILE;
use promql_ast::parser::token::T_SUM;
use promql_ast::parser::token::T_TOPK;
use promql_ast::parser::AtModifier;
use promql_ast::parser::BinModifier;
use promql_ast::parser::Expr;
use promql_ast::parser::Extension;
use promql_ast::parser::Function;
use promql_ast::parser::FunctionArgs;
use promql_ast::parser::LabelModifier;
use promql_ast::parser::Offset;
use promql_ast::parser::ValueType;
use promql_ast::parser::VectorMatchCardinality;
use promql_ast::parser::VectorSelector;
use std::time::Duration;
use std::time::SystemTime;

fn number(val: f64) -> Expr {
    Expr::from(val.to_bits())
}

fn selector(name: &str) -> Expr {
    Expr::from(VectorSelector::from(name))
}

fn range(name: &str) -> Expr {
    Expr::new_matrix_selector(selector(name), Duration::from_secs(300)).unwrap()
}

fn text(val: &str) -> Expr {
    Expr::from(val)
}

fn function(name: &'static str, arg_types: Vec<ValueType>, variadic: bool) -> Function {
    Function::new(name, arg_types, variadic, ValueType::Vector)
}

fn args(list: Vec<Expr>) -> FunctionArgs {
    let mut out = FunctionArgs::empty_args();
    for e in list {
        out = out.append_args(e);
    }
    out
}

fn call(func: Function, list: Vec<Expr>) -> Result<Expr, String> {
    Expr::new_call(func, args(list)).and_then(check_ast)
}

fn binary(lhs: Expr, op: u8, modifier: Option<BinModifier>, rhs: Expr) -> Result<Expr, String> {
    Expr::new_binary_expr(lhs, op, modifier, rhs).and_then(check_ast)
}

fn aggregate(op: u8, list: Vec<Expr>) -> Result<Expr, String> {
    Expr::new_aggregate_expr(op, None, args(list)).and_then(check_ast)
}

fn on(labels: Vec<&str>) -> Option<LabelModifier> {
    Some(LabelModifier::Include(Labels::new(labels)))
}

fn ignoring(labels: Vec<&str>) -> Option<LabelModifier> {
    Some(LabelModifier::Exclude(Labels::new(labels)))
}

fn error(r: Result<Expr, String>) -> String {
    r.unwrap_err()
}

#[test]
fn selector_with_matchers_at_and_offset_is_accepted() {
    // http_requests_total{environment=~"staging|testing|development",method!="GET"}
    //     @ 1609746000 offset 5m
    let name = String::from("http_requests_total");
    let matchers = Matchers::empty()
        .append(
            Matcher::new_matcher(
                T_EQL_REGEX,
                "environment".into(),
                "staging|testing|development".into(),
            )
            .unwrap(),
        )
        .append(Matcher::new_matcher(T_NEQ, "method".into(), "GET".into()).unwrap())
        .append(Matcher::new_eq_metric_matcher(name.clone()));
    let at = AtModifier::at_seconds(1609746000f64.to_bits()).unwrap();
    let checked = Expr::new_vector_selector(Some(name), matchers)
        .and_then(|ex| ex.at_expr(at))
        .and_then(|ex| ex.offset_expr(Offset::Pos(Duration::from_secs(5 * 60))))
        .and_then(check_ast)
        .unwrap();
    match checked {
        Expr::VectorSelector(vs) => {
            assert_eq!(vs.name, Some(String::from("http_requests_total")));
            assert_eq!(vs.matchers.matchers.len(), 3);
            assert!(vs
                .matchers
                .contains(&Matcher::new_eq_metric_matcher("http_requests_total".into())));
            assert_eq!(
                vs.at,
                Some(AtModifier::At(
                    SystemTime::UNIX_EPOCH + Duration::from_secs(1609746000)
                ))
            );
            assert_eq!(vs.offset, Some(Offset::Pos(Duration::from_secs(300))));
        }
        other => panic!("not a vector selector: {other:?}"),
    }
}

#[test]
fn comparison_of_scalars_needs_bool() {
    // 1 == 1
    assert_eq!(
        error(binary(number(1.0), T_EQLC, None, number(1.0))),
        "comparisons between scalars must use BOOL modifier"
    );
}

#[test]
fn comparison_of_scalars_with_bool_is_a_scalar() {
    // 1 == bool 1
    let modifier = BinModifier::default().with_return_bool(true);
    let checked = binary(number(1.0), T_EQLC, Some(modifier), number(1.0)).unwrap();
    assert_eq!(checked.value_type(), ValueType::Scalar);
}

#[test]
fn label_in_on_and_group_is_refused() {
    // sum without(a) (rate(x[5m])) and on(a) group_left(a) y
    let rate = call(function("rate", vec![ValueType::Matrix], false), vec![range("x")]).unwrap();
    let sum = Expr::new_aggregate_expr(
        T_SUM,
        Some(LabelModifier::Exclude(Labels::new(vec!["a"]))),
        FunctionArgs::new_args(rate),
    )
    .and_then(check_ast)
    .unwrap();
    let modifier = BinModifier::default()
        .with_card(VectorMatchCardinality::ManyToOne(Labels::new(vec!["a"])))
        .with_matching(on(vec!["a"]));
    assert_eq!(
        error(binary(sum, T_LAND, Some(modifier), selector("y"))),
        "label 'a' must not occur in ON and GROUP clause at once"
    );
}

#[test]
fn first_shared_label_is_named() {
    let modifier = BinModifier::default()
        .with_card(VectorMatchCardinality::OneToMany(Labels::new(vec![
            "zone", "job", "env", "instance",
        ])))
        .with_matching(on(vec!["instance", "zone", "cluster", "job"]));
    assert_eq!(
        error(binary(selector("x"), T_ADD, Some(modifier), selector("y"))),
        "label 'instance' must not occur in ON and GROUP clause at once"
    );
    // upper case comes before lower case
    let modifier = BinModifier::default()
        .with_card(VectorMatchCardinality::ManyToOne(Labels::new(vec!["b", "Z", "a"])))
        .with_matching(on(vec!["a", "b", "Z"]));
    assert_eq!(
        error(binary(selector("x"), T_ADD, Some(modifier), selector("y"))),
        "label 'Z' must not occur in ON and GROUP clause at once"
    );
    // a prefix comes before what it begins
    let modifier = BinModifier::default()
        .with_card(VectorMatchCardinality::ManyToOne(Labels::new(vec!["ab", "a"])))
        .with_matching(on(vec!["ab", "a"]));
    assert_eq!(
        error(binary(selector("x"), T_ADD, Some(modifier), selector("y"))),
        "label 'a' must not occur in ON and GROUP clause at once"
    );
}

#[test]
fn shared_label_under_ignoring_is_accepted() {
    let modifier = BinModifier::default()
        .with_card(VectorMatchCardinality::ManyToOne(Labels::new(vec!["a"])))
        .with_matching(ignoring(vec!["a"]));
    assert!(modifier.is_labels_joint());
    assert!(!modifier.is_matching_on());
    assert!(binary(selector("x"), T_ADD, Some(modifier), selector("y")).is_ok());
}

#[test]
fn operator_rules_come_before_the_joint_label() {
    // 1 == on(a) group_left(a) 1
    let modifier = BinModifier::default()
        .with_card(VectorMatchCardinality::ManyToOne(Labels::new(vec!["a"])))
        .with_matching(on(vec!["a"]));
    assert_eq!(
        error(binary(number(1.0), T_EQLC, Some(modifier), number(1.0))),
        "comparisons between scalars must use BOOL modifier"
    );
}

#[test]
fn empty_selector_is_refused() {
    // {}
    let empty = Expr::new_vector_selector(None, Matchers::empty()).and_then(check_ast);
    assert_eq!(
        error(empty),
        "vector selector must contain at least one non-empty matcher"
    );
}

#[test]
fn selector_of_matchers_that_accept_the_empty_string_is_refused() {
    // {a="", b!="x", c=~".*", d!~"y+"}
    let matchers = Matchers::empty()
        .append(Matcher::new_matcher(T_EQL, "a".into(), "".into()).unwrap())
        .append(Matcher::new_matcher(T_NEQ, "b".into(), "x".into()).unwrap())
        .append(Matcher::new_matcher(T_EQL_REGEX, "c".into(), ".*".into()).unwrap())
        .append(Matcher::new_matcher(T_NEQ_REGEX, "d".into(), "y+".into()).unwrap());
    assert!(matchers.is_empty_matchers());
    assert_eq!(
        error(Expr::new_vector_selector(None, matchers).and_then(check_ast)),
        "vector selector must contain at least one non-empty matcher"
    );
}

#[test]
fn selector_with_one_matcher_that_refuses_the_empty_string_is_accepted() {
    for (op, value) in [
        (T_EQL, "x"),
        (T_NEQ, ""),
        (T_EQL_REGEX, "x+"),
        (T_NEQ_REGEX, ".*"),
    ] {
        let matchers = Matchers::empty()
            .append(Matcher::new_matcher(T_EQL, "a".into(), "".into()).unwrap())
            .append(Matcher::new_matcher(op, "b".into(), value.into()).unwrap());
        assert!(!matchers.is_empty_matchers());
        let built = Expr::new_vector_selector(None, matchers).unwrap();
        assert_eq!(check_ast(built.clone()), Ok(built));
    }
}

#[test]
fn metric_name_set_twice_is_refused() {
    // foo{__name__="bar"}
    let matchers = Matchers::one(Matcher::new_eq_metric_matcher("foo".into()))
        .append(Matcher::new_matcher(T_EQL, "__name__".into(), "bar".into()).unwrap());
    assert_eq!(
        error(Expr::new_vector_selector(Some("foo".into()), matchers).and_then(check_ast)),
        "metric name must not be set twice: 'bar' or 'foo'"
    );
    // the two values that come first in order are named
    let matchers = Matchers::empty()
        .append(Matcher::new_matcher(T_EQL, "__name__".into(), "m3".into()).unwrap())
        .append(Matcher::new_matcher(T_NEQ, "__name__".into(), "m1".into()).unwrap())
        .append(Matcher::new_matcher(T_EQL, "job".into(), "a".into()).unwrap())
        .append(Matcher::new_matcher(T_EQL, "__name__".into(), "m2".into()).unwrap())
        .append(Matcher::new_matcher(T_EQL, "__name__".into(), "m0".into()).unwrap());
    assert_eq!(
        error(Expr::new_vector_selector(None, matchers).and_then(check_ast)),
        "metric name must not be set twice: 'm0' or 'm1'"
    );
    // two matchers of one value
    let matchers = Matchers::empty()
        .append(Matcher::new_matcher(T_EQL, "__name__".into(), "m".into()).unwrap())
        .append(Matcher::new_matcher(T_NEQ, "__name__".into(), "m".into()).unwrap());
    assert_eq!(
        error(Expr::new_vector_selector(None, matchers).and_then(check_ast)),
        "metric name must not be set twice: 'm' or 'm'"
    );
}

#[test]
fn metric_name_given_twice_alike_counts_once() {
    let matchers = Matchers::one(Matcher::new_eq_metric_matcher("foo".into()))
        .append(Matcher::new_matcher(T_EQL, "__name__".into(), "foo".into()).unwrap());
    assert_eq!(matchers.matchers.len(), 1);
    assert!(Expr::new_vector_selector(Some("foo".into()), matchers)
        .and_then(check_ast)
        .is_ok());
}

#[test]
fn offset_set_twice_is_refused() {
    // foo offset 5m offset 5m
    let five = || Offset::Pos(Duration::from_secs(300));
    assert_eq!(
        error(
            selector("foo")
                .offset_expr(five())
                .and_then(|ex| ex.offset_expr(five()))
        ),
        "offset may not be set multiple times"
    );
    // a negative offset counts as set
    assert_eq!(
        error(
            selector("foo")
                .offset_expr(Offset::Neg(Duration::from_secs(1)))
                .and_then(|ex| ex.offset_expr(five()))
        ),
        "offset may not be set multiple times"
    );
}

#[test]
fn at_and_offset_are_set_on_the_node() {
    let at = AtModifier::Start;
    let offset = Offset::Neg(Duration::from_secs(7));
    match selector("foo")
        .at_expr(at.clone())
        .and_then(|ex| ex.offset_expr(offset.clone()))
        .unwrap()
    {
        Expr::VectorSelector(vs) => {
            assert_eq!(vs.at, Some(at.clone()));
            assert_eq!(vs.offset, Some(offset.clone()));
            assert_eq!(vs.name, Some("foo".to_string()));
        }
        other => panic!("{other:?}"),
    }
    match range("foo")
        .offset_expr(offset.clone())
        .and_then(|ex| ex.at_expr(AtModifier::End))
        .unwrap()
    {
        Expr::MatrixSelector(ms) => {
            assert_eq!(ms.vector_selector.at, Some(AtModifier::End));
            assert_eq!(ms.vector_selector.offset, Some(offset.clone()));
            assert_eq!(ms.range, Duration::from_secs(300));
        }
        other => panic!("{other:?}"),
    }
    match Expr::new_subquery_expr(selector("foo"), Duration::from_secs(9), None)
        .and_then(|ex| ex.at_expr(at.clone()))
        .and_then(|ex| ex.offset_expr(offset.clone()))
        .unwrap()
    {
        Expr::Subquery(s) => {
            assert_eq!(s.at, Some(at));
            assert_eq!(s.offset, Some(offset));
            assert_eq!(s.range, Duration::from_secs(9));
            assert_eq!(s.step, None);
            assert_eq!(*s.expr, selector("foo"));
        }
        other => panic!("{other:?}"),
    }
}

#[test]
fn at_and_offset_need_a_selector_or_a_subquery() {
    for ex in [
        number(1.0),
        text("a"),
        Expr::new_paren_expr(selector("foo")).unwrap(),
        Expr::new_unary_expr(selector("foo")).unwrap(),
        binary(selector("a"), T_ADD, None, selector("b")).unwrap(),
    ] {
        assert_eq!(
            error(ex.clone().at_expr(AtModifier::Start)),
            "@ modifier must be preceded by an vector selector or matrix selector or a subquery"
        );
        assert_eq!(
            error(ex.offset_expr(Offset::Pos(Duration::from_secs(1)))),
            "offset modifier must be preceded by an vector selector or matrix selector or a subquery"
        );
    }
}

#[test]
fn topk_without_parameter_is_refused() {
    // topk(x)
    assert_eq!(
        error(aggregate(T_TOPK, vec![selector("x")])),
        "wrong number of arguments for aggregate expression provided, expected 2, got 1"
    );
}

#[test]
fn aggregate_arity() {
    assert_eq!(
        error(aggregate(T_SUM, vec![])),
        "no arguments for aggregate expression 'sum' provided"
    );
    assert_eq!(
        error(aggregate(T_QUANTILE, vec![])),
        "no arguments for aggregate expression 'quantile' provided"
    );
    assert_eq!(
        error(aggregate(T_SUM, vec![number(1.0), selector("x")])),
        "wrong number of arguments for aggregate expression provided, expected 1, got 2"
    );
    assert_eq!(
        error(aggregate(
            T_BOTTOMK,
            vec![number(1.0), selector("x"), selector("y")]
        )),
        "wrong number of arguments for aggregate expression provided, expected 2, got 3"
    );
    let eleven: Vec<Expr> = (0..11).map(|_| selector("x")).collect();
    assert_eq!(
        error(aggregate(T_AVG, eleven)),
        "wrong number of arguments for aggregate expression provided, expected 1, got 11"
    );
}

#[test]
fn aggregate_takes_the_last_argument_and_the_first_as_parameter() {
    match aggregate(T_TOPK, vec![number(3.0), selector("x")]).unwrap() {
        Expr::Aggregate(ex) => {
            assert_eq!(*ex.expr, selector("x"));
            assert_eq!(ex.param, Some(Box::new(number(3.0))));
            assert_eq!(ex.op.id(), T_TOPK);
            assert_eq!(ex.modifier, None);
        }
        other => panic!("{other:?}"),
    }
    match aggregate(T_SUM, vec![selector("x")]).unwrap() {
        Expr::Aggregate(ex) => {
            assert_eq!(*ex.expr, selector("x"));
            assert_eq!(ex.param, None);
        }
        other => panic!("{other:?}"),
    }
    assert_eq!(
        aggregate(T_SUM, vec![selector("x")]).unwrap().value_type(),
        ValueType::Vector
    );
}

#[test]
fn aggregate_types() {
    assert_eq!(
        error(aggregate(T_ADD, vec![selector("x")])),
        "aggregation operator expected in aggregation expression but got '+'"
    );
    assert_eq!(
        error(aggregate(T_SUM, vec![number(1.0)])),
        "expected type vector in aggregation expression, got scalar"
    );
    assert_eq!(
        error(aggregate(T_SUM, vec![range("x")])),
        "expected type vector in aggregation expression, got matrix"
    );
    assert_eq!(
        error(aggregate(T_TOPK, vec![text("a"), selector("x")])),
        "expected type scalar in aggregation expression, got string"
    );
    assert_eq!(
        error(aggregate(T_QUANTILE, vec![selector("y"), selector("x")])),
        "expected type scalar in aggregation expression, got vector"
    );
    assert_eq!(
        error(aggregate(T_COUNT_VALUES, vec![number(1.0), selector("x")])),
        "expected type string in aggregation expression, got scalar"
    );
    assert!(aggregate(T_COUNT_VALUES, vec![text("a"), selector("x")]).is_ok());
    assert!(aggregate(T_BOTTOMK, vec![number(1.0), selector("x")]).is_ok());
    // a parameterised aggregator built without its parameter
    let built = Expr::Aggregate(promql_ast::parser::AggregateExpr {
        op: promql_ast::parser::TokenType::new(T_TOPK),
        expr: Box::new(selector("x")),
        param: None,
        modifier: None,
    });
    assert_eq!(
        error(check_ast(built)),
        "expected type scalar in aggregation expression, got None"
    );
}

#[test]
fn logarithm_of_a_negative_literal_is_accepted() {
    // ln(-1)
    let minus_one = Expr::new_unary_expr(number(1.0)).unwrap();
    assert_eq!(minus_one, number(-1.0));
    let ln = function("ln", vec![ValueType::Vector], false);
    assert!(call(ln, vec![minus_one]).is_ok());
}

#[test]
fn special_cases_of_calls() {
    let vector = || vec![ValueType::Vector];
    for name in ["ln", "log2", "log10", "LN", "Log2", "LOG10"] {
        for val in [
            -1.0,
            0.0,
            -0.0,
            f64::NAN,
            f64::INFINITY,
            f64::NEG_INFINITY,
            f64::MIN,
        ] {
            assert!(call(function(name, vector(), false), vec![number(val)]).is_ok());
        }
        assert_eq!(
            error(call(function(name, vector(), false), vec![number(1.0)])),
            format!("expected type vector in call to function '{name}', got scalar")
        );
    }
    for name in ["exp", "EXP", "eXp"] {
        for val in [f64::NAN, f64::INFINITY, f64::NEG_INFINITY] {
            assert!(call(function(name, vector(), false), vec![number(val)]).is_ok());
        }
        for val in [-1.0, 0.0, 1.0] {
            assert_eq!(
                error(call(function(name, vector(), false), vec![number(val)])),
                format!("expected type vector in call to function '{name}', got scalar")
            );
        }
    }
    // no other function has a special case
    assert_eq!(
        error(call(function("sqrt", vector(), false), vec![number(f64::NAN)])),
        "expected type vector in call to function 'sqrt', got scalar"
    );
    // and the number of arguments is checked first
    assert_eq!(
        error(call(
            function("ln", vector(), false),
            vec![number(-1.0), number(-1.0)]
        )),
        "expected 1 argument(s) in call to 'ln', got 2"
    );
}

#[test]
fn call_arity() {
    let round = || function("round", vec![ValueType::Vector, ValueType::Scalar], true);
    assert!(call(round(), vec![selector("x")]).is_ok());
    assert!(call(round(), vec![selector("x"), number(1.0)]).is_ok());
    assert_eq!(
        error(call(round(), vec![])),
        "expected at least 1 argument(s) in call to 'round', got 0"
    );
    assert_eq!(
        error(call(
            round(),
            vec![selector("x"), number(1.0), number(2.0)]
        )),
        "expected at most 2 argument(s) in call to 'round', got 3"
    );
    let rate = || function("rate", vec![ValueType::Matrix], false);
    assert_eq!(
        error(call(rate(), vec![])),
        "expected 1 argument(s) in call to 'rate', got 0"
    );
    assert_eq!(
        error(call(rate(), vec![range("x"), range("y")])),
        "expected 1 argument(s) in call to 'rate', got 2"
    );
    let time = || function("time", vec![], false);
    assert!(call(time(), vec![]).is_ok());
    assert_eq!(
        error(call(time(), vec![number(1.0)])),
        "expected 0 argument(s) in call to 'time', got 1"
    );
}

#[test]
fn label_join_takes_any_number_of_arguments() {
    let label_join = || {
        function(
            "label_join",
            vec![
                ValueType::Vector,
                ValueType::String,
                ValueType::String,
                ValueType::String,
            ],
            true,
        )
    };
    let mut list = vec![selector("x"), text("dst"), text(",")];
    assert!(call(label_join(), list.clone()).is_ok());
    for _ in 0..6 {
        list.push(text("src"));
        assert!(call(label_join(), list.clone()).is_ok());
    }
    list.push(number(1.0));
    assert_eq!(
        error(call(label_join(), list)),
        "expected type string in call to function 'label_join', got scalar"
    );
    assert_eq!(
        error(call(label_join(), vec![selector("x"), text("dst")])),
        "expected at least 3 argument(s) in call to 'label_join', got 2"
    );
    // the exemption goes by the exact name
    let other = function(
        "Label_Join",
        vec![ValueType::Vector, ValueType::String],
        true,
    );
    assert_eq!(
        error(call(other, vec![selector("x"), text("a"), text("b")])),
        "expected at most 2 argument(s) in call to 'Label_Join', got 3"
    );
}

#[test]
fn call_argument_types() {
    let f = || {
        function(
            "clamp",
            vec![ValueType::Vector, ValueType::Scalar, ValueType::Scalar],
            false,
        )
    };
    assert!(call(f(), vec![selector("x"), number(1.0), number(2.0)]).is_ok());
    // the first argument that does not fit is named
    assert_eq!(
        error(call(f(), vec![selector("x"), text("a"), range("y")])),
        "expected type scalar in call to function 'clamp', got string"
    );
    assert_eq!(
        error(call(f(), vec![number(1.0), text("a"), range("y")])),
        "expected type vector in call to function 'clamp', got scalar"
    );
    assert_eq!(
        error(call(f(), vec![selector("x"), number(1.0), range("y")])),
        "expected type scalar in call to function 'clamp', got matrix"
    );
    // a call yields what its function returns
    let scalar = Function::new("scalar", vec![ValueType::Vector], false, ValueType::Scalar);
    assert_eq!(
        call(scalar, vec![selector("x")]).unwrap().value_type(),
        ValueType::Scalar
    );
}

#[test]
fn binary_rules() {
    assert_eq!(
        error(binary(selector("a"), T_SUM, None, selector("b"))),
        "binary expression does not support operator 'sum'"
    );
    assert_eq!(
        error(binary(
            selector("a"),
            T_ADD,
            Some(BinModifier::default().with_return_bool(true)),
            selector("b")
        )),
        "bool modifier can only be used on comparison operators"
    );
    assert_eq!(
        error(binary(number(1.0), T_LAND, None, selector("b"))),
        "set operator 'and' not allowed in binary scalar expression"
    );
    assert_eq!(
        error(binary(selector("a"), T_LOR, None, number(1.0))),
        "set operator 'or' not allowed in binary scalar expression"
    );
    assert_eq!(
        error(binary(
            selector("a"),
            T_LUNLESS,
            Some(
                BinModifier::default()
                    .with_card(VectorMatchCardinality::ManyToOne(Labels::new(vec!["x"])))
            ),
            selector("b")
        )),
        "no grouping allowed for 'unless' operation"
    );
    assert_eq!(
        error(binary(
            selector("a"),
            T_LAND,
            Some(
                BinModifier::default()
                    .with_card(VectorMatchCardinality::OneToMany(Labels::new(vec![])))
            ),
            selector("b")
        )),
        "no grouping allowed for 'and' operation"
    );
    assert_eq!(
        error(binary(selector("a"), T_ADD, None, range("b"))),
        "binary expression must contain only scalar and instant vector types"
    );
    assert_eq!(
        error(binary(text("a"), T_ADD, None, selector("b"))),
        "binary expression must contain only scalar and instant vector types"
    );
    assert_eq!(
        error(binary(range("a"), T_LAND, None, selector("b"))),
        "binary expression must contain only scalar and instant vector types"
    );
    assert_eq!(
        error(binary(
            selector("a"),
            T_ADD,
            Some(BinModifier::default().with_matching(on(vec!["x"]))),
            number(1.0)
        )),
        "vector matching only allowed between vectors"
    );
    assert_eq!(
        error(binary(
            number(1.0),
            T_ADD,
            Some(BinModifier::default().with_matching(ignoring(vec!["x"]))),
            number(1.0)
        )),
        "vector matching only allowed between vectors"
    );
    // an empty matching list asks for nothing
    assert!(binary(
        selector("a"),
        T_ADD,
        Some(BinModifier::default().with_matching(on(vec![]))),
        number(1.0)
    )
    .is_ok());
}

#[test]
fn binary_value_type() {
    assert_eq!(
        binary(number(1.0), T_ADD, None, number(1.0))
            .unwrap()
            .value_type(),
        ValueType::Scalar
    );
    assert_eq!(
        binary(number(1.0), T_ADD, None, selector("a"))
            .unwrap()
            .value_type(),
        ValueType::Vector
    );
    assert_eq!(
        binary(selector("a"), T_ADD, None, number(1.0))
            .unwrap()
            .value_type(),
        ValueType::Vector
    );
    assert_eq!(
        binary(selector("a"), T_ADD, None, selector("b"))
            .unwrap()
            .value_type(),
        ValueType::Vector
    );
}

#[test]
fn set_operator_pairs_many_to_many() {
    for op in [T_LAND, T_LOR, T_LUNLESS] {
        match binary(selector("a"), op, None, selector("b")).unwrap() {
            Expr::Binary(ex) => assert_eq!(
                ex.modifier,
                Some(BinModifier::default().with_card(VectorMatchCardinality::ManyToMany))
            ),
            other => panic!("{other:?}"),
        }
        let written = BinModifier::default().with_matching(on(vec!["x"]));
        match binary(selector("a"), op, Some(written), selector("b")).unwrap() {
            Expr::Binary(ex) => assert_eq!(
                ex.modifier,
                Some(
                    BinModifier::default()
                        .with_matching(on(vec!["x"]))
                        .with_card(VectorMatchCardinality::ManyToMany)
                )
            ),
            other => panic!("{other:?}"),
        }
    }
    // any other operator keeps what it was written with
    match binary(selector("a"), T_ADD, None, selector("b")).unwrap() {
        Expr::Binary(ex) => assert_eq!(ex.modifier, None),
        other => panic!("{other:?}"),
    }
    let written = BinModifier::default().with_matching(ignoring(vec!["x"]));
    match binary(selector("a"), T_ADD, Some(written.clone()), selector("b")).unwrap() {
        Expr::Binary(ex) => assert_eq!(ex.modifier, Some(written)),
        other => panic!("{other:?}"),
    }
}

#[test]
fn checked_node_passes_again_unchanged() {
    let once = binary(selector("a"), T_LAND, None, selector("b")).unwrap();
    assert_eq!(check_ast(once.clone()), Ok(once));
}

#[test]
fn unary_rules() {
    assert_eq!(
        error(Expr::new_unary_expr(text("a"))),
        "unary expression only allowed on expressions of type scalar or vector, got: string"
    );
    assert_eq!(
        error(Expr::new_unary_expr(range("a"))),
        "unary expression only allowed on expressions of type scalar or vector, got: matrix"
    );
    assert_eq!(
        error(Expr::new_unary_expr(
            Expr::new_paren_expr(text("a")).unwrap()
        )),
        "unary expression only allowed on expressions of type scalar or vector, got: string"
    );
    assert_eq!(
        error(Expr::new_unary_expr(
            Expr::new_subquery_expr(selector("a"), Duration::from_secs(1), None).unwrap()
        )),
        "unary expression only allowed on expressions of type scalar or vector, got: matrix"
    );
    // negation wraps what is no number literal
    match Expr::new_unary_expr(selector("a")).unwrap() {
        Expr::Unary(ex) => assert_eq!(*ex.expr, selector("a")),
        other => panic!("{other:?}"),
    }
    let twice = Expr::new_unary_expr(Expr::new_unary_expr(selector("a")).unwrap()).unwrap();
    match twice {
        Expr::Unary(outer) => match *outer.expr {
            Expr::Unary(inner) => assert_eq!(*inner.expr, selector("a")),
            other => panic!("{other:?}"),
        },
        other => panic!("{other:?}"),
    }
    assert_eq!(Expr::new_unary_expr(number(3.0)).unwrap(), number(-3.0));
    // a node built by hand is held to the same rule
    let by_hand = -text("a");
    assert_eq!(
        error(check_ast(by_hand)),
        "unary expression only allowed on expressions of type scalar or vector, got string"
    );
    let by_hand = -range("a");
    assert_eq!(
        error(check_ast(by_hand)),
        "unary expression only allowed on expressions of type scalar or vector, got matrix"
    );
    let fine = Expr::new_unary_expr(selector("a")).unwrap();
    assert_eq!(check_ast(fine.clone()), Ok(fine));
}

#[test]
fn subquery_rules() {
    let over = |ex: Expr| {
        Expr::new_subquery_expr(ex, Duration::from_secs(60), Some(Duration::from_secs(5)))
            .and_then(check_ast)
    };
    assert!(over(selector("a")).is_ok());
    assert_eq!(over(selector("a")).unwrap().value_type(), ValueType::Matrix);
    assert_eq!(
        error(over(number(1.0))),
        "subquery is only allowed on vector, got scalar instead"
    );
    assert_eq!(
        error(over(range("a"))),
        "subquery is only allowed on vector, got matrix instead"
    );
    assert_eq!(
        error(over(text("a"))),
        "subquery is only allowed on vector, got string instead"
    );
}

#[test]
fn matrix_selector_rules() {
    let five = Duration::from_secs(300);
    match Expr::new_matrix_selector(selector("a"), five).unwrap() {
        Expr::MatrixSelector(ms) => {
            assert_eq!(ms.vector_selector, VectorSelector::from("a"));
            assert_eq!(ms.range, five);
        }
        other => panic!("{other:?}"),
    }
    let with_offset = selector("a")
        .offset_expr(Offset::Pos(Duration::from_secs(1)))
        .unwrap();
    assert_eq!(
        error(Expr::new_matrix_selector(with_offset.clone(), five)),
        "no offset modifiers allowed before range"
    );
    let with_at = selector("a").at_expr(AtModifier::End).unwrap();
    assert_eq!(
        error(Expr::new_matrix_selector(with_at, five)),
        "no @ modifiers allowed before range"
    );
    let with_both = with_offset.at_expr(AtModifier::End).unwrap();
    assert_eq!(
        error(Expr::new_matrix_selector(with_both, five)),
        "no offset modifiers allowed before range"
    );
    for ex in [
        number(1.0),
        text("a"),
        range("a"),
        Expr::new_paren_expr(selector("a")).unwrap(),
    ] {
        assert_eq!(
            error(Expr::new_matrix_selector(ex, five)),
            "ranges only allowed for vector selectors"
        );
    }
}

#[test]
fn nodes_without_rules_pass() {
    let host = Expr::Extension(Extension {
        name: "host".into(),
        value_type: ValueType::Matrix,
        children: vec![selector("a"), number(1.0)],
    });
    assert_eq!(host.value_type(), ValueType::Matrix);
    for ex in [
        number(f64::NAN),
        text(""),
        range("a"),
        Expr::new_paren_expr(text("a")).unwrap(),
        host,
    ] {
        assert_eq!(check_ast(ex.clone()), Ok(ex));
    }
    // parentheses and negation yield what their operand yields
    assert_eq!(
        Expr::new_paren_expr(range("a")).unwrap().value_type(),
        ValueType::Matrix
    );
    assert_eq!(
        Expr::new_paren_expr(Expr::new_unary_expr(number(1.0)).unwrap())
            .unwrap()
            .value_type(),
        ValueType::Scalar
    );
    assert_eq!(text("a").value_type(), ValueType::String);
}

#[test]
fn expect_type_reports_what_it_found() {
    assert_eq!(
        expect_type(ValueType::Vector, Some(ValueType::Vector), "here"),
        Ok(true)
    );
    assert_eq!(
        expect_type(ValueType::Vector, Some(ValueType::String), "here"),
        Err("expected type vector in here, got string".to_string())
    );
    assert_eq!(
        expect_type(ValueType::Matrix, None, "a call"),
        Err("expected type matrix in a call, got None".to_string())
    );
}
