use promql_ast::label::matcher::MatchOp;
use promql_ast::label::matcher::Matcher;
use promql_ast::label::matcher::Matchers;
use promql_ast::label::Labels;
use promql_ast::label::METRIC_NAME;
use promql_ast::parser::token::token_display;
use promql_ast::parser::token::T_ADD;
use promql_ast::parser::token::T_AGGREGATORS_END;
use promql_ast::parser::token::T_AGGREGATORS_START;
use promql_ast::parser::token::T_ATAN2;
use promql_ast::parser::token::T_AVG;
use promql_ast::parser::token::T_BOOL;
use promql_ast::parser::token::T_BOTTOMK;
use promql_ast::parser::token::T_COUNT;
use promql_ast::parser::token::T_COUNT_VALUES;
use promql_ast::parser::token::T_END;
use promql_ast::parser::token::T_EQL;
use promql_ast::parser::token::T_EQLC;
use promql_ast::parser::token::T_EQL_REGEX;
use promql_ast::parser::token::T_GROUP;
use promql_ast::parser::token::T_GTE;
use promql_ast::parser::token::T_GTR;
use promql_ast::parser::token::T_LAND;
use promql_ast::parser::token::T_LOR;
use promql_ast::parser::token::T_LSS;
use promql_ast::parser::token::T_LTE;
use promql_ast::parser::token::T_LUNLESS;
use promql_ast::parser::token::T_MAX;
use promql_ast::parser::token::T_MIN;
use promql_ast::parser::token::T_NEQ;
use promql_ast::parser::token::T_NEQ_REGEX;
use promql_ast::parser::token::T_OPERATORS_END;
use promql_ast::parser::token::T_OPERATORS_START;
use promql_ast::parser::token::T_POW;
use promql_ast::parser::token::T_QUANTILE;
use promql_ast::parser::token::T_START;
use promql_ast::parser::token::T_STDDEV;
use promql_ast::parser::token::T_STDVAR;
use promql_ast::parser::token::T_SUM;
use promql_ast::parser::token::T_TOPK;
use promql_ast::parser::AtModifier;
use promql_ast::parser::BinModifier;
use promql_ast::parser::LabelModifier;
use promql_ast::parser::Token;
use promql_ast::parser::TokenType;
use promql_ast::parser::ValueType;
use promql_ast::parser::VectorMatchCardinality;
use promql_ast::util::text::decimal_string;
use promql_ast::util::text::index_of_least;
use promql_ast::util::text::str_eq;
use promql_ast::util::text::str_eq_ignore_ascii_case;
use promql_ast::util::text::str_lt;
use regex::Regex;
use std::time::Duration;
use std::time::SystemTime;

fn words() -> Vec<&'static str> {
    vec![
        "", "a", "A", "ab", "aB", "abc", "b", "B", "Z", "z", "_", "__name__", "job", "Job",
        "instance", "0", "10", "9", "é", "e", "日本", "日", "\u{10348}", "\u{ffff}", "a\u{10348}",
        "a\u{ffff}", "zz", "zone",
    ]
}

#[test]
fn order_of_strings_is_that_of_the_standard_library() {
    for a in words() {
        for b in words() {
            assert_eq!(str_lt(a, b), a < b, "{a:?} < {b:?}");
            assert_eq!(str_eq(a, b), a == b, "{a:?} == {b:?}");
            assert_eq!(
                str_eq_ignore_ascii_case(a, b),
                a.eq_ignore_ascii_case(b),
                "{a:?} ~ {b:?}"
            );
        }
    }
    assert!(str_eq_ignore_ascii_case("LOG10", "log10"));
    assert!(!str_eq_ignore_ascii_case("log1O", "log10"));
    assert!(!str_eq_ignore_ascii_case("ln", "ln "));
}

#[test]
fn least_string_is_found() {
    let list: Vec<String> = ["m3", "m1", "m2", "m1", "m4"]
        .iter()
        .map(|s| s.to_string())
        .collect();
    assert_eq!(index_of_least(&list), Some(1));
    let one = vec!["x".to_string()];
    assert_eq!(index_of_least(&one), Some(0));
    assert_eq!(index_of_least(&Vec::new()), None);
    let all: Vec<String> = words().iter().map(|s| s.to_string()).collect();
    let least = index_of_least(&all).unwrap();
    assert_eq!(all[least], *all.iter().min().unwrap());
}

#[test]
fn numbers_are_written_in_decimal() {
    for n in [
        0usize,
        1,
        9,
        10,
        11,
        99,
        100,
        101,
        1234567890,
        usize::MAX,
        usize::MAX / 10,
    ] {
        assert_eq!(decimal_string(n), n.to_string());
    }
}

#[test]
fn labels_are_a_set() {
    let a = Labels::new(vec!["foo", "bar"]);
    let b = Labels::new(vec!["bar", "foo", "bar"]);
    assert_eq!(a, b);
    // a name given twice is listed once, where it came first
    assert_eq!(b.labels, vec!["bar", "foo"]);
    assert_eq!(
        Labels::new(vec!["c", "a", "c", "b", "a", "c"]).labels,
        vec!["c", "a", "b"]
    );
    // a set written by hand may list a name twice and is the same set
    let by_hand = Labels {
        labels: vec!["bar".to_string(), "foo".to_string(), "bar".to_string()],
    };
    assert_eq!(by_hand, a);
    assert_eq!(a, by_hand);
    assert_ne!(a, Labels::new(vec!["foo"]));
    assert_ne!(Labels::new(vec!["foo"]), a);
    assert_eq!(Labels::new(vec![]), Labels::new(vec![]));
    assert!(Labels::new(vec![]).is_empty());
    assert!(!a.is_empty());
    assert!(a.contains("foo"));
    assert!(!a.contains("fo"));
    assert!(!a.contains("Foo"));
    assert!(Labels::new(vec!["foo"]).is_subset(&a));
    assert!(!a.is_subset(&Labels::new(vec!["foo"])));
}

#[test]
fn labels_in_common() {
    let a = Labels::new(vec!["d", "b", "a", "c"]);
    let b = Labels::new(vec!["c", "x", "b"]);
    assert!(!a.is_disjoint(&b));
    assert!(a.is_disjoint(&Labels::new(vec!["x", "y"])));
    assert!(a.is_disjoint(&Labels::new(vec![])));
    assert!(Labels::new(vec![]).is_disjoint(&a));
    assert_eq!(a.intersection(&b), vec!["b", "c"]);
    assert_eq!(b.intersection(&a), vec!["c", "b"]);
    assert!(a.intersection(&Labels::new(vec!["x"])).is_empty());
    assert_eq!(a.first_common(&b), Some(&"b".to_string()));
    assert_eq!(b.first_common(&a), Some(&"b".to_string()));
    assert_eq!(a.first_common(&Labels::new(vec!["x"])), None);
    assert_eq!(a.first_common(&a), Some(&"a".to_string()));
}

#[test]
fn bin_modifier_lists() {
    let plain = BinModifier::default();
    assert_eq!(plain.card, VectorMatchCardinality::OneToOne);
    assert_eq!(plain.matching, None);
    assert!(!plain.return_bool);
    assert!(!plain.is_labels_joint());
    assert!(!plain.is_matching_on());
    assert!(!plain.is_matching_labels_not_empty());
    assert_eq!(plain.intersect_labels(), None);

    let grouped = BinModifier::default()
        .with_card(VectorMatchCardinality::ManyToOne(Labels::new(vec![
            "a", "b", "c",
        ])))
        .with_matching(Some(LabelModifier::Include(Labels::new(vec![
            "c", "d", "a",
        ]))))
        .with_return_bool(true);
    assert!(grouped.return_bool);
    assert!(grouped.is_labels_joint());
    assert!(grouped.is_matching_on());
    assert!(grouped.is_matching_labels_not_empty());
    assert_eq!(
        grouped.intersect_labels(),
        Some(vec![&"c".to_string(), &"a".to_string()])
    );

    let apart = BinModifier::default()
        .with_card(VectorMatchCardinality::OneToMany(Labels::new(vec!["a"])))
        .with_matching(Some(LabelModifier::Exclude(Labels::new(vec!["b"]))));
    assert!(!apart.is_labels_joint());
    assert!(!apart.is_matching_on());
    assert!(apart.is_matching_labels_not_empty());
    assert_eq!(apart.intersect_labels(), Some(vec![]));

    let no_group = BinModifier::default()
        .with_matching(Some(LabelModifier::Include(Labels::new(vec![]))));
    assert!(no_group.is_matching_on());
    assert!(!no_group.is_matching_labels_not_empty());
    assert!(!no_group.is_labels_joint());
    assert_eq!(no_group.intersect_labels(), None);

    assert!(LabelModifier::Include(Labels::new(vec![])).is_on());
    assert!(!LabelModifier::Exclude(Labels::new(vec![])).is_on());
}

#[test]
fn matchers_match() {
    let m = |op, value: &str| Matcher::new_matcher(op, "l".into(), value.into()).unwrap();
    assert!(m(T_EQL, "x").is_match("x"));
    assert!(!m(T_EQL, "x").is_match("y"));
    assert!(!m(T_EQL, "x").is_match(""));
    assert!(m(T_EQL, "").is_match(""));
    assert!(!m(T_NEQ, "x").is_match("x"));
    assert!(m(T_NEQ, "x").is_match(""));
    assert!(m(T_EQL_REGEX, "staging|testing").is_match("testing"));
    assert!(!m(T_EQL_REGEX, "staging|testing").is_match("production"));
    assert!(!m(T_EQL_REGEX, "staging|testing").is_match(""));
    assert!(m(T_EQL_REGEX, "a*").is_match(""));
    assert!(!m(T_NEQ_REGEX, "a*").is_match(""));
    assert!(m(T_NEQ_REGEX, "a+").is_match(""));
    assert!(!m(T_NEQ_REGEX, "a+").is_match("baab"));
}

#[test]
fn matchers_are_built_from_the_four_operators() {
    let built = Matcher::new_matcher(T_EQL_REGEX, "job".into(), "a.c".into()).unwrap();
    assert_eq!(built.name, "job");
    assert_eq!(built.value, "a.c");
    match &built.op {
        MatchOp::Re(re) => assert_eq!(re.as_str(), "a.c"),
        other => panic!("{other:?}"),
    }
    assert_eq!(built.op.as_str(), "=~");
    match Matcher::new_matcher(T_NEQ_REGEX, "job".into(), "a.c".into())
        .unwrap()
        .op
    {
        MatchOp::NotRe(re) => assert_eq!(re.as_str(), "a.c"),
        other => panic!("{other:?}"),
    }
    assert_eq!(
        Matcher::new_matcher(T_EQL, "job".into(), "a".into()),
        Ok(Matcher::new(MatchOp::Equal, "job".into(), "a".into()))
    );
    assert_eq!(
        Matcher::new_matcher(T_NEQ, "job".into(), "a".into()),
        Ok(Matcher::new(MatchOp::NotEqual, "job".into(), "a".into()))
    );
    assert_eq!(
        Matcher::new_matcher(T_EQL_REGEX, "job".into(), "a(".into()),
        Err("illegal regex for a(".to_string())
    );
    assert_eq!(
        Matcher::new_matcher(T_NEQ_REGEX, "job".into(), "[".into()),
        Err("illegal regex for [".to_string())
    );
    assert_eq!(
        Matcher::new_matcher(T_ADD, "job".into(), "a".into()),
        Err("invalid match op +".to_string())
    );
    assert_eq!(
        Matcher::new_matcher(T_EQLC, "job".into(), "a".into()),
        Err("invalid match op ==".to_string())
    );
    let name = Matcher::new_eq_metric_matcher("up".into());
    assert_eq!(name.name, METRIC_NAME);
    assert_eq!(name.name, "__name__");
    assert_eq!(name.value, "up");
    assert_eq!(name.op, MatchOp::Equal);
}

#[test]
fn matchers_compare_by_what_they_ask() {
    let m = |op, name: &str, value: &str| {
        Matcher::new_matcher(op, name.into(), value.into()).unwrap()
    };
    assert_eq!(m(T_EQL_REGEX, "a", "x+"), m(T_EQL_REGEX, "a", "x+"));
    assert_ne!(m(T_EQL_REGEX, "a", "x+"), m(T_EQL_REGEX, "a", "x*"));
    assert_ne!(m(T_EQL_REGEX, "a", "x+"), m(T_NEQ_REGEX, "a", "x+"));
    assert_ne!(m(T_EQL_REGEX, "a", "x"), m(T_EQL, "a", "x"));
    assert_ne!(m(T_EQL, "a", "x"), m(T_NEQ, "a", "x"));
    assert_ne!(m(T_EQL, "a", "x"), m(T_EQL, "b", "x"));
    assert_ne!(m(T_EQL, "a", "x"), m(T_EQL, "a", "y"));
    assert_eq!(m(T_NEQ, "a", "x"), m(T_NEQ, "a", "x"));
}

#[test]
fn match_operators_compare_by_their_pattern() {
    let re = |pattern: &str| Regex::new(pattern).unwrap();
    assert_eq!(MatchOp::Re(re("x+")), MatchOp::Re(re("x+")));
    assert_ne!(MatchOp::Re(re("x+")), MatchOp::Re(re("x*")));
    assert_eq!(MatchOp::NotRe(re("x+")), MatchOp::NotRe(re("x+")));
    assert_ne!(MatchOp::NotRe(re("x+")), MatchOp::NotRe(re("xx*")));
    assert_ne!(MatchOp::Re(re("x+")), MatchOp::NotRe(re("x+")));
    assert_ne!(MatchOp::Equal, MatchOp::NotEqual);
    assert_ne!(MatchOp::Equal, MatchOp::Re(re("")));
    // the same label and value under two patterns
    assert_ne!(
        Matcher::new(MatchOp::Re(re("x+")), "a".into(), "v".into()),
        Matcher::new(MatchOp::Re(re("x*")), "a".into(), "v".into())
    );
    assert_eq!(
        Matcher::new(MatchOp::Re(re("x+")), "a".into(), "v".into()),
        Matcher::new(MatchOp::Re(re("x+")), "a".into(), "v".into())
    );
    // a matcher answers by the expression it holds
    assert!(Matcher::new(MatchOp::Re(re("^$")), "a".into(), "v".into()).is_match(""));
    assert!(!Matcher::new(MatchOp::Re(re("^$")), "a".into(), "v".into()).is_match("v"));
}

#[test]
fn matchers_hold_each_matcher_once() {
    let m = |op, name: &str, value: &str| {
        Matcher::new_matcher(op, name.into(), value.into()).unwrap()
    };
    let ms = Matchers::empty()
        .append(m(T_EQL, "a", "x"))
        .append(m(T_EQL_REGEX, "b", "y+"))
        .append(m(T_EQL, "a", "x"))
        .append(m(T_EQL_REGEX, "b", "y+"))
        .append(m(T_NEQ, "a", "x"));
    assert_eq!(ms.matchers.len(), 3);
    assert!(ms.contains(&m(T_NEQ, "a", "x")));
    assert!(!ms.contains(&m(T_NEQ, "a", "y")));
    assert_eq!(ms.find_matchers("a"), vec!["x", "x"]);
    assert_eq!(ms.find_matchers("b"), vec!["y+"]);
    assert!(ms.find_matchers("A").is_empty());
    // the order in which they were added does not show in a comparison
    let other = Matchers::one(m(T_NEQ, "a", "x"))
        .append(m(T_EQL_REGEX, "b", "y+"))
        .append(m(T_EQL, "a", "x"));
    assert_eq!(ms, other);
    assert_ne!(ms, Matchers::one(m(T_NEQ, "a", "x")));
    assert_ne!(Matchers::one(m(T_NEQ, "a", "x")), ms);
    assert_eq!(Matchers::empty(), Matchers::empty());
    assert!(Matchers::empty().is_empty_matchers());
    assert_eq!(Matchers::one(m(T_EQL, "a", "x")).matchers.len(), 1);
}

#[test]
fn token_classes() {
    let operators = [
        T_ADD, T_EQLC, T_GTE, T_GTR, T_LAND, T_LOR, T_LSS, T_LTE, T_LUNLESS, T_NEQ, T_POW,
        T_ATAN2, T_EQL_REGEX, T_NEQ_REGEX,
    ];
    let comparisons = [T_EQLC, T_NEQ, T_LTE, T_LSS, T_GTE, T_GTR];
    let sets = [T_LAND, T_LOR, T_LUNLESS];
    let aggregators = [
        T_AVG,
        T_BOTTOMK,
        T_COUNT,
        T_COUNT_VALUES,
        T_GROUP,
        T_MAX,
        T_MIN,
        T_QUANTILE,
        T_STDDEV,
        T_STDVAR,
        T_SUM,
        T_TOPK,
    ];
    let with_param = [T_TOPK, T_BOTTOMK, T_COUNT_VALUES, T_QUANTILE];
    for id in 0..=u8::MAX {
        let t = TokenType::new(id);
        assert_eq!(t.id(), id);
        assert_eq!(
            t.is_operator(),
            T_OPERATORS_START < id && id < T_OPERATORS_END
        );
        assert_eq!(
            t.is_aggregator(),
            T_AGGREGATORS_START < id && id < T_AGGREGATORS_END
        );
        assert_eq!(t.is_comparison_operator(), comparisons.contains(&id));
        assert_eq!(t.is_set_operator(), sets.contains(&id));
        assert_eq!(t.is_aggregator(), aggregators.contains(&id));
        assert_eq!(t.is_aggregator_with_param(), with_param.contains(&id));
        assert_eq!(t.is_right_associative(), id == T_POW);
        if operators.contains(&id) {
            assert!(t.is_operator());
        }
    }
    for id in [T_OPERATORS_START, T_OPERATORS_END, T_EQL, T_BOOL, T_SUM] {
        assert!(!TokenType::new(id).is_operator());
    }
    for id in [T_AGGREGATORS_START, T_AGGREGATORS_END, T_ADD, T_BOOL] {
        assert!(!TokenType::new(id).is_aggregator());
    }
}

#[test]
fn tokens_are_shown_as_written() {
    assert_eq!(token_display(T_ADD), "+");
    assert_eq!(token_display(T_EQLC), "==");
    assert_eq!(token_display(T_EQL), "=");
    assert_eq!(token_display(T_LUNLESS), "unless");
    assert_eq!(token_display(T_COUNT_VALUES), "count_values");
    assert_eq!(token_display(T_START), "start");
    assert_eq!(token_display(T_END), "end");
    assert_eq!(token_display(0), "unknown token");
    assert_eq!(token_display(u8::MAX), "unknown token");
}

#[test]
fn at_modifier_of_a_keyword() {
    assert_eq!(AtModifier::try_from(T_START), Ok(AtModifier::Start));
    assert_eq!(AtModifier::try_from(T_END), Ok(AtModifier::End));
    assert_eq!(
        AtModifier::try_from(Token::new(T_END, "end".into())),
        Ok(AtModifier::End)
    );
    assert_eq!(
        AtModifier::try_from(Token::new(T_SUM, "sum".into())),
        Err("invalid @ modifier preprocessor 'sum', START or END is valid.".to_string())
    );
    assert_eq!(
        AtModifier::try_from(0u8),
        Err("invalid @ modifier preprocessor 'unknown token', START or END is valid.".to_string())
    );
}

#[test]
fn at_modifier_of_milliseconds() {
    assert_eq!(
        AtModifier::from_epoch_millis(1500, false),
        Some(AtModifier::At(
            SystemTime::UNIX_EPOCH + Duration::from_millis(1500)
        ))
    );
    assert_eq!(
        AtModifier::from_epoch_millis(1500, true),
        Some(AtModifier::At(
            SystemTime::UNIX_EPOCH - Duration::from_millis(1500)
        ))
    );
    assert_eq!(
        AtModifier::from_epoch_millis(0, true),
        Some(AtModifier::At(SystemTime::UNIX_EPOCH))
    );
    assert_eq!(
        AtModifier::at_seconds((-0.0f64).to_bits()),
        Some(AtModifier::At(SystemTime::UNIX_EPOCH))
    );
    assert_eq!(
        AtModifier::at_seconds((-2.5f64).to_bits()),
        Some(AtModifier::At(
            SystemTime::UNIX_EPOCH - Duration::from_millis(2500)
        ))
    );
    assert_eq!(
        AtModifier::at_instant(Some(SystemTime::UNIX_EPOCH)),
        Some(AtModifier::At(SystemTime::UNIX_EPOCH))
    );
    assert_eq!(AtModifier::at_instant(None), None);
}

#[test]
fn value_types_are_named() {
    assert_eq!(ValueType::Vector.as_str(), "vector");
    assert_eq!(ValueType::Scalar.as_str(), "scalar");
    assert_eq!(ValueType::Matrix.as_str(), "matrix");
    assert_eq!(ValueType::String.as_str(), "string");
}
