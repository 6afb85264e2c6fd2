//! Token identifiers and the classes of operator they fall into.

use vstd::prelude::*;

verus! {

/// The identifier of a token.
pub type TokenId = u8;

// Punctuation and literals.
pub const T_EQL: TokenId = 1;

pub const T_BLANK: TokenId = 2;

pub const T_COLON: TokenId = 3;

pub const T_COMMA: TokenId = 4;

pub const T_COMMENT: TokenId = 5;

pub const T_DURATION: TokenId = 6;

pub const T_EOF: TokenId = 7;

pub const T_ERROR: TokenId = 8;

pub const T_IDENTIFIER: TokenId = 9;

pub const T_LEFT_BRACE: TokenId = 10;

pub const T_LEFT_BRACKET: TokenId = 11;

pub const T_LEFT_PAREN: TokenId = 12;

pub const T_METRIC_IDENTIFIER: TokenId = 13;

pub const T_NUMBER: TokenId = 14;

pub const T_RIGHT_BRACE: TokenId = 15;

pub const T_RIGHT_BRACKET: TokenId = 16;

pub const T_RIGHT_PAREN: TokenId = 17;

pub const T_SEMICOLON: TokenId = 18;

pub const T_SPACE: TokenId = 19;

pub const T_STRING: TokenId = 20;

pub const T_TIMES: TokenId = 21;

// Operators, between two markers that are no tokens themselves.
pub const T_OPERATORS_START: TokenId = 22;

pub const T_ADD: TokenId = 23;

pub const T_DIV: TokenId = 24;

pub const T_EQLC: TokenId = 25;

pub const T_EQL_REGEX: TokenId = 26;

pub const T_GTE: TokenId = 27;

pub const T_GTR: TokenId = 28;

pub const T_LAND: TokenId = 29;

pub const T_LOR: TokenId = 30;

pub const T_LSS: TokenId = 31;

pub const T_LTE: TokenId = 32;

pub const T_LUNLESS: TokenId = 33;

pub const T_MOD: TokenId = 34;

pub const T_MUL: TokenId = 35;

pub const T_NEQ: TokenId = 36;

pub const T_NEQ_REGEX: TokenId = 37;

pub const T_POW: TokenId = 38;

pub const T_SUB: TokenId = 39;

pub const T_AT: TokenId = 40;

pub const T_ATAN2: TokenId = 41;

pub const T_OPERATORS_END: TokenId = 42;

// Aggregators, between two markers.
pub const T_AGGREGATORS_START: TokenId = 43;

pub const T_AVG: TokenId = 44;

pub const T_BOTTOMK: TokenId = 45;

pub const T_COUNT: TokenId = 46;

pub const T_COUNT_VALUES: TokenId = 47;

pub const T_GROUP: TokenId = 48;

pub const T_MAX: TokenId = 49;

pub const T_MIN: TokenId = 50;

pub const T_QUANTILE: TokenId = 51;

pub const T_STDDEV: TokenId = 52;

pub const T_STDVAR: TokenId = 53;

pub const T_SUM: TokenId = 54;

pub const T_TOPK: TokenId = 55;

pub const T_AGGREGATORS_END: TokenId = 56;

// Keywords, between two markers.
pub const T_KEYWORDS_START: TokenId = 57;

pub const T_BOOL: TokenId = 58;

pub const T_BY: TokenId = 59;

pub const T_GROUP_LEFT: TokenId = 60;

pub const T_GROUP_RIGHT: TokenId = 61;

pub const T_IGNORING: TokenId = 62;

pub const T_OFFSET: TokenId = 63;

pub const T_ON: TokenId = 64;

pub const T_WITHOUT: TokenId = 65;

pub const T_KEYWORDS_END: TokenId = 66;

// The keywords that may follow `@`, between two markers.
pub const T_PREPROCESSOR_START: TokenId = 67;

pub const T_START: TokenId = 68;

pub const T_END: TokenId = 69;

pub const T_PREPROCESSOR_END: TokenId = 70;

/// The text that stands for a token in a diagnostic.
pub open spec fn token_text(id: TokenId) -> Seq<char> {
    if id == T_EQL {
        "="@
    }     else if id == T_BLANK {
        "_"@
    }     else if id == T_COLON {
        ":"@
    }     else if id == T_COMMA {
        ","@
    }     else if id == T_COMMENT {
        "#"@
    }     else if id == T_DURATION {
        "[du]"@
    }     else if id == T_EOF {
        "<eof>"@
    }     else if id == T_ERROR {
        "{Err}"@
    }     else if id == T_IDENTIFIER {
        "{ID}"@
    }     else if id == T_LEFT_BRACE {
        "{"@
    }     else if id == T_LEFT_BRACKET {
        "["@
    }     else if id == T_LEFT_PAREN {
        "("@
    }     else if id == T_METRIC_IDENTIFIER {
        "{Metric_ID}"@
    }     else if id == T_NUMBER {
        "{Num}"@
    }     else if id == T_RIGHT_BRACE {
        "}"@
    }     else if id == T_RIGHT_BRACKET {
        "]"@
    }     else if id == T_RIGHT_PAREN {
        ")"@
    }     else if id == T_SEMICOLON {
        ";"@
    }     else if id == T_SPACE {
        "<space>"@
    }     else if id == T_STRING {
        "{Str}"@
    }     else if id == T_TIMES {
        "x"@
    }     else if id == T_OPERATORS_START {
        "operators_start"@
    }     else if id == T_ADD {
        "+"@
    }     else if id == T_DIV {
        "/"@
    }     else if id == T_EQLC {
        "=="@
    }     else if id == T_EQL_REGEX {
        "=~"@
    }     else if id == T_GTE {
        ">="@
    }     else if id == T_GTR {
        ">"@
    }     else if id == T_LAND {
        "and"@
    }     else if id == T_LOR {
        "or"@
    }     else if id == T_LSS {
        "<"@
    }     else if id == T_LTE {
        "<="@
    }     else if id == T_LUNLESS {
        "unless"@
    }     else if id == T_MOD {
        "%"@
    }     else if id == T_MUL {
        "*"@
    }     else if id == T_NEQ {
        "!="@
    }     else if id == T_NEQ_REGEX {
        "!~"@
    }     else if id == T_POW {
        "^"@
    }     else if id == T_SUB {
        "-"@
    }     else if id == T_AT {
        "@"@
    }     else if id == T_ATAN2 {
        "atan2"@
    }     else if id == T_OPERATORS_END {
        "operators_end"@
    }     else if id == T_AGGREGATORS_START {
        "aggregators_start"@
    }     else if id == T_AVG {
        "avg"@
    }     else if id == T_BOTTOMK {
        "bottomk"@
    }     else if id == T_COUNT {
        "count"@
    }     else if id == T_COUNT_VALUES {
        "count_values"@
    }     else if id == T_GROUP {
        "group"@
    }     else if id == T_MAX {
        "max"@
    }     else if id == T_MIN {
        "min"@
    }     else if id == T_QUANTILE {
        "quantile"@
    }     else if id == T_STDDEV {
        "stddev"@
    }     else if id == T_STDVAR {
        "stdvar"@
    }     else if id == T_SUM {
        "sum"@
    }     else if id == T_TOPK {
        "topk"@
    }     else if id == T_AGGREGATORS_END {
        "aggregators_end"@
    }     else if id == T_KEYWORDS_START {
        "keywords_start"@
    }     else if id == T_BOOL {
        "bool"@
    }     else if id == T_BY {
        "by"@
    }     else if id == T_GROUP_LEFT {
        "group_left"@
    }     else if id == T_GROUP_RIGHT {
        "group_right"@
    }     else if id == T_IGNORING {
        "ignoring"@
    }     else if id == T_OFFSET {
        "offset"@
    }     else if id == T_ON {
        "on"@
    }     else if id == T_WITHOUT {
        "without"@
    }     else if id == T_KEYWORDS_END {
        "keywords_end"@
    }     else if id == T_PREPROCESSOR_START {
        "preprocessors_start"@
    }     else if id == T_START {
        "start"@
    }     else if id == T_END {
        "end"@
    }     else if id == T_PREPROCESSOR_END {
        "preprocessors_end"@
    } else {
        "unknown token"@
    }
}

/// The text that stands for a token in a diagnostic.
pub fn token_display(id: TokenId) -> (r: &'static str)
    ensures
        r@ == token_text(id),
{
    if id == T_EQL {
        "="
    }     else if id == T_BLANK {
        "_"
    }     else if id == T_COLON {
        ":"
    }     else if id == T_COMMA {
        ","
    }     else if id == T_COMMENT {
        "#"
    }     else if id == T_DURATION {
        "[du]"
    }     else if id == T_EOF {
        "<eof>"
    }     else if id == T_ERROR {
        "{Err}"
    }     else if id == T_IDENTIFIER {
        "{ID}"
    }     else if id == T_LEFT_BRACE {
        "{"
    }     else if id == T_LEFT_BRACKET {
        "["
    }     else if id == T_LEFT_PAREN {
        "("
    }     else if id == T_METRIC_IDENTIFIER {
        "{Metric_ID}"
    }     else if id == T_NUMBER {
        "{Num}"
    }     else if id == T_RIGHT_BRACE {
        "}"
    }     else if id == T_RIGHT_BRACKET {
        "]"
    }     else if id == T_RIGHT_PAREN {
        ")"
    }     else if id == T_SEMICOLON {
        ";"
    }     else if id == T_SPACE {
        "<space>"
    }     else if id == T_STRING {
        "{Str}"
    }     else if id == T_TIMES {
        "x"
    }     else if id == T_OPERATORS_START {
        "operators_start"
    }     else if id == T_ADD {
        "+"
    }     else if id == T_DIV {
        "/"
    }     else if id == T_EQLC {
        "=="
    }     else if id == T_EQL_REGEX {
        "=~"
    }     else if id == T_GTE {
        ">="
    }     else if id == T_GTR {
        ">"
    }     else if id == T_LAND {
        "and"
    }     else if id == T_LOR {
        "or"
    }     else if id == T_LSS {
        "<"
    }     else if id == T_LTE {
        "<="
    }     else if id == T_LUNLESS {
        "unless"
    }     else if id == T_MOD {
        "%"
    }     else if id == T_MUL {
        "*"
    }     else if id == T_NEQ {
        "!="
    }     else if id == T_NEQ_REGEX {
        "!~"
    }     else if id == T_POW {
        "^"
    }     else if id == T_SUB {
        "-"
    }     else if id == T_AT {
        "@"
    }     else if id == T_ATAN2 {
        "atan2"
    }     else if id == T_OPERATORS_END {
        "operators_end"
    }     else if id == T_AGGREGATORS_START {
        "aggregators_start"
    }     else if id == T_AVG {
        "avg"
    }     else if id == T_BOTTOMK {
        "bottomk"
    }     else if id == T_COUNT {
        "count"
    }     else if id == T_COUNT_VALUES {
        "count_values"
    }     else if id == T_GROUP {
        "group"
    }     else if id == T_MAX {
        "max"
    }     else if id == T_MIN {
        "min"
    }     else if id == T_QUANTILE {
        "quantile"
    }     else if id == T_STDDEV {
        "stddev"
    }     else if id == T_STDVAR {
        "stdvar"
    }     else if id == T_SUM {
        "sum"
    }     else if id == T_TOPK {
        "topk"
    }     else if id == T_AGGREGATORS_END {
        "aggregators_end"
    }     else if id == T_KEYWORDS_START {
        "keywords_start"
    }     else if id == T_BOOL {
        "bool"
    }     else if id == T_BY {
        "by"
    }     else if id == T_GROUP_LEFT {
        "group_left"
    }     else if id == T_GROUP_RIGHT {
        "group_right"
    }     else if id == T_IGNORING {
        "ignoring"
    }     else if id == T_OFFSET {
        "offset"
    }     else if id == T_ON {
        "on"
    }     else if id == T_WITHOUT {
        "without"
    }     else if id == T_KEYWORDS_END {
        "keywords_end"
    }     else if id == T_PREPROCESSOR_START {
        "preprocessors_start"
    }     else if id == T_START {
        "start"
    }     else if id == T_END {
        "end"
    }     else if id == T_PREPROCESSOR_END {
        "preprocessors_end"
    } else {
        "unknown token"
    }
}

/// A token identifier seen as an operator of the language.
#[derive(Debug, Clone, Copy, PartialEq, Eq, Structural)]
pub struct TokenType(pub TokenId);

impl TokenType {
    /// The identifier lies strictly between the two operator markers.
    pub open spec fn spec_is_operator(&self) -> bool {
        T_OPERATORS_START < self.0 && self.0 < T_OPERATORS_END
    }

    /// The identifier lies strictly between the two aggregator markers.
    pub open spec fn spec_is_aggregator(&self) -> bool {
        T_AGGREGATORS_START < self.0 && self.0 < T_AGGREGATORS_END
    }

    /// The aggregator takes a parameter before the vector it aggregates:
    /// `topk`, `bottomk`, `count_values` or `quantile`.
    pub open spec fn spec_is_aggregator_with_param(&self) -> bool {
        self.0 == T_TOPK || self.0 == T_BOTTOMK || self.0 == T_COUNT_VALUES || self.0 == T_QUANTILE
    }

    /// One of `==`, `!=`, `<=`, `<`, `>=`, `>`.
    pub open spec fn spec_is_comparison_operator(&self) -> bool {
        self.0 == T_EQLC || self.0 == T_NEQ || self.0 == T_LTE || self.0 == T_LSS || self.0
            == T_GTE || self.0 == T_GTR
    }

    /// One of `and`, `or`, `unless`.
    pub open spec fn spec_is_set_operator(&self) -> bool {
        self.0 == T_LAND || self.0 == T_LOR || self.0 == T_LUNLESS
    }

    /// The operator groups to the right: `^` alone.
    pub open spec fn spec_is_right_associative(&self) -> bool {
        self.0 == T_POW
    }

    /// The token with the identifier `id`.
    pub fn new(id: TokenId) -> (r: Self)
        ensures
            r == TokenType(id),
    {
        TokenType(id)
    }

    /// The identifier of the token.
    pub fn id(&self) -> (r: TokenId)
        ensures
            r == self.0,
    {
        self.0
    }

    /// Whether the token is an operator.
    #[verifier::when_used_as_spec(spec_is_operator)]
    pub fn is_operator(&self) -> (r: bool)
        ensures
            r == self.spec_is_operator(),
    {
        self.0 > T_OPERATORS_START && self.0 < T_OPERATORS_END
    }

    /// Whether the token is an aggregator.
    #[verifier::when_used_as_spec(spec_is_aggregator)]
    pub fn is_aggregator(&self) -> (r: bool)
        ensures
            r == self.spec_is_aggregator(),
    {
        self.0 > T_AGGREGATORS_START && self.0 < T_AGGREGATORS_END
    }

    /// Whether the token is an aggregator that takes a parameter.
    #[verifier::when_used_as_spec(spec_is_aggregator_with_param)]
    pub fn is_aggregator_with_param(&self) -> (r: bool)
        ensures
            r == self.spec_is_aggregator_with_param(),
    {
        self.0 == T_TOPK || self.0 == T_BOTTOMK || self.0 == T_COUNT_VALUES || self.0 == T_QUANTILE
    }

    /// Whether the token is a comparison operator.
    #[verifier::when_used_as_spec(spec_is_comparison_operator)]
    pub fn is_comparison_operator(&self) -> (r: bool)
        ensures
            r == self.spec_is_comparison_operator(),
    {
        self.0 == T_EQLC || self.0 == T_NEQ || self.0 == T_LTE || self.0 == T_LSS || self.0
            == T_GTE || self.0 == T_GTR
    }

    /// Whether the token is a set operator.
    #[verifier::when_used_as_spec(spec_is_set_operator)]
    pub fn is_set_operator(&self) -> (r: bool)
        ensures
            r == self.spec_is_set_operator(),
    {
        self.0 == T_LAND || self.0 == T_LOR || self.0 == T_LUNLESS
    }

    /// Whether the operator groups to the right.
    #[verifier::when_used_as_spec(spec_is_right_associative)]
    pub fn is_right_associative(&self) -> (r: bool)
        ensures
            r == self.spec_is_right_associative(),
    {
        self.0 == T_POW
    }
}

/// Every parameterised aggregator is an aggregator, every comparison and
/// every set operator is an operator, and no token is both an operator and an
/// aggregator.
pub proof fn lemma_token_classes(t: TokenType)
    ensures
        t.is_aggregator_with_param() ==> t.is_aggregator(),
        t.is_comparison_operator() ==> t.is_operator(),
        t.is_set_operator() ==> t.is_operator(),
        !(t.is_operator() && t.is_aggregator()),
        !(t.is_comparison_operator() && t.is_set_operator()),
{
}

/// A token as the lexer hands it over: its identifier and the text it was
/// read from.
#[derive(Debug, Clone, PartialEq, Eq)]
pub struct Token {
    pub id: TokenId,
    pub val: String,
}

impl Token {
    /// The token with the identifier `id`, read from the text `val`.
    pub fn new(id: TokenId, val: String) -> (r: Self)
        ensures
            r.id == id,
            r.val == val,
    {
        Token { id, val }
    }

    /// The identifier of the token.
    pub fn id(&self) -> (r: TokenId)
        ensures
            r == self.id,
    {
        self.id
    }
}

} // verus!
