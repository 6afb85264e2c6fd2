//! Strings as sequences of characters: their order, comparison without
//! regard to ASCII case, and the decimal form of a number.

use vstd::prelude::*;

verus! {

/// `a` comes strictly before `b` in lexicographic order, characters compared
/// by code point.
pub open spec fn lex_lt(a: Seq<char>, b: Seq<char>) -> bool
    decreases a.len(),
{
    if b.len() == 0 {
        false
    } else if a.len() == 0 {
        true
    } else if a[0] != b[0] {
        a[0] < b[0]
    } else {
        lex_lt(a.drop_first(), b.drop_first())
    }
}

/// `a` comes before `b`, or is `b`.
pub open spec fn lex_le(a: Seq<char>, b: Seq<char>) -> bool {
    a == b || lex_lt(a, b)
}

/// No string comes before itself.
pub proof fn lemma_lex_lt_irreflexive(a: Seq<char>)
    ensures
        !lex_lt(a, a),
    decreases a.len(),
{
    if a.len() > 0 {
        lemma_lex_lt_irreflexive(a.drop_first());
    }
}

/// Of two different strings exactly one comes before the other.
pub proof fn lemma_lex_lt_total(a: Seq<char>, b: Seq<char>)
    ensures
        a != b ==> (lex_lt(a, b) <==> !lex_lt(b, a)),
        a == b ==> !lex_lt(a, b) && !lex_lt(b, a),
    decreases a.len(),
{
    if a == b {
        lemma_lex_lt_irreflexive(a);
    } else if a.len() > 0 && b.len() > 0 {
        if a[0] == b[0] {
            assert(a.drop_first() != b.drop_first()) by {
                if a.drop_first() == b.drop_first() {
                    assert(a =~= seq![a[0]] + a.drop_first());
                    assert(b =~= seq![b[0]] + b.drop_first());
                }
            }
            lemma_lex_lt_total(a.drop_first(), b.drop_first());
        }
    } else if a.len() == 0 && b.len() == 0 {
        assert(a =~= b);
    }
}

/// The order is transitive.
pub proof fn lemma_lex_lt_transitive(a: Seq<char>, b: Seq<char>, c: Seq<char>)
    requires
        lex_lt(a, b),
        lex_lt(b, c),
    ensures
        lex_lt(a, c),
    decreases a.len(),
{
    if a.len() > 0 && a[0] == b[0] && b[0] == c[0] {
        lemma_lex_lt_transitive(a.drop_first(), b.drop_first(), c.drop_first());
    }
}

/// `lex_le` is a total order: any two strings compare, and two strings that
/// come before each other are the same string.
pub proof fn lemma_lex_le_order(a: Seq<char>, b: Seq<char>, c: Seq<char>)
    ensures
        lex_le(a, a),
        lex_le(a, b) || lex_le(b, a),
        lex_le(a, b) && lex_le(b, a) ==> a == b,
        lex_le(a, b) && lex_le(b, c) ==> lex_le(a, c),
{
    lemma_lex_lt_total(a, b);
    if lex_lt(a, b) && lex_lt(b, c) {
        lemma_lex_lt_transitive(a, b, c);
    }
}

/// Whether `a` comes strictly before `b` in lexicographic order.
pub fn str_lt(a: &str, b: &str) -> (r: bool)
    ensures
        r == lex_lt(a@, b@),
{
    let n = a.unicode_len();
    let m = b.unicode_len();
    let mut i: usize = 0;
    assert(a@.skip(0) =~= a@ && b@.skip(0) =~= b@);
    while i < n && i < m
        invariant
            i <= n,
            i <= m,
            n == a@.len(),
            m == b@.len(),
            lex_lt(a@, b@) == lex_lt(a@.skip(i as int), b@.skip(i as int)),
        decreases n - i,
    {
        let ca = a.get_char(i);
        let cb = b.get_char(i);
        proof {
            assert(a@.skip(i as int).drop_first() =~= a@.skip(i + 1));
            assert(b@.skip(i as int).drop_first() =~= b@.skip(i + 1));
        }
        if ca != cb {
            return ca < cb;
        }
        i += 1;
    }
    n < m
}

/// Whether two strings hold the same characters.
pub fn str_eq(a: &str, b: &str) -> (r: bool)
    ensures
        r == (a@ == b@),
{
    let n = a.unicode_len();
    if n != b.unicode_len() {
        return false;
    }
    let mut i: usize = 0;
    while i < n
        invariant
            i <= n,
            n == a@.len(),
            n == b@.len(),
            forall|k: int| 0 <= k < i ==> a@[k] == b@[k],
        decreases n - i,
    {
        if a.get_char(i) != b.get_char(i) {
            return false;
        }
        i += 1;
    }
    assert(a@ =~= b@);
    true
}

/// The lower-case form of an ASCII letter; any other character unchanged.
pub open spec fn ascii_lower(c: char) -> char {
    if 'A' <= c && c <= 'Z' {
        ((c as u32) + 32) as char
    } else {
        c
    }
}

/// Two strings are equal once their ASCII letters are brought to lower
/// case.
pub open spec fn eq_ignore_ascii_case(a: Seq<char>, b: Seq<char>) -> bool {
    &&& a.len() == b.len()
    &&& forall|k: int| 0 <= k < a.len() ==> ascii_lower(#[trigger] a[k]) == ascii_lower(b[k])
}

fn to_ascii_lower(c: char) -> (r: char)
    ensures
        r == ascii_lower(c),
{
    if 'A' <= c && c <= 'Z' {
        let code: u32 = c as u32 + 32;
        code as u8 as char
    } else {
        c
    }
}

/// Whether two strings are equal without regard to the case of their ASCII
/// letters.
pub fn str_eq_ignore_ascii_case(a: &str, b: &str) -> (r: bool)
    ensures
        r == eq_ignore_ascii_case(a@, b@),
{
    let n = a.unicode_len();
    if n != b.unicode_len() {
        return false;
    }
    let mut i: usize = 0;
    while i < n
        invariant
            i <= n,
            n == a@.len(),
            n == b@.len(),
            forall|k: int| 0 <= k < i ==> ascii_lower(#[trigger] a@[k]) == ascii_lower(b@[k]),
        decreases n - i,
    {
        if to_ascii_lower(a.get_char(i)) != to_ascii_lower(b.get_char(i)) {
            return false;
        }
        i += 1;
    }
    true
}

/// The character that writes the digit `d`.
pub open spec fn digit_char(d: nat) -> char {
    if d == 0 {
        '0'
    } else if d == 1 {
        '1'
    } else if d == 2 {
        '2'
    } else if d == 3 {
        '3'
    } else if d == 4 {
        '4'
    } else if d == 5 {
        '5'
    } else if d == 6 {
        '6'
    } else if d == 7 {
        '7'
    } else if d == 8 {
        '8'
    } else {
        '9'
    }
}

/// The decimal form of `n`, without leading zeros.
pub open spec fn decimal(n: nat) -> Seq<char>
    decreases n,
{
    if n < 10 {
        seq![digit_char(n)]
    } else {
        decimal(n / 10).push(digit_char(n % 10))
    }
}

fn digit_str(d: usize) -> (r: &'static str)
    requires
        d < 10,
    ensures
        r@ == seq![digit_char(d as nat)],
{
    proof {
        reveal_strlit("0");
        reveal_strlit("1");
        reveal_strlit("2");
        reveal_strlit("3");
        reveal_strlit("4");
        reveal_strlit("5");
        reveal_strlit("6");
        reveal_strlit("7");
        reveal_strlit("8");
        reveal_strlit("9");
    }
    if d == 0 {
        "0"
    } else if d == 1 {
        "1"
    } else if d == 2 {
        "2"
    } else if d == 3 {
        "3"
    } else if d == 4 {
        "4"
    } else if d == 5 {
        "5"
    } else if d == 6 {
        "6"
    } else if d == 7 {
        "7"
    } else if d == 8 {
        "8"
    } else {
        "9"
    }
}

/// Writes `n` in decimal.
pub fn decimal_string(n: usize) -> (r: String)
    ensures
        r@ == decimal(n as nat),
    decreases n,
{
    if n < 10 {
        String::from_str(digit_str(n))
    } else {
        let mut s = decimal_string(n / 10);
        s.append(digit_str(n % 10));
        s
    }
}

/// The strings of a vector, each as its sequence of characters.
pub open spec fn string_views(v: Seq<String>) -> Seq<Seq<char>> {
    v.map_values(|s: String| s@)
}

/// The strings that a vector refers to, each as its sequence of characters.
pub open spec fn ref_views(v: Seq<&String>) -> Seq<Seq<char>> {
    v.map_values(|s: &String| s@)
}

/// The position of the lexicographically first string of `s`; of the
/// earliest one, where several are first.
pub open spec fn least_index(s: Seq<Seq<char>>) -> int
    decreases s.len(),
{
    if s.len() <= 1 {
        0
    } else {
        let j = least_index(s.drop_last());
        if lex_lt(s.last(), s[j]) {
            s.len() - 1
        } else {
            j
        }
    }
}

/// `least_index` is a position of `s`, and no string of `s` comes before the
/// one it points at.
pub proof fn lemma_least_index(s: Seq<Seq<char>>)
    requires
        s.len() > 0,
    ensures
        0 <= least_index(s) < s.len(),
        forall|k: int| 0 <= k < s.len() ==> lex_le(s[least_index(s)], #[trigger] s[k]),
    decreases s.len(),
{
    if s.len() > 1 {
        let rest = s.drop_last();
        lemma_least_index(rest);
        let j = least_index(rest);
        assert forall|k: int| 0 <= k < s.len() implies lex_le(
            s[least_index(s)],
            #[trigger] s[k],
        ) by {
            lemma_lex_lt_total(s.last(), s[j]);
            if k < s.len() - 1 {
                assert(lex_le(rest[j], rest[k]));
                lemma_lex_le_order(s.last(), s[j], s[k]);
            }
        }
    }
}

/// The first two strings of `s` in lexicographic order: the first of all,
/// and the first of those that remain once it is taken out.
pub open spec fn two_least(s: Seq<Seq<char>>) -> (Seq<char>, Seq<char>) {
    let i = least_index(s);
    let rest = s.remove(i);
    (s[i], rest[least_index(rest)])
}

/// `two_least` gives what a sort would put first and second: the first comes
/// before or equals the second, and the second comes before or equals every
/// string of `s` but the first.
pub proof fn lemma_two_least(s: Seq<Seq<char>>)
    requires
        s.len() >= 2,
    ensures
        lex_le(two_least(s).0, two_least(s).1),
        forall|k: int|
            0 <= k < s.len() && k != least_index(s) ==> lex_le(two_least(s).1, #[trigger] s[k]),
        exists|i: int, j: int|
            0 <= i < s.len() && 0 <= j < s.len() && i != j && s[i] == two_least(s).0 && s[j]
                == two_least(s).1,
{
    let i = least_index(s);
    lemma_least_index(s);
    let rest = s.remove(i);
    lemma_least_index(rest);
    let j = least_index(rest);
    let j_in_s = if j < i {
        j
    } else {
        j + 1
    };
    assert(rest[j] == s[j_in_s]);
    assert forall|k: int| 0 <= k < s.len() && k != i implies lex_le(
        two_least(s).1,
        #[trigger] s[k],
    ) by {
        let k_in_rest = if k < i {
            k
        } else {
            k - 1
        };
        assert(rest[k_in_rest] == s[k]);
    }
}

/// The position of the lexicographically first string of `v`; none where
/// `v` is empty.
pub fn index_of_least(v: &Vec<String>) -> (r: Option<usize>)
    ensures
        match r {
            Some(i) => i < v.len() && i == least_index(string_views(v@)),
            None => v.len() == 0,
        },
{
    if v.len() == 0 {
        return None;
    }
    let ghost s = string_views(v@);
    let mut best: usize = 0;
    let mut i: usize = 1;
    while i < v.len()
        invariant
            1 <= i <= v.len(),
            s == string_views(v@),
            best == least_index(s.take(i as int)),
            best < i,
        decreases v.len() - i,
    {
        proof {
            let next = s.take(i + 1);
            assert(next.drop_last() =~= s.take(i as int));
        }
        if str_lt(v[i].as_str(), v[best].as_str()) {
            best = i;
        }
        i += 1;
    }
    assert(s.take(i as int) =~= s);
    Some(best)
}

} // verus!
