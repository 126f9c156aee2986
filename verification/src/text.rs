//! Text building blocks shared by the identifiers and selectors of the library.

use vstd::prelude::*;

verus! {

/// The character that stands for a single decimal digit.
pub open spec fn digit_char(d: int) -> char {
    if d == 0 {
        '0'
    } else if d == 1 {
        '1'
    } else if d == 2 {
        '2'
    } else if d == 3 {
        '3'
    } else if d == 4 {
        '4'
    } else if d == 5 {
        '5'
    } else if d == 6 {
        '6'
    } else if d == 7 {
        '7'
    } else if d == 8 {
        '8'
    } else {
        '9'
    }
}

/// The decimal numeral of `n`, most significant digit first, without leading zeros.
pub open spec fn decimal(n: nat) -> Seq<char>
    decreases n,
{
    if n < 10 {
        seq![digit_char(n as int)]
    } else {
        decimal(n / 10).push(digit_char((n % 10) as int))
    }
}

/// Whether `mark` occurs nowhere in `text`.
pub open spec fn free_of(text: Seq<char>, mark: char) -> bool {
    forall|i: int| 0 <= i < text.len() ==> text[i] != mark
}

/// A numeral has at least one digit, and nothing but digits: neither `:` nor `/`
/// occurs in it.
pub proof fn lemma_decimal_is_digits(n: nat)
    ensures
        decimal(n).len() >= 1,
        free_of(decimal(n), ':'),
        free_of(decimal(n), '/'),
    decreases n,
{
    if n >= 10 {
        lemma_decimal_is_digits(n / 10);
    }
}

/// Different numbers have different numerals.
pub proof fn lemma_decimal_is_injective(a: nat, b: nat)
    requires
        decimal(a) == decimal(b),
    ensures
        a == b,
    decreases a,
{
    lemma_decimal_is_digits(a / 10);
    lemma_decimal_is_digits(b / 10);
    if a < 10 && b < 10 {
        assert(decimal(a) == seq![digit_char(a as int)]);
        assert(decimal(b) == seq![digit_char(b as int)]);
        assert(seq![digit_char(a as int)][0] == seq![digit_char(b as int)][0]);
        assert(a == b);
    } else if a >= 10 && b >= 10 {
        let front_a = decimal(a / 10);
        let front_b = decimal(b / 10);
        assert(front_a =~= decimal(a).drop_last());
        assert(front_b =~= decimal(b).drop_last());
        lemma_decimal_is_injective(a / 10, b / 10);
        assert(decimal(a).last() == digit_char((a % 10) as int));
        assert(decimal(b).last() == digit_char((b % 10) as int));
        assert(a % 10 == b % 10);
        assert(a == 10 * (a / 10) + a % 10);
        assert(b == 10 * (b / 10) + b % 10);
    } else {
        assert(decimal(a).len() != decimal(b).len());
    }
}

/// A text is cut in one way only at the first place where a mark stands: two
/// texts that are each a word free of the mark, the mark, and a rest, are equal
/// only if the words are equal and the rests are.
pub proof fn lemma_cut_at_mark(
    word: Seq<char>,
    rest: Seq<char>,
    other_word: Seq<char>,
    other_rest: Seq<char>,
    mark: char,
)
    requires
        free_of(word, mark),
        free_of(other_word, mark),
        word + seq![mark] + rest == other_word + seq![mark] + other_rest,
    ensures
        word == other_word,
        rest == other_rest,
{
    let whole = word + seq![mark] + rest;
    let other = other_word + seq![mark] + other_rest;
    let n = word.len() as int;
    let m = other_word.len() as int;
    assert(whole[n] == mark);
    assert(other[m] == mark);
    if n < m {
        assert(other[n] == other_word[n]);
    } else if m < n {
        assert(whole[m] == word[m]);
    }
    assert(word =~= whole.subrange(0, n));
    assert(other_word =~= other.subrange(0, n));
    assert(whole.len() == n + 1 + rest.len());
    assert(other.len() == n + 1 + other_rest.len());
    assert(rest =~= whole.subrange(n + 1, whole.len() as int));
    assert(other_rest =~= other.subrange(n + 1, whole.len() as int));
}

/// Two texts that start alike and are equal end alike.
pub proof fn lemma_same_start<A>(start: Seq<A>, rest: Seq<A>, other_rest: Seq<A>)
    requires
        start + rest == start + other_rest,
    ensures
        rest == other_rest,
{
    let whole = start + rest;
    let n = start.len() as int;
    assert(whole.len() == n + rest.len());
    assert((start + other_rest).len() == n + other_rest.len());
    assert(rest =~= whole.subrange(n, whole.len() as int));
    assert(other_rest =~= (start + other_rest).subrange(n, whole.len() as int));
}

fn digit_str(d: u64) -> (s: &'static str)
    requires
        d < 10,
    ensures
        s@ == seq![digit_char(d as int)],
{
    proof {
        reveal_strlit("0");
        reveal_strlit("1");
        reveal_strlit("2");
        reveal_strlit("3");
        reveal_strlit("4");
        reveal_strlit("5");
        reveal_strlit("6");
        reveal_strlit("7");
        reveal_strlit("8");
        reveal_strlit("9");
    }
    let s = if d == 0 {
        "0"
    } else if d == 1 {
        "1"
    } else if d == 2 {
        "2"
    } else if d == 3 {
        "3"
    } else if d == 4 {
        "4"
    } else if d == 5 {
        "5"
    } else if d == 6 {
        "6"
    } else if d == 7 {
        "7"
    } else if d == 8 {
        "8"
    } else {
        "9"
    };
    assert(s@ =~= seq![digit_char(d as int)]);
    s
}

/// Writes `n` as a decimal numeral.
pub fn decimal_string(n: u64) -> (s: String)
    ensures
        s@ == decimal(n as nat),
    decreases n,
{
    if n < 10 {
        String::from_str(digit_str(n))
    } else {
        let mut s = decimal_string(n / 10);
        s.append(digit_str(n % 10));
        assert(s@ =~= decimal(n as nat));
        s
    }
}

/// Joins two pieces of text.
pub fn join2(a: &str, b: &str) -> (s: String)
    ensures
        s@ == a@ + b@,
{
    let mut s = String::from_str(a);
    s.append(b);
    s
}

/// Joins three pieces of text.
pub fn join3(a: &str, b: &str, c: &str) -> (s: String)
    ensures
        s@ == a@ + b@ + c@,
{
    let mut s = String::from_str(a);
    s.append(b);
    s.append(c);
    s
}

/// Whether two pieces of text hold the same characters.
pub fn same_text(a: &str, b: &str) -> (r: bool)
    ensures
        r == (a@ == b@),
{
    String::from_str(a) == String::from_str(b)
}

} // verus!
