//! Whitespace tokenization of identity strings.
//!
//! An identity string such as `"Lex Luthor"` is split on runs of ASCII
//! whitespace; `tokens_of` is the mathematical model of that split and
//! `split_tokens` the verified executable form.

use vstd::prelude::*;
use vstd::string::*;

verus! {

/// The separator characters an identity string is split on.
pub open spec fn is_space_char(c: char) -> bool {
    c == ' ' || c == '\t' || c == '\n' || c == '\r' || c == '\u{c}'
}

/// Length of the leading run of non-whitespace characters of `s`.
pub open spec fn token_len(s: Seq<char>) -> int
    decreases s.len(),
{
    if s.len() == 0 || is_space_char(s[0]) {
        0
    } else {
        1 + token_len(s.drop_first())
    }
}

pub proof fn lemma_token_len_bounds(s: Seq<char>)
    ensures
        0 <= token_len(s) <= s.len(),
        s.len() > 0 && !is_space_char(s[0]) ==> 1 <= token_len(s),
    decreases s.len(),
{
    if s.len() > 0 && !is_space_char(s[0]) {
        lemma_token_len_bounds(s.drop_first());
    }
}

/// The whitespace-separated tokens of `s`, in order.
pub open spec fn tokens_of(s: Seq<char>) -> Seq<Seq<char>>
    decreases s.len(),
    via tokens_of_decreases
{
    if s.len() == 0 {
        seq![]
    } else if is_space_char(s[0]) {
        tokens_of(s.drop_first())
    } else {
        seq![s.take(token_len(s))] + tokens_of(s.skip(token_len(s)))
    }
}

#[via_fn]
proof fn tokens_of_decreases(s: Seq<char>) {
    lemma_token_len_bounds(s);
}

pub proof fn lemma_token_run(a: Seq<char>, rest: Seq<char>)
    requires
        forall|i: int| 0 <= i < a.len() ==> !is_space_char(a[i]),
        rest.len() == 0 || is_space_char(rest[0]),
    ensures
        token_len(a + rest) == a.len(),
    decreases a.len(),
{
    if a.len() == 0 {
        assert(a + rest =~= rest);
    } else {
        let s = a + rest;
        assert(s[0] == a[0]);
        assert forall|i: int| 0 <= i < a.drop_first().len() implies !is_space_char(
            a.drop_first()[i],
        ) by {
            assert(a.drop_first()[i] == a[i + 1]);
        }
        lemma_token_run(a.drop_first(), rest);
        assert(s.drop_first() =~= a.drop_first() + rest);
    }
}

pub proof fn lemma_tokens_of_one_token(a: Seq<char>)
    requires
        a.len() > 0,
        forall|i: int| 0 <= i < a.len() ==> !is_space_char(a[i]),
    ensures
        tokens_of(a) == seq![a],
{
    assert(a + Seq::<char>::empty() =~= a);
    lemma_token_run(a, Seq::<char>::empty());
    assert(token_len(a) == a.len());
    assert(a.take(a.len() as int) =~= a);
    assert(a.skip(a.len() as int) =~= Seq::<char>::empty());
    assert(tokens_of(Seq::<char>::empty()) == Seq::<Seq<char>>::empty());
    assert(tokens_of(a) =~= seq![a]);
}

/// Splitting a well-formed two-token identity string `first + " " + last`
/// yields exactly `[first, last]`; together with the contracts of `try_from`
/// and `full_name`, parsing such a string and rebuilding the full name
/// returns the input unchanged.
pub proof fn lemma_two_token_round_trip(first: Seq<char>, last: Seq<char>)
    requires
        first.len() > 0,
        last.len() > 0,
        forall|i: int| 0 <= i < first.len() ==> !is_space_char(first[i]),
        forall|i: int| 0 <= i < last.len() ==> !is_space_char(last[i]),
    ensures
        tokens_of(first + seq![' '] + last) == seq![first, last],
{
    let s = first + seq![' '] + last;
    let rest = seq![' '] + last;
    assert(s =~= first + rest);
    assert(is_space_char(rest[0]));
    lemma_token_run(first, rest);
    assert(token_len(s) == first.len());
    assert(!is_space_char(s[0]));
    assert(s.take(first.len() as int) =~= first);
    assert(s.skip(first.len() as int) =~= rest);
    assert(rest.drop_first() =~= last);
    lemma_tokens_of_one_token(last);
    assert(tokens_of(rest) == seq![last]);
    assert(tokens_of(s) =~= seq![first, last]);
}

fn is_space(c: char) -> (b: bool)
    ensures
        b == is_space_char(c),
{
    c == ' ' || c == '\t' || c == '\n' || c == '\r' || c == '\u{c}'
}

fn leading_token_len(s: &str) -> (t: usize)
    ensures
        t == token_len(s@),
    decreases s@.len(),
{
    let n = s.unicode_len();
    if n == 0 {
        0
    } else if is_space(s.get_char(0)) {
        0
    } else {
        let rest = s.substring_char(1, n);
        proof {
            assert(rest@ =~= s@.drop_first());
            lemma_token_len_bounds(s@.drop_first());
        }
        1 + leading_token_len(rest)
    }
}

/// Splits `s` into its whitespace-separated tokens, in order.
pub fn split_tokens(s: &str) -> (v: Vec<String>)
    ensures
        v@.len() == tokens_of(s@).len(),
        forall|i: int| 0 <= i < v@.len() ==> v@[i]@ == tokens_of(s@)[i],
    decreases s@.len(),
{
    let n = s.unicode_len();
    if n == 0 {
        Vec::new()
    } else if is_space(s.get_char(0)) {
        let rest = s.substring_char(1, n);
        proof {
            assert(rest@ =~= s@.drop_first());
        }
        split_tokens(rest)
    } else {
        let t = leading_token_len(s);
        proof {
            lemma_token_len_bounds(s@);
        }
        let first = s.substring_char(0, t).to_owned();
        let rest = s.substring_char(t, n);
        let mut v = split_tokens(rest);
        proof {
            assert(rest@ =~= s@.skip(token_len(s@)));
            assert(first@ =~= s@.take(token_len(s@)));
        }
        let ghost pre = v@;
        v.insert(0, first);
        proof {
            let toks = tokens_of(s@);
            let rec = tokens_of(rest@);
            assert(toks == seq![s@.take(token_len(s@))] + rec);
            assert(v@ == pre.insert(0, first));
            assert forall|i: int| 0 <= i < v@.len() implies v@[i]@ == toks[i] by {
                if i == 0 {
                    assert(v@[0] == first);
                    assert(toks[0] == s@.take(token_len(s@)));
                } else {
                    assert(v@[i] == pre[i - 1]);
                    assert(toks[i] == rec[i - 1]);
                }
            }
        }
        v
    }
}

} // verus!
