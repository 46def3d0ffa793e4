//! Text building blocks: decimal numerals, removal of every occurrence of a
//! pattern, and joining with a separator.

use vstd::prelude::*;
use vstd::string::StrSliceExecFns;

verus! {

/// The numeral character of a digit below ten.
pub open spec fn digit_char(d: nat) -> char {
    (d + 48) as char
}

/// Decimal numeral of a natural number, most significant digit first.
pub open spec fn nat_decimal(n: nat) -> Seq<char>
    decreases n,
{
    if n < 10 {
        seq![digit_char(n)]
    } else {
        nat_decimal(n / 10).push(digit_char(n % 10))
    }
}

/// Decimal numeral of an integer, with a leading '-' when negative.
pub open spec fn int_decimal(n: int) -> Seq<char> {
    if n < 0 {
        seq!['-'] + nat_decimal((-n) as nat)
    } else {
        nat_decimal(n as nat)
    }
}

/// Appends one character.
///
/// Calls `String::push`, which, as its documentation says, appends the
/// character to the end of the string.
#[verifier::external_body]
pub(crate) fn push_char(s: &mut String, c: char)
    ensures
        final(s)@ == old(s)@.push(c),
{
    s.push(c);
}

fn digit_to_char(d: u64) -> (c: char)
    requires
        d < 10,
    ensures
        c == digit_char(d as nat),
{
    match d {
        0 => '0',
        1 => '1',
        2 => '2',
        3 => '3',
        4 => '4',
        5 => '5',
        6 => '6',
        7 => '7',
        8 => '8',
        _ => '9',
    }
}

fn push_nat_decimal(s: &mut String, n: u64)
    ensures
        final(s)@ == old(s)@ + nat_decimal(n as nat),
    decreases n,
{
    if n >= 10 {
        push_nat_decimal(s, n / 10);
    }
    let c = digit_to_char(n % 10);
    push_char(s, c);
    assert(nat_decimal(n as nat) =~= if n < 10 {
        seq![digit_char(n as nat)]
    } else {
        nat_decimal((n / 10) as nat).push(digit_char((n % 10) as nat))
    });
}

/// Appends the decimal numeral of `n`.
pub fn push_int_decimal(s: &mut String, n: i64)
    ensures
        final(s)@ == old(s)@ + int_decimal(n as int),
{
    if n < 0 {
        push_char(s, '-');
        let m: u64 = (-(n as i128)) as u64;
        push_nat_decimal(s, m);
        assert(old(s)@ + int_decimal(n as int) =~= old(s)@.push('-') + nat_decimal(m as nat));
    } else {
        push_nat_decimal(s, n as u64);
    }
}

/// The parts joined with `sep` between consecutive parts.
pub open spec fn join_with(parts: Seq<Seq<char>>, sep: Seq<char>) -> Seq<char>
    decreases parts.len(),
{
    if parts.len() == 0 {
        seq![]
    } else if parts.len() == 1 {
        parts[0]
    } else {
        join_with(parts.drop_last(), sep) + sep + parts.last()
    }
}

/// `s` with every occurrence of `pat` removed, matches taken left to right
/// without overlap.
pub open spec fn remove_all(s: Seq<char>, pat: Seq<char>) -> Seq<char>
    decreases s.len(),
{
    if pat.len() == 0 || s.len() < pat.len() {
        s
    } else if s.subrange(0, pat.len() as int) == pat {
        remove_all(s.skip(pat.len() as int), pat)
    } else {
        seq![s[0]] + remove_all(s.skip(1), pat)
    }
}

/// The characters of `s` in order.
fn chars_of(s: &str) -> (v: Vec<char>)
    ensures
        v@ == s@,
{
    let n = s.unicode_len();
    let mut v: Vec<char> = Vec::new();
    let mut i: usize = 0;
    while i < n
        invariant
            n == s@.len(),
            i <= n,
            v@ == s@.subrange(0, i as int),
        decreases n - i,
    {
        let c = s.get_char(i);
        v.push(c);
        i = i + 1;
        assert(v@ =~= s@.subrange(0, i as int));
    }
    assert(v@ =~= s@);
    v
}

/// Whether `pat` occurs in `v` at position `i`.
fn matches_at(v: &Vec<char>, i: usize, pat: &Vec<char>) -> (b: bool)
    requires
        i + pat@.len() <= v@.len(),
    ensures
        b == (v@.subrange(i as int, i + pat@.len()) == pat@),
{
    let n = v.len();
    let mut k: usize = 0;
    while k < pat.len()
        invariant
            n == v@.len(),
            i + pat@.len() <= v@.len(),
            k <= pat@.len(),
            forall|j: int| 0 <= j < k ==> v@[i + j] == pat@[j],
        decreases pat@.len() - k,
    {
        if v[i + k] != pat[k] {
            assert(v@.subrange(i as int, i + pat@.len())[k as int] != pat@[k as int]);
            return false;
        }
        k = k + 1;
    }
    assert(v@.subrange(i as int, i + pat@.len()) =~= pat@);
    true
}

/// `s` with every occurrence of `pat` removed, as `str::replace(pat, "")`
/// does.
pub fn remove_all_occurrences(s: &str, pat: &str) -> (r: String)
    ensures
        r@ == remove_all(s@, pat@),
{
    let v = chars_of(s);
    let p = chars_of(pat);
    let n = v.len();
    let m = p.len();
    let mut r = String::new();
    if m == 0 {
        let mut i: usize = 0;
        while i < n
            invariant
                n == v@.len(),
                i <= n,
                r@ == v@.subrange(0, i as int),
            decreases n - i,
        {
            push_char(&mut r, v[i]);
            i = i + 1;
            assert(r@ =~= v@.subrange(0, i as int));
        }
        assert(r@ =~= s@);
        return r;
    }
    let mut i: usize = 0;
    assert(v@.skip(0) =~= v@);
    while i < n
        invariant
            n == v@.len(),
            m == p@.len(),
            m > 0,
            i <= n,
            v@ == s@,
            p@ == pat@,
            r@ + remove_all(v@.skip(i as int), p@) == remove_all(s@, pat@),
        decreases n - i,
    {
        let ghost rest = v@.skip(i as int);
        if n - i < m {
            assert(remove_all(rest, p@) == rest);
            let mut j: usize = i;
            while j < n
                invariant
                    n == v@.len(),
                    i <= j <= n,
                    r@ + v@.subrange(j as int, n as int) == remove_all(s@, pat@),
                decreases n - j,
            {
                let ghost before = r@;
                push_char(&mut r, v[j]);
                assert(v@.subrange(j as int, n as int) =~= seq![v@[j as int]] + v@.subrange(
                    j + 1,
                    n as int,
                ));
                assert(r@ + v@.subrange(j + 1, n as int) =~= before + v@.subrange(
                    j as int,
                    n as int,
                ));
                j = j + 1;
            }
            assert(v@.subrange(n as int, n as int) =~= seq![]);
            assert(r@ =~= remove_all(s@, pat@));
            return r;
        }
        assert(rest.subrange(0, m as int) =~= v@.subrange(i as int, i + m));
        if matches_at(&v, i, &p) {
            assert(rest.skip(m as int) =~= v@.skip(i + m));
            i = i + m;
        } else {
            let ghost before = r@;
            push_char(&mut r, v[i]);
            assert(rest.skip(1) =~= v@.skip(i + 1));
            assert(r@ + remove_all(v@.skip(i + 1), p@) =~= before + remove_all(rest, p@));
            i = i + 1;
        }
    }
    assert(v@.skip(n as int) =~= seq![]);
    assert(remove_all(seq![], p@) == Seq::<char>::empty());
    assert(r@ =~= remove_all(s@, pat@));
    r
}

} // verus!
