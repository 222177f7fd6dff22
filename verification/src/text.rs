//! Text primitives the dialogue engine reads its input with: splitting on a
//! separator character, trimming surrounding blanks, and decimal numbers.

use vstd::prelude::*;
use vstd::string::StrSliceExecFns;

verus! {

/// Blank characters stripped from both ends of a token.
pub open spec fn is_space(c: char) -> bool {
    c == ' ' || c == '\t' || c == '\n' || c == '\r'
}

/// `s` without its leading blanks.
pub open spec fn trim_front(s: Seq<char>) -> Seq<char>
    decreases s.len(),
{
    if s.len() > 0 && is_space(s[0]) {
        trim_front(s.drop_first())
    } else {
        s
    }
}

/// `s` without its trailing blanks.
pub open spec fn trim_back(s: Seq<char>) -> Seq<char>
    decreases s.len(),
{
    if s.len() > 0 && is_space(s.last()) {
        trim_back(s.drop_last())
    } else {
        s
    }
}

/// `s` without leading and trailing blanks.
pub open spec fn trim(s: Seq<char>) -> Seq<char> {
    trim_back(trim_front(s))
}

proof fn lemma_trim_front_skips(s: Seq<char>, j: int)
    requires
        0 <= j <= s.len(),
        forall|k: int| 0 <= k < j ==> is_space(s[k]),
        j == s.len() || !is_space(s[j]),
    ensures
        trim_front(s) == s.skip(j),
    decreases j,
{
    if j == 0 {
        assert(s.skip(0) =~= s);
    } else {
        assert(forall|k: int| 0 <= k < j - 1 ==> is_space(s.drop_first()[k]));
        lemma_trim_front_skips(s.drop_first(), j - 1);
        assert(s.drop_first().skip(j - 1) =~= s.skip(j));
    }
}

proof fn lemma_trim_back_takes(s: Seq<char>, j: int)
    requires
        0 <= j <= s.len(),
        forall|k: int| j <= k < s.len() ==> is_space(s[k]),
        j == 0 || !is_space(s[j - 1]),
    ensures
        trim_back(s) == s.take(j),
    decreases s.len() - j,
{
    if j == s.len() {
        assert(s.take(j) =~= s);
    } else {
        assert(is_space(s.last()));
        assert(forall|k: int| j <= k < s.drop_last().len() ==> is_space(s.drop_last()[k]));
        lemma_trim_back_takes(s.drop_last(), j);
        assert(s.drop_last().take(j) =~= s.take(j));
    }
}

fn is_space_char(c: char) -> (r: bool)
    ensures
        r == is_space(c),
{
    c == ' ' || c == '\t' || c == '\n' || c == '\r'
}

/// `s` with surrounding blanks removed, as a fresh string.
pub fn trim_str(s: &str) -> (r: String)
    ensures
        r@ == trim(s@),
{
    let n = s.unicode_len();
    let mut a: usize = 0;
    while a < n
        invariant
            n == s@.len(),
            0 <= a <= n,
            forall|k: int| 0 <= k < a ==> is_space(s@[k]),
        ensures
            0 <= a <= n,
            forall|k: int| 0 <= k < a ==> is_space(s@[k]),
            a == n || !is_space(s@[a as int]),
        decreases n - a,
    {
        if !is_space_char(s.get_char(a)) {
            break ;
        }
        a += 1;
    }
    let mut b: usize = n;
    while b > a
        invariant
            n == s@.len(),
            a <= b <= n,
            forall|k: int| b <= k < n ==> is_space(s@[k]),
        ensures
            a <= b <= n,
            forall|k: int| b <= k < n ==> is_space(s@[k]),
            b == a || !is_space(s@[b - 1]),
        decreases b,
    {
        if !is_space_char(s.get_char(b - 1)) {
            break ;
        }
        b -= 1;
    }
    let out = s.substring_char(a, b);
    proof {
        lemma_trim_front_skips(s@, a as int);
        let t = s@.skip(a as int);
        assert(forall|k: int| b - a <= k < t.len() ==> is_space(t[k]));
        lemma_trim_back_takes(t, b - a);
        assert(t.take(b - a) =~= s@.subrange(a as int, b as int));
    }
    out.to_owned()
}

/// `s` divided at every occurrence of `sep`: the tokens, in order, with the
/// separators removed. An input without separators is one token; each extra
/// separator adds one (possibly empty) token.
pub open spec fn split_on(s: Seq<char>, sep: char) -> Seq<Seq<char>>
    decreases s.len(),
{
    if s.len() == 0 {
        seq![Seq::<char>::empty()]
    } else if s[0] == sep {
        seq![Seq::<char>::empty()] + split_on(s.drop_first(), sep)
    } else {
        let rest = split_on(s.drop_first(), sep);
        seq![seq![s[0]] + rest[0]] + rest.skip(1)
    }
}

pub proof fn lemma_split_on_len(s: Seq<char>, sep: char)
    ensures
        split_on(s, sep).len() >= 1,
    decreases s.len(),
{
    if s.len() == 0 {
    } else {
        lemma_split_on_len(s.drop_first(), sep);
    }
}

proof fn lemma_split_on_no_sep(s: Seq<char>, sep: char)
    requires
        forall|k: int| 0 <= k < s.len() ==> s[k] != sep,
    ensures
        split_on(s, sep) == seq![s],
    decreases s.len(),
{
    if s.len() == 0 {
        assert(seq![Seq::<char>::empty()] =~~= seq![s]);
    } else {
        assert(forall|k: int| 0 <= k < s.drop_first().len() ==> s.drop_first()[k] != sep);
        lemma_split_on_no_sep(s.drop_first(), sep);
        let rest = split_on(s.drop_first(), sep);
        assert(rest[0] == s.drop_first());
        assert(seq![s[0]] + s.drop_first() =~= s);
        assert(rest.skip(1) =~= Seq::<Seq<char>>::empty());
        assert(seq![seq![s[0]] + rest[0]] + rest.skip(1) =~= seq![s]);
    }
}

proof fn lemma_split_on_append(pre: Seq<char>, sep: char, suf: Seq<char>)
    requires
        forall|k: int| 0 <= k < pre.len() ==> pre[k] != sep,
    ensures
        split_on(pre + seq![sep] + suf, sep) == seq![pre] + split_on(suf, sep),
    decreases pre.len(),
{
    let s = pre + seq![sep] + suf;
    if pre.len() == 0 {
        assert(s[0] == sep);
        assert(s.drop_first() =~= suf);
        assert(seq![Seq::<char>::empty()] + split_on(suf, sep) =~~= seq![pre] + split_on(
            suf,
            sep,
        ));
    } else {
        assert(s[0] == pre[0]);
        assert(s[0] != sep);
        assert(s.drop_first() =~= pre.drop_first() + seq![sep] + suf);
        assert(forall|k: int|
            0 <= k < pre.drop_first().len() ==> pre.drop_first()[k] != sep);
        lemma_split_on_append(pre.drop_first(), sep, suf);
        let rest = split_on(s.drop_first(), sep);
        lemma_split_on_len(suf, sep);
        assert(rest[0] == pre.drop_first());
        assert(rest.skip(1) =~= split_on(suf, sep));
        assert(seq![s[0]] + rest[0] =~= pre);
        assert(seq![seq![s[0]] + rest[0]] + rest.skip(1) =~= seq![pre] + split_on(suf, sep));
    }
}

/// The tokens of `s` around every `sep`, each as a fresh string.
pub fn split_str(s: &str, sep: char) -> (r: Vec<String>)
    ensures
        r.deep_view() == split_on(s@, sep),
        r.len() >= 1,
{
    let n = s.unicode_len();
    let mut r: Vec<String> = Vec::new();
    let mut start: usize = 0;
    let ghost mut done: Seq<Seq<char>> = Seq::empty();
    let mut i: usize = 0;
    proof {
        assert(s@.subrange(0, n as int) =~= s@);
        assert(done + split_on(s@, sep) =~= split_on(s@, sep));
    }
    while i < n
        invariant
            n == s@.len(),
            0 <= start <= i <= n,
            forall|k: int| start <= k < i ==> s@[k] != sep,
            r.deep_view() == done,
            r.len() == done.len(),
            split_on(s@, sep) == done + split_on(s@.subrange(start as int, n as int), sep),
        decreases n - i,
    {
        if s.get_char(i) == sep {
            let tok = s.substring_char(start, i);
            r.push(tok.to_owned());
            proof {
                let prefix = s@.subrange(start as int, i as int);
                let rest = s@.subrange(i as int + 1, n as int);
                assert(s@.subrange(start as int, n as int) =~= prefix + seq![sep] + rest);
                lemma_split_on_append(prefix, sep, rest);
                done = done + seq![prefix];
                assert(r.deep_view() =~= done);
                assert(split_on(s@, sep) =~= done + split_on(rest, sep));
            }
            start = i + 1;
        }
        i += 1;
    }
    let tok = s.substring_char(start, n);
    r.push(tok.to_owned());
    proof {
        let last = s@.subrange(start as int, n as int);
        lemma_split_on_no_sep(last, sep);
        assert(r.deep_view() =~= done + seq![last]);
        assert(done + seq![last] =~= split_on(s@, sep));
    }
    r
}

/// Decimal digits.
pub open spec fn is_digit(c: char) -> bool {
    '0' <= c && c <= '9'
}

pub open spec fn digit_val(c: char) -> int {
    c as int - '0' as int
}

pub open spec fn all_digits(s: Seq<char>) -> bool {
    forall|k: int| 0 <= k < s.len() ==> is_digit(s[k])
}

/// The number a sequence of decimal digits denotes.
pub open spec fn digits_val(s: Seq<char>) -> int
    decreases s.len(),
{
    if s.len() == 0 {
        0
    } else {
        digits_val(s.drop_last()) * 10 + digit_val(s.last())
    }
}

proof fn lemma_digits_val_nonneg(s: Seq<char>)
    requires
        all_digits(s),
    ensures
        digits_val(s) >= 0,
    decreases s.len(),
{
    if s.len() > 0 {
        assert(all_digits(s.drop_last()));
        lemma_digits_val_nonneg(s.drop_last());
    }
}

proof fn lemma_digits_val_prefix_le(s: Seq<char>, j: int)
    requires
        all_digits(s),
        0 <= j <= s.len(),
    ensures
        digits_val(s.take(j)) <= digits_val(s),
    decreases s.len() - j,
{
    if j == s.len() {
        assert(s.take(j) =~= s);
    } else {
        assert(s.take(j + 1).drop_last() =~= s.take(j));
        assert(s.take(j + 1).last() == s[j]);
        assert(all_digits(s.take(j)));
        lemma_digits_val_nonneg(s.take(j));
        assert(digits_val(s.take(j + 1)) == digits_val(s.take(j)) * 10 + digit_val(s[j]));
        assert(digits_val(s.take(j)) * 10 >= digits_val(s.take(j)));
        lemma_digits_val_prefix_le(s, j + 1);
    }
}

fn digit_of(c: char) -> (r: Option<u32>)
    ensures
        r is Some <==> is_digit(c),
        r is Some ==> r->0 == digit_val(c) && r->0 <= 9,
{
    let v = c as u32;
    if 48 <= v && v <= 57 {
        Some(v - 48)
    } else {
        None
    }
}

/// Reads a clock field: all-digit, non-empty input. Values above 59 are
/// reported as 60, which no clock field accepts, so the exact value is
/// returned whenever it could be a valid hour or minute.
pub fn parse_clock_field(s: &str) -> (r: Option<u32>)
    ensures
        r is Some <==> s@.len() > 0 && all_digits(s@),
        r is Some ==> (if digits_val(s@) <= 59 {
            r->0 == digits_val(s@)
        } else {
            r->0 == 60
        }),
{
    let n = s.unicode_len();
    if n == 0 {
        return None;
    }
    let mut v: u32 = 0;
    let mut k: usize = 0;
    while k < n
        invariant
            n == s@.len(),
            0 <= k <= n,
            all_digits(s@.take(k as int)),
            v <= 60,
            digits_val(s@.take(k as int)) <= 59 ==> v == digits_val(s@.take(k as int)),
            digits_val(s@.take(k as int)) > 59 ==> v == 60,
        decreases n - k,
    {
        let c = s.get_char(k);
        match digit_of(c) {
            Some(d) => {
                proof {
                    assert(s@.take(k + 1).drop_last() =~= s@.take(k as int));
                    assert(s@.take(k + 1).last() == s@[k as int]);
                }
                if v <= 59 {
                    let t = v * 10 + d;
                    v = if t <= 59 {
                        t
                    } else {
                        60
                    };
                } else {
                    v = 60;
                }
            },
            None => {
                return None;
            },
        }
        k += 1;
    }
    proof {
        assert(s@.take(n as int) =~= s@);
    }
    Some(v)
}

/// Reads a non-negative decimal integer, rejecting anything that is not all
/// digits or does not fit.
pub fn parse_u32(s: &str) -> (r: Option<u32>)
    ensures
        r is Some <==> s@.len() > 0 && all_digits(s@) && digits_val(s@) <= u32::MAX,
        r is Some ==> r->0 == digits_val(s@),
{
    let n = s.unicode_len();
    if n == 0 {
        return None;
    }
    let mut v: u32 = 0;
    let mut k: usize = 0;
    while k < n
        invariant
            n == s@.len(),
            0 <= k <= n,
            all_digits(s@.take(k as int)),
            v == digits_val(s@.take(k as int)),
        decreases n - k,
    {
        let c = s.get_char(k);
        match digit_of(c) {
            Some(d) => {
                proof {
                    assert(s@.take(k + 1).drop_last() =~= s@.take(k as int));
                    assert(s@.take(k + 1).last() == s@[k as int]);
                }
                let t = (v as u64) * 10 + (d as u64);
                if t > u32::MAX as u64 {
                    proof {
                        if all_digits(s@) {
                            lemma_digits_val_prefix_le(s@, k + 1);
                        }
                    }
                    return None;
                }
                v = t as u32;
            },
            None => {
                return None;
            },
        }
        k += 1;
    }
    proof {
        assert(s@.take(n as int) =~= s@);
    }
    Some(v)
}

/// Two strings with the same characters.
pub fn str_eq(a: &str, b: &str) -> (r: bool)
    ensures
        r == (a@ == b@),
{
    let x = a.to_owned();
    let y = b.to_owned();
    x == y
}

} // verus!
