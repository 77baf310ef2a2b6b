//! Character-level string helpers with their mathematical models.

use vstd::prelude::*;
use vstd::string::{StrSliceExecFns, StringExecFns};

verus! {

/// The characters of `s`, in order.
pub fn chars_of(s: &str) -> (v: Vec<char>)
    ensures
        v@ == s@,
{
    let mut v: Vec<char> = Vec::new();
    for c in it: s.chars()
        invariant
            v@ == it.seq().take(it.index()),
    {
        v.push(c);
    }
    v
}

/// The concatenation of `a` and `b`.
pub fn join_strs(a: &str, b: &str) -> (s: String)
    ensures
        s@ == a@ + b@,
{
    let mut s = a.to_owned();
    s.append(b);
    s
}

/// `a` and `b` joined by a `/`, as paths and URLs are built.
pub open spec fn slash_join(a: Seq<char>, b: Seq<char>) -> Seq<char> {
    a + seq!['/'] + b
}

/// A joined path holds its two parts, in order, around one `/`.
pub proof fn lemma_slash_join_parts(a: Seq<char>, b: Seq<char>)
    ensures
        slash_join(a, b).len() == a.len() + b.len() + 1,
        slash_join(a, b).subrange(0, a.len() as int) == a,
        slash_join(a, b)[a.len() as int] == '/',
        slash_join(a, b).skip(a.len() as int + 1) == b,
{
    assert(slash_join(a, b).subrange(0, a.len() as int) =~= a);
    assert(slash_join(a, b).skip(a.len() as int + 1) =~= b);
}

/// Joins `a` and `b` with a `/` between them.
pub fn join_with_slash(a: &str, b: &str) -> (s: String)
    ensures
        s@ == slash_join(a@, b@),
{
    let mut s = a.to_owned();
    proof {
        reveal_strlit("/");
    }
    s.append("/");
    s.append(b);
    assert(s@ =~= slash_join(a@, b@));
    s
}

/// `pattern` occurs in `s` starting at position `i`.
pub open spec fn occurs_at(s: Seq<char>, pattern: Seq<char>, i: int) -> bool {
    0 <= i && i + pattern.len() <= s.len() && s.subrange(i, i + pattern.len()) == pattern
}

/// `s` ends with `suffix`.
pub open spec fn ends_with(s: Seq<char>, suffix: Seq<char>) -> bool {
    suffix.len() <= s.len() && occurs_at(s, suffix, s.len() - suffix.len())
}

/// Whether `pattern` occurs in `s` at position `i`.
fn matches_at(s: &Vec<char>, i: usize, pattern: &Vec<char>) -> (res: bool)
    requires
        i <= s.len(),
    ensures
        res == occurs_at(s@, pattern@, i as int),
{
    if pattern.len() > s.len() - i {
        return false;
    }
    let mut k: usize = 0;
    while k < pattern.len()
        invariant
            k <= pattern.len(),
            i + pattern.len() <= s.len(),
            forall|j: int| 0 <= j < k ==> s@[i + j] == pattern@[j],
        decreases pattern.len() - k,
    {
        if s[i + k] != pattern[k] {
            assert(s@.subrange(i as int, i + pattern.len())[k as int] != pattern@[k as int]);
            return false;
        }
        k = k + 1;
    }
    assert(s@.subrange(i as int, i + pattern.len()) =~= pattern@);
    true
}

/// Whether `s` ends with `suffix`.
pub fn str_ends_with(s: &str, suffix: &str) -> (res: bool)
    ensures
        res == ends_with(s@, suffix@),
{
    let sv = chars_of(s);
    let pv = chars_of(suffix);
    if pv.len() > sv.len() {
        return false;
    }
    matches_at(&sv, sv.len() - pv.len(), &pv)
}

/// `s` without one trailing `/`, if it ends with one.
pub open spec fn trim_trailing_slash_spec(s: Seq<char>) -> Seq<char> {
    if s.len() > 0 && s.last() == '/' {
        s.drop_last()
    } else {
        s
    }
}

/// Exactly one trailing `/` is removed, when there is one: the URL is the
/// result followed by that `/`; any other URL is kept as it is.
pub proof fn lemma_trim_trailing_slash(s: Seq<char>)
    ensures
        s.len() > 0 && s[s.len() - 1] == '/' ==> trim_trailing_slash_spec(s) + seq!['/'] == s,
        !(s.len() > 0 && s[s.len() - 1] == '/') ==> trim_trailing_slash_spec(s) == s,
{
    if s.len() > 0 && s[s.len() - 1] == '/' {
        assert(s.drop_last() + seq!['/'] =~= s);
    }
}

/// Removes one trailing `/` from a URL, as the GitLab URL is normalised
/// before paths are appended to it.
pub fn trim_trailing_slash(url: &str) -> (res: String)
    ensures
        res@ == trim_trailing_slash_spec(url@),
{
    let len = url.unicode_len();
    if len > 0 && url.get_char(len - 1) == '/' {
        let trimmed = url.substring_char(0, len - 1).to_owned();
        assert(trimmed@ =~= url@.drop_last());
        trimmed
    } else {
        url.to_owned()
    }
}

/// `s` with every occurrence of `from` replaced by `to`, scanning from the
/// left and never letting two replaced occurrences overlap (the semantics of
/// `str::replace` for a non-empty pattern).
pub open spec fn replace_spec(s: Seq<char>, from: Seq<char>, to: Seq<char>) -> Seq<char>
    decreases s.len(),
{
    if s.len() == 0 {
        s
    } else if from.len() > 0 && occurs_at(s, from, 0) {
        to + replace_spec(s.skip(from.len() as int), from, to)
    } else {
        seq![s[0]] + replace_spec(s.skip(1), from, to)
    }
}

/// Replaces every occurrence of `from` in `s` by `to`, left to right and
/// without overlap.
pub fn replace_all(s: &str, from: &str, to: &str) -> (res: String)
    requires
        from@.len() > 0,
    ensures
        res@ == replace_spec(s@, from@, to@),
{
    let sv = chars_of(s);
    let fv = chars_of(from);
    let mut out = String::new();
    // `s[start..i]` is copied to `out` when a match or the end is reached.
    let mut start: usize = 0;
    let mut i: usize = 0;
    assert(sv@.skip(0) =~= sv@);
    while i < sv.len()
        invariant
            start <= i <= sv.len(),
            sv@ == s@,
            fv@ == from@,
            fv@.len() > 0,
            out@ + s@.subrange(start as int, i as int) + replace_spec(s@.skip(i as int), from@, to@)
                == replace_spec(s@, from@, to@),
        decreases sv.len() - i,
    {
        let ghost rest = s@.skip(i as int);
        let ghost out0 = out@;
        let ghost pending = s@.subrange(start as int, i as int);
        if matches_at(&sv, i, &fv) {
            assert(rest.subrange(0, from@.len() as int) =~= s@.subrange(i as int, i + from@.len()));
            assert(rest.skip(from@.len() as int) =~= s@.skip(i + from@.len()));
            out.append(s.substring_char(start, i));
            out.append(to);
            i = i + fv.len();
            start = i;
            assert(s@.subrange(start as int, i as int) =~= Seq::<char>::empty());
            assert(out@ + s@.subrange(start as int, i as int) + replace_spec(s@.skip(i as int), from@, to@)
                =~= out0 + pending + replace_spec(rest, from@, to@));
        } else {
            assert(!occurs_at(rest, from@, 0)) by {
                if occurs_at(rest, from@, 0) {
                    assert(rest.subrange(0, from@.len() as int) =~= s@.subrange(i as int, i + from@.len()));
                }
            }
            assert(rest.skip(1) =~= s@.skip(i + 1));
            i = i + 1;
            assert(s@.subrange(start as int, i as int) =~= pending + seq![rest[0]]);
            assert(out@ + s@.subrange(start as int, i as int) + replace_spec(s@.skip(i as int), from@, to@)
                =~= out0 + pending + replace_spec(rest, from@, to@));
        }
    }
    out.append(s.substring_char(start, i));
    assert(s@.skip(i as int) =~= Seq::<char>::empty());
    assert(out@ =~= out@ + replace_spec(s@.skip(i as int), from@, to@));
    out
}

/// Replacing works piece by piece: when no occurrence of `from` in `s1 + s2`
/// straddles the border between `s1` and `s2`, replacing in the whole is
/// replacing in each piece. So every occurrence is replaced, not only the
/// first: two sources on two lines are both rewritten.
pub proof fn lemma_replace_concat(s1: Seq<char>, s2: Seq<char>, from: Seq<char>, to: Seq<char>)
    requires
        from.len() > 0,
        forall|i: int| 0 <= i < s1.len() && i + from.len() > s1.len() ==> !occurs_at(s1 + s2, from, i),
    ensures
        replace_spec(s1 + s2, from, to) == replace_spec(s1, from, to) + replace_spec(s2, from, to),
    decreases s1.len(),
{
    let s = s1 + s2;
    if s1.len() == 0 {
        assert(s =~= s2);
    } else if occurs_at(s, from, 0) {
        assert(from.len() <= s1.len());
        assert(s1.subrange(0, from.len() as int) =~= s.subrange(0, from.len() as int));
        assert(occurs_at(s1, from, 0));
        let r1 = s1.skip(from.len() as int);
        assert(s.skip(from.len() as int) =~= r1 + s2);
        assert forall|i: int| 0 <= i < r1.len() && i + from.len() > r1.len() implies !occurs_at(r1 + s2, from, i) by {
            let j = i + from.len();
            assert(!occurs_at(s, from, j));
            if occurs_at(r1 + s2, from, i) {
                assert((r1 + s2).subrange(i, i + from.len()) =~= s.subrange(j, j + from.len()));
            }
        }
        lemma_replace_concat(r1, s2, from, to);
        assert(replace_spec(s, from, to) == to + replace_spec(r1 + s2, from, to));
        assert(replace_spec(s1, from, to) == to + replace_spec(r1, from, to));
    } else {
        assert(!occurs_at(s1, from, 0)) by {
            if occurs_at(s1, from, 0) {
                assert(s1.subrange(0, from.len() as int) =~= s.subrange(0, from.len() as int));
            }
        }
        let r1 = s1.skip(1);
        assert(s.skip(1) =~= r1 + s2);
        assert(s[0] == s1[0]);
        assert forall|i: int| 0 <= i < r1.len() && i + from.len() > r1.len() implies !occurs_at(r1 + s2, from, i) by {
            let j = i + 1;
            assert(!occurs_at(s, from, j));
            if occurs_at(r1 + s2, from, i) {
                assert((r1 + s2).subrange(i, i + from.len()) =~= s.subrange(j, j + from.len()));
            }
        }
        lemma_replace_concat(r1, s2, from, to);
        assert(replace_spec(s, from, to) == seq![s[0]] + replace_spec(r1 + s2, from, to));
        assert(replace_spec(s1, from, to) == seq![s1[0]] + replace_spec(r1, from, to));
        assert(seq![s[0]] + (replace_spec(r1, from, to) + replace_spec(s2, from, to)) =~= (seq![s1[0]]
            + replace_spec(r1, from, to)) + replace_spec(s2, from, to));
    }
}

/// An occurrence of `from` at the start is replaced by `to`, and replacing
/// goes on after it; a string that does not start with `from` keeps its first
/// character and replacing goes on after it; nothing comes of nothing.
pub proof fn lemma_replace_steps(s: Seq<char>, from: Seq<char>, to: Seq<char>)
    requires
        from.len() > 0,
    ensures
        replace_spec(Seq::<char>::empty(), from, to) == Seq::<char>::empty(),
        replace_spec(from + s, from, to) == to + replace_spec(s, from, to),
        s.len() > 0 && !occurs_at(s, from, 0) ==> replace_spec(s, from, to) == seq![s[0]] + replace_spec(
            s.skip(1),
            from,
            to,
        ),
{
    let fs = from + s;
    assert(fs.subrange(0, from.len() as int) =~= from);
    assert(fs.skip(from.len() as int) =~= s);
}

/// A string in which `from` does not occur is left unchanged by replacing
/// `from`.
pub proof fn lemma_replace_absent(s: Seq<char>, from: Seq<char>, to: Seq<char>)
    requires
        from.len() > 0,
        forall|i: int| !occurs_at(s, from, i),
    ensures
        replace_spec(s, from, to) == s,
    decreases s.len(),
{
    if s.len() > 0 {
        let rest = s.skip(1);
        assert forall|i: int| !occurs_at(rest, from, i) by {
            if occurs_at(rest, from, i) {
                assert(s.subrange(i + 1, i + 1 + from.len()) =~= rest.subrange(i, i + from.len()));
                assert(occurs_at(s, from, i + 1));
            }
        }
        assert(!occurs_at(s, from, 0));
        lemma_replace_absent(rest, from, to);
        assert(seq![s[0]] + rest =~= s);
    }
}

/// Replacing a pattern by itself leaves every string unchanged.
pub proof fn lemma_replace_by_itself(s: Seq<char>, pattern: Seq<char>)
    ensures
        replace_spec(s, pattern, pattern) == s,
    decreases s.len(),
{
    if s.len() > 0 {
        if pattern.len() > 0 && occurs_at(s, pattern, 0) {
            lemma_replace_by_itself(s.skip(pattern.len() as int), pattern);
            assert(s.subrange(0, pattern.len() as int) + s.skip(pattern.len() as int) =~= s);
        } else {
            lemma_replace_by_itself(s.skip(1), pattern);
            assert(seq![s[0]] + s.skip(1) =~= s);
        }
    }
}

/// The decimal digit character for `d` (for `d < 10`).
pub open spec fn digit_char(d: nat) -> char {
    if d == 0 {
        '0'
    } else if d == 1 {
        '1'
    } else if d == 2 {
        '2'
    } else if d == 3 {
        '3'
    } else if d == 4 {
        '4'
    } else if d == 5 {
        '5'
    } else if d == 6 {
        '6'
    } else if d == 7 {
        '7'
    } else if d == 8 {
        '8'
    } else {
        '9'
    }
}

/// The value of a decimal digit character (the inverse of `digit_char`).
pub open spec fn digit_value(c: char) -> nat {
    if c == '1' {
        1
    } else if c == '2' {
        2
    } else if c == '3' {
        3
    } else if c == '4' {
        4
    } else if c == '5' {
        5
    } else if c == '6' {
        6
    } else if c == '7' {
        7
    } else if c == '8' {
        8
    } else if c == '9' {
        9
    } else {
        0
    }
}

/// The decimal representation of `n`, as `format!("{}", n)` writes it.
pub open spec fn decimal_spec(n: nat) -> Seq<char>
    decreases n,
{
    if n < 10 {
        seq![digit_char(n)]
    } else {
        decimal_spec(n / 10).push(digit_char(n % 10))
    }
}

/// The decimal representation of a signed integer: a `-` before the
/// digits of its magnitude when it is negative.
pub open spec fn signed_decimal_spec(n: int) -> Seq<char> {
    if n < 0 {
        seq!['-'] + decimal_spec((-n) as nat)
    } else {
        decimal_spec(n as nat)
    }
}

/// The number that a sequence of decimal digits denotes.
pub open spec fn decimal_value(s: Seq<char>) -> nat
    decreases s.len(),
{
    if s.len() == 0 {
        0
    } else {
        decimal_value(s.drop_last()) * 10 + digit_value(s.last())
    }
}

fn digit_str(d: u64) -> (s: &'static str)
    requires
        d < 10,
    ensures
        s@ == seq![digit_char(d as nat)],
{
    proof {
        reveal_strlit("0");
        reveal_strlit("1");
        reveal_strlit("2");
        reveal_strlit("3");
        reveal_strlit("4");
        reveal_strlit("5");
        reveal_strlit("6");
        reveal_strlit("7");
        reveal_strlit("8");
        reveal_strlit("9");
    }
    let s = if d == 0 {
        "0"
    } else if d == 1 {
        "1"
    } else if d == 2 {
        "2"
    } else if d == 3 {
        "3"
    } else if d == 4 {
        "4"
    } else if d == 5 {
        "5"
    } else if d == 6 {
        "6"
    } else if d == 7 {
        "7"
    } else if d == 8 {
        "8"
    } else {
        "9"
    };
    assert(s@ =~= seq![digit_char(d as nat)]);
    s
}

/// Appends the decimal representation of `n` to `s`.
fn append_decimal(s: &mut String, n: u64)
    ensures
        final(s)@ == old(s)@ + decimal_spec(n as nat),
    decreases n,
{
    if n < 10 {
        s.append(digit_str(n));
    } else {
        append_decimal(s, n / 10);
        s.append(digit_str(n % 10));
        assert(final(s)@ =~= old(s)@ + decimal_spec(n as nat)) by {
            assert(decimal_spec(n as nat) == decimal_spec((n / 10) as nat).push(digit_char((n % 10) as nat)));
        }
    }
}

/// The decimal representation of an unsigned integer.
pub fn u64_to_decimal(n: u64) -> (s: String)
    ensures
        s@ == decimal_spec(n as nat),
{
    let mut s = String::new();
    append_decimal(&mut s, n);
    assert(s@ =~= decimal_spec(n as nat));
    s
}

/// The decimal representation of a signed integer.
pub fn i64_to_decimal(n: i64) -> (s: String)
    ensures
        s@ == signed_decimal_spec(n as int),
{
    if n < 0 {
        let magnitude: u64 = (0i128 - n as i128) as u64;
        let mut s = String::new();
        proof {
            reveal_strlit("-");
        }
        s.append("-");
        append_decimal(&mut s, magnitude);
        assert(s@ =~= seq!['-'] + decimal_spec((-n) as nat));
        s
    } else {
        u64_to_decimal(n as u64)
    }
}

/// Every decimal representation denotes the number it was made from.
pub proof fn lemma_decimal_value(n: nat)
    ensures
        decimal_value(decimal_spec(n)) == n,
    decreases n,
{
    if n < 10 {
        assert(decimal_spec(n).drop_last() =~= Seq::<char>::empty());
        assert(digit_value(digit_char(n)) == n);
        assert(decimal_value(Seq::<char>::empty()) == 0);
        assert(decimal_spec(n).last() == digit_char(n));
    } else {
        lemma_decimal_value(n / 10);
        assert(decimal_spec(n).drop_last() =~= decimal_spec(n / 10));
        assert(digit_value(digit_char(n % 10)) == n % 10);
        assert(n == (n / 10) * 10 + n % 10);
        assert(decimal_spec(n).last() == digit_char(n % 10));
        assert(decimal_spec(n).len() > 0);
    }
}

/// Distinct numbers have distinct decimal representations, so names built
/// from distinct timestamps or ids are distinct.
pub proof fn lemma_decimal_injective(a: nat, b: nat)
    requires
        decimal_spec(a) == decimal_spec(b),
    ensures
        a == b,
{
    lemma_decimal_value(a);
    lemma_decimal_value(b);
}

/// A decimal representation is made of decimal digits, at least one, and
/// has no leading zero: only `0` itself starts with `0`.
pub proof fn lemma_decimal_digits(n: nat)
    ensures
        decimal_spec(n).len() > 0,
        forall|i: int| 0 <= i < decimal_spec(n).len() ==> '0' <= #[trigger] decimal_spec(n)[i] <= '9',
        decimal_spec(n)[0] == '0' ==> n == 0 && decimal_spec(n).len() == 1,
    decreases n,
{
    if n >= 10 {
        lemma_decimal_digits(n / 10);
        assert(decimal_spec(n)[0] == decimal_spec(n / 10)[0]);
        let d = decimal_spec(n / 10);
        assert forall|i: int| 0 <= i < decimal_spec(n).len() implies '0' <= #[trigger] decimal_spec(n)[i] <= '9' by {
            if i < d.len() {
                assert(decimal_spec(n)[i] == d[i]);
            }
        }
    }
}

/// A decimal representation starts with a digit.
proof fn lemma_decimal_starts_with_digit(n: nat)
    ensures
        decimal_spec(n).len() > 0,
        decimal_spec(n)[0] != '-',
    decreases n,
{
    if n >= 10 {
        lemma_decimal_starts_with_digit(n / 10);
    }
}

/// A signed representation starts with `-` exactly for negative numbers.
pub proof fn lemma_signed_decimal_sign(n: int)
    ensures
        signed_decimal_spec(n).len() > 0,
        signed_decimal_spec(n)[0] == '-' <==> n < 0,
{
    if n < 0 {
        lemma_decimal_starts_with_digit((-n) as nat);
    } else {
        lemma_decimal_starts_with_digit(n as nat);
    }
}

/// Distinct signed numbers have distinct representations, so the working
/// directories named after distinct timestamps are distinct.
pub proof fn lemma_signed_decimal_injective(a: int, b: int)
    requires
        signed_decimal_spec(a) == signed_decimal_spec(b),
    ensures
        a == b,
{
    if a < 0 {
        lemma_decimal_starts_with_digit((-a) as nat);
    } else {
        lemma_decimal_starts_with_digit(a as nat);
    }
    if b < 0 {
        lemma_decimal_starts_with_digit((-b) as nat);
    } else {
        lemma_decimal_starts_with_digit(b as nat);
    }
    if a < 0 && b < 0 {
        assert(decimal_spec((-a) as nat) =~= signed_decimal_spec(a).skip(1));
        assert(decimal_spec((-b) as nat) =~= signed_decimal_spec(b).skip(1));
        lemma_decimal_injective((-a) as nat, (-b) as nat);
    } else if a >= 0 && b >= 0 {
        lemma_decimal_injective(a as nat, b as nat);
    } else if a < 0 {
        assert(signed_decimal_spec(a)[0] == '-');
    } else {
        assert(signed_decimal_spec(b)[0] == '-');
    }
}

/// Names made of one prefix and the representations of distinct numbers are
/// distinct: working directories (`mig-<millis>`, `rep-<millis>`) of runs
/// started at distinct milliseconds never collide.
pub proof fn lemma_prefixed_names_distinct(prefix: Seq<char>, a: int, b: int)
    requires
        a != b,
    ensures
        prefix + signed_decimal_spec(a) != prefix + signed_decimal_spec(b),
{
    if prefix + signed_decimal_spec(a) == prefix + signed_decimal_spec(b) {
        assert((prefix + signed_decimal_spec(a)).skip(prefix.len() as int) =~= signed_decimal_spec(a));
        assert((prefix + signed_decimal_spec(b)).skip(prefix.len() as int) =~= signed_decimal_spec(b));
        lemma_signed_decimal_injective(a, b);
    }
}

} // verus!
