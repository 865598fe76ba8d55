//! Verified text utilities: substring search, prefix tests, whitespace
//! trimming, line splitting and decimal rendering, all specified over
//! `Seq<char>`. The trusted items here are the two Unicode case-mapping
//! wrappers, whose results are named by uninterpreted spec functions.

use vstd::assert_by_contradiction;
use vstd::prelude::*;
use vstd::string::StrSliceExecFns;
use vstd::string::StringExecFns;

verus! {

/// The sequence of characters that `str::to_lowercase` returns for `s`.
pub uninterp spec fn lower_of(s: Seq<char>) -> Seq<char>;

/// The sequence of characters that `str::to_uppercase` returns for `s`.
pub uninterp spec fn upper_of(s: Seq<char>) -> Seq<char>;

/// Relies on str::to_lowercase: the result depends on the characters alone,
/// and an empty string stays empty.
#[verifier::external_body]
pub(crate) fn lowercase(s: &str) -> (r: String)
    ensures
        r@ == lower_of(s@),
        s@.len() == 0 ==> r@.len() == 0,
{
    s.to_lowercase()
}

/// Relies on str::to_uppercase: the result depends on the characters alone,
/// and an empty string stays empty.
#[verifier::external_body]
pub(crate) fn uppercase(s: &str) -> (r: String)
    ensures
        r@ == upper_of(s@),
        s@.len() == 0 ==> r@.len() == 0,
{
    s.to_uppercase()
}

/// The characters of `s`, as a vector.
pub fn chars_of(s: &str) -> (r: Vec<char>)
    ensures
        r@ == s@,
{
    let n = s.unicode_len();
    let mut r: Vec<char> = Vec::with_capacity(n);
    let mut i: usize = 0;
    while i < n
        invariant
            i <= n,
            n == s@.len(),
            r@ == s@.subrange(0, i as int),
        decreases n - i,
    {
        r.push(s.get_char(i));
        i = i + 1;
        proof {
            assert(r@ =~= s@.subrange(0, i as int));
        }
    }
    proof {
        assert(r@ =~= s@);
    }
    r
}

/// The needle `n` occurs in `h` starting at position `i`.
pub open spec fn is_match_at(h: Seq<char>, n: Seq<char>, i: int) -> bool {
    0 <= i && i + n.len() <= h.len() && h.subrange(i, i + n.len()) == n
}

/// The needle `n` occurs somewhere in `h`.
pub open spec fn contains_sub(h: Seq<char>, n: Seq<char>) -> bool {
    exists|i: int| is_match_at(h, n, i)
}

/// `p` is a prefix of `s`.
pub open spec fn has_prefix(s: Seq<char>, p: Seq<char>) -> bool {
    is_match_at(s, p, 0)
}

/// Whether `n` occurs in `h` starting exactly at `i`.
fn match_at(h: &Vec<char>, n: &Vec<char>, i: usize) -> (r: bool)
    requires
        i + n@.len() <= h@.len(),
    ensures
        r == is_match_at(h@, n@, i as int),
{
    let hl = h.len();
    let mut j: usize = 0;
    while j < n.len()
        invariant
            j <= n@.len(),
            i + n@.len() <= h@.len(),
            h@.len() == hl,
            forall|k: int| 0 <= k < j ==> h@[i + k] == n@[k],
        decreases n@.len() - j,
    {
        if h[i + j] != n[j] {
            proof {
                assert(h@.subrange(i as int, i + n@.len())[j as int] == h@[i + j]);
            }
            return false;
        }
        j = j + 1;
    }
    proof {
        assert(h@.subrange(i as int, i + n@.len()) =~= n@);
    }
    true
}

/// Whether the needle `n` occurs anywhere in the haystack `h`.
pub fn contains_chars(h: &Vec<char>, n: &Vec<char>) -> (r: bool)
    ensures
        r == contains_sub(h@, n@),
{
    if n.len() == 0 {
        proof {
            assert(h@.subrange(0, 0) =~= n@);
            assert(is_match_at(h@, n@, 0));
        }
        return true;
    }
    if n.len() > h.len() {
        proof {
            assert forall|i: int| !is_match_at(h@, n@, i) by {}
        }
        return false;
    }
    let bound = h.len() - n.len();
    let mut i: usize = 0;
    while i <= bound
        invariant
            bound == h@.len() - n@.len(),
            n@.len() >= 1,
            h@.len() <= usize::MAX,
            i <= bound + 1,
            forall|k: int| 0 <= k < i ==> !is_match_at(h@, n@, k),
        decreases bound + 1 - i,
    {
        if match_at(h, n, i) {
            return true;
        }
        i = i + 1;
    }
    proof {
        assert_by_contradiction!(!contains_sub(h@, n@), {
            let k = choose|k: int| is_match_at(h@, n@, k);
            assert(k <= bound);
        });
    }
    false
}

/// Whether the needle `n` occurs anywhere in the haystack `h`.
pub fn contains_str(h: &str, n: &str) -> (r: bool)
    ensures
        r == contains_sub(h@, n@),
{
    let hv = chars_of(h);
    let nv = chars_of(n);
    contains_chars(&hv, &nv)
}

/// `c` has the Unicode `White_Space` property, the set of characters that
/// `char::is_whitespace` accepts.
pub open spec fn is_space(c: char) -> bool {
    let u = c as u32;
    (9 <= u && u <= 13) || u == 32 || u == 0x85 || u == 0xA0 || u == 0x1680 || (0x2000 <= u && u
        <= 0x200A) || u == 0x2028 || u == 0x2029 || u == 0x202F || u == 0x205F || u == 0x3000
}

/// Whether `c` is a whitespace character.
pub fn is_space_char(c: char) -> (r: bool)
    ensures
        r == is_space(c),
{
    let u = c as u32;
    (9 <= u && u <= 13) || u == 32 || u == 0x85 || u == 0xA0 || u == 0x1680 || (0x2000 <= u && u
        <= 0x200A) || u == 0x2028 || u == 0x2029 || u == 0x202F || u == 0x205F || u == 0x3000
}

/// `s` with leading and trailing whitespace removed.
pub open spec fn trimmed(s: Seq<char>) -> Seq<char>
    decreases s.len(),
{
    if s.len() == 0 {
        s
    } else if is_space(s[0]) {
        trimmed(s.drop_first())
    } else if is_space(s[s.len() - 1]) {
        trimmed(s.drop_last())
    } else {
        s
    }
}

/// Bounds of the whitespace-trimmed middle of `v[start..end]`.
pub fn trim_bounds(v: &Vec<char>, start: usize, end: usize) -> (r: (usize, usize))
    requires
        start <= end <= v@.len(),
    ensures
        start <= r.0 <= r.1 <= end,
        trimmed(v@.subrange(start as int, end as int)) == v@.subrange(r.0 as int, r.1 as int),
{
    let mut a = start;
    let mut b = end;
    while a < b && is_space_char(v[a])
        invariant
            start <= a <= b <= end <= v@.len(),
            trimmed(v@.subrange(start as int, end as int)) == trimmed(
                v@.subrange(a as int, b as int),
            ),
        decreases b - a,
    {
        proof {
            assert(v@.subrange(a as int, b as int).drop_first() =~= v@.subrange(a + 1, b as int));
        }
        a = a + 1;
    }
    while b > a && is_space_char(v[b - 1])
        invariant
            start <= a <= b <= end <= v@.len(),
            a < b ==> !is_space(v@[a as int]),
            trimmed(v@.subrange(start as int, end as int)) == trimmed(
                v@.subrange(a as int, b as int),
            ),
        decreases b - a,
    {
        proof {
            assert(v@.subrange(a as int, b as int).drop_last() =~= v@.subrange(a as int, b - 1));
        }
        b = b - 1;
    }
    proof {
        if a < b {
            let s = v@.subrange(a as int, b as int);
            assert(s[0] == v@[a as int]);
            assert(s[s.len() - 1] == v@[b - 1]);
        }
    }
    (a, b)
}

/// The position of the first newline in `s`, or `s.len()` if there is none.
pub open spec fn first_nl(s: Seq<char>) -> nat
    decreases s.len(),
{
    if s.len() == 0 {
        0
    } else if s[0] == '\n' {
        0
    } else {
        1 + first_nl(s.drop_first())
    }
}

/// If everything before `m` is newline-free and `m` is the length of `s`
/// or points at a newline, then `m` is the first newline position.
pub proof fn lemma_first_nl_at(s: Seq<char>, m: nat)
    requires
        m <= s.len(),
        forall|j: int| 0 <= j < m ==> s[j] != '\n',
        m < s.len() ==> s[m as int] == '\n',
    ensures
        first_nl(s) == m,
    decreases s.len(),
{
    if s.len() > 0 && s[0] != '\n' {
        assert forall|j: int| 0 <= j < m - 1 implies s.drop_first()[j] != '\n' by {
            assert(s.drop_first()[j] == s[j + 1]);
        }
        lemma_first_nl_at(s.drop_first(), (m - 1) as nat);
    }
}

/// A line fragment with one trailing carriage return removed.
pub open spec fn strip_cr(l: Seq<char>) -> Seq<char> {
    if l.len() > 0 && l[l.len() - 1] == '\r' {
        l.drop_last()
    } else {
        l
    }
}

/// The lines of `s`: fragments split at `'\n'`, each fragment that was
/// followed by a newline losing one trailing `'\r'`, and no empty final
/// line after a trailing newline. This matches what `str::lines` yields.
pub open spec fn split_lines(s: Seq<char>) -> Seq<Seq<char>>
    decreases s.len(),
{
    if s.len() == 0 {
        Seq::empty()
    } else {
        let i = first_nl(s);
        if i >= s.len() {
            seq![s]
        } else {
            seq![strip_cr(s.subrange(0, i as int))] + split_lines(
                s.subrange(i as int + 1, s.len() as int),
            )
        }
    }
}

/// `s` has more than one line: some newline is followed by at least one
/// further character.
pub open spec fn multi_line(s: Seq<char>) -> bool {
    exists|i: int| 0 <= i < s.len() - 1 && s[i] == '\n'
}

/// Whether `v` holds more than one line.
pub fn is_multi_line(v: &Vec<char>) -> (r: bool)
    ensures
        r == multi_line(v@),
{
    if v.len() < 2 {
        return false;
    }
    let mut i: usize = 0;
    while i < v.len() - 1
        invariant
            v@.len() >= 2,
            i <= v@.len() - 1,
            forall|k: int| 0 <= k < i ==> v@[k] != '\n',
        decreases v@.len() - i,
    {
        if v[i] == '\n' {
            return true;
        }
        i = i + 1;
    }
    false
}

/// The character for a single decimal digit.
pub open spec fn digit_char(d: nat) -> char {
    if d == 0 {
        '0'
    } else if d == 1 {
        '1'
    } else if d == 2 {
        '2'
    } else if d == 3 {
        '3'
    } else if d == 4 {
        '4'
    } else if d == 5 {
        '5'
    } else if d == 6 {
        '6'
    } else if d == 7 {
        '7'
    } else if d == 8 {
        '8'
    } else {
        '9'
    }
}

/// The decimal rendering of `n`, without leading zeroes.
pub open spec fn dec_digits(n: nat) -> Seq<char>
    decreases n,
{
    if n < 10 {
        seq![digit_char(n)]
    } else {
        dec_digits(n / 10).push(digit_char(n % 10))
    }
}

/// A decimal rendering is never empty.
pub proof fn lemma_dec_digits_len(n: nat)
    ensures
        dec_digits(n).len() >= 1,
    decreases n,
{
    if n >= 10 {
        lemma_dec_digits_len(n / 10);
    }
}

/// Decimal renderings are injective: equal renderings mean equal numbers.
pub proof fn lemma_dec_digits_injective(a: nat, b: nat)
    requires
        dec_digits(a) == dec_digits(b),
    ensures
        a == b,
    decreases a + b,
{
    lemma_dec_digits_len(a);
    lemma_dec_digits_len(b);
    if a < 10 && b < 10 {
        assert(dec_digits(a)[0] == digit_char(a));
        assert(dec_digits(b)[0] == digit_char(b));
    } else if a < 10 {
        lemma_dec_digits_len(b / 10);
        assert(dec_digits(a).len() == 1);
    } else if b < 10 {
        lemma_dec_digits_len(a / 10);
        assert(dec_digits(b).len() == 1);
    } else {
        let la = dec_digits(a);
        let lb = dec_digits(b);
        assert(la.last() == digit_char(a % 10));
        assert(lb.last() == digit_char(b % 10));
        assert(a % 10 == b % 10);
        assert(la.drop_last() =~= dec_digits(a / 10));
        assert(lb.drop_last() =~= dec_digits(b / 10));
        lemma_dec_digits_injective(a / 10, b / 10);
    }
}

/// The digits of the numbers in `ds`, most significant last, reversed.
pub open spec fn rev_digit_chars(ds: Seq<u64>) -> Seq<char> {
    Seq::new(ds.len(), |i: int| digit_char(ds[ds.len() - 1 - i] as nat))
}

/// Appends the character of one decimal digit to `s`.
fn push_digit(s: &mut String, d: u64)
    requires
        d < 10,
    ensures
        final(s)@ == old(s)@.push(digit_char(d as nat)),
{
    proof {
        reveal_strlit("0");
        reveal_strlit("1");
        reveal_strlit("2");
        reveal_strlit("3");
        reveal_strlit("4");
        reveal_strlit("5");
        reveal_strlit("6");
        reveal_strlit("7");
        reveal_strlit("8");
        reveal_strlit("9");
    }
    match d {
        0 => s.append("0"),
        1 => s.append("1"),
        2 => s.append("2"),
        3 => s.append("3"),
        4 => s.append("4"),
        5 => s.append("5"),
        6 => s.append("6"),
        7 => s.append("7"),
        8 => s.append("8"),
        _ => s.append("9"),
    }
    proof {
        assert(s@ =~= old(s)@.push(digit_char(d as nat)));
    }
}

/// The decimal rendering of `n` as a string.
pub fn to_dec_string(n: u128) -> (r: String)
    ensures
        r@ == dec_digits(n as nat),
{
    let mut digits: Vec<u64> = Vec::new();
    let mut m: u128 = n;
    loop
        invariant_except_break
            forall|i: int| 0 <= i < digits@.len() ==> digits@[i] < 10,
            m > 0 ==> dec_digits(n as nat) =~= dec_digits(m as nat) + rev_digit_chars(digits@),
            m == 0 ==> digits@.len() == 0 && n == 0,
        ensures
            forall|i: int| 0 <= i < digits@.len() ==> digits@[i] < 10,
            digits@.len() > 0,
            dec_digits(n as nat) =~= rev_digit_chars(digits@),
        decreases m,
    {
        let ghost old_digits = digits@;
        let ghost old_m = m;
        let d = (m % 10) as u64;
        digits.push(d);
        m = m / 10;
        proof {
            assert(rev_digit_chars(digits@) =~= seq![digit_char(d as nat)] + rev_digit_chars(
                old_digits,
            ));
            if old_m >= 10 {
                assert(dec_digits(old_m as nat) == dec_digits((old_m as nat) / 10).push(
                    digit_char((old_m as nat) % 10),
                ));
                assert(dec_digits((old_m as nat) / 10).push(digit_char((old_m as nat) % 10))
                    + rev_digit_chars(old_digits) =~= dec_digits((old_m as nat) / 10) + (seq![
                    digit_char(d as nat),
                ] + rev_digit_chars(old_digits)));
                if old_m > 0 {
                    assert(dec_digits(n as nat) =~= dec_digits(m as nat) + rev_digit_chars(
                        digits@,
                    ));
                }
            } else {
                assert(dec_digits(old_m as nat) =~= seq![digit_char(old_m as nat)]);
                if old_m > 0 {
                    assert(dec_digits(n as nat) == dec_digits(old_m as nat) + rev_digit_chars(
                        old_digits,
                    ));
                    assert(dec_digits(n as nat) =~= rev_digit_chars(digits@));
                } else {
                    assert(old_digits.len() == 0 && n == 0);
                    assert(dec_digits(n as nat) =~= rev_digit_chars(digits@));
                }
            }
        }
        if m == 0 {
            break;
        }
    }
    let mut out = String::new();
    let mut j = digits.len();
    while j > 0
        invariant
            j <= digits@.len(),
            forall|i: int| 0 <= i < digits@.len() ==> digits@[i] < 10,
            out@ =~= rev_digit_chars(digits@).subrange(
                0,
                digits@.len() - j,
            ),
        decreases j,
    {
        j = j - 1;
        push_digit(&mut out, digits[j]);
        proof {
            assert(rev_digit_chars(digits@)[digits@.len() - 1 - j] == digit_char(
                digits@[j as int] as nat,
            ));
            assert(out@ =~= rev_digit_chars(digits@).subrange(0, digits@.len() - j));
        }
    }
    proof {
        assert(rev_digit_chars(digits@).subrange(0, digits@.len() as int) =~= rev_digit_chars(
            digits@,
        ));
        assert(out@ =~= dec_digits(n as nat));
    }
    out
}


/// The fragments of `ls` joined with single newlines.
pub open spec fn join_nl(ls: Seq<Seq<char>>) -> Seq<char>
    decreases ls.len(),
{
    if ls.len() == 0 {
        Seq::empty()
    } else if ls.len() == 1 {
        ls[0]
    } else {
        ls[0] + "\n"@ + join_nl(ls.drop_first())
    }
}

/// Appending one fragment extends the joined text at its end.
pub proof fn lemma_join_nl_snoc(ls: Seq<Seq<char>>, x: Seq<char>)
    ensures
        join_nl(ls.push(x)) == if ls.len() == 0 {
            x
        } else {
            join_nl(ls) + "\n"@ + x
        },
    decreases ls.len(),
{
    let p = ls.push(x);
    if ls.len() == 0 {
        assert(p[0] == x);
    } else {
        assert(p.drop_first() =~= ls.drop_first().push(x));
        lemma_join_nl_snoc(ls.drop_first(), x);
        if ls.len() == 1 {
            assert(ls.drop_first().len() == 0);
            assert(join_nl(p) =~= join_nl(ls) + "\n"@ + x);
        } else {
            assert(join_nl(p) =~= join_nl(ls) + "\n"@ + x);
        }
    }
}

/// The fragments after the first one that begins with `marker`; empty if
/// none does.
pub open spec fn after_marker(ls: Seq<Seq<char>>, marker: Seq<char>) -> Seq<Seq<char>>
    decreases ls.len(),
{
    if ls.len() == 0 {
        Seq::empty()
    } else if has_prefix(ls[0], marker) {
        ls.drop_first()
    } else {
        after_marker(ls.drop_first(), marker)
    }
}

/// If nothing before `i` begins with the marker and `i` does (or is the
/// end), the remainder starts right after `i`.
pub proof fn lemma_after_marker_at(ls: Seq<Seq<char>>, marker: Seq<char>, i: int)
    requires
        0 <= i <= ls.len(),
        forall|k: int| 0 <= k < i ==> !has_prefix(#[trigger] ls[k], marker),
        i < ls.len() ==> has_prefix(ls[i], marker),
    ensures
        after_marker(ls, marker) == if i < ls.len() {
            ls.subrange(i + 1, ls.len() as int)
        } else {
            Seq::<Seq<char>>::empty()
        },
    decreases ls.len(),
{
    if ls.len() > 0 && !has_prefix(ls[0], marker) {
        let d = ls.drop_first();
        assert forall|k: int| 0 <= k < i - 1 implies !has_prefix(#[trigger] d[k], marker) by {
            assert(d[k] == ls[k + 1]);
        }
        lemma_after_marker_at(d, marker, i - 1);
        if i < ls.len() {
            assert(d.subrange(i, d.len() as int) =~= ls.subrange(i + 1, ls.len() as int));
        }
    } else if ls.len() > 0 {
        assert(after_marker(ls, marker) == ls.drop_first());
        assert(i == 0);
        assert(ls.drop_first() =~= ls.subrange(1, ls.len() as int));
    }
}

/// Whether `p` is a prefix of `s`.
pub fn has_prefix_str(s: &str, p: &str) -> (r: bool)
    ensures
        r == has_prefix(s@, p@),
{
    let sv = chars_of(s);
    let pv = chars_of(p);
    if pv.len() > sv.len() {
        return false;
    }
    match_at(&sv, &pv, 0)
}

/// `s` with leading and trailing whitespace removed.
pub fn trim_str(s: &str) -> (r: String)
    ensures
        r@ == trimmed(s@),
{
    let v = chars_of(s);
    let n = v.len();
    let (a, b) = trim_bounds(&v, 0, n);
    proof {
        assert(v@.subrange(0, v@.len() as int) =~= s@);
    }
    s.substring_char(a, b).to_owned()
}

/// The lines of `s`, as `str::lines` yields them.
pub fn split_lines_str(s: &str) -> (r: Vec<String>)
    ensures
        r.deep_view() == split_lines(s@),
{
    let v = chars_of(s);
    let n = v.len();
    let mut r: Vec<String> = Vec::new();
    proof {
        assert(s@.skip(0) =~= s@);
        assert(r.deep_view() + split_lines(s@.skip(0)) =~= split_lines(s@));
    }
    let mut pos: usize = 0;
    while pos < n
        invariant
            pos <= n,
            n == s@.len(),
            v@ == s@,
            r.deep_view() + split_lines(s@.skip(pos as int)) =~= split_lines(s@),
        decreases n - pos,
    {
        let ghost old_deep = r.deep_view();
        let ghost t = s@.skip(pos as int);
        let mut j = pos;
        while j < n && v[j] != '\n'
            invariant
                pos <= j <= n,
                n == s@.len(),
                v@ == s@,
                forall|k: int| pos <= k < j ==> s@[k] != '\n',
            decreases n - j,
        {
            j = j + 1;
        }
        proof {
            assert forall|k: int| 0 <= k < j - pos implies t[k] != '\n' by {
                assert(t[k] == s@[pos + k]);
            }
            if j < n {
                assert(t[j - pos] == s@[j as int]);
            }
            lemma_first_nl_at(t, (j - pos) as nat);
        }
        if j >= n {
            let line = s.substring_char(pos, n).to_owned();
            r.push(line);
            proof {
                assert(t =~= s@.subrange(pos as int, n as int));
                assert(split_lines(t) =~= seq![t]);
                assert(r.deep_view() =~= old_deep.push(t));
                assert(old_deep.push(t) + split_lines(s@.skip(n as int)) =~= old_deep + seq![t]);
                assert(s@.skip(n as int).len() == 0);
                assert(r.deep_view() + split_lines(s@.skip(n as int)) =~= split_lines(s@));
            }
            pos = n;
        } else {
            let end = if j > pos && v[j - 1] == '\r' {
                j - 1
            } else {
                j
            };
            let line = s.substring_char(pos, end).to_owned();
            r.push(line);
            proof {
                let i = (j - pos) as int;
                assert(t.subrange(0, i) =~= s@.subrange(pos as int, j as int));
                if j > pos && s@[j - 1] == '\r' {
                    assert(t.subrange(0, i).drop_last() =~= s@.subrange(pos as int, j - 1));
                    assert(strip_cr(t.subrange(0, i)) =~= s@.subrange(pos as int, end as int));
                } else {
                    assert(strip_cr(t.subrange(0, i)) =~= s@.subrange(pos as int, end as int));
                }
                assert(t.subrange(i + 1, t.len() as int) =~= s@.skip(j + 1));
                assert(split_lines(t) =~= seq![strip_cr(t.subrange(0, i))] + split_lines(
                    s@.skip(j + 1),
                ));
                assert(r.deep_view() =~= old_deep.push(s@.subrange(pos as int, end as int)));
                assert(r.deep_view() + split_lines(s@.skip(j + 1)) =~= old_deep + split_lines(t));
                assert(r.deep_view() + split_lines(s@.skip(j + 1)) =~= split_lines(s@));
            }
            pos = j + 1;
        }
    }
    proof {
        assert(s@.skip(pos as int).len() == 0);
        assert(split_lines(s@.skip(pos as int)) =~= Seq::<Seq<char>>::empty());
        assert(r.deep_view() =~= split_lines(s@));
    }
    r
}

} // verus!
