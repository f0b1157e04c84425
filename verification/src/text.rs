//! Character-level helpers shared by the parsers: whitespace, trimming,
//! ASCII case, decimal numbers, word and line splitting.
//!
//! Text is handled as `Vec<char>`; the spec functions speak of `Seq<char>`,
//! the view of both `String` and `&str`.

use vstd::prelude::*;

verus! {

/// Unicode `White_Space`, the set `char::is_whitespace` tests.
pub open spec fn is_ws(c: char) -> bool {
    let u = c as u32;
    ||| 0x9 <= u <= 0xd
    ||| u == 0x20
    ||| u == 0x85
    ||| u == 0xa0
    ||| u == 0x1680
    ||| 0x2000 <= u <= 0x200a
    ||| u == 0x2028
    ||| u == 0x2029
    ||| u == 0x202f
    ||| u == 0x205f
    ||| u == 0x3000
}

/// `char::is_whitespace`.
pub fn is_whitespace(c: char) -> (b: bool)
    ensures
        b == is_ws(c),
{
    let u = c as u32;
    (0x9 <= u && u <= 0xd) || u == 0x20 || u == 0x85 || u == 0xa0 || u == 0x1680 || (0x2000 <= u
        && u <= 0x200a) || u == 0x2028 || u == 0x2029 || u == 0x202f || u == 0x205f || u == 0x3000
}

pub open spec fn is_digit(c: char) -> bool {
    '0' <= c <= '9'
}

pub open spec fn is_upper(c: char) -> bool {
    'A' <= c <= 'Z'
}

pub open spec fn is_alnum(c: char) -> bool {
    is_digit(c) || is_upper(c) || ('a' <= c <= 'z')
}

/// `char::to_ascii_lowercase`.
pub open spec fn lower(c: char) -> char {
    if is_upper(c) {
        ((c as u32) + 32) as char
    } else {
        c
    }
}

pub open spec fn lower_seq(s: Seq<char>) -> Seq<char> {
    Seq::new(s.len(), |i: int| lower(s[i]))
}

pub fn to_lower(c: char) -> (r: char)
    ensures
        r == lower(c),
{
    if 'A' <= c && c <= 'Z' {
        ((c as u8) + 32) as char
    } else {
        c
    }
}

/// The characters of `s`, in order.
pub fn chars_of(s: &str) -> (v: Vec<char>)
    ensures
        v@ == s@,
{
    let mut v: Vec<char> = Vec::new();
    for c in it: s.chars()
        invariant
            v@ == it.seq().take(it.index() as int),
            it.seq() == s@,
    {
        v.push(c);
    }
    v
}

/// A `String` holding exactly `v`, through `String: FromIterator<char>`.
#[verifier::external_body]
pub(crate) fn string_from(v: &[char]) -> (s: String)
    ensures
        s@ == v@,
{
    v.iter().collect()
}

/// `str::trim_start`.
pub open spec fn trim_start(s: Seq<char>) -> Seq<char>
    decreases s.len(),
{
    if s.len() > 0 && is_ws(s[0]) {
        trim_start(s.drop_first())
    } else {
        s
    }
}

/// `str::trim_end`.
pub open spec fn trim_end(s: Seq<char>) -> Seq<char>
    decreases s.len(),
{
    if s.len() > 0 && is_ws(s.last()) {
        trim_end(s.drop_last())
    } else {
        s
    }
}

/// `str::trim`.
pub open spec fn trim(s: Seq<char>) -> Seq<char> {
    trim_end(trim_start(s))
}

/// Bounds `(a, b)` with `v[a..b]` the trimmed `v[lo..hi]`.
pub fn trim_range(v: &[char], lo: usize, hi: usize) -> (r: (usize, usize))
    requires
        lo <= hi <= v@.len(),
    ensures
        lo <= r.0 <= r.1 <= hi,
        v@.subrange(r.0 as int, r.1 as int) == trim(v@.subrange(lo as int, hi as int)),
{
    let mut a = lo;
    while a < hi && is_whitespace(v[a])
        invariant
            lo <= a <= hi <= v@.len(),
            trim_start(v@.subrange(lo as int, hi as int)) == trim_start(
                v@.subrange(a as int, hi as int),
            ),
        decreases hi - a,
    {
        assert(v@.subrange(a as int, hi as int).drop_first() =~= v@.subrange(
            a + 1,
            hi as int,
        ));
        a = a + 1;
    }
    let mut b = hi;
    while b > a && is_whitespace(v[b - 1])
        invariant
            lo <= a <= b <= hi <= v@.len(),
            trim_start(v@.subrange(lo as int, hi as int)) == trim_start(
                v@.subrange(a as int, hi as int),
            ),
            a == hi || !is_ws(v@[a as int]),
            trim_end(v@.subrange(a as int, hi as int)) == trim_end(
                v@.subrange(a as int, b as int),
            ),
        decreases b - a,
    {
        assert(v@.subrange(a as int, b as int).drop_last() =~= v@.subrange(
            a as int,
            b - 1,
        ));
        b = b - 1;
    }
    assert(trim_start(v@.subrange(a as int, hi as int)) == v@.subrange(a as int, hi as int));
    (a, b)
}

/// `s` with every ASCII letter lowercased matches `target` exactly.
pub fn eq_lower(v: &[char], lo: usize, hi: usize, target: &[char]) -> (b: bool)
    requires
        lo <= hi <= v@.len(),
    ensures
        b == (lower_seq(v@.subrange(lo as int, hi as int)) == target@),
{
    if hi - lo != target.len() {
        assert(lower_seq(v@.subrange(lo as int, hi as int)).len() != target@.len());
        return false;
    }
    let mut i: usize = 0;
    while i < target.len()
        invariant
            hi - lo == target@.len(),
            lo <= hi <= v@.len(),
            i <= target@.len(),
            forall|j: int| 0 <= j < i ==> lower(v@[lo + j]) == target@[j],
        decreases target@.len() - i,
    {
        if to_lower(v[lo + i]) != target[i] {
            assert(lower_seq(v@.subrange(lo as int, hi as int))[i as int] != target@[i as int]);
            return false;
        }
        i = i + 1;
    }
    assert(lower_seq(v@.subrange(lo as int, hi as int)) =~= target@);
    true
}

/// Value of a run of ASCII digits.
pub open spec fn digits_value(s: Seq<char>) -> nat
    decreases s.len(),
{
    if s.len() == 0 {
        0
    } else {
        digits_value(s.drop_last()) * 10 + ((s.last() as u32) - ('0' as u32)) as nat
    }
}

pub open spec fn all_digits(s: Seq<char>) -> bool {
    forall|i: int| 0 <= i < s.len() ==> is_digit(#[trigger] s[i])
}

/// What `str::parse` gives for an unsigned integer type wide enough for
/// every value: an optional `+`, then one or more ASCII digits.
pub open spec fn parse_unsigned(s: Seq<char>) -> Option<nat> {
    let d = if s.len() > 0 && s[0] == '+' {
        s.drop_first()
    } else {
        s
    };
    if d.len() > 0 && all_digits(d) {
        Some(digits_value(d))
    } else {
        None
    }
}

/// `str::parse::<u64>`.
pub open spec fn parse_u64(s: Seq<char>) -> Option<u64> {
    match parse_unsigned(s) {
        Some(n) => if n <= u64::MAX {
            Some(n as u64)
        } else {
            None
        },
        None => None,
    }
}

proof fn lemma_digits_prefix(s: Seq<char>, k: int)
    requires
        0 <= k <= s.len(),
        all_digits(s),
    ensures
        digits_value(s.take(k)) <= digits_value(s),
    decreases s.len() - k,
{
    if k < s.len() {
        lemma_digits_prefix(s, k + 1);
        assert(s.take(k + 1).drop_last() =~= s.take(k));
    } else {
        assert(s.take(k) =~= s);
    }
}

/// `str::parse::<u64>` on `v[lo..hi]`.
pub fn parse_u64_in(v: &[char], lo: usize, hi: usize) -> (r: Option<u64>)
    requires
        lo <= hi <= v@.len(),
    ensures
        r == parse_u64(v@.subrange(lo as int, hi as int)),
{
    let ghost s = v@.subrange(lo as int, hi as int);
    let mut i = lo;
    if i < hi && v[i] == '+' {
        i = i + 1;
    }
    let ghost d = v@.subrange(i as int, hi as int);
    assert(d == (if s.len() > 0 && s[0] == '+' {
        s.drop_first()
    } else {
        s
    }));
    if i == hi {
        return None;
    }
    let start = i;
    let mut acc: u64 = 0;
    while i < hi
        invariant
            lo <= start <= i <= hi <= v@.len(),
            d == v@.subrange(start as int, hi as int),
            s == v@.subrange(lo as int, hi as int),
            d == (if s.len() > 0 && s[0] == '+' {
                s.drop_first()
            } else {
                s
            }),
            d.len() > 0,
            all_digits(v@.subrange(start as int, i as int)),
            acc as nat == digits_value(v@.subrange(start as int, i as int)),
        decreases hi - i,
    {
        let c = v[i];
        if !('0' <= c && c <= '9') {
            assert(d[i - start] == c);
            return None;
        }
        let ghost pre = v@.subrange(start as int, i as int);
        let ghost next = v@.subrange(start as int, i + 1);
        assert(next.drop_last() =~= pre);
        assert(all_digits(next));
        let dv: u64 = (c as u32 - '0' as u32) as u64;
        if acc > (u64::MAX - dv) / 10 {
            assert(digits_value(next) > u64::MAX) by (nonlinear_arith)
                requires
                    acc > (u64::MAX - dv) / 10,
                    digits_value(next) == acc * 10 + dv,
                    dv <= 9,
            ;
            proof {
                assert(next == d.take(i + 1 - start));
                if all_digits(d) {
                    lemma_digits_prefix(d, i + 1 - start);
                }
            }
            return None;
        }
        acc = acc * 10 + dv;
        i = i + 1;
    }
    assert(v@.subrange(start as int, i as int) =~= d);
    Some(acc)
}

pub open spec fn digit_char(d: nat) -> char {
    (('0' as u32) + d) as char
}

/// Decimal digits of `n`, no sign, no leading zeros.
pub open spec fn dec(n: nat) -> Seq<char>
    decreases n,
{
    if n < 10 {
        seq![digit_char(n)]
    } else {
        dec(n / 10).push(digit_char(n % 10))
    }
}

/// Append the decimal digits of `n`.
pub fn push_dec(out: &mut Vec<char>, n: u64)
    ensures
        final(out)@ == old(out)@ + dec(n as nat),
    decreases n,
{
    if n >= 10 {
        push_dec(out, n / 10);
    }
    let d = ((n % 10) as u8 + 48) as char;
    assert(d == digit_char((n % 10) as nat));
    out.push(d);
    assert(final(out)@ =~= old(out)@ + dec(n as nat));
}

/// Append the characters of `s`.
pub fn push_str(out: &mut Vec<char>, s: &str)
    ensures
        final(out)@ == old(out)@ + s@,
{
    let v = chars_of(s);
    push_slice(out, &v, 0, v.len());
}

/// Append `v[lo..hi]`.
pub fn push_slice(out: &mut Vec<char>, v: &[char], lo: usize, hi: usize)
    requires
        lo <= hi <= v@.len(),
    ensures
        final(out)@ == old(out)@ + v@.subrange(lo as int, hi as int),
{
    let mut i = lo;
    while i < hi
        invariant
            lo <= i <= hi <= v@.len(),
            out@ == old(out)@ + v@.subrange(lo as int, i as int),
        decreases hi - i,
    {
        out.push(v[i]);
        i = i + 1;
        assert(out@ =~= old(out)@ + v@.subrange(lo as int, i as int));
    }
}

/// Length of the longest prefix of `s` whose characters all satisfy `p`.
pub open spec fn run_len(s: Seq<char>, p: spec_fn(char) -> bool) -> nat
    decreases s.len(),
{
    if s.len() > 0 && p(s[0]) {
        1 + run_len(s.drop_first(), p)
    } else {
        0
    }
}

pub proof fn lemma_run_len(s: Seq<char>, p: spec_fn(char) -> bool)
    ensures
        run_len(s, p) <= s.len(),
        forall|i: int| 0 <= i < run_len(s, p) ==> p(#[trigger] s[i]),
        run_len(s, p) < s.len() ==> !p(s[run_len(s, p) as int]),
    decreases s.len(),
{
    if s.len() > 0 && p(s[0]) {
        lemma_run_len(s.drop_first(), p);
        assert forall|i: int| 0 <= i < run_len(s, p) implies p(#[trigger] s[i]) by {
            if i > 0 {
                assert(s[i] == s.drop_first()[i - 1]);
            }
        }
    }
}

/// A run of exactly `k` characters satisfying `p`, ended by the end of `s`
/// or by one that does not, has `run_len` `k`.
pub proof fn lemma_run_len_is(s: Seq<char>, p: spec_fn(char) -> bool, k: int)
    requires
        0 <= k <= s.len(),
        forall|i: int| 0 <= i < k ==> p(#[trigger] s[i]),
        k == s.len() || !p(s[k]),
    ensures
        run_len(s, p) == k,
    decreases k,
{
    if k > 0 {
        assert(p(s[0]));
        let t = s.drop_first();
        assert forall|i: int| 0 <= i < k - 1 implies p(#[trigger] t[i]) by {
            assert(t[i] == s[i + 1]);
        }
        if k < s.len() {
            assert(t[k - 1] == s[k]);
        }
        lemma_run_len_is(t, p, k - 1);
    }
}

pub open spec fn not_ws() -> spec_fn(char) -> bool {
    |c: char| !is_ws(c)
}

/// `str::split_whitespace`: the maximal runs of non-whitespace.
pub open spec fn words(s: Seq<char>) -> Seq<Seq<char>>
    decreases s.len(),
{
    if s.len() == 0 {
        seq![]
    } else if is_ws(s[0]) {
        words(s.drop_first())
    } else {
        let n = run_len(s, not_ws());
        proof {
            lemma_run_len(s, not_ws());
        }
        seq![s.take(n as int)] + words(s.skip(n as int))
    }
}

/// The next word of `v` at or after `i`, as bounds `[a, b)`.
pub fn next_word(v: &[char], i: usize) -> (r: Option<(usize, usize)>)
    requires
        i <= v@.len(),
    ensures
        r is None ==> words(v@.skip(i as int)) == Seq::<Seq<char>>::empty(),
        r matches Some((a, b)) ==> {
            &&& i <= a < b <= v@.len()
            &&& words(v@.skip(i as int)) == seq![v@.subrange(a as int, b as int)] + words(
                v@.skip(b as int),
            )
            &&& forall|j: int| a <= j < b ==> !is_ws(#[trigger] v@[j])
        },
{
    let mut a = i;
    while a < v.len() && is_whitespace(v[a])
        invariant
            i <= a <= v@.len(),
            words(v@.skip(i as int)) == words(v@.skip(a as int)),
        decreases v@.len() - a,
    {
        assert(v@.skip(a as int).drop_first() =~= v@.skip(a + 1));
        a = a + 1;
    }
    if a == v.len() {
        assert(v@.skip(a as int).len() == 0);
        return None;
    }
    let mut b = a;
    while b < v.len() && !is_whitespace(v[b])
        invariant
            a <= b <= v@.len(),
            forall|j: int| a <= j < b ==> !is_ws(#[trigger] v@[j]),
        decreases v@.len() - b,
    {
        b = b + 1;
    }
    let ghost s = v@.skip(a as int);
    proof {
        assert forall|j: int| 0 <= j < b - a implies (not_ws())(#[trigger] s[j]) by {
            assert(s[j] == v@[a + j]);
        }
        if b < v@.len() {
            assert(s[b - a] == v@[b as int]);
        }
        lemma_run_len_is(s, not_ws(), b - a);
        assert(s.take(b - a) =~= v@.subrange(a as int, b as int));
        assert(s.skip(b - a) =~= v@.skip(b as int));
    }
    Some((a, b))
}

pub open spec fn not_nl() -> spec_fn(char) -> bool {
    |c: char| c != '\n'
}

/// A line with its `\r` removed when it had one before the `\n`.
pub open spec fn strip_cr(l: Seq<char>) -> Seq<char> {
    if l.len() > 0 && l.last() == '\r' {
        l.drop_last()
    } else {
        l
    }
}

/// `str::lines`: split at `\n` or `\r\n`; a final line ending is optional.
pub open spec fn lines(s: Seq<char>) -> Seq<Seq<char>>
    decreases s.len(),
{
    if s.len() == 0 {
        seq![]
    } else {
        let k = run_len(s, not_nl());
        proof {
            lemma_run_len(s, not_nl());
        }
        if k == s.len() {
            seq![s]
        } else {
            seq![strip_cr(s.take(k as int))] + lines(s.skip(k as int + 1))
        }
    }
}

/// The line of `v` that starts at `i`, as bounds `[a, b)` without its line
/// ending, and where the next line starts.
pub fn next_line(v: &[char], i: usize) -> (r: (usize, usize, usize))
    requires
        i < v@.len(),
    ensures
        i <= r.0 <= r.1 <= r.2 <= v@.len(),
        i < r.2,
        lines(v@.skip(i as int)) == seq![v@.subrange(r.0 as int, r.1 as int)] + lines(
            v@.skip(r.2 as int),
        ),
{
    let mut k = i;
    while k < v.len() && v[k] != '\n'
        invariant
            i <= k <= v@.len(),
            forall|j: int| i <= j < k ==> #[trigger] v@[j] != '\n',
        decreases v@.len() - k,
    {
        k = k + 1;
    }
    let ghost s = v@.skip(i as int);
    proof {
        assert forall|j: int| 0 <= j < k - i implies (not_nl())(#[trigger] s[j]) by {
            assert(s[j] == v@[i + j]);
        }
        if k < v@.len() {
            assert(s[k - i] == v@[k as int]);
        }
        lemma_run_len_is(s, not_nl(), k - i);
    }
    if k == v.len() {
        assert(s =~= v@.subrange(i as int, k as int));
        assert(v@.skip(k as int).len() == 0);
        assert(lines(v@.skip(k as int)) =~= Seq::<Seq<char>>::empty());
        assert(seq![v@.subrange(i as int, k as int)] + Seq::<Seq<char>>::empty() =~= seq![
            v@.subrange(i as int, k as int),
        ]);
        return (i, k, k);
    }
    assert(s.take(k - i) =~= v@.subrange(i as int, k as int));
    assert(s.skip(k - i + 1) =~= v@.skip(k + 1));
    let mut e = k;
    if e > i && v[e - 1] == '\r' {
        e = e - 1;
        assert(v@.subrange(i as int, k as int).drop_last() =~= v@.subrange(i as int, e as int));
    }
    (i, e, k + 1)
}

/// `str::trim_end_matches(c)` for a single character.
pub open spec fn strip_end(s: Seq<char>, c: char) -> Seq<char>
    decreases s.len(),
{
    if s.len() > 0 && s.last() == c {
        strip_end(s.drop_last(), c)
    } else {
        s
    }
}

/// End of `v[lo..hi]` once every trailing `c` is removed.
pub fn strip_end_range(v: &[char], lo: usize, hi: usize, c: char) -> (e: usize)
    requires
        lo <= hi <= v@.len(),
    ensures
        lo <= e <= hi,
        v@.subrange(lo as int, e as int) == strip_end(v@.subrange(lo as int, hi as int), c),
{
    let mut e = hi;
    while e > lo && v[e - 1] == c
        invariant
            lo <= e <= hi <= v@.len(),
            strip_end(v@.subrange(lo as int, hi as int), c) == strip_end(
                v@.subrange(lo as int, e as int),
                c,
            ),
        decreases e - lo,
    {
        assert(v@.subrange(lo as int, e as int).drop_last() =~= v@.subrange(lo as int, e - 1));
        e = e - 1;
    }
    e
}

/// `needle` occurs in `s` as a contiguous run.
pub open spec fn has_infix(s: Seq<char>, needle: Seq<char>) -> bool {
    exists|i: int| 0 <= i <= s.len() - needle.len() && #[trigger] s.subrange(i, i + needle.len()) == needle
}

/// Whether `needle` occurs in `v[lo..hi]` with ASCII letters of `v` lowercased.
pub fn contains_lower(v: &[char], lo: usize, hi: usize, needle: &[char]) -> (b: bool)
    requires
        lo <= hi <= v@.len(),
    ensures
        b == has_infix(lower_seq(v@.subrange(lo as int, hi as int)), needle@),
{
    let ghost s = lower_seq(v@.subrange(lo as int, hi as int));
    if needle.len() > hi - lo {
        return false;
    }
    if needle.len() == 0 {
        assert(s.subrange(0, 0 + needle@.len() as int) =~= needle@);
        return true;
    }
    let mut i = lo;
    while i <= hi - needle.len()
        invariant
            lo <= i <= hi <= v@.len(),
            needle@.len() <= hi - lo,
            needle@.len() >= 1,
            s == lower_seq(v@.subrange(lo as int, hi as int)),
            forall|k: int| 0 <= k < i - lo ==> #[trigger] s.subrange(k, k + needle@.len()) != needle@,
        decreases hi - i,
    {
        let m = eq_lower(v, i, i + needle.len(), needle);
        assert(lower_seq(v@.subrange(i as int, i + needle@.len())) =~= s.subrange(
            i - lo,
            i - lo + needle@.len(),
        ));
        if m {
            return true;
        }
        i = i + 1;
    }
    assert forall|k: int| 0 <= k <= s.len() - needle@.len() implies #[trigger] s.subrange(
        k,
        k + needle@.len(),
    ) != needle@ by {
        assert(k < i - lo);
    }
    false
}

/// Whether `needle` occurs in `v`.
pub fn contains_seq(v: &[char], needle: &[char]) -> (b: bool)
    ensures
        b == has_infix(v@, needle@),
{
    let ghost s = v@;
    if needle.len() > v.len() {
        return false;
    }
    if needle.len() == 0 {
        assert(s.subrange(0, 0 + needle@.len() as int) =~= needle@);
        return true;
    }
    let mut i: usize = 0;
    while i <= v.len() - needle.len()
        invariant
            i <= v@.len(),
            needle@.len() <= v@.len(),
            needle@.len() >= 1,
            s == v@,
            forall|k: int| 0 <= k < i ==> #[trigger] s.subrange(k, k + needle@.len()) != needle@,
        decreases v@.len() - i,
    {
        let m = eq_in(v, i, i + needle.len(), needle);
        if m {
            return true;
        }
        i = i + 1;
    }
    assert forall|k: int| 0 <= k <= s.len() - needle@.len() implies #[trigger] s.subrange(
        k,
        k + needle@.len(),
    ) != needle@ by {
        assert(k < i);
    }
    false
}

/// Every character of `v[lo..hi]` is an ASCII digit.
pub fn all_digits_in(v: &[char], lo: usize, hi: usize) -> (b: bool)
    requires
        lo <= hi <= v@.len(),
    ensures
        b == all_digits(v@.subrange(lo as int, hi as int)),
{
    let mut i = lo;
    while i < hi
        invariant
            lo <= i <= hi <= v@.len(),
            forall|j: int| lo <= j < i ==> is_digit(#[trigger] v@[j]),
        decreases hi - i,
    {
        if !('0' <= v[i] && v[i] <= '9') {
            assert(!is_digit(v@.subrange(lo as int, hi as int)[i - lo]));
            return false;
        }
        i = i + 1;
    }
    assert forall|j: int| 0 <= j < hi - lo implies is_digit(
        #[trigger] v@.subrange(lo as int, hi as int)[j],
    ) by {
        assert(v@.subrange(lo as int, hi as int)[j] == v@[lo + j]);
    }
    true
}

/// `parts` joined with `sep` between neighbours.
pub open spec fn join(parts: Seq<Seq<char>>, sep: Seq<char>) -> Seq<char>
    decreases parts.len(),
{
    if parts.len() == 0 {
        seq![]
    } else if parts.len() == 1 {
        parts[0]
    } else {
        join(parts.drop_last(), sep) + sep + parts.last()
    }
}

/// Whether `v[lo..hi]` is exactly `lit`.
pub fn eq_in(v: &[char], lo: usize, hi: usize, lit: &[char]) -> (b: bool)
    requires
        lo <= hi <= v@.len(),
    ensures
        b == (v@.subrange(lo as int, hi as int) == lit@),
{
    if hi - lo != lit.len() {
        assert(v@.subrange(lo as int, hi as int).len() != lit@.len());
        return false;
    }
    let mut i: usize = 0;
    while i < lit.len()
        invariant
            hi - lo == lit@.len(),
            lo <= hi <= v@.len(),
            i <= lit@.len(),
            forall|j: int| 0 <= j < i ==> v@[lo + j] == lit@[j],
        decreases lit@.len() - i,
    {
        if v[lo + i] != lit[i] {
            assert(v@.subrange(lo as int, hi as int)[i as int] != lit@[i as int]);
            return false;
        }
        i = i + 1;
    }
    assert(v@.subrange(lo as int, hi as int) =~= lit@);
    true
}

/// Whether the strings `a` and `b` hold the same characters.
pub fn same_text(a: &String, b: &String) -> (r: bool)
    ensures
        r == (a@ == b@),
{
    a.eq(b)
}

pub open spec fn opt_text(o: Option<String>) -> Option<Seq<char>> {
    match o {
        Some(s) => Some(s@),
        None => None,
    }
}

/// Whether two optional strings are both absent or hold the same text.
pub fn same_opt_text(a: &Option<String>, b: &Option<String>) -> (r: bool)
    ensures
        r == (opt_text(*a) == opt_text(*b)),
{
    match (a, b) {
        (Some(x), Some(y)) => same_text(x, y),
        (None, None) => true,
        _ => false,
    }
}

/// The trimmed text of `o`, when there is some and it is not blank.
pub open spec fn present(o: Option<String>) -> Option<Seq<char>> {
    match o {
        Some(s) => if trim(s@).len() > 0 {
            Some(trim(s@))
        } else {
            None
        },
        None => None,
    }
}

pub open spec fn opt_chars(o: Option<Vec<char>>) -> Option<Seq<char>> {
    match o {
        Some(v) => Some(v@),
        None => None,
    }
}

/// `o.as_deref().map(str::trim).filter(|s| !s.is_empty())`, as characters.
pub fn present_chars(o: &Option<String>) -> (r: Option<Vec<char>>)
    ensures
        opt_chars(r) == present(*o),
{
    match o {
        Some(s) => {
            let v = chars_of(s.as_str());
            let (a, b) = trim_range(&v, 0, v.len());
            assert(v@.subrange(0, v@.len() as int) =~= v@);
            if a == b {
                None
            } else {
                let mut t: Vec<char> = Vec::new();
                push_slice(&mut t, &v, a, b);
                assert(t@ =~= v@.subrange(a as int, b as int));
                Some(t)
            }
        },
        None => None,
    }
}

pub proof fn lemma_join_push(parts: Seq<Seq<char>>, sep: Seq<char>, x: Seq<char>)
    requires
        parts.len() >= 1,
    ensures
        join(parts.push(x), sep) == join(parts, sep) + sep + x,
{
    assert(parts.push(x).drop_last() =~= parts);
}

} // verus!
