//! Text helpers over character sequences: decimal rendering, substring
//! search, line splitting, trimming and integer parsing.

use vstd::prelude::*;

verus! {

/// The character of a decimal digit.
pub open spec fn digit_char(d: nat) -> char {
    seq!['0', '1', '2', '3', '4', '5', '6', '7', '8', '9'][d as int]
}

/// Decimal rendering of a natural number, without leading zeros.
pub open spec fn decimal(n: nat) -> Seq<char>
    decreases n,
{
    if n < 10 {
        seq![digit_char(n)]
    } else {
        decimal(n / 10) + seq![digit_char(n % 10)]
    }
}

/// Decimal rendering of an integer, with a leading '-' when negative.
pub open spec fn signed_decimal(v: int) -> Seq<char> {
    if v < 0 {
        seq!['-'] + decimal((-v) as nat)
    } else {
        decimal(v as nat)
    }
}

fn digit_str(d: u64) -> (r: &'static str)
    requires
        d < 10,
    ensures
        r@ == seq![digit_char(d as nat)],
{
    proof {
        reveal_strlit("0");
        reveal_strlit("1");
        reveal_strlit("2");
        reveal_strlit("3");
        reveal_strlit("4");
        reveal_strlit("5");
        reveal_strlit("6");
        reveal_strlit("7");
        reveal_strlit("8");
        reveal_strlit("9");
    }
    match d {
        0 => "0",
        1 => "1",
        2 => "2",
        3 => "3",
        4 => "4",
        5 => "5",
        6 => "6",
        7 => "7",
        8 => "8",
        _ => "9",
    }
}

/// Appends the decimal rendering of `n`.
pub fn push_decimal(s: &mut String, n: u64)
    ensures
        final(s)@ == old(s)@ + decimal(n as nat),
    decreases n,
{
    if n >= 10 {
        push_decimal(s, n / 10);
    }
    s.append(digit_str(n % 10));
    assert(final(s)@ =~= old(s)@ + decimal(n as nat));
}

/// The characters of a string slice.
pub fn chars_of(s: &str) -> (r: Vec<char>)
    ensures
        r@ == s@,
{
    let mut v: Vec<char> = Vec::new();
    for c in it: s.chars()
        invariant
            v@ == it.seq().take(it.index() as int),
    {
        v.push(c);
    }
    v
}

/// Unicode White_Space, the set that `char::is_whitespace` tests.
pub open spec fn white_space(c: char) -> bool {
    let u = c as u32;
    ||| 0x09 <= u <= 0x0d
    ||| u == 0x20
    ||| u == 0x85
    ||| u == 0xa0
    ||| u == 0x1680
    ||| 0x2000 <= u <= 0x200a
    ||| u == 0x2028
    ||| u == 0x2029
    ||| u == 0x202f
    ||| u == 0x205f
    ||| u == 0x3000
}

/// `s` with leading white space removed.
pub open spec fn trim_start(s: Seq<char>) -> Seq<char>
    decreases s.len(),
{
    if s.len() > 0 && white_space(s[0]) {
        trim_start(s.drop_first())
    } else {
        s
    }
}

/// `s` with trailing white space removed.
pub open spec fn trim_end(s: Seq<char>) -> Seq<char>
    decreases s.len(),
{
    if s.len() > 0 && white_space(s.last()) {
        trim_end(s.drop_last())
    } else {
        s
    }
}

/// `s` with white space removed at both ends.
pub open spec fn trim(s: Seq<char>) -> Seq<char> {
    trim_end(trim_start(s))
}

pub open spec fn is_digit(c: char) -> bool {
    '0' <= c <= '9'
}

pub open spec fn all_digits(s: Seq<char>) -> bool {
    forall|i: int| 0 <= i < s.len() ==> is_digit(#[trigger] s[i])
}

/// Value of a run of decimal digits.
pub open spec fn digits_value(s: Seq<char>) -> int
    decreases s.len(),
{
    if s.len() == 0 {
        0
    } else {
        digits_value(s.drop_last()) * 10 + (s.last() as int - '0' as int)
    }
}

/// Length of the sign that may open a number: 1 for '-' or '+', else 0.
pub open spec fn sign_len(s: Seq<char>) -> int {
    if s.len() > 0 && (s[0] == '-' || s[0] == '+') {
        1
    } else {
        0
    }
}

/// An optional sign, then one or more decimal digits, whose value fits in
/// an `i32`: the integers that `str::parse::<i32>` accepts.
pub open spec fn parse_int(s: Seq<char>) -> Option<int> {
    let body = s.skip(sign_len(s));
    let v = if s.len() > 0 && s[0] == '-' {
        -digits_value(body)
    } else {
        digits_value(body)
    };
    if body.len() > 0 && all_digits(body) && i32::MIN <= v <= i32::MAX {
        Some(v)
    } else {
        None
    }
}

/// Position of the first `c` in `s`, or the length of `s` when absent.
pub open spec fn index_of(s: Seq<char>, c: char) -> nat
    decreases s.len(),
{
    if s.len() == 0 || s[0] == c {
        0
    } else {
        1 + index_of(s.drop_first(), c)
    }
}

/// The lines of `s`, split at each '\n'.
pub open spec fn lines_of(s: Seq<char>) -> Seq<Seq<char>>
    decreases s.len(),
{
    let e = index_of(s, '\n');
    if e >= s.len() {
        seq![s]
    } else {
        seq![s.take(e as int)] + lines_of(s.skip(e + 1 as int))
    }
}

/// `k` occurs in `s` at position `i`.
pub open spec fn occurs_at(s: Seq<char>, k: Seq<char>, i: int) -> bool {
    0 <= i && i + k.len() <= s.len() && s.subrange(i, i + k.len()) == k
}

pub open spec fn contains(s: Seq<char>, k: Seq<char>) -> bool {
    exists|i: int| occurs_at(s, k, i)
}

/// Number of non-overlapping occurrences of a non-empty `k`, taken from
/// left to right.
pub open spec fn count_matches(s: Seq<char>, k: Seq<char>) -> nat
    decreases s.len(),
{
    if k.len() == 0 || s.len() < k.len() {
        0
    } else if s.take(k.len() as int) == k {
        1 + count_matches(s.skip(k.len() as int), k)
    } else {
        count_matches(s.drop_first(), k)
    }
}

pub open spec fn views(ls: Seq<Vec<char>>) -> Seq<Seq<char>> {
    ls.map_values(|l: Vec<char>| l@)
}

/// The middle part of a concatenation occurs in it.
pub proof fn lemma_contains_part(a: Seq<char>, b: Seq<char>, c: Seq<char>)
    ensures
        contains(a + b + c, b),
        contains(a + b, b),
{
    assert((a + b + c).subrange(a.len() as int, a.len() + b.len() as int) =~= b);
    assert(occurs_at(a + b + c, b, a.len() as int));
    assert((a + b).subrange(a.len() as int, a.len() + b.len() as int) =~= b);
    assert(occurs_at(a + b, b, a.len() as int));
}

/// Tests a character for Unicode White_Space.
pub fn is_white_space(c: char) -> (r: bool)
    ensures
        r == white_space(c),
{
    let u = c as u32;
    (0x09 <= u && u <= 0x0d) || u == 0x20 || u == 0x85 || u == 0xa0 || u == 0x1680 || (0x2000
        <= u && u <= 0x200a) || u == 0x2028 || u == 0x2029 || u == 0x202f || u == 0x205f || u
        == 0x3000
}

/// Copy of `v[a..b]`.
pub fn slice_chars(v: &Vec<char>, a: usize, b: usize) -> (r: Vec<char>)
    requires
        a <= b <= v.len(),
    ensures
        r@ == v@.subrange(a as int, b as int),
{
    let mut r: Vec<char> = Vec::new();
    let mut i: usize = a;
    while i < b
        invariant
            a <= i <= b <= v.len(),
            r@ == v@.subrange(a as int, i as int),
        decreases b - i,
    {
        r.push(v[i]);
        i += 1;
        assert(r@ =~= v@.subrange(a as int, i as int));
    }
    r
}

/// `s` with white space removed at both ends, as `str::trim` does.
pub fn trim_chars(s: &Vec<char>) -> (r: Vec<char>)
    ensures
        r@ == trim(s@),
{
    let n = s.len();
    let mut a: usize = 0;
    assert(s@.skip(0) =~= s@);
    while a < n && is_white_space(s[a])
        invariant
            a <= n == s.len(),
            trim_start(s@) == trim_start(s@.skip(a as int)),
        decreases n - a,
    {
        assert(s@.skip(a as int).drop_first() =~= s@.skip(a + 1));
        a += 1;
    }
    assert(trim_start(s@) == s@.subrange(a as int, n as int)) by {
        assert(s@.skip(a as int) =~= s@.subrange(a as int, n as int));
    }
    let mut b: usize = n;
    while b > a && is_white_space(s[b - 1])
        invariant
            a <= b <= n == s.len(),
            trim(s@) == trim_end(s@.subrange(a as int, b as int)),
        decreases b,
    {
        assert(s@.subrange(a as int, b as int).drop_last() =~= s@.subrange(a as int, b - 1));
        b -= 1;
    }
    slice_chars(s, a, b)
}

proof fn lemma_digits_value_nonneg(s: Seq<char>)
    requires
        all_digits(s),
    ensures
        digits_value(s) >= 0,
    decreases s.len(),
{
    if s.len() > 0 {
        assert(is_digit(s[s.len() - 1]));
        lemma_digits_value_nonneg(s.drop_last());
    }
}

proof fn lemma_digits_value_prefix(s: Seq<char>, k: int)
    requires
        all_digits(s),
        0 <= k <= s.len(),
    ensures
        digits_value(s) >= digits_value(s.take(k)),
    decreases s.len(),
{
    if k < s.len() {
        assert(is_digit(s[s.len() - 1]));
        lemma_digits_value_nonneg(s.drop_last());
        assert(s.drop_last().take(k) =~= s.take(k));
        lemma_digits_value_prefix(s.drop_last(), k);
    } else {
        assert(s.take(k) =~= s);
    }
}

/// An optional `i32` seen as an optional integer.
pub open spec fn widen(o: Option<i32>) -> Option<int> {
    match o {
        Some(v) => Some(v as int),
        None => None,
    }
}

/// Appends the decimal rendering of `v`, with '-' when negative.
pub fn push_signed(s: &mut String, v: i32)
    ensures
        final(s)@ == old(s)@ + signed_decimal(v as int),
{
    if v < 0 {
        s.append("-");
        let m: i64 = -(v as i64);
        push_decimal(s, m as u64);
        proof {
            reveal_strlit("-");
        }
        assert(final(s)@ =~= old(s)@ + signed_decimal(v as int));
    } else {
        push_decimal(s, v as u64);
    }
}

/// Parses an optionally signed decimal `i32`, as `str::parse::<i32>` does.
pub fn parse_i32(s: &Vec<char>) -> (r: Option<i32>)
    ensures
        widen(r) == parse_int(s@),
        r matches Some(v) ==> parse_int(s@) == Some(v as int),
        r is None ==> parse_int(s@) is None,
{
    let n = s.len();
    let neg = n > 0 && s[0] == '-';
    let start: usize = if n > 0 && (s[0] == '-' || s[0] == '+') {
        1
    } else {
        0
    };
    let ghost body = s@.skip(start as int);
    assert(start == sign_len(s@));
    if start >= n {
        return None;
    }
    let mut acc: i64 = 0;
    let mut i: usize = start;
    while i < n
        invariant
            start <= i <= n == s.len(),
            start == sign_len(s@),
            neg == (s@.len() > 0 && s@[0] == '-'),
            body == s@.skip(start as int),
            all_digits(body.take(i - start)),
            acc == digits_value(body.take(i - start)),
            0 <= acc <= 2147483648,
        decreases n - i,
    {
        let c = s[i];
        if !('0' <= c && c <= '9') {
            assert(body[i - start] == c);
            assert(!all_digits(body));
            return None;
        }
        let d = (c as u32 - '0' as u32) as i64;
        proof {
            assert(body.take(i + 1 - start).drop_last() =~= body.take(i - start));
            assert(body.take(i + 1 - start).last() == c);
        }
        acc = acc * 10 + d;
        i += 1;
        assert(acc == digits_value(body.take(i - start)));
        assert(all_digits(body.take(i - start)));
        if acc > 2147483648 {
            proof {
                if all_digits(body) {
                    lemma_digits_value_prefix(body, i - start);
                }
            }
            return None;
        }
    }
    assert(body.take(n - start) =~= body);
    if neg {
        Some((-acc) as i32)
    } else if acc <= 2147483647 {
        Some(acc as i32)
    } else {
        None
    }
}

/// First position at or after `from` that holds `c`, or the length.
pub fn find_char(s: &Vec<char>, from: usize, c: char) -> (r: usize)
    requires
        from <= s.len(),
    ensures
        r == from + index_of(s@.skip(from as int), c),
        r <= s.len(),
{
    let mut j: usize = from;
    while j < s.len() && s[j] != c
        invariant
            from <= j <= s.len(),
            from + index_of(s@.skip(from as int), c) == j + index_of(s@.skip(j as int), c),
        decreases s.len() - j,
    {
        assert(s@.skip(j as int).drop_first() =~= s@.skip(j + 1));
        j += 1;
    }
    j
}

proof fn lemma_index_of_bound(s: Seq<char>, c: char)
    ensures
        index_of(s, c) <= s.len(),
        index_of(s, c) < s.len() ==> s[index_of(s, c) as int] == c,
        forall|i: int| 0 <= i < index_of(s, c) ==> s[i] != c,
    decreases s.len(),
{
    if s.len() > 0 && s[0] != c {
        lemma_index_of_bound(s.drop_first(), c);
        assert forall|i: int| 0 <= i < index_of(s, c) implies s[i] != c by {
            if i > 0 {
                assert(s[i] == s.drop_first()[i - 1]);
            }
        }
    }
}

/// Splits text into its lines at each '\n'.
pub fn split_lines(v: &Vec<char>) -> (r: Vec<Vec<char>>)
    ensures
        views(r@) == lines_of(v@),
{
    let n = v.len();
    let mut out: Vec<Vec<char>> = Vec::new();
    let mut start: usize = 0;
    assert(v@.skip(0) =~= v@);
    assert(views(out@) =~= Seq::<Seq<char>>::empty());
    assert(views(out@) + lines_of(v@) =~= lines_of(v@));
    loop
        invariant
            start <= n == v.len(),
            lines_of(v@) == views(out@) + lines_of(v@.skip(start as int)),
        decreases n - start,
    {
        let j = find_char(v, start, '\n');
        let line = slice_chars(v, start, j);
        let ghost rest = v@.skip(start as int);
        proof {
            lemma_index_of_bound(rest, '\n');
            assert(rest.take(j - start) =~= line@);
            assert(views(out@.push(line)) =~= views(out@).push(line@));
        }
        out.push(line);
        if j >= n {
            assert(rest =~= line@);
            assert(lines_of(v@) =~= views(out@));
            return out;
        }
        assert(rest.skip(j - start + 1) =~= v@.skip(j + 1));
        assert(lines_of(rest) == seq![line@] + lines_of(v@.skip(j + 1)));
        assert(lines_of(v@) =~= views(out@) + lines_of(v@.skip(j + 1)));
        start = j + 1;
    }
}

/// Whether `k` occurs in `s` at position `i`.
pub fn matches_at(s: &Vec<char>, k: &Vec<char>, i: usize) -> (r: bool)
    ensures
        r == occurs_at(s@, k@, i as int),
{
    if i > s.len() || k.len() > s.len() - i {
        return false;
    }
    let mut j: usize = 0;
    while j < k.len()
        invariant
            i + k.len() <= s.len(),
            j <= k.len(),
            forall|t: int| 0 <= t < j ==> s@[i + t] == k@[t],
        decreases k.len() - j,
    {
        if s[i + j] != k[j] {
            assert(s@.subrange(i as int, i + k.len())[j as int] != k@[j as int]);
            return false;
        }
        j += 1;
    }
    assert(s@.subrange(i as int, i + k.len()) =~= k@);
    true
}

/// Whether `k` occurs anywhere in `s`.
pub fn contains_chars(s: &Vec<char>, k: &Vec<char>) -> (r: bool)
    ensures
        r == contains(s@, k@),
{
    if k.len() > s.len() {
        return false;
    }
    let last = s.len() - k.len();
    let mut i: usize = 0;
    loop
        invariant
            i <= last == s.len() - k.len(),
            forall|t: int| 0 <= t < i ==> !occurs_at(s@, k@, t),
        decreases last - i,
    {
        if matches_at(s, k, i) {
            return true;
        }
        if i == last {
            assert forall|t: int| !occurs_at(s@, k@, t) by {
                if 0 <= t < i {
                }
            }
            return false;
        }
        i += 1;
    }
}

/// Counts the non-overlapping occurrences of `k`, as `str::matches`
/// followed by `count` does.
pub fn count_chars(s: &Vec<char>, k: &Vec<char>) -> (r: usize)
    requires
        k.len() > 0,
    ensures
        r == count_matches(s@, k@),
{
    let n = s.len();
    let mut i: usize = 0;
    let mut c: usize = 0;
    assert(s@.skip(0) =~= s@);
    while i < n && k.len() <= n - i
        invariant
            i <= n == s.len(),
            k.len() > 0,
            c <= i,
            count_matches(s@, k@) == c + count_matches(s@.skip(i as int), k@),
        decreases n - i,
    {
        let ghost rest = s@.skip(i as int);
        assert(rest.take(k.len() as int) =~= s@.subrange(i as int, i + k.len()));
        if matches_at(s, k, i) {
            assert(rest.skip(k.len() as int) =~= s@.skip(i + k.len()));
            c += 1;
            i += k.len();
        } else {
            assert(rest.drop_first() =~= s@.skip(i + 1));
            i += 1;
        }
    }
    c
}

/// Whether two character vectors are equal.
pub fn chars_eq(x: &Vec<char>, y: &Vec<char>) -> (r: bool)
    ensures
        r == (x@ == y@),
{
    if x.len() != y.len() {
        return false;
    }
    let mut i: usize = 0;
    while i < x.len()
        invariant
            x.len() == y.len(),
            i <= x.len(),
            forall|t: int| 0 <= t < i ==> x@[t] == y@[t],
        decreases x.len() - i,
    {
        if x[i] != y[i] {
            assert(x@[i as int] != y@[i as int]);
            return false;
        }
        i += 1;
    }
    assert(x@ =~= y@);
    true
}

/// Joins `items` with `sep` between each two.
pub open spec fn join(items: Seq<Seq<char>>, sep: Seq<char>) -> Seq<char>
    decreases items.len(),
{
    if items.len() == 0 {
        Seq::empty()
    } else if items.len() == 1 {
        items[0]
    } else {
        join(items.drop_last(), sep) + sep + items.last()
    }
}

/// Joining one more item.
pub proof fn lemma_join_push(items: Seq<Seq<char>>, sep: Seq<char>, e: Seq<char>)
    ensures
        join(items.push(e), sep) == if items.len() == 0 {
            e
        } else {
            join(items, sep) + sep + e
        },
{
    assert(items.push(e).drop_last() =~= items);
}

/// Appends `e` to a joined list `s` of `n` items.
pub fn push_joined(s: &mut String, n: usize, sep: &str, e: &str)
    ensures
        final(s)@ == (if n == 0 {
            old(s)@ + e@
        } else {
            old(s)@ + sep@ + e@
        }),
{
    if n > 0 {
        s.append(sep);
    }
    s.append(e);
}

/// Whether two texts hold the same characters.
pub fn text_eq(a: &str, b: &str) -> (r: bool)
    ensures
        r == (a@ == b@),
{
    let x = chars_of(a);
    let y = chars_of(b);
    if x.len() != y.len() {
        return false;
    }
    let mut i: usize = 0;
    while i < x.len()
        invariant
            x@ == a@,
            y@ == b@,
            x.len() == y.len(),
            i <= x.len(),
            forall|t: int| 0 <= t < i ==> x@[t] == y@[t],
        decreases x.len() - i,
    {
        if x[i] != y[i] {
            assert(x@[i as int] != y@[i as int]);
            return false;
        }
        i += 1;
    }
    assert(x@ =~= y@);
    true
}

} // verus!
