//! Character-level helpers for building and inspecting text.
use vstd::prelude::*;

verus! {

/// The characters of `s`, in order.
pub fn chars_of(s: &str) -> (v: Vec<char>)
    ensures
        v@ == s@,
{
    let mut v: Vec<char> = Vec::new();
    for c in it: s.chars()
        invariant
            v@ == it.seq().take(it.index() as int),
    {
        v.push(c);
    }
    v
}

/// Collects characters into a `String` with `String::from_iter`, which keeps
/// them in order; the contract claims exactly that.
#[verifier::external_body]
pub(crate) fn string_from_chars(chars: &[char]) -> (s: String)
    ensures
        s@ == chars@,
{
    String::from_iter(chars)
}

/// Appends `more` to `out`.
pub fn push_chars(out: &mut Vec<char>, more: &[char])
    ensures
        final(out)@ == old(out)@ + more@,
{
    let n = more.len();
    let mut i: usize = 0;
    while i < n
        invariant
            n == more@.len(),
            i <= n,
            out@ == old(out)@ + more@.take(i as int),
        decreases n - i,
    {
        out.push(more[i]);
        i += 1;
    }
}

/// Appends the characters of `s` to `out`.
pub fn push_str(out: &mut Vec<char>, s: &str)
    ensures
        final(out)@ == old(out)@ + s@,
{
    let cs = chars_of(s);
    push_chars(out, cs.as_slice());
}

/// Whether two character sequences are equal.
pub fn same_chars(a: &[char], b: &[char]) -> (eq: bool)
    ensures
        eq == (a@ == b@),
{
    if a.len() != b.len() {
        return false;
    }
    let n = a.len();
    let mut i: usize = 0;
    while i < n
        invariant
            n == a@.len(),
            n == b@.len(),
            i <= n,
            forall|j: int| 0 <= j < i ==> a@[j] == b@[j],
        decreases n - i,
    {
        if a[i] != b[i] {
            return false;
        }
        i += 1;
    }
    assert(a@ =~= b@);
    true
}

/// Whether `a` and `b` hold the same characters.
pub fn str_eq(a: &str, b: &str) -> (eq: bool)
    ensures
        eq == (a@ == b@),
{
    let ac = chars_of(a);
    let bc = chars_of(b);
    same_chars(ac.as_slice(), bc.as_slice())
}

/// The decimal digit for `d`, which is below ten.
pub open spec fn digit_char(d: nat) -> char {
    ('0' as nat + d) as char
}

/// The decimal notation of `n`, without leading zeros (`"0"` for zero), as
/// `Display` prints unsigned integers.
pub open spec fn decimal(n: nat) -> Seq<char>
    decreases n,
{
    if n < 10 {
        seq![digit_char(n)]
    } else {
        decimal(n / 10).push(digit_char(n % 10))
    }
}

/// The decimal notation of `n`.
pub fn decimal_chars(n: u64) -> (digits: Vec<char>)
    ensures
        digits@ == decimal(n as nat),
    decreases n,
{
    let d = (n % 10) as u32;
    let c = char_from_digit(d);
    if n < 10 {
        let mut v: Vec<char> = Vec::new();
        v.push(c);
        v
    } else {
        let mut v = decimal_chars(n / 10);
        v.push(c);
        v
    }
}

fn char_from_digit(d: u32) -> (c: char)
    requires
        d < 10,
    ensures
        c == digit_char(d as nat),
{
    match d {
        0 => '0',
        1 => '1',
        2 => '2',
        3 => '3',
        4 => '4',
        5 => '5',
        6 => '6',
        7 => '7',
        8 => '8',
        _ => '9',
    }
}

/// Appends the decimal notation of `n` to `out`.
pub fn push_decimal(out: &mut Vec<char>, n: u64)
    ensures
        final(out)@ == old(out)@ + decimal(n as nat),
{
    let digits = decimal_chars(n);
    push_chars(out, digits.as_slice());
}


/// A copy of `s` as an owned `String`.
pub fn owned(s: &str) -> (r: String)
    ensures
        r@ == s@,
{
    s.to_owned()
}

/// The value of an optional string.
pub open spec fn opt_view(o: Option<String>) -> Option<Seq<char>> {
    match o {
        Some(s) => Some(s@),
        None => None,
    }
}

/// `a` followed by `b`.
pub fn concat(a: &str, b: &str) -> (r: String)
    ensures
        r@ == a@ + b@,
{
    let mut out = chars_of(a);
    push_str(&mut out, b);
    string_from_chars(out.as_slice())
}

/// A copy of an optional string.
pub fn copy_opt(o: &Option<String>) -> (r: Option<String>)
    ensures
        r == *o,
{
    match o {
        Some(s) => Some(s.clone()),
        None => None,
    }
}

/// The values of a sequence of strings.
pub open spec fn strings_view(v: Seq<String>) -> Seq<Seq<char>> {
    v.map_values(|s: String| s@)
}

/// The pieces of `s` between occurrences of `sep`, as `str::split` yields
/// them: one more piece than there are separators, empty pieces included.
pub open spec fn split_on(s: Seq<char>, sep: char) -> Seq<Seq<char>>
    decreases s.len(),
{
    if s.len() == 0 {
        seq![seq![]]
    } else {
        let rest = split_on(s.drop_first(), sep);
        if s[0] == sep {
            seq![seq![]] + rest
        } else {
            rest.update(0, seq![s[0]] + rest[0])
        }
    }
}

/// There is always at least one piece.
pub proof fn lemma_split_on_nonempty(s: Seq<char>, sep: char)
    ensures
        split_on(s, sep).len() >= 1,
    decreases s.len(),
{
    if s.len() > 0 {
        lemma_split_on_nonempty(s.drop_first(), sep);
    }
}

spec fn glue(done: Seq<Seq<char>>, cur: Seq<char>, rest: Seq<Seq<char>>) -> Seq<Seq<char>> {
    done.push(cur + rest[0]) + rest.drop_first()
}

/// Splits `s` at every `sep`.
pub fn split_chars(s: &[char], sep: char) -> (pieces: Vec<Vec<char>>)
    ensures
        pieces@.map_values(|p: Vec<char>| p@) == split_on(s@, sep),
{
    let mut pieces: Vec<Vec<char>> = Vec::new();
    let mut cur: Vec<char> = Vec::new();
    let n = s.len();
    let mut i: usize = 0;
    proof {
        lemma_split_on_nonempty(s@, sep);
        assert(s@.skip(0) =~= s@);
    }
    while i < n
        invariant
            n == s@.len(),
            i <= n,
            split_on(s@, sep) == glue(
                pieces@.map_values(|p: Vec<char>| p@),
                cur@,
                split_on(s@.skip(i as int), sep),
            ),
        decreases n - i,
    {
        let c = s[i];
        let ghost tail = s@.skip(i as int);
        let ghost r2 = split_on(s@.skip(i + 1), sep);
        proof {
            assert(tail.drop_first() =~= s@.skip(i + 1));
            lemma_split_on_nonempty(s@.skip(i + 1), sep);
        }
        let ghost cur0 = cur@;
        if c == sep {
            pieces.push(cur);
            cur = Vec::new();
        } else {
            cur.push(c);
            proof {
                assert(cur0 + (seq![c] + r2[0]) =~= cur0.push(c) + r2[0]);
            }
        }
        i += 1;
    }
    pieces.push(cur);
    pieces
}

/// Whether `pat` occurs in `s` at position `i`.
pub open spec fn occurs_at(s: Seq<char>, pat: Seq<char>, i: int) -> bool {
    0 <= i && i + pat.len() <= s.len() && s.subrange(i, i + pat.len()) == pat
}

/// The first position at or after `i` where `pat` occurs in `s`; searched
/// from the start, it is what `str::find` reports (counted in characters).
pub open spec fn first_occurrence_from(s: Seq<char>, pat: Seq<char>, i: int) -> Option<int>
    decreases s.len() + 1 - i,
{
    if i < 0 || i + pat.len() > s.len() {
        None
    } else if occurs_at(s, pat, i) {
        Some(i)
    } else {
        first_occurrence_from(s, pat, i + 1)
    }
}

fn occurs_at_exec(s: &[char], pat: &[char], i: usize) -> (b: bool)
    requires
        i + pat@.len() <= s@.len(),
    ensures
        b == occurs_at(s@, pat@, i as int),
{
    let m = pat.len();
    let slen = s.len();
    let mut k: usize = 0;
    while k < m
        invariant
            slen == s@.len(),
            m == pat@.len(),
            i + m <= s@.len(),
            k <= m,
            forall|j: int| 0 <= j < k ==> s@[i + j] == pat@[j],
        decreases m - k,
    {
        if s[i + k] != pat[k] {
            return false;
        }
        k += 1;
    }
    assert(s@.subrange(i as int, i + m) =~= pat@);
    true
}

/// The first position where `pat` occurs in `s`.
pub fn find_first(s: &[char], pat: &[char]) -> (found: Option<usize>)
    ensures
        match found {
            Some(i) => first_occurrence_from(s@, pat@, 0) == Some(i as int),
            None => first_occurrence_from(s@, pat@, 0) is None,
        },
{
    let slen = s.len();
    if pat.len() > slen {
        return None;
    }
    let last = slen - pat.len();
    let mut i: usize = 0;
    while i <= last
        invariant
            slen == s@.len(),
            last + pat@.len() == s@.len(),
            i <= last + 1,
            first_occurrence_from(s@, pat@, 0) == first_occurrence_from(s@, pat@, i as int),
        decreases last + 1 - i,
    {
        if occurs_at_exec(s, pat, i) {
            return Some(i);
        }
        if i == last {
            return None;
        }
        i += 1;
    }
    None
}

/// The characters of `v` from position `start` on.
pub fn chars_from(v: &[char], start: usize) -> (r: Vec<char>)
    requires
        start <= v@.len(),
    ensures
        r@ == v@.skip(start as int),
{
    let mut r: Vec<char> = Vec::new();
    let n = v.len();
    let mut i: usize = start;
    while i < n
        invariant
            n == v@.len(),
            start <= i <= n,
            r@ == v@.subrange(start as int, i as int),
        decreases n - i,
    {
        r.push(v[i]);
        i += 1;
    }
    r
}

/// A position that the search reports is one where `pat` occurs.
pub proof fn lemma_first_occurrence_occurs(s: Seq<char>, pat: Seq<char>, i: int)
    ensures
        first_occurrence_from(s, pat, i) matches Some(j) ==> i <= j && occurs_at(s, pat, j),
    decreases s.len() + 1 - i,
{
    if 0 <= i && i + pat.len() <= s.len() && !occurs_at(s, pat, i) {
        lemma_first_occurrence_occurs(s, pat, i + 1);
    }
}

/// The code of `c`, with an ASCII capital letter taken as its small form.
pub open spec fn ascii_lower(c: char) -> u32 {
    if 'A' <= c <= 'Z' {
        (c as u32 + 32) as u32
    } else {
        c as u32
    }
}

/// Whether `a` and `b` are equal when ASCII letters are compared without
/// regard to case, as `str::eq_ignore_ascii_case` decides.
pub open spec fn equal_ignoring_ascii_case(a: Seq<char>, b: Seq<char>) -> bool {
    a.len() == b.len() && forall|i: int| 0 <= i < a.len() ==> ascii_lower(a[i]) == ascii_lower(b[i])
}

fn lower_char(c: char) -> (l: u32)
    ensures
        l == ascii_lower(c),
{
    if 'A' <= c && c <= 'Z' {
        c as u32 + 32
    } else {
        c as u32
    }
}

/// Whether `a` and `b` are equal ignoring ASCII case.
pub fn eq_ignore_case(a: &str, b: &str) -> (eq: bool)
    ensures
        eq == equal_ignoring_ascii_case(a@, b@),
{
    let ac = chars_of(a);
    let bc = chars_of(b);
    if ac.len() != bc.len() {
        return false;
    }
    let n = ac.len();
    let mut i: usize = 0;
    while i < n
        invariant
            n == ac@.len(),
            n == bc@.len(),
            ac@ == a@,
            bc@ == b@,
            i <= n,
            forall|j: int| 0 <= j < i ==> ascii_lower(a@[j]) == ascii_lower(b@[j]),
        decreases n - i,
    {
        if lower_char(ac[i]) != lower_char(bc[i]) {
            return false;
        }
        i += 1;
    }
    true
}

} // verus!
