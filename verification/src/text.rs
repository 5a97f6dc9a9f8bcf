//! Character-level text helpers shared by the shader generator and the
//! argument parsers: decimal rendering, line splitting, substring search
//! and whitespace trimming, each stated over `Seq<char>`.
use vstd::prelude::*;
use vstd::string::StringExecFns;

verus! {

// ---------------------------------------------------------------------------
// Specifications
// ---------------------------------------------------------------------------

/// The decimal digit character for `d` (`d < 10`).
pub open spec fn digit_char(d: nat) -> char {
    if d == 0 {
        '0'
    } else if d == 1 {
        '1'
    } else if d == 2 {
        '2'
    } else if d == 3 {
        '3'
    } else if d == 4 {
        '4'
    } else if d == 5 {
        '5'
    } else if d == 6 {
        '6'
    } else if d == 7 {
        '7'
    } else if d == 8 {
        '8'
    } else {
        '9'
    }
}

/// Decimal rendering of a natural number, most significant digit first,
/// without leading zeros (as `Display` renders unsigned integers).
pub open spec fn decimal(n: nat) -> Seq<char>
    decreases n,
{
    if n < 10 {
        seq![digit_char(n)]
    } else {
        decimal(n / 10).push(digit_char(n % 10))
    }
}

/// First index `>= k` at which `c` occurs in `s`.
pub open spec fn find_char_from(s: Seq<char>, c: char, k: int) -> Option<int>
    decreases s.len() - k,
{
    if k < 0 || k >= s.len() {
        None
    } else if s[k] == c {
        Some(k)
    } else {
        find_char_from(s, c, k + 1)
    }
}

/// `s` without one trailing carriage return, if it has one.
pub open spec fn strip_cr(s: Seq<char>) -> Seq<char> {
    if s.len() > 0 && s.last() == '\r' {
        s.drop_last()
    } else {
        s
    }
}

/// The lines of `s` as `str::lines` yields them: split at `\n`, a `\r`
/// directly before a `\n` removed, and no empty line after a final `\n`.
pub open spec fn lines_of(s: Seq<char>) -> Seq<Seq<char>>
    decreases s.len(),
{
    if s.len() == 0 {
        seq![]
    } else {
        match find_char_from(s, '\n', 0) {
            None => seq![s],
            Some(i) => if 0 <= i < s.len() {
                seq![strip_cr(s.subrange(0, i))] + lines_of(s.subrange(i + 1, s.len() as int))
            } else {
                seq![]
            },
        }
    }
}

/// `p` occurs in `s` starting at index `i`.
pub open spec fn matches_at(s: Seq<char>, p: Seq<char>, i: int) -> bool {
    0 <= i && i + p.len() <= s.len() && s.subrange(i, i + p.len()) == p
}

/// First index `>= k` at which `p` occurs in `s`.
pub open spec fn find_from(s: Seq<char>, p: Seq<char>, k: int) -> Option<int>
    decreases s.len() + 1 - k,
{
    if k < 0 || k + p.len() > s.len() {
        None
    } else if matches_at(s, p, k) {
        Some(k)
    } else {
        find_from(s, p, k + 1)
    }
}

/// First index at which `p` occurs in `s` (`str::find`).
pub open spec fn find(s: Seq<char>, p: Seq<char>) -> Option<int> {
    find_from(s, p, 0)
}

/// `p` occurs somewhere in `s` (`str::contains`).
pub open spec fn contains(s: Seq<char>, p: Seq<char>) -> bool {
    find(s, p) is Some
}

/// A character with the Unicode `White_Space` property (`char::is_whitespace`).
pub open spec fn is_ws(c: char) -> bool {
    c == ' ' || c == '\t' || c == '\n' || c == '\r' || c == '\u{0B}' || c == '\u{0C}'
        || c == '\u{85}' || c == '\u{A0}' || c == '\u{1680}' || ('\u{2000}' <= c
        && c <= '\u{200A}') || c == '\u{2028}' || c == '\u{2029}' || c == '\u{202F}'
        || c == '\u{205F}' || c == '\u{3000}'
}

/// `s` without leading whitespace.
pub open spec fn trim_start(s: Seq<char>) -> Seq<char>
    decreases s.len(),
{
    if s.len() > 0 && is_ws(s[0]) {
        trim_start(s.drop_first())
    } else {
        s
    }
}

/// `s` without trailing whitespace.
pub open spec fn trim_end(s: Seq<char>) -> Seq<char>
    decreases s.len(),
{
    if s.len() > 0 && is_ws(s.last()) {
        trim_end(s.drop_last())
    } else {
        s
    }
}

/// `s` without leading and trailing whitespace (`str::trim`).
pub open spec fn trim(s: Seq<char>) -> Seq<char> {
    trim_end(trim_start(s))
}

// ---------------------------------------------------------------------------
// Lemmas
// ---------------------------------------------------------------------------

pub proof fn lemma_find_char_none(s: Seq<char>, c: char, k: int)
    requires
        0 <= k <= s.len(),
        forall|j: int| k <= j < s.len() ==> s[j] != c,
    ensures
        find_char_from(s, c, k) is None,
    decreases s.len() - k,
{
    if k < s.len() {
        lemma_find_char_none(s, c, k + 1);
    }
}

pub proof fn lemma_find_char_at(s: Seq<char>, c: char, k: int, i: int)
    requires
        0 <= k <= i < s.len(),
        s[i] == c,
        forall|j: int| k <= j < i ==> s[j] != c,
    ensures
        find_char_from(s, c, k) == Some(i),
    decreases i - k,
{
    if k < i {
        lemma_find_char_at(s, c, k + 1, i);
    }
}

/// `find_from` starting at `k` skips positions where `p` is known not to occur.
proof fn lemma_find_from_skip(s: Seq<char>, p: Seq<char>, k: int, m: int)
    requires
        0 <= k <= m,
        forall|j: int| k <= j < m ==> !matches_at(s, p, j),
    ensures
        find_from(s, p, k) == find_from(s, p, m),
    decreases m - k,
{
    if k < m {
        if k + p.len() > s.len() {
            assert(find_from(s, p, m) is None) by {
                lemma_find_from_past_end(s, p, m);
            }
        } else {
            lemma_find_from_skip(s, p, k + 1, m);
        }
    }
}

/// A position `find_from` reports is a match at or after the start.
pub proof fn lemma_find_from_some(s: Seq<char>, p: Seq<char>, k: int)
    requires
        find_from(s, p, k) is Some,
    ensures
        matches_at(s, p, find_from(s, p, k)->0),
        k <= find_from(s, p, k)->0,
    decreases s.len() + 1 - k,
{
    if !(k < 0 || k + p.len() > s.len()) && !matches_at(s, p, k) {
        lemma_find_from_some(s, p, k + 1);
    }
}

proof fn lemma_find_from_past_end(s: Seq<char>, p: Seq<char>, k: int)
    requires
        k + p.len() > s.len(),
    ensures
        find_from(s, p, k) is None,
{
}

// ---------------------------------------------------------------------------
// Executable helpers
// ---------------------------------------------------------------------------

/// Appends one character. Calls `String::push`; the contract claims, as
/// std documents, that the string afterwards is the old one followed by `c`.
#[verifier::external_body]
fn push_char(out: &mut String, c: char)
    ensures
        final(out)@ == old(out)@.push(c),
{
    out.push(c);
}

/// The characters of `s`, in order.
pub fn chars_of(s: &str) -> (v: Vec<char>)
    ensures
        v@ == s@,
{
    let mut v: Vec<char> = Vec::new();
    for c in it: s.chars()
        invariant
            v@ == it.seq().take(it.index() as int),
    {
        v.push(c);
    }
    v
}

/// A `String` holding the characters `chars[start..end]`.
pub fn push_range(out: &mut String, chars: &Vec<char>, start: usize, end: usize)
    requires
        start <= end <= chars.len(),
    ensures
        final(out)@ == old(out)@ + chars@.subrange(start as int, end as int),
{
    let mut i = start;
    while i < end
        invariant
            start <= i <= end <= chars.len(),
            out@ == old(out)@ + chars@.subrange(start as int, i as int),
        decreases end - i,
    {
        push_char(out, chars[i]);
        assert(chars@.subrange(start as int, i + 1) =~= chars@.subrange(start as int, i as int).push(
            chars@[i as int],
        ));
        i += 1;
    }
}

fn digit_str(d: u32) -> (s: &'static str)
    requires
        d < 10,
    ensures
        s@ == seq![digit_char(d as nat)],
{
    proof {
        reveal_strlit("0");
        reveal_strlit("1");
        reveal_strlit("2");
        reveal_strlit("3");
        reveal_strlit("4");
        reveal_strlit("5");
        reveal_strlit("6");
        reveal_strlit("7");
        reveal_strlit("8");
        reveal_strlit("9");
    }
    if d == 0 {
        "0"
    } else if d == 1 {
        "1"
    } else if d == 2 {
        "2"
    } else if d == 3 {
        "3"
    } else if d == 4 {
        "4"
    } else if d == 5 {
        "5"
    } else if d == 6 {
        "6"
    } else if d == 7 {
        "7"
    } else if d == 8 {
        "8"
    } else {
        "9"
    }
}

/// Appends the decimal rendering of `n` to `out`.
pub fn push_decimal(out: &mut String, n: u32)
    ensures
        final(out)@ == old(out)@ + decimal(n as nat),
    decreases n,
{
    if n < 10 {
        out.append(digit_str(n));
    } else {
        push_decimal(out, n / 10);
        out.append(digit_str(n % 10));
    }
}

/// The half-open character ranges of the lines of `chars` (see [`lines_of`]).
pub fn line_ranges(chars: &Vec<char>) -> (r: Vec<(usize, usize)>)
    ensures
        ranges_match(chars@, r@),
{
    let n = chars.len();
    let mut r: Vec<(usize, usize)> = Vec::new();
    let mut start: usize = 0;
    let mut i: usize = 0;
    assert(chars@.subrange(0, n as int) =~= chars@);
    assert(lines_of_ranges(chars@, r@) =~= Seq::<Seq<char>>::empty());
    assert(lines_of(chars@) =~= lines_of_ranges(chars@, r@) + lines_of(chars@));
    while i < n
        invariant
            n == chars.len(),
            start <= i <= n,
            forall|j: int| start <= j < i ==> chars@[j] != '\n',
            lines_of(chars@) == lines_of_ranges(chars@, r@) + lines_of(
                chars@.subrange(start as int, n as int),
            ),
            forall|k: int|
                0 <= k < r@.len() ==> (#[trigger] r@[k]).0 <= r@[k].1 <= chars@.len(),
        decreases n - i,
    {
        if chars[i] == '\n' {
            let ghost rest = chars@.subrange(start as int, n as int);
            proof {
                lemma_find_char_at(rest, '\n', 0, i - start);
                assert(rest.subrange(0, i - start) =~= chars@.subrange(start as int, i as int));
                assert(rest.subrange(i - start + 1, rest.len() as int) =~= chars@.subrange(
                    i + 1,
                    n as int,
                ));
            }
            let end = if i > start && chars[i - 1] == '\r' {
                i - 1
            } else {
                i
            };
            proof {
                let line = chars@.subrange(start as int, i as int);
                assert(strip_cr(line) =~= chars@.subrange(start as int, end as int));
                lemma_lines_of_ranges_push(chars@, r@, (start, end));
            }
            r.push((start, end));
            start = i + 1;
        }
        i += 1;
    }
    proof {
        let rest = chars@.subrange(start as int, n as int);
        if rest.len() > 0 {
            lemma_find_char_none(rest, '\n', 0);
            lemma_lines_of_ranges_push(chars@, r@, (start, n));
            assert(rest =~= chars@.subrange(start as int, n as int));
        } else {
            assert(lines_of(rest) =~= Seq::<Seq<char>>::empty());
        }
    }
    if start < n {
        r.push((start, n));
    }
    proof {
        assert(lines_of(chars@) =~= lines_of_ranges(chars@, r@)) by {
            if start < n {
            } else {
                assert(lines_of_ranges(chars@, r@) + Seq::<Seq<char>>::empty() =~= lines_of_ranges(chars@, r@));
            }
        }
    }
    r
}

/// `r` holds the character ranges of the lines of `s`.
pub open spec fn ranges_match(s: Seq<char>, r: Seq<(usize, usize)>) -> bool {
    &&& r.len() == lines_of(s).len()
    &&& forall|k: int|
        0 <= k < r.len() ==> {
            &&& (#[trigger] r[k]).0 <= r[k].1 <= s.len()
            &&& lines_of(s)[k] == s.subrange(r[k].0 as int, r[k].1 as int)
        }
}

/// The texts of the character ranges `r` within `s`.
pub open spec fn lines_of_ranges(s: Seq<char>, r: Seq<(usize, usize)>) -> Seq<Seq<char>> {
    r.map_values(|p: (usize, usize)| s.subrange(p.0 as int, p.1 as int))
}

proof fn lemma_lines_of_ranges_push(s: Seq<char>, r: Seq<(usize, usize)>, p: (usize, usize))
    ensures
        lines_of_ranges(s, r.push(p)) == lines_of_ranges(s, r).push(
            s.subrange(p.0 as int, p.1 as int),
        ),
{
    assert(lines_of_ranges(s, r.push(p)) =~= lines_of_ranges(s, r).push(
        s.subrange(p.0 as int, p.1 as int),
    ));
}

/// `chars[start..end]` equals the characters of `lit`.
pub fn range_eq(chars: &Vec<char>, start: usize, end: usize, lit: &str) -> (b: bool)
    requires
        start <= end <= chars.len(),
    ensures
        b == (chars@.subrange(start as int, end as int) == lit@),
{
    let l = chars_of(lit);
    if end - start != l.len() {
        return false;
    }
    let mut i: usize = 0;
    while i < l.len()
        invariant
            start <= end <= chars.len(),
            end - start == l.len(),
            l@ == lit@,
            i <= l.len(),
            forall|j: int| 0 <= j < i ==> chars@[start + j] == l@[j],
        decreases l.len() - i,
    {
        if chars[start + i] != l[i] {
            assert(chars@.subrange(start as int, end as int)[i as int] != l@[i as int]);
            return false;
        }
        i += 1;
    }
    assert(chars@.subrange(start as int, end as int) =~= l@);
    true
}

/// Whether `p` occurs in `chars` at index `i`.
pub fn matches_at_exec(chars: &Vec<char>, p: &Vec<char>, i: usize) -> (b: bool)
    requires
        i <= chars.len(),
    ensures
        b == matches_at(chars@, p@, i as int),
{
    if p.len() > chars.len() - i {
        return false;
    }
    let mut j: usize = 0;
    while j < p.len()
        invariant
            i + p.len() <= chars.len(),
            j <= p.len(),
            forall|k: int| 0 <= k < j ==> chars@[i + k] == p@[k],
        decreases p.len() - j,
    {
        if chars[i + j] != p[j] {
            assert(chars@.subrange(i as int, i + p.len())[j as int] != p@[j as int]);
            return false;
        }
        j += 1;
    }
    assert(chars@.subrange(i as int, i + p.len()) =~= p@);
    true
}

/// First index at which `p` occurs in `chars[from..]` (see [`find_from`]).
pub fn find_exec(chars: &Vec<char>, p: &Vec<char>, from: usize) -> (r: Option<usize>)
    requires
        from <= chars.len(),
    ensures
        match r {
            Some(i) => find_from(chars@, p@, from as int) == Some(i as int),
            None => find_from(chars@, p@, from as int) is None,
        },
{
    if p.len() > chars.len() - from {
        return None;
    }
    let limit = chars.len() - p.len();
    let mut i = from;
    while i < limit
        invariant
            from <= i <= limit,
            limit + p.len() == chars.len(),
            forall|j: int| from <= j < i ==> !matches_at(chars@, p@, j),
        decreases limit - i,
    {
        if matches_at_exec(chars, p, i) {
            proof {
                lemma_find_from_skip(chars@, p@, from as int, i as int);
            }
            return Some(i);
        }
        i += 1;
    }
    proof {
        lemma_find_from_skip(chars@, p@, from as int, i as int);
    }
    if matches_at_exec(chars, p, i) {
        return Some(i);
    }
    proof {
        lemma_find_from_past_end(chars@, p@, i + 1);
    }
    None
}

/// Whether the text `s` contains `p` (`str::contains`).
pub fn str_contains(s: &str, p: &str) -> (b: bool)
    ensures
        b == contains(s@, p@),
{
    let c = chars_of(s);
    let pc = chars_of(p);
    find_exec(&c, &pc, 0).is_some()
}

/// Whether `c` has the Unicode `White_Space` property.
pub fn is_ws_exec(c: char) -> (b: bool)
    ensures
        b == is_ws(c),
{
    c == ' ' || c == '\t' || c == '\n' || c == '\r' || c == '\u{0B}' || c == '\u{0C}'
        || c == '\u{85}' || c == '\u{A0}' || c == '\u{1680}' || ('\u{2000}' <= c
        && c <= '\u{200A}') || c == '\u{2028}' || c == '\u{2029}' || c == '\u{202F}'
        || c == '\u{205F}' || c == '\u{3000}'
}

/// The range of `chars[start..end]` that remains after trimming whitespace.
pub fn trim_range(chars: &Vec<char>, start: usize, end: usize) -> (r: (usize, usize))
    requires
        start <= end <= chars.len(),
    ensures
        start <= r.0 <= r.1 <= end,
        chars@.subrange(r.0 as int, r.1 as int) == trim(
            chars@.subrange(start as int, end as int),
        ),
{
    let mut a = start;
    while a < end && is_ws_exec(chars[a])
        invariant
            start <= a <= end <= chars.len(),
            trim_start(chars@.subrange(start as int, end as int)) == trim_start(
                chars@.subrange(a as int, end as int),
            ),
        decreases end - a,
    {
        assert(chars@.subrange(a as int, end as int).drop_first() =~= chars@.subrange(
            a + 1,
            end as int,
        ));
        a += 1;
    }
    proof {
        if a < end {
            assert(chars@.subrange(a as int, end as int)[0] == chars@[a as int]);
        }
    }
    let mut b = end;
    while b > a && is_ws_exec(chars[b - 1])
        invariant
            start <= a <= b <= end <= chars.len(),
            trim_end(chars@.subrange(a as int, end as int)) == trim_end(
                chars@.subrange(a as int, b as int),
            ),
        decreases b - a,
    {
        assert(chars@.subrange(a as int, b as int).drop_last() =~= chars@.subrange(
            a as int,
            b - 1,
        ));
        b -= 1;
    }
    proof {
        if b > a {
            assert(chars@.subrange(a as int, b as int).last() == chars@[b - 1]);
        }
    }
    (a, b)
}

} // verus!
