//! The values of the engine's command-line options: window sizes written
//! as `WIDTHxHEIGHT`, `WIDTH,HEIGHT` or `SIZE`, present modes by name, and
//! the graphics backends to force, as a comma-separated list.
use crate::text::{chars_of, decimal, digit_char, find_char_from, lemma_find_char_at, lemma_find_char_none, range_eq};
use vstd::prelude::*;

verus! {

/// Whether `c` is an ASCII digit.
pub open spec fn is_digit(c: char) -> bool {
    '0' <= c <= '9'
}

/// The number the digits `s` spell.
pub open spec fn digits_value(s: Seq<char>) -> int
    decreases s.len(),
{
    if s.len() == 0 {
        0
    } else {
        10 * digits_value(s.drop_last()) + (s.last() as int - '0' as int)
    }
}

/// Whether every character of `d` is a digit.
pub open spec fn all_digits(d: Seq<char>) -> bool {
    forall|i: int| 0 <= i < d.len() ==> is_digit(#[trigger] d[i])
}

/// `s` without one leading `+`.
pub open spec fn unsigned_part(s: Seq<char>) -> Seq<char> {
    if s.len() > 0 && s[0] == '+' {
        s.skip(1)
    } else {
        s
    }
}

/// The `u32` a text spells: an optional `+` followed by one or more
/// digits whose value fits into 32 bits; `None` for anything else.
pub open spec fn parse_u32_spec(s: Seq<char>) -> Option<u32> {
    let d = unsigned_part(s);
    if d.len() > 0 && all_digits(d) && digits_value(d) <= u32::MAX {
        Some(digits_value(d) as u32)
    } else {
        None
    }
}

proof fn lemma_digits_monotone(s: Seq<char>, k: int)
    requires
        0 <= k <= s.len(),
        forall|i: int| 0 <= i < s.len() ==> is_digit(#[trigger] s[i]),
    ensures
        0 <= digits_value(s.take(k)) <= digits_value(s),
    decreases s.len() - k,
{
    if k < s.len() {
        lemma_digits_monotone(s, k + 1);
        assert(s.take(k + 1).drop_last() =~= s.take(k));
        assert(is_digit(s[k]));
    } else {
        assert(s.take(k) =~= s);
    }
    lemma_digits_nonneg(s.take(k));
}

proof fn lemma_digits_nonneg(s: Seq<char>)
    requires
        forall|i: int| 0 <= i < s.len() ==> is_digit(#[trigger] s[i]),
    ensures
        0 <= digits_value(s),
    decreases s.len(),
{
    if s.len() > 0 {
        lemma_digits_nonneg(s.drop_last());
        assert(is_digit(s[s.len() - 1]));
    }
}

/// The `u32` the characters `chars[start..end]` spell (see
/// [`parse_u32_spec`]).
pub fn parse_u32(chars: &Vec<char>, start: usize, end: usize) -> (r: Option<u32>)
    requires
        start <= end <= chars.len(),
    ensures
        r == parse_u32_spec(chars@.subrange(start as int, end as int)),
{
    let ghost s = chars@.subrange(start as int, end as int);
    let mut i = start;
    if i < end && chars[i] == '+' {
        i += 1;
    }
    let ghost d = chars@.subrange(i as int, end as int);
    assert(d =~= unsigned_part(s));
    if i == end {
        return None;
    }
    let first = i;
    let mut value: u64 = 0;
    while i < end
        invariant
            start <= first <= i <= end <= chars.len(),
            s == chars@.subrange(start as int, end as int),
            d == chars@.subrange(first as int, end as int),
            d == unsigned_part(s),
            forall|k: int| first <= k < i ==> is_digit(#[trigger] chars@[k]),
            value == digits_value(chars@.subrange(first as int, i as int)),
            value <= u32::MAX,
        decreases end - i,
    {
        let c = chars[i];
        if !('0' <= c && c <= '9') {
            assert(!is_digit(d[i - first]));
            assert(!all_digits(d));
            return None;
        }
        let digit = (c as u32 - '0' as u32) as u64;
        assert(chars@.subrange(first as int, i + 1).drop_last() =~= chars@.subrange(first as int, i as int));
        let next = value * 10 + digit;
        if next > u32::MAX as u64 {
            proof {
                let t = chars@.subrange(first as int, i + 1);
                assert(t.drop_last() =~= chars@.subrange(first as int, i as int));
                assert(digits_value(t) == next);
                if all_digits(d) {
                    lemma_digits_monotone(d, (i + 1 - first) as int);
                    assert(d.take((i + 1 - first) as int) =~= t);
                }
            }
            return None;
        }
        value = next;
        i += 1;
    }
    assert(chars@.subrange(first as int, end as int) =~= d);
    Some(value as u32)
}

/// The first piece of `s` split at `sep`: everything before the first
/// `sep`, or all of `s`.
pub open spec fn first_piece(s: Seq<char>, sep: char) -> Seq<char> {
    match find_char_from(s, sep, 0) {
        Some(i) => s.take(i),
        None => s,
    }
}

/// The second piece of `s` split at `sep`, if `s` has a `sep`: everything
/// between the first and the second `sep`, or to the end.
pub open spec fn second_piece(s: Seq<char>, sep: char) -> Option<Seq<char>> {
    match find_char_from(s, sep, 0) {
        Some(i) => Some(
            match find_char_from(s, sep, i + 1) {
                Some(j) => s.subrange(i + 1, j),
                None => s.skip(i + 1),
            },
        ),
        None => None,
    }
}

/// The window size a text asks for: width and height split at `x` when it
/// has one and at `,` otherwise, a missing or unreadable height taken to
/// be the width; `None` when the width cannot be read. Pieces after the
/// second are ignored.
pub open spec fn window_size_spec(s: Seq<char>) -> Option<(u32, u32)> {
    let sep = if find_char_from(s, 'x', 0) is Some {
        'x'
    } else {
        ','
    };
    let x = parse_u32_spec(first_piece(s, sep));
    let y = match second_piece(s, sep) {
        Some(p) => parse_u32_spec(p),
        None => None,
    };
    match (x, y) {
        (Some(w), Some(h)) => Some((w, h)),
        (Some(w), None) => Some((w, w)),
        _ => None,
    }
}

proof fn lemma_find_char_bounds(s: Seq<char>, c: char, k: int)
    requires
        0 <= k,
    ensures
        find_char_from(s, c, k) matches Some(i) ==> k <= i < s.len() && s[i] == c,
    decreases s.len() - k,
{
    if k < s.len() && s[k] != c {
        lemma_find_char_bounds(s, c, k + 1);
    }
}

fn find_char(chars: &Vec<char>, c: char, from: usize) -> (r: Option<usize>)
    requires
        from <= chars.len(),
    ensures
        match r {
            Some(i) => find_char_from(chars@, c, from as int) == Some(i as int),
            None => find_char_from(chars@, c, from as int) is None,
        },
{
    let mut i = from;
    while i < chars.len()
        invariant
            from <= i <= chars.len(),
            find_char_from(chars@, c, from as int) == find_char_from(chars@, c, i as int),
        decreases chars.len() - i,
    {
        if chars[i] == c {
            return Some(i);
        }
        i += 1;
    }
    None
}

/// The window size `size` asks for (see [`window_size_spec`]).
pub fn window_size(size: &str) -> (r: Option<(u32, u32)>)
    ensures
        r == window_size_spec(size@),
{
    let chars = chars_of(size);
    let sep = if find_char(&chars, 'x', 0).is_some() {
        'x'
    } else {
        ','
    };
    let first_sep = find_char(&chars, sep, 0);
    proof {
        lemma_find_char_bounds(chars@, sep, 0);
    }
    let x = match first_sep {
        Some(i) => parse_u32(&chars, 0, i),
        None => parse_u32(&chars, 0, chars.len()),
    };
    proof {
        if let Some(i) = first_sep {
            assert(chars@.subrange(0, i as int) =~= chars@.take(i as int));
        } else {
            assert(chars@.subrange(0, chars@.len() as int) =~= chars@);
        }
    }
    let y = match first_sep {
        Some(i) => {
            proof {
                lemma_find_char_bounds(chars@, sep, i + 1);
            }
            match find_char(&chars, sep, i + 1) {
                Some(j) => parse_u32(&chars, i + 1, j),
                None => {
                    assert(chars@.subrange(i + 1, chars@.len() as int) =~= chars@.skip(i + 1));
                    parse_u32(&chars, i + 1, chars.len())
                },
            }
        },
        None => None,
    };
    match (x, y) {
        (Some(w), Some(h)) => Some((w, h)),
        (Some(w), None) => Some((w, w)),
        _ => None,
    }
}

/// The window size used when none was asked for, or the one asked for.
pub fn default_window_size(asked: Option<Option<(u32, u32)>>) -> (r: (u32, u32))
    ensures
        r == match asked {
            Some(Some(s)) => s,
            _ => (800u32, 600u32),
        },
{
    match asked {
        Some(Some(s)) => s,
        _ => (800, 600),
    }
}

/// The ways frames can be presented.
#[derive(Debug, Copy, Clone, PartialEq, Eq, Structural)]
pub enum PresentModeChoice {
    AutoVsync,
    AutoNoVsync,
    Fifo,
    FifoRelaxed,
    Mailbox,
    Immediate,
}

/// The present mode a name selects; `None` for a name no mode has.
pub open spec fn present_mode_spec(name: Seq<char>) -> Option<PresentModeChoice> {
    if name == "vsync"@ {
        Some(PresentModeChoice::AutoVsync)
    } else if name == "no_vsync"@ {
        Some(PresentModeChoice::AutoNoVsync)
    } else if name == "fifo"@ {
        Some(PresentModeChoice::Fifo)
    } else if name == "fifo_relaxed"@ {
        Some(PresentModeChoice::FifoRelaxed)
    } else if name == "mailbox"@ {
        Some(PresentModeChoice::Mailbox)
    } else if name == "immediate"@ {
        Some(PresentModeChoice::Immediate)
    } else {
        None
    }
}

/// The present mode `mode` names (see [`present_mode_spec`]).
pub fn present_mode(mode: &str) -> (r: Option<PresentModeChoice>)
    ensures
        r == present_mode_spec(mode@),
{
    let chars = chars_of(mode);
    let n = chars.len();
    if range_eq(&chars, 0, n, "vsync") {
        assert(chars@.subrange(0, n as int) =~= mode@);
        Some(PresentModeChoice::AutoVsync)
    } else if range_eq(&chars, 0, n, "no_vsync") {
        assert(chars@.subrange(0, n as int) =~= mode@);
        Some(PresentModeChoice::AutoNoVsync)
    } else if range_eq(&chars, 0, n, "fifo") {
        assert(chars@.subrange(0, n as int) =~= mode@);
        Some(PresentModeChoice::Fifo)
    } else if range_eq(&chars, 0, n, "fifo_relaxed") {
        assert(chars@.subrange(0, n as int) =~= mode@);
        Some(PresentModeChoice::FifoRelaxed)
    } else if range_eq(&chars, 0, n, "mailbox") {
        assert(chars@.subrange(0, n as int) =~= mode@);
        Some(PresentModeChoice::Mailbox)
    } else if range_eq(&chars, 0, n, "immediate") {
        assert(chars@.subrange(0, n as int) =~= mode@);
        Some(PresentModeChoice::Immediate)
    } else {
        assert(chars@.subrange(0, n as int) =~= mode@);
        None
    }
}

proof fn lemma_digit_char_value(k: nat)
    requires
        k < 10,
    ensures
        digit_char(k) as int - '0' as int == k,
        is_digit(digit_char(k)),
{
}

proof fn lemma_decimal_digits(n: nat)
    ensures
        decimal(n).len() > 0,
        all_digits(decimal(n)),
        digits_value(decimal(n)) == n,
    decreases n,
{
    lemma_digit_char_value(n % 10);
    if n < 10 {
        let d = decimal(n);
        assert(d.drop_last() =~= Seq::<char>::empty());
        assert(digits_value(d.drop_last()) == 0);
        assert(d.last() == digit_char(n));
        assert(n % 10 == n);
    } else {
        lemma_decimal_digits(n / 10);
        let d = decimal(n);
        assert(d.drop_last() =~= decimal(n / 10));
        assert(d.last() == digit_char(n % 10));
        assert(n == 10 * (n / 10) + n % 10);
        assert forall|i: int| 0 <= i < d.len() implies is_digit(#[trigger] d[i]) by {
            if i < d.len() - 1 {
                assert(d[i] == decimal(n / 10)[i]);
            }
        }
    }
}

proof fn lemma_parse_decimal(n: u32)
    ensures
        parse_u32_spec(decimal(n as nat)) == Some(n),
        forall|i: int| 0 <= i < decimal(n as nat).len() ==> is_digit(#[trigger] decimal(n as nat)[i]),
{
    lemma_decimal_digits(n as nat);
    let d = decimal(n as nat);
    assert(is_digit(d[0]));
    assert(unsigned_part(d) == d);
}

/// A window size written as `WIDTHxHEIGHT` in decimal reads back as that
/// width and height, and one written as `SIZE` as a square of that size.
pub proof fn lemma_window_size_round_trip(w: u32, h: u32)
    ensures
        window_size_spec(decimal(w as nat) + seq!['x'] + decimal(h as nat)) == Some((w, h)),
        window_size_spec(decimal(w as nat)) == Some((w, w)),
{
    lemma_parse_decimal(w);
    lemma_parse_decimal(h);
    let dw = decimal(w as nat);
    let dh = decimal(h as nat);
    let s = dw + seq!['x'] + dh;
    assert forall|j: int| 0 <= j < dw.len() implies s[j] != 'x' by {
        assert(s[j] == dw[j]);
        assert(is_digit(dw[j]));
    }
    lemma_find_char_at(s, 'x', 0, dw.len() as int);
    assert forall|j: int| dw.len() + 1 <= j < s.len() implies s[j] != 'x' by {
        assert(s[j] == dh[j - dw.len() - 1]);
        assert(is_digit(dh[j - dw.len() - 1]));
    }
    lemma_find_char_none(s, 'x', dw.len() as int + 1);
    assert(s.take(dw.len() as int) =~= dw);
    assert(s.skip(dw.len() as int + 1) =~= dh);
    assert forall|j: int| 0 <= j < dw.len() implies dw[j] != 'x' && dw[j] != ',' by {
        assert(is_digit(dw[j]));
    }
    lemma_find_char_none(dw, 'x', 0);
    lemma_find_char_none(dw, ',', 0);
}

/// The backend flags `wgpu::Backends::from_comma_list` gives for the
/// comma-separated list `list`, as their bits.
pub uninterp spec fn backends_from_list(list: Seq<char>) -> u32;

/// Calls `wgpu::Backends::from_comma_list` on `list` and returns the bits
/// of the flags it gives. The contract claims only that the result is a
/// function of the list's text: the flags of the backend names it
/// contains, whatever their case and surrounding spaces (per the crate's
/// documentation), which the library does not restate.
#[verifier::external_body]
fn backend_bits(list: &str) -> (r: u32)
    ensures
        r == backends_from_list(list@),
{
    wgpu::Backends::from_comma_list(list).bits()
}

/// The single flags set in `bits` below bit `n`, lowest first.
pub open spec fn flag_bits(bits: u32, n: nat) -> Seq<u32>
    decreases n,
{
    if n == 0 {
        seq![]
    } else {
        let k = (n - 1) as u32;
        let prev = flag_bits(bits, (n - 1) as nat);
        if bits & (1u32 << k) != 0 {
            prev.push(1u32 << k)
        } else {
            prev
        }
    }
}

/// `flags` lists the flags set in `bits`: each entry is a single flag set
/// in `bits`, each flag set in `bits` is listed, and none twice.
pub open spec fn lists_flags(bits: u32, flags: Seq<u32>) -> bool {
    &&& forall|i: int|
        0 <= i < flags.len() ==> exists|k: u32| k < 32 && (1u32 << k) == #[trigger] flags[i] && bits & flags[i] != 0
    &&& forall|k: u32| k < 32 && bits & (1u32 << k) != 0 ==> #[trigger] flags.contains(1u32 << k)
    &&& flags.no_duplicates()
}

proof fn lemma_single_flag(k: u32)
    by (bit_vector)
    requires
        k < 32,
    ensures
        (1u32 << k) as u64 == 1u64 << (k as u64),
        (1u64 << (k as u64)) < 1u64 << ((k + 1) as u64),
{
}

/// The flags below bit `n` are single flags of `bits`, each listed once,
/// in increasing order.
proof fn lemma_flag_bits(bits: u32, n: nat)
    requires
        n <= 32,
    ensures
        ({
            let s = flag_bits(bits, n);
            &&& forall|i: int|
                0 <= i < s.len() ==> exists|k: u32| k < n && (1u32 << k) == #[trigger] s[i] && bits & s[i] != 0
            &&& forall|i: int| 0 <= i < s.len() ==> (#[trigger] s[i] as u64) < 1u64 << (n as u64)
            &&& forall|i: int, j: int| 0 <= i < j < s.len() ==> s[i] < s[j]
            &&& forall|k: u32| k < n && bits & (1u32 << k) != 0 ==> #[trigger] s.contains(1u32 << k)
        }),
    decreases n,
{
    if n > 0 {
        let k = (n - 1) as u32;
        lemma_flag_bits(bits, (n - 1) as nat);
        lemma_single_flag(k);
        let prev = flag_bits(bits, (n - 1) as nat);
        let s = flag_bits(bits, n);
        let x = 1u32 << k;
        assert((k + 1) as u64 == n as u64);
        if bits & x != 0 {
            assert(s == prev.push(x));
            assert forall|i: int| 0 <= i < s.len() implies exists|k2: u32|
                k2 < n && (1u32 << k2) == #[trigger] s[i] && bits & s[i] != 0 by {
                if i < prev.len() {
                    assert(s[i] == prev[i]);
                    let k2 = choose|k2: u32| k2 < n - 1 && (1u32 << k2) == prev[i] && bits & prev[i] != 0;
                    assert(k2 < n && (1u32 << k2) == s[i] && bits & s[i] != 0);
                } else {
                    assert(s[i] == x);
                }
            }
            assert forall|i: int| 0 <= i < s.len() implies (#[trigger] s[i] as u64) < 1u64 << (n as u64) by {
                if i < prev.len() {
                    assert(s[i] == prev[i]);
                }
            }
            assert forall|i: int, j: int| 0 <= i < j < s.len() implies s[i] < s[j] by {
                if j == prev.len() {
                    assert(s[i] == prev[i] && (prev[i] as u64) < 1u64 << (k as u64));
                } else {
                    assert(s[i] == prev[i] && s[j] == prev[j]);
                }
            }
            assert forall|k2: u32| k2 < n && bits & (1u32 << k2) != 0 implies #[trigger] s.contains(1u32 << k2) by {
                if k2 < k {
                    assert(prev.contains(1u32 << k2));
                    let i = choose|i: int| 0 <= i < prev.len() && prev[i] == 1u32 << k2;
                    assert(s[i] == prev[i]);
                } else {
                    assert(s[prev.len() as int] == x);
                }
            }
        } else {
            assert(s == prev);
            assert forall|i: int| 0 <= i < s.len() implies exists|k2: u32|
                k2 < n && (1u32 << k2) == #[trigger] s[i] && bits & s[i] != 0 by {
                let k2 = choose|k2: u32| k2 < n - 1 && (1u32 << k2) == prev[i] && bits & prev[i] != 0;
                assert(k2 < n && (1u32 << k2) == s[i] && bits & s[i] != 0);
            }
        }
    }
}

/// The backends a `--force-backend` list asks for: `None` when it names
/// none, else each backend flag it names, once, lowest bit first.
pub fn forced_backends(list: &str) -> (r: Option<Vec<u32>>)
    ensures
        r is None <==> backends_from_list(list@) == 0,
        r matches Some(v) ==> v@ == flag_bits(backends_from_list(list@), 32) && lists_flags(
            backends_from_list(list@),
            v@,
        ),
{
    let bits = backend_bits(list);
    if bits == 0 {
        return None;
    }
    let mut v: Vec<u32> = Vec::new();
    let mut i: u32 = 0;
    while i < 32
        invariant
            i <= 32,
            v@ == flag_bits(bits, i as nat),
        decreases 32 - i,
    {
        let f = 1u32 << i;
        if bits & f != 0 {
            v.push(f);
        }
        i += 1;
    }
    proof {
        lemma_flag_bits(bits, 32);
        let s = v@;
        assert forall|a: int, b: int| 0 <= a < s.len() && 0 <= b < s.len() && a != b implies s[a] != s[b] by {
            if a < b {
                assert(s[a] < s[b]);
            } else {
                assert(s[b] < s[a]);
            }
        }
    }
    Some(v)
}

} // verus!
