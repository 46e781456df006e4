//! Reading the prober's answer: the container duration printed as a bare
//! decimal number of seconds, taken as whole milliseconds rounded up.
use vstd::prelude::*;

verus! {

/// A decimal digit.
pub open spec fn is_digit(c: char) -> bool {
    '0' <= c && c <= '9'
}

/// Decimal digits only.
pub open spec fn all_digits(s: Seq<char>) -> bool {
    forall|i: int| 0 <= i < s.len() ==> is_digit(#[trigger] s[i])
}

/// The value of a run of decimal digits (zero when empty).
pub open spec fn digits_value(s: Seq<char>) -> nat
    decreases s.len(),
{
    if s.len() == 0 {
        0
    } else {
        digits_value(s.drop_last()) * 10 + ((s.last() as nat) - ('0' as nat)) as nat
    }
}

/// A blank that may surround the number.
pub open spec fn is_blank(c: char) -> bool {
    c == ' ' || c == '\t' || c == '\n' || c == '\r'
}

/// Without leading blanks.
pub open spec fn trim_front(s: Seq<char>) -> Seq<char>
    decreases s.len(),
{
    if s.len() > 0 && is_blank(s[0]) {
        trim_front(s.drop_first())
    } else {
        s
    }
}

/// Without trailing blanks.
pub open spec fn trim_back(s: Seq<char>) -> Seq<char>
    decreases s.len(),
{
    if s.len() > 0 && is_blank(s.last()) {
        trim_back(s.drop_last())
    } else {
        s
    }
}

/// The text without surrounding blanks and without a leading `+`.
pub open spec fn number_body(s: Seq<char>) -> Seq<char> {
    let t = trim_back(trim_front(s));
    if t.len() > 0 && t[0] == '+' {
        t.drop_first()
    } else {
        t
    }
}

/// Three fraction digits, padded with zeros.
pub open spec fn pad3(f: Seq<char>) -> Seq<char>
    decreases 3 - f.len(),
{
    if f.len() >= 3 {
        f.take(3)
    } else {
        pad3(f.push('0'))
    }
}

/// Milliseconds of a fraction's digits, rounded up.
pub open spec fn frac_millis_spec(f: Seq<char>) -> nat {
    digits_value(pad3(f)) + if (exists|i: int| 3 <= i < f.len() && f[i] != '0') {
        1nat
    } else {
        0nat
    }
}

/// `b` is a decimal point at `p` between two runs of digits.
pub open spec fn dot_at(b: Seq<char>, p: int) -> bool {
    &&& 0 <= p < b.len()
    &&& b[p] == '.'
    &&& all_digits(b.take(p))
    &&& all_digits(b.skip(p + 1))
}

/// Milliseconds, rounded up, of `digits`, `digits.`, `.digits` or
/// `digits.digits`; `None` for anything else.
pub open spec fn number_millis(b: Seq<char>) -> Option<nat> {
    if b.len() > 0 && all_digits(b) {
        Some(digits_value(b) * 1000)
    } else if b.len() > 1 && exists|p: int| dot_at(b, p) {
        let p = choose|p: int| dot_at(b, p);
        Some(digits_value(b.take(p)) * 1000 + frac_millis_spec(b.skip(p + 1)))
    } else {
        None
    }
}

/// The probed duration in milliseconds: zero when the answer is not a
/// number or does not fit.
pub open spec fn duration_millis(s: Seq<char>) -> nat {
    match number_millis(number_body(s)) {
        Some(v) => if v <= u64::MAX { v } else { 0 },
        None => 0,
    }
}

proof fn lemma_digits_monotone(s: Seq<char>, j: int)
    requires
        0 <= j <= s.len(),
    ensures
        digits_value(s.take(j)) <= digits_value(s),
    decreases s.len() - j,
{
    if j < s.len() {
        lemma_digits_monotone(s, j + 1);
        assert(s.take(j + 1).drop_last() =~= s.take(j));
        assert(digits_value(s.take(j)) <= digits_value(s.take(j + 1)));
    } else {
        assert(s.take(j) =~= s);
    }
}

/// Ten to the power `i`, for `i` up to three.
spec fn below(i: int) -> nat {
    if i <= 0 { 1 } else if i == 1 { 10 } else if i == 2 { 100 } else { 1000 }
}

fn digit_value(c: char) -> (d: u64)
    requires
        is_digit(c),
    ensures
        d == (c as nat) - ('0' as nat),
        d < 10,
{
    (c as u32 - '0' as u32) as u64
}

fn all_digits_exec(b: &str) -> (r: bool)
    ensures
        r == all_digits(b@),
{
    let n = b.unicode_len();
    let mut i: usize = 0;
    while i < n
        invariant
            n == b@.len(),
            i <= n,
            forall|k: int| 0 <= k < i ==> is_digit(#[trigger] b@[k]),
        decreases n - i,
    {
        let c = b.get_char(i);
        if !('0' <= c && c <= '9') {
            return false;
        }
        i = i + 1;
    }
    true
}

/// The value of a run of digits, or `None` when it exceeds `u64`.
fn digits_u64(b: &str) -> (r: Option<u64>)
    requires
        all_digits(b@),
    ensures
        match r {
            Some(v) => v == digits_value(b@),
            None => digits_value(b@) > u64::MAX,
        },
{
    let n = b.unicode_len();
    let mut acc: u64 = 0;
    let mut i: usize = 0;
    assert(b@.take(0) =~= Seq::<char>::empty());
    while i < n
        invariant
            n == b@.len(),
            i <= n,
            all_digits(b@),
            acc == digits_value(b@.take(i as int)),
        decreases n - i,
    {
        let d = digit_value(b.get_char(i));
        assert(b@.take(i + 1).drop_last() =~= b@.take(i as int));
        match acc.checked_mul(10) {
            Some(m) => match m.checked_add(d) {
                Some(v) => {
                    acc = v;
                },
                None => {
                    proof {
                        lemma_digits_monotone(b@, i + 1);
                    }
                    return None;
                },
            },
            None => {
                proof {
                    lemma_digits_monotone(b@, i + 1);
                }
                return None;
            },
        }
        i = i + 1;
    }
    assert(b@.take(n as int) =~= b@);
    Some(acc)
}

proof fn lemma_pad3_step(f: Seq<char>)
    requires
        f.len() < 3,
    ensures
        pad3(f) == pad3(f.push('0')),
{
}

/// Milliseconds of a fraction's digits, rounded up.
fn frac_millis(f: &str) -> (r: u64)
    requires
        all_digits(f@),
    ensures
        r == frac_millis_spec(f@),
        r <= 1000,
{
    let n = f.unicode_len();
    let mut acc: u64 = 0;
    let mut i: usize = 0;
    let mut nonzero = false;
    assert(f@.take(0) =~= Seq::<char>::empty());
    while i < n
        invariant
            n == f@.len(),
            i <= n,
            all_digits(f@),
            acc == digits_value(f@.take(if i < 3 { i as int } else { 3 })),
            acc < below(i as int),
            nonzero == exists|k: int| 3 <= k < i && f@[k] != '0',
        decreases n - i,
    {
        let c = f.get_char(i);
        if i < 3 {
            assert(f@.take(i + 1).drop_last() =~= f@.take(i as int));
            acc = acc * 10 + digit_value(c);
        } else if c != '0' {
            nonzero = true;
        }
        i = i + 1;
    }
    let ghost g = if n < 3 { f@ } else { f@.take(3) };
    assert(g =~= f@.take(if n < 3 { n as int } else { 3 }));
    assert(pad3(g) == pad3(f@)) by {
        if n >= 3 {
            assert(f@.take(3).take(3) =~= f@.take(3));
        }
    }
    let mut k: usize = n;
    while k < 3
        invariant
            n <= k,
            k >= 3 ==> g.len() >= 3,
            g.len() == if k >= 3 { 3 } else { k as int },
            pad3(g) == pad3(f@),
            acc == digits_value(g),
            acc < below(k as int),
        decreases 3 - k,
    {
        proof {
            lemma_pad3_step(g);
            assert(g.push('0').drop_last() =~= g);
            g = g.push('0');
        }
        acc = acc * 10;
        k = k + 1;
    }
    assert(pad3(g) == g) by {
        assert(g.take(3) =~= g);
    }
    if nonzero { acc + 1 } else { acc }
}

fn first_dot(b: &str) -> (r: Option<usize>)
    ensures
        match r {
            Some(p) => p < b@.len() && b@[p as int] == '.' && forall|k: int|
                0 <= k < p ==> #[trigger] b@[k] != '.',
            None => forall|k: int| 0 <= k < b@.len() ==> #[trigger] b@[k] != '.',
        },
{
    let n = b.unicode_len();
    let mut i: usize = 0;
    while i < n
        invariant
            n == b@.len(),
            i <= n,
            forall|k: int| 0 <= k < i ==> #[trigger] b@[k] != '.',
        decreases n - i,
    {
        if b.get_char(i) == '.' {
            return Some(i);
        }
        i = i + 1;
    }
    None
}

/// The text without surrounding blanks and a leading `+`.
fn body_of(s: &str) -> (r: &str)
    ensures
        r@ == number_body(s@),
{
    let n = s.unicode_len();
    let mut lo: usize = 0;
    assert(s@.subrange(0, n as int) =~= s@);
    while lo < n && is_blank_exec(s.get_char(lo))
        invariant
            n == s@.len(),
            lo <= n,
            trim_front(s@) == trim_front(s@.subrange(lo as int, n as int)),
        decreases n - lo,
    {
        assert(s@.subrange(lo as int, n as int).drop_first() =~= s@.subrange(lo + 1, n as int));
        lo = lo + 1;
    }
    assert(trim_front(s@) == s@.subrange(lo as int, n as int));
    let mut hi: usize = n;
    while hi > lo && is_blank_exec(s.get_char(hi - 1))
        invariant
            n == s@.len(),
            lo <= hi <= n,
            trim_back(trim_front(s@)) == trim_back(s@.subrange(lo as int, hi as int)),
        decreases hi - lo,
    {
        assert(s@.subrange(lo as int, hi as int).drop_last() =~= s@.subrange(lo as int, hi - 1));
        hi = hi - 1;
    }
    assert(trim_back(trim_front(s@)) == s@.subrange(lo as int, hi as int));
    if lo < hi && s.get_char(lo) == '+' {
        assert(s@.subrange(lo as int, hi as int).drop_first() =~= s@.subrange(lo + 1, hi as int));
        s.substring_char(lo + 1, hi)
    } else {
        s.substring_char(lo, hi)
    }
}

fn is_blank_exec(c: char) -> (r: bool)
    ensures
        r == is_blank(c),
{
    c == ' ' || c == '\t' || c == '\n' || c == '\r'
}

/// The duration the prober printed, in milliseconds rounded up; zero when the
/// text is not a plain decimal number or the value does not fit.
pub fn parse_duration_ms(s: &str) -> (r: u64)
    ensures
        r == duration_millis(s@),
{
    let b = body_of(s);
    let n = b.unicode_len();
    if n == 0 {
        return 0;
    }
    if all_digits_exec(b) {
        return match digits_u64(b) {
            Some(v) => match v.checked_mul(1000) {
                Some(m) => m,
                None => 0,
            },
            None => 0,
        };
    }
    let p = match first_dot(b) {
        Some(p) => p,
        None => {
            assert(forall|q: int| !dot_at(b@, q));
            return 0;
        },
    };
    if n == 1 {
        return 0;
    }
    let a = b.substring_char(0, p);
    let f = b.substring_char(p + 1, n);
    assert(a@ =~= b@.take(p as int));
    assert(f@ =~= b@.skip(p + 1));
    let digits_around = all_digits_exec(a) && all_digits_exec(f);
    if !digits_around {
        assert forall|q: int| !dot_at(b@, q) by {
            if dot_at(b@, q) {
                if q < p {
                    assert(b@[q] != '.');
                } else if q > p {
                    assert(b@.take(q)[p as int] == '.');
                    assert(!is_digit(b@.take(q)[p as int]));
                } else {
                    assert(all_digits(a@) && all_digits(f@));
                }
            }
        }
        return 0;
    }
    assert(dot_at(b@, p as int));
    assert forall|q: int| dot_at(b@, q) implies q == p by {
        if q > p {
            assert(b@.take(q)[p as int] == '.');
        }
    }
    let ms = frac_millis(f);
    match digits_u64(a) {
        Some(v) => match v.checked_mul(1000) {
            Some(m) => match m.checked_add(ms) {
                Some(t) => t,
                None => 0,
            },
            None => 0,
        },
        None => 0,
    }
}

} // verus!
