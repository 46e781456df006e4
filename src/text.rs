//! Small verified text utilities: decimal formatting, millisecond formatting,
//! substring search and command-line argument lists.
use vstd::prelude::*;

verus! {

/// The character of a decimal digit.
pub open spec fn digit_char(d: nat) -> char {
    if d == 0 { '0' }
    else if d == 1 { '1' }
    else if d == 2 { '2' }
    else if d == 3 { '3' }
    else if d == 4 { '4' }
    else if d == 5 { '5' }
    else if d == 6 { '6' }
    else if d == 7 { '7' }
    else if d == 8 { '8' }
    else { '9' }
}

/// Decimal text of a natural number, without leading zeros.
pub open spec fn decimal(n: nat) -> Seq<char>
    decreases n,
{
    if n < 10 {
        seq![digit_char(n)]
    } else {
        decimal(n / 10).push(digit_char(n % 10))
    }
}

/// Decimal text of an integer, with a leading `-` when negative.
pub open spec fn int_text(i: int) -> Seq<char> {
    if i < 0 {
        seq!['-'] + decimal((-i) as nat)
    } else {
        decimal(i as nat)
    }
}

/// Exactly three decimal digits of a number below one thousand.
pub open spec fn three_digits(n: nat) -> Seq<char> {
    seq![digit_char(n / 100), digit_char((n / 10) % 10), digit_char(n % 10)]
}

/// A millisecond count written as seconds with exactly three decimals.
pub open spec fn millis_text(ms: nat) -> Seq<char> {
    decimal(ms / 1000) + seq!['.'] + three_digits(ms % 1000)
}

/// Relies on String::push: appends one character.
#[verifier::external_body]
pub fn push_char(s: &mut String, c: char)
    ensures
        final(s)@ == old(s)@.push(c),
{
    s.push(c)
}

fn digit(d: u64) -> (c: char)
    requires
        d < 10,
    ensures
        c == digit_char(d as nat),
{
    if d == 0 { '0' }
    else if d == 1 { '1' }
    else if d == 2 { '2' }
    else if d == 3 { '3' }
    else if d == 4 { '4' }
    else if d == 5 { '5' }
    else if d == 6 { '6' }
    else if d == 7 { '7' }
    else if d == 8 { '8' }
    else { '9' }
}

/// Appends the decimal text of `n`.
pub fn write_decimal(out: &mut String, n: u64)
    ensures
        final(out)@ == old(out)@ + decimal(n as nat),
    decreases n,
{
    if n >= 10 {
        write_decimal(out, n / 10);
        push_char(out, digit(n % 10));
        assert(final(out)@ =~= old(out)@ + decimal(n as nat));
    } else {
        push_char(out, digit(n));
        assert(final(out)@ =~= old(out)@ + decimal(n as nat));
    }
}

/// Appends the decimal text of `i`, signed.
pub fn write_int(out: &mut String, i: i64)
    ensures
        final(out)@ == old(out)@ + int_text(i as int),
{
    if i < 0 {
        push_char(out, '-');
        let m: u64 = if i == i64::MIN { 9223372036854775808u64 } else { (-i) as u64 };
        write_decimal(out, m);
        assert(final(out)@ =~= old(out)@ + int_text(i as int));
    } else {
        write_decimal(out, i as u64);
    }
}

/// Fraction digits of `r / h` by long division: at most `k` of them, fewer
/// when the division ends.
pub open spec fn frac_digits(r: nat, h: nat, k: nat) -> Seq<char>
    decreases k,
{
    if k == 0 || r == 0 || h == 0 {
        Seq::empty()
    } else {
        seq![digit_char((r * 10) / h)] + frac_digits((r * 10) % h, h, (k - 1) as nat)
    }
}

/// `w / h` in decimal: the integer part, then, when there is a remainder,
/// `.` and up to sixteen fraction digits (all of them when the expansion
/// ends sooner). `720 / 1280` gives `0.5625`.
pub open spec fn ratio_text(w: nat, h: nat) -> Seq<char> {
    decimal(w / h) + if w % h == 0 {
        Seq::empty()
    } else {
        seq!['.'] + frac_digits(w % h, h, 16)
    }
}

/// Appends `w / h` in decimal.
pub fn write_ratio(out: &mut String, w: u64, h: u64)
    requires
        0 < h <= u32::MAX,
    ensures
        final(out)@ == old(out)@ + ratio_text(w as nat, h as nat),
{
    write_decimal(out, w / h);
    let mut r = w % h;
    if r == 0 {
        assert(final(out)@ =~= old(out)@ + ratio_text(w as nat, h as nat));
        return;
    }
    push_char(out, '.');
    let ghost mid = out@;
    let ghost target = mid + frac_digits(r as nat, h as nat, 16);
    assert(target =~= old(out)@ + ratio_text(w as nat, h as nat));
    let mut k: u64 = 16;
    assert(out@ + frac_digits(r as nat, h as nat, k as nat) == target);
    while k > 0 && r != 0
        invariant
            0 < h <= u32::MAX,
            r < h,
            k <= 16,
            out@ + frac_digits(r as nat, h as nat, k as nat) == target,
        decreases k,
    {
        let ghost before = out@;
        let ghost r0 = r;
        assert((r as int * 10) / (h as int) < 10) by (nonlinear_arith)
            requires
                r < h,
                h > 0,
        ;
        let d = (r * 10) / h;
        push_char(out, digit(d));
        r = (r * 10) % h;
        k = k - 1;
        proof {
            let rest = frac_digits(r as nat, h as nat, k as nat);
            assert(frac_digits(r0 as nat, h as nat, (k + 1) as nat) == seq![digit_char(d as nat)] + rest);
            assert(out@ + rest =~= before + (seq![digit_char(d as nat)] + rest));
        }
    }
    assert(frac_digits(r as nat, h as nat, k as nat) =~= Seq::<char>::empty());
}

/// Appends `ms` as seconds with exactly three decimals (`1500` gives `1.500`).
pub fn write_millis(out: &mut String, ms: u64)
    ensures
        final(out)@ == old(out)@ + millis_text(ms as nat),
{
    write_decimal(out, ms / 1000);
    push_char(out, '.');
    let r = ms % 1000;
    push_char(out, digit(r / 100));
    push_char(out, digit((r / 10) % 10));
    push_char(out, digit(r % 10));
    assert(final(out)@ =~= old(out)@ + millis_text(ms as nat));
}

} // verus!

verus! {

/// The text views of a list of strings.
pub open spec fn views(v: Seq<String>) -> Seq<Seq<char>> {
    v.map_values(|s: String| s@)
}

/// Appends one argument to an argument list.
pub fn push_arg(args: &mut Vec<String>, s: &str)
    ensures
        views(final(args)@) == views(old(args)@).push(s@),
{
    args.push(String::from_str(s));
    assert(views(final(args)@) =~= views(old(args)@).push(s@));
}

/// Appends one owned argument to an argument list.
pub fn push_owned(args: &mut Vec<String>, s: String)
    ensures
        views(final(args)@) == views(old(args)@).push(s@),
{
    let ghost v = s@;
    args.push(s);
    assert(views(final(args)@) =~= views(old(args)@).push(v));
}

/// Whether `pat` occurs in `s` as a contiguous piece.
pub open spec fn has_substring(s: Seq<char>, pat: Seq<char>) -> bool {
    exists|i: int| 0 <= i && i + pat.len() <= s.len() && #[trigger] s.subrange(i, i + pat.len()) == pat
}

fn matches_at(s: &str, pat: &str, i: usize) -> (r: bool)
    requires
        i + pat@.len() <= s@.len(),
        s@.len() <= usize::MAX,
    ensures
        r == (s@.subrange(i as int, i + pat@.len()) == pat@),
{
    let n = pat.unicode_len();
    let mut j: usize = 0;
    while j < n
        invariant
            n == pat@.len(),
            i + n <= s@.len(),
            s@.len() <= usize::MAX,
            j <= n,
            forall|k: int| 0 <= k < j ==> s@[i + k] == pat@[k],
        decreases n - j,
    {
        if s.get_char(i + j) != pat.get_char(j) {
            assert(s@.subrange(i as int, i + pat@.len())[j as int] != pat@[j as int]);
            return false;
        }
        j = j + 1;
    }
    assert(s@.subrange(i as int, i + pat@.len()) =~= pat@);
    true
}

/// Substring search.
pub fn contains_text(s: &str, pat: &str) -> (r: bool)
    ensures
        r == has_substring(s@, pat@),
{
    let n = s.unicode_len();
    let m = pat.unicode_len();
    if m > n {
        return false;
    }
    let mut i: usize = 0;
    loop
        invariant
            n == s@.len(),
            m == pat@.len(),
            m <= n,
            i <= n - m,
            forall|k: int| 0 <= k < i ==> #[trigger] s@.subrange(k, k + m) != pat@,
        decreases n - m - i,
    {
        if matches_at(s, pat, i) {
            return true;
        }
        if i == n - m {
            assert(!has_substring(s@, pat@)) by {
                assert forall|k: int| 0 <= k && k + m <= n implies #[trigger] s@.subrange(k, k + m) != pat@ by {
                    if k < i {
                    }
                }
            }
            return false;
        }
        i = i + 1;
    }
}

/// Text equality.
pub fn same_text(a: &str, b: &str) -> (r: bool)
    ensures
        r == (a@ == b@),
{
    let n = a.unicode_len();
    if n != b.unicode_len() {
        return false;
    }
    let r = matches_at(a, b, 0);
    assert(a@.subrange(0, n as int) =~= a@);
    r
}

} // verus!
