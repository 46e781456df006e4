//! Display titles and output file names.
use vstd::prelude::*;
use crate::text::push_char;

verus! {

/// Whether `c` has Unicode's White_Space property.
pub open spec fn white_space(c: char) -> bool {
    let u = c as u32;
    (0x9 <= u && u <= 0xd) || u == 0x20 || u == 0x85 || u == 0xa0 || u == 0x1680 || (0x2000 <= u
        && u <= 0x200a) || u == 0x2028 || u == 0x2029 || u == 0x202f || u == 0x205f || u == 0x3000
}

fn is_white(c: char) -> (r: bool)
    ensures
        r == white_space(c),
{
    let u = c as u32;
    (0x9 <= u && u <= 0xd) || u == 0x20 || u == 0x85 || u == 0xa0 || u == 0x1680 || (0x2000 <= u
        && u <= 0x200a) || u == 0x2028 || u == 0x2029 || u == 0x202f || u == 0x205f || u == 0x3000
}

/// Whether a title is empty once surrounding white space is removed.
pub open spec fn blank(s: Seq<char>) -> bool {
    forall|i: int| 0 <= i < s.len() ==> white_space(#[trigger] s[i])
}

/// Characters that never survive `sanitize_filename::sanitize`.
pub open spec fn forbidden_in_name(c: char) -> bool {
    c == '/' || c == '?' || c == '<' || c == '>' || c == '\\' || c == ':' || c == '*' || c == '|'
        || c == '"'
}

/// `a` is `b` with some characters left out.
pub open spec fn subsequence_of(a: Seq<char>, b: Seq<char>) -> bool {
    exists|f: Seq<int>|
        f.len() == a.len() && (forall|i: int|
            0 <= i < a.len() ==> 0 <= #[trigger] f[i] < b.len() && a[i] == b[f[i]]) && (forall|
            i: int,
            j: int,
        | 0 <= i < j < a.len() ==> #[trigger] f[i] < #[trigger] f[j])
}

/// A reserved device name on Windows: `con`, `prn`, `aux`, `nul`, `com0`
/// to `com9` or `lpt0` to `lpt9`, in any case.
pub open spec fn device_name(s: Seq<char>) -> bool {
    let l = s.map_values(|c: char| ascii_lower(c));
    l == "con"@ || l == "prn"@ || l == "aux"@ || l == "nul"@ || (l.len() == 4 && (l.take(3)
        == "com"@ || l.take(3) == "lpt"@) && '0' <= l[3] && l[3] <= '9')
}

/// A name that is already a safe file name on every platform: ASCII
/// letters, digits, `-` and `_` only, at most 255 of them, and no device name.
pub open spec fn plain_name(s: Seq<char>) -> bool {
    &&& s.len() <= 255
    &&& forall|i: int| 0 <= i < s.len() ==> safe_char(#[trigger] s[i])
    &&& !device_name(s)
}

/// Relies on sanitize_filename::sanitize: it only removes characters (all of
/// the reserved ones above, control characters, a name of dots only, and on
/// Windows device names and trailing dots and blanks) and cuts the name to
/// 255 bytes. So what is left keeps the order of the input, holds none of
/// the reserved characters, has at most 255 characters, and a plain name
/// comes back unchanged.
#[verifier::external_body]
fn sanitize(s: &str) -> (r: String)
    ensures
        r@.len() <= 255,
        forall|i: int| 0 <= i < r@.len() ==> !forbidden_in_name(#[trigger] r@[i]),
        subsequence_of(r@, s@),
        plain_name(s@) ==> r@ == s@,
{
    sanitize_filename::sanitize(s)
}

/// Whether a title is blank.
pub fn is_blank_title(s: &str) -> (r: bool)
    ensures
        r == blank(s@),
{
    let n = s.unicode_len();
    let mut i: usize = 0;
    while i < n
        invariant
            n == s@.len(),
            i <= n,
            forall|k: int| 0 <= k < i ==> white_space(#[trigger] s@[k]),
        decreases n - i,
    {
        if !is_white(s.get_char(i)) {
            return false;
        }
        i = i + 1;
    }
    true
}

/// A timestamp with its separators `:`, `T`, `Z` and `.` removed.
pub open spec fn compact_stamp(s: Seq<char>) -> Seq<char>
    decreases s.len(),
{
    if s.len() == 0 {
        Seq::empty()
    } else {
        let c = s.last();
        compact_stamp(s.drop_last()) + if c == ':' || c == 'T' || c == 'Z' || c == '.' {
            Seq::empty()
        } else {
            seq![c]
        }
    }
}

/// The title used when none is given: `twibbon-`, the compacted timestamp,
/// `-`, and a random token.
pub open spec fn generated_title(stamp: Seq<char>, token: Seq<char>) -> Seq<char> {
    "twibbon-"@ + compact_stamp(stamp) + "-"@ + token
}

/// The title used when none is given, from an RFC 3339 timestamp and a
/// random token.
pub fn default_title(stamp: &str, token: &str) -> (r: String)
    ensures
        r@ == generated_title(stamp@, token@),
{
    let mut out = String::from_str("twibbon-");
    let ghost head = out@;
    let n = stamp.unicode_len();
    let mut i: usize = 0;
    assert(stamp@.take(0) =~= Seq::<char>::empty());
    assert(out@ =~= head + compact_stamp(stamp@.take(0)));
    while i < n
        invariant
            n == stamp@.len(),
            i <= n,
            out@ == head + compact_stamp(stamp@.take(i as int)),
        decreases n - i,
    {
        let c = stamp.get_char(i);
        assert(stamp@.take(i + 1).drop_last() =~= stamp@.take(i as int));
        if !(c == ':' || c == 'T' || c == 'Z' || c == '.') {
            push_char(&mut out, c);
        }
        assert(out@ =~= head + compact_stamp(stamp@.take(i + 1)));
        i = i + 1;
    }
    assert(stamp@.take(n as int) =~= stamp@);
    out.append("-");
    out.append(token);
    out
}

/// The title of a composition: the given one made safe as a file name, or,
/// when it is blank, the generated one.
pub fn choose_title(title: &str, stamp: &str, token: &str) -> (r: String)
    ensures
        blank(title@) ==> r@ == generated_title(stamp@, token@),
        !blank(title@) ==> r@.len() <= 255 && forall|i: int|
            0 <= i < r@.len() ==> !forbidden_in_name(#[trigger] r@[i]),
        !blank(title@) ==> subsequence_of(r@, title@),
        !blank(title@) && plain_name(title@) ==> r@ == title@,
{
    if is_blank_title(title) {
        default_title(stamp, token)
    } else {
        sanitize(title)
    }
}

/// Characters kept in output file names.
pub open spec fn safe_char(c: char) -> bool {
    ('a' <= c && c <= 'z') || ('A' <= c && c <= 'Z') || ('0' <= c && c <= '9') || c == '-' || c
        == '_'
}

/// A name with every unsafe character replaced by `-`.
pub open spec fn safe_stem(s: Seq<char>) -> Seq<char> {
    s.map_values(|c: char| if safe_char(c) { c } else { '-' })
}

/// The output file name for a sanitized title: its safe stem and `.mp4`.
pub fn output_file_name(sanitized: &str) -> (r: String)
    ensures
        r@ == safe_stem(sanitized@) + ".mp4"@,
{
    let mut out = String::new();
    let n = sanitized.unicode_len();
    let mut i: usize = 0;
    while i < n
        invariant
            n == sanitized@.len(),
            i <= n,
            out@ == safe_stem(sanitized@.take(i as int)),
        decreases n - i,
    {
        let c = sanitized.get_char(i);
        let safe = ('a' <= c && c <= 'z') || ('A' <= c && c <= 'Z') || ('0' <= c && c <= '9') || c
            == '-' || c == '_';
        push_char(&mut out, if safe { c } else { '-' });
        assert(out@ =~= safe_stem(sanitized@.take(i + 1)));
        i = i + 1;
    }
    assert(sanitized@.take(n as int) =~= sanitized@);
    out.append(".mp4");
    out
}

/// The output path, under `outputs/`, of a composition with this title.
pub fn output_path_for(title: &str) -> (r: String)
    ensures
        exists|s: Seq<char>|
            s.len() <= 255 && subsequence_of(s, title@) && r@ == "outputs/"@ + safe_stem(s)
                + ".mp4"@,
        plain_name(title@) ==> r@ == "outputs/"@ + title@ + ".mp4"@,
{
    let s = sanitize(title);
    let name = output_file_name(s.as_str());
    let out = String::from_str("outputs/").concat(name.as_str());
    assert(out@ =~= "outputs/"@ + safe_stem(s@) + ".mp4"@);
    proof {
        if plain_name(title@) {
            assert(safe_stem(s@) =~= s@);
        }
    }
    out
}

/// ASCII upper-case letters made lower case; other characters kept.
pub open spec fn ascii_lower(c: char) -> char {
    if 'A' <= c && c <= 'Z' {
        ((c as u32) + 32) as char
    } else {
        c
    }
}

fn lower_char(c: char) -> (r: char)
    ensures
        r == ascii_lower(c),
{
    if 'A' <= c && c <= 'Z' {
        ((c as u8) + 32) as char
    } else {
        c
    }
}

/// The extension of a file name, ASCII lower-cased: what follows its last
/// `.`, or nothing when it has no `.` or only a leading one.
pub open spec fn extension_of(name: Seq<char>) -> Seq<char> {
    if exists|p: int| 0 < p < name.len() && name[p] == '.' {
        let p = choose|p: int|
            0 < p < name.len() && name[p] == '.' && forall|q: int| p < q < name.len() ==> name[q] != '.';
        name.skip(p + 1).map_values(|c: char| ascii_lower(c))
    } else {
        Seq::empty()
    }
}

/// The lower-cased extension of an uploaded file's name.
pub fn upload_extension(name: &str) -> (r: String)
    ensures
        r@ == extension_of(name@),
{
    let n = name.unicode_len();
    let mut i: usize = n;
    while i > 1 && name.get_char(i - 1) != '.'
        invariant
            n == name@.len(),
            i <= n,
            forall|q: int| i <= q < n ==> name@[q] != '.',
        decreases i,
    {
        i = i - 1;
    }
    if i <= 1 {
        assert(!exists|p: int| 0 < p < name@.len() && name@[p] == '.') by {
            assert forall|p: int| 0 < p < name@.len() implies name@[p] != '.' by {
                assert(i <= p);
            }
        }
        return String::new();
    }
    let p = i - 1;
    assert(name@[p as int] == '.');
    assert forall|p2: int|
        0 < p2 < name@.len() && name@[p2] == '.' && (forall|q: int| p2 < q < name@.len() ==> name@[q] != '.')
        implies p2 == p by {
        if p2 < p {
            assert(name@[p as int] != '.');
        }
    }
    let mut out = String::new();
    let mut k: usize = i;
    while k < n
        invariant
            n == name@.len(),
            i <= k <= n,
            out@ == name@.subrange(i as int, k as int).map_values(|c: char| ascii_lower(c)),
        decreases n - k,
    {
        push_char(&mut out, lower_char(name.get_char(k)));
        assert(out@ =~= name@.subrange(i as int, k + 1).map_values(|c: char| ascii_lower(c)));
        k = k + 1;
    }
    assert(name@.subrange(i as int, n as int) =~= name@.skip(i as int));
    out
}

} // verus!
