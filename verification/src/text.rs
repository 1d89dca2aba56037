use vstd::prelude::*;

use crate::files::is_verbatim;
use crate::po::occurs_in;

verus! {

/// The text of an optional string.
pub open spec fn opt_view(s: Option<String>) -> Option<Seq<char>> {
    match s {
        Some(t) => Some(t@),
        None => None,
    }
}

/// The decimal digit character for `d < 10`.
pub open spec fn digit_char(d: nat) -> char {
    if d == 0 { '0' }
    else if d == 1 { '1' }
    else if d == 2 { '2' }
    else if d == 3 { '3' }
    else if d == 4 { '4' }
    else if d == 5 { '5' }
    else if d == 6 { '6' }
    else if d == 7 { '7' }
    else if d == 8 { '8' }
    else { '9' }
}

/// The decimal rendering of `n`, without leading zeros.
pub open spec fn decimal(n: nat) -> Seq<char>
    decreases n,
{
    if n < 10 {
        seq![digit_char(n)]
    } else {
        decimal(n / 10).push(digit_char(n % 10))
    }
}

/// Two decimal digits of `n < 100`, zero-padded.
pub open spec fn two_digits(n: nat) -> Seq<char> {
    seq![digit_char(n / 10), digit_char(n % 10)]
}

fn digit(d: u64) -> (c: char)
    requires
        d < 10,
    ensures
        c == digit_char(d as nat),
{
    if d == 0 { '0' }
    else if d == 1 { '1' }
    else if d == 2 { '2' }
    else if d == 3 { '3' }
    else if d == 4 { '4' }
    else if d == 5 { '5' }
    else if d == 6 { '6' }
    else if d == 7 { '7' }
    else if d == 8 { '8' }
    else { '9' }
}

/// `String::push` of std: appends one character.
#[verifier::external_body]
pub(crate) fn push_char(s: &mut String, c: char)
    ensures
        final(s)@ == old(s)@.push(c),
{
    s.push(c)
}

/// Appends the two-digit, zero-padded rendering of `n`.
pub fn push_two_digits(s: &mut String, n: u64)
    requires
        n < 100,
    ensures
        final(s)@ == old(s)@ + two_digits(n as nat),
{
    push_char(s, digit(n / 10));
    push_char(s, digit(n % 10));
    proof {
        assert(final(s)@ =~= old(s)@ + two_digits(n as nat));
    }
}

/// Appends the decimal rendering of `n`.
pub fn push_decimal(s: &mut String, n: u64)
    ensures
        final(s)@ == old(s)@ + decimal(n as nat),
    decreases n,
{
    if n < 10 {
        push_char(s, digit(n));
        proof {
            assert(final(s)@ =~= old(s)@ + decimal(n as nat));
        }
    } else {
        push_decimal(s, n / 10);
        push_char(s, digit(n % 10));
        proof {
            assert(final(s)@ =~= old(s)@ + decimal(n as nat));
        }
    }
}

/// What `format!("{:?}", Path::new(s))` of std renders for the path with text `s`.
pub uninterp spec fn path_debug_rendering(s: Seq<char>) -> Seq<char>;

/// The `Debug` rendering of the path whose text is `s` (quoted, with escapes),
/// as std's `format!("{:?}", Path::new(s))` produces it.
/// Trusted: the result is named by `path_debug_rendering`; nothing more is stated.
#[verifier::external_body]
pub(crate) fn path_debug(s: &str) -> (res: String)
    ensures
        res@ == path_debug_rendering(s@),
{
    format!("{:?}", std::path::Path::new(s))
}

/// Whether `c` has the Unicode `White_Space` property, which is what
/// `char::is_whitespace` of std tests.
pub open spec fn is_whitespace_char(c: char) -> bool {
    ||| ('\u{9}' <= c <= '\u{D}')
    ||| c == ' '
    ||| c == '\u{85}'
    ||| c == '\u{A0}'
    ||| c == '\u{1680}'
    ||| ('\u{2000}' <= c <= '\u{200A}')
    ||| c == '\u{2028}'
    ||| c == '\u{2029}'
    ||| c == '\u{202F}'
    ||| c == '\u{205F}'
    ||| c == '\u{3000}'
}

fn is_whitespace(c: char) -> (ws: bool)
    ensures
        ws == is_whitespace_char(c),
{
    ('\u{9}' <= c && c <= '\u{D}') || c == ' ' || c == '\u{85}' || c == '\u{A0}' || c == '\u{1680}'
        || ('\u{2000}' <= c && c <= '\u{200A}') || c == '\u{2028}' || c == '\u{2029}' || c
        == '\u{202F}' || c == '\u{205F}' || c == '\u{3000}'
}

pub open spec fn all_whitespace(s: Seq<char>) -> bool {
    forall|k: int| 0 <= k < s.len() ==> is_whitespace_char(#[trigger] s[k])
}

/// `s[start..end]` is `s` without its leading and trailing whitespace.
pub open spec fn trim_bounds(s: Seq<char>, start: int, end: int) -> bool {
    &&& 0 <= start <= end <= s.len()
    &&& forall|k: int| 0 <= k < start ==> is_whitespace_char(#[trigger] s[k])
    &&& forall|k: int| end <= k < s.len() ==> is_whitespace_char(#[trigger] s[k])
    &&& start < end ==> !is_whitespace_char(s[start]) && !is_whitespace_char(s[end - 1])
}

/// `t` is `s` without leading and trailing whitespace, as `str::trim` gives it.
pub open spec fn trims_to(s: Seq<char>, t: Seq<char>) -> bool {
    exists|start: int, end: int| trim_bounds(s, start, end) && t == s.subrange(start, end)
}

/// Trimming leaves nothing exactly when everything is whitespace, and a
/// trimmed text is its own trim.
pub proof fn lemma_trim_facts(s: Seq<char>, t: Seq<char>)
    requires
        trims_to(s, t),
    ensures
        t.len() == 0 <==> all_whitespace(s),
        trims_to(t, t),
        t.len() > 0 ==> !is_whitespace_char(t[0]) && !is_whitespace_char(t.last()),
{
    let (start, end) = choose|start: int, end: int|
        trim_bounds(s, start, end) && t == s.subrange(start, end);
    if start == end {
        assert(trim_bounds(t, 0, 0));
        assert(t =~= t.subrange(0, 0));
        assert forall|k: int| 0 <= k < s.len() implies is_whitespace_char(#[trigger] s[k]) by {
            if k < start {
            } else {
                assert(end <= k);
            }
        }
    } else {
        assert(t[0] == s[start]);
        assert(!all_whitespace(s) ) by {
            assert(!is_whitespace_char(s[start]));
        }
        assert(t.last() == s[end - 1]);
        assert(trim_bounds(t, 0, t.len() as int));
        assert(t =~= t.subrange(0, t.len() as int));
    }
}

/// `s` without leading and trailing whitespace: `str::trim` of std.
pub fn trim(s: &str) -> (res: String)
    ensures
        trims_to(s@, res@),
{
    let n = s.unicode_len();
    let mut start: usize = 0;
    while start < n && is_whitespace(s.get_char(start))
        invariant
            n == s@.len(),
            start <= n,
            forall|k: int| 0 <= k < start ==> is_whitespace_char(#[trigger] s@[k]),
        decreases n - start,
    {
        start = start + 1;
    }
    let mut end: usize = n;
    while end > start && is_whitespace(s.get_char(end - 1))
        invariant
            n == s@.len(),
            start <= end <= n,
            forall|k: int| 0 <= k < start ==> is_whitespace_char(#[trigger] s@[k]),
            forall|k: int| end <= k < n ==> is_whitespace_char(#[trigger] s@[k]),
            start < n ==> !is_whitespace_char(s@[start as int]),
        decreases end - start,
    {
        end = end - 1;
    }
    let res = String::from_str(s.substring_char(start, end));
    proof {
        assert(trim_bounds(s@, start as int, end as int));
    }
    res
}

/// The text after the last `/` of `p` (all of `p` when it has none).
pub open spec fn after_last_slash(p: Seq<char>) -> Seq<char>
    decreases p.len(),
{
    if p.len() == 0 {
        p
    } else if p.last() == '/' {
        Seq::empty()
    } else {
        after_last_slash(p.drop_last()).push(p.last())
    }
}

/// A path component that names a file: not empty, not `.` or `..`.
pub open spec fn is_normal_segment(s: Seq<char>) -> bool {
    s.len() > 0 && s != seq!['.'] && s != seq!['.', '.']
}

/// A path that every platform splits only at `/` and that has no prefix:
/// no `\`, no `:`, not starting with two separators (a Windows UNC, device or
/// verbatim prefix), and ending in a component that names a file.
pub open spec fn is_plain_path(p: Seq<char>) -> bool {
    &&& !p.contains('\\')
    &&& !p.contains(':')
    &&& !(p.len() >= 2 && p[0] == '/' && p[1] == '/')
    &&& is_normal_segment(after_last_slash(p))
}

/// The last component of the path `p`, as `Path::file_name` of std returns it
/// (`None` when there is none), converted to a `String`.
/// Trusted: std documents it as the final component of the path; which
/// characters separate components depends on the platform. Stated is what
/// holds everywhere: a component is a non-empty part of `p` (a slice of it);
/// outside verbatim paths it holds no `/`, which separates components on every
/// platform there; and for a plain path it is the text after the last `/`.
#[verifier::external_body]
pub(crate) fn path_file_name(p: &str) -> (res: Option<String>)
    ensures
        res matches Some(n) ==> occurs_in(n@, p@) && n@.len() > 0,
        res matches Some(n) ==> (!is_verbatim(p@) ==> !n@.contains('/')),
        res is Some || !is_plain_path(p@),
        res matches Some(n) ==> (is_plain_path(p@) ==> n@ == after_last_slash(p@)),
{
    std::path::Path::new(p).file_name().map(|n| n.to_string_lossy().into_owned())
}

} // verus!
