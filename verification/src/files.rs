use vstd::prelude::*;

use crate::uuid_draw::{random_uuid_simple, DrawnUuid};
use crate::text::{after_last_slash, is_normal_segment, is_plain_path, path_file_name, push_char};

verus! {

// ── Platform path helpers from std ──────────────────────────────────────────

/// A character that separates path components on some platform: `/` everywhere,
/// `\` on Windows.
pub open spec fn is_separator_char(c: char) -> bool {
    c == '/' || c == '\\'
}

/// `std::path::MAIN_SEPARATOR_STR`, the platform's primary path separator.
/// Trusted: std documents it as `/` on Unix and `\` on Windows; which of the
/// two depends on the platform.
#[verifier::external_body]
fn main_separator() -> (s: &'static str)
    ensures
        s@.len() == 1,
        is_separator_char(s@[0]),
{
    std::path::MAIN_SEPARATOR_STR
}

/// A name that is relative on every platform and that path normalisation keeps:
/// non-empty ASCII letters only.
pub open spec fn is_plain_name(name: Seq<char>) -> bool {
    &&& name.len() > 0
    &&& forall|i: int|
        0 <= i < name.len() ==> ('a' <= #[trigger] name[i] <= 'z' || 'A' <= name[i] <= 'Z')
}

/// Paths of the form `\\?\...` (with `/` or `\` in the separator places),
/// which Windows treats as verbatim: it normalises them when joined and splits
/// them only at `\`.
pub open spec fn is_verbatim(p: Seq<char>) -> bool {
    &&& p.len() >= 4
    &&& is_separator_char(p[0])
    &&& is_separator_char(p[1])
    &&& p[2] == '?'
    &&& is_separator_char(p[3])
}

pub open spec fn is_ascii_alnum(c: char) -> bool {
    ('a' <= c <= 'z') || ('A' <= c <= 'Z') || ('0' <= c <= '9')
}

/// `base` followed by `name`, with at most one separator character between them.
pub open spec fn joined_as(res: Seq<char>, base: Seq<char>, name: Seq<char>) -> bool {
    exists|sep: Seq<char>|
        sep.len() <= 1 && (sep.len() == 1 ==> is_separator_char(sep[0])) && res == base + sep + name
}

/// `base`, one separator character, then `name`.
pub open spec fn joined_with_separator(res: Seq<char>, base: Seq<char>, name: Seq<char>) -> bool {
    exists|c: char| is_separator_char(c) && res == base + seq![c] + name
}

/// What std's `Path::join` gives for a plain `name` and a base that is not
/// verbatim: a base ending in a letter or digit gets exactly one separator, a
/// base ending in `/` none, any other base at most one.
pub open spec fn join_shape(res: Seq<char>, base: Seq<char>, name: Seq<char>) -> bool {
    &&& joined_as(res, base, name)
    &&& (base.len() > 0 && is_ascii_alnum(base.last())) ==> joined_with_separator(res, base, name)
    &&& (base.len() > 0 && base.last() == '/') ==> res == base + name
}

/// `Path::join` of std, for a plain relative `name`, as a `String`.
/// Trusted: std documents that a relative path is appended "with a separator
/// inserted if needed": none after a trailing `/` (a separator on every
/// platform), one (`/` or `\`) after a letter or digit, which never ends a
/// bare drive prefix such as `C:`. On Windows a verbatim base is normalised
/// first, so nothing is stated for such bases; which separator is inserted is
/// left to the platform.
#[verifier::external_body]
fn path_join(base: &str, name: &str) -> (res: String)
    requires
        is_plain_name(name@),
    ensures
        !is_verbatim(base@) ==> join_shape(res@, base@, name@),
{
    std::path::Path::new(base).join(name).to_string_lossy().into_owned()
}

// ── Directory layout ────────────────────────────────────────────────────────

/// Returns `<drive-root>/renamescans`, the default root directory: the
/// platform's separator followed by `renamescans`.
pub fn default_root() -> (root: String)
    ensures
        root@.len() == 12,
        is_separator_char(root@[0]),
        root@.subrange(1, 12) == "renamescans"@,
{
    let sep = main_separator();
    let mut root = String::from_str(sep);
    root.append("renamescans");
    proof {
        reveal_strlit("renamescans");
        assert(root@.subrange(1, 12) =~= "renamescans"@);
        assert(root@[0] == sep@[0]);
    }
    root
}

/// The three working directories under `root`: `waves` (watched for new
/// scans), `wavesfinished` (files with an identifier) and
/// `wavesfinished/UncapturedPO` (files without one).
pub fn derive_dirs(root: &str) -> (dirs: (String, String, String))
    ensures
        !is_verbatim(root@) ==> join_shape(dirs.0@, root@, "waves"@),
        !is_verbatim(root@) ==> join_shape(dirs.1@, root@, "wavesfinished"@),
        !is_verbatim(dirs.1@) ==> join_shape(dirs.2@, dirs.1@, "UncapturedPO"@),
        (!is_verbatim(root@) && !is_verbatim_stub(root@)) ==> !is_verbatim(dirs.1@),
{
    proof {
        reveal_strlit("waves");
        reveal_strlit("wavesfinished");
        reveal_strlit("UncapturedPO");
    }
    let waves = path_join(root, "waves");
    let finished = path_join(root, "wavesfinished");
    let error = path_join(finished.as_str(), "UncapturedPO");
    proof {
        if !is_verbatim(root@) && !is_verbatim_stub(root@) {
            lemma_join_keeps_non_verbatim(finished@, root@, "wavesfinished"@);
        }
    }
    (waves, finished, error)
}

/// Whether `base` is three characters ending in `?`: the one kind of
/// non-verbatim base that joining a name can turn into a verbatim-looking path.
pub open spec fn is_verbatim_stub(base: Seq<char>) -> bool {
    base.len() == 3 && base[2] == '?'
}

/// Joining a plain name to a base that is neither verbatim nor a verbatim stub
/// never yields a verbatim path.
proof fn lemma_join_keeps_non_verbatim(res: Seq<char>, base: Seq<char>, name: Seq<char>)
    requires
        !is_verbatim(base),
        !is_verbatim_stub(base),
        is_plain_name(name),
        joined_as(res, base, name),
    ensures
        !is_verbatim(res),
{
    let sep = choose|sep: Seq<char>|
        sep.len() <= 1 && (sep.len() == 1 ==> is_separator_char(sep[0])) && res == base + sep + name;
    if is_verbatim(res) {
        if base.len() >= 4 {
            assert(res[0] == base[0] && res[1] == base[1] && res[2] == base[2] && res[3] == base[3]);
        } else if base.len() == 3 {
            assert(res[2] == base[2]);
        } else if sep.len() == 1 {
            // a letter of `name` stands where a verbatim prefix has `?` or a separator
            assert(res[base.len() + 1int] == name[0]);
            if base.len() == 0 {
                assert(res[2] == name[1]);
            }
        } else {
            // a letter of `name` stands where a verbatim prefix has `?` or a separator
            assert(res[base.len() as int] == name[0]);
            if base.len() < 2 {
                assert(res[2] == name[2 - base.len() as int]);
            }
        }
    }
}

/// The three directories of `derive_dirs`, whenever std's join gives them
/// their documented shape (for every root that is not verbatim and whose
/// `wavesfinished` is not verbatim): they are distinct, and neither
/// `wavesfinished` nor `UncapturedPO` lies inside the watched `waves`.
pub proof fn lemma_dirs_beside_waves(root: Seq<char>, waves: Seq<char>, finished: Seq<char>, error: Seq<char>)
    requires
        joined_as(waves, root, "waves"@),
        joined_as(finished, root, "wavesfinished"@),
        joined_as(error, finished, "UncapturedPO"@),
    ensures
        forall|c: char|
            is_separator_char(c) ==> !(#[trigger] (waves + seq![c])).is_prefix_of(finished),
        forall|c: char| is_separator_char(c) ==> !(#[trigger] (waves + seq![c])).is_prefix_of(error),
        waves != finished,
        finished != error,
        waves != error,
{
    reveal_strlit("waves");
    reveal_strlit("wavesfinished");
    reveal_strlit("UncapturedPO");
    let s1 = choose|sep: Seq<char>|
        sep.len() <= 1 && (sep.len() == 1 ==> is_separator_char(sep[0])) && waves == root + sep
            + "waves"@;
    let s2 = choose|sep: Seq<char>|
        sep.len() <= 1 && (sep.len() == 1 ==> is_separator_char(sep[0])) && finished == root + sep
            + "wavesfinished"@;
    let s3 = choose|sep: Seq<char>|
        sep.len() <= 1 && (sep.len() == 1 ==> is_separator_char(sep[0])) && error == finished + sep
            + "UncapturedPO"@;
    let r: int = root.len() as int;
    assert forall|c: char| is_separator_char(c) implies !(#[trigger] (waves + seq![c])).is_prefix_of(finished) by {
        let w = waves + seq![c];
        if s1.len() == s2.len() {
            let k = r + s1.len() + 5;
            assert(w[k] == c);
            assert(finished[k] == 'f');
        } else if s1.len() == 0 {
            assert(w[r] == 'w');
            assert(finished[r] == s2[0]);
        } else {
            assert(w[r] == s1[0]);
            assert(finished[r] == 'w');
        }
    }
    assert forall|c: char| is_separator_char(c) implies !(#[trigger] (waves + seq![c])).is_prefix_of(error) by {
        let w = waves + seq![c];
        if w.is_prefix_of(error) {
            assert(w.len() <= finished.len());
            assert forall|i: int| 0 <= i < w.len() implies w[i] == finished[i] by {
                assert(error[i] == finished[i]);
            }
            assert(w.is_prefix_of(finished));
            if s1.len() == s2.len() {
                let k = r + s1.len() + 5;
                assert(w[k] == c);
                assert(finished[k] == 'f');
            } else if s1.len() == 0 {
                assert(w[r] == 'w');
                assert(finished[r] == s2[0]);
            } else {
                assert(w[r] == s1[0]);
                assert(finished[r] == 'w');
            }
        }
    }
    assert(waves.len() != finished.len());
    assert(finished.len() != error.len());
    assert(waves.len() != error.len());
}

// ── Names of processed files ────────────────────────────────────────────────

pub open spec fn is_lower_hex_digit(c: char) -> bool {
    ('0' <= c <= '9') || ('a' <= c <= 'f')
}

/// Characters that would split a file name into several path components (or,
/// on Windows, start a drive prefix).
pub open spec fn is_path_special(c: char) -> bool {
    c == '/' || c == '\\' || c == ':'
}

/// `s` with every path-special character replaced by `_`.
pub open spec fn component_safe(s: Seq<char>) -> Seq<char> {
    s.map_values(|c: char| if is_path_special(c) { '_' } else { c })
}

/// `s` with `/`, `\` and `:` replaced by `_`, so that it can stand inside a
/// single file name.
pub fn sanitize_component(s: &str) -> (out: String)
    ensures
        out@ == component_safe(s@),
{
    let n = s.unicode_len();
    let mut out = String::new();
    let mut i: usize = 0;
    while i < n
        invariant
            n == s@.len(),
            i <= n,
            out@ == component_safe(s@.take(i as int)),
        decreases n - i,
    {
        let c = s.get_char(i);
        if c == '/' || c == '\\' || c == ':' {
            push_char(&mut out, '_');
        } else {
            push_char(&mut out, c);
        }
        proof {
            assert(component_safe(s@.take(i + 1)) =~= component_safe(s@.take(i as int)).push(
                if is_path_special(c) { '_' } else { c },
            ));
        }
        i = i + 1;
    }
    proof {
        assert(s@.take(n as int) =~= s@);
    }
    out
}

/// `.ext` for an extension, nothing when there is none.
pub open spec fn dotted_extension(ext: Option<Seq<char>>) -> Seq<char> {
    match ext {
        Some(e) => seq!['.'] + e,
        None => Seq::empty(),
    }
}

pub open spec fn opt_str_view(o: Option<&str>) -> Option<Seq<char>> {
    match o {
        Some(s) => Some(s@),
        None => None,
    }
}

/// The name a file with identifier `po` gets: `<po>_<first 6 chars of uuid><.ext>`.
pub open spec fn suffixed_name(po: Seq<char>, uuid: Seq<char>, ext: Option<Seq<char>>) -> Seq<char> {
    po + seq!['_'] + uuid.subrange(0, 6) + dotted_extension(ext)
}

pub open spec fn has_path_special(s: Seq<char>) -> bool {
    exists|i: int| 0 <= i < s.len() && is_path_special(#[trigger] s[i])
}

/// A name that is exactly one path component on every platform: not empty,
/// not `.` or `..`, and without `/`, `\` or `:`.
pub open spec fn is_single_component(name: Seq<char>) -> bool {
    &&& is_normal_segment(name)
    &&& !has_path_special(name)
}

/// The destination name `<po>_<suffix><.ext>`, where the suffix is the first six
/// characters of the simple rendering of a UUID.
pub fn name_with_suffix(po: &str, uuid_simple: &str, extension: Option<&str>) -> (name: String)
    requires
        uuid_simple@.len() >= 6,
    ensures
        name@ == suffixed_name(po@, uuid_simple@, opt_str_view(extension)),
{
    let mut name = String::from_str(po);
    name.append("_");
    name.append(uuid_simple.substring_char(0, 6));
    match extension {
        Some(e) => {
            name.append(".");
            name.append(e);
        },
        None => {},
    }
    proof {
        reveal_strlit("_");
        reveal_strlit(".");
        assert(name@ =~= suffixed_name(po@, uuid_simple@, opt_str_view(extension)));
    }
    name
}

/// Text without `/` is its own last segment.
proof fn lemma_after_last_slash_of_slash_free(p: Seq<char>)
    requires
        !p.contains('/'),
    ensures
        after_last_slash(p) == p,
    decreases p.len(),
{
    if p.len() > 0 {
        assert(!p.drop_last().contains('/')) by {
            if p.drop_last().contains('/') {
                let i = choose|i: int| 0 <= i < p.drop_last().len() && p.drop_last()[i] == '/';
                assert(p[i] == '/');
            }
        }
        lemma_after_last_slash_of_slash_free(p.drop_last());
        assert(p.last() != '/') by {
            assert(p[p.len() - 1] == p.last());
        }
        assert(p.drop_last().push(p.last()) =~= p);
    }
}

/// A name that is one path component on every platform is also its own file
/// name as far as std's `Path::file_name` is concerned.
proof fn lemma_single_component_is_plain_path(name: Seq<char>)
    requires
        is_single_component(name),
    ensures
        is_plain_path(name),
        after_last_slash(name) == name,
{
    assert(!name.contains('/')) by {
        if name.contains('/') {
            let i = choose|i: int| 0 <= i < name.len() && name[i] == '/';
            assert(is_path_special(name[i]));
        }
    }
    assert(!name.contains('\\')) by {
        if name.contains('\\') {
            let i = choose|i: int| 0 <= i < name.len() && name[i] == '\\';
            assert(is_path_special(name[i]));
        }
    }
    assert(!name.contains(':')) by {
        if name.contains(':') {
            let i = choose|i: int| 0 <= i < name.len() && name[i] == ':';
            assert(is_path_special(name[i]));
        }
    }
    lemma_after_last_slash_of_slash_free(name);
}

/// `name` itself when std's `Path::file_name` takes the whole of it as the
/// file name (so that the file stays in the directory it is joined to);
/// otherwise `name` with `/`, `\` and `:` replaced by `_`.
pub fn keep_in_directory(name: String) -> (kept: String)
    ensures
        kept@ == name@ || kept@ == component_safe(name@),
        kept@ != name@ ==> !has_path_special(kept@),
        is_single_component(name@) ==> kept@ == name@,
{
    let whole = match path_file_name(name.as_str()) {
        Some(n) => n == name,
        None => false,
    };
    proof {
        if is_single_component(name@) {
            lemma_single_component_is_plain_path(name@);
        }
    }
    if whole {
        name
    } else {
        let safe = sanitize_component(name.as_str());
        proof {
            assert(!has_path_special(safe@));
        }
        safe
    }
}

/// Replacing `/`, `\` and `:` leaves a `<po>_<hex><.ext>` name a single path component.
pub proof fn lemma_sanitized_name_is_one_component(po: Seq<char>, uuid: Seq<char>, ext: Option<Seq<char>>)
    requires
        uuid.len() >= 6,
        forall|i: int| 0 <= i < 6 ==> is_lower_hex_digit(#[trigger] uuid[i]),
    ensures
        is_single_component(component_safe(suffixed_name(po, uuid, ext))),
{
    let s = component_safe(suffixed_name(po, uuid, ext));
    assert(s.len() >= 7);
    assert(s.len() != 1 && s.len() != 2);
    assert(!has_path_special(s));
}

/// A `<po>_<hex><.ext>` name built from an identifier and an extension without
/// `/`, `\` or `:` is a single path component.
pub proof fn lemma_plain_name_is_one_component(po: Seq<char>, uuid: Seq<char>, ext: Option<Seq<char>>)
    requires
        uuid.len() >= 6,
        forall|i: int| 0 <= i < 6 ==> is_lower_hex_digit(#[trigger] uuid[i]),
        !has_path_special(po),
        ext matches Some(e) ==> !has_path_special(e),
    ensures
        is_single_component(suffixed_name(po, uuid, ext)),
{
    let name = suffixed_name(po, uuid, ext);
    assert(name.len() >= 7);
    assert(name.len() != 1 && name.len() != 2);
    assert forall|i: int| 0 <= i < name.len() implies !is_path_special(#[trigger] name[i]) by {
        if i < po.len() {
            assert(name[i] == po[i]);
        } else if i == po.len() {
            assert(name[i] == '_');
        } else if i < po.len() + 7 {
            assert(name[i] == uuid[i - po.len() - 1]);
            assert(is_lower_hex_digit(uuid[i - po.len() - 1]));
        } else {
            let e = ext->Some_0;
            let d = seq!['.'] + e;
            assert(name[i] == d[i - po.len() - 7]);
            if i - po.len() - 7 > 0 {
                assert(d[i - po.len() - 7] == e[i - po.len() - 8]);
            }
        }
    }
}

/// The name under which a processed file is stored in its destination directory.
///
/// With an identifier the name is `<po>_<6-hex-chars><.ext>`, the hex characters
/// being the first six of a UUID freshly drawn on this call (which keeps names
/// apart); should that name not be a single file
/// name on this platform (it holds a path separator, or on Windows a drive
/// prefix), `/`, `\` and `:` in it are replaced by `_` so that the file stays
/// in its directory. Without an identifier the file keeps its name.
pub fn move_target_name(po_number: Option<&str>, extension: Option<&str>, file_name: &str) -> (name: String)
    ensures
        po_number is None ==> name@ == file_name@,
        po_number matches Some(po) ==> exists|u: Seq<char>|
            {
                &&& u.len() == 32
                &&& (forall|i: int| 0 <= i < 32 ==> is_lower_hex_digit(#[trigger] u[i]))
                &&& exists|d: DrawnUuid| #[trigger] d.text() == u
                &&& (name@ == suffixed_name(po@, u, opt_str_view(extension)) || name@
                    == component_safe(suffixed_name(po@, u, opt_str_view(extension))))
                &&& (!has_path_special(po@) && (extension matches Some(e) ==> !has_path_special(e@)))
                    ==> name@ == suffixed_name(po@, u, opt_str_view(extension))
                &&& name@ != suffixed_name(po@, u, opt_str_view(extension)) ==> is_single_component(name@)
            },
{
    match po_number {
        Some(po) => {
            let drawn = random_uuid_simple();
            let u = drawn.as_str();
            let raw = name_with_suffix(po, u, extension);
            let name = keep_in_directory(raw);
            proof {
                assert(u@.len() == 32);
                lemma_sanitized_name_is_one_component(po@, u@, opt_str_view(extension));
                if !has_path_special(po@) && (extension matches Some(e) ==> !has_path_special(e@)) {
                    lemma_plain_name_is_one_component(po@, u@, opt_str_view(extension));
                }
            }
            name
        },
        None => String::from_str(file_name),
    }
}

// ── File types ──────────────────────────────────────────────────────────────

/// What `str::to_lowercase` of std returns for `s`.
pub uninterp spec fn lowercase_of(s: Seq<char>) -> Seq<char>;

/// `str::to_lowercase` of std.
/// Trusted: the result is named by `lowercase_of`; nothing more is stated.
#[verifier::external_body]
fn to_lowercase(s: &str) -> (res: String)
    ensures
        res@ == lowercase_of(s@),
{
    s.to_lowercase()
}

/// Whether a file extension marks a PNG image (compared case-insensitively).
pub open spec fn is_png_ext(ext: Option<Seq<char>>) -> bool {
    match ext {
        Some(e) => lowercase_of(e) == "png"@,
        None => false,
    }
}

/// Whether an extension, already in lower case, is `png`.
pub fn is_png_lowercase(lower: &str) -> (png: bool)
    ensures
        png == (lower@ == "png"@),
{
    let png = String::from_str("png");
    let lower = String::from_str(lower);
    lower == png
}

/// Whether a file with this extension is an image the scanner processes.
pub fn is_png_extension(extension: Option<&str>) -> (png: bool)
    ensures
        png == is_png_ext(opt_str_view(extension)),
{
    match extension {
        Some(e) => {
            let lower = to_lowercase(e);
            is_png_lowercase(lower.as_str())
        },
        None => false,
    }
}

} // verus!
