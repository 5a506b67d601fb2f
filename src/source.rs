use vstd::prelude::*;
use crate::paths::{
    before_first, expand_tilde, expanded, file_stem, first_index_of, home_view, join_path, joined,
    last_segment, last_segment_of, stem_of,
};

verus! {

/// Whether `s` begins with `p`.
pub open spec fn starts_with(s: Seq<char>, p: Seq<char>) -> bool {
    p.len() <= s.len() && s.subrange(0, p.len() as int) == p
}

/// Whether a hack source names a remote archive rather than a local file.
pub open spec fn is_remote_source(source: Seq<char>) -> bool {
    starts_with(source, "http://"@) || starts_with(source, "https://"@)
}

/// A white-space character, as Unicode's `White_Space` property lists them.
pub open spec fn is_white(c: char) -> bool {
    ('\u{9}' <= c <= '\u{d}') || c == ' ' || c == '\u{85}' || c == '\u{a0}' || c == '\u{1680}'
        || ('\u{2000}' <= c <= '\u{200a}') || c == '\u{2028}' || c == '\u{2029}' || c
        == '\u{202f}' || c == '\u{205f}' || c == '\u{3000}'
}

/// Whether `s` holds nothing but white space.
pub open spec fn is_blank(s: Seq<char>) -> bool {
    forall|i: int| 0 <= i < s.len() ==> is_white(s[i])
}

/// The name used where a source yields no file stem.
pub open spec fn fallback_name() -> Seq<char> {
    "hack"@
}

/// The file name that a source points at: for a URL, the last segment of
/// the part before any query; for a local path, its last segment once the
/// home shorthand is expanded.
pub open spec fn source_file_name(source: Seq<char>, home: Option<Seq<char>>) -> Seq<char> {
    if is_remote_source(source) {
        last_segment(source.subrange(0, first_index_of(source, '?')))
    } else {
        last_segment(expanded(source, home))
    }
}

/// The install folder name that a source implies: the stem of its file name,
/// or the fallback name where there is none.
pub open spec fn derived_name(source: Seq<char>, home: Option<Seq<char>>) -> Seq<char> {
    match stem_of(source_file_name(source, home)) {
        Some(st) => st,
        None => fallback_name(),
    }
}

/// The install folder name: the given name unless it is blank, else the
/// name derived from the source.
pub open spec fn effective_name(name: Seq<char>, source: Seq<char>, home: Option<Seq<char>>) -> Seq<
    char,
> {
    if is_blank(name) {
        derived_name(source, home)
    } else {
        name
    }
}

/// Where a hack is resolved to be installed.
pub struct ResolvedHack {
    /// The name of the install folder.
    pub name: String,
    /// The install folder: the game directory joined with the name.
    pub install_directory: String,
    /// Whether the archive is fetched over the network.
    pub remote: bool,
}

/// Whether `s` begins with `p`.
pub fn has_prefix(s: &str, p: &str) -> (r: bool)
    ensures
        r == starts_with(s@, p@),
{
    let n = s.unicode_len();
    let m = p.unicode_len();
    if m > n {
        return false;
    }
    let mut i: usize = 0;
    while i < m
        invariant
            i <= m <= n,
            n == s@.len(),
            m == p@.len(),
            forall|j: int| 0 <= j < i ==> s@[j] == p@[j],
        decreases m - i,
    {
        if s.get_char(i) != p.get_char(i) {
            assert(s@.subrange(0, m as int)[i as int] != p@[i as int]);
            return false;
        }
        i = i + 1;
    }
    assert(s@.subrange(0, m as int) =~= p@);
    true
}

/// Whether a hack source names a remote archive.
pub fn is_remote(source: &str) -> (r: bool)
    ensures
        r == is_remote_source(source@),
{
    has_prefix(source, "http://") || has_prefix(source, "https://")
}

/// Whether `c` is white space.
pub fn white(c: char) -> (r: bool)
    ensures
        r == is_white(c),
{
    ('\u{9}' <= c && c <= '\u{d}') || c == ' ' || c == '\u{85}' || c == '\u{a0}' || c == '\u{1680}'
        || ('\u{2000}' <= c && c <= '\u{200a}') || c == '\u{2028}' || c == '\u{2029}' || c
        == '\u{202f}' || c == '\u{205f}' || c == '\u{3000}'
}

/// Whether `s` holds nothing but white space.
pub fn blank(s: &str) -> (r: bool)
    ensures
        r == is_blank(s@),
{
    let n = s.unicode_len();
    let mut i: usize = 0;
    while i < n
        invariant
            i <= n,
            n == s@.len(),
            forall|j: int| 0 <= j < i ==> is_white(s@[j]),
        decreases n - i,
    {
        if !white(s.get_char(i)) {
            return false;
        }
        i = i + 1;
    }
    true
}

/// The install folder name that `source` implies.
pub fn derive_name(source: &str, home: Option<&str>) -> (r: String)
    ensures
        r@ == derived_name(source@, home_view(home)),
{
    let file_name = if is_remote(source) {
        let without_query = before_first(source, '?');
        last_segment_of(without_query.as_str())
    } else {
        let local = expand_tilde(source, home);
        last_segment_of(local.as_str())
    };
    match file_stem(file_name.as_str()) {
        Some(st) => st,
        None => String::from_str("hack"),
    }
}

/// Resolves where a hack is installed: under `game_directory`, with the home
/// shorthand expanded, in a folder named `hack_name`, or, where that is
/// blank, after the file that `hack_source` points at.
pub fn resolve_hack(game_directory: &str, hack_name: &str, hack_source: &str, home: Option<&str>) -> (r:
    ResolvedHack)
    ensures
        r.name@ == effective_name(hack_name@, hack_source@, home_view(home)),
        r.install_directory@ == joined(expanded(game_directory@, home_view(home)), r.name@),
        r.remote == is_remote_source(hack_source@),
{
    let name = if blank(hack_name) {
        derive_name(hack_source, home)
    } else {
        String::from_str(hack_name)
    };
    let base = expand_tilde(game_directory, home);
    let install_directory = join_path(base.as_str(), name.as_str());
    ResolvedHack { name, install_directory, remote: is_remote(hack_source) }
}

} // verus!
