use vstd::prelude::*;
use crate::paths::{expand_tilde, expanded, home_view};

verus! {

/// A character that a hack name may not hold.
pub open spec fn is_reserved(c: char) -> bool {
    c == '"' || c == '*' || c == '/' || c == ':' || c == '<' || c == '>' || c == '?'
        || c == '\\' || c == '|'
}

/// Index of the first reserved character of `s`, or the length of `s`.
pub open spec fn first_reserved(s: Seq<char>) -> int
    decreases s.len(),
{
    if s.len() == 0 {
        0
    } else if is_reserved(s[0]) {
        0
    } else {
        1 + first_reserved(s.drop_first())
    }
}

/// The reason given for a name that holds the reserved character `c`.
pub open spec fn reserved_message(c: char) -> Seq<char> {
    "Name cannot contain character \""@ + seq![c] + "\""@
}

/// The reason given for an empty name.
pub open spec fn empty_name_message() -> Seq<char> {
    "No name has been specified"@
}

/// The failure reason of a `Result` as a sequence, when there is one.
pub open spec fn err_view(r: Result<(), String>) -> Option<Seq<char>> {
    match r {
        Ok(_) => None,
        Err(e) => Some(e@),
    }
}

proof fn lemma_first_reserved(s: Seq<char>)
    ensures
        0 <= first_reserved(s) <= s.len(),
        first_reserved(s) < s.len() ==> is_reserved(s[first_reserved(s)]),
        forall|j: int| 0 <= j < first_reserved(s) ==> !is_reserved(s[j]),
    decreases s.len(),
{
    if s.len() > 0 && !is_reserved(s[0]) {
        lemma_first_reserved(s.drop_first());
        assert forall|j: int| 0 <= j < first_reserved(s) implies !is_reserved(s[j]) by {
            if j > 0 {
                assert(s[j] == s.drop_first()[j - 1]);
            }
        }
    }
}

proof fn lemma_first_reserved_is(s: Seq<char>, i: int)
    requires
        0 <= i <= s.len(),
        i < s.len() ==> is_reserved(s[i]),
        forall|j: int| 0 <= j < i ==> !is_reserved(s[j]),
    ensures
        first_reserved(s) == i,
{
    lemma_first_reserved(s);
    if first_reserved(s) < i {
        assert(!is_reserved(s[first_reserved(s)]));
    }
    if i < first_reserved(s) {
        assert(!is_reserved(s[i]));
    }
}

/// Whether `c` is reserved in hack names.
pub fn reserved(c: char) -> (r: bool)
    ensures
        r == is_reserved(c),
{
    c == '"' || c == '*' || c == '/' || c == ':' || c == '<' || c == '>' || c == '?' || c == '\\'
        || c == '|'
}

/// Checks a hack name: it must be non-empty and hold no reserved character.
/// The reason names the first reserved character found.
pub fn validate_name(name: &str) -> (r: Result<(), String>)
    ensures
        name@.len() == 0 ==> err_view(r) == Some(empty_name_message()),
        name@.len() > 0 && first_reserved(name@) < name@.len() ==> err_view(r) == Some(
            reserved_message(name@[first_reserved(name@)]),
        ),
        r is Ok <==> name@.len() > 0 && first_reserved(name@) == name@.len(),
        forall|i: int|
            0 <= i < name@.len() && is_reserved(#[trigger] name@[i]) ==> first_reserved(name@) <= i
                && is_reserved(name@[first_reserved(name@)]) && err_view(r) == Some(
                reserved_message(name@[first_reserved(name@)]),
            ),
{
    proof {
        lemma_first_reserved(name@);
    }
    let n = name.unicode_len();
    if n == 0 {
        return Err(String::from_str("No name has been specified"));
    }
    let mut i: usize = 0;
    while i < n
        invariant
            i <= n,
            n == name@.len(),
            forall|j: int| 0 <= j < i ==> !is_reserved(name@[j]),
        decreases n - i,
    {
        let c = name.get_char(i);
        if reserved(c) {
            proof {
                lemma_first_reserved_is(name@, i as int);
            }
            let one = name.substring_char(i, i + 1);
            assert(one@ =~= seq![c]);
            let msg = String::from_str("Name cannot contain character \"").concat(one).concat("\"");
            return Err(msg);
        }
        i = i + 1;
    }
    proof {
        lemma_first_reserved_is(name@, n as int);
    }
    Ok(())
}

/// Checks a URL: only an empty one is refused.
pub fn validate_url(url: &str) -> (r: Result<(), String>)
    ensures
        url@.len() == 0 ==> err_view(r) == Some("No URL has been specified"@),
        r is Ok <==> url@.len() > 0,
{
    if url.unicode_len() == 0 {
        return Err(String::from_str("No URL has been specified"));
    }
    Ok(())
}

/// What a look at the file system found at a path.
#[derive(Clone, Copy, Debug, PartialEq, Eq, Structural)]
pub enum PathKind {
    /// Nothing is there.
    Missing,
    /// Something is there, but its metadata cannot be read.
    Unreadable,
    /// A directory.
    Directory,
    /// A regular file.
    File,
    /// Something else, such as a device.
    Other,
}

/// The reason, if any, for refusing a path that must name a directory, given
/// the path once expanded and what was found there.
pub open spec fn directory_failure(path: Seq<char>, kind: PathKind) -> Option<Seq<char>> {
    if path.len() == 0 {
        Some("No directory has been specified"@)
    } else if kind == PathKind::Missing {
        Some("Directory doesn't exist"@)
    } else if kind == PathKind::Unreadable {
        Some("This is not a valid path"@)
    } else if kind != PathKind::Directory {
        Some("This is not a directory"@)
    } else {
        None
    }
}

/// The reason, if any, for refusing a path that must name a regular file.
pub open spec fn file_failure(path: Seq<char>, kind: PathKind) -> Option<Seq<char>> {
    if path.len() == 0 {
        Some("No file has been specified"@)
    } else if kind == PathKind::Missing {
        Some("File doesn't exist"@)
    } else if kind == PathKind::Unreadable {
        Some("This is not a valid path"@)
    } else if kind != PathKind::File {
        Some("This is not a file"@)
    } else {
        None
    }
}

/// Checks that `path`, with the home shorthand expanded against `home`, names
/// a directory; `kind` is what the file system holds at the expanded path.
pub fn validate_directory_path(path: &str, home: Option<&str>, kind: PathKind) -> (r: Result<
    (),
    String,
>)
    ensures
        err_view(r) == directory_failure(expanded(path@, home_view(home)), kind),
{
    let e = expand_tilde(path, home);
    if e.as_str().unicode_len() == 0 {
        return Err(String::from_str("No directory has been specified"));
    }
    match kind {
        PathKind::Missing => Err(String::from_str("Directory doesn't exist")),
        PathKind::Unreadable => Err(String::from_str("This is not a valid path")),
        PathKind::Directory => Ok(()),
        _ => Err(String::from_str("This is not a directory")),
    }
}

/// Checks that `path`, with the home shorthand expanded against `home`, names
/// a regular file; `kind` is what the file system holds at the expanded path.
pub fn validate_file_path(path: &str, home: Option<&str>, kind: PathKind) -> (r: Result<
    (),
    String,
>)
    ensures
        err_view(r) == file_failure(expanded(path@, home_view(home)), kind),
{
    let e = expand_tilde(path, home);
    if e.as_str().unicode_len() == 0 {
        return Err(String::from_str("No file has been specified"));
    }
    match kind {
        PathKind::Missing => Err(String::from_str("File doesn't exist")),
        PathKind::Unreadable => Err(String::from_str("This is not a valid path")),
        PathKind::File => Ok(()),
        _ => Err(String::from_str("This is not a file")),
    }
}

} // verus!
