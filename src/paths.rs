use vstd::prelude::*;

verus! {

/// A path separator, either form.
pub open spec fn is_sep(c: char) -> bool {
    c == '/' || c == '\\'
}

/// `s` with every leading separator removed.
pub open spec fn trim_leading_seps(s: Seq<char>) -> Seq<char>
    decreases s.len(),
{
    if s.len() > 0 && is_sep(s[0]) {
        trim_leading_seps(s.drop_first())
    } else {
        s
    }
}

/// `base` followed by `name`, with one `/` between them unless `base` is
/// empty or already ends in a separator.
pub open spec fn joined(base: Seq<char>, name: Seq<char>) -> Seq<char> {
    if base.len() == 0 || base.last() == '/' {
        base + name
    } else {
        base + seq!['/'] + name
    }
}

/// The view of an optional borrowed string.
pub open spec fn home_view(home: Option<&str>) -> Option<Seq<char>> {
    match home {
        Some(h) => Some(h@),
        None => None,
    }
}

/// Whether `path` is the home shorthand: `~` alone, or `~` and a separator.
pub open spec fn is_home_shorthand(path: Seq<char>) -> bool {
    path.len() > 0 && path[0] == '~' && (path.len() == 1 || is_sep(path[1]))
}

/// What a path means once the home shorthand is expanded against `home`.
pub open spec fn expanded(path: Seq<char>, home: Option<Seq<char>>) -> Seq<char> {
    if is_home_shorthand(path) && home is Some {
        let rest = trim_leading_seps(path.subrange(1, path.len() as int));
        if rest.len() == 0 {
            home->0
        } else {
            joined(home->0, rest)
        }
    } else {
        path
    }
}

/// Index of the last `c` in `s`, or -1.
pub open spec fn last_index_of(s: Seq<char>, c: char) -> int
    decreases s.len(),
{
    if s.len() == 0 {
        -1
    } else if s.last() == c {
        s.len() - 1
    } else {
        last_index_of(s.drop_last(), c)
    }
}

/// Index of the first `c` in `s`, or the length of `s`.
pub open spec fn first_index_of(s: Seq<char>, c: char) -> int
    decreases s.len(),
{
    if s.len() == 0 {
        0
    } else if s[0] == c {
        0
    } else {
        1 + first_index_of(s.drop_first(), c)
    }
}

/// The part of `s` after its last `/`.
pub open spec fn last_segment(s: Seq<char>) -> Seq<char> {
    s.subrange(last_index_of(s, '/') + 1, s.len() as int)
}

/// Whether a segment names no file: empty, `.` or `..`.
pub open spec fn is_nameless(seg: Seq<char>) -> bool {
    seg.len() == 0 || seg == seq!['.'] || seg == seq!['.', '.']
}

/// The stem of a file name: everything before its last dot, unless that dot
/// leads the name or there is none. A nameless segment has no stem.
pub open spec fn stem_of(seg: Seq<char>) -> Option<Seq<char>> {
    if is_nameless(seg) {
        None
    } else if last_index_of(seg, '.') <= 0 {
        Some(seg)
    } else {
        Some(seg.subrange(0, last_index_of(seg, '.')))
    }
}

/// The extension of a file name: what follows its last dot, where that dot
/// neither leads the name nor is missing.
pub open spec fn extension_of(seg: Seq<char>) -> Option<Seq<char>> {
    if is_nameless(seg) || last_index_of(seg, '.') <= 0 {
        None
    } else {
        Some(seg.subrange(last_index_of(seg, '.') + 1, seg.len() as int))
    }
}

proof fn lemma_last_index_bounds(s: Seq<char>, c: char)
    ensures
        -1 <= last_index_of(s, c) < s.len(),
        last_index_of(s, c) >= 0 ==> s[last_index_of(s, c)] == c,
        forall|j: int| last_index_of(s, c) < j < s.len() ==> s[j] != c,
    decreases s.len(),
{
    if s.len() > 0 && s.last() != c {
        lemma_last_index_bounds(s.drop_last(), c);
        assert forall|j: int| last_index_of(s, c) < j < s.len() implies s[j] != c by {
            if j < s.len() - 1 {
                assert(s[j] == s.drop_last()[j]);
            }
        }
    }
}

proof fn lemma_first_index_bounds(s: Seq<char>, c: char)
    ensures
        0 <= first_index_of(s, c) <= s.len(),
        first_index_of(s, c) < s.len() ==> s[first_index_of(s, c)] == c,
        forall|j: int| 0 <= j < first_index_of(s, c) ==> s[j] != c,
    decreases s.len(),
{
    if s.len() > 0 && s[0] != c {
        lemma_first_index_bounds(s.drop_first(), c);
        assert forall|j: int| 0 <= j < first_index_of(s, c) implies s[j] != c by {
            if j > 0 {
                assert(s[j] == s.drop_first()[j - 1]);
            }
        }
    }
}

/// The last `c` in `s` is found by scanning back: a helper for loops.
proof fn lemma_last_index_prefix(s: Seq<char>, c: char, i: int)
    requires
        0 <= i <= s.len(),
        forall|j: int| i <= j < s.len() ==> s[j] != c,
    ensures
        last_index_of(s, c) == last_index_of(s.subrange(0, i), c),
    decreases s.len() - i,
{
    if i < s.len() {
        assert(s.drop_last() =~= s.subrange(0, s.len() - 1));
        assert(s.subrange(0, s.len() - 1).subrange(0, i) =~= s.subrange(0, i));
        lemma_last_index_prefix(s.drop_last(), c, i);
    } else {
        assert(s.subrange(0, i) =~= s);
    }
}

/// Position of the last `c` in `s`, or -1.
pub fn find_last(s: &str, c: char) -> (r: Option<usize>)
    ensures
        match r {
            Some(i) => i as int == last_index_of(s@, c) && i < s@.len(),
            None => last_index_of(s@, c) == -1,
        },
{
    let n = s.unicode_len();
    let mut i: usize = n;
    while i > 0
        invariant
            i <= n,
            n == s@.len(),
            forall|j: int| i <= j < n ==> s@[j] != c,
        decreases i,
    {
        if s.get_char(i - 1) == c {
            proof {
                lemma_last_index_prefix(s@, c, i as int);
                assert(s@.subrange(0, i as int).last() == c);
            }
            return Some(i - 1);
        }
        i = i - 1;
    }
    proof {
        lemma_last_index_prefix(s@, c, 0);
    }
    None
}

/// Position of the first `c` in `s`, or the length of `s`.
pub fn find_first(s: &str, c: char) -> (r: usize)
    ensures
        r as int == first_index_of(s@, c),
        r <= s@.len(),
{
    let n = s.unicode_len();
    let mut i: usize = 0;
    while i < n
        invariant
            i <= n,
            n == s@.len(),
            forall|j: int| 0 <= j < i ==> s@[j] != c,
        decreases n - i,
    {
        if s.get_char(i) == c {
            proof {
                lemma_first_index_bounds(s@, c);
            }
            return i;
        }
        i = i + 1;
    }
    proof {
        lemma_first_index_bounds(s@, c);
    }
    n
}

/// Joins `name` under `base` with a single `/`.
pub fn join_path(base: &str, name: &str) -> (r: String)
    ensures
        r@ == joined(base@, name@),
{
    let n = base.unicode_len();
    let out = String::from_str(base);
    if n == 0 || base.get_char(n - 1) == '/' {
        out.concat(name)
    } else {
        proof {
            reveal_strlit("/");
        }
        out.concat("/").concat(name)
    }
}

/// Expands the home shorthand in `path` against `home`, the user's home
/// directory where it is known. Any other path comes back as it was.
pub fn expand_tilde(path: &str, home: Option<&str>) -> (r: String)
    ensures
        r@ == expanded(path@, home_view(home)),
{
    let n = path.unicode_len();
    let h = match home {
        Some(h) => h,
        None => {
            return String::from_str(path);
        },
    };
    if n == 0 || path.get_char(0) != '~' || (n > 1 && !is_separator(path.get_char(1))) {
        return String::from_str(path);
    }
    let ghost rest0 = path@.subrange(1, n as int);
    let mut i: usize = 1;
    while i < n && is_separator(path.get_char(i))
        invariant
            1 <= i <= n,
            n == path@.len(),
            trim_leading_seps(rest0) == trim_leading_seps(path@.subrange(i as int, n as int)),
        decreases n - i,
    {
        proof {
            let t = path@.subrange(i as int, n as int);
            assert(t.drop_first() =~= path@.subrange(i + 1, n as int));
        }
        i = i + 1;
    }
    proof {
        let t = path@.subrange(i as int, n as int);
        if i < n {
            assert(t[0] == path@[i as int]);
        }
    }
    if i == n {
        String::from_str(h)
    } else {
        join_path(h, path.substring_char(i, n))
    }
}

/// Whether `c` separates path components.
pub fn is_separator(c: char) -> (r: bool)
    ensures
        r == is_sep(c),
{
    c == '/' || c == '\\'
}

/// The view of an optional string.
pub open spec fn opt_view(o: Option<String>) -> Option<Seq<char>> {
    match o {
        Some(v) => Some(v@),
        None => None,
    }
}

/// Whether `seg` is empty, `.` or `..`.
pub fn nameless(seg: &str) -> (r: bool)
    ensures
        r == is_nameless(seg@),
{
    let n = seg.unicode_len();
    if n == 0 {
        return true;
    }
    if n > 2 {
        proof {
            assert(seg@.len() != seq!['.'].len());
            assert(seg@.len() != seq!['.', '.'].len());
        }
        return false;
    }
    if seg.get_char(0) != '.' {
        proof {
            assert(seg@[0] != seq!['.'][0]);
            assert(seg@[0] != seq!['.', '.'][0]);
        }
        return false;
    }
    if n == 1 {
        proof {
            assert(seg@ =~= seq!['.']);
        }
        return true;
    }
    let d = seg.get_char(1) == '.';
    proof {
        if d {
            assert(seg@ =~= seq!['.', '.']);
        } else {
            assert(seg@[1] != seq!['.', '.'][1]);
            assert(seg@.len() != seq!['.'].len());
        }
    }
    d
}

/// The stem of the file name `seg`.
pub fn file_stem(seg: &str) -> (r: Option<String>)
    ensures
        opt_view(r) == stem_of(seg@),
{
    if nameless(seg) {
        return None;
    }
    match find_last(seg, '.') {
        Some(d) if d > 0 => Some(String::from_str(seg.substring_char(0, d))),
        _ => Some(String::from_str(seg)),
    }
}

/// The extension of the file name `seg`.
pub fn file_extension(seg: &str) -> (r: Option<String>)
    ensures
        opt_view(r) == extension_of(seg@),
{
    if nameless(seg) {
        return None;
    }
    let n = seg.unicode_len();
    match find_last(seg, '.') {
        Some(d) if d > 0 => Some(String::from_str(seg.substring_char(d + 1, n))),
        _ => None,
    }
}

/// The part of `s` after its last `/`.
pub fn last_segment_of(s: &str) -> (r: String)
    ensures
        r@ == last_segment(s@),
{
    let n = s.unicode_len();
    match find_last(s, '/') {
        Some(d) => String::from_str(s.substring_char(d + 1, n)),
        None => String::from_str(s.substring_char(0, n)),
    }
}

/// The part of `s` before its first `c`.
pub fn before_first(s: &str, c: char) -> (r: String)
    ensures
        r@ == s@.subrange(0, first_index_of(s@, c)),
{
    let d = find_first(s, c);
    String::from_str(s.substring_char(0, d))
}

/// Expanding the home shorthand gives a path under the home directory where
/// that is known, and the path unchanged where it is not.
pub proof fn law_expansion_under_home(path: Seq<char>, home: Option<Seq<char>>)
    requires
        is_home_shorthand(path),
    ensures
        match home {
            Some(h) => h.is_prefix_of(expanded(path, home)),
            None => expanded(path, home) == path,
        },
{
    if let Some(h) = home {
        let r = expanded(path, home);
        let rest = trim_leading_seps(path.subrange(1, path.len() as int));
        if rest.len() != 0 {
            if h.len() == 0 || h.last() == '/' {
                assert((h + rest).subrange(0, h.len() as int) =~= h);
            } else {
                assert((h + seq!['/'] + rest).subrange(0, h.len() as int) =~= h);
            }
        } else {
            assert(r.subrange(0, h.len() as int) =~= h);
        }
    }
}

} // verus!
