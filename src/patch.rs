use vstd::prelude::*;
use crate::paths::{extension_of, file_extension, file_stem, join_path, joined, stem_of};

verus! {

/// The platforms for which a patcher is bundled.
#[derive(Clone, Copy, Debug, PartialEq, Eq, Structural)]
pub enum Platform {
    MacOs,
    Windows,
    Unsupported,
}

/// The platform that an operating system's name denotes.
pub open spec fn platform_of(os: Seq<char>) -> Platform {
    if os == "macos"@ {
        Platform::MacOs
    } else if os == "windows"@ {
        Platform::Windows
    } else {
        Platform::Unsupported
    }
}

/// The file name of the patcher bundled for a platform, if any.
pub open spec fn patcher_file(p: Platform) -> Option<Seq<char>> {
    match p {
        Platform::MacOs => Some("multipatch"@),
        Platform::Windows => Some("flips.exe"@),
        Platform::Unsupported => None,
    }
}

/// Where, under the bundled resources, the patcher for a platform lies.
pub open spec fn patcher_resource(p: Platform) -> Option<Seq<char>> {
    match patcher_file(p) {
        Some(f) => Some("resources/"@ + f),
        None => None,
    }
}

/// Whether a file name carries a patch extension, `bps` or `ips`, matched
/// exactly.
pub open spec fn is_patch_name(name: Seq<char>) -> bool {
    extension_of(name) == Some("bps"@) || extension_of(name) == Some("ips"@)
}

/// The patch files among the names of a listing, in listing order.
pub open spec fn patch_names(names: Seq<Seq<char>>) -> Seq<Seq<char>>
    decreases names.len(),
{
    if names.len() == 0 {
        seq![]
    } else if is_patch_name(names.last()) {
        patch_names(names.drop_last()).push(names.last())
    } else {
        patch_names(names.drop_last())
    }
}

/// The name of the output that a patch file produces: its stem with the
/// extension `sfc`.
pub open spec fn output_name(patch: Seq<char>) -> Seq<char> {
    match stem_of(patch) {
        Some(st) => st + ".sfc"@,
        None => ".sfc"@,
    }
}

/// The arguments with which the patcher applies `patch`, found in `dir`, to
/// `base`.
pub open spec fn apply_args(dir: Seq<char>, patch: Seq<char>, base: Seq<char>) -> Seq<Seq<char>> {
    seq!["--apply"@, joined(dir, patch), base, joined(dir, output_name(patch))]
}

/// One launch of an outside program, not waited for.
pub struct Launch {
    pub program: String,
    pub args: Vec<String>,
}

/// The views of a vector of strings.
pub open spec fn views(v: Seq<String>) -> Seq<Seq<char>> {
    v.map_values(|s: String| s@)
}

impl Launch {
    /// The program and the views of its arguments.
    pub open spec fn view(&self) -> (Seq<char>, Seq<Seq<char>>) {
        (self.program@, views(self.args@))
    }
}

/// The platform that the operating system named `os` denotes.
pub fn platform(os: &str) -> (r: Platform)
    ensures
        r == platform_of(os@),
{
    let s = String::from_str(os);
    if s == String::from_str("macos") {
        Platform::MacOs
    } else if s == String::from_str("windows") {
        Platform::Windows
    } else {
        Platform::Unsupported
    }
}

/// Where the patcher for `p` lies under the bundled resources, or `None` on
/// a platform with no patcher.
pub fn patcher_path(p: Platform) -> (r: Option<String>)
    ensures
        match r {
            Some(v) => patcher_resource(p) == Some(v@),
            None => patcher_resource(p) is None,
        },
{
    match p {
        Platform::MacOs => Some(String::from_str("resources/").concat("multipatch")),
        Platform::Windows => Some(String::from_str("resources/").concat("flips.exe")),
        Platform::Unsupported => None,
    }
}

/// Whether `name` carries a patch extension.
pub fn is_patch(name: &str) -> (r: bool)
    ensures
        r == is_patch_name(name@),
{
    match file_extension(name) {
        Some(e) => e == String::from_str("bps") || e == String::from_str("ips"),
        None => false,
    }
}

/// The launches that apply, one by one, every patch file named in `names` (a
/// listing of `dir`) to `base` with the patcher at `patcher`.
pub fn patch_launches(patcher: &str, dir: &str, names: &Vec<String>, base: &str) -> (r: Vec<Launch>)
    ensures
        r@.len() == patch_names(views(names@)).len(),
        forall|i: int|
            0 <= i < r@.len() ==> #[trigger] r@[i].view() == (
                patcher@,
                apply_args(dir@, patch_names(views(names@))[i], base@),
            ),
{
    let mut out: Vec<Launch> = Vec::new();
    let mut k: usize = 0;
    while k < names.len()
        invariant
            k <= names@.len(),
            out@.len() == patch_names(views(names@.subrange(0, k as int))).len(),
            forall|i: int|
                0 <= i < out@.len() ==> #[trigger] out@[i].view() == (
                    patcher@,
                    apply_args(dir@, patch_names(views(names@.subrange(0, k as int)))[i], base@),
                ),
        decreases names@.len() - k,
    {
        let ghost before = views(names@.subrange(0, k as int));
        let ghost after = views(names@.subrange(0, k + 1));
        assert(after.drop_last() =~= before);
        assert(after.last() == names@[k as int]@);
        let name = &names[k];
        if is_patch(name.as_str()) {
            let stem = match file_stem(name.as_str()) {
                Some(st) => st,
                None => String::new(),
            };
            let output = stem.concat(".sfc");
            let mut args: Vec<String> = Vec::new();
            args.push(String::from_str("--apply"));
            args.push(join_path(dir, name.as_str()));
            args.push(String::from_str(base));
            args.push(join_path(dir, output.as_str()));
            let launch = Launch { program: String::from_str(patcher), args };
            proof {
                assert(views(args@) =~= apply_args(dir@, name@, base@));
            }
            out.push(launch);
        }
        k = k + 1;
    }
    assert(names@.subrange(0, names@.len() as int) =~= names@);
    out
}

} // verus!
