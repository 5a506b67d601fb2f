use vstd::prelude::*;
use crate::patch::{views, Launch};

verus! {

/// The words into which a POSIX shell would split a command line, or `None`
/// where a quote is left open.
pub uninterp spec fn shell_split_of(s: Seq<char>) -> Option<Seq<Seq<char>>>;

/// Relies on `shell_words::split`: it splits a command line into words by
/// the POSIX shell's quoting rules and fails only on malformed quoting. The
/// words depend on the text alone; an empty text gives no words.
#[verifier::external_body]
fn split_words(s: &str) -> (r: Option<Vec<String>>)
    ensures
        match r {
            Some(w) => shell_split_of(s@) == Some(views(w@)),
            None => shell_split_of(s@) is None,
        },
        s@.len() == 0 ==> r is Some && r->0@.len() == 0,
{
    shell_words::split(s).ok()
}

/// The placeholder that stands for the file to open.
pub open spec fn placeholder() -> Seq<char> {
    "%1"@
}

/// `words` with every word that is exactly the placeholder replaced by `file`.
pub open spec fn substituted(words: Seq<Seq<char>>, file: Seq<char>) -> Seq<Seq<char>> {
    words.map_values(|w: Seq<char>| if w == placeholder() { file } else { w })
}

/// The reason given for arguments that cannot be split.
pub open spec fn bad_arguments_message() -> Seq<char> {
    "Failed to parse emulator arguments"@
}

/// Replaces each word that is exactly the placeholder by `file_path`.
pub fn substitute_placeholder(words: &Vec<String>, file_path: &str) -> (r: Vec<String>)
    ensures
        views(r@) == substituted(views(words@), file_path@),
{
    let mut out: Vec<String> = Vec::new();
    let mut i: usize = 0;
    let mark = String::from_str("%1");
    while i < words.len()
        invariant
            i <= words@.len(),
            mark@ == placeholder(),
            views(out@) == substituted(views(words@.subrange(0, i as int)), file_path@),
        decreases words@.len() - i,
    {
        let w = &words[i];
        let next = if *w == mark {
            String::from_str(file_path)
        } else {
            w.clone()
        };
        let ghost w0 = words@[i as int]@;
        assert(next@ == (if w0 == placeholder() { file_path@ } else { w0 }));
        let ghost prev = out@;
        out.push(next);
        proof {
            let a = words@.subrange(0, i as int);
            let b = words@.subrange(0, i + 1);
            assert(views(b) =~= views(a).push(w0));
            assert(out@ =~= prev.push(next));
            assert(views(out@) =~= views(prev).push(next@));
            assert(substituted(views(b), file_path@) =~= substituted(views(a), file_path@).push(
                if w0 == placeholder() { file_path@ } else { w0 },
            ));
        }
        i = i + 1;
    }
    assert(words@.subrange(0, words@.len() as int) =~= words@);
    out
}

/// The launch that opens `file_path` with the program at `emulator_path`,
/// given its arguments as one command line in which `%1` stands for the
/// file. Fails where the command line cannot be split.
pub fn emulator_launch(file_path: &str, emulator_path: &str, emulator_args: &str) -> (r: Result<
    Launch,
    String,
>)
    ensures
        match r {
            Ok(l) => shell_split_of(emulator_args@) is Some && l.view() == (
                emulator_path@,
                substituted(shell_split_of(emulator_args@)->0, file_path@),
            ),
            Err(e) => shell_split_of(emulator_args@) is None && e@ == bad_arguments_message(),
        },
{
    match split_words(emulator_args) {
        Some(words) => {
            let args = substitute_placeholder(&words, file_path);
            Ok(Launch { program: String::from_str(emulator_path), args })
        },
        None => Err(String::from_str("Failed to parse emulator arguments")),
    }
}

} // verus!
