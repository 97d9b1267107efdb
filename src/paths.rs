//! Building paths below the repository root.

use vstd::prelude::*;

verus! {

/// `s` is a single relative path component: not empty, not `.` or `..`,
/// and free of separators and drive markers.
pub open spec fn is_plain_component(s: Seq<char>) -> bool {
    &&& s.len() > 0
    &&& s != seq!['.']
    &&& s != seq!['.', '.']
    &&& forall|i: int| 0 <= i < s.len() ==> s[i] != '/' && s[i] != '\\' && s[i] != ':'
}

/// `base` begins with the verbatim prefix `\\?\`.
pub open spec fn is_verbatim(base: Seq<char>) -> bool {
    base.len() >= 4 && base.subrange(0, 4) == seq!['\\', '\\', '?', '\\']
}

/// `c` may end a base path so that no separator is added after it.
pub open spec fn ends_base(c: char) -> bool {
    c == '/' || c == '\\' || c == ':'
}

/// `r` is `part` adjoined to `base`: an empty base gives `part` alone, a
/// base ending in `/` takes `part` directly, and a base ending in anything
/// but a separator or a drive marker takes one separator before `part`.
pub open spec fn adjoins(base: Seq<char>, part: Seq<char>, r: Seq<char>) -> bool {
    &&& r.len() >= part.len()
    &&& r.subrange(r.len() - part.len(), r.len() as int) == part
    &&& base.len() == 0 ==> r == part
    &&& !is_verbatim(base) ==> {
        ||| r == base + part
        ||| r == base + seq!['/'] + part
        ||| r == base + seq!['\\'] + part
    }
    &&& !is_verbatim(base) && base.len() > 0 && base.last() == '/' ==> r == base + part
    &&& !is_verbatim(base) && base.len() > 0 && !ends_base(base.last()) ==> {
        ||| r == base + seq!['/'] + part
        ||| r == base + seq!['\\'] + part
    }
}

/// Relies on camino's `Utf8Path::join` (a `PathBuf::push` on the same path):
/// a relative component without separators or a drive is appended after a
/// separator, which is left out where `base` is empty or already ends in one
/// (on Windows also after a bare drive such as `C:`).
#[verifier::external_body]
pub(crate) fn join_path(base: &str, part: &str) -> (r: String)
    requires
        is_plain_component(part@),
    ensures
        adjoins(base@, part@, r@),
{
    camino::Utf8Path::new(base).join(part).into_string()
}

} // verus!
