//! Questions put to the file system, and how paths are read.  What the
//! disk holds depends on the machine and on the moment, so nothing is stated
//! of it; the functions that ask are verified for every answer.
use vstd::prelude::*;

verus! {

/// Calls `Path::exists`.  Trusted only to return; whether the path exists is
/// a fact about the disk at the moment of the call, so no clause states it.
#[verifier::external_body]
pub(crate) fn path_exists(path: &str) -> (r: bool) {
    std::path::Path::new(path).exists()
}

/// Calls `dirs::home_dir` and turns the path into text.  Trusted only to
/// return: the home directory is a fact about the machine and the user, so
/// no clause states it.
#[verifier::external_body]
pub(crate) fn home_dir() -> (r: Option<String>) {
    dirs::home_dir().map(|p| p.to_string_lossy().into_owned())
}

/// A separator of path components on some platform: `/`, or `\\` on
/// Windows.
pub open spec fn is_path_separator(c: char) -> bool {
    c == '/' || c == '\\'
}

/// A relative path of one ordinary component: not empty, without
/// separators or a drive colon, and neither `.` nor `..`.
pub open spec fn plain_component(s: Seq<char>) -> bool {
    &&& s.len() > 0
    &&& forall|i: int| 0 <= i < s.len() ==> !is_path_separator(#[trigger] s[i]) && s[i] != ':'
    &&& s != seq!['.']
    &&& s != seq!['.', '.']
}

/// `r` ends with `first`, one separator and `second`.
pub open spec fn ends_with_joined(r: Seq<char>, first: Seq<char>, second: Seq<char>) -> bool {
    let n = first.len() + 1 + second.len();
    &&& r.len() >= n
    &&& r.subrange(r.len() - n, r.len() - second.len() - 1) == first
    &&& is_path_separator(r[r.len() - second.len() - 1])
    &&& r.subrange(r.len() - second.len(), r.len() as int) == second
}

/// Calls `Path::join` twice: `base`, then `first`, then `second`.  Claimed,
/// from the documentation of `PathBuf::push` (pushing a relative path
/// extends the path, after the platform's separator where one is needed):
/// the text ends with `first`, a separator and `second`.  What comes before
/// `first` depends on the platform and is not stated.
#[verifier::external_body]
pub(crate) fn join_path(base: &str, first: &str, second: &str) -> (r: String)
    requires
        plain_component(first@),
        plain_component(second@),
    ensures
        ends_with_joined(r@, first@, second@),
{
    std::path::Path::new(base).join(first).join(second).to_string_lossy().into_owned()
}

/// Paths that every platform splits the same way: no `\\`, no `:` and no
/// leading `//` (which Windows reads as a prefix).
pub open spec fn portable_path(path: Seq<char>) -> bool {
    &&& forall|i: int| 0 <= i < path.len() ==> path[i] != '\\' && path[i] != ':'
    &&& !(path.len() >= 2 && path[0] == '/' && path[1] == '/')
}

/// The index of the last `c` in `s` before `end`, or -1.
pub open spec fn last_index_before(s: Seq<char>, c: char, end: int) -> int
    decreases end,
{
    if end <= 0 {
        -1
    } else if s[end - 1] == c {
        end - 1
    } else {
        last_index_before(s, c, end - 1)
    }
}

/// A portable path without what `Path::components` drops at its end:
/// trailing `/` and `/.`, and a lone `.`.
pub open spec fn trim_tail(p: Seq<char>) -> Seq<char>
    decreases p.len(),
{
    if p.len() > 0 && p.last() == '/' {
        trim_tail(p.drop_last())
    } else if p.len() >= 2 && p[p.len() - 1] == '.' && p[p.len() - 2] == '/' {
        trim_tail(p.subrange(0, p.len() - 2))
    } else if p == seq!['.'] {
        Seq::empty()
    } else {
        p
    }
}

/// Where the last part of `trim_tail(path)` begins: after its last `/`.
pub open spec fn name_start(path: Seq<char>) -> int {
    let t = trim_tail(path);
    last_index_before(t, '/', t.len() as int) + 1
}

/// The file name of a portable path (`Path::file_name`): the last part that
/// is neither empty nor `.`; none when that part is `..`.
pub open spec fn file_name_spec(path: Seq<char>) -> Option<Seq<char>> {
    let t = trim_tail(path);
    let n = t.subrange(name_start(path), t.len() as int);
    if n.len() == 0 || n == seq!['.', '.'] {
        None
    } else {
        Some(n)
    }
}

/// The extension of a file name: what follows its last `.`, none when it
/// has no `.` or only a leading one.
pub open spec fn name_extension(n: Seq<char>) -> Option<Seq<char>> {
    let k = last_index_before(n, '.', n.len() as int);
    if k <= 0 {
        None
    } else {
        Some(n.subrange(k + 1, n.len() as int))
    }
}

/// The extension of a portable path (`Path::extension`).
pub open spec fn extension_spec(path: Seq<char>) -> Option<Seq<char>> {
    match file_name_spec(path) {
        Some(n) => name_extension(n),
        None => None,
    }
}


/// Where the stem of a portable path's file name ends: before the `.` of
/// its extension, or at the end of the name.
pub open spec fn stem_end(path: Seq<char>) -> int {
    let n = file_name_spec(path)->0;
    name_start(path) + match name_extension(n) {
        Some(e) => n.len() - e.len() - 1,
        None => n.len() as int,
    }
}

/// A portable path with its extension set to `ext`
/// (`PathBuf::set_extension`): a path without a file name stays as it is;
/// otherwise everything after the file name's stem gives way to `.` and
/// `ext`.
pub open spec fn with_extension_spec(path: Seq<char>, ext: Seq<char>) -> Seq<char> {
    match file_name_spec(path) {
        None => path,
        Some(_) => path.subrange(0, stem_end(path)) + seq!['.'] + ext,
    }
}

/// Calls `Path::with_extension`.  Claimed, from the documentation of
/// `Path::with_extension` and `PathBuf::set_extension`, for portable paths
/// (see `portable_path`): a path without a file name comes back as it was;
/// otherwise the path is cut after the file name's stem and `.` and `ext`
/// follow (the extension is replaced, or added where there was none).
/// Other paths are read by the platform's own rules, which are not stated.
#[verifier::external_body]
pub(crate) fn with_extension(path: &str, ext: &str) -> (r: String)
    requires
        plain_component(ext@),
        forall|i: int| 0 <= i < ext@.len() ==> ext@[i] != '.',
    ensures
        portable_path(path@) ==> r@ == with_extension_spec(path@, ext@),
{
    std::path::Path::new(path).with_extension(ext).to_string_lossy().into_owned()
}

} // verus!
