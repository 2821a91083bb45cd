//! Filesystem paths as the library sees them.
//!
//! What a path names on disk (whether it exists, is a file or a directory) is read
//! through `std::path` and can differ from call to call, so those results carry no
//! claim. How a path is taken apart (parent, extension, file name) depends on the
//! path alone and is named here.
use std::path::{Path, PathBuf};
use vstd::prelude::*;

verus! {

#[verifier::external_type_specification]
#[verifier::external_body]
pub struct ExPathBuf(PathBuf);

#[verifier::external_type_specification]
#[verifier::external_body]
pub struct ExPath(Path);

#[verifier::external_type_specification]
#[verifier::external_body]
pub struct ExIoError(std::io::Error);

/// The text of a path, as `Path::to_string_lossy` reads it (for a path built
/// from a string, that string).
pub uninterp spec fn path_text(p: PathBuf) -> Seq<char>;

/// The text of a borrowed path, as `Path::to_string_lossy` reads it.
pub uninterp spec fn path_ref_text(p: &Path) -> Seq<char>;

/// The directory part of a path, as `Path::parent` computes it (owned).
pub uninterp spec fn parent_dir(p: &Path) -> Option<PathBuf>;

/// A path joined with a file name, as `Path::join` computes it.
pub uninterp spec fn joined_path(p: PathBuf, name: Seq<char>) -> PathBuf;

/// The path `PathBuf::from` makes of the string `s`.
pub uninterp spec fn text_path(s: Seq<char>) -> PathBuf;

/// The text of the path written `p` joined with `name`.
pub open spec fn path_join(p: Seq<char>, name: Seq<char>) -> Seq<char> {
    path_text(joined_path(text_path(p), name))
}

/// The extension of the path written `p`, as `Path::extension` computes it
/// (when it is valid UTF-8).
pub uninterp spec fn path_extension(p: Seq<char>) -> Option<Seq<char>>;

/// The last component of the path written `p`, as `Path::file_name` computes it
/// (when it is valid UTF-8).
pub uninterp spec fn path_file_name(p: Seq<char>) -> Option<Seq<char>>;

/// Whether the path written `p` has no component at all, as
/// `Path::components().next().is_none()` decides it: only the empty path has
/// none.
pub open spec fn path_has_no_components(p: Seq<char>) -> bool {
    p.len() == 0
}

/// `PathBuf::from` on a string: the path reads back as the same text.
#[verifier::external_body]
pub(crate) fn path_from_str(s: &str) -> (p: PathBuf)
    ensures
        p == text_path(s@),
        path_text(p) == s@,
{
    PathBuf::from(s)
}

/// `Path::to_string_lossy` on an owned path, as an owned string.
#[verifier::external_body]
pub(crate) fn owned_path_text(path: &PathBuf) -> (r: String)
    ensures
        r@ == path_text(*path),
{
    path.to_string_lossy().into_owned()
}

/// `Path::to_path_buf`: the same path, owned.
#[verifier::external_body]
pub(crate) fn owned_path(path: &Path) -> (r: PathBuf)
    ensures
        path_text(r) == path_ref_text(path),
{
    path.to_path_buf()
}

/// `PathBuf::clone`: the copy reads back as the same text.
#[verifier::external_body]
pub(crate) fn copy_path_buf(path: &PathBuf) -> (r: PathBuf)
    ensures
        path_text(r) == path_text(*path),
{
    path.clone()
}

/// `Path::new`: the string seen as a path, which reads back as the same text.
#[verifier::external_body]
pub(crate) fn str_path(s: &str) -> (p: &Path)
    ensures
        path_ref_text(p) == s@,
{
    Path::new(s)
}

/// `PathBuf::as_path`: the owned path seen as a borrowed one.
#[verifier::external_body]
pub(crate) fn buf_path(path: &PathBuf) -> (p: &Path)
    ensures
        path_ref_text(p) == path_text(*path),
{
    path.as_path()
}

/// `Path::exists`. What is on disk can change between calls; nothing is promised.
#[verifier::external_body]
pub(crate) fn path_exists(path: &Path) -> bool {
    path.exists()
}

/// `Path::is_file`. What is on disk can change between calls; nothing is promised.
#[verifier::external_body]
pub(crate) fn path_is_file(path: &Path) -> bool {
    path.is_file()
}

/// `Path::is_dir`. What is on disk can change between calls; nothing is promised.
#[verifier::external_body]
pub(crate) fn path_is_dir(path: &Path) -> bool {
    path.is_dir()
}

/// `Path::parent`, as an owned path.
#[verifier::external_body]
pub(crate) fn parent_path(path: &Path) -> (r: Option<PathBuf>)
    ensures
        r == parent_dir(path),
{
    path.parent().map(|parent| parent.to_path_buf())
}

/// `Path::join` of an owned path with a name.
#[verifier::external_body]
pub(crate) fn join_file(path: &PathBuf, name: &str) -> (r: PathBuf)
    ensures
        r == joined_path(*path, name@),
{
    path.join(name)
}

/// The path written `s` joined with `name`, read back as text.
pub(crate) fn join_path(s: &str, name: &str) -> (r: String)
    ensures
        r@ == path_join(s@, name@),
{
    let path = path_from_str(s);
    let joined = join_file(&path, name);
    owned_path_text(&joined)
}

/// `Path::extension` of the path written `s`, when it is valid UTF-8.
#[verifier::external_body]
pub(crate) fn extension_of(s: &str) -> (r: Option<String>)
    ensures
        r matches Some(t) ==> path_extension(s@) == Some(t@),
        r is None ==> path_extension(s@) is None,
{
    Path::new(s).extension().and_then(|extension| extension.to_str()).map(String::from)
}

/// `Path::file_name` of the path written `s`, when it is valid UTF-8.
#[verifier::external_body]
pub(crate) fn file_name_of(s: &str) -> (r: Option<String>)
    ensures
        r matches Some(t) ==> path_file_name(s@) == Some(t@),
        r is None ==> path_file_name(s@) is None,
{
    Path::new(s).file_name().and_then(|name| name.to_str()).map(String::from)
}

/// Whether the path written `s` has no component at all (see
/// [`path_has_no_components`]).
pub(crate) fn has_no_components(s: &str) -> (r: bool)
    ensures
        r == path_has_no_components(s@),
{
    s.unicode_len() == 0
}

} // verus!
