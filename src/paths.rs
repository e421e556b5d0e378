//! File URLs and file paths, as computed by the `url` crate and std.
use vstd::prelude::*;

verus! {

/// The file path that a URL stands for, when it stands for one.
pub uninterp spec fn file_path_of(url: Seq<char>) -> Option<Seq<char>>;

/// A relative path joined onto a base path.
pub uninterp spec fn joined_path(base: Seq<char>, rel: Seq<char>) -> Seq<char>;

/// The file URL of a path, when the path is absolute.
pub uninterp spec fn file_url_of(path: Seq<char>) -> Option<Seq<char>>;

/// Relies on `url::Url::to_file_path`: the path that a URL stands for, or
/// nothing when it names a remote host or its path holds a NUL byte. The
/// string is turned into a `Url` by `url::Url::parse` (nothing when it is no
/// URL), and the path back into a string.
#[verifier::external_body]
pub(crate) fn url_to_file_path(url: &str) -> (r: Option<String>)
    ensures
        match r {
            Some(p) => file_path_of(url@) == Some(p@),
            None => file_path_of(url@) is None,
        },
{
    let parsed = url::Url::parse(url).ok()?;
    let path = parsed.to_file_path().ok()?;
    Some(path.to_string_lossy().into_owned())
}

/// Relies on `std::path::Path::join`: `rel` appended to `base`.
#[verifier::external_body]
pub(crate) fn join_path(base: &str, rel: &str) -> (r: String)
    ensures
        r@ == joined_path(base@, rel@),
{
    std::path::Path::new(base).join(rel).to_string_lossy().into_owned()
}

/// Relies on `url::Url::from_file_path`: the `file:` URL of an absolute
/// path, or nothing for a relative one.
#[verifier::external_body]
pub(crate) fn file_path_to_url(path: &str) -> (r: Option<String>)
    ensures
        match r {
            Some(u) => file_url_of(path@) == Some(u@),
            None => file_url_of(path@) is None,
        },
{
    url::Url::from_file_path(path).ok().map(|u| u.to_string())
}

} // verus!
