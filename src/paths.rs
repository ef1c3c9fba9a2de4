//! Path operations of the standard library that the queries rely on.
use vstd::prelude::*;

verus! {

/// What `Path::join` makes of a base path and a further component.
pub uninterp spec fn joined_path_of(base: Seq<char>, part: Seq<char>) -> Seq<char>;

/// What `Path::file_name` finds as the final component of a path, if any.
pub uninterp spec fn file_name_of(path: Seq<char>) -> Option<Seq<char>>;

/// Relies on `std::path::Path::join`: `part` appended to `base` with the
/// platform's separator. Both are UTF-8, so the text is kept whole.
#[verifier::external_body]
pub(crate) fn join_path(base: &str, part: &str) -> (r: String)
    ensures
        r@ == joined_path_of(base@, part@),
{
    std::path::Path::new(base).join(part).to_string_lossy().to_string()
}

/// Relies on `std::path::Path::file_name`: the final component of the path,
/// or none where there is none (a root, or a path that ends in `..`).
#[verifier::external_body]
pub(crate) fn final_component(path: &str) -> (r: Option<String>)
    ensures
        match r {
            Some(n) => file_name_of(path@) == Some(n@),
            None => file_name_of(path@) is None,
        },
{
    std::path::Path::new(path).file_name().map(|n| n.to_string_lossy().to_string())
}

} // verus!
