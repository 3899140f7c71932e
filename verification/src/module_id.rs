//! The identifier of a module: its path relative to the project root.

use vstd::prelude::*;
use vstd::string::StrSliceExecFns;
use std::path::Path;
use sugar_path::SugarPath;
use crate::folder::ReactHmrFolder;

verus! {

/// A path that starts at the root of the file system.
pub open spec fn is_absolute_path(path: Seq<char>) -> bool {
    path.len() > 0 && path[0] == '/'
}

/// The text that `sugar_path::SugarPath::relative` gives for the path `uri`
/// taken relative to the path `context`, both absolute.
pub uninterp spec fn relative_to(uri: Seq<char>, context: Seq<char>) -> Seq<char>;

/// Calls `sugar_path::SugarPath::relative` on `uri` with `context` as the
/// base, and turns the resulting path into text.
///
/// The one claim is that the text depends on the two paths alone. Where a
/// leading `/` makes a path absolute (the Unix family), the outside
/// function only splits both paths into components, resolves `.` and `..`
/// in them, drops what they have in common and joins the rest: it looks
/// neither at the file system nor at the working directory. For a path
/// that is not absolute it would read the working directory, which is why
/// such paths are left out here. What the text is, is not claimed.
#[verifier::external_body]
fn relative_path(uri: &str, context: &str) -> (id: String)
    requires
        is_absolute_path(uri@),
        is_absolute_path(context@),
    ensures
        id@ == relative_to(uri@, context@),
{
    Path::new(uri).relative(Path::new(context)).to_string_lossy().to_string()
}

/// Whether `path` starts at the root of the file system.
pub fn is_absolute(path: &str) -> (yes: bool)
    ensures
        yes == is_absolute_path(path@),
{
    !path.is_empty() && path.get_char(0) == '/'
}

/// The folder for the module at `uri` in the project rooted at `context`.
/// Its identifier is the path of `uri` relative to `context`, found from
/// the two texts alone: `.` and `..` are resolved without a look at the
/// file system. The same two paths give the same identifier every time.
pub fn fold_react_refresh(context: &str, uri: &str) -> (folder: ReactHmrFolder)
    requires
        is_absolute_path(context@),
        is_absolute_path(uri@),
    ensures
        folder.id@ == relative_to(uri@, context@),
{
    ReactHmrFolder::new(relative_path(uri, context))
}

} // verus!
