//! Where the SQLite database lives.
use vstd::prelude::*;

use crate::text::{strip_prefix, without_prefix};

verus! {

/// The file path of a `sqlite:` database URL (the URL without its scheme),
/// or `None` for a URL of another form; its directory is created before the
/// database is opened.
pub fn sqlite_file_path(database_url: &str) -> (path: Option<String>)
    ensures
        path matches Some(p) ==> without_prefix(database_url@, "sqlite:"@) == Some(p@),
        path is None ==> without_prefix(database_url@, "sqlite:"@) is None,
{
    strip_prefix(database_url, "sqlite:")
}

} // verus!
