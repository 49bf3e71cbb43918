//! Where the database is.

use vstd::prelude::*;

verus! {

/// The database to open: the path given by the caller, else the configured `DATABASE_URL`;
/// `None` when neither is there (the program then stops).
pub fn database_url(path: Option<String>, configured: Option<String>) -> (url: Option<String>)
    ensures
        path is Some ==> url == path,
        path is None ==> url == configured,
{
    match path {
        Some(p) => Some(p),
        None => configured,
    }
}

} // verus!
