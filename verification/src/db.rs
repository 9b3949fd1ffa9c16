//! Where the database lives, and how an older file is carried over.

use vstd::prelude::*;
use crate::text::{join_path, joined_path};

verus! {

/// The database file under the application's data directory.
pub fn get_db_path(app_data_dir: &str) -> (path: String)
    ensures
        path@ == joined_path(app_data_dir@, "re-fast.db"@),
{
    join_path(app_data_dir, "re-fast.db")
}

/// The database file under its former name.
pub fn get_legacy_db_path(app_data_dir: &str) -> (path: String)
    ensures
        path@ == joined_path(app_data_dir@, "data.db"@),
{
    join_path(app_data_dir, "data.db")
}

/// What has to be done before the database is opened.
#[derive(Debug)]
pub struct DbPreparation {
    /// The data directory is missing and is created first.
    pub create_directory: bool,
    /// The file under the former name is copied to the new name.
    pub copy_legacy: bool,
    /// The file to open.
    pub path: String,
}

/// Decides how the database file is made ready: the directory is created
/// where it is missing, and the file under the former name is copied forward
/// once, when there is none under the new name yet.
pub fn ensure_db_path(
    app_data_dir: &str,
    directory_exists: bool,
    database_exists: bool,
    legacy_exists: bool,
) -> (preparation: DbPreparation)
    ensures
        preparation.create_directory == !directory_exists,
        preparation.copy_legacy == (!database_exists && legacy_exists),
        preparation.path@ == joined_path(app_data_dir@, "re-fast.db"@),
{
    DbPreparation {
        create_directory: !directory_exists,
        copy_legacy: !database_exists && legacy_exists,
        path: get_db_path(app_data_dir),
    }
}

} // verus!
