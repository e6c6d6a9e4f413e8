//! Names of the files that belong to a database file, given its path.
use vstd::prelude::*;
use vstd::string::*;

verus! {

/// The file name of the database inside the application directory.
pub fn database_file_name() -> (r: &'static str)
    ensures
        r@ == "store.db"@,
{
    "store.db"
}

/// The side files kept next to a database file in write-ahead-log mode.
#[derive(Debug, Clone, Copy, PartialEq, Eq)]
pub enum SideFile {
    /// The write-ahead log.
    Wal,
    /// The shared-memory index.
    Shm,
}

/// The suffix that names a side file after its database file.
pub open spec fn side_suffix(kind: SideFile) -> Seq<char> {
    match kind {
        SideFile::Wal => "-wal"@,
        SideFile::Shm => "-shm"@,
    }
}

/// The path of the side file `kind` of the database at `db_path`.
pub fn side_file_path(db_path: &str, kind: SideFile) -> (r: String)
    ensures
        r@ == db_path@ + side_suffix(kind),
{
    let base = String::from_str(db_path);
    match kind {
        SideFile::Wal => base.concat("-wal"),
        SideFile::Shm => base.concat("-shm"),
    }
}

/// Suffix of the staged file of a replace.
pub open spec fn temp_suffix() -> Seq<char> {
    ".restore.tmp"@
}

/// Suffix of the transient backup of the target of a replace.
pub open spec fn backup_suffix() -> Seq<char> {
    ".backup.tmp"@
}

/// Suffix of the safety copy made before a restore at startup.
pub open spec fn safety_suffix() -> Seq<char> {
    ".pre-restore-backup"@
}

/// Suffix of the scratch name a file is renamed to before a forced delete.
pub open spec fn scratch_suffix() -> Seq<char> {
    ".tmp_delete"@
}

/// The sibling paths that a replace of one target uses.
#[derive(Debug, Clone)]
pub struct ReplacePaths {
    pub temp: String,
    pub backup: String,
    pub safety: String,
}

/// The sibling paths for a replace of the file at `target`.
pub fn replace_paths(target: &str) -> (r: ReplacePaths)
    ensures
        r.temp@ == target@ + temp_suffix(),
        r.backup@ == target@ + backup_suffix(),
        r.safety@ == target@ + safety_suffix(),
{
    ReplacePaths {
        temp: String::from_str(target).concat(".restore.tmp"),
        backup: String::from_str(target).concat(".backup.tmp"),
        safety: String::from_str(target).concat(".pre-restore-backup"),
    }
}

/// The scratch name for a forced delete of the file at `path`.
pub fn scratch_path(path: &str) -> (r: String)
    ensures
        r@ == path@ + scratch_suffix(),
{
    String::from_str(path).concat(".tmp_delete")
}

} // verus!
