//! Persistence sinks: where rendered text is durably or nominally stored.

use vstd::prelude::*;

verus! {

/// A sink that persists rendered text as the full contents of the file at
/// `filename`, overwriting whatever was there.
pub struct FileStorage {
    pub filename: String,
}

impl FileStorage {
    pub fn new(filename: String) -> (r: Self)
        ensures
            r == (FileStorage { filename }),
    {
        FileStorage { filename }
    }
}

/// A stand-in for a database sink: it accepts rendered text, performs no
/// durable write, and always succeeds.
pub struct DbStorage;

impl DbStorage {
    pub fn new() -> (r: Self)
        ensures
            r == DbStorage,
    {
        DbStorage
    }
}

/// The persistence sinks an editor can be bound to.
pub enum Storage {
    File(FileStorage),
    Db(DbStorage),
}

/// What a save asks of the surrounding program. Writing a file is a side
/// effect this library does not perform itself: a file-backed save hands
/// the caller the exact text and its destination, and the outcome of the
/// caller's write is the outcome of the save.
pub enum SaveAction {
    /// Write `data` as the full contents of the file at `filename`,
    /// overwriting any existing content.
    WriteFile { filename: String, data: String },
    /// The sink required no durable write; the save is already complete.
    Completed,
}

} // verus!
