//! Handles and errors of the pipeline engine's storage backend.
//!
//! A file moves from being created and written (a [`FileHandle`]) to being
//! sealed and read (an [`ImmutableFileHandle`]); the backend's interface
//! prevents writing to a sealed file or reading an unsealed one. The
//! asynchronous read/write surface itself belongs to the engine's runtime;
//! here stand the handle values and the error variants it reports.

use vstd::prelude::*;

verus! {

/// A file descriptor that can be written to.
pub struct FileHandle(pub i64);

impl FileHandle {
    /// Wraps a raw descriptor. Meant for tests; everywhere else handles come
    /// from the backend that created the file.
    pub fn new(fd: i64) -> (r: Self)
        ensures
            r.0 == fd,
    {
        FileHandle(fd)
    }

    /// The raw descriptor.
    pub fn fd(&self) -> (r: i64)
        ensures
            r == self.0,
    {
        self.0
    }
}

/// A file descriptor that can be read or prefetched from.
pub struct ImmutableFileHandle(pub i64);

impl ImmutableFileHandle {
    /// Wraps a raw descriptor. Meant for tests; everywhere else handles come
    /// from sealing a written file.
    pub fn new(fd: i64) -> (r: Self)
        ensures
            r.0 == fd,
    {
        ImmutableFileHandle(fd)
    }

    /// The raw descriptor.
    pub fn fd(&self) -> (r: i64)
        ensures
            r == self.0,
    {
        self.0
    }
}

/// An error of the storage backend.
#[derive(Debug)]
pub enum StorageError {
    /// An I/O error of the underlying platform, carried as text.
    StdIo { message: String },
    /// The range to be written overlaps with a previous write.
    OverlappingWrites,
    /// The read would have returned less data than requested.
    ShortRead,
}

impl StorageError {
    /// The comparison [`StorageError`] equality uses: I/O errors compare
    /// unequal even to themselves, deliberately, as only the two structural
    /// variants are meaningful to compare.
    pub open spec fn eq_spec(&self, other: &Self) -> bool {
        match (self, other) {
            (StorageError::OverlappingWrites, StorageError::OverlappingWrites) => true,
            (StorageError::ShortRead, StorageError::ShortRead) => true,
            _ => false,
        }
    }
}

impl PartialEq for StorageError {
    /// Intentionally not a complete equality: see [`StorageError::eq_spec`].
    fn eq(&self, other: &Self) -> (r: bool) {
        match (self, other) {
            (StorageError::OverlappingWrites, StorageError::OverlappingWrites) => true,
            (StorageError::ShortRead, StorageError::ShortRead) => true,
            _ => false,
        }
    }
}

impl vstd::std_specs::cmp::PartialEqSpecImpl for StorageError {
    open spec fn obeys_eq_spec() -> bool {
        true
    }

    open spec fn eq_spec(&self, other: &Self) -> bool {
        StorageError::eq_spec(self, other)
    }
}

} // verus!
