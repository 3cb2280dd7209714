//! File-level change records within a diff.
//!
//! Each record and each of its two file sides is an owned-by-value snapshot,
//! extracted from the native diff when the cursor over a [`crate::diff::Diff`]
//! is requested; the flag queries are then plain bit tests on the snapshot.

use vstd::prelude::*;

verus! {

/// Flags set on a change record or on one side of it. Each flag is one
/// independent bit.
#[derive(Clone, Copy, PartialEq, Eq, Structural, Debug)]
pub enum DiffFlags {
    /// File(s) treated as binary data.
    Binary,
    /// File(s) treated as text data.
    NotBinary,
    /// `id` value is known correct.
    ValidId,
    /// File exists at this side of the delta.
    Exists,
}

impl DiffFlags {
    /// The flag's bit, as the native library defines it.
    pub open spec fn spec_bits(self) -> u32 {
        match self {
            DiffFlags::Binary => 1u32,
            DiffFlags::NotBinary => 2u32,
            DiffFlags::ValidId => 4u32,
            DiffFlags::Exists => 8u32,
        }
    }

    /// The flag's bit, as the native library defines it.
    pub fn bits(self) -> (b: u32)
        ensures
            b == self.spec_bits(),
    {
        match self {
            DiffFlags::Binary => 1u32,
            DiffFlags::NotBinary => 2u32,
            DiffFlags::ValidId => 4u32,
            DiffFlags::Exists => 8u32,
        }
    }

    /// The flag a set of bits stands for: the single matching flag, or
    /// `Binary` for any other combination.
    pub open spec fn spec_from_bits(bits: u32) -> DiffFlags {
        if bits == 2u32 {
            DiffFlags::NotBinary
        } else if bits == 4u32 {
            DiffFlags::ValidId
        } else if bits == 8u32 {
            DiffFlags::Exists
        } else {
            DiffFlags::Binary
        }
    }

    /// The flag a set of bits stands for: the single matching flag, or
    /// `Binary` for any other combination.
    pub fn from_bits(bits: u32) -> (r: DiffFlags)
        ensures
            r == DiffFlags::spec_from_bits(bits),
    {
        if bits == 2u32 {
            DiffFlags::NotBinary
        } else if bits == 4u32 {
            DiffFlags::ValidId
        } else if bits == 8u32 {
            DiffFlags::Exists
        } else {
            DiffFlags::Binary
        }
    }
}

/// Valid modes for index and tree entries.
#[derive(Clone, Copy, PartialEq, Eq, Structural, Debug)]
pub enum FileMode {
    /// Unreadable
    Unreadable,
    /// Tree
    Tree,
    /// Blob
    Blob,
    /// Group writable blob. Obsolete mode kept for compatibility reasons
    BlobGroupWritable,
    /// Blob executable
    BlobExecutable,
    /// Link
    Link,
    /// Commit
    Commit,
}

/// What happened to a file between the two sides of a diff.
#[derive(Clone, Copy, PartialEq, Eq, Structural, Debug)]
pub enum Delta {
    /// No changes
    Unmodified,
    /// Entry does not exist in old version
    Added,
    /// Entry does not exist in new version
    Deleted,
    /// Entry content changed between old and new
    Modified,
    /// Entry was renamed between old and new
    Renamed,
    /// Entry was copied from another old entry
    Copied,
    /// Entry is ignored item in workdir
    Ignored,
    /// Entry is untracked item in workdir
    Untracked,
    /// Type of entry changed between old and new
    Typechange,
    /// Entry is unreadable
    Unreadable,
    /// Entry in the index is conflicted
    Conflicted,
}

/// An owned-by-value snapshot of one side of a change record.
pub struct DiffFile {
    pub(crate) id: String,
    pub(crate) path: Option<String>,
    pub(crate) size: u64,
    pub(crate) binary: bool,
    pub(crate) not_binary: bool,
    pub(crate) valid_id: bool,
    pub(crate) present: bool,
    pub(crate) mode: FileMode,
}

impl Clone for DiffFile {
    fn clone(&self) -> (r: Self)
        ensures
            r == *self,
    {
        let path = match &self.path {
            Some(p) => Some(p.clone()),
            None => None,
        };
        DiffFile {
            id: self.id.clone(),
            path,
            size: self.size,
            binary: self.binary,
            not_binary: self.not_binary,
            valid_id: self.valid_id,
            present: self.present,
            mode: self.mode,
        }
    }
}

impl DiffFile {
    /// The recorded path, if any.
    pub closed spec fn path_spec(self) -> Option<Seq<char>> {
        match self.path {
            Some(p) => Some(p@),
            None => None,
        }
    }

    /// The recorded size in bytes.
    pub closed spec fn size_spec(self) -> u64 {
        self.size
    }

    /// Whether the binary flag is set.
    pub closed spec fn binary_spec(self) -> bool {
        self.binary
    }

    /// Whether the text flag is set.
    pub closed spec fn not_binary_spec(self) -> bool {
        self.not_binary
    }

    /// Whether the known-correct-id flag is set.
    pub closed spec fn valid_id_spec(self) -> bool {
        self.valid_id
    }

    /// Whether the file exists at this side.
    pub closed spec fn present_spec(self) -> bool {
        self.present
    }

    /// The recorded file mode.
    pub closed spec fn mode_spec(self) -> FileMode {
        self.mode
    }

    /// The file's object id, in hex form.
    pub closed spec fn id_spec(self) -> Seq<char> {
        self.id@
    }

    /// Returns the object id of this item, in hex form.
    ///
    /// If this entry represents an absent side of a diff (e.g. the `old_file`
    /// of an `Added` delta), then the id returned is all zeros.
    pub fn id(&self) -> (r: String)
        ensures
            r@ == self.id_spec(),
    {
        self.id.clone()
    }

    /// Returns the path of the entry relative to the working directory of the
    /// repository, if one is recorded.
    pub fn path(&self) -> (r: Option<String>)
        ensures
            match r {
                Some(p) => self.path_spec() == Some(p@),
                None => self.path_spec() is None,
            },
    {
        match &self.path {
            Some(p) => Some(p.clone()),
            None => None,
        }
    }

    /// Returns the size of this entry, in bytes.
    pub fn size(&self) -> (r: u64)
        ensures
            r == self.size_spec(),
    {
        self.size
    }

    /// Returns `true` if file(s) are treated as binary data.
    pub fn is_binary(&self) -> (r: bool)
        ensures
            r == self.binary_spec(),
    {
        self.binary
    }

    /// Returns `true` if file(s) are treated as text data.
    pub fn is_not_binary(&self) -> (r: bool)
        ensures
            r == self.not_binary_spec(),
    {
        self.not_binary
    }

    /// Returns `true` if the `id` value is known correct.
    pub fn is_valid_id(&self) -> (r: bool)
        ensures
            r == self.valid_id_spec(),
    {
        self.valid_id
    }

    /// Returns `true` if the file exists at this side of the delta.
    pub fn exists_on_side(&self) -> (r: bool)
        ensures
            r == self.present_spec(),
    {
        self.present
    }

    /// Returns the file mode.
    pub fn mode(&self) -> (r: FileMode)
        ensures
            r == self.mode_spec(),
    {
        self.mode
    }
}

/// An owned-by-value snapshot of one change record of a diff.
pub struct DiffDelta {
    pub(crate) status: Delta,
    pub(crate) flags_bits: u32,
    pub(crate) nfiles: u16,
    pub(crate) old: DiffFile,
    pub(crate) new: DiffFile,
}

impl Clone for DiffDelta {
    fn clone(&self) -> (r: Self)
        ensures
            r == *self,
    {
        DiffDelta {
            status: self.status,
            flags_bits: self.flags_bits,
            nfiles: self.nfiles,
            old: self.old.clone(),
            new: self.new.clone(),
        }
    }
}

impl DiffDelta {
    /// The record's flag bits.
    pub closed spec fn flags_spec(self) -> u32 {
        self.flags_bits
    }

    /// The record's status.
    pub closed spec fn status_spec(self) -> Delta {
        self.status
    }

    /// How many files the record involves.
    pub closed spec fn nfiles_spec(self) -> u16 {
        self.nfiles
    }

    /// The "from" side of the record.
    pub closed spec fn old_spec(self) -> DiffFile {
        self.old
    }

    /// The "to" side of the record.
    pub closed spec fn new_spec(self) -> DiffFile {
        self.new
    }

    /// Returns the flag standing for the record's flag bits.
    ///
    /// For more information, see `DiffFlags`'s documentation.
    pub fn flags(&self) -> (r: DiffFlags)
        ensures
            r == DiffFlags::spec_from_bits(self.flags_spec()),
    {
        DiffFlags::from_bits(self.flags_bits)
    }

    /// Returns the number of files in this delta.
    pub fn num_files(&self) -> (r: u32)
        ensures
            r == self.nfiles_spec() as u32,
    {
        self.nfiles as u32
    }

    /// Returns the status of this entry.
    pub fn status(&self) -> (r: Delta)
        ensures
            r == self.status_spec(),
    {
        self.status
    }

    /// Return the file which represents the "from" side of the diff.
    ///
    /// What side this means depends on the function that was used to generate
    /// the diff and will be documented on the function itself.
    pub fn old_file(&self) -> (r: DiffFile)
        ensures
            r == self.old_spec(),
    {
        self.old.clone()
    }

    /// Return the file which represents the "to" side of the diff.
    ///
    /// What side this means depends on the function that was used to generate
    /// the diff and will be documented on the function itself.
    pub fn new_file(&self) -> (r: DiffFile)
        ensures
            r == self.new_spec(),
    {
        self.new.clone()
    }
}

/// A single-pass cursor over the change records of a diff.
///
/// The records were snapshotted when the cursor was made; the cursor yields
/// each one once, in order, and then yields nothing forever.
pub struct Deltas {
    pub(crate) items: Vec<DiffDelta>,
    pub(crate) index: usize,
}

impl Deltas {
    /// The records this cursor yields.
    pub closed spec fn items_spec(self) -> Seq<DiffDelta> {
        self.items@
    }

    /// How many records the cursor has yielded.
    pub closed spec fn pos(self) -> int {
        self.index as int
    }

    pub(crate) fn from_items(items: Vec<DiffDelta>) -> (r: Deltas)
        ensures
            r.items_spec() == items@,
            r.pos() == 0,
    {
        Deltas { items, index: 0 }
    }

    /// How many records the cursor yields in total.
    pub fn len(&self) -> (r: usize)
        ensures
            r == self.items_spec().len(),
    {
        self.items.len()
    }

    /// The next record, or nothing forever once all records have been
    /// yielded.
    pub fn next(&mut self) -> (r: Option<DiffDelta>)
        ensures
            final(self).items_spec() == old(self).items_spec(),
            old(self).pos() >= old(self).items_spec().len() ==> {
                &&& r is None
                &&& final(self).pos() == old(self).pos()
            },
            old(self).pos() < old(self).items_spec().len() ==> {
                &&& r == Some(old(self).items_spec()[old(self).pos()])
                &&& final(self).pos() == old(self).pos() + 1
            },
    {
        if self.index < self.items.len() {
            let item = self.items[self.index].clone();
            self.index = self.index + 1;
            Some(item)
        } else {
            None
        }
    }
}

} // verus!
