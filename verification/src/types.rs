//! Value types shared by all subsection decoders.

use vstd::prelude::*;

verus! {

/// Errors that a decoder can return. Truncation is fatal to the current
/// decode call; unknown format values are surfaced so that callers notice
/// format extensions instead of silently misreading them.
#[derive(Clone, Copy, Debug, PartialEq, Eq)]
pub enum DecodeError {
    /// Insufficient bytes for a header, a body, or alignment padding.
    Truncated,
    /// A subsection kind outside the closed enumeration (and not the
    /// reserved ignore tag).
    UnimplementedDebugSubsection(u32),
    /// A file checksum kind outside the known set.
    UnimplementedFileChecksumKind(u8),
    /// A subsection byte length that is not a multiple of its record size.
    InvalidStreamLength,
    /// The given index is a plain global index, not a cross-module reference.
    NotACrossModuleRef(u32),
    /// A cross-module reference whose module or import slot is out of range.
    CrossModuleRefNotFound(u32),
    /// A file checksum byte offset at which no table entry starts.
    InvalidFileChecksumOffset(u32),
}

/// A section-relative code position: a section number and a byte offset
/// within that section.
#[derive(Clone, Copy, Debug, PartialEq, Eq, Structural)]
pub struct PdbInternalSectionOffset {
    pub offset: u32,
    pub section: u16,
}

impl PdbInternalSectionOffset {
    /// Advances the offset field modulo 2^32, leaving the section unchanged.
    pub fn wrapping_add(self, delta: u32) -> (r: Self)
        ensures
            r.section == self.section,
            r.offset == crate::bytes::wrap_add(self.offset, delta),
    {
        PdbInternalSectionOffset {
            offset: crate::bytes::wrap_add_u32(self.offset, delta),
            section: self.section,
        }
    }
}

/// A byte offset into the file checksum table, the format's way of
/// referencing a file.
#[derive(Clone, Copy, Debug, PartialEq, Eq, Structural)]
pub struct FileIndex(pub u32);

/// An index into the id stream, identifying an inlinee.
#[derive(Clone, Copy, Debug, PartialEq, Eq, Structural)]
pub struct IdIndex(pub u32);

/// A byte offset of a name in the string table.
#[derive(Clone, Copy, Debug, PartialEq, Eq)]
pub struct StringRef(pub u32);

/// A byte offset of a module name in the string table.
#[derive(Clone, Copy, Debug, PartialEq, Eq)]
pub struct ModuleRef(pub u32);

/// Whether a line record covers a whole statement or a sub-expression.
#[derive(Clone, Copy, Debug, PartialEq, Eq, Structural)]
pub enum LineInfoKind {
    /// The line record covers a sub-expression.
    Expression,
    /// The line record covers a whole statement.
    Statement,
}

/// One reconstructed source-line record.
#[derive(Clone, Copy, Debug, PartialEq, Eq)]
pub struct LineInfo {
    /// Section-relative start of the code covered by this record.
    pub offset: PdbInternalSectionOffset,
    /// Byte length of the covered code, when it could be inferred.
    pub length: Option<u32>,
    /// Byte offset of the source file in the file checksum table.
    pub file_index: FileIndex,
    /// First source line of the statement or expression.
    pub line_start: u32,
    /// Line past the last source line of the statement or expression.
    pub line_end: u32,
    /// First column, when the producer recorded columns.
    pub column_start: Option<u32>,
    /// Last column, when the producer recorded columns.
    pub column_end: Option<u32>,
    /// Statement or expression.
    pub kind: LineInfoKind,
}

/// A file checksum as stored in the file checksum table: one of the known
/// digest kinds, or no checksum at all.
#[derive(Clone, Debug, PartialEq, Eq)]
pub enum FileChecksum {
    Missing,
    Md5(Vec<u8>),
    Sha1(Vec<u8>),
    Sha256(Vec<u8>),
}

/// One entry of the file checksum table: the file name reference and the
/// checksum bytes.
#[derive(Clone, Debug, PartialEq, Eq)]
pub struct FileInfo {
    /// Reference to the file name in the string table.
    pub name: StringRef,
    /// File checksum value.
    pub checksum: FileChecksum,
}

/// A resolved cross-module reference: the module that declares the item and
/// the raw local index of the item within that module.
#[derive(Clone, Copy, Debug, PartialEq, Eq)]
pub struct CrossModuleRef {
    pub module: ModuleRef,
    pub local_index: u32,
}

/// One entry of the cross-module export table, tagged by the index space it
/// lives in: the top bit of the local index distinguishes the id space from
/// the type space.
#[derive(Clone, Copy, Debug, PartialEq, Eq)]
pub enum CrossModuleExport {
    /// A local id index exported under a global id index.
    Id(u32, u32),
    /// A local type index exported under a global type index.
    Type(u32, u32),
}

} // verus!
