//! The file checksum table: fixed-then-variable checksum records, four-byte
//! aligned. A file reference elsewhere in the format is the byte offset of
//! its entry in this table, so the table supports both full iteration and
//! decoding that starts at a given byte offset.

use vstd::prelude::*;
use crate::bytes::{align4, le_u32, read_u8, read_u32, take_bytes};
use crate::framer::copy_bytes;
use crate::types::{DecodeError, FileChecksum, FileIndex, FileInfo, StringRef};

verus! {

/// The known checksum representations.
#[derive(Clone, Copy, Debug, PartialEq, Eq, Structural)]
pub enum FileChecksumKind {
    Missing,
    Md5,
    Sha1,
    Sha256,
}

/// The checksum kind denoted by a raw kind byte, if it is a known one.
pub open spec fn checksum_kind_from(v: u8) -> Option<FileChecksumKind> {
    if v == 0 {
        Some(FileChecksumKind::Missing)
    } else if v == 1 {
        Some(FileChecksumKind::Md5)
    } else if v == 2 {
        Some(FileChecksumKind::Sha1)
    } else if v == 3 {
        Some(FileChecksumKind::Sha256)
    } else {
        None
    }
}

impl FileChecksumKind {
    /// Decodes the checksum kind from its raw byte; a value outside the known
    /// set is an unimplemented-format error.
    pub fn parse(value: u8) -> (r: Result<FileChecksumKind, DecodeError>)
        ensures
            r == (match checksum_kind_from(value) {
                Some(k) => Ok::<FileChecksumKind, DecodeError>(k),
                None => Err(DecodeError::UnimplementedFileChecksumKind(value)),
            }),
    {
        match value {
            0 => Ok(FileChecksumKind::Missing),
            1 => Ok(FileChecksumKind::Md5),
            2 => Ok(FileChecksumKind::Sha1),
            3 => Ok(FileChecksumKind::Sha256),
            _ => Err(DecodeError::UnimplementedFileChecksumKind(value)),
        }
    }
}

/// Whether `c` is the checksum of kind `kind` over exactly the bytes `b`.
pub open spec fn checksum_matches(c: FileChecksum, kind: FileChecksumKind, b: Seq<u8>) -> bool {
    match kind {
        FileChecksumKind::Missing => c == FileChecksum::Missing,
        FileChecksumKind::Md5 => c matches FileChecksum::Md5(v) && v@ == b,
        FileChecksumKind::Sha1 => c matches FileChecksum::Sha1(v) && v@ == b,
        FileChecksumKind::Sha256 => c matches FileChecksum::Sha256(v) && v@ == b,
    }
}

/// One table entry at a cursor position: the name reference, the checksum
/// kind, the byte range of the checksum value, and the (aligned) position of
/// the next entry.
pub struct ChecksumItem {
    pub name_offset: u32,
    pub kind: FileChecksumKind,
    pub lo: int,
    pub hi: int,
    pub next: int,
}

/// Outcome of decoding one checksum entry at a cursor position.
pub enum ChecksumStep {
    Done,
    Fail(DecodeError),
    Item(ChecksumItem),
}

/// Decodes the checksum entry at `pos`: a six-byte header `{name_offset,
/// checksum_size, checksum_kind}`, then exactly `checksum_size` checksum
/// bytes, then padding to the next four-byte boundary. Running out of bytes
/// for the header, the value, or the padding is a truncation error; an
/// unknown kind byte is an unimplemented-format error.
pub open spec fn checksum_next(s: Seq<u8>, pos: int) -> ChecksumStep {
    if pos < 0 || pos > s.len() {
        ChecksumStep::Fail(DecodeError::Truncated)
    } else if pos == s.len() {
        ChecksumStep::Done
    } else if pos + 6 > s.len() {
        ChecksumStep::Fail(DecodeError::Truncated)
    } else {
        let name_offset = le_u32(s, pos);
        let size = s[pos + 4] as int;
        let kind_byte = s[pos + 5];
        if pos + 6 + size > s.len() {
            ChecksumStep::Fail(DecodeError::Truncated)
        } else {
            match checksum_kind_from(kind_byte) {
                None => ChecksumStep::Fail(DecodeError::UnimplementedFileChecksumKind(kind_byte)),
                Some(kind) => if align4(pos + 6 + size) > s.len() {
                    ChecksumStep::Fail(DecodeError::Truncated)
                } else {
                    ChecksumStep::Item(
                        ChecksumItem {
                            name_offset,
                            kind,
                            lo: pos + 6,
                            hi: pos + 6 + size,
                            next: align4(pos + 6 + size),
                        },
                    )
                },
            }
        }
    }
}

/// A decoded entry yields a strictly advancing in-range cursor.
pub proof fn lemma_checksum_next_advances(s: Seq<u8>, pos: int)
    ensures
        match checksum_next(s, pos) {
            ChecksumStep::Item(item) => pos < item.lo <= item.hi <= item.next <= s.len(),
            _ => true,
        },
{
}

/// One entry of the file checksum table.
#[derive(Clone, Debug, PartialEq, Eq)]
pub struct FileChecksumEntry {
    /// Reference to the file name in the string table.
    pub name: StringRef,
    /// File checksum value.
    pub checksum: FileChecksum,
}

/// A cursor over the entries of the file checksum table.
#[derive(Clone, Debug)]
pub struct DebugFileChecksumsIterator {
    pub data: Vec<u8>,
    pub pos: usize,
}

impl DebugFileChecksumsIterator {
    /// The cursor is within the table.
    pub open spec fn wf(self) -> bool {
        self.pos <= self.data@.len()
    }

    /// Decodes the next checksum entry, exactly as `checksum_next` describes.
    pub fn next(&mut self) -> (r: Result<Option<FileChecksumEntry>, DecodeError>)
        requires
            old(self).wf(),
        ensures
            final(self).wf(),
            final(self).data@ == old(self).data@,
            match checksum_next(old(self).data@, old(self).pos as int) {
                ChecksumStep::Done => {
                    &&& r == Ok::<Option<FileChecksumEntry>, DecodeError>(None)
                    &&& final(self).pos == old(self).pos
                },
                ChecksumStep::Fail(e) => {
                    &&& r == Err::<Option<FileChecksumEntry>, DecodeError>(e)
                    &&& final(self).pos == old(self).data@.len()
                },
                ChecksumStep::Item(item) => match r {
                    Ok(Some(entry)) => {
                        &&& entry.name == StringRef(item.name_offset)
                        &&& checksum_matches(
                            entry.checksum,
                            item.kind,
                            old(self).data@.subrange(item.lo, item.hi),
                        )
                        &&& final(self).pos == item.next
                    },
                    _ => false,
                },
            },
    {
        let n = self.data.len();
        if self.pos == n {
            return Ok(None);
        }
        if n - self.pos < 6 {
            self.pos = n;
            return Err(DecodeError::Truncated);
        }
        let name_offset = read_u32(&self.data, self.pos);
        let size = read_u8(&self.data, self.pos + 4) as usize;
        let kind_byte = read_u8(&self.data, self.pos + 5);
        if size > n - (self.pos + 6) {
            self.pos = n;
            return Err(DecodeError::Truncated);
        }
        let lo = self.pos + 6;
        let hi = lo + size;
        let kind = match FileChecksumKind::parse(kind_byte) {
            Ok(k) => k,
            Err(e) => {
                self.pos = n;
                return Err(e);
            },
        };
        let rem = hi % 4;
        let next = if rem == 0 {
            hi
        } else {
            let pad = 4 - rem;
            if pad > n - hi {
                self.pos = n;
                return Err(DecodeError::Truncated);
            }
            hi + pad
        };
        assert(next == align4(hi as int));
        let value = take_bytes(&self.data, lo, hi);
        let checksum = match kind {
            FileChecksumKind::Missing => FileChecksum::Missing,
            FileChecksumKind::Md5 => FileChecksum::Md5(value),
            FileChecksumKind::Sha1 => FileChecksum::Sha1(value),
            FileChecksumKind::Sha256 => FileChecksum::Sha256(value),
        };
        self.pos = next;
        Ok(Some(FileChecksumEntry { name: StringRef(name_offset), checksum }))
    }
}

/// The file checksum table of a module: the raw bytes of its subsection.
#[derive(Clone, Debug)]
pub struct DebugFileChecksumsSubsection {
    pub data: Vec<u8>,
}

impl DebugFileChecksumsSubsection {
    /// Wraps a file checksums subsection body; entries are decoded lazily.
    pub fn parse(data: Vec<u8>) -> (r: Result<Self, DecodeError>)
        ensures
            match r {
                Ok(sub) => sub.data@ == data@,
                Err(_) => false,
            },
    {
        Ok(DebugFileChecksumsSubsection { data })
    }

    /// A cursor over all entries, from the start of the table.
    pub fn entries(&self) -> (r: Result<DebugFileChecksumsIterator, DecodeError>)
        ensures
            match r {
                Ok(it) => it.wf() && it.data@ == self.data@ && it.pos == 0,
                Err(_) => false,
            },
    {
        self.entries_at_offset(FileIndex(0))
    }

    /// A cursor over the entries from the given byte offset into the table;
    /// an offset past the end of the table names no entry and is an
    /// invalid-file-checksum-offset error.
    pub fn entries_at_offset(&self, offset: FileIndex) -> (r: Result<
        DebugFileChecksumsIterator,
        DecodeError,
    >)
        ensures
            match r {
                Ok(it) => {
                    &&& offset.0 <= self.data@.len()
                    &&& it.wf()
                    &&& it.data@ == self.data@
                    &&& it.pos == offset.0
                },
                Err(e) => {
                    &&& offset.0 > self.data@.len()
                    &&& e == DecodeError::InvalidFileChecksumOffset(offset.0)
                },
            },
    {
        if offset.0 as usize > self.data.len() {
            return Err(DecodeError::InvalidFileChecksumOffset(offset.0));
        }
        Ok(DebugFileChecksumsIterator { data: copy_bytes(&self.data), pos: offset.0 as usize })
    }
}

/// A table entry together with the byte offset it was decoded at.
pub struct ChecksumRecord {
    pub pos: int,
    pub item: ChecksumItem,
}

/// Outcome of decoding the whole table from a cursor position.
pub enum TableScan {
    Fine(Seq<ChecksumRecord>),
    Fail(DecodeError),
}

/// All table entries from `pos` on, each with the byte offset it was decoded
/// at, or the error that decoding runs into.
pub open spec fn checksum_table(s: Seq<u8>, pos: int) -> TableScan
    decreases s.len() - pos,
    via checksum_table_dec
{
    match checksum_next(s, pos) {
        ChecksumStep::Done => TableScan::Fine(Seq::empty()),
        ChecksumStep::Fail(e) => TableScan::Fail(e),
        ChecksumStep::Item(item) => match checksum_table(s, item.next) {
            TableScan::Fine(rest) => TableScan::Fine(
                seq![ChecksumRecord { pos, item }] + rest,
            ),
            TableScan::Fail(e) => TableScan::Fail(e),
        },
    }
}

#[via_fn]
proof fn checksum_table_dec(s: Seq<u8>, pos: int) {
    lemma_checksum_next_advances(s, pos);
}

/// Round trip through the table's offsets: every entry that full iteration
/// decodes is decoded identically when the table is entered directly at that
/// entry's own byte offset.
pub proof fn lemma_checksum_offset_round_trip(s: Seq<u8>, pos: int, i: int)
    requires
        checksum_table(s, pos) matches TableScan::Fine(records) && 0 <= i < records.len(),
    ensures
        checksum_table(s, pos) matches TableScan::Fine(records) ==> checksum_next(
            s,
            records[i].pos,
        ) == ChecksumStep::Item(records[i].item),
    decreases s.len() - pos,
{
    lemma_checksum_next_advances(s, pos);
    match checksum_next(s, pos) {
        ChecksumStep::Item(item) => {
            if i > 0 {
                lemma_checksum_offset_round_trip(s, item.next, i - 1);
            }
        },
        _ => {},
    }
}

/// A cursor over the files named in the checksum table, as file-info records.
#[derive(Clone, Debug)]
pub struct FileIterator {
    pub checksums: DebugFileChecksumsIterator,
}

impl FileIterator {
    /// The underlying cursor is within the table.
    pub open spec fn wf(self) -> bool {
        self.checksums.wf()
    }

    /// Decodes the next file-info record, exactly as `checksum_next`
    /// describes at the underlying cursor.
    pub fn next(&mut self) -> (r: Result<Option<FileInfo>, DecodeError>)
        requires
            old(self).wf(),
        ensures
            final(self).wf(),
            final(self).checksums.data@ == old(self).checksums.data@,
            match checksum_next(old(self).checksums.data@, old(self).checksums.pos as int) {
                ChecksumStep::Done => {
                    &&& r == Ok::<Option<FileInfo>, DecodeError>(None)
                    &&& final(self).checksums.pos == old(self).checksums.pos
                },
                ChecksumStep::Fail(e) => {
                    &&& r == Err::<Option<FileInfo>, DecodeError>(e)
                    &&& final(self).checksums.pos == old(self).checksums.data@.len()
                },
                ChecksumStep::Item(item) => match r {
                    Ok(Some(info)) => {
                        &&& info.name == StringRef(item.name_offset)
                        &&& checksum_matches(
                            info.checksum,
                            item.kind,
                            old(self).checksums.data@.subrange(item.lo, item.hi),
                        )
                        &&& final(self).checksums.pos == item.next
                    },
                    _ => false,
                },
            },
    {
        match self.checksums.next() {
            Ok(Some(entry)) => Ok(Some(FileInfo { name: entry.name, checksum: entry.checksum })),
            Ok(None) => Ok(None),
            Err(error) => Err(error),
        }
    }
}

} // verus!
