//! The line program decoder: bit-packed line-number records, optional column
//! records, and the block structure of a lines subsection.

use vstd::prelude::*;
use crate::bytes::{le_u16, le_u32, read_u16, read_u32};
use crate::types::{DecodeError, LineInfoKind, PdbInternalSectionOffset};

verus! {

/// Flag bit of a lines subsection header that declares column records.
pub const CV_LINES_HAVE_COLUMNS: u16 = 0x1;

/// Sentinel start-line value marking code a debugger should not step onto.
pub const LINE_MARKER_DO_NOT_STEP_ONTO: u32 = 0xfeefee;

/// Sentinel start-line value marking code a debugger should not step into.
pub const LINE_MARKER_DO_NOT_STEP_INTO: u32 = 0xf00f00;

/// Marker instructions for a code offset, hinting a debugger.
#[derive(Clone, Copy, Debug, PartialEq, Eq)]
pub enum LineMarkerKind {
    /// A debugger should skip this address.
    DoNotStepOnto,
    /// A debugger should not step into this address.
    DoNotStepInto,
}

/// A mapping of a code offset to a source line range.
#[derive(Clone, Copy, Debug, PartialEq, Eq)]
pub struct LineNumberEntry {
    /// Delta offset to the start of the line contribution.
    pub offset: u32,
    /// Start line number of the statement or expression.
    pub start_line: u32,
    /// End line number of the statement or expression.
    pub end_line: u32,
    /// The kind of code construct this entry refers to.
    pub kind: LineInfoKind,
}

/// A debugging marker at a code offset.
#[derive(Clone, Copy, Debug, PartialEq, Eq)]
pub struct LineMarkerEntry {
    /// Delta offset to the start of the line contribution.
    pub offset: u32,
    /// How a debugger should treat the code at this offset.
    pub kind: LineMarkerKind,
}

/// A decoded line record: a real source line, or a debugger marker.
#[derive(Clone, Copy, Debug, PartialEq, Eq)]
pub enum LineEntry {
    /// Declares a source line number.
    Number(LineNumberEntry),
    /// Declares a debugging marker.
    Marker(LineMarkerEntry),
}

/// The raw bit-packed line number record: a code offset and a packed word
/// holding a 24-bit start line, a 7-bit end-line field and a statement flag.
#[derive(Clone, Copy, Debug, PartialEq, Eq)]
pub struct LineNumberHeader {
    /// Offset to the start of the code covered by this record.
    pub offset: u32,
    /// Packed start line (bits 0..24), end-line low bits (bits 24..31) and
    /// statement flag (bit 31).
    pub flags: u32,
}

/// The end line before overflow correction: all bits of the start line above
/// bit 6, with the 7-bit field from bits 24..31 of the packed word as the low
/// bits. Producers store the truncated absolute end line there, not a
/// reliable delta.
pub open spec fn raw_end_line(flags: u32) -> u32 {
    ((flags & 0x00ff_ffff) & 0xffff_ff80) | ((flags >> 24) & 0x7f)
}

/// The decoded form of a packed line record: a marker for the two sentinel
/// start-line values, otherwise a line number entry whose end line is
/// corrected by one 128-line wrap when the raw end line falls below the start
/// line.
pub open spec fn line_entry_of(offset: u32, flags: u32) -> LineEntry {
    let start_line = flags & 0x00ff_ffff;
    if start_line == LINE_MARKER_DO_NOT_STEP_ONTO {
        LineEntry::Marker(LineMarkerEntry { offset, kind: LineMarkerKind::DoNotStepOnto })
    } else if start_line == LINE_MARKER_DO_NOT_STEP_INTO {
        LineEntry::Marker(LineMarkerEntry { offset, kind: LineMarkerKind::DoNotStepInto })
    } else {
        let raw = raw_end_line(flags);
        let end_line = if raw < start_line {
            (raw + 128) as u32
        } else {
            raw
        };
        let kind = if flags & 0x8000_0000 != 0 {
            LineInfoKind::Statement
        } else {
            LineInfoKind::Expression
        };
        LineEntry::Number(LineNumberEntry { offset, start_line, end_line, kind })
    }
}

/// The raw end line is below 2^24 and within 127 lines below the start line.
proof fn lemma_raw_end_line_bounds(flags: u32)
    by (bit_vector)
    ensures
        raw_end_line(flags) < 0x100_0000,
        (flags & 0x00ff_ffff) <= raw_end_line(flags) + 127,
{
}

/// Overflow correction of the end line: whenever the raw end line falls below
/// the start line, the corrected end line is the raw value advanced by one
/// 128-line wrap and lands in the 127 lines above the start line; in every
/// decoded line number entry the end line is at least the start line.
pub proof fn lemma_line_overflow_correction(offset: u32, flags: u32)
    ensures
        match line_entry_of(offset, flags) {
            LineEntry::Number(e) => {
                &&& e.start_line <= e.end_line
                &&& (raw_end_line(flags) < e.start_line ==> {
                    &&& e.end_line == raw_end_line(flags) + 128
                    &&& e.start_line < e.end_line <= e.start_line + 127
                })
            },
            LineEntry::Marker(_) => true,
        },
{
    lemma_raw_end_line_bounds(flags);
}

/// The two sentinel start-line values always decode to markers, never to line
/// number entries, whatever the other bits of the packed word hold.
pub proof fn lemma_sentinels_are_markers(offset: u32, flags: u32)
    ensures
        flags & 0x00ff_ffff == LINE_MARKER_DO_NOT_STEP_ONTO ==> line_entry_of(offset, flags)
            == LineEntry::Marker(
            LineMarkerEntry { offset, kind: LineMarkerKind::DoNotStepOnto },
        ),
        flags & 0x00ff_ffff == LINE_MARKER_DO_NOT_STEP_INTO ==> line_entry_of(offset, flags)
            == LineEntry::Marker(
            LineMarkerEntry { offset, kind: LineMarkerKind::DoNotStepInto },
        ),
{
}

impl LineNumberHeader {
    /// Decodes this packed record into a line entry: a marker for the two
    /// sentinel start lines, otherwise a line number entry with the
    /// overflow-corrected end line.
    pub fn parse(self) -> (r: LineEntry)
        ensures
            r == line_entry_of(self.offset, self.flags),
    {
        let start_line = self.flags & 0x00ff_ffff;
        if start_line == LINE_MARKER_DO_NOT_STEP_ONTO {
            return LineEntry::Marker(
                LineMarkerEntry { offset: self.offset, kind: LineMarkerKind::DoNotStepOnto },
            );
        }
        if start_line == LINE_MARKER_DO_NOT_STEP_INTO {
            return LineEntry::Marker(
                LineMarkerEntry { offset: self.offset, kind: LineMarkerKind::DoNotStepInto },
            );
        }
        let line_delta = (self.flags >> 24) & 0x7f;
        let high_start = start_line & 0xffff_ff80;
        let raw = high_start | line_delta;
        proof {
            lemma_raw_end_line_bounds(self.flags);
        }
        let end_line = if raw < start_line {
            raw + 128
        } else {
            raw
        };
        let kind = if self.flags & 0x8000_0000 != 0 {
            LineInfoKind::Statement
        } else {
            LineInfoKind::Expression
        };
        LineEntry::Number(LineNumberEntry { offset: self.offset, start_line, end_line, kind })
    }
}

/// Header of a lines subsection: the section/offset anchor of the code it
/// covers, a flags word, and the code size.
#[derive(Clone, Copy, Debug, PartialEq, Eq)]
pub struct DebugLinesHeader {
    /// Section offset of this line contribution.
    pub offset: PdbInternalSectionOffset,
    /// Flags word; the low bit declares column records.
    pub flags: u16,
    /// Code size of this line contribution.
    pub code_size: u32,
}

/// The lines-subsection header stored at byte position `i`.
pub open spec fn lines_header_at(s: Seq<u8>, i: int) -> DebugLinesHeader {
    DebugLinesHeader {
        offset: PdbInternalSectionOffset { offset: le_u32(s, i), section: le_u16(s, i + 4) },
        flags: le_u16(s, i + 6),
        code_size: le_u32(s, i + 8),
    }
}

/// Byte size of a lines-subsection header.
pub const LINES_HEADER_SIZE: usize = 12;

impl DebugLinesHeader {
    /// Whether the blocks of this subsection carry column records after their
    /// line records.
    pub fn has_columns(self) -> (r: bool)
        ensures
            r == (self.flags & CV_LINES_HAVE_COLUMNS != 0),
    {
        self.flags & CV_LINES_HAVE_COLUMNS != 0
    }
}

/// Reads the lines-subsection header at position `pos`.
pub fn read_lines_header(data: &Vec<u8>, pos: usize) -> (r: DebugLinesHeader)
    requires
        pos + LINES_HEADER_SIZE <= data@.len(),
    ensures
        r == lines_header_at(data@, pos as int),
{
    let n = data.len();
    DebugLinesHeader {
        offset: PdbInternalSectionOffset {
            offset: read_u32(data, pos),
            section: read_u16(data, pos + 4),
        },
        flags: read_u16(data, pos + 6),
        code_size: read_u32(data, pos + 8),
    }
}

/// Header of one block inside a lines subsection.
#[derive(Clone, Copy, Debug, PartialEq, Eq)]
pub struct DebugLinesBlockHeader {
    /// Byte offset of the file checksum entry in the file checksums
    /// subsection.
    pub file_index: u32,
    /// Number of line records in this block; when the subsection declares
    /// columns, the same number of column records follows the line records.
    pub num_lines: u32,
    /// Total byte size of this block, including this header and the line and
    /// column records.
    pub block_size: u32,
}

/// The block header stored at byte position `i`.
pub open spec fn block_header_at(s: Seq<u8>, i: int) -> DebugLinesBlockHeader {
    DebugLinesBlockHeader {
        file_index: le_u32(s, i),
        num_lines: le_u32(s, i + 4),
        block_size: le_u32(s, i + 8),
    }
}

/// Byte size of a block header.
pub const BLOCK_HEADER_SIZE: usize = 12;

/// Byte size of a packed line record.
pub const LINE_RECORD_SIZE: usize = 8;

/// Byte size of a column record.
pub const COLUMN_RECORD_SIZE: usize = 4;

/// Reads the block header at position `pos`.
pub fn read_block_header(data: &Vec<u8>, pos: usize) -> (r: DebugLinesBlockHeader)
    requires
        pos + BLOCK_HEADER_SIZE <= data@.len(),
    ensures
        r == block_header_at(data@, pos as int),
{
    let n = data.len();
    DebugLinesBlockHeader {
        file_index: read_u32(data, pos),
        num_lines: read_u32(data, pos + 4),
        block_size: read_u32(data, pos + 8),
    }
}

/// A column range paired positionally with a line record.
#[derive(Clone, Copy, Debug, PartialEq, Eq)]
pub struct ColumnNumberEntry {
    pub start_column: u16,
    pub end_column: u16,
}

/// The column record stored at byte position `i`.
pub open spec fn column_entry_at(s: Seq<u8>, i: int) -> ColumnNumberEntry {
    ColumnNumberEntry { start_column: le_u16(s, i), end_column: le_u16(s, i + 2) }
}

/// Outcome of decoding one line record at a cursor position.
pub enum LineRecStep {
    Done,
    Fail(DecodeError),
    Item(LineEntry, int),
}

/// Decodes the line record at `pos`: the decoded entry and the position of
/// the next record, the end of the span, or a truncation error.
pub open spec fn line_rec_next(s: Seq<u8>, pos: int) -> LineRecStep {
    if pos < 0 || pos > s.len() {
        LineRecStep::Fail(DecodeError::Truncated)
    } else if pos == s.len() {
        LineRecStep::Done
    } else if pos + LINE_RECORD_SIZE > s.len() {
        LineRecStep::Fail(DecodeError::Truncated)
    } else {
        LineRecStep::Item(line_entry_of(le_u32(s, pos), le_u32(s, pos + 4)), pos + LINE_RECORD_SIZE)
    }
}

/// A cursor over the line records of one block.
#[derive(Clone, Debug)]
pub struct DebugLinesIterator {
    /// Header of the block the records belong to.
    pub block: DebugLinesBlockHeader,
    pub data: Vec<u8>,
    pub pos: usize,
}

impl DebugLinesIterator {
    /// The cursor is within the span.
    pub open spec fn wf(self) -> bool {
        self.pos <= self.data@.len()
    }

    /// Decodes the next line record, exactly as `line_rec_next` describes.
    pub fn next(&mut self) -> (r: Result<Option<LineEntry>, DecodeError>)
        requires
            old(self).wf(),
        ensures
            final(self).wf(),
            final(self).data@ == old(self).data@,
            final(self).block == old(self).block,
            match line_rec_next(old(self).data@, old(self).pos as int) {
                LineRecStep::Done => {
                    &&& r == Ok::<Option<LineEntry>, DecodeError>(None)
                    &&& final(self).pos == old(self).pos
                },
                LineRecStep::Fail(e) => {
                    &&& r == Err::<Option<LineEntry>, DecodeError>(e)
                    &&& final(self).pos == old(self).data@.len()
                },
                LineRecStep::Item(entry, next) => {
                    &&& r == Ok::<Option<LineEntry>, DecodeError>(Some(entry))
                    &&& final(self).pos == next
                },
            },
    {
        let n = self.data.len();
        if self.pos == n {
            return Ok(None);
        }
        if n - self.pos < LINE_RECORD_SIZE {
            self.pos = n;
            return Err(DecodeError::Truncated);
        }
        let offset = read_u32(&self.data, self.pos);
        let flags = read_u32(&self.data, self.pos + 4);
        self.pos = self.pos + LINE_RECORD_SIZE;
        Ok(Some(LineNumberHeader { offset, flags }.parse()))
    }
}

/// Outcome of decoding one column record at a cursor position.
pub enum ColumnRecStep {
    Done,
    Fail(DecodeError),
    Item(ColumnNumberEntry, int),
}

/// Decodes the column record at `pos`.
pub open spec fn column_rec_next(s: Seq<u8>, pos: int) -> ColumnRecStep {
    if pos < 0 || pos > s.len() {
        ColumnRecStep::Fail(DecodeError::Truncated)
    } else if pos == s.len() {
        ColumnRecStep::Done
    } else if pos + COLUMN_RECORD_SIZE > s.len() {
        ColumnRecStep::Fail(DecodeError::Truncated)
    } else {
        ColumnRecStep::Item(column_entry_at(s, pos), pos + COLUMN_RECORD_SIZE)
    }
}

/// A cursor over the column records of one block.
#[derive(Clone, Debug)]
pub struct DebugColumnsIterator {
    /// Header of the block the records belong to.
    pub block: DebugLinesBlockHeader,
    pub data: Vec<u8>,
    pub pos: usize,
}

impl DebugColumnsIterator {
    /// The cursor is within the span.
    pub open spec fn wf(self) -> bool {
        self.pos <= self.data@.len()
    }

    /// Decodes the next column record, exactly as `column_rec_next`
    /// describes.
    pub fn next(&mut self) -> (r: Result<Option<ColumnNumberEntry>, DecodeError>)
        requires
            old(self).wf(),
        ensures
            final(self).wf(),
            final(self).data@ == old(self).data@,
            final(self).block == old(self).block,
            match column_rec_next(old(self).data@, old(self).pos as int) {
                ColumnRecStep::Done => {
                    &&& r == Ok::<Option<ColumnNumberEntry>, DecodeError>(None)
                    &&& final(self).pos == old(self).pos
                },
                ColumnRecStep::Fail(e) => {
                    &&& r == Err::<Option<ColumnNumberEntry>, DecodeError>(e)
                    &&& final(self).pos == old(self).data@.len()
                },
                ColumnRecStep::Item(entry, next) => {
                    &&& r == Ok::<Option<ColumnNumberEntry>, DecodeError>(Some(entry))
                    &&& final(self).pos == next
                },
            },
    {
        let n = self.data.len();
        if self.pos == n {
            return Ok(None);
        }
        if n - self.pos < COLUMN_RECORD_SIZE {
            self.pos = n;
            return Err(DecodeError::Truncated);
        }
        let start_column = read_u16(&self.data, self.pos);
        let end_column = read_u16(&self.data, self.pos + 2);
        self.pos = self.pos + COLUMN_RECORD_SIZE;
        Ok(Some(ColumnNumberEntry { start_column, end_column }))
    }
}

impl DebugLinesBlockHeader {
    /// The byte size of all line and column records of this block combined.
    pub fn data_size(&self) -> (r: usize)
        requires
            self.block_size >= BLOCK_HEADER_SIZE,
        ensures
            r == self.block_size - BLOCK_HEADER_SIZE,
    {
        self.block_size as usize - BLOCK_HEADER_SIZE
    }

    /// The byte size of all line records of this block combined.
    pub fn line_size(&self) -> (r: usize)
        requires
            self.num_lines * LINE_RECORD_SIZE <= usize::MAX,
        ensures
            r == self.num_lines * LINE_RECORD_SIZE,
    {
        self.num_lines as usize * LINE_RECORD_SIZE
    }

    /// The byte size of all column records of this block combined: one per
    /// line record when the subsection declares columns, none otherwise.
    pub fn column_size(&self, subsection: DebugLinesHeader) -> (r: usize)
        requires
            self.num_lines * COLUMN_RECORD_SIZE <= usize::MAX,
        ensures
            r == spec_column_size(*self, subsection),
    {
        if subsection.has_columns() {
            self.num_lines as usize * COLUMN_RECORD_SIZE
        } else {
            0
        }
    }
}

/// The combined byte size of a block's column records: zero unless the
/// subsection declares columns.
pub open spec fn spec_column_size(h: DebugLinesBlockHeader, subsection: DebugLinesHeader) -> int {
    if subsection.flags & CV_LINES_HAVE_COLUMNS != 0 {
        h.num_lines * COLUMN_RECORD_SIZE
    } else {
        0
    }
}

/// The spans of one block at a cursor position: its header, the byte ranges
/// of its line and column records, and the position of the next block.
pub struct BlockItem {
    pub header: DebugLinesBlockHeader,
    pub line_lo: int,
    pub line_hi: int,
    pub col_lo: int,
    pub col_hi: int,
    pub next: int,
}

/// Outcome of decoding one block at a cursor position.
pub enum BlockStep {
    Done,
    Fail(DecodeError),
    Item(BlockItem),
}

/// Decodes the block at `pos`: reads the block header, bounds the block body
/// by its declared size, and splits the body into the line-record span and
/// the column-record span. Body bytes beyond the two spans are tolerated and
/// skipped. A body too small for its declared records is a truncation error.
pub open spec fn block_next(s: Seq<u8>, pos: int, subsection: DebugLinesHeader) -> BlockStep {
    if pos < 0 || pos > s.len() {
        BlockStep::Fail(DecodeError::Truncated)
    } else if pos == s.len() {
        BlockStep::Done
    } else if pos + BLOCK_HEADER_SIZE > s.len() {
        BlockStep::Fail(DecodeError::Truncated)
    } else {
        let h = block_header_at(s, pos);
        if h.block_size < BLOCK_HEADER_SIZE {
            BlockStep::Fail(DecodeError::Truncated)
        } else {
            let dsize = h.block_size - BLOCK_HEADER_SIZE;
            let lsize = h.num_lines * LINE_RECORD_SIZE;
            let csize = spec_column_size(h, subsection);
            if pos + BLOCK_HEADER_SIZE + dsize > s.len() || lsize + csize > dsize {
                BlockStep::Fail(DecodeError::Truncated)
            } else {
                let lo = pos + BLOCK_HEADER_SIZE;
                BlockStep::Item(
                    BlockItem {
                        header: h,
                        line_lo: lo,
                        line_hi: lo + lsize,
                        col_lo: lo + lsize,
                        col_hi: lo + lsize + csize,
                        next: lo + dsize,
                    },
                )
            }
        }
    }
}

/// A decoded block advances the cursor; its record spans lie within the
/// buffer, the column span right after the line span.
pub proof fn lemma_block_next_advances(s: Seq<u8>, pos: int, subsection: DebugLinesHeader)
    ensures
        match block_next(s, pos, subsection) {
            BlockStep::Item(item) => {
                &&& pos < item.line_lo <= item.line_hi == item.col_lo <= item.col_hi <= item.next
                &&& item.next <= s.len()
            },
            _ => true,
        },
{
}

/// One block of a lines subsection: its header and copies of its line-record
/// and column-record spans.
#[derive(Clone, Debug)]
pub struct DebugLinesBlock {
    pub header: DebugLinesBlockHeader,
    pub line_data: Vec<u8>,
    pub column_data: Vec<u8>,
}

impl DebugLinesBlock {
    /// The byte offset of this block's file in the file checksum table.
    pub fn file_index(&self) -> (r: crate::types::FileIndex)
        ensures
            r == (crate::types::FileIndex(self.header.file_index)),
    {
        crate::types::FileIndex(self.header.file_index)
    }

    /// A cursor over this block's line records.
    pub fn lines(&self) -> (r: DebugLinesIterator)
        ensures
            r.block == self.header,
            r.data@ == self.line_data@,
            r.pos == 0,
    {
        DebugLinesIterator {
            block: self.header,
            data: crate::framer::copy_bytes(&self.line_data),
            pos: 0,
        }
    }

    /// A cursor over this block's column records; empty when the subsection
    /// declared no columns.
    pub fn columns(&self) -> (r: DebugColumnsIterator)
        ensures
            r.block == self.header,
            r.data@ == self.column_data@,
            r.pos == 0,
    {
        DebugColumnsIterator {
            block: self.header,
            data: crate::framer::copy_bytes(&self.column_data),
            pos: 0,
        }
    }
}

/// A cursor over the blocks of one lines subsection.
#[derive(Clone, Debug)]
pub struct DebugLinesBlockIterator {
    /// Header of the subsection the blocks belong to.
    pub header: DebugLinesHeader,
    pub data: Vec<u8>,
    pub pos: usize,
}

impl DebugLinesBlockIterator {
    /// The cursor is within the subsection body.
    pub open spec fn wf(self) -> bool {
        self.pos <= self.data@.len()
    }

    /// Decodes the next block, exactly as `block_next` describes.
    pub fn next(&mut self) -> (r: Result<Option<DebugLinesBlock>, DecodeError>)
        requires
            old(self).wf(),
        ensures
            final(self).wf(),
            final(self).data@ == old(self).data@,
            final(self).header == old(self).header,
            match block_next(old(self).data@, old(self).pos as int, old(self).header) {
                BlockStep::Done => {
                    &&& r == Ok::<Option<DebugLinesBlock>, DecodeError>(None)
                    &&& final(self).pos == old(self).pos
                },
                BlockStep::Fail(e) => {
                    &&& r == Err::<Option<DebugLinesBlock>, DecodeError>(e)
                    &&& final(self).pos == old(self).data@.len()
                },
                BlockStep::Item(item) => match r {
                    Ok(Some(block)) => {
                        &&& block.header == item.header
                        &&& block.line_data@ == old(self).data@.subrange(item.line_lo, item.line_hi)
                        &&& block.column_data@ == old(self).data@.subrange(item.col_lo, item.col_hi)
                        &&& final(self).pos == item.next
                    },
                    _ => false,
                },
            },
    {
        let n = self.data.len();
        if self.pos == n {
            return Ok(None);
        }
        if n - self.pos < BLOCK_HEADER_SIZE {
            self.pos = n;
            return Err(DecodeError::Truncated);
        }
        let h = read_block_header(&self.data, self.pos);
        if h.block_size < BLOCK_HEADER_SIZE as u32 {
            self.pos = n;
            return Err(DecodeError::Truncated);
        }
        let dsize = (h.block_size as usize) - BLOCK_HEADER_SIZE;
        let lsize64 = h.num_lines as u64 * LINE_RECORD_SIZE as u64;
        let csize64 = if self.header.has_columns() {
            h.num_lines as u64 * COLUMN_RECORD_SIZE as u64
        } else {
            0
        };
        if dsize > n - (self.pos + BLOCK_HEADER_SIZE) || lsize64 + csize64 > dsize as u64 {
            self.pos = n;
            return Err(DecodeError::Truncated);
        }
        let lsize = lsize64 as usize;
        let csize = csize64 as usize;
        let lo = self.pos + BLOCK_HEADER_SIZE;
        let line_data = crate::bytes::take_bytes(&self.data, lo, lo + lsize);
        let column_data = crate::bytes::take_bytes(&self.data, lo + lsize, lo + lsize + csize);
        self.pos = lo + dsize;
        Ok(Some(DebugLinesBlock { header: h, line_data, column_data }))
    }
}

/// One lines subsection: its header and its block data.
#[derive(Clone, Debug)]
pub struct DebugLinesSubsection {
    pub header: DebugLinesHeader,
    pub data: Vec<u8>,
}

impl DebugLinesSubsection {
    /// Splits a lines subsection body into its header and the block data
    /// that follows it.
    pub fn parse(data: Vec<u8>) -> (r: Result<Self, DecodeError>)
        ensures
            match r {
                Ok(sub) => {
                    &&& data@.len() >= LINES_HEADER_SIZE
                    &&& sub.header == lines_header_at(data@, 0)
                    &&& sub.data@ == data@.skip(LINES_HEADER_SIZE as int)
                },
                Err(e) => {
                    &&& data@.len() < LINES_HEADER_SIZE
                    &&& e == DecodeError::Truncated
                },
            },
    {
        if data.len() < LINES_HEADER_SIZE {
            return Err(DecodeError::Truncated);
        }
        let header = read_lines_header(&data, 0);
        let rest = crate::bytes::take_bytes(&data, LINES_HEADER_SIZE, data.len());
        assert(rest@ =~= data@.skip(LINES_HEADER_SIZE as int));
        Ok(DebugLinesSubsection { header, data: rest })
    }

    /// A cursor over the blocks of this subsection.
    pub fn blocks(&self) -> (r: DebugLinesBlockIterator)
        ensures
            r.header == self.header,
            r.data@ == self.data@,
            r.pos == 0,
    {
        DebugLinesBlockIterator {
            header: self.header,
            data: crate::framer::copy_bytes(&self.data),
            pos: 0,
        }
    }
}

} // verus!
