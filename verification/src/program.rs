//! The line program of a module: the flattened walk over all lines
//! subsections, their blocks and their records, and access to the file
//! checksum table by byte offset.

use vstd::prelude::*;
use crate::bytes::wrap_add;
use crate::checksums::{
    checksum_next, ChecksumStep, DebugFileChecksumsIterator, DebugFileChecksumsSubsection,
    FileIterator, checksum_matches,
};
use crate::framer::{
    find_section, find_subsection, frame_next, DebugSubsectionIterator, DebugSubsectionKind,
    FindOutcome, FrameStep, copy_bytes,
};
use crate::lines::{
    block_next, column_rec_next, line_rec_next, lines_header_at, BlockStep, ColumnNumberEntry,
    ColumnRecStep, DebugColumnsIterator, DebugLinesBlockHeader, DebugLinesBlockIterator,
    DebugLinesHeader, DebugLinesIterator, DebugLinesSubsection, LineEntry, LineNumberEntry,
    LineRecStep, LINES_HEADER_SIZE,
};
use crate::types::{
    DecodeError, FileIndex, FileInfo, LineInfo, PdbInternalSectionOffset, StringRef,
};

verus! {

/// The whole position of the flattened line walk: the framing cursor over
/// the module data, the current lines-subsection header and block cursor,
/// the current block header, and the cursors over its line and column
/// records.
pub struct FlatState {
    pub sec_s: Seq<u8>,
    pub sec_pos: int,
    pub sect_hdr: DebugLinesHeader,
    pub blk_s: Seq<u8>,
    pub blk_pos: int,
    pub blk_hdr: DebugLinesBlockHeader,
    pub lin_s: Seq<u8>,
    pub lin_pos: int,
    pub col_s: Seq<u8>,
    pub col_pos: int,
}

/// Outcome of one step of the flattened line walk.
pub enum FlatStep {
    Done,
    Fail(DecodeError),
    Item(LineInfo, FlatState),
}

/// The record the flattened walk emits for a line number entry: the entry's
/// offset delta applied to the subsection's section/offset anchor, the
/// block's file, the entry's line range and kind, the paired column range
/// when one was decoded, and no length — length inference is left to
/// callers.
pub open spec fn flat_record(
    st: FlatState,
    e: LineNumberEntry,
    col: Option<ColumnNumberEntry>,
) -> LineInfo {
    LineInfo {
        offset: PdbInternalSectionOffset {
            offset: wrap_add(st.sect_hdr.offset.offset, e.offset),
            section: st.sect_hdr.offset.section,
        },
        length: None,
        file_index: FileIndex(st.blk_hdr.file_index),
        line_start: e.start_line,
        line_end: e.end_line,
        column_start: match col {
            Some(c) => Some(c.start_column as u32),
            None => None,
        },
        column_end: match col {
            Some(c) => Some(c.end_column as u32),
            None => None,
        },
        kind: e.kind,
    }
}

/// One step of the flattened walk: the next line record of the current
/// block, paired with its column record when the block carries columns;
/// marker entries are skipped. An exhausted block moves to the next block of
/// the subsection; an exhausted subsection moves to the next lines
/// subsection of the module; other subsection kinds are passed over. Any
/// decode error of any layer ends the walk.
pub open spec fn flat_next(st: FlatState) -> FlatStep
    decreases
            st.sec_s.len() - st.sec_pos,
            st.blk_s.len() - st.blk_pos,
            st.lin_s.len() - st.lin_pos,
    via flat_next_dec
{
    match line_rec_next(st.lin_s, st.lin_pos) {
        LineRecStep::Fail(e) => FlatStep::Fail(e),
        LineRecStep::Item(entry, lnext) => match column_rec_next(st.col_s, st.col_pos) {
            ColumnRecStep::Fail(e) => FlatStep::Fail(e),
            ColumnRecStep::Done => {
                let st1 = FlatState { lin_pos: lnext, ..st };
                match entry {
                    LineEntry::Marker(_) => flat_next(st1),
                    LineEntry::Number(e) => FlatStep::Item(flat_record(st1, e, None), st1),
                }
            },
            ColumnRecStep::Item(c, cnext) => {
                let st1 = FlatState { lin_pos: lnext, col_pos: cnext, ..st };
                match entry {
                    LineEntry::Marker(_) => flat_next(st1),
                    LineEntry::Number(e) => FlatStep::Item(flat_record(st1, e, Some(c)), st1),
                }
            },
        },
        LineRecStep::Done => match block_next(st.blk_s, st.blk_pos, st.sect_hdr) {
            BlockStep::Fail(e) => FlatStep::Fail(e),
            BlockStep::Item(item) => flat_next(
                FlatState {
                    blk_pos: item.next,
                    blk_hdr: item.header,
                    lin_s: st.blk_s.subrange(item.line_lo, item.line_hi),
                    lin_pos: 0,
                    col_s: st.blk_s.subrange(item.col_lo, item.col_hi),
                    col_pos: 0,
                    ..st
                },
            ),
            BlockStep::Done => match frame_next(st.sec_s, st.sec_pos) {
                FrameStep::Fail(e) => FlatStep::Fail(e),
                FrameStep::Done => FlatStep::Done,
                FrameStep::Item(kind, lo, hi, next) => if kind != DebugSubsectionKind::Lines {
                    flat_next(FlatState { sec_pos: next, ..st })
                } else {
                    let body = st.sec_s.subrange(lo, hi);
                    if body.len() < LINES_HEADER_SIZE {
                        FlatStep::Fail(DecodeError::Truncated)
                    } else {
                        flat_next(
                            FlatState {
                                sec_pos: next,
                                sect_hdr: lines_header_at(body, 0),
                                blk_s: body.skip(LINES_HEADER_SIZE as int),
                                blk_pos: 0,
                                ..st
                            },
                        )
                    }
                },
            },
        },
    }
}

#[via_fn]
proof fn flat_next_dec(st: FlatState) {
    crate::lines::lemma_block_next_advances(st.blk_s, st.blk_pos, st.sect_hdr);
    crate::framer::lemma_frame_next_advances(st.sec_s, st.sec_pos);
}

/// The cursors of a walk position are within their buffers.
pub open spec fn state_wf(st: FlatState) -> bool {
    &&& 0 <= st.sec_pos <= st.sec_s.len()
    &&& 0 <= st.blk_pos <= st.blk_s.len()
    &&& 0 <= st.lin_pos <= st.lin_s.len()
}

/// A step that emits a record strictly advances the walk: the successor
/// position reads the same module bytes, stays within its buffers, and moved
/// forward at the subsection, block or line level.
pub proof fn lemma_flat_next_advances(st: FlatState)
    requires
        state_wf(st),
    ensures
        match flat_next(st) {
            FlatStep::Item(_, st2) => {
                &&& state_wf(st2)
                &&& st2.sec_s == st.sec_s
                &&& (st2.sec_pos > st.sec_pos || (st2.sec_pos == st.sec_pos && (st2.blk_s
                    == st.blk_s && (st2.blk_pos > st.blk_pos || (st2.blk_pos == st.blk_pos && (
                st2.lin_s == st.lin_s && st2.lin_pos > st.lin_pos))))))
            },
            _ => true,
        },
    decreases
            st.sec_s.len() - st.sec_pos,
            st.blk_s.len() - st.blk_pos,
            st.lin_s.len() - st.lin_pos,
{
    crate::lines::lemma_block_next_advances(st.blk_s, st.blk_pos, st.sect_hdr);
    crate::framer::lemma_frame_next_advances(st.sec_s, st.sec_pos);
    match line_rec_next(st.lin_s, st.lin_pos) {
        LineRecStep::Item(entry, lnext) => {
            match column_rec_next(st.col_s, st.col_pos) {
                ColumnRecStep::Done => {
                    let st1 = FlatState { lin_pos: lnext, ..st };
                    if entry matches LineEntry::Marker(_) {
                        lemma_flat_next_advances(st1);
                    }
                },
                ColumnRecStep::Item(c, cnext) => {
                    let st1 = FlatState { lin_pos: lnext, col_pos: cnext, ..st };
                    if entry matches LineEntry::Marker(_) {
                        lemma_flat_next_advances(st1);
                    }
                },
                ColumnRecStep::Fail(_) => {},
            }
        },
        LineRecStep::Done => {
            match block_next(st.blk_s, st.blk_pos, st.sect_hdr) {
                BlockStep::Item(item) => {
                    lemma_flat_next_advances(
                        FlatState {
                            blk_pos: item.next,
                            blk_hdr: item.header,
                            lin_s: st.blk_s.subrange(item.line_lo, item.line_hi),
                            lin_pos: 0,
                            col_s: st.blk_s.subrange(item.col_lo, item.col_hi),
                            col_pos: 0,
                            ..st
                        },
                    );
                },
                BlockStep::Done => {
                    match frame_next(st.sec_s, st.sec_pos) {
                        FrameStep::Item(kind, lo, hi, next) => {
                            if kind != DebugSubsectionKind::Lines {
                                lemma_flat_next_advances(FlatState { sec_pos: next, ..st });
                            } else {
                                let body = st.sec_s.subrange(lo, hi);
                                if body.len() >= LINES_HEADER_SIZE {
                                    lemma_flat_next_advances(
                                        FlatState {
                                            sec_pos: next,
                                            sect_hdr: lines_header_at(body, 0),
                                            blk_s: body.skip(LINES_HEADER_SIZE as int),
                                            blk_pos: 0,
                                            ..st
                                        },
                                    );
                                }
                            }
                        },
                        _ => {},
                    }
                },
                BlockStep::Fail(_) => {},
            }
        },
        LineRecStep::Fail(_) => {},
    }
}

/// The full drain of the flattened walk: every record it emits, in order,
/// and whether it ends at the end of the module data or in a decode error.
pub enum WalkOutcome {
    Fine(Seq<LineInfo>),
    Fail(Seq<LineInfo>, DecodeError),
}

/// All records the flattened walk emits from position `st` until it ends.
pub open spec fn flat_outputs(st: FlatState) -> WalkOutcome
    decreases
            st.sec_s.len() - st.sec_pos,
            st.blk_s.len() - st.blk_pos,
            st.lin_s.len() - st.lin_pos,
    via flat_outputs_dec
{
    if !state_wf(st) {
        WalkOutcome::Fine(Seq::empty())
    } else {
        match flat_next(st) {
            FlatStep::Done => WalkOutcome::Fine(Seq::empty()),
            FlatStep::Fail(e) => WalkOutcome::Fail(Seq::empty(), e),
            FlatStep::Item(info, st2) => match flat_outputs(st2) {
                WalkOutcome::Fine(rest) => WalkOutcome::Fine(seq![info] + rest),
                WalkOutcome::Fail(rest, e) => WalkOutcome::Fail(seq![info] + rest, e),
            },
        }
    }
}

#[via_fn]
proof fn flat_outputs_dec(st: FlatState) {
    if state_wf(st) {
        lemma_flat_next_advances(st);
    }
}

/// Draining two line walks that stand at equal positions over equal bytes
/// yields bit-identical record sequences and the same terminal outcome: the
/// walk is a function of the immutable module bytes and the cursor position
/// alone, so re-running a decoder over the same data reproduces its output
/// exactly.
pub proof fn lemma_line_walk_deterministic(a: FlatState, b: FlatState)
    requires
        a == b,
    ensures
        flat_outputs(a) == flat_outputs(b),
{
}

/// The flattened walk over all line records of a module, nested subsections
/// to blocks to line and column records, emitting one record per surviving
/// line number entry.
#[derive(Clone, Debug)]
pub struct LineIterator {
    /// Framing cursor over the subsections of the module.
    pub sections: DebugSubsectionIterator,
    /// Cursor over the blocks of the current lines subsection.
    pub blocks: DebugLinesBlockIterator,
    /// Cursor over the line records of the current block.
    pub lines: DebugLinesIterator,
    /// Cursor over the column records of the current block.
    pub columns: DebugColumnsIterator,
}

impl LineIterator {
    /// All four cursors are within their buffers.
    pub open spec fn wf(self) -> bool {
        self.sections.wf() && self.blocks.wf() && self.lines.wf() && self.columns.wf()
    }

    /// The walk position this iterator stands at.
    pub open spec fn view_state(self) -> FlatState {
        FlatState {
            sec_s: self.sections.data@,
            sec_pos: self.sections.pos as int,
            sect_hdr: self.blocks.header,
            blk_s: self.blocks.data@,
            blk_pos: self.blocks.pos as int,
            blk_hdr: self.lines.block,
            lin_s: self.lines.data@,
            lin_pos: self.lines.pos as int,
            col_s: self.columns.data@,
            col_pos: self.columns.pos as int,
        }
    }

    /// Exhausts all four cursors.
    fn sink(&mut self)
        ensures
            final(self).wf(),
            flat_next(final(self).view_state()) == FlatStep::Done,
    {
        let n = self.sections.data.len();
        self.sections.pos = n;
        let n = self.blocks.data.len();
        self.blocks.pos = n;
        let n = self.lines.data.len();
        self.lines.pos = n;
        let n = self.columns.data.len();
        self.columns.pos = n;
    }

    /// Emits the next line record of the walk, exactly as `flat_next`
    /// describes: the record and the new position on success, `None` at the
    /// end of the module data, or the decode error the walk ran into, after
    /// which the iterator is exhausted.
    pub fn next(&mut self) -> (r: Result<Option<LineInfo>, DecodeError>)
        requires
            old(self).wf(),
        ensures
            final(self).wf(),
            match flat_next(old(self).view_state()) {
                FlatStep::Done => {
                    &&& r == Ok::<Option<LineInfo>, DecodeError>(None)
                    &&& flat_next(final(self).view_state()) == FlatStep::Done
                },
                FlatStep::Fail(e) => {
                    &&& r == Err::<Option<LineInfo>, DecodeError>(e)
                    &&& flat_next(final(self).view_state()) == FlatStep::Done
                },
                FlatStep::Item(info, st) => {
                    &&& r == Ok::<Option<LineInfo>, DecodeError>(Some(info))
                    &&& final(self).view_state() == st
                },
            },
    {
        let ghost entry_view = self.view_state();
        loop
            invariant
                entry_view == old(self).view_state(),
                self.wf(),
                flat_next(self.view_state()) == flat_next(entry_view),
            decreases
                    self.sections.data@.len() - self.sections.pos,
                    self.blocks.data@.len() - self.blocks.pos,
                    self.lines.data@.len() - self.lines.pos,
        {
            let ghost pre = self.view_state();
            proof {
                crate::lines::lemma_block_next_advances(pre.blk_s, pre.blk_pos, pre.sect_hdr);
                crate::framer::lemma_frame_next_advances(pre.sec_s, pre.sec_pos);
            }
            match self.lines.next() {
                Err(e) => {
                    self.sink();
                    return Err(e);
                },
                Ok(Some(entry)) => {
                    let col_entry = match self.columns.next() {
                        Err(e) => {
                            self.sink();
                            return Err(e);
                        },
                        Ok(c) => c,
                    };
                    match entry {
                        LineEntry::Marker(_) => {},
                        LineEntry::Number(e) => {
                            let section_header = self.blocks.header;
                            let block_header = self.lines.block;
                            let info = LineInfo {
                                offset: section_header.offset.wrapping_add(e.offset),
                                length: None,
                                file_index: FileIndex(block_header.file_index),
                                line_start: e.start_line,
                                line_end: e.end_line,
                                column_start: match col_entry {
                                    Some(c) => Some(c.start_column as u32),
                                    None => None,
                                },
                                column_end: match col_entry {
                                    Some(c) => Some(c.end_column as u32),
                                    None => None,
                                },
                                kind: e.kind,
                            };
                            return Ok(Some(info));
                        },
                    }
                },
                Ok(None) => {
                    match self.blocks.next() {
                        Err(e) => {
                            self.sink();
                            return Err(e);
                        },
                        Ok(Some(block)) => {
                            self.lines = block.lines();
                            self.columns = block.columns();
                        },
                        Ok(None) => {
                            match self.sections.next() {
                                Err(e) => {
                                    self.sink();
                                    return Err(e);
                                },
                                Ok(Some(sub)) => {
                                    if sub.kind == DebugSubsectionKind::Lines {
                                        match DebugLinesSubsection::parse(sub.data) {
                                            Ok(lines_section) => {
                                                self.blocks = lines_section.blocks();
                                            },
                                            Err(e) => {
                                                self.sink();
                                                return Err(e);
                                            },
                                        }
                                    }
                                },
                                Ok(None) => {
                                    return Ok(None);
                                },
                            }
                        },
                    }
                },
            }
        }
    }
}

/// An empty lines-subsection header, the walk's position before any lines
/// subsection was entered.
pub open spec fn empty_lines_header() -> DebugLinesHeader {
    DebugLinesHeader {
        offset: PdbInternalSectionOffset { offset: 0, section: 0 },
        flags: 0,
        code_size: 0,
    }
}

/// An empty block header, the walk's position before any block was entered.
pub open spec fn empty_block_header() -> DebugLinesBlockHeader {
    DebugLinesBlockHeader { file_index: 0, num_lines: 0, block_size: 0 }
}

/// The line program of a module: its raw debug data and its file checksum
/// table.
pub struct LineProgram {
    pub data: Vec<u8>,
    pub file_checksums: DebugFileChecksumsSubsection,
}

impl LineProgram {
    /// Takes over a module's debug data and locates its file checksum table.
    /// A module without a file checksums subsection has an empty table.
    pub fn parse(data: Vec<u8>) -> (r: Result<Self, DecodeError>)
        ensures
            match find_section(data@, 0, DebugSubsectionKind::FileChecksums) {
                FindOutcome::Found(lo, hi) => match r {
                    Ok(lp) => lp.data@ == data@ && lp.file_checksums.data@ == data@.subrange(
                        lo,
                        hi,
                    ),
                    _ => false,
                },
                FindOutcome::Missing => match r {
                    Ok(lp) => lp.data@ == data@ && lp.file_checksums.data@.len() == 0,
                    _ => false,
                },
                FindOutcome::Fail(e) => r == Err::<LineProgram, DecodeError>(e),
            },
    {
        let checksums_data = match find_subsection(&data, DebugSubsectionKind::FileChecksums) {
            Err(e) => {
                return Err(e);
            },
            Ok(None) => {
                return Ok(
                    LineProgram {
                        data,
                        file_checksums: DebugFileChecksumsSubsection { data: Vec::new() },
                    },
                );
            },
            Ok(Some(d)) => d,
        };
        match DebugFileChecksumsSubsection::parse(checksums_data) {
            Ok(file_checksums) => Ok(LineProgram { data, file_checksums }),
            Err(e) => Err(e),
        }
    }

    /// The flattened walk over all line records of this module, from the
    /// start of its debug data.
    pub fn lines(&self) -> (r: LineIterator)
        ensures
            r.wf(),
            r.view_state() == (FlatState {
                sec_s: self.data@,
                sec_pos: 0,
                sect_hdr: empty_lines_header(),
                blk_s: Seq::<u8>::empty(),
                blk_pos: 0,
                blk_hdr: empty_block_header(),
                lin_s: Seq::<u8>::empty(),
                lin_pos: 0,
                col_s: Seq::<u8>::empty(),
                col_pos: 0,
            }),
    {
        let r = LineIterator {
            sections: DebugSubsectionIterator::new(copy_bytes(&self.data)),
            blocks: DebugLinesBlockIterator {
                header: DebugLinesHeader {
                    offset: PdbInternalSectionOffset { offset: 0, section: 0 },
                    flags: 0,
                    code_size: 0,
                },
                data: Vec::new(),
                pos: 0,
            },
            lines: DebugLinesIterator {
                block: DebugLinesBlockHeader { file_index: 0, num_lines: 0, block_size: 0 },
                data: Vec::new(),
                pos: 0,
            },
            columns: DebugColumnsIterator {
                block: DebugLinesBlockHeader { file_index: 0, num_lines: 0, block_size: 0 },
                data: Vec::new(),
                pos: 0,
            },
        };
        assert(r.view_state().blk_s =~= Seq::<u8>::empty());
        assert(r.view_state().lin_s =~= Seq::<u8>::empty());
        assert(r.view_state().col_s =~= Seq::<u8>::empty());
        r
    }

    /// The walk restricted to the one lines subsection whose header anchor
    /// equals `offset`, skipping the subsection layer.
    pub fn lines_at_offset(&self, offset: PdbInternalSectionOffset) -> (r: LineIterator)
        ensures
            r.wf(),
            match find_lines_at(self.data@, 0, offset) {
                LinesAtOutcome::Found(hdr, blo, bhi) => r.view_state() == (FlatState {
                    sec_s: Seq::<u8>::empty(),
                    sec_pos: 0,
                    sect_hdr: hdr,
                    blk_s: self.data@.subrange(blo, bhi),
                    blk_pos: 0,
                    blk_hdr: empty_block_header(),
                    lin_s: Seq::<u8>::empty(),
                    lin_pos: 0,
                    col_s: Seq::<u8>::empty(),
                    col_pos: 0,
                }),
                LinesAtOutcome::NoneFound => flat_next(r.view_state()) == FlatStep::Done,
            },
    {
        let mut it = DebugSubsectionIterator::new(copy_bytes(&self.data));
        loop
            invariant
                it.wf(),
                it.data@ == self.data@,
                find_lines_at(it.data@, it.pos as int, offset) == find_lines_at(
                    self.data@,
                    0,
                    offset,
                ),
            decreases it.data@.len() - it.pos,
        {
            let ghost pre_pos = it.pos as int;
            proof {
                crate::framer::lemma_frame_next_advances(it.data@, it.pos as int);
            }
            match it.next() {
                Err(_) => {
                    return empty_line_iterator();
                },
                Ok(None) => {
                    return empty_line_iterator();
                },
                Ok(Some(sub)) => {
                    if sub.kind == DebugSubsectionKind::Lines {
                        match DebugLinesSubsection::parse(sub.data) {
                            Err(_) => {
                                return empty_line_iterator();
                            },
                            Ok(lines_section) => {
                                if lines_section.header.offset == offset {
                                    let ghost lo = frame_next(it.data@, pre_pos)->Item_1;
                                    let ghost hi = frame_next(it.data@, pre_pos)->Item_2;
                                    let res = LineIterator {
                                        sections: DebugSubsectionIterator {
                                            data: Vec::new(),
                                            pos: 0,
                                        },
                                        blocks: lines_section.blocks(),
                                        lines: DebugLinesIterator {
                                            block: DebugLinesBlockHeader {
                                                file_index: 0,
                                                num_lines: 0,
                                                block_size: 0,
                                            },
                                            data: Vec::new(),
                                            pos: 0,
                                        },
                                        columns: DebugColumnsIterator {
                                            block: DebugLinesBlockHeader {
                                                file_index: 0,
                                                num_lines: 0,
                                                block_size: 0,
                                            },
                                            data: Vec::new(),
                                            pos: 0,
                                        },
                                    };
                                    proof {
                                        assert(res.view_state().sec_s =~= Seq::<u8>::empty());
                                        assert(res.view_state().lin_s =~= Seq::<u8>::empty());
                                        assert(res.view_state().col_s =~= Seq::<u8>::empty());
                                        assert(res.view_state().blk_s =~= self.data@.subrange(
                                            lo + LINES_HEADER_SIZE,
                                            hi,
                                        ));
                                    }
                                    return res;
                                }
                            },
                        }
                    }
                },
            }
        }
    }

    /// A cursor over the files named in this module's checksum table.
    pub fn files(&self) -> (r: FileIterator)
        ensures
            r.wf(),
            r.checksums.data@ == self.file_checksums.data@,
            r.checksums.pos == 0,
    {
        FileIterator {
            checksums: DebugFileChecksumsIterator {
                data: copy_bytes(&self.file_checksums.data),
                pos: 0,
            },
        }
    }

    /// Looks a file up by its byte offset into the checksum table — the
    /// format's file index — and decodes its entry. An offset that names no
    /// entry, whether past the table or at its very end, is an
    /// invalid-file-checksum-offset error.
    pub fn get_file_info(&self, index: FileIndex) -> (r: Result<FileInfo, DecodeError>)
        ensures
            index.0 > self.file_checksums.data@.len() ==> r == Err::<FileInfo, DecodeError>(
                DecodeError::InvalidFileChecksumOffset(index.0),
            ),
            index.0 <= self.file_checksums.data@.len() ==> match checksum_next(
                self.file_checksums.data@,
                index.0 as int,
            ) {
                ChecksumStep::Done => r == Err::<FileInfo, DecodeError>(
                    DecodeError::InvalidFileChecksumOffset(index.0),
                ),
                ChecksumStep::Fail(e) => r == Err::<FileInfo, DecodeError>(e),
                ChecksumStep::Item(item) => match r {
                    Ok(info) => {
                        &&& info.name == StringRef(item.name_offset)
                        &&& checksum_matches(
                            info.checksum,
                            item.kind,
                            self.file_checksums.data@.subrange(item.lo, item.hi),
                        )
                    },
                    _ => false,
                },
            },
    {
        let mut entries = match self.file_checksums.entries_at_offset(index) {
            Ok(it) => it,
            Err(e) => {
                return Err(e);
            },
        };
        match entries.next() {
            Err(e) => Err(e),
            Ok(None) => Err(DecodeError::InvalidFileChecksumOffset(index.0)),
            Ok(Some(entry)) => Ok(FileInfo { name: entry.name, checksum: entry.checksum }),
        }
    }
}

/// The first lines subsection whose header anchor equals the given offset:
/// its header and the byte range of its block data. Any framing or header
/// decode error while scanning, like a missing match, yields nothing.
pub enum LinesAtOutcome {
    Found(DebugLinesHeader, int, int),
    NoneFound,
}

/// Scans the framing from `pos` for the first lines subsection anchored at
/// `offset`.
pub open spec fn find_lines_at(
    s: Seq<u8>,
    pos: int,
    offset: PdbInternalSectionOffset,
) -> LinesAtOutcome
    decreases s.len() - pos,
    via find_lines_at_dec
{
    match frame_next(s, pos) {
        FrameStep::Done => LinesAtOutcome::NoneFound,
        FrameStep::Fail(_) => LinesAtOutcome::NoneFound,
        FrameStep::Item(kind, lo, hi, next) => if kind != DebugSubsectionKind::Lines {
            find_lines_at(s, next, offset)
        } else if hi - lo < LINES_HEADER_SIZE {
            LinesAtOutcome::NoneFound
        } else {
            let body = s.subrange(lo, hi);
            let hdr = lines_header_at(body, 0);
            if hdr.offset == offset {
                LinesAtOutcome::Found(hdr, lo + LINES_HEADER_SIZE, hi)
            } else {
                find_lines_at(s, next, offset)
            }
        },
    }
}

#[via_fn]
proof fn find_lines_at_dec(s: Seq<u8>, pos: int, offset: PdbInternalSectionOffset) {
    crate::framer::lemma_frame_next_advances(s, pos);
}

/// A line iterator that emits nothing.
fn empty_line_iterator() -> (r: LineIterator)
    ensures
        r.wf(),
        flat_next(r.view_state()) == FlatStep::Done,
{
    LineIterator {
        sections: DebugSubsectionIterator { data: Vec::new(), pos: 0 },
        blocks: DebugLinesBlockIterator {
            header: DebugLinesHeader {
                offset: PdbInternalSectionOffset { offset: 0, section: 0 },
                flags: 0,
                code_size: 0,
            },
            data: Vec::new(),
            pos: 0,
        },
        lines: DebugLinesIterator {
            block: DebugLinesBlockHeader { file_index: 0, num_lines: 0, block_size: 0 },
            data: Vec::new(),
            pos: 0,
        },
        columns: DebugColumnsIterator {
            block: DebugLinesBlockHeader { file_index: 0, num_lines: 0, block_size: 0 },
            data: Vec::new(),
            pos: 0,
        },
    }
}

} // verus!
