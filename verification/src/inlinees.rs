//! The inlinee line table: compact per-inlinee records keyed by a signature
//! flag. Under the extended signature each record carries a trailing list of
//! extra file offsets, kept as an opaque byte span.

use vstd::prelude::*;
use crate::bytes::{le_u32, read_u32, take_bytes};
use crate::framer::{find_section, find_subsection, DebugSubsectionKind, FindOutcome};
use crate::types::{DecodeError, FileIndex, IdIndex};

verus! {

/// The signature value under which inlinee records carry extra file lists.
pub const CV_INLINEE_SOURCE_LINE_SIGNATURE_EX: u32 = 0x1;

/// Header of the inlinee lines subsection: a single signature word.
#[derive(Clone, Copy, Debug, PartialEq, Eq, Structural)]
pub struct DebugInlineeLinesHeader {
    /// The signature of the inlinees.
    pub signature: u32,
}

impl DebugInlineeLinesHeader {
    /// Whether each record carries a trailing extra-file list.
    pub fn has_extra_files(self) -> (r: bool)
        ensures
            r == (self.signature == CV_INLINEE_SOURCE_LINE_SIGNATURE_EX),
    {
        self.signature == CV_INLINEE_SOURCE_LINE_SIGNATURE_EX
    }
}

/// One inlinee record: the inlinee's id, its originating file, its starting
/// line, and (under the extended signature) the raw bytes of its extra-file
/// offset list.
#[derive(Clone, Debug, PartialEq, Eq)]
pub struct InlineeSourceLine {
    pub inlinee: IdIndex,
    pub file_id: FileIndex,
    pub line: u32,
    pub extra_files: Vec<u8>,
}

/// One decoded inlinee record at a cursor position: its fields, the byte
/// range of its extra-file list, and the position of the next record.
pub struct InlineeItem {
    pub inlinee: u32,
    pub file_id: u32,
    pub line: u32,
    pub extra_lo: int,
    pub extra_hi: int,
    pub next: int,
}

/// Outcome of decoding one inlinee record at a cursor position.
pub enum InlineeStep {
    Done,
    Fail(DecodeError),
    Item(InlineeItem),
}

/// Decodes the inlinee record at `pos`: three 32-bit fields `{inlinee, file,
/// line}`, and, when `extended` holds, a file count followed by that many
/// 32-bit file offsets kept as an opaque span.
pub open spec fn inlinee_next(s: Seq<u8>, pos: int, extended: bool) -> InlineeStep {
    if pos < 0 || pos > s.len() {
        InlineeStep::Fail(DecodeError::Truncated)
    } else if pos == s.len() {
        InlineeStep::Done
    } else if pos + 12 > s.len() {
        InlineeStep::Fail(DecodeError::Truncated)
    } else {
        let inlinee = le_u32(s, pos);
        let file_id = le_u32(s, pos + 4);
        let line = le_u32(s, pos + 8);
        if !extended {
            InlineeStep::Item(
                InlineeItem {
                    inlinee,
                    file_id,
                    line,
                    extra_lo: pos + 12,
                    extra_hi: pos + 12,
                    next: pos + 12,
                },
            )
        } else if pos + 16 > s.len() {
            InlineeStep::Fail(DecodeError::Truncated)
        } else {
            let count = le_u32(s, pos + 12) as int;
            if pos + 16 + 4 * count > s.len() {
                InlineeStep::Fail(DecodeError::Truncated)
            } else {
                InlineeStep::Item(
                    InlineeItem {
                        inlinee,
                        file_id,
                        line,
                        extra_lo: pos + 16,
                        extra_hi: pos + 16 + 4 * count,
                        next: pos + 16 + 4 * count,
                    },
                )
            }
        }
    }
}

/// A cursor over the records of an inlinee lines subsection.
#[derive(Clone, Debug)]
pub struct DebugInlineeLinesIterator {
    /// The subsection header whose signature keys the record layout.
    pub header: DebugInlineeLinesHeader,
    pub data: Vec<u8>,
    pub pos: usize,
}

impl DebugInlineeLinesIterator {
    /// The cursor is within the subsection body.
    pub open spec fn wf(self) -> bool {
        self.pos <= self.data@.len()
    }

    /// Decodes the next inlinee record, exactly as `inlinee_next` describes.
    pub fn next(&mut self) -> (r: Result<Option<InlineeSourceLine>, DecodeError>)
        requires
            old(self).wf(),
        ensures
            final(self).wf(),
            final(self).data@ == old(self).data@,
            final(self).header == old(self).header,
            match inlinee_next(
                old(self).data@,
                old(self).pos as int,
                old(self).header.signature == CV_INLINEE_SOURCE_LINE_SIGNATURE_EX,
            ) {
                InlineeStep::Done => {
                    &&& r == Ok::<Option<InlineeSourceLine>, DecodeError>(None)
                    &&& final(self).pos == old(self).pos
                },
                InlineeStep::Fail(e) => {
                    &&& r == Err::<Option<InlineeSourceLine>, DecodeError>(e)
                    &&& final(self).pos == old(self).data@.len()
                },
                InlineeStep::Item(item) => match r {
                    Ok(Some(rec)) => {
                        &&& rec.inlinee == IdIndex(item.inlinee)
                        &&& rec.file_id == FileIndex(item.file_id)
                        &&& rec.line == item.line
                        &&& rec.extra_files@ == old(self).data@.subrange(
                            item.extra_lo,
                            item.extra_hi,
                        )
                        &&& final(self).pos == item.next
                    },
                    _ => false,
                },
            },
    {
        let n = self.data.len();
        if self.pos == n {
            return Ok(None);
        }
        if n - self.pos < 12 {
            self.pos = n;
            return Err(DecodeError::Truncated);
        }
        let inlinee = read_u32(&self.data, self.pos);
        let file_id = read_u32(&self.data, self.pos + 4);
        let line = read_u32(&self.data, self.pos + 8);
        if self.header.has_extra_files() {
            if n - self.pos < 16 {
                self.pos = n;
                return Err(DecodeError::Truncated);
            }
            let count = read_u32(&self.data, self.pos + 12) as u64;
            if count * 4 > (n - (self.pos + 16)) as u64 {
                self.pos = n;
                return Err(DecodeError::Truncated);
            }
            let lo = self.pos + 16;
            let hi = lo + (count as usize) * 4;
            let extra_files = take_bytes(&self.data, lo, hi);
            self.pos = hi;
            Ok(
                Some(
                    InlineeSourceLine {
                        inlinee: IdIndex(inlinee),
                        file_id: FileIndex(file_id),
                        line,
                        extra_files,
                    },
                ),
            )
        } else {
            self.pos = self.pos + 12;
            Ok(
                Some(
                    InlineeSourceLine {
                        inlinee: IdIndex(inlinee),
                        file_id: FileIndex(file_id),
                        line,
                        extra_files: Vec::new(),
                    },
                ),
            )
        }
    }
}

/// The inlinee lines subsection: its signature header and its record bytes.
#[derive(Clone, Debug)]
pub struct DebugInlineeLinesSubsection {
    pub header: DebugInlineeLinesHeader,
    pub data: Vec<u8>,
}

impl DebugInlineeLinesSubsection {
    /// Splits an inlinee lines subsection body into its signature header and
    /// the records that follow it.
    pub fn parse(data: Vec<u8>) -> (r: Result<Self, DecodeError>)
        ensures
            match r {
                Ok(sub) => {
                    &&& data@.len() >= 4
                    &&& sub.header.signature == le_u32(data@, 0)
                    &&& sub.data@ == data@.skip(4)
                },
                Err(e) => {
                    &&& data@.len() < 4
                    &&& e == DecodeError::Truncated
                },
            },
    {
        if data.len() < 4 {
            return Err(DecodeError::Truncated);
        }
        let signature = read_u32(&data, 0);
        let rest = take_bytes(&data, 4, data.len());
        assert(rest@ =~= data@.skip(4));
        Ok(
            DebugInlineeLinesSubsection {
                header: DebugInlineeLinesHeader { signature },
                data: rest,
            },
        )
    }

    /// A cursor over all inlinee records of this subsection.
    pub fn lines(&self) -> (r: DebugInlineeLinesIterator)
        ensures
            r.wf(),
            r.header == self.header,
            r.data@ == self.data@,
            r.pos == 0,
    {
        DebugInlineeLinesIterator {
            header: self.header,
            data: crate::framer::copy_bytes(&self.data),
            pos: 0,
        }
    }
}

/// An inlined function that can evaluate to line information.
#[derive(Clone, Debug, PartialEq, Eq)]
pub struct Inlinee(pub InlineeSourceLine);

impl Inlinee {
    /// The index of this inlinee in the id stream.
    pub fn index(&self) -> (r: IdIndex)
        ensures
            r == self.0.inlinee,
    {
        self.0.inlinee
    }

    /// A replay of the given inline site's annotation operations, seeded from
    /// the parent procedure offset and this inlinee's file and starting line.
    ///
    /// The reconstructed records are not guaranteed to be ordered by code
    /// offset; a caller that needs a monotonic order has to sort them.
    pub fn lines(
        &self,
        parent_offset: crate::types::PdbInternalSectionOffset,
        inline_site: &crate::inline_lines::InlineSiteSymbol,
    ) -> (r: crate::inline_lines::InlineeLineIterator)
        ensures
            r.wf(),
            r.annotations@ == inline_site.annotations@,
            r.idx == 0,
            r.state == crate::inline_lines::initial_state(
                parent_offset,
                self.0.file_id,
                self.0.line,
            ),
    {
        let seed = InlineeSourceLine {
            inlinee: self.0.inlinee,
            file_id: self.0.file_id,
            line: self.0.line,
            extra_files: Vec::new(),
        };
        crate::inline_lines::InlineeLineIterator::new(parent_offset, inline_site, seed)
    }
}

/// A cursor over the inlinees of a module: the records of its inlinee lines
/// subsection, wrapped as inlinees.
#[derive(Clone, Debug)]
pub struct InlineeIterator {
    pub inlinee_lines: DebugInlineeLinesIterator,
}

impl InlineeIterator {
    /// The underlying cursor is within its subsection.
    pub open spec fn wf(self) -> bool {
        self.inlinee_lines.wf()
    }

    /// Finds the inlinee lines subsection of a module's debug data and opens
    /// a cursor over its records. A module without such a subsection has no
    /// inlinees.
    pub fn parse(data: &Vec<u8>) -> (r: Result<Self, DecodeError>)
        ensures
            match find_section(data@, 0, DebugSubsectionKind::InlineeLines) {
                FindOutcome::Found(lo, hi) => {
                    let body = data@.subrange(lo, hi);
                    if body.len() >= 4 {
                        match r {
                            Ok(it) => {
                                &&& it.wf()
                                &&& it.inlinee_lines.header.signature == le_u32(body, 0)
                                &&& it.inlinee_lines.data@ == body.skip(4)
                                &&& it.inlinee_lines.pos == 0
                            },
                            _ => false,
                        }
                    } else {
                        r == Err::<InlineeIterator, DecodeError>(DecodeError::Truncated)
                    }
                },
                FindOutcome::Missing => match r {
                    Ok(it) => {
                        &&& it.wf()
                        &&& it.inlinee_lines.header.signature == 0
                        &&& it.inlinee_lines.data@.len() == 0
                        &&& it.inlinee_lines.pos == 0
                    },
                    _ => false,
                },
                FindOutcome::Fail(e) => r == Err::<InlineeIterator, DecodeError>(e),
            },
    {
        proof {
            crate::framer::lemma_find_section_bounds(data@, 0, DebugSubsectionKind::InlineeLines);
        }
        let inlinee_data = match find_subsection(data, DebugSubsectionKind::InlineeLines) {
            Err(e) => {
                return Err(e);
            },
            Ok(None) => {
                return Ok(
                    InlineeIterator {
                        inlinee_lines: DebugInlineeLinesIterator {
                            header: DebugInlineeLinesHeader { signature: 0 },
                            data: Vec::new(),
                            pos: 0,
                        },
                    },
                );
            },
            Ok(Some(d)) => d,
        };
        let subsection = match DebugInlineeLinesSubsection::parse(inlinee_data) {
            Ok(sub) => sub,
            Err(e) => {
                return Err(e);
            },
        };
        Ok(InlineeIterator { inlinee_lines: subsection.lines() })
    }

    /// Hands out the next inlinee, exactly as `inlinee_next` describes at the
    /// underlying cursor.
    pub fn next(&mut self) -> (r: Result<Option<Inlinee>, DecodeError>)
        requires
            old(self).wf(),
        ensures
            final(self).wf(),
            final(self).inlinee_lines.data@ == old(self).inlinee_lines.data@,
            final(self).inlinee_lines.header == old(self).inlinee_lines.header,
            match inlinee_next(
                old(self).inlinee_lines.data@,
                old(self).inlinee_lines.pos as int,
                old(self).inlinee_lines.header.signature == CV_INLINEE_SOURCE_LINE_SIGNATURE_EX,
            ) {
                InlineeStep::Done => {
                    &&& r == Ok::<Option<Inlinee>, DecodeError>(None)
                    &&& final(self).inlinee_lines.pos == old(self).inlinee_lines.pos
                },
                InlineeStep::Fail(e) => {
                    &&& r == Err::<Option<Inlinee>, DecodeError>(e)
                    &&& final(self).inlinee_lines.pos == old(self).inlinee_lines.data@.len()
                },
                InlineeStep::Item(item) => match r {
                    Ok(Some(inlinee)) => {
                        &&& inlinee.0.inlinee == IdIndex(item.inlinee)
                        &&& inlinee.0.file_id == FileIndex(item.file_id)
                        &&& inlinee.0.line == item.line
                        &&& inlinee.0.extra_files@ == old(self).inlinee_lines.data@.subrange(
                            item.extra_lo,
                            item.extra_hi,
                        )
                        &&& final(self).inlinee_lines.pos == item.next
                    },
                    _ => false,
                },
            },
    {
        match self.inlinee_lines.next() {
            Ok(Some(inlinee_line)) => Ok(Some(Inlinee(inlinee_line))),
            Ok(None) => Ok(None),
            Err(error) => Err(error),
        }
    }
}

} // verus!
