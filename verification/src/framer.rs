//! The subsection framer: splits a module's raw debug-info bytes into typed,
//! length-delimited subsections.
//!
//! Each step reads a fixed eight-byte header `{kind, length}` and then
//! consumes exactly `length` body bytes, whether or not the kind is
//! recognized, so the framer makes forward progress even over unknown data.
//! A kind outside the closed enumeration that is not the reserved ignore tag
//! is an unrecoverable decode error.

use vstd::prelude::*;
use crate::bytes::{le_u32, read_u32, take_bytes};
use crate::types::DecodeError;

verus! {

/// The reserved subsection tag whose contents are skipped entirely.
pub const DEBUG_S_IGNORE: u32 = 0x8000_0000;

/// The closed enumeration of known subsection kinds.
#[derive(Clone, Copy, Debug, PartialEq, Eq, Structural)]
pub enum DebugSubsectionKind {
    Symbols,
    Lines,
    StringTable,
    FileChecksums,
    FrameData,
    InlineeLines,
    CrossScopeImports,
    CrossScopeExports,
    ILLines,
    FuncMDTokenMap,
    TypeMDTokenMap,
    MergedAssemblyInput,
    CoffSymbolRva,
}

/// The subsection kind denoted by a raw header tag, if the tag is one of the
/// closed enumeration.
pub open spec fn kind_from(v: u32) -> Option<DebugSubsectionKind> {
    if v == 0xf1 {
        Some(DebugSubsectionKind::Symbols)
    } else if v == 0xf2 {
        Some(DebugSubsectionKind::Lines)
    } else if v == 0xf3 {
        Some(DebugSubsectionKind::StringTable)
    } else if v == 0xf4 {
        Some(DebugSubsectionKind::FileChecksums)
    } else if v == 0xf5 {
        Some(DebugSubsectionKind::FrameData)
    } else if v == 0xf6 {
        Some(DebugSubsectionKind::InlineeLines)
    } else if v == 0xf7 {
        Some(DebugSubsectionKind::CrossScopeImports)
    } else if v == 0xf8 {
        Some(DebugSubsectionKind::CrossScopeExports)
    } else if v == 0xf9 {
        Some(DebugSubsectionKind::ILLines)
    } else if v == 0xfa {
        Some(DebugSubsectionKind::FuncMDTokenMap)
    } else if v == 0xfb {
        Some(DebugSubsectionKind::TypeMDTokenMap)
    } else if v == 0xfc {
        Some(DebugSubsectionKind::MergedAssemblyInput)
    } else if v == 0xfd {
        Some(DebugSubsectionKind::CoffSymbolRva)
    } else {
        None
    }
}

/// Decodes a raw subsection tag: a known kind, the ignore tag (no
/// subsection), or an unimplemented-format error.
pub fn parse_kind(v: u32) -> (r: Result<Option<DebugSubsectionKind>, DecodeError>)
    ensures
        r == (match kind_from(v) {
            Some(k) => Ok::<Option<DebugSubsectionKind>, DecodeError>(Some(k)),
            None => if v == DEBUG_S_IGNORE {
                Ok(None)
            } else {
                Err(DecodeError::UnimplementedDebugSubsection(v))
            },
        }),
{
    if 0xf1 <= v && v <= 0xfd {
        let k = match v {
            0xf1 => DebugSubsectionKind::Symbols,
            0xf2 => DebugSubsectionKind::Lines,
            0xf3 => DebugSubsectionKind::StringTable,
            0xf4 => DebugSubsectionKind::FileChecksums,
            0xf5 => DebugSubsectionKind::FrameData,
            0xf6 => DebugSubsectionKind::InlineeLines,
            0xf7 => DebugSubsectionKind::CrossScopeImports,
            0xf8 => DebugSubsectionKind::CrossScopeExports,
            0xf9 => DebugSubsectionKind::ILLines,
            0xfa => DebugSubsectionKind::FuncMDTokenMap,
            0xfb => DebugSubsectionKind::TypeMDTokenMap,
            0xfc => DebugSubsectionKind::MergedAssemblyInput,
            _ => DebugSubsectionKind::CoffSymbolRva,
        };
        Ok(Some(k))
    } else if v == DEBUG_S_IGNORE {
        Ok(None)
    } else {
        Err(DecodeError::UnimplementedDebugSubsection(v))
    }
}

/// One framed subsection: its kind and a copy of its body bytes.
#[derive(Clone, Debug, PartialEq, Eq)]
pub struct DebugSubsection {
    pub kind: DebugSubsectionKind,
    pub data: Vec<u8>,
}

/// The outcome of one framing step at a cursor position: the end of the
/// buffer, a decode error, or a framed subsection given by its kind, its body
/// byte range, and the position of the next header.
pub enum FrameStep {
    Done,
    Fail(DecodeError),
    Item(DebugSubsectionKind, int, int, int),
}

/// The first framing outcome at or after `pos`: reads a header, checks that
/// the body fits, skips ignore-tagged subsections, and stops at the first
/// subsection of a known kind, the end of the buffer, or an error.
pub open spec fn frame_next(s: Seq<u8>, pos: int) -> FrameStep
    decreases s.len() - pos,
{
    if pos < 0 || pos > s.len() {
        FrameStep::Fail(DecodeError::Truncated)
    } else if pos == s.len() {
        FrameStep::Done
    } else if pos + 8 > s.len() {
        FrameStep::Fail(DecodeError::Truncated)
    } else {
        let kind_v = le_u32(s, pos);
        let body = le_u32(s, pos + 4) as int;
        if pos + 8 + body > s.len() {
            FrameStep::Fail(DecodeError::Truncated)
        } else {
            match kind_from(kind_v) {
                Some(k) => FrameStep::Item(k, pos + 8, pos + 8 + body, pos + 8 + body),
                None => if kind_v == DEBUG_S_IGNORE {
                    frame_next(s, pos + 8 + body)
                } else {
                    FrameStep::Fail(DecodeError::UnimplementedDebugSubsection(kind_v))
                },
            }
        }
    }
}

/// A framing step that yields a subsection advances the cursor and stays
/// within the buffer.
pub proof fn lemma_frame_next_advances(s: Seq<u8>, pos: int)
    ensures
        match frame_next(s, pos) {
            FrameStep::Item(_, lo, hi, next) => pos < lo <= hi <= s.len() && next == hi,
            _ => true,
        },
    decreases s.len() - pos,
{
    if 0 <= pos && pos + 8 <= s.len() {
        let body = le_u32(s, pos + 4) as int;
        if pos + 8 + body <= s.len() && kind_from(le_u32(s, pos)) is None && le_u32(s, pos)
            == DEBUG_S_IGNORE {
            lemma_frame_next_advances(s, pos + 8 + body);
        }
    }
}

/// A restartable cursor over the subsections of a module's debug data.
///
/// The cursor position always stays within the buffer; after an error or the
/// end of the data it rests at the end of the buffer.
#[derive(Clone, Debug)]
pub struct DebugSubsectionIterator {
    pub data: Vec<u8>,
    pub pos: usize,
}

impl DebugSubsectionIterator {
    /// The cursor is within the buffer.
    pub open spec fn wf(self) -> bool {
        self.pos <= self.data@.len()
    }

    /// Starts framing at the beginning of the given module data.
    pub fn new(data: Vec<u8>) -> (r: Self)
        ensures
            r.wf(),
            r.data@ == data@,
            r.pos == 0,
    {
        DebugSubsectionIterator { data, pos: 0 }
    }

    /// Frames the next subsection of a known kind, skipping ignore-tagged
    /// ones, exactly as `frame_next` describes at the current position.
    pub fn next(&mut self) -> (r: Result<Option<DebugSubsection>, DecodeError>)
        requires
            old(self).wf(),
        ensures
            final(self).wf(),
            final(self).data@ == old(self).data@,
            match frame_next(old(self).data@, old(self).pos as int) {
                FrameStep::Done => {
                    &&& r == Ok::<Option<DebugSubsection>, DecodeError>(None)
                    &&& final(self).pos == old(self).data@.len()
                },
                FrameStep::Fail(e) => {
                    &&& r == Err::<Option<DebugSubsection>, DecodeError>(e)
                    &&& final(self).pos == old(self).data@.len()
                },
                FrameStep::Item(k, lo, hi, next) => match r {
                    Ok(Some(sub)) => {
                        &&& sub.kind == k
                        &&& sub.data@ == old(self).data@.subrange(lo, hi)
                        &&& final(self).pos == next
                    },
                    _ => false,
                },
            },
    {
        let ghost s0 = *old(self);
        let n = self.data.len();
        while self.pos < n
            invariant
                s0 == *old(self),
                self.wf(),
                self.data@ == s0.data@,
                n == self.data@.len(),
                frame_next(self.data@, self.pos as int) == frame_next(s0.data@, s0.pos as int),
            decreases n - self.pos,
        {
            if n - self.pos < 8 {
                self.pos = n;
                return Err(DecodeError::Truncated);
            }
            let kind_v = read_u32(&self.data, self.pos);
            let body = read_u32(&self.data, self.pos + 4) as usize;
            if body > n - (self.pos + 8) {
                self.pos = n;
                return Err(DecodeError::Truncated);
            }
            let lo = self.pos + 8;
            let hi = lo + body;
            match parse_kind(kind_v) {
                Err(e) => {
                    self.pos = n;
                    return Err(e);
                },
                Ok(None) => {
                    self.pos = hi;
                },
                Ok(Some(k)) => {
                    let d = take_bytes(&self.data, lo, hi);
                    self.pos = hi;
                    return Ok(Some(DebugSubsection { kind: k, data: d }));
                },
            }
        }
        Ok(None)
    }
}

/// The first subsection of the given kind at or after `pos`: its body byte
/// range, or nothing if the data ends first, or the framing error hit while
/// scanning.
pub enum FindOutcome {
    Found(int, int),
    Missing,
    Fail(DecodeError),
}

/// Scans the framing from `pos` for the first subsection of kind `k`.
pub open spec fn find_section(s: Seq<u8>, pos: int, k: DebugSubsectionKind) -> FindOutcome
    decreases s.len() - pos,
    via find_section_dec
{
    match frame_next(s, pos) {
        FrameStep::Done => FindOutcome::Missing,
        FrameStep::Fail(e) => FindOutcome::Fail(e),
        FrameStep::Item(k2, lo, hi, next) => if k2 == k {
            FindOutcome::Found(lo, hi)
        } else {
            find_section(s, next, k)
        },
    }
}

#[via_fn]
proof fn find_section_dec(s: Seq<u8>, pos: int, k: DebugSubsectionKind) {
    lemma_frame_next_advances(s, pos);
}

/// A found subsection body lies within the buffer.
pub proof fn lemma_find_section_bounds(s: Seq<u8>, pos: int, k: DebugSubsectionKind)
    ensures
        match find_section(s, pos, k) {
            FindOutcome::Found(lo, hi) => pos < lo <= hi <= s.len(),
            _ => true,
        },
    decreases s.len() - pos,
{
    lemma_frame_next_advances(s, pos);
    match frame_next(s, pos) {
        FrameStep::Item(k2, lo, hi, next) => {
            if k2 != k {
                lemma_find_section_bounds(s, next, k);
            }
        },
        _ => {},
    }
}

/// Returns a copy of the body of the first subsection of kind `k`, `None`
/// when no such subsection exists, or the framing error hit while scanning.
pub fn find_subsection(data: &Vec<u8>, k: DebugSubsectionKind) -> (r: Result<
    Option<Vec<u8>>,
    DecodeError,
>)
    ensures
        match find_section(data@, 0, k) {
            FindOutcome::Found(lo, hi) => match r {
                Ok(Some(d)) => d@ == data@.subrange(lo, hi),
                _ => false,
            },
            FindOutcome::Missing => r == Ok::<Option<Vec<u8>>, DecodeError>(None),
            FindOutcome::Fail(e) => r == Err::<Option<Vec<u8>>, DecodeError>(e),
        },
{
    let mut it = DebugSubsectionIterator::new(copy_bytes(data));
    loop
        invariant
            it.wf(),
            it.data@ == data@,
            find_section(it.data@, it.pos as int, k) == find_section(data@, 0, k),
        decreases it.data@.len() - it.pos,
    {
        proof {
            lemma_frame_next_advances(it.data@, it.pos as int);
        }
        match it.next() {
            Err(e) => {
                return Err(e);
            },
            Ok(None) => {
                return Ok(None);
            },
            Ok(Some(sub)) => {
                if sub.kind == k {
                    return Ok(Some(sub.data));
                }
            },
        }
    }
}

/// Copies a byte buffer.
pub fn copy_bytes(data: &Vec<u8>) -> (r: Vec<u8>)
    ensures
        r@ == data@,
{
    let r = take_bytes(data, 0, data.len());
    assert(r@ =~= data@);
    r
}

} // verus!
