//! Reconstruction of source-line records for inlined call sites.
//!
//! A pre-decoded annotation operation sequence is replayed against mutable
//! state seeded from the parent procedure offset and the inlinee record. A
//! record's code length is often only revealed by the next operation, so
//! emission runs one step behind: each emitting operation first back-patches
//! the pending record's length, then swaps in a fresh record and hands out
//! the previous one; the final pending record is flushed when the operations
//! are exhausted.

use vstd::prelude::*;
use crate::bytes::{shift_signed, shift_signed_u32, wrap_add, wrap_add_u32, wrap_sub, wrap_sub_u32};
use crate::types::{FileIndex, IdIndex, LineInfo, LineInfoKind, PdbInternalSectionOffset};

verus! {

/// One pre-decoded annotation operation from an inline site's compact
/// instruction stream.
#[derive(Clone, Copy, Debug, PartialEq, Eq)]
pub enum BinaryAnnotation {
    /// Sets the code offset within the section.
    CodeOffset(u32),
    /// Sets the rebase value added to emitted code offsets.
    ChangeCodeOffsetBase(u32),
    /// Advances the code offset; emits a record.
    ChangeCodeOffset(u32),
    /// Sets the pending record's length retroactively and advances the code
    /// offset.
    ChangeCodeLength(u32),
    /// Switches the current source file.
    ChangeFile(FileIndex),
    /// Shifts the current line by a signed delta.
    ChangeLineOffset(i32),
    /// Sets the number of lines a record spans.
    ChangeLineEndDelta(u32),
    /// Switches between statement and expression records.
    ChangeRangeKind(u32),
    /// Sets the start column.
    ChangeColumnStart(u32),
    /// Shifts the end column by a signed delta.
    ChangeColumnEndDelta(i16),
    /// Advances the code offset and shifts the line; emits a record.
    ChangeCodeOffsetAndLineOffset(u32, i32),
    /// Sets the next record's length and advances the code offset; emits a
    /// record.
    ChangeCodeLengthAndCodeOffset(u32, u32),
    /// Sets the end column.
    ChangeColumnEnd(u32),
}

/// Whether an operation triggers the emission of a line record.
pub open spec fn op_emits(op: BinaryAnnotation) -> bool {
    match op {
        BinaryAnnotation::ChangeCodeOffset(_) => true,
        BinaryAnnotation::ChangeCodeOffsetAndLineOffset(_, _) => true,
        BinaryAnnotation::ChangeCodeLengthAndCodeOffset(_, _) => true,
        _ => false,
    }
}

impl BinaryAnnotation {
    /// Whether this operation triggers the emission of a line record.
    pub fn emits_line_info(self) -> (r: bool)
        ensures
            r == op_emits(self),
    {
        match self {
            BinaryAnnotation::ChangeCodeOffset(_) => true,
            BinaryAnnotation::ChangeCodeOffsetAndLineOffset(_, _) => true,
            BinaryAnnotation::ChangeCodeLengthAndCodeOffset(_, _) => true,
            _ => false,
        }
    }
}

/// An inline call site as the symbol layer hands it over: its scope bounds,
/// the inlinee it refers to, and the pre-decoded annotation operations of the
/// site.
#[derive(Clone, Debug, PartialEq, Eq)]
pub struct InlineSiteSymbol {
    /// Symbol offset of the parent scope.
    pub parent: Option<u32>,
    /// Symbol offset of the end of this scope.
    pub end: u32,
    /// The id of the inlined function.
    pub inlinee: IdIndex,
    /// Number of invocations, when the producer recorded it.
    pub invocations: Option<u32>,
    /// The pre-decoded annotation operations of this call site.
    pub annotations: Vec<BinaryAnnotation>,
}

/// The replay state of the reconstruction engine.
#[derive(Clone, Copy, Debug, PartialEq, Eq)]
pub struct InlineState {
    /// The current source file.
    pub file_index: FileIndex,
    /// Rebase value added to the code offset of emitted records.
    pub code_offset_base: u32,
    /// The current section-relative code position.
    pub code_offset: PdbInternalSectionOffset,
    /// A one-shot length for the next emitted record.
    pub code_length: Option<u32>,
    /// The current line number.
    pub line: u32,
    /// The number of lines a record spans.
    pub line_length: u32,
    /// The current start column, if any was set.
    pub col_start: Option<u32>,
    /// The current end column, if any was set.
    pub col_end: Option<u32>,
    /// Whether records currently cover statements or expressions.
    pub line_kind: LineInfoKind,
    /// The emitted-but-not-yet-finalized record, whose length a later
    /// operation may still patch.
    pub last_info: Option<LineInfo>,
}

/// The replay state at the start of an inline site: the code offset is the
/// parent procedure offset, file and line come from the inlinee record, and
/// records default to statement kind with a one-line span.
pub open spec fn initial_state(
    parent_offset: PdbInternalSectionOffset,
    file_id: FileIndex,
    line: u32,
) -> InlineState {
    InlineState {
        file_index: file_id,
        code_offset_base: 0,
        code_offset: parent_offset,
        code_length: None,
        line,
        line_length: 1,
        col_start: None,
        col_end: None,
        line_kind: LineInfoKind::Statement,
        last_info: None,
    }
}

/// The pending record with its length patched to `len`, provided its length
/// is still unset and its kind still matches the current kind.
pub open spec fn patch_last(last: Option<LineInfo>, len: u32, kind: LineInfoKind) -> Option<
    LineInfo,
> {
    match last {
        Some(li) => if li.length is None && li.kind == kind {
            Some(LineInfo { length: Some(len), ..li })
        } else {
            Some(li)
        },
        None => None,
    }
}

/// One operation applied to the replay state. Line numbers and end columns
/// are shifted by signed deltas wrapping modulo 2^32; code offsets advance
/// wrapping modulo 2^32. A code-length change also back-patches the pending
/// record's length.
pub open spec fn apply_op(st: InlineState, op: BinaryAnnotation) -> InlineState {
    match op {
        BinaryAnnotation::CodeOffset(code_offset) => InlineState {
            code_offset: PdbInternalSectionOffset {
                offset: code_offset,
                section: st.code_offset.section,
            },
            ..st
        },
        BinaryAnnotation::ChangeCodeOffsetBase(base) => InlineState {
            code_offset_base: base,
            ..st
        },
        BinaryAnnotation::ChangeCodeOffset(delta) => InlineState {
            code_offset: PdbInternalSectionOffset {
                offset: wrap_add(st.code_offset.offset, delta),
                section: st.code_offset.section,
            },
            ..st
        },
        BinaryAnnotation::ChangeCodeLength(code_length) => InlineState {
            last_info: patch_last(st.last_info, code_length, st.line_kind),
            code_offset: PdbInternalSectionOffset {
                offset: wrap_add(st.code_offset.offset, code_length),
                section: st.code_offset.section,
            },
            ..st
        },
        BinaryAnnotation::ChangeFile(file_index) => InlineState { file_index, ..st },
        BinaryAnnotation::ChangeLineOffset(delta) => InlineState {
            line: shift_signed(st.line, delta as int),
            ..st
        },
        BinaryAnnotation::ChangeLineEndDelta(line_length) => InlineState { line_length, ..st },
        BinaryAnnotation::ChangeRangeKind(kind) => InlineState {
            line_kind: if kind == 0 {
                LineInfoKind::Expression
            } else if kind == 1 {
                LineInfoKind::Statement
            } else {
                st.line_kind
            },
            ..st
        },
        BinaryAnnotation::ChangeColumnStart(col_start) => InlineState {
            col_start: Some(col_start),
            ..st
        },
        BinaryAnnotation::ChangeColumnEndDelta(delta) => InlineState {
            col_end: match st.col_end {
                Some(col_end) => Some(shift_signed(col_end, delta as int)),
                None => None,
            },
            ..st
        },
        BinaryAnnotation::ChangeCodeOffsetAndLineOffset(code_delta, line_delta) => InlineState {
            code_offset: PdbInternalSectionOffset {
                offset: wrap_add(st.code_offset.offset, code_delta),
                section: st.code_offset.section,
            },
            line: shift_signed(st.line, line_delta as int),
            ..st
        },
        BinaryAnnotation::ChangeCodeLengthAndCodeOffset(code_length, code_delta) => InlineState {
            code_length: Some(code_length),
            code_offset: PdbInternalSectionOffset {
                offset: wrap_add(st.code_offset.offset, code_delta),
                section: st.code_offset.section,
            },
            ..st
        },
        BinaryAnnotation::ChangeColumnEnd(col_end) => InlineState {
            col_end: Some(col_end),
            ..st
        },
    }
}

/// The record an emitting operation constructs from the current state: the
/// emitted code offset is the current offset advanced by the rebase value,
/// and the end line is the current line advanced by the span length.
pub open spec fn record_of(st: InlineState) -> LineInfo {
    LineInfo {
        kind: st.line_kind,
        file_index: st.file_index,
        offset: PdbInternalSectionOffset {
            offset: wrap_add(st.code_offset.offset, st.code_offset_base),
            section: st.code_offset.section,
        },
        length: st.code_length,
        line_start: st.line,
        line_end: wrap_add(st.line, st.line_length),
        column_start: st.col_start,
        column_end: st.col_end,
    }
}

/// One emission step: back-patches the pending record's length with the
/// offset delta just applied — the distance from the pending record's
/// emitted offset to the fresh record's emitted offset — constructs a fresh
/// record from the current state, resets the one-shot code length, and swaps
/// the fresh record in as pending. The first component is the state after
/// the swap, the second the record handed out: the previous pending record,
/// if there was one.
pub open spec fn emit_step(st: InlineState) -> (InlineState, Option<LineInfo>) {
    let fresh = record_of(st);
    let emitted = match st.last_info {
        Some(li) => if li.length is None && li.kind == st.line_kind {
            Some(LineInfo { length: Some(wrap_sub(fresh.offset.offset, li.offset.offset)), ..li })
        } else {
            Some(li)
        },
        None => None,
    };
    (InlineState { code_length: None, last_info: Some(fresh), ..st }, emitted)
}

/// The full sequence of records that replaying `ops` from state `st` still
/// yields, including the final flush of the pending record.
pub open spec fn remaining_outputs(st: InlineState, ops: Seq<BinaryAnnotation>) -> Seq<LineInfo>
    decreases ops.len(),
{
    if ops.len() == 0 {
        match st.last_info {
            Some(li) => seq![li],
            None => Seq::empty(),
        }
    } else {
        let st1 = apply_op(st, ops[0]);
        if op_emits(ops[0]) {
            let step = emit_step(st1);
            match step.1 {
                Some(li) => seq![li] + remaining_outputs(step.0, ops.drop_first()),
                None => remaining_outputs(step.0, ops.drop_first()),
            }
        } else {
            remaining_outputs(st1, ops.drop_first())
        }
    }
}

/// Replaying equal operation sequences from equal seed states yields equal
/// record sequences: reconstruction has no hidden inputs, so re-running it
/// over the same immutable data reproduces its output exactly.
pub proof fn lemma_replay_deterministic(
    st_a: InlineState,
    st_b: InlineState,
    ops_a: Seq<BinaryAnnotation>,
    ops_b: Seq<BinaryAnnotation>,
)
    requires
        st_a == st_b,
        ops_a == ops_b,
    ensures
        remaining_outputs(st_a, ops_a) == remaining_outputs(st_b, ops_b),
{
}

/// Applies one operation to the replay state.
fn apply(st: InlineState, op: BinaryAnnotation) -> (r: InlineState)
    ensures
        r == apply_op(st, op),
{
    match op {
        BinaryAnnotation::CodeOffset(code_offset) => InlineState {
            code_offset: PdbInternalSectionOffset {
                offset: code_offset,
                section: st.code_offset.section,
            },
            ..st
        },
        BinaryAnnotation::ChangeCodeOffsetBase(base) => InlineState {
            code_offset_base: base,
            ..st
        },
        BinaryAnnotation::ChangeCodeOffset(delta) => InlineState {
            code_offset: st.code_offset.wrapping_add(delta),
            ..st
        },
        BinaryAnnotation::ChangeCodeLength(code_length) => {
            let last_info = if let Some(li) = st.last_info {
                if li.length.is_none() && li.kind == st.line_kind {
                    Some(LineInfo { length: Some(code_length), ..li })
                } else {
                    Some(li)
                }
            } else {
                None
            };
            InlineState {
                last_info,
                code_offset: st.code_offset.wrapping_add(code_length),
                ..st
            }
        },
        BinaryAnnotation::ChangeFile(file_index) => InlineState { file_index, ..st },
        BinaryAnnotation::ChangeLineOffset(delta) => InlineState {
            line: shift_signed_u32(st.line, delta),
            ..st
        },
        BinaryAnnotation::ChangeLineEndDelta(line_length) => InlineState { line_length, ..st },
        BinaryAnnotation::ChangeRangeKind(kind) => InlineState {
            line_kind: if kind == 0 {
                LineInfoKind::Expression
            } else if kind == 1 {
                LineInfoKind::Statement
            } else {
                st.line_kind
            },
            ..st
        },
        BinaryAnnotation::ChangeColumnStart(col_start) => InlineState {
            col_start: Some(col_start),
            ..st
        },
        BinaryAnnotation::ChangeColumnEndDelta(delta) => InlineState {
            col_end: match st.col_end {
                Some(col_end) => Some(shift_signed_u32(col_end, delta as i32)),
                None => None,
            },
            ..st
        },
        BinaryAnnotation::ChangeCodeOffsetAndLineOffset(code_delta, line_delta) => InlineState {
            code_offset: st.code_offset.wrapping_add(code_delta),
            line: shift_signed_u32(st.line, line_delta),
            ..st
        },
        BinaryAnnotation::ChangeCodeLengthAndCodeOffset(code_length, code_delta) => InlineState {
            code_length: Some(code_length),
            code_offset: st.code_offset.wrapping_add(code_delta),
            ..st
        },
        BinaryAnnotation::ChangeColumnEnd(col_end) => InlineState {
            col_end: Some(col_end),
            ..st
        },
    }
}

/// Performs one emission step on the replay state, returning the record
/// handed out, if any.
fn do_emit(st: InlineState) -> (r: (InlineState, Option<LineInfo>))
    ensures
        r == emit_step(st),
{
    let fresh = LineInfo {
        kind: st.line_kind,
        file_index: st.file_index,
        offset: st.code_offset.wrapping_add(st.code_offset_base),
        length: st.code_length,
        line_start: st.line,
        line_end: wrap_add_u32(st.line, st.line_length),
        column_start: st.col_start,
        column_end: st.col_end,
    };
    let emitted = if let Some(li) = st.last_info {
        if li.length.is_none() && li.kind == st.line_kind {
            let patch_len = wrap_sub_u32(fresh.offset.offset, li.offset.offset);
            Some(LineInfo { length: Some(patch_len), ..li })
        } else {
            Some(li)
        }
    } else {
        None
    };
    (InlineState { code_length: None, last_info: Some(fresh), ..st }, emitted)
}

/// Replays an inline site's annotation operations and hands out the
/// reconstructed line records one by one.
#[derive(Clone, Debug)]
pub struct InlineeLineIterator {
    /// The operations of the inline site.
    pub annotations: Vec<BinaryAnnotation>,
    /// How many operations have been replayed.
    pub idx: usize,
    /// The replay state.
    pub state: InlineState,
}

impl InlineeLineIterator {
    /// The replay position is within the operation sequence.
    pub open spec fn wf(self) -> bool {
        self.idx <= self.annotations@.len()
    }

    /// The records this iterator still yields.
    pub open spec fn remaining(self) -> Seq<LineInfo> {
        remaining_outputs(self.state, self.annotations@.skip(self.idx as int))
    }

    /// Seeds the replay from the parent procedure offset, the inline site's
    /// operations, and the inlinee's file and starting line.
    pub fn new(
        parent_offset: PdbInternalSectionOffset,
        inline_site: &InlineSiteSymbol,
        inlinee_line: crate::inlinees::InlineeSourceLine,
    ) -> (r: Self)
        ensures
            r.wf(),
            r.annotations@ == inline_site.annotations@,
            r.idx == 0,
            r.state == initial_state(parent_offset, inlinee_line.file_id, inlinee_line.line),
            r.remaining() == remaining_outputs(
                initial_state(parent_offset, inlinee_line.file_id, inlinee_line.line),
                inline_site.annotations@,
            ),
    {
        let annotations = crate::inline_lines::copy_annotations(&inline_site.annotations);
        let r = InlineeLineIterator {
            annotations,
            idx: 0,
            state: InlineState {
                file_index: inlinee_line.file_id,
                code_offset_base: 0,
                code_offset: parent_offset,
                code_length: None,
                line: inlinee_line.line,
                line_length: 1,
                col_start: None,
                col_end: None,
                line_kind: LineInfoKind::Statement,
                last_info: None,
            },
        };
        assert(r.annotations@.skip(0) =~= inline_site.annotations@);
        r
    }

    /// Hands out the next reconstructed record: the head of `remaining()`,
    /// or nothing once the replay is exhausted and flushed.
    pub fn next(&mut self) -> (r: Option<LineInfo>)
        requires
            old(self).wf(),
        ensures
            final(self).wf(),
            final(self).annotations@ == old(self).annotations@,
            match r {
                Some(li) => old(self).remaining() == seq![li] + final(self).remaining(),
                None => {
                    &&& old(self).remaining().len() == 0
                    &&& final(self).remaining().len() == 0
                },
            },
    {
        let ghost entry = *old(self);
        let n = self.annotations.len();
        while self.idx < n
            invariant
                entry == *old(self),
                entry.annotations@ == self.annotations@,
                self.wf(),
                n == self.annotations@.len(),
                self.remaining() == entry.remaining(),
            decreases n - self.idx,
        {
            let ghost pre = *self;
            let op = self.annotations[self.idx];
            proof {
                assert(pre.annotations@.skip(pre.idx as int).drop_first() =~= pre.annotations@.skip(
                    pre.idx as int + 1,
                ));
                assert(pre.annotations@.skip(pre.idx as int)[0] == op);
            }
            self.idx = self.idx + 1;
            self.state = apply(self.state, op);
            if op.emits_line_info() {
                let step = do_emit(self.state);
                self.state = step.0;
                if let Some(li) = step.1 {
                    return Some(li);
                }
            }
        }
        let out = self.state.last_info;
        self.state.last_info = None;
        assert(self.annotations@.skip(self.idx as int).len() == 0);
        out
    }
}

/// Copies an annotation operation sequence.
pub fn copy_annotations(ops: &Vec<BinaryAnnotation>) -> (r: Vec<BinaryAnnotation>)
    ensures
        r@ == ops@,
{
    let mut out: Vec<BinaryAnnotation> = Vec::new();
    let mut i: usize = 0;
    while i < ops.len()
        invariant
            i <= ops@.len(),
            out@ == ops@.subrange(0, i as int),
        decreases ops@.len() - i,
    {
        out.push(ops[i]);
        assert(out@ =~= ops@.subrange(0, i + 1));
        i = i + 1;
    }
    assert(out@ =~= ops@);
    out
}

} // verus!
