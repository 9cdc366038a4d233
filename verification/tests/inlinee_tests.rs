use codeview_lines::inline_lines::{BinaryAnnotation, InlineSiteSymbol, InlineeLineIterator};
use codeview_lines::inlinees::{
    DebugInlineeLinesIterator, DebugInlineeLinesSubsection, InlineeIterator, InlineeSourceLine,
};
use codeview_lines::types::{FileIndex, IdIndex, LineInfo, LineInfoKind, PdbInternalSectionOffset};

fn collect_inlinee_lines(iter: &mut DebugInlineeLinesIterator) -> Vec<InlineeSourceLine> {
    let mut lines = Vec::new();
    while let Some(line) = iter.next().expect("collect inlinee lines") {
        lines.push(line);
    }
    lines
}

#[test]
fn test_parse_inlinee_lines() {
    let data = vec![
        0, 0, 0, 0, 254, 18, 0, 0, 104, 1, 0, 0, 24, 0, 0, 0, 253, 18, 0, 0, 104, 1, 0, 0, 28, 0,
        0, 0,
    ];

    let inlinee_lines = DebugInlineeLinesSubsection::parse(data).expect("parse inlinee lines");
    assert!(!inlinee_lines.header.has_extra_files());

    let mut iter = inlinee_lines.lines();
    let lines = collect_inlinee_lines(&mut iter);

    let expected = [
        InlineeSourceLine {
            inlinee: IdIndex(0x12FE),
            file_id: FileIndex(0x168),
            line: 24,
            extra_files: vec![],
        },
        InlineeSourceLine {
            inlinee: IdIndex(0x12FD),
            file_id: FileIndex(0x168),
            line: 28,
            extra_files: vec![],
        },
    ];

    assert_eq!(lines, expected);
}

#[test]
fn test_parse_inlinee_lines_with_files() {
    let data = vec![
        1, 0, 0, 0, 235, 102, 9, 0, 232, 37, 0, 0, 19, 0, 0, 0, 1, 0, 0, 0, 216, 26, 0, 0, 240,
        163, 7, 0, 176, 44, 0, 0, 120, 0, 0, 0, 1, 0, 0, 0, 120, 3, 0, 0,
    ];

    let inlinee_lines = DebugInlineeLinesSubsection::parse(data).expect("parse inlinee lines");
    assert!(inlinee_lines.header.has_extra_files());

    let mut iter = inlinee_lines.lines();
    let lines = collect_inlinee_lines(&mut iter);

    let expected = [
        InlineeSourceLine {
            inlinee: IdIndex(0x966EB),
            file_id: FileIndex(0x25e8),
            line: 19,
            extra_files: vec![216, 26, 0, 0],
        },
        InlineeSourceLine {
            inlinee: IdIndex(0x7A3F0),
            file_id: FileIndex(0x2cb0),
            line: 120,
            extra_files: vec![120, 3, 0, 0],
        },
    ];

    assert_eq!(lines, expected)
}

#[test]
fn test_inlinee_lines() {
    // The compact annotation byte stream [12, 2, 63, 12, 3, 9, 0, 0] of this
    // inline site decodes to two combined code-length+offset operations.
    let inline_site = InlineSiteSymbol {
        parent: Some(0x190),
        end: 0x1ec,
        inlinee: IdIndex(0x1180),
        invocations: None,
        annotations: vec![
            BinaryAnnotation::ChangeCodeLengthAndCodeOffset(2, 63),
            BinaryAnnotation::ChangeCodeLengthAndCodeOffset(3, 9),
        ],
    };

    let inlinee_line = InlineeSourceLine {
        inlinee: IdIndex(0x1180),
        file_id: FileIndex(0x270),
        line: 341,
        extra_files: vec![],
    };

    let parent_offset = PdbInternalSectionOffset {
        offset: 0x120,
        section: 0x1,
    };

    let mut iter = InlineeLineIterator::new(parent_offset, &inline_site, inlinee_line);
    let mut lines: Vec<LineInfo> = Vec::new();
    while let Some(line) = iter.next() {
        lines.push(line);
    }

    let expected = [
        LineInfo {
            offset: PdbInternalSectionOffset {
                section: 0x1,
                offset: 0x015f,
            },
            length: Some(2),
            file_index: FileIndex(0x270),
            line_start: 341,
            line_end: 342,
            column_start: None,
            column_end: None,
            kind: LineInfoKind::Statement,
        },
        LineInfo {
            offset: PdbInternalSectionOffset {
                section: 0x1,
                offset: 0x0168,
            },
            length: Some(3),
            file_index: FileIndex(0x270),
            line_start: 341,
            line_end: 342,
            column_start: None,
            column_end: None,
            kind: LineInfoKind::Statement,
        },
    ];

    assert_eq!(lines, expected);
}

#[test]
fn test_inlinee_lines_rerun_is_identical() {
    let inline_site = InlineSiteSymbol {
        parent: None,
        end: 0x200,
        inlinee: IdIndex(0x1201),
        invocations: None,
        annotations: vec![
            BinaryAnnotation::ChangeLineOffset(-3),
            BinaryAnnotation::ChangeCodeOffset(0x20),
            BinaryAnnotation::ChangeCodeLength(4),
            BinaryAnnotation::ChangeCodeOffsetAndLineOffset(8, 2),
            BinaryAnnotation::ChangeColumnStart(7),
        ],
    };
    let inlinee_line = InlineeSourceLine {
        inlinee: IdIndex(0x1201),
        file_id: FileIndex(0x90),
        line: 50,
        extra_files: vec![],
    };
    let parent_offset = PdbInternalSectionOffset {
        offset: 0x40,
        section: 2,
    };

    let mut first = Vec::new();
    let mut iter = InlineeLineIterator::new(parent_offset, &inline_site, inlinee_line.clone());
    while let Some(line) = iter.next() {
        first.push(line);
    }
    let mut second = Vec::new();
    let mut iter = InlineeLineIterator::new(parent_offset, &inline_site, inlinee_line);
    while let Some(line) = iter.next() {
        second.push(line);
    }
    assert_eq!(first, second);
    assert!(!first.is_empty());
}

#[test]
fn test_inlinee_iterator_over_module_data() {
    // The inlinee lines subsection (kind 0xf6) wrapped in its framing.
    let mut data = vec![0xf6, 0, 0, 0, 28, 0, 0, 0];
    data.extend_from_slice(&[
        0, 0, 0, 0, 254, 18, 0, 0, 104, 1, 0, 0, 24, 0, 0, 0, 253, 18, 0, 0, 104, 1, 0, 0, 28, 0,
        0, 0,
    ]);

    let mut iter = InlineeIterator::parse(&data).expect("parse inlinees");
    let mut indices = Vec::new();
    while let Some(inlinee) = iter.next().expect("collect inlinees") {
        indices.push(inlinee.index());
    }
    assert_eq!(indices, [IdIndex(0x12FE), IdIndex(0x12FD)]);

    // A module without the subsection has no inlinees.
    let mut empty = InlineeIterator::parse(&Vec::new()).expect("parse inlinees");
    assert_eq!(empty.next().expect("no inlinees"), None);
}

#[test]
fn test_inlinee_line_emission_back_patch_uses_offset_delta() {
    // Two plain code-offset advances: the second emission back-patches the
    // first record's length with the offset delta just applied, 0x20, not
    // with any absolute offset.
    let inline_site = InlineSiteSymbol {
        parent: None,
        end: 0x400,
        inlinee: IdIndex(0x1400),
        invocations: None,
        annotations: vec![
            BinaryAnnotation::ChangeCodeOffset(0x10),
            BinaryAnnotation::ChangeCodeOffset(0x20),
        ],
    };
    let inlinee_line = InlineeSourceLine {
        inlinee: IdIndex(0x1400),
        file_id: FileIndex(0x50),
        line: 12,
        extra_files: vec![],
    };
    let parent_offset = PdbInternalSectionOffset {
        offset: 0x100,
        section: 1,
    };

    let mut iter = InlineeLineIterator::new(parent_offset, &inline_site, inlinee_line);
    let mut lines = Vec::new();
    while let Some(line) = iter.next() {
        lines.push(line);
    }

    let expected = [
        LineInfo {
            offset: PdbInternalSectionOffset {
                section: 1,
                offset: 0x110,
            },
            length: Some(0x20),
            file_index: FileIndex(0x50),
            line_start: 12,
            line_end: 13,
            column_start: None,
            column_end: None,
            kind: LineInfoKind::Statement,
        },
        LineInfo {
            offset: PdbInternalSectionOffset {
                section: 1,
                offset: 0x130,
            },
            length: None,
            file_index: FileIndex(0x50),
            line_start: 12,
            line_end: 13,
            column_start: None,
            column_end: None,
            kind: LineInfoKind::Statement,
        },
    ];
    assert_eq!(lines, expected);
}

#[test]
fn test_inlinee_line_back_patch_and_flush() {
    // One emitting operation, then a code-length change that back-patches
    // the pending record, which the final flush hands out.
    let inline_site = InlineSiteSymbol {
        parent: None,
        end: 0x100,
        inlinee: IdIndex(0x1300),
        invocations: Some(1),
        annotations: vec![
            BinaryAnnotation::ChangeCodeOffset(0x10),
            BinaryAnnotation::ChangeCodeLength(6),
        ],
    };
    let inlinee_line = InlineeSourceLine {
        inlinee: IdIndex(0x1300),
        file_id: FileIndex(0x30),
        line: 7,
        extra_files: vec![],
    };
    let parent_offset = PdbInternalSectionOffset {
        offset: 0x1000,
        section: 1,
    };

    let mut iter = InlineeLineIterator::new(parent_offset, &inline_site, inlinee_line);
    let mut lines = Vec::new();
    while let Some(line) = iter.next() {
        lines.push(line);
    }

    assert_eq!(
        lines,
        [LineInfo {
            offset: PdbInternalSectionOffset {
                section: 1,
                offset: 0x1010,
            },
            length: Some(6),
            file_index: FileIndex(0x30),
            line_start: 7,
            line_end: 8,
            column_start: None,
            column_end: None,
            kind: LineInfoKind::Statement,
        }]
    );
}
