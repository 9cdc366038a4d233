use codeview_lines::lines::{
    LineEntry, LineMarkerEntry, LineMarkerKind, LineNumberEntry, LineNumberHeader,
};
use codeview_lines::program::{LineIterator, LineProgram};
use codeview_lines::types::{
    DecodeError, FileIndex, LineInfo, LineInfoKind, PdbInternalSectionOffset,
};

#[test]
fn line_record_overflow_correction() {
    // Start line 0x81; the 7-bit end field holds 0, which falls below the
    // start line, so one 128-line wrap is added: end = 0x80 + 0x80 = 0x100.
    let entry = LineNumberHeader {
        offset: 4,
        flags: 0x8000_0081,
    }
    .parse();
    assert_eq!(
        entry,
        LineEntry::Number(LineNumberEntry {
            offset: 4,
            start_line: 0x81,
            end_line: 0x100,
            kind: LineInfoKind::Statement,
        })
    );
}

#[test]
fn line_record_without_correction() {
    // Start line 100, end field 0x70 = 112 is at or above the start line:
    // no wrap, and bit 31 unset decodes as an expression.
    let entry = LineNumberHeader {
        offset: 0,
        flags: 0x7000_0064,
    }
    .parse();
    assert_eq!(
        entry,
        LineEntry::Number(LineNumberEntry {
            offset: 0,
            start_line: 100,
            end_line: 112,
            kind: LineInfoKind::Expression,
        })
    );
}

#[test]
fn line_record_sentinels_are_markers() {
    // The sentinel start lines decode to markers whatever the high bits are.
    let onto = LineNumberHeader {
        offset: 16,
        flags: 0xab00_0000 | 0x00fe_efee,
    }
    .parse();
    assert_eq!(
        onto,
        LineEntry::Marker(LineMarkerEntry {
            offset: 16,
            kind: LineMarkerKind::DoNotStepOnto,
        })
    );

    let into = LineNumberHeader {
        offset: 20,
        flags: 0x00f0_0f00,
    }
    .parse();
    assert_eq!(
        into,
        LineEntry::Marker(LineMarkerEntry {
            offset: 20,
            kind: LineMarkerKind::DoNotStepInto,
        })
    );
}

fn push_u32(data: &mut Vec<u8>, value: u32) {
    data.extend_from_slice(&value.to_le_bytes());
}

fn push_u16(data: &mut Vec<u8>, value: u16) {
    data.extend_from_slice(&value.to_le_bytes());
}

/// One lines subsection (kind 0xf2) anchored at 1:0x1000 with columns, one
/// block of two line records (the second a marker) and two column records,
/// preceded by an ignore-tagged subsection.
fn module_with_lines() -> Vec<u8> {
    let mut body = Vec::new();
    // Subsection header: anchor offset, section, flags (columns), code size.
    push_u32(&mut body, 0x1000);
    push_u16(&mut body, 1);
    push_u16(&mut body, 1);
    push_u32(&mut body, 0x40);
    // Block header: file index, two line records, total block size.
    push_u32(&mut body, 0x18);
    push_u32(&mut body, 2);
    push_u32(&mut body, 12 + 2 * 8 + 2 * 4);
    // Line record: offset 0, start line 10, end field 12, statement.
    push_u32(&mut body, 0);
    push_u32(&mut body, 10 | (12 << 24) | 0x8000_0000);
    // Marker record: do-not-step-onto at offset 4.
    push_u32(&mut body, 4);
    push_u32(&mut body, 0x00fe_efee);
    // Column records, paired with the two line records.
    push_u16(&mut body, 1);
    push_u16(&mut body, 5);
    push_u16(&mut body, 2);
    push_u16(&mut body, 6);

    let mut data = Vec::new();
    // An ignore-tagged subsection that the framer skips.
    push_u32(&mut data, 0x8000_0000);
    push_u32(&mut data, 4);
    data.extend_from_slice(&[0xde, 0xad, 0xbe, 0xef]);
    // The lines subsection.
    push_u32(&mut data, 0xf2);
    push_u32(&mut data, body.len() as u32);
    data.extend_from_slice(&body);
    data
}

fn collect_lines(iter: &mut LineIterator) -> Vec<LineInfo> {
    let mut lines = Vec::new();
    while let Some(line) = iter.next().expect("collect lines") {
        lines.push(line);
    }
    lines
}

#[test]
fn line_program_flattens_blocks_and_skips_markers() {
    let program = LineProgram::parse(module_with_lines()).expect("parse line program");
    let mut iter = program.lines();
    let lines = collect_lines(&mut iter);

    let expected = [LineInfo {
        offset: PdbInternalSectionOffset {
            section: 1,
            offset: 0x1000,
        },
        length: None,
        file_index: FileIndex(0x18),
        line_start: 10,
        line_end: 12,
        column_start: Some(1),
        column_end: Some(5),
        kind: LineInfoKind::Statement,
    }];
    assert_eq!(lines, expected);
}

#[test]
fn line_program_lines_at_offset() {
    let program = LineProgram::parse(module_with_lines()).expect("parse line program");

    let anchor = PdbInternalSectionOffset {
        offset: 0x1000,
        section: 1,
    };
    let mut iter = program.lines_at_offset(anchor);
    let lines = collect_lines(&mut iter);
    assert_eq!(lines.len(), 1);
    assert_eq!(lines[0].line_start, 10);

    let elsewhere = PdbInternalSectionOffset {
        offset: 0x2000,
        section: 1,
    };
    let mut iter = program.lines_at_offset(elsewhere);
    assert_eq!(collect_lines(&mut iter), Vec::<LineInfo>::new());
}

#[test]
fn line_program_rerun_is_identical() {
    let program = LineProgram::parse(module_with_lines()).expect("parse line program");
    let mut first_iter = program.lines();
    let first = collect_lines(&mut first_iter);
    let mut second_iter = program.lines();
    let second = collect_lines(&mut second_iter);
    assert_eq!(first, second);
    assert!(!first.is_empty());
}

#[test]
fn framer_rejects_unknown_subsection_kind() {
    let mut data = Vec::new();
    push_u32(&mut data, 0xe0);
    push_u32(&mut data, 0);
    let program = LineProgram::parse(data);
    assert_eq!(program.err(), Some(DecodeError::UnimplementedDebugSubsection(0xe0)));
}

#[test]
fn framer_rejects_truncated_header() {
    let program = LineProgram::parse(vec![0xf2, 0, 0]);
    assert_eq!(program.err(), Some(DecodeError::Truncated));
}

#[test]
fn framer_rejects_truncated_body() {
    let mut data = Vec::new();
    push_u32(&mut data, 0xf2);
    push_u32(&mut data, 100);
    data.push(0);
    let program = LineProgram::parse(data);
    assert_eq!(program.err(), Some(DecodeError::Truncated));
}
