use codeview_lines::checksums::FileIterator;
use codeview_lines::cross::{CrossModuleExports, CrossModuleImports};
use codeview_lines::program::LineProgram;
use codeview_lines::types::{
    CrossModuleExport, CrossModuleRef, DecodeError, FileChecksum, FileIndex, FileInfo, ModuleRef,
    StringRef,
};

fn push_u32(data: &mut Vec<u8>, value: u32) {
    data.extend_from_slice(&value.to_le_bytes());
}

/// A file checksums subsection with an MD5 entry at byte offset 0 and a
/// checksum-less entry at byte offset 24, padded to four-byte boundaries.
fn checksum_table() -> Vec<u8> {
    let mut body = Vec::new();
    push_u32(&mut body, 0x2a);
    body.push(16);
    body.push(1);
    body.extend_from_slice(&[
        0, 1, 2, 3, 4, 5, 6, 7, 8, 9, 10, 11, 12, 13, 14, 15,
    ]);
    body.extend_from_slice(&[0, 0]);
    push_u32(&mut body, 0x99);
    body.push(0);
    body.push(0);
    body.extend_from_slice(&[0, 0]);
    body
}

/// A module whose only subsection is the file checksum table.
fn module_with_checksums() -> Vec<u8> {
    let body = checksum_table();
    let mut data = Vec::new();
    push_u32(&mut data, 0xf4);
    push_u32(&mut data, body.len() as u32);
    data.extend_from_slice(&body);
    data
}

fn collect_files(iter: &mut FileIterator) -> Vec<FileInfo> {
    let mut files = Vec::new();
    while let Some(file) = iter.next().expect("collect files") {
        files.push(file);
    }
    files
}

#[test]
fn checksum_table_iterates_all_entries() {
    let program = LineProgram::parse(module_with_checksums()).expect("parse line program");
    let mut iter = program.files();
    let files = collect_files(&mut iter);

    let expected = [
        FileInfo {
            name: StringRef(0x2a),
            checksum: FileChecksum::Md5(vec![
                0, 1, 2, 3, 4, 5, 6, 7, 8, 9, 10, 11, 12, 13, 14, 15,
            ]),
        },
        FileInfo {
            name: StringRef(0x99),
            checksum: FileChecksum::Missing,
        },
    ];
    assert_eq!(files, expected);
}

#[test]
fn checksum_lookup_by_offset_round_trips() {
    // The format references a file by the byte offset of its entry: looking
    // each entry up at its own offset yields what full iteration produced.
    let program = LineProgram::parse(module_with_checksums()).expect("parse line program");
    let mut iter = program.files();
    let files = collect_files(&mut iter);

    let first = program.get_file_info(FileIndex(0)).expect("first entry");
    let second = program.get_file_info(FileIndex(24)).expect("second entry");
    assert_eq!(first, files[0]);
    assert_eq!(second, files[1]);
}

#[test]
fn checksum_iteration_rerun_is_identical() {
    let program = LineProgram::parse(module_with_checksums()).expect("parse line program");
    let mut first_iter = program.files();
    let mut second_iter = program.files();
    let first = collect_files(&mut first_iter);
    let second = collect_files(&mut second_iter);
    assert_eq!(first, second);
    assert_eq!(first.len(), 2);
}

#[test]
fn checksum_lookup_rejects_bad_offsets() {
    let program = LineProgram::parse(module_with_checksums()).expect("parse line program");
    assert_eq!(
        program.get_file_info(FileIndex(32)).err(),
        Some(DecodeError::InvalidFileChecksumOffset(32))
    );
    assert_eq!(
        program.get_file_info(FileIndex(33)).err(),
        Some(DecodeError::InvalidFileChecksumOffset(33))
    );
}

#[test]
fn checksum_rejects_unknown_kind() {
    let mut body = Vec::new();
    push_u32(&mut body, 0x2a);
    body.push(0);
    body.push(7);
    body.extend_from_slice(&[0, 0]);
    let mut data = Vec::new();
    push_u32(&mut data, 0xf4);
    push_u32(&mut data, body.len() as u32);
    data.extend_from_slice(&body);

    let program = LineProgram::parse(data).expect("parse line program");
    let mut iter = program.files();
    let mut next = iter.next();
    assert_eq!(next.err(), Some(DecodeError::UnimplementedFileChecksumKind(7)));
    // After the error the cursor is exhausted.
    next = iter.next();
    assert_eq!(next.expect("exhausted"), None);
}

/// A cross-module exports subsection with three pairs sorted by local index.
fn module_with_exports() -> Vec<u8> {
    let mut body = Vec::new();
    push_u32(&mut body, 2);
    push_u32(&mut body, 100);
    push_u32(&mut body, 5);
    push_u32(&mut body, 200);
    push_u32(&mut body, 0x8000_0003);
    push_u32(&mut body, 300);
    let mut data = Vec::new();
    push_u32(&mut data, 0xf8);
    push_u32(&mut data, body.len() as u32);
    data.extend_from_slice(&body);
    data
}

#[test]
fn exports_iterate_tagged_by_index_space() {
    let exports = CrossModuleExports::parse(&module_with_exports()).expect("parse exports");
    let mut iter = exports.exports();
    let mut all = Vec::new();
    while let Some(export) = iter.next().expect("collect exports") {
        all.push(export);
    }
    assert_eq!(
        all,
        [
            CrossModuleExport::Type(2, 100),
            CrossModuleExport::Type(5, 200),
            CrossModuleExport::Id(0x8000_0003, 300),
        ]
    );
}

#[test]
fn resolve_global_finds_present_keys() {
    let exports = CrossModuleExports::parse(&module_with_exports()).expect("parse exports");
    assert_eq!(
        exports.resolve_global(2).expect("resolve"),
        Some(CrossModuleExport::Type(2, 100))
    );
    assert_eq!(
        exports.resolve_global(5).expect("resolve"),
        Some(CrossModuleExport::Type(5, 200))
    );
    assert_eq!(
        exports.resolve_global(0x8000_0003).expect("resolve"),
        Some(CrossModuleExport::Id(0x8000_0003, 300))
    );
}

#[test]
fn resolve_global_misses_absent_keys() {
    let exports = CrossModuleExports::parse(&module_with_exports()).expect("parse exports");
    // Absent but within the key range, below it, and above it.
    assert_eq!(exports.resolve_global(3).expect("resolve"), None);
    assert_eq!(exports.resolve_global(1).expect("resolve"), None);
    assert_eq!(exports.resolve_global(0x9000_0000).expect("resolve"), None);
}

#[test]
fn exports_reject_ragged_length() {
    let mut data = Vec::new();
    push_u32(&mut data, 0xf8);
    push_u32(&mut data, 4);
    push_u32(&mut data, 17);
    assert_eq!(
        CrossModuleExports::parse(&data).err(),
        Some(DecodeError::InvalidStreamLength)
    );
}

#[test]
fn exports_missing_subsection_is_empty() {
    let exports = CrossModuleExports::parse(&Vec::new()).expect("parse exports");
    assert_eq!(exports.resolve_global(2).expect("resolve"), None);
}

/// A cross-module imports subsection with one module of two import slots.
fn module_with_imports() -> Vec<u8> {
    let mut body = Vec::new();
    push_u32(&mut body, 0x10);
    push_u32(&mut body, 2);
    push_u32(&mut body, 0x1000);
    push_u32(&mut body, 0x8000_0005);
    let mut data = Vec::new();
    push_u32(&mut data, 0xf7);
    push_u32(&mut data, body.len() as u32);
    data.extend_from_slice(&body);
    data
}

#[test]
fn resolve_import_reads_slot() {
    let imports = CrossModuleImports::parse(&module_with_imports()).expect("parse imports");
    assert_eq!(
        imports.resolve_import(0x8000_0001).expect("resolve import"),
        CrossModuleRef {
            module: ModuleRef(0x10),
            local_index: 0x8000_0005,
        }
    );
}

/// A cross-module imports subsection with two modules: the first with one
/// import slot, the second with two.
fn module_with_two_import_modules() -> Vec<u8> {
    let mut body = Vec::new();
    push_u32(&mut body, 0x10);
    push_u32(&mut body, 1);
    push_u32(&mut body, 0x1000);
    push_u32(&mut body, 0x20);
    push_u32(&mut body, 2);
    push_u32(&mut body, 0x2000);
    push_u32(&mut body, 0x2001);
    let mut data = Vec::new();
    push_u32(&mut data, 0xf7);
    push_u32(&mut data, body.len() as u32);
    data.extend_from_slice(&body);
    data
}

#[test]
fn resolve_import_selects_module_by_selector_value() {
    let imports =
        CrossModuleImports::parse(&module_with_two_import_modules()).expect("parse imports");
    // Selector field value 1 (bits 20..31), slot 1: the second module's
    // second import.
    assert_eq!(
        imports.resolve_import(0x8010_0001).expect("resolve import"),
        CrossModuleRef {
            module: ModuleRef(0x20),
            local_index: 0x2001,
        }
    );
    // Selector 0, slot 0: the first module's only import.
    assert_eq!(
        imports.resolve_import(0x8000_0000).expect("resolve import"),
        CrossModuleRef {
            module: ModuleRef(0x10),
            local_index: 0x1000,
        }
    );
    // Selector 2 names no module of this table.
    assert_eq!(
        imports.resolve_import(0x8020_0000).err(),
        Some(DecodeError::CrossModuleRefNotFound(0x8020_0000))
    );
}

#[test]
fn resolve_import_rejects_global_index() {
    let imports = CrossModuleImports::parse(&module_with_imports()).expect("parse imports");
    assert_eq!(
        imports.resolve_import(0x1234).err(),
        Some(DecodeError::NotACrossModuleRef(0x1234))
    );
}

#[test]
fn resolve_import_rejects_dangling_references() {
    let imports = CrossModuleImports::parse(&module_with_imports()).expect("parse imports");
    // Import slot out of range of the module's list.
    assert_eq!(
        imports.resolve_import(0x8000_0002).err(),
        Some(DecodeError::CrossModuleRefNotFound(0x8000_0002))
    );
    // Module selector out of range of the import table.
    assert_eq!(
        imports.resolve_import(0x8010_0000).err(),
        Some(DecodeError::CrossModuleRefNotFound(0x8010_0000))
    );
}
