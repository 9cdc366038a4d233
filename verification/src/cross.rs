//! The cross-module import and export tables, and resolution of references
//! between modules.
//!
//! The import table lists, per imported module, the raw local indices this
//! module refers to. The export table is a flat array of `{local, global}`
//! pairs sorted ascending by `local`; producers guarantee the order and the
//! decoder trusts it, so lookups are binary searches.

use vstd::prelude::*;
use crate::bytes::{le_u32, read_u32, take_bytes};
use crate::framer::{find_section, find_subsection, DebugSubsectionKind, FindOutcome};
use crate::types::{CrossModuleExport, CrossModuleRef, DecodeError, ModuleRef};

verus! {

/// Bit of a raw index that marks it as a cross-module reference.
pub const CROSS_MODULE_BIT: u32 = 0x8000_0000;

/// Mask of the module-selector field of a cross-module reference, after the
/// selector shift: bits 20 to 30 hold the number of the imported module.
pub const CROSS_MODULE_SELECTOR_MASK: u32 = 0x7ff;

/// Shift that brings the module-selector field of a cross-module reference
/// down to its value.
pub const CROSS_MODULE_SELECTOR_SHIFT: u32 = 20;

/// Bits of a cross-module reference that select the import slot within the
/// selected module.
pub const CROSS_MODULE_SLOT_MASK: u32 = 0x000f_ffff;

/// One imported module of the cross-module import table: its name reference
/// and its imported indices, kept as raw little-endian bytes and interpreted
/// on access.
#[derive(Clone, Debug, PartialEq, Eq)]
pub struct CrossScopeImportModule {
    /// Reference to the module name in the string table.
    pub name: ModuleRef,
    /// The imported indices, four raw little-endian bytes each.
    pub imports: Vec<u8>,
}

impl CrossScopeImportModule {
    /// The raw local index at the given import slot, read little-endian, or
    /// nothing when the slot is out of range.
    pub fn get(&self, import: usize) -> (r: Option<u32>)
        ensures
            r == (if 4 * import + 4 <= self.imports@.len() {
                Some(le_u32(self.imports@, 4 * import as int))
            } else {
                None::<u32>
            }),
    {
        let n = self.imports.len();
        if import <= usize::MAX / 4 && 4 * import <= n && n - 4 * import >= 4 {
            Some(read_u32(&self.imports, 4 * import))
        } else {
            None
        }
    }
}

/// One import-table record at a cursor position: the module name, the byte
/// range of its raw index list, and the position of the next record.
pub struct ImportItem {
    pub name: u32,
    pub lo: int,
    pub hi: int,
    pub next: int,
}

/// Outcome of decoding one import-table record at a cursor position.
pub enum ImportStep {
    Done,
    Fail(DecodeError),
    Item(ImportItem),
}

/// Decodes the import record at `pos`: a module name reference, an index
/// count, and that many raw 32-bit indices kept as an opaque span.
pub open spec fn import_next(s: Seq<u8>, pos: int) -> ImportStep {
    if pos < 0 || pos > s.len() {
        ImportStep::Fail(DecodeError::Truncated)
    } else if pos == s.len() {
        ImportStep::Done
    } else if pos + 8 > s.len() {
        ImportStep::Fail(DecodeError::Truncated)
    } else {
        let name = le_u32(s, pos);
        let count = le_u32(s, pos + 4) as int;
        if pos + 8 + 4 * count > s.len() {
            ImportStep::Fail(DecodeError::Truncated)
        } else {
            ImportStep::Item(ImportItem { name, lo: pos + 8, hi: pos + 8 + 4 * count, next: pos + 8 + 4 * count })
        }
    }
}

/// A cursor over the records of a cross-module imports subsection.
#[derive(Clone, Debug)]
pub struct CrossScopeImportModuleIter {
    pub data: Vec<u8>,
    pub pos: usize,
}

impl CrossScopeImportModuleIter {
    /// The cursor is within the subsection body.
    pub open spec fn wf(self) -> bool {
        self.pos <= self.data@.len()
    }

    /// Decodes the next import record, exactly as `import_next` describes.
    pub fn next(&mut self) -> (r: Result<Option<CrossScopeImportModule>, DecodeError>)
        requires
            old(self).wf(),
        ensures
            final(self).wf(),
            final(self).data@ == old(self).data@,
            match import_next(old(self).data@, old(self).pos as int) {
                ImportStep::Done => {
                    &&& r == Ok::<Option<CrossScopeImportModule>, DecodeError>(None)
                    &&& final(self).pos == old(self).pos
                },
                ImportStep::Fail(e) => {
                    &&& r == Err::<Option<CrossScopeImportModule>, DecodeError>(e)
                    &&& final(self).pos == old(self).data@.len()
                },
                ImportStep::Item(item) => match r {
                    Ok(Some(module)) => {
                        &&& module.name == ModuleRef(item.name)
                        &&& module.imports@ == old(self).data@.subrange(item.lo, item.hi)
                        &&& final(self).pos == item.next
                    },
                    _ => false,
                },
            },
    {
        let n = self.data.len();
        if self.pos == n {
            return Ok(None);
        }
        if n - self.pos < 8 {
            self.pos = n;
            return Err(DecodeError::Truncated);
        }
        let name = read_u32(&self.data, self.pos);
        let count = read_u32(&self.data, self.pos + 4) as u64;
        if count * 4 > (n - (self.pos + 8)) as u64 {
            self.pos = n;
            return Err(DecodeError::Truncated);
        }
        let lo = self.pos + 8;
        let hi = lo + (count as usize) * 4;
        let imports = take_bytes(&self.data, lo, hi);
        self.pos = hi;
        Ok(Some(CrossScopeImportModule { name: ModuleRef(name), imports }))
    }
}

/// The raw cross-module imports subsection.
#[derive(Clone, Debug)]
pub struct DebugCrossScopeImportsSubsection {
    pub data: Vec<u8>,
}

impl DebugCrossScopeImportsSubsection {
    /// Wraps a cross-module imports subsection body; records are decoded
    /// lazily.
    pub fn parse(data: Vec<u8>) -> (r: Result<Self, DecodeError>)
        ensures
            match r {
                Ok(sub) => sub.data@ == data@,
                Err(_) => false,
            },
    {
        Ok(DebugCrossScopeImportsSubsection { data })
    }

    /// A cursor over the import records of this subsection.
    pub fn imports(&self) -> (r: CrossScopeImportModuleIter)
        ensures
            r.wf(),
            r.data@ == self.data@,
            r.pos == 0,
    {
        CrossScopeImportModuleIter { data: crate::framer::copy_bytes(&self.data), pos: 0 }
    }
}

/// One decoded import module as a byte range of the subsection body.
pub struct ImportModuleSpan {
    pub name: u32,
    pub lo: int,
    pub hi: int,
}

/// Outcome of decoding the whole import table from a cursor position.
pub enum ImportScan {
    Fine(Seq<ImportModuleSpan>),
    Fail(DecodeError),
}

/// All import records from `pos` on, or the error decoding runs into.
pub open spec fn import_modules(s: Seq<u8>, pos: int) -> ImportScan
    decreases s.len() - pos,
    via import_modules_dec
{
    match import_next(s, pos) {
        ImportStep::Done => ImportScan::Fine(Seq::empty()),
        ImportStep::Fail(e) => ImportScan::Fail(e),
        ImportStep::Item(item) => match import_modules(s, item.next) {
            ImportScan::Fine(rest) => ImportScan::Fine(
                seq![ImportModuleSpan { name: item.name, lo: item.lo, hi: item.hi }] + rest,
            ),
            ImportScan::Fail(e) => ImportScan::Fail(e),
        },
    }
}

#[via_fn]
proof fn import_modules_dec(s: Seq<u8>, pos: int) {
}

/// The decoded modules match the import records of the byte span `s`.
pub open spec fn modules_match(modules: Seq<CrossScopeImportModule>, s: Seq<u8>) -> bool {
    match import_modules(s, 0) {
        ImportScan::Fine(spans) => {
            &&& modules.len() == spans.len()
            &&& forall|i: int|
                0 <= i < spans.len() ==> #[trigger] modules[i].name == ModuleRef(spans[i].name)
                    && modules[i].imports@ == s.subrange(spans[i].lo, spans[i].hi)
        },
        ImportScan::Fail(_) => false,
    }
}

/// Access to the types and ids imported from other modules, for resolving
/// cross-module references.
#[derive(Clone, Debug)]
pub struct CrossModuleImports {
    pub modules: Vec<CrossScopeImportModule>,
}

impl CrossModuleImports {
    /// Decodes the import table of a module's debug data: finds the
    /// cross-module imports subsection and collects its records. A module
    /// without such a subsection has an empty import table.
    pub fn parse(data: &Vec<u8>) -> (r: Result<Self, DecodeError>)
        ensures
            match find_section(data@, 0, DebugSubsectionKind::CrossScopeImports) {
                FindOutcome::Found(lo, hi) => match (r, import_modules(
                    data@.subrange(lo, hi),
                    0,
                )) {
                    (Ok(imports), ImportScan::Fine(_)) => modules_match(
                        imports.modules@,
                        data@.subrange(lo, hi),
                    ),
                    (Err(e1), ImportScan::Fail(e2)) => e1 == e2,
                    _ => false,
                },
                FindOutcome::Missing => match r {
                    Ok(imports) => imports.modules@.len() == 0,
                    _ => false,
                },
                FindOutcome::Fail(e) => r == Err::<CrossModuleImports, DecodeError>(e),
            },
    {
        proof {
            crate::framer::lemma_find_section_bounds(
                data@,
                0,
                DebugSubsectionKind::CrossScopeImports,
            );
        }
        let section_data = match find_subsection(data, DebugSubsectionKind::CrossScopeImports) {
            Err(e) => {
                return Err(e);
            },
            Ok(None) => {
                return Ok(CrossModuleImports { modules: Vec::new() });
            },
            Ok(Some(d)) => d,
        };
        let section = match DebugCrossScopeImportsSubsection::parse(section_data) {
            Ok(s) => s,
            Err(e) => {
                return Err(e);
            },
        };
        let mut it = section.imports();
        let mut modules: Vec<CrossScopeImportModule> = Vec::new();
        let ghost body = it.data@;
        loop
            invariant
                it.wf(),
                it.data@ == body,
                find_section(data@, 0, DebugSubsectionKind::CrossScopeImports) matches
                    FindOutcome::Found(lo, hi) && body == data@.subrange(lo, hi),
                match import_modules(body, it.pos as int) {
                    ImportScan::Fine(spans) => match import_modules(body, 0) {
                        ImportScan::Fine(all) => {
                            &&& modules@.len() + spans.len() == all.len()
                            &&& all == all.subrange(0, modules@.len() as int) + spans
                            &&& forall|i: int|
                                0 <= i < modules@.len() ==> #[trigger] modules@[i].name
                                    == ModuleRef(all[i].name) && modules@[i].imports@
                                    == body.subrange(all[i].lo, all[i].hi)
                        },
                        ImportScan::Fail(_) => false,
                    },
                    ImportScan::Fail(e) => match import_modules(body, 0) {
                        ImportScan::Fail(e2) => e == e2,
                        ImportScan::Fine(_) => false,
                    },
                },
            ensures
                modules_match(modules@, body),
                find_section(data@, 0, DebugSubsectionKind::CrossScopeImports) matches
                    FindOutcome::Found(lo, hi) && body == data@.subrange(lo, hi),
            decreases body.len() - it.pos,
        {
            let ghost pre = it;
            proof {
                lemma_import_next_advances(body, it.pos as int);
            }
            match it.next() {
                Err(e) => {
                    return Err(e);
                },
                Ok(None) => {
                    proof {
                        let all = import_modules(body, 0)->Fine_0;
                        let spans = import_modules(body, pre.pos as int)->Fine_0;
                        assert(spans.len() == 0);
                        assert(all =~= all.subrange(0, modules@.len() as int));
                    }
                    break ;
                },
                Ok(Some(module)) => {
                    let ghost item = import_next(body, pre.pos as int)->Item_0;
                    modules.push(module);
                    proof {
                        let span = ImportModuleSpan { name: item.name, lo: item.lo, hi: item.hi };
                        match import_modules(body, item.next) {
                            ImportScan::Fine(rest) => {
                                let all = import_modules(body, 0)->Fine_0;
                                let spans = import_modules(body, pre.pos as int)->Fine_0;
                                assert(spans =~= seq![span] + rest);
                                let k = modules@.len() as int - 1;
                                assert(all[k] == span);
                                assert(all =~= all.subrange(0, k + 1) + rest);
                                assert(all.subrange(0, k + 1)[k] == all[k]);
                            },
                            ImportScan::Fail(_) => {},
                        }
                    }
                },
            }
        }
        Ok(CrossModuleImports { modules })
    }

    /// Resolves a cross-module reference to the module that declares the
    /// item and the item's raw local index in that module.
    ///
    /// A reference is cross-module exactly when its top bit is set; an index
    /// without it is rejected as not a cross-module reference. The value of
    /// the selector field, bits 20 to 30 of the reference, is the number of
    /// the imported module; the low 20 bits are the import slot within that
    /// module. Either being out of range of the decoded import table is a
    /// not-found error.
    pub fn resolve_import(&self, index: u32) -> (r: Result<CrossModuleRef, DecodeError>)
        ensures
            r == spec_resolve_import(self.modules@, index),
    {
        if index & CROSS_MODULE_BIT == 0 {
            return Err(DecodeError::NotACrossModuleRef(index));
        }
        let module_index = ((index >> CROSS_MODULE_SELECTOR_SHIFT) & CROSS_MODULE_SELECTOR_MASK)
            as usize;
        let import_index = (index & CROSS_MODULE_SLOT_MASK) as usize;
        if module_index >= self.modules.len() {
            return Err(DecodeError::CrossModuleRefNotFound(index));
        }
        let module = &self.modules[module_index];
        match module.get(import_index) {
            Some(local_index) => Ok(CrossModuleRef { module: module.name, local_index }),
            None => Err(DecodeError::CrossModuleRefNotFound(index)),
        }
    }
}

/// A decoded import record advances the cursor and stays within the buffer.
pub proof fn lemma_import_next_advances(s: Seq<u8>, pos: int)
    ensures
        match import_next(s, pos) {
            ImportStep::Item(item) => pos < item.lo <= item.hi <= s.len() && item.next == item.hi,
            _ => true,
        },
{
}

/// Resolution of a cross-module reference over the decoded import modules:
/// rejects an index without the cross-module bit, selects the module by the
/// value of the selector field and the slot by the low slot bits, and fails
/// with a not-found error when either is out of range.
pub open spec fn spec_resolve_import(
    modules: Seq<CrossScopeImportModule>,
    index: u32,
) -> Result<CrossModuleRef, DecodeError> {
    if index & CROSS_MODULE_BIT == 0 {
        Err(DecodeError::NotACrossModuleRef(index))
    } else {
        let module_index = ((index >> CROSS_MODULE_SELECTOR_SHIFT) & CROSS_MODULE_SELECTOR_MASK)
            as int;
        let import_index = (index & CROSS_MODULE_SLOT_MASK) as int;
        if module_index >= modules.len() {
            Err(DecodeError::CrossModuleRefNotFound(index))
        } else if 4 * import_index + 4 > modules[module_index].imports@.len() {
            Err(DecodeError::CrossModuleRefNotFound(index))
        } else {
            Ok(
                CrossModuleRef {
                    module: modules[module_index].name,
                    local_index: le_u32(modules[module_index].imports@, 4 * import_index),
                },
            )
        }
    }
}

/// Number of `{local, global}` pairs of an export table.
pub open spec fn export_count(s: Seq<u8>) -> int {
    s.len() as int / 8
}

/// The local index of the export pair at position `i`.
pub open spec fn export_local(s: Seq<u8>, i: int) -> u32 {
    le_u32(s, 8 * i)
}

/// The global index of the export pair at position `i`.
pub open spec fn export_global(s: Seq<u8>, i: int) -> u32 {
    le_u32(s, 8 * i + 4)
}

/// The export pair at position `i`, tagged by its index space: the top bit
/// of the local index distinguishes id-space from type-space exports.
pub open spec fn export_of(s: Seq<u8>, i: int) -> CrossModuleExport {
    if export_local(s, i) & CROSS_MODULE_BIT != 0 {
        CrossModuleExport::Id(export_local(s, i), export_global(s, i))
    } else {
        CrossModuleExport::Type(export_local(s, i), export_global(s, i))
    }
}

/// The export pairs are sorted ascending by local index.
pub open spec fn exports_sorted(s: Seq<u8>) -> bool {
    forall|i: int, j: int|
        0 <= i < j < export_count(s) ==> #[trigger] export_local(s, i) <= #[trigger] export_local(
            s,
            j,
        )
}

/// Reads the export pair at position `i`.
pub fn export_at(data: &Vec<u8>, i: usize) -> (r: CrossModuleExport)
    requires
        8 * i + 8 <= data@.len(),
    ensures
        r == export_of(data@, i as int),
{
    let n = data.len();
    let local = read_u32(data, 8 * i);
    let global = read_u32(data, 8 * i + 4);
    if local & CROSS_MODULE_BIT != 0 {
        CrossModuleExport::Id(local, global)
    } else {
        CrossModuleExport::Type(local, global)
    }
}

/// The raw cross-module exports subsection: a flat array of eight-byte
/// `{local, global}` pairs.
#[derive(Clone, Debug)]
pub struct DebugCrossScopeExportsSubsection {
    pub data: Vec<u8>,
}

impl DebugCrossScopeExportsSubsection {
    /// The byte length is a whole number of pairs.
    pub open spec fn wf(self) -> bool {
        self.data@.len() % 8 == 0
    }

    /// Wraps a cross-module exports subsection body; a byte length that is
    /// not a multiple of the pair size is an invalid-stream-length error.
    pub fn parse(data: Vec<u8>) -> (r: Result<Self, DecodeError>)
        ensures
            match r {
                Ok(sub) => {
                    &&& data@.len() % 8 == 0
                    &&& sub.wf()
                    &&& sub.data@ == data@
                },
                Err(e) => {
                    &&& data@.len() % 8 != 0
                    &&& e == DecodeError::InvalidStreamLength
                },
            },
    {
        if data.len() % 8 != 0 {
            return Err(DecodeError::InvalidStreamLength);
        }
        Ok(DebugCrossScopeExportsSubsection { data })
    }
}

/// A cursor over the pairs of the export table.
#[derive(Clone, Debug)]
pub struct CrossModuleExportIter {
    pub data: Vec<u8>,
    pub idx: usize,
}

impl CrossModuleExportIter {
    /// The cursor is within the table and the table is a whole number of
    /// pairs.
    pub open spec fn wf(self) -> bool {
        self.data@.len() % 8 == 0 && self.idx <= export_count(self.data@)
    }

    /// Hands out the export pair at the cursor, tagged by its index space.
    pub fn next(&mut self) -> (r: Result<Option<CrossModuleExport>, DecodeError>)
        requires
            old(self).wf(),
        ensures
            final(self).wf(),
            final(self).data@ == old(self).data@,
            r == (if old(self).idx < export_count(old(self).data@) {
                Ok::<Option<CrossModuleExport>, DecodeError>(
                    Some(export_of(old(self).data@, old(self).idx as int)),
                )
            } else {
                Ok::<Option<CrossModuleExport>, DecodeError>(None)
            }),
            final(self).idx == (if old(self).idx < export_count(old(self).data@) {
                old(self).idx + 1
            } else {
                old(self).idx as int
            }),
    {
        let n = self.data.len();
        if self.idx >= n / 8 {
            return Ok(None);
        }
        let e = export_at(&self.data, self.idx);
        self.idx = self.idx + 1;
        Ok(Some(e))
    }
}

/// The table of types and ids this module exports; other modules resolve
/// their cross-module references against it.
#[derive(Clone, Debug)]
pub struct CrossModuleExports {
    pub section: DebugCrossScopeExportsSubsection,
}

impl CrossModuleExports {
    /// The underlying table is a whole number of pairs.
    pub open spec fn wf(self) -> bool {
        self.section.wf()
    }

    /// Decodes the export table of a module's debug data: finds the
    /// cross-module exports subsection and checks its framing. A module
    /// without such a subsection has an empty export table.
    pub fn parse(data: &Vec<u8>) -> (r: Result<Self, DecodeError>)
        ensures
            match find_section(data@, 0, DebugSubsectionKind::CrossScopeExports) {
                FindOutcome::Found(lo, hi) => if (hi - lo) % 8 == 0 {
                    match r {
                        Ok(exports) => exports.wf() && exports.section.data@ == data@.subrange(
                            lo,
                            hi,
                        ),
                        _ => false,
                    }
                } else {
                    r == Err::<CrossModuleExports, DecodeError>(DecodeError::InvalidStreamLength)
                },
                FindOutcome::Missing => match r {
                    Ok(exports) => exports.wf() && exports.section.data@.len() == 0,
                    _ => false,
                },
                FindOutcome::Fail(e) => r == Err::<CrossModuleExports, DecodeError>(e),
            },
    {
        proof {
            crate::framer::lemma_find_section_bounds(
                data@,
                0,
                DebugSubsectionKind::CrossScopeExports,
            );
        }
        let section_data = match find_subsection(data, DebugSubsectionKind::CrossScopeExports) {
            Err(e) => {
                return Err(e);
            },
            Ok(None) => {
                return Ok(
                    CrossModuleExports {
                        section: DebugCrossScopeExportsSubsection { data: Vec::new() },
                    },
                );
            },
            Ok(Some(d)) => d,
        };
        match DebugCrossScopeExportsSubsection::parse(section_data) {
            Ok(section) => Ok(CrossModuleExports { section }),
            Err(e) => Err(e),
        }
    }

    /// A cursor over all export pairs of this module.
    pub fn exports(&self) -> (r: CrossModuleExportIter)
        requires
            self.wf(),
        ensures
            r.wf(),
            r.data@ == self.section.data@,
            r.idx == 0,
    {
        CrossModuleExportIter { data: crate::framer::copy_bytes(&self.section.data), idx: 0 }
    }

    /// Looks the given local index up in the export table by binary search
    /// and returns its export pair, or nothing when the local index is not
    /// exported — a legitimate state, not an error.
    ///
    /// A returned pair always is a real entry of the table whose local index
    /// is the one looked up. Provided the table is sorted by local index, as
    /// producers guarantee, a pair is returned exactly when the local index
    /// appears in the table.
    pub fn resolve_global(&self, local: u32) -> (r: Result<Option<CrossModuleExport>, DecodeError>)
        requires
            self.wf(),
        ensures
            match r {
                Ok(opt) => {
                    &&& (match opt {
                        Some(e) => exists|i: int|
                            0 <= i < export_count(self.section.data@) && #[trigger] export_local(
                                self.section.data@,
                                i,
                            ) == local && e == export_of(self.section.data@, i),
                        None => true,
                    })
                    &&& exports_sorted(self.section.data@) ==> ((opt is Some) <==> exists|i: int|
                        0 <= i < export_count(self.section.data@) && #[trigger] export_local(
                            self.section.data@,
                            i,
                        ) == local)
                },
                Err(_) => false,
            },
    {
        let ghost s = self.section.data@;
        let nb = self.section.data.len();
        let n = nb / 8;
        let mut lo: usize = 0;
        let mut hi: usize = n;
        while lo < hi
            invariant
                s == self.section.data@,
                self.wf(),
                nb == s.len(),
                n == export_count(s),
                lo <= hi <= n,
                exports_sorted(s) ==> forall|i: int|
                    0 <= i < lo ==> #[trigger] export_local(s, i) < local,
                exports_sorted(s) ==> forall|i: int|
                    hi <= i < n ==> #[trigger] export_local(s, i) > local,
            decreases hi - lo,
        {
            let mid = lo + (hi - lo) / 2;
            let v = read_u32(&self.section.data, 8 * mid);
            assert(v == export_local(s, mid as int));
            if v == local {
                let e = export_at(&self.section.data, mid);
                return Ok(Some(e));
            } else if v < local {
                proof {
                    if exports_sorted(s) {
                        assert forall|i: int| 0 <= i <= mid implies #[trigger] export_local(s, i)
                            < local by {
                            assert(export_local(s, i) <= export_local(s, mid as int));
                        }
                    }
                }
                lo = mid + 1;
            } else {
                proof {
                    if exports_sorted(s) {
                        assert forall|i: int| mid <= i < n implies #[trigger] export_local(s, i)
                            > local by {
                            assert(export_local(s, mid as int) <= export_local(s, i));
                        }
                    }
                }
                hi = mid;
            }
        }
        Ok(None)
    }
}

} // verus!
