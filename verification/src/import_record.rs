//! The imports of a module: the requests it makes, and the names it takes
//! from and offers to other modules.
use vstd::prelude::*;

use crate::symbol::ImportRecordIdx;
use crate::symbol::ModuleIdx;
use crate::symbol::SymbolRef;
use crate::syntax::ExportedName;
use crate::syntax::ImportedName;

verus! {

/// How a module asks for another.
#[derive(Clone, Copy, Debug, PartialEq, Eq, Structural)]
pub enum ImportKind {
    /// An `import` or `export .. from` statement.
    Import,
    /// `import(..)`
    DynamicImport,
}

/// One request for another module, before it is resolved.
#[derive(Clone, Debug, PartialEq, Eq)]
pub struct RawImportRecord {
    /// The specifier as written in the source.
    pub module_request: String,
    pub kind: ImportKind,
    /// Whether the request comes from `export * from`.
    pub is_export_star: bool,
}

/// The records that an `oxc::index::IndexVec` of raw records holds, each at
/// the place that is its index.
pub uninterp spec fn raw_records_held(records: RawImportRecords) -> Seq<RawImportRecord>;

/// The requests of a module, each at the place that is its index: an
/// `oxc::index::IndexVec` with [`ImportRecordIdx`] for its index.
#[verifier::external_body]
#[derive(Debug, PartialEq, Eq)]
pub struct RawImportRecords {
    inner: oxc::index::IndexVec<ImportRecordIdx, RawImportRecord>,
}

impl View for RawImportRecords {
    type V = Seq<RawImportRecord>;

    open spec fn view(&self) -> Seq<RawImportRecord> {
        raw_records_held(*self)
    }
}

impl RawImportRecords {
    /// Calls `IndexVec::new`: nothing is held.
    #[verifier::external_body]
    fn empty() -> (r: RawImportRecords)
        ensures
            raw_records_held(r) == Seq::<RawImportRecord>::empty(),
    {
        RawImportRecords { inner: oxc::index::IndexVec::new() }
    }

    /// Calls `IndexVec::push`: the record goes behind the others, and the
    /// index that comes back is the place it took.
    #[verifier::external_body]
    pub(crate) fn push(&mut self, record: RawImportRecord) -> (r: ImportRecordIdx)
        ensures
            raw_records_held(*final(self)) == raw_records_held(*old(self)).push(record),
            r.0 == raw_records_held(*old(self)).len(),
    {
        self.inner.push(record)
    }

    /// Calls `IndexVec::len`.
    #[verifier::external_body]
    fn count(&self) -> (r: usize)
        ensures
            r == raw_records_held(*self).len(),
    {
        self.inner.len()
    }

    /// Calls `IndexVec::as_vec`: the records as the vector that holds them.
    #[verifier::external_body]
    fn held(&self) -> (r: &Vec<RawImportRecord>)
        ensures
            r@ == raw_records_held(*self),
    {
        self.inner.as_vec()
    }

    /// No records.
    pub fn new() -> (r: RawImportRecords)
        ensures
            r@.len() == 0,
    {
        RawImportRecords::empty()
    }

    /// How many records there are.
    pub fn len(&self) -> (r: usize)
        ensures
            r == self@.len(),
    {
        self.count()
    }

    /// The records in the order of their indices.
    pub fn records(&self) -> (r: &Vec<RawImportRecord>)
        ensures
            r@ == self@,
    {
        self.held()
    }
}

/// An import record after resolution. The module graph makes them.
#[derive(Clone, Debug, PartialEq, Eq)]
pub struct ImportRecord {
    pub module_request: String,
    pub kind: ImportKind,
    pub resolved_module: ModuleIdx,
}

/// The records that an `oxc::index::IndexVec` of resolved records holds,
/// each at the place that is its index.
pub uninterp spec fn import_records_held(records: ImportRecords) -> Seq<ImportRecord>;

/// The resolved requests of a module, each at the place that is its index:
/// an `oxc::index::IndexVec` with [`ImportRecordIdx`] for its index.
#[verifier::external_body]
#[derive(Debug, PartialEq, Eq)]
pub struct ImportRecords {
    inner: oxc::index::IndexVec<ImportRecordIdx, ImportRecord>,
}

impl View for ImportRecords {
    type V = Seq<ImportRecord>;

    open spec fn view(&self) -> Seq<ImportRecord> {
        import_records_held(*self)
    }
}

impl ImportRecords {
    /// Calls `IndexVec::new`: nothing is held.
    #[verifier::external_body]
    fn empty() -> (r: ImportRecords)
        ensures
            import_records_held(r) == Seq::<ImportRecord>::empty(),
    {
        ImportRecords { inner: oxc::index::IndexVec::new() }
    }

    /// Calls `IndexVec::as_vec`: the records as the vector that holds them.
    #[verifier::external_body]
    fn held(&self) -> (r: &Vec<ImportRecord>)
        ensures
            r@ == import_records_held(*self),
    {
        self.inner.as_vec()
    }

    /// No records.
    pub fn new() -> (r: ImportRecords)
        ensures
            r@.len() == 0,
    {
        ImportRecords::empty()
    }

    /// The records in the order of their indices.
    pub fn records(&self) -> (r: &Vec<ImportRecord>)
        ensures
            r@ == self@,
    {
        self.held()
    }
}

/// A symbol of this module that stands for something another module exports.
#[derive(Clone, Debug, PartialEq, Eq)]
pub struct NamedImport {
    pub imported: ImportedName,
    pub imported_as: SymbolRef,
    pub record_id: ImportRecordIdx,
}

/// A name that this module exports, and the symbol behind it.
#[derive(Clone, Debug, PartialEq, Eq)]
pub struct NamedExport {
    pub exported: ExportedName,
    pub referenced: SymbolRef,
}

/// The place of a node in the tree of a module: the statement it lies in
/// and its place among the nodes of that statement.
#[derive(Clone, Copy, Debug, PartialEq, Eq, Hash, Structural)]
pub struct NodeSite {
    pub stmt: usize,
    pub node: usize,
}

/// An `import(..)` in the tree and the record it gave rise to.
#[derive(Clone, Copy, Debug, PartialEq, Eq, Hash, Structural)]
pub struct ImportSite {
    pub site: NodeSite,
    pub record: ImportRecordIdx,
}

/// The record that a statement gives rise to.
pub open spec fn static_record(request: String, is_export_star: bool) -> RawImportRecord {
    RawImportRecord { module_request: request, kind: ImportKind::Import, is_export_star }
}

/// The record that an `import(..)` of a string literal gives rise to.
pub open spec fn dynamic_record(request: String) -> RawImportRecord {
    RawImportRecord { module_request: request, kind: ImportKind::DynamicImport, is_export_star: false }
}

/// The indices `base`, `base + 1`, .. of `count` records in a row.
pub open spec fn record_range(base: int, count: int) -> Seq<ImportRecordIdx> {
    Seq::new(count as nat, |i: int| ImportRecordIdx((base + i) as usize))
}

} // verus!
