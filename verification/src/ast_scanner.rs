//! The scan: one pass over the statements of a module.
use vstd::prelude::*;

use crate::body_scan::body_has_side_effect;
use crate::body_scan::body_uses_global;
use crate::body_scan::collect_declarations;
use crate::body_scan::collect_declared_exports;
use crate::body_scan::collect_dynamic_records;
use crate::body_scan::collect_errors;
use crate::body_scan::collect_references;
use crate::body_scan::collect_self_referenced_classes;
use crate::body_scan::collect_warnings;
use crate::body_scan::declared_exports;
use crate::body_scan::self_referenced_classes;
use crate::diagnostic::BuildDiagnostic;
use crate::import_record::record_range;
use crate::import_record::ImportKind;
use crate::import_record::ImportSite;
use crate::import_record::NamedExport;
use crate::import_record::NamedImport;
use crate::import_record::RawImportRecord;
use crate::import_record::RawImportRecords;
use crate::options::ModuleDefFormat;
use crate::scan_laws::consistent;
use crate::scan_laws::law_scan_has_no_duplicates;
use crate::scan_laws::law_scan_is_consistent;
use crate::scan_laws::without_duplicates;
use crate::scan_model::body_info;
use crate::scan_model::exports_kind_of;
use crate::scan_model::imported_bindings;
use crate::scan_model::imported_symbols;
use crate::scan_model::local_export_symbols;
use crate::scan_model::local_exports;
use crate::scan_model::made_up_symbols;
use crate::scan_model::namespace_name;
use crate::scan_model::namespace_ref;
use crate::scan_model::re_export_names;
use crate::scan_model::re_exported_imports;
use crate::scan_model::re_exports;
use crate::scan_model::scan_start;
use crate::scan_model::scan_step;
use crate::scan_model::scanned;
use crate::scan_model::scanned_before;
use crate::scan_model::stmt_facades;
use crate::scan_model::stmt_info;
use crate::scan_model::undefined_exports;
use crate::scan_model::exports_hold;
use crate::scan_model::imports_hold;
use crate::scan_model::with_exports;
use crate::scan_model::with_imports;
use crate::scan_model::with_symbols;
use crate::scan_model::EcmaModuleAstUsage;
use crate::scan_model::ExportsKind;
use crate::scan_model::ScanContext;
use crate::scan_model::Scanned;
use crate::stmt_info::stmt_info_views;
use crate::stmt_info::StmtInfo;
use crate::stmt_info::StmtInfoView;
use crate::symbol::root_scope;
use crate::symbol::ImportRecordIdx;
use crate::symbol::ModuleIdx;
use crate::symbol::SymbolData;
use crate::symbol::SymbolFlags;
use crate::symbol::SymbolId;
use crate::symbol::SymbolRef;
use crate::symbol::SymbolRefDbForModule;
use crate::symbol::SymbolTable;
use crate::syntax::Body;
use crate::syntax::EcmaAst;
use crate::syntax::ExportSpecifier;
use crate::syntax::ExportedName;
use crate::syntax::ImportSpecifier;
use crate::syntax::ImportedName;
use crate::syntax::ReExportSpecifier;
use crate::syntax::Stmt;

verus! {

/// Whether a symbol is one that the bundler made up under `name`: it lies in
/// the scope of the module and is neither a `const` nor an import.
pub open spec fn is_facade(data: SymbolData, name: Seq<char>) -> bool {
    &&& data.name@ == name
    &&& data.scope == root_scope()
    &&& data.flags == SymbolFlags { is_const: false, is_import: false }
}

/// Whether a table holds the symbols of the parser and, behind them, one
/// made-up symbol for each of `facades`.
pub open spec fn holds_facades(table: Seq<SymbolData>, parsed: Seq<SymbolData>, facades: Seq<Seq<char>>) -> bool {
    &&& table.len() == parsed.len() + facades.len()
    &&& forall|i: int| 0 <= i < parsed.len() ==> table[i] == parsed[i]
    &&& forall|k: int| 0 <= k < facades.len() ==> is_facade(#[trigger] table[parsed.len() + k], facades[k])
}

/// What a scan hands over.
#[derive(Debug, PartialEq, Eq)]
pub struct ScanResult {
    pub named_imports: Vec<NamedImport>,
    pub named_exports: Vec<NamedExport>,
    pub stmt_infos: Vec<StmtInfo>,
    pub import_records: RawImportRecords,
    /// Where in the tree each `import(..)` with a record stands.
    pub imports: Vec<ImportSite>,
    pub default_export_ref: Option<SymbolRef>,
    pub exports_kind: ExportsKind,
    pub warnings: Vec<BuildDiagnostic>,
    pub has_eval: bool,
    pub errors: Vec<BuildDiagnostic>,
    pub ast_usage: EcmaModuleAstUsage,
    pub symbol_ref_db: SymbolRefDbForModule,
    pub self_referenced_class_decl_symbol_ids: Vec<SymbolId>,
    pub has_star_exports: bool,
}

impl ScanResult {
    /// Whether this is what a scan in `ctx` hands over when it has found
    /// `found`.
    pub open spec fn holds(&self, found: Scanned, ctx: ScanContext) -> bool {
        &&& self.named_imports@ == found.named_imports
        &&& self.named_exports@ == found.named_exports
        &&& stmt_info_views(self.stmt_infos@) == found.stmt_infos
        &&& self.import_records@ == found.import_records
        &&& self.imports@ == found.imports
        &&& self.default_export_ref == found.default_export_ref
        &&& self.exports_kind == exports_kind_of(found, ctx.format)
        &&& self.warnings@ == found.warnings
        &&& self.has_eval == found.has_eval
        &&& self.errors@ == found.errors
        &&& self.ast_usage == found.ast_usage
        &&& self.symbol_ref_db.owner == ctx.owner
        &&& holds_facades(self.symbol_ref_db.symbols@, ctx.symbols, found.facades)
        &&& self.self_referenced_class_decl_symbol_ids@ == found.self_referenced
        &&& self.has_star_exports == found.has_star_exports
    }
}

/// The name of a made-up symbol that stands for an imported name.
fn imported_text(name: &ImportedName) -> (r: String)
    ensures
        r@ == name.text(),
{
    match name {
        ImportedName::Default => String::from_str("default"),
        ImportedName::Namespace => String::from_str("*"),
        ImportedName::Named(name) => name.clone(),
    }
}

/// The name of a made-up symbol that stands for an exported name.
fn exported_text(name: &ExportedName) -> (r: String)
    ensures
        r@ == name.text(),
{
    match name {
        ExportedName::Default => String::from_str("default"),
        ExportedName::Named(name) => name.clone(),
    }
}

/// Whether `list` has an import under `symbol`.
fn has_import(list: &Vec<NamedImport>, symbol: SymbolRef) -> (r: bool)
    ensures
        r == imports_hold(list@, symbol),
{
    let mut i: usize = 0;
    while i < list.len()
        invariant
            i <= list.len(),
            !imports_hold(list@.take(i as int), symbol),
        decreases list.len() - i,
    {
        if list[i].imported_as == symbol {
            assert(list@[i as int].imported_as == symbol);
            return true;
        }
        assert forall|j: int| 0 <= j < i + 1 implies (#[trigger] list@.take(i + 1)[j]).imported_as != symbol by {
            if j < i {
                assert(list@.take(i as int)[j].imported_as != symbol);
            }
        }
        i += 1;
    }
    assert(list@.take(i as int) =~= list@);
    false
}

/// Adds the imports of `fresh` to `list`, each unless the list has one
/// under the same symbol.
pub fn merge_imports(list: &mut Vec<NamedImport>, fresh: &Vec<NamedImport>)
    ensures
        final(list)@ == with_imports(old(list)@, fresh@, fresh@.len() as int),
{
    let ghost before = list@;
    let mut i: usize = 0;
    while i < fresh.len()
        invariant
            i <= fresh.len(),
            list@ == with_imports(before, fresh@, i as int),
        decreases fresh.len() - i,
    {
        if !has_import(list, fresh[i].imported_as) {
            list.push(
                NamedImport {
                    imported: fresh[i].imported.copy(),
                    imported_as: fresh[i].imported_as,
                    record_id: fresh[i].record_id,
                },
            );
        }
        i += 1;
    }
}

/// Whether two exported names are the same name.
pub fn same_exported_name(a: &ExportedName, b: &ExportedName) -> (r: bool)
    ensures
        r == (a.text() == b.text()),
{
    exported_text(a) == exported_text(b)
}

/// Whether `list` has an export under the name of `name`.
fn has_export(list: &Vec<NamedExport>, name: &ExportedName) -> (r: bool)
    ensures
        r == exports_hold(list@, name.text()),
{
    let mut i: usize = 0;
    while i < list.len()
        invariant
            i <= list.len(),
            !exports_hold(list@.take(i as int), name.text()),
        decreases list.len() - i,
    {
        if same_exported_name(&list[i].exported, name) {
            assert(list@[i as int].exported.text() == name.text());
            return true;
        }
        assert forall|j: int| 0 <= j < i + 1 implies (#[trigger] list@.take(i + 1)[j]).exported.text()
            != name.text() by {
            if j < i {
                assert(list@.take(i as int)[j].exported.text() != name.text());
            }
        }
        i += 1;
    }
    assert(list@.take(i as int) =~= list@);
    false
}

/// Adds the exports of `fresh` to `list`, each unless the list has one
/// under the same name.
pub fn merge_exports(list: &mut Vec<NamedExport>, fresh: &Vec<NamedExport>)
    ensures
        final(list)@ == with_exports(old(list)@, fresh@, fresh@.len() as int),
{
    let ghost before = list@;
    let mut i: usize = 0;
    while i < fresh.len()
        invariant
            i <= fresh.len(),
            list@ == with_exports(before, fresh@, i as int),
        decreases fresh.len() - i,
    {
        if !has_export(list, &fresh[i].exported) {
            list.push(NamedExport { exported: fresh[i].exported.copy(), referenced: fresh[i].referenced });
        }
        i += 1;
    }
}

/// Whether `list` has `symbol`.
fn has_symbol(list: &Vec<SymbolId>, symbol: SymbolId) -> (r: bool)
    ensures
        r == list@.contains(symbol),
{
    let mut i: usize = 0;
    while i < list.len()
        invariant
            i <= list.len(),
            forall|j: int| 0 <= j < i ==> list@[j] != symbol,
        decreases list.len() - i,
    {
        if list[i] == symbol {
            assert(list@[i as int] == symbol);
            return true;
        }
        i += 1;
    }
    false
}

/// Adds the symbols of `fresh` to `list`, each unless the list has it.
pub fn merge_symbols(list: &mut Vec<SymbolId>, fresh: &Vec<SymbolId>)
    ensures
        final(list)@ == with_symbols(old(list)@, fresh@, fresh@.len() as int),
{
    let ghost before = list@;
    let mut i: usize = 0;
    while i < fresh.len()
        invariant
            i <= fresh.len(),
            list@ == with_symbols(before, fresh@, i as int),
        decreases fresh.len() - i,
    {
        if !has_symbol(list, fresh[i]) {
            list.push(fresh[i]);
        }
        i += 1;
    }
}

/// The indices of the records from `from` up to `to`.
fn index_range(from: usize, to: usize) -> (r: Vec<ImportRecordIdx>)
    requires
        from <= to,
    ensures
        r@ == record_range(from as int, to - from),
{
    let mut out: Vec<ImportRecordIdx> = Vec::new();
    let mut i: usize = from;
    while i < to
        invariant
            from <= i <= to,
            out@ == record_range(from as int, i - from),
        decreases to - i,
    {
        out.push(ImportRecordIdx(i));
        i += 1;
    }
    out
}

/// Appends the bindings of an `import` statement, and the symbols they
/// declare.
fn push_imported_bindings(
    specifiers: &Vec<ImportSpecifier>,
    owner: ModuleIdx,
    record: ImportRecordIdx,
    named_imports: &mut Vec<NamedImport>,
    declared: &mut Vec<SymbolRef>,
)
    ensures
        final(named_imports)@ == old(named_imports)@ + imported_bindings(
            specifiers@,
            owner,
            record,
            specifiers@.len() as int,
        ),
        final(declared)@ == old(declared)@ + imported_symbols(specifiers@, owner, specifiers@.len() as int),
{
    let ghost imports_before = named_imports@;
    let ghost declared_before = declared@;
    let mut i: usize = 0;
    while i < specifiers.len()
        invariant
            i <= specifiers.len(),
            named_imports@ == imports_before + imported_bindings(specifiers@, owner, record, i as int),
            declared@ == declared_before + imported_symbols(specifiers@, owner, i as int),
        decreases specifiers.len() - i,
    {
        let imported_as = SymbolRef { owner, symbol: specifiers[i].local };
        named_imports.push(NamedImport { imported: specifiers[i].imported.copy(), imported_as, record_id: record });
        declared.push(imported_as);
        i += 1;
    }
}

/// Appends the exports of an `export { .. }` list and the symbols behind
/// them, and an error for each name that resolves to nothing.
fn push_local_exports(
    specifiers: &Vec<ExportSpecifier>,
    owner: ModuleIdx,
    named_exports: &mut Vec<NamedExport>,
    referenced: &mut Vec<SymbolRef>,
    errors: &mut Vec<BuildDiagnostic>,
)
    ensures
        final(named_exports)@ == old(named_exports)@ + local_exports(specifiers@, owner, specifiers@.len() as int),
        final(referenced)@ == old(referenced)@ + local_export_symbols(
            specifiers@,
            owner,
            specifiers@.len() as int,
        ),
        final(errors)@ == old(errors)@ + undefined_exports(specifiers@, specifiers@.len() as int),
{
    let ghost exports_before = named_exports@;
    let ghost referenced_before = referenced@;
    let ghost errors_before = errors@;
    let mut i: usize = 0;
    assert(named_exports@ =~= exports_before + local_exports(specifiers@, owner, 0));
    assert(referenced@ =~= referenced_before + local_export_symbols(specifiers@, owner, 0));
    assert(errors@ =~= errors_before + undefined_exports(specifiers@, 0));
    while i < specifiers.len()
        invariant
            i <= specifiers.len(),
            named_exports@ == exports_before + local_exports(specifiers@, owner, i as int),
            referenced@ == referenced_before + local_export_symbols(specifiers@, owner, i as int),
            errors@ == errors_before + undefined_exports(specifiers@, i as int),
        decreases specifiers.len() - i,
    {
        match specifiers[i].symbol {
            Some(symbol) => {
                let found = SymbolRef { owner, symbol };
                named_exports.push(NamedExport { exported: specifiers[i].exported.copy(), referenced: found });
                referenced.push(found);
                assert(named_exports@ =~= exports_before + local_exports(specifiers@, owner, i + 1));
                assert(referenced@ =~= referenced_before + local_export_symbols(specifiers@, owner, i + 1));
            },
            None => {
                errors.push(BuildDiagnostic::ExportUndefinedVariable { name: specifiers[i].local.clone() });
                assert(errors@ =~= errors_before + undefined_exports(specifiers@, i + 1));
            },
        }
        i += 1;
    }
}

/// Makes up a symbol for each binding of an `export { .. } from` list and
/// appends the import and the export that go through it.
fn push_re_exports(
    specifiers: &Vec<ReExportSpecifier>,
    db: &mut SymbolRefDbForModule,
    record: ImportRecordIdx,
    named_imports: &mut Vec<NamedImport>,
    named_exports: &mut Vec<NamedExport>,
    declared: &mut Vec<SymbolRef>,
)
    ensures
        final(db).owner == old(db).owner,
        holds_facades(
            final(db).symbols@,
            old(db).symbols@,
            re_export_names(specifiers@, specifiers@.len() as int),
        ),
        final(named_imports)@ == old(named_imports)@ + re_exported_imports(
            specifiers@,
            old(db).owner,
            record,
            old(db).symbols@.len() as int,
            specifiers@.len() as int,
        ),
        final(named_exports)@ == old(named_exports)@ + re_exports(
            specifiers@,
            old(db).owner,
            old(db).symbols@.len() as int,
            specifiers@.len() as int,
        ),
        final(declared)@ == old(declared)@ + made_up_symbols(
            old(db).owner,
            old(db).symbols@.len() as int,
            specifiers@.len() as int,
        ),
{
    let ghost table_before = db.symbols@;
    let ghost owner = db.owner;
    let ghost base = db.symbols@.len() as int;
    let ghost imports_before = named_imports@;
    let ghost exports_before = named_exports@;
    let ghost declared_before = declared@;
    let mut i: usize = 0;
    while i < specifiers.len()
        invariant
            i <= specifiers.len(),
            db.owner == owner,
            base == table_before.len(),
            holds_facades(db.symbols@, table_before, re_export_names(specifiers@, i as int)),
            named_imports@ == imports_before + re_exported_imports(specifiers@, owner, record, base, i as int),
            named_exports@ == exports_before + re_exports(specifiers@, owner, base, i as int),
            declared@ == declared_before + made_up_symbols(owner, base, i as int),
        decreases specifiers.len() - i,
    {
        let made_up = db.create_facade_root_symbol_ref(imported_text(&specifiers[i].imported));
        named_imports.push(
            NamedImport { imported: specifiers[i].imported.copy(), imported_as: made_up, record_id: record },
        );
        named_exports.push(NamedExport { exported: specifiers[i].exported.copy(), referenced: made_up });
        declared.push(made_up);
        proof {
            let names = re_export_names(specifiers@, i + 1);
            assert forall|k: int| 0 <= k < names.len() implies is_facade(
                #[trigger] db.symbols@[table_before.len() + k],
                names[k],
            ) by {
                if k < i {
                    assert(re_export_names(specifiers@, i as int)[k] == names[k]);
                }
            }
        }
        i += 1;
    }
}

/// What tree shaking is told of a statement with this body, before anything
/// that the kind of the statement adds.
pub open spec fn body_info_of(body: Body, ctx: ScanContext, next_record: int) -> StmtInfoView {
    body_info(Stmt::Other { body }, ctx, next_record, Seq::empty())
}

/// What is found after the inside of a statement, before anything that the
/// kind of the statement adds.
pub open spec fn body_found(found: Scanned, body: Body, ctx: ScanContext) -> Scanned {
    Scanned { stmt_infos: found.stmt_infos, ..scan_step(found, Stmt::Other { body }, ctx) }
}

/// The scan of one module while it runs.
pub struct AstScanner {
    namespace: SymbolRef,
    known: usize,
    repr_name: String,
    format: ModuleDefFormat,
    has_import: bool,
    has_export: bool,
    result: ScanResult,
}

impl AstScanner {
    /// What the scan was given.
    pub closed spec fn context(&self) -> ScanContext {
        ScanContext {
            owner: self.result.symbol_ref_db.owner,
            symbols: self.result.symbol_ref_db.symbols@.take(self.known as int),
            repr_name: self.repr_name@,
            format: self.format,
        }
    }

    /// The names of the symbols that the scan has made up.
    pub closed spec fn facades(&self) -> Seq<Seq<char>> {
        Seq::new(
            (self.result.symbol_ref_db.symbols@.len() - self.known) as nat,
            |k: int| self.result.symbol_ref_db.symbols@[self.known + k].name@,
        )
    }

    /// What the scan has found so far.
    pub closed spec fn found(&self) -> Scanned {
        Scanned {
            import_records: self.result.import_records@,
            imports: self.result.imports@,
            named_imports: self.result.named_imports@,
            named_exports: self.result.named_exports@,
            stmt_infos: stmt_info_views(self.result.stmt_infos@),
            default_export_ref: self.result.default_export_ref,
            facades: self.facades(),
            errors: self.result.errors@,
            warnings: self.result.warnings@,
            has_eval: self.result.has_eval,
            ast_usage: self.result.ast_usage,
            has_star_exports: self.result.has_star_exports,
            has_import: self.has_import,
            has_export: self.has_export,
            self_referenced: self.result.self_referenced_class_decl_symbol_ids@,
        }
    }

    /// The invariant of a scan: its table holds the symbols of the parser
    /// and behind them only symbols that it made up.
    pub closed spec fn inv(&self) -> bool {
        &&& self.known <= self.result.symbol_ref_db.symbols@.len()
        &&& holds_facades(self.result.symbol_ref_db.symbols@, self.context().symbols, self.facades())
        &&& self.namespace == namespace_ref(self.context())
    }

    /// The symbol that stands for the namespace of the module. It is made up
    /// before the first statement is looked at.
    pub fn namespace_object_ref(&self) -> (r: SymbolRef)
        requires
            self.inv(),
        ensures
            r == namespace_ref(self.context()),
    {
        self.namespace
    }

    /// Begins the scan of the module `idx`. `repr_name` is the identifier
    /// that stands for the file: the symbols that the scan makes up for the
    /// module as a whole are named after it.
    pub fn new(idx: ModuleIdx, symbols: SymbolTable, repr_name: &str, format: ModuleDefFormat) -> (r: AstScanner)
        ensures
            r.inv(),
            r.context() == (ScanContext {
                owner: idx,
                symbols: symbols.symbols@,
                repr_name: repr_name@,
                format,
            }),
            r.found() == scan_start(r.context()),
    {
        let known: usize = symbols.symbols.len();
        let mut db = SymbolRefDbForModule::new(idx, symbols);
        let ghost parsed = db.symbols@;
        let name = String::from_str(repr_name).concat("_exports");
        let namespace_object_ref = db.create_facade_root_symbol_ref(name);
        let r = AstScanner {
            namespace: namespace_object_ref,
            known,
            repr_name: String::from_str(repr_name),
            format,
            has_import: false,
            has_export: false,
            result: ScanResult {
                named_imports: Vec::new(),
                named_exports: Vec::new(),
                stmt_infos: Vec::new(),
                import_records: RawImportRecords::new(),
                imports: Vec::new(),
                default_export_ref: None,
                exports_kind: ExportsKind::Neither,
                warnings: Vec::new(),
                has_eval: false,
                errors: Vec::new(),
                ast_usage: EcmaModuleAstUsage { module_ref: false, exports_ref: false },
                symbol_ref_db: db,
                self_referenced_class_decl_symbol_ids: Vec::new(),
                has_star_exports: false,
            },
        };
        proof {
            assert(r.context().symbols =~= parsed);
            assert(r.facades() =~= seq![namespace_name(repr_name@)]);
            assert(r.found() =~~= scan_start(r.context()));
        }
        r
    }

    /// `import .. from 'request'`
    fn scan_import(&mut self, request: &String, specifiers: &Vec<ImportSpecifier>)
        requires
            old(self).inv(),
        ensures
            final(self).inv(),
            final(self).context() == old(self).context(),
            final(self).found() == scan_step(
                old(self).found(),
                Stmt::Import { request: *request, specifiers: *specifiers },
                old(self).context(),
            ),
    {
        let owner = self.result.symbol_ref_db.owner;
        let record = self.result.import_records.push(
            RawImportRecord { module_request: request.clone(), kind: ImportKind::Import, is_export_star: false },
        );
        let mut declared: Vec<SymbolRef> = Vec::new();
        let mut imports: Vec<NamedImport> = Vec::new();
        push_imported_bindings(specifiers, owner, record, &mut imports, &mut declared);
        assert(imports@ =~= imported_bindings(specifiers@, owner, record, specifiers@.len() as int));
        merge_imports(&mut self.result.named_imports, &imports);
        let mut records: Vec<ImportRecordIdx> = Vec::new();
        records.push(record);
        self.result.stmt_infos.push(
            StmtInfo {
                side_effect: false,
                declared_symbols: declared,
                referenced_symbols: Vec::new(),
                import_records: records,
            },
        );
        self.has_import = true;
        proof {
            let stmt = Stmt::Import { request: *request, specifiers: *specifiers };
            assert(self.facades() =~= old(self).facades());
            assert(self.found() =~~= scan_step(old(self).found(), stmt, old(self).context()));
        }
    }

    /// `export { .. }`
    fn scan_export_named(&mut self, specifiers: &Vec<ExportSpecifier>)
        requires
            old(self).inv(),
        ensures
            final(self).inv(),
            final(self).context() == old(self).context(),
            final(self).found() == scan_step(
                old(self).found(),
                Stmt::ExportNamed { specifiers: *specifiers },
                old(self).context(),
            ),
    {
        let owner = self.result.symbol_ref_db.owner;
        let mut referenced: Vec<SymbolRef> = Vec::new();
        let mut exports: Vec<NamedExport> = Vec::new();
        push_local_exports(specifiers, owner, &mut exports, &mut referenced, &mut self.result.errors);
        assert(exports@ =~= local_exports(specifiers@, owner, specifiers@.len() as int));
        merge_exports(&mut self.result.named_exports, &exports);
        self.result.stmt_infos.push(
            StmtInfo {
                side_effect: false,
                declared_symbols: Vec::new(),
                referenced_symbols: referenced,
                import_records: Vec::new(),
            },
        );
        self.has_export = true;
        proof {
            let stmt = Stmt::ExportNamed { specifiers: *specifiers };
            assert(self.facades() =~= old(self).facades());
            assert(self.found() =~~= scan_step(old(self).found(), stmt, old(self).context()));
        }
    }

    /// `export { .. } from 'request'`
    fn scan_re_export(&mut self, request: &String, specifiers: &Vec<ReExportSpecifier>)
        requires
            old(self).inv(),
        ensures
            final(self).inv(),
            final(self).context() == old(self).context(),
            final(self).found() == scan_step(
                old(self).found(),
                Stmt::ReExport { request: *request, specifiers: *specifiers },
                old(self).context(),
            ),
    {
        let record = self.result.import_records.push(
            RawImportRecord { module_request: request.clone(), kind: ImportKind::Import, is_export_star: false },
        );
        let mut declared: Vec<SymbolRef> = Vec::new();
        let mut imports: Vec<NamedImport> = Vec::new();
        let mut exports: Vec<NamedExport> = Vec::new();
        let ghost next_symbol = self.result.symbol_ref_db.symbols@.len() as int;
        let ghost owner = self.result.symbol_ref_db.owner;
        push_re_exports(specifiers, &mut self.result.symbol_ref_db, record, &mut imports, &mut exports, &mut declared);
        assert(imports@ =~= re_exported_imports(specifiers@, owner, record, next_symbol, specifiers@.len() as int));
        assert(exports@ =~= re_exports(specifiers@, owner, next_symbol, specifiers@.len() as int));
        merge_imports(&mut self.result.named_imports, &imports);
        merge_exports(&mut self.result.named_exports, &exports);
        let mut records: Vec<ImportRecordIdx> = Vec::new();
        records.push(record);
        self.result.stmt_infos.push(
            StmtInfo {
                side_effect: false,
                declared_symbols: declared,
                referenced_symbols: Vec::new(),
                import_records: records,
            },
        );
        self.has_export = true;
        proof {
            let stmt = Stmt::ReExport { request: *request, specifiers: *specifiers };
            let names = re_export_names(specifiers@, specifiers@.len() as int);
            let before = old(self).result.symbol_ref_db.symbols@;
            assert forall|k: int| 0 <= k < names.len() implies self.facades()[old(self).facades().len() + k]
                == names[k] by {
                assert(is_facade(self.result.symbol_ref_db.symbols@[before.len() + k], names[k]));
            }
            assert(self.facades() =~= old(self).facades() + names);
            assert(self.context().symbols =~= old(self).context().symbols);
            assert(self.found() =~~= scan_step(old(self).found(), stmt, old(self).context()));
            assert forall|k: int| 0 <= k < self.facades().len() implies is_facade(
                #[trigger] self.result.symbol_ref_db.symbols@[self.context().symbols.len() + k],
                self.facades()[k],
            ) by {
                if k >= old(self).facades().len() {
                    let j = k - old(self).facades().len();
                    assert(is_facade(self.result.symbol_ref_db.symbols@[before.len() + j], names[j]));
                } else {
                    assert(is_facade(before[old(self).context().symbols.len() + k], old(self).facades()[k]));
                }
            }
        }
    }

    /// Makes up one symbol and keeps the invariant.
    fn make_up(&mut self, name: String) -> (r: SymbolRef)
        requires
            old(self).inv(),
        ensures
            final(self).inv(),
            final(self).context() == old(self).context(),
            final(self).facades() == old(self).facades().push(name@),
            final(self).found() == (Scanned { facades: final(self).facades(), ..old(self).found() }),
            r == (SymbolRef {
                owner: old(self).context().owner,
                symbol: SymbolId((old(self).context().symbols.len() + old(self).facades().len()) as usize),
            }),
    {
        let ghost before = self.result.symbol_ref_db.symbols@;
        let r = self.result.symbol_ref_db.create_facade_root_symbol_ref(name);
        proof {
            assert(self.context().symbols =~= old(self).context().symbols);
            assert(self.facades() =~= old(self).facades().push(name@));
            assert forall|k: int| 0 <= k < self.facades().len() implies is_facade(
                #[trigger] self.result.symbol_ref_db.symbols@[self.context().symbols.len() + k],
                self.facades()[k],
            ) by {
                if k < old(self).facades().len() {
                    assert(is_facade(before[old(self).context().symbols.len() + k], old(self).facades()[k]));
                }
            }
        }
        r
    }

    /// `export * from 'request'`, with or without a name
    fn scan_export_all(&mut self, request: &String, exported: &Option<ExportedName>)
        requires
            old(self).inv(),
        ensures
            final(self).inv(),
            final(self).context() == old(self).context(),
            final(self).found() == scan_step(
                old(self).found(),
                Stmt::ExportAll { request: *request, exported: *exported },
                old(self).context(),
            ),
    {
        let record = self.result.import_records.push(
            RawImportRecord {
                module_request: request.clone(),
                kind: ImportKind::Import,
                is_export_star: exported.is_none(),
            },
        );
        let mut declared: Vec<SymbolRef> = Vec::new();
        match exported {
            Some(name) => {
                let made_up = self.make_up(exported_text(name));
                let mut imports: Vec<NamedImport> = Vec::new();
                imports.push(
                    NamedImport { imported: ImportedName::Namespace, imported_as: made_up, record_id: record },
                );
                let mut exports: Vec<NamedExport> = Vec::new();
                exports.push(NamedExport { exported: name.copy(), referenced: made_up });
                merge_imports(&mut self.result.named_imports, &imports);
                merge_exports(&mut self.result.named_exports, &exports);
                declared.push(made_up);
            },
            None => {
                self.result.has_star_exports = true;
            },
        }
        let mut records: Vec<ImportRecordIdx> = Vec::new();
        records.push(record);
        self.result.stmt_infos.push(
            StmtInfo {
                side_effect: false,
                declared_symbols: declared,
                referenced_symbols: Vec::new(),
                import_records: records,
            },
        );
        self.has_export = true;
        proof {
            let stmt = Stmt::ExportAll { request: *request, exported: *exported };
            assert(self.found() =~~= scan_step(old(self).found(), stmt, old(self).context()));
        }
    }

    /// Scans the inside of a statement and says what tree shaking is told of
    /// it, as far as the body alone decides.
    fn scan_body(&mut self, body: &Body) -> (info: StmtInfo)
        requires
            old(self).inv(),
            body.wf(),
        ensures
            final(self).inv(),
            final(self).context() == old(self).context(),
            final(self).facades() == old(self).facades(),
            final(self).found() == body_found(old(self).found(), *body, old(self).context()),
            info@ == body_info_of(*body, old(self).context(), old(self).found().import_records.len() as int),
    {
        let owner = self.result.symbol_ref_db.owner;
        let next_record: usize = self.result.import_records.len();
        let place: usize = self.result.stmt_infos.len();
        collect_dynamic_records(body, place, &mut self.result.import_records, &mut self.result.imports);
        let records = index_range(next_record, self.result.import_records.len());
        let mut declared: Vec<SymbolRef> = Vec::new();
        collect_declarations(body, &self.result.symbol_ref_db.symbols, self.known, owner, &mut declared);
        let mut referenced: Vec<SymbolRef> = Vec::new();
        collect_references(body, &self.result.symbol_ref_db.symbols, self.known, owner, &mut referenced);
        collect_errors(body, &self.result.symbol_ref_db.symbols, self.known, &mut self.result.errors);
        collect_warnings(body, &mut self.result.warnings);
        let mut classes: Vec<SymbolId> = Vec::new();
        collect_self_referenced_classes(body, &mut classes);
        assert(classes@ =~= self_referenced_classes(body.nodes@, body.nodes@.len() as int));
        merge_symbols(&mut self.result.self_referenced_class_decl_symbol_ids, &classes);
        if body_uses_global(body, "eval") {
            self.result.has_eval = true;
        }
        if body_uses_global(body, "module") {
            self.result.ast_usage.module_ref = true;
        }
        if body_uses_global(body, "exports") {
            self.result.ast_usage.exports_ref = true;
        }
        let side_effect = body_has_side_effect(body);
        let info = StmtInfo {
            side_effect,
            declared_symbols: declared,
            referenced_symbols: referenced,
            import_records: records,
        };
        proof {
            assert(self.facades() =~= old(self).facades());
            assert(self.found() =~~= body_found(old(self).found(), *body, old(self).context()));
            assert(info@ =~~= body_info_of(
                *body,
                old(self).context(),
                old(self).found().import_records.len() as int,
            ));
        }
        info
    }

    /// A statement that is neither an import nor an export.
    fn scan_other(&mut self, body: &Body)
        requires
            old(self).inv(),
            body.wf(),
        ensures
            final(self).inv(),
            final(self).context() == old(self).context(),
            final(self).found() == scan_step(old(self).found(), Stmt::Other { body: *body }, old(self).context()),
    {
        let info = self.scan_body(body);
        self.result.stmt_infos.push(info);
        proof {
            assert(self.facades() =~= old(self).facades());
            assert(self.found() =~~= scan_step(
                old(self).found(),
                Stmt::Other { body: *body },
                old(self).context(),
            ));
        }
    }

    /// `export` in front of a declaration.
    fn scan_export_decl(&mut self, body: &Body)
        requires
            old(self).inv(),
            body.wf(),
        ensures
            final(self).inv(),
            final(self).context() == old(self).context(),
            final(self).found() == scan_step(
                old(self).found(),
                Stmt::ExportDecl { body: *body },
                old(self).context(),
            ),
    {
        let owner = self.result.symbol_ref_db.owner;
        let info = self.scan_body(body);
        let mut exports: Vec<NamedExport> = Vec::new();
        collect_declared_exports(body, &self.result.symbol_ref_db.symbols, self.known, owner, &mut exports);
        assert(exports@ =~= declared_exports(
            body.nodes@,
            old(self).context().symbols,
            owner,
            body.nodes@.len() as int,
        ));
        merge_exports(&mut self.result.named_exports, &exports);
        self.has_export = true;
        self.result.stmt_infos.push(info);
        proof {
            assert(self.facades() =~= old(self).facades());
            assert(self.found() =~~= scan_step(
                old(self).found(),
                Stmt::ExportDecl { body: *body },
                old(self).context(),
            ));
        }
    }

    /// `export default ..`
    fn scan_export_default(&mut self, name: &Option<SymbolId>, body: &Body)
        requires
            old(self).inv(),
            body.wf(),
        ensures
            final(self).inv(),
            final(self).context() == old(self).context(),
            final(self).found() == scan_step(
                old(self).found(),
                Stmt::ExportDefault { name: *name, body: *body },
                old(self).context(),
            ),
    {
        let owner = self.result.symbol_ref_db.owner;
        let mut info = self.scan_body(body);
        let default_ref = match name {
            Some(symbol) => SymbolRef { owner, symbol: *symbol },
            None => {
                let name = String::from_str(self.repr_name.as_str()).concat("_default");
                let made_up = self.make_up(name);
                info.declared_symbols.push(made_up);
                made_up
            },
        };
        let mut exports: Vec<NamedExport> = Vec::new();
        exports.push(NamedExport { exported: ExportedName::Default, referenced: default_ref });
        merge_exports(&mut self.result.named_exports, &exports);
        self.result.default_export_ref = Some(default_ref);
        self.has_export = true;
        self.result.stmt_infos.push(info);
        proof {
            let stmt = Stmt::ExportDefault { name: *name, body: *body };
            let ctx = old(self).context();
            let next_record = old(self).found().import_records.len() as int;
            let next_symbol = (ctx.symbols.len() + old(self).facades().len()) as int;
            assert(self.facades() =~= old(self).facades() + stmt_facades(stmt, ctx.repr_name));
            assert(info@ =~~= stmt_info(stmt, ctx, next_record, next_symbol));
            assert(self.found() =~~= scan_step(old(self).found(), stmt, ctx));
        }
    }

    /// Adds what one statement holds to what was found.
    fn scan_stmt(&mut self, stmt: &Stmt)
        requires
            old(self).inv(),
            stmt.valid_for(old(self).context().symbols.len() as int),
        ensures
            final(self).inv(),
            final(self).context() == old(self).context(),
            final(self).found() == scan_step(old(self).found(), *stmt, old(self).context()),
    {
        match stmt {
            Stmt::Import { request, specifiers } => self.scan_import(request, specifiers),
            Stmt::ExportNamed { specifiers } => self.scan_export_named(specifiers),
            Stmt::ReExport { request, specifiers } => self.scan_re_export(request, specifiers),
            Stmt::ExportAll { request, exported } => self.scan_export_all(request, exported),
            Stmt::ExportDefault { name, body } => self.scan_export_default(name, body),
            Stmt::ExportDecl { body } => self.scan_export_decl(body),
            Stmt::Other { body } => self.scan_other(body),
        }
    }

    /// Scans the statements of a module in source order and hands over what
    /// was found. What is handed over names no record and no symbol that is
    /// not there, and holds no import, export or flagged class twice.
    pub fn scan(self, program: &EcmaAst) -> (r: ScanResult)
        requires
            self.inv(),
            self.found() == scan_start(self.context()),
            program.valid_for(self.context().symbols.len() as int),
        ensures
            r.holds(scanned(program.body@, self.context()), self.context()),
            consistent(scanned(program.body@, self.context()), self.context()),
            without_duplicates(scanned(program.body@, self.context())),
    {
        let ghost ctx = self.context();
        let mut scanner = self;
        let mut i: usize = 0;
        while i < program.body.len()
            invariant
                i <= program.body.len(),
                scanner.inv(),
                scanner.context() == ctx,
                program.valid_for(ctx.symbols.len() as int),
                scanner.found() == scanned_before(program.body@, ctx, i as int),
            decreases program.body.len() - i,
        {
            assert(program.body@[i as int].valid_for(ctx.symbols.len() as int));
            scanner.scan_stmt(&program.body[i]);
            i += 1;
        }
        let uses_commonjs = scanner.result.ast_usage.module_ref || scanner.result.ast_usage.exports_ref;
        let exports_kind = if scanner.has_export {
            ExportsKind::Esm
        } else if uses_commonjs || scanner.format.is_commonjs() {
            ExportsKind::CommonJs
        } else if scanner.format.is_esm() || scanner.has_import {
            ExportsKind::Esm
        } else {
            ExportsKind::Neither
        };
        let records: usize = scanner.result.import_records.len();
        let symbols: usize = scanner.result.symbol_ref_db.symbols.len();
        let infos: usize = scanner.result.stmt_infos.len();
        proof {
            assert(scanner.found().stmt_infos.len() == infos);
            assert(scanner.found().import_records.len() == records);
            assert(ctx.symbols.len() + scanner.found().facades.len() == symbols);
            law_scan_is_consistent(program.body@, ctx, program.body@.len() as int);
            law_scan_has_no_duplicates(program.body@, ctx, program.body@.len() as int);
        }
        let mut result = scanner.result;
        result.exports_kind = exports_kind;
        result
    }
}

} // verus!
