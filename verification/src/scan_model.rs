//! What the scan of a module yields, said statement by statement.
//!
//! The scan goes through the statements in source order. Each statement adds
//! to what was found so far; only two things of the past enter what it adds:
//! how many import records there are, and how many symbols were made up,
//! since a new record and a new symbol take the next free place.
use vstd::prelude::*;

use crate::body_scan::declarations;
use crate::body_scan::declared_exports;
use crate::body_scan::dynamic_records;
use crate::body_scan::errors;
use crate::body_scan::has_side_effect;
use crate::body_scan::import_sites;
use crate::body_scan::references;
use crate::body_scan::self_referenced_classes;
use crate::body_scan::uses_global;
use crate::body_scan::warnings;
use crate::diagnostic::BuildDiagnostic;
use crate::import_record::record_range;
use crate::import_record::static_record;
use crate::import_record::ImportSite;
use crate::import_record::NamedExport;
use crate::import_record::NamedImport;
use crate::import_record::RawImportRecord;
use crate::options::ModuleDefFormat;
use crate::stmt_info::StmtInfoView;
use crate::symbol::ImportRecordIdx;
use crate::symbol::ModuleIdx;
use crate::symbol::SymbolData;
use crate::symbol::SymbolId;
use crate::symbol::SymbolRef;
use crate::syntax::ExportSpecifier;
use crate::syntax::ExportedName;
use crate::syntax::ImportSpecifier;
use crate::syntax::ImportedName;
use crate::syntax::ReExportSpecifier;
use crate::syntax::Stmt;

verus! {

/// How a module offers its exports.
#[derive(Clone, Copy, Debug, PartialEq, Eq, Structural)]
pub enum ExportsKind {
    /// With `export`.
    Esm,
    /// Through `module.exports` or `exports`.
    CommonJs,
    /// It is not known to offer any.
    Neither,
}

/// Which constructs a module uses, as far as later passes ask.
#[derive(Clone, Copy, Debug, PartialEq, Eq, Structural)]
pub struct EcmaModuleAstUsage {
    /// The global `module` is read.
    pub module_ref: bool,
    /// The global `exports` is read.
    pub exports_ref: bool,
}

/// What a scan is given besides the statements.
pub struct ScanContext {
    /// The module that is scanned.
    pub owner: ModuleIdx,
    /// The symbols that the parser found.
    pub symbols: Seq<SymbolData>,
    /// The legal identifier that stands for the file.
    pub repr_name: Seq<char>,
    pub format: ModuleDefFormat,
}

/// What a scan has found after some of the statements.
#[verifier::ext_equal]
pub struct Scanned {
    pub import_records: Seq<RawImportRecord>,
    /// Where in the tree each `import(..)` with a record stands, in source
    /// order: a mapping from the place to the record.
    pub imports: Seq<ImportSite>,
    pub named_imports: Seq<NamedImport>,
    pub named_exports: Seq<NamedExport>,
    pub stmt_infos: Seq<StmtInfoView>,
    pub default_export_ref: Option<SymbolRef>,
    /// The names of the symbols that were made up, in the order of their ids:
    /// the first follows the last symbol of the parser.
    pub facades: Seq<Seq<char>>,
    pub errors: Seq<BuildDiagnostic>,
    pub warnings: Seq<BuildDiagnostic>,
    pub has_eval: bool,
    pub ast_usage: EcmaModuleAstUsage,
    pub has_star_exports: bool,
    pub has_import: bool,
    pub has_export: bool,
    pub self_referenced: Seq<SymbolId>,
}

/// The name of the symbol that stands for the namespace of the module.
pub open spec fn namespace_name(repr_name: Seq<char>) -> Seq<char> {
    repr_name + "_exports"@
}

/// The name of the symbol that stands for a default export without a name.
pub open spec fn default_name(repr_name: Seq<char>) -> Seq<char> {
    repr_name + "_default"@
}

/// The symbol that stands for the namespace of the module: the first that is
/// made up, whether or not anything imports the namespace.
pub open spec fn namespace_ref(ctx: ScanContext) -> SymbolRef {
    SymbolRef { owner: ctx.owner, symbol: SymbolId(ctx.symbols.len() as usize) }
}

/// What is found before the first statement.
pub open spec fn scan_start(ctx: ScanContext) -> Scanned {
    Scanned {
        import_records: Seq::empty(),
        imports: Seq::empty(),
        named_imports: Seq::empty(),
        named_exports: Seq::empty(),
        stmt_infos: Seq::empty(),
        default_export_ref: None,
        facades: seq![namespace_name(ctx.repr_name)],
        errors: Seq::empty(),
        warnings: Seq::empty(),
        has_eval: false,
        ast_usage: EcmaModuleAstUsage { module_ref: false, exports_ref: false },
        has_star_exports: false,
        has_import: false,
        has_export: false,
        self_referenced: Seq::empty(),
    }
}

/// The import records that a statement gives rise to: one for a statement
/// that names another module, and one for each `import(..)` of a string
/// literal inside any other.
pub open spec fn stmt_records(stmt: Stmt) -> Seq<RawImportRecord> {
    match stmt {
        Stmt::Import { request, .. } => seq![static_record(request, false)],
        Stmt::ExportNamed { .. } => Seq::empty(),
        Stmt::ReExport { request, .. } => seq![static_record(request, false)],
        Stmt::ExportAll { request, exported } => seq![static_record(request, exported is None)],
        Stmt::ExportDefault { body, .. } => dynamic_records(body.nodes@, body.nodes@.len() as int),
        Stmt::ExportDecl { body } => dynamic_records(body.nodes@, body.nodes@.len() as int),
        Stmt::Other { body } => dynamic_records(body.nodes@, body.nodes@.len() as int),
    }
}

/// The names of the first `n` re-exported bindings, as the module they come
/// from calls them.
pub open spec fn re_export_names(specifiers: Seq<ReExportSpecifier>, n: int) -> Seq<Seq<char>> {
    Seq::new(n as nat, |i: int| specifiers[i].imported.text())
}

/// The names of the symbols that a statement makes up: one for each binding
/// that it passes on from another module, and one for a default export
/// without a name.
pub open spec fn stmt_facades(stmt: Stmt, repr_name: Seq<char>) -> Seq<Seq<char>> {
    match stmt {
        Stmt::ReExport { specifiers, .. } => re_export_names(specifiers@, specifiers@.len() as int),
        Stmt::ExportAll { exported: Some(name), .. } => seq![name.text()],
        Stmt::ExportDefault { name: None, .. } => seq![default_name(repr_name)],
        _ => Seq::empty(),
    }
}

/// The first `n` bindings of an `import` statement.
pub open spec fn imported_bindings(
    specifiers: Seq<ImportSpecifier>,
    owner: ModuleIdx,
    record: ImportRecordIdx,
    n: int,
) -> Seq<NamedImport> {
    Seq::new(
        n as nat,
        |i: int|
            NamedImport {
                imported: specifiers[i].imported,
                imported_as: SymbolRef { owner, symbol: specifiers[i].local },
                record_id: record,
            },
    )
}

/// The imports behind the first `n` bindings that a statement passes on:
/// each is taken in under a symbol made up for it.
pub open spec fn re_exported_imports(
    specifiers: Seq<ReExportSpecifier>,
    owner: ModuleIdx,
    record: ImportRecordIdx,
    next_symbol: int,
    n: int,
) -> Seq<NamedImport> {
    Seq::new(
        n as nat,
        |i: int|
            NamedImport {
                imported: specifiers[i].imported,
                imported_as: SymbolRef { owner, symbol: SymbolId((next_symbol + i) as usize) },
                record_id: record,
            },
    )
}

/// The named imports that a statement adds. `next_record` is the place of
/// its record, `next_symbol` the id of the first symbol it makes up.
pub open spec fn stmt_named_imports(stmt: Stmt, owner: ModuleIdx, next_record: int, next_symbol: int) -> Seq<
    NamedImport,
> {
    let record = ImportRecordIdx(next_record as usize);
    match stmt {
        Stmt::Import { specifiers, .. } => imported_bindings(specifiers@, owner, record, specifiers@.len() as int),
        Stmt::ReExport { specifiers, .. } => re_exported_imports(
            specifiers@,
            owner,
            record,
            next_symbol,
            specifiers@.len() as int,
        ),
        Stmt::ExportAll { exported: Some(_), .. } => seq![
            NamedImport {
                imported: ImportedName::Namespace,
                imported_as: SymbolRef { owner, symbol: SymbolId(next_symbol as usize) },
                record_id: record,
            },
        ],
        _ => Seq::empty(),
    }
}

/// The exports among the first `n` names of an `export { .. }` list: those
/// that resolve to a declaration.
pub open spec fn local_exports(specifiers: Seq<ExportSpecifier>, owner: ModuleIdx, n: int) -> Seq<NamedExport>
    decreases n,
{
    if n <= 0 {
        Seq::empty()
    } else {
        match specifiers[n - 1].symbol {
            Some(symbol) => local_exports(specifiers, owner, n - 1).push(
                NamedExport { exported: specifiers[n - 1].exported, referenced: SymbolRef { owner, symbol } },
            ),
            None => local_exports(specifiers, owner, n - 1),
        }
    }
}

/// The symbols behind [`local_exports`].
pub open spec fn local_export_symbols(specifiers: Seq<ExportSpecifier>, owner: ModuleIdx, n: int) -> Seq<SymbolRef>
    decreases n,
{
    if n <= 0 {
        Seq::empty()
    } else {
        match specifiers[n - 1].symbol {
            Some(symbol) => local_export_symbols(specifiers, owner, n - 1).push(SymbolRef { owner, symbol }),
            None => local_export_symbols(specifiers, owner, n - 1),
        }
    }
}

/// The errors among the first `n` names of an `export { .. }` list: those
/// that resolve to nothing.
pub open spec fn undefined_exports(specifiers: Seq<ExportSpecifier>, n: int) -> Seq<BuildDiagnostic>
    decreases n,
{
    if n <= 0 {
        Seq::empty()
    } else {
        match specifiers[n - 1].symbol {
            Some(_) => undefined_exports(specifiers, n - 1),
            None => undefined_exports(specifiers, n - 1).push(
                BuildDiagnostic::ExportUndefinedVariable { name: specifiers[n - 1].local },
            ),
        }
    }
}

/// The exports of the first `n` bindings that a statement passes on.
pub open spec fn re_exports(specifiers: Seq<ReExportSpecifier>, owner: ModuleIdx, next_symbol: int, n: int) -> Seq<
    NamedExport,
> {
    Seq::new(
        n as nat,
        |i: int|
            NamedExport {
                exported: specifiers[i].exported,
                referenced: SymbolRef { owner, symbol: SymbolId((next_symbol + i) as usize) },
            },
    )
}

/// The symbols made up for the first `n` bindings that a statement passes on.
pub open spec fn made_up_symbols(owner: ModuleIdx, next_symbol: int, n: int) -> Seq<SymbolRef> {
    Seq::new(n as nat, |i: int| SymbolRef { owner, symbol: SymbolId((next_symbol + i) as usize) })
}

/// The symbols that the first `n` bindings of an `import` statement declare.
pub open spec fn imported_symbols(specifiers: Seq<ImportSpecifier>, owner: ModuleIdx, n: int) -> Seq<SymbolRef> {
    Seq::new(n as nat, |i: int| SymbolRef { owner, symbol: specifiers[i].local })
}

/// The symbol behind a default export: the function or class of that name,
/// or a symbol made up for it.
pub open spec fn default_ref(name: Option<SymbolId>, owner: ModuleIdx, next_symbol: int) -> SymbolRef {
    match name {
        Some(symbol) => SymbolRef { owner, symbol },
        None => SymbolRef { owner, symbol: SymbolId(next_symbol as usize) },
    }
}

/// The named exports that a statement adds.
pub open spec fn stmt_named_exports(stmt: Stmt, ctx: ScanContext, next_symbol: int) -> Seq<NamedExport> {
    match stmt {
        Stmt::ExportNamed { specifiers } => local_exports(specifiers@, ctx.owner, specifiers@.len() as int),
        Stmt::ReExport { specifiers, .. } => re_exports(
            specifiers@,
            ctx.owner,
            next_symbol,
            specifiers@.len() as int,
        ),
        Stmt::ExportAll { exported: Some(name), .. } => seq![
            NamedExport {
                exported: name,
                referenced: SymbolRef { owner: ctx.owner, symbol: SymbolId(next_symbol as usize) },
            },
        ],
        Stmt::ExportDefault { name, .. } => seq![
            NamedExport { exported: ExportedName::Default, referenced: default_ref(name, ctx.owner, next_symbol) },
        ],
        Stmt::ExportDecl { body } => declared_exports(
            body.nodes@,
            ctx.symbols,
            ctx.owner,
            body.nodes@.len() as int,
        ),
        _ => Seq::empty(),
    }
}

/// The errors that a statement is found to hold.
pub open spec fn stmt_errors(stmt: Stmt, symbols: Seq<SymbolData>) -> Seq<BuildDiagnostic> {
    match stmt {
        Stmt::ExportNamed { specifiers } => undefined_exports(specifiers@, specifiers@.len() as int),
        Stmt::ExportDefault { body, .. } => errors(body.nodes@, symbols, body.nodes@.len() as int),
        Stmt::ExportDecl { body } => errors(body.nodes@, symbols, body.nodes@.len() as int),
        Stmt::Other { body } => errors(body.nodes@, symbols, body.nodes@.len() as int),
        _ => Seq::empty(),
    }
}

/// The warnings that a statement earns.
pub open spec fn stmt_warnings(stmt: Stmt) -> Seq<BuildDiagnostic> {
    match stmt.body() {
        Some(body) => warnings(body.nodes@, body.nodes@.len() as int),
        None => Seq::empty(),
    }
}

/// Whether a statement reads the global `name`.
pub open spec fn stmt_uses_global(stmt: Stmt, name: Seq<char>) -> bool {
    match stmt.body() {
        Some(body) => uses_global(body.nodes@, name, body.nodes@.len() as int),
        None => false,
    }
}

/// The classes in a statement that refer to themselves.
pub open spec fn stmt_self_referenced(stmt: Stmt) -> Seq<SymbolId> {
    match stmt.body() {
        Some(body) => self_referenced_classes(body.nodes@, body.nodes@.len() as int),
        None => Seq::empty(),
    }
}

/// What tree shaking is told of a statement with a body.
pub open spec fn body_info(stmt: Stmt, ctx: ScanContext, next_record: int, made_up: Seq<SymbolRef>) -> StmtInfoView {
    let nodes = stmt.body()->0.nodes@;
    let n = nodes.len() as int;
    StmtInfoView {
        side_effect: has_side_effect(nodes),
        declared_symbols: declarations(nodes, ctx.symbols, ctx.owner, n) + made_up,
        referenced_symbols: references(nodes, ctx.symbols, ctx.owner, n),
        import_records: record_range(next_record, dynamic_records(nodes, n).len() as int),
    }
}

/// What tree shaking is told of a statement. A statement that only names
/// another module, or only lists exports, does nothing by itself.
pub open spec fn stmt_info(stmt: Stmt, ctx: ScanContext, next_record: int, next_symbol: int) -> StmtInfoView {
    let record = ImportRecordIdx(next_record as usize);
    match stmt {
        Stmt::Import { specifiers, .. } => StmtInfoView {
            side_effect: false,
            declared_symbols: imported_symbols(specifiers@, ctx.owner, specifiers@.len() as int),
            referenced_symbols: Seq::empty(),
            import_records: seq![record],
        },
        Stmt::ExportNamed { specifiers } => StmtInfoView {
            side_effect: false,
            declared_symbols: Seq::empty(),
            referenced_symbols: local_export_symbols(specifiers@, ctx.owner, specifiers@.len() as int),
            import_records: Seq::empty(),
        },
        Stmt::ReExport { specifiers, .. } => StmtInfoView {
            side_effect: false,
            declared_symbols: made_up_symbols(ctx.owner, next_symbol, specifiers@.len() as int),
            referenced_symbols: Seq::empty(),
            import_records: seq![record],
        },
        Stmt::ExportAll { exported, .. } => StmtInfoView {
            side_effect: false,
            declared_symbols: made_up_symbols(ctx.owner, next_symbol, if exported is Some { 1 } else { 0 }),
            referenced_symbols: Seq::empty(),
            import_records: seq![record],
        },
        Stmt::ExportDefault { name, .. } => body_info(
            stmt,
            ctx,
            next_record,
            made_up_symbols(ctx.owner, next_symbol, if name is None { 1 } else { 0 }),
        ),
        Stmt::ExportDecl { .. } => body_info(stmt, ctx, next_record, Seq::empty()),
        Stmt::Other { .. } => body_info(stmt, ctx, next_record, Seq::empty()),
    }
}

/// Whether a statement is an `import`.
pub open spec fn is_import_syntax(stmt: Stmt) -> bool {
    stmt is Import
}

/// Whether a statement begins with `export`.
pub open spec fn is_export_syntax(stmt: Stmt) -> bool {
    stmt is ExportNamed || stmt is ReExport || stmt is ExportAll || stmt is ExportDefault || stmt is ExportDecl
}

/// The places in a statement at which an `import(..)` gives rise to a
/// record. `stmt` is the place of the statement in the module.
pub open spec fn stmt_import_sites(stmt: Stmt, place: int, next_record: int) -> Seq<ImportSite> {
    match stmt.body() {
        Some(body) => import_sites(body.nodes@, place, next_record, body.nodes@.len() as int),
        None => Seq::empty(),
    }
}

/// Whether a list of imports has one under the symbol `symbol`.
pub open spec fn imports_hold(list: Seq<NamedImport>, symbol: SymbolRef) -> bool {
    exists|i: int| 0 <= i < list.len() && (#[trigger] list[i]).imported_as == symbol
}

/// `list` with the first `n` of `fresh` added in their order. The imports
/// are a mapping from the symbol that stands for what is imported: an
/// import under a symbol that the list has already is left out.
pub open spec fn with_imports(list: Seq<NamedImport>, fresh: Seq<NamedImport>, n: int) -> Seq<NamedImport>
    decreases n,
{
    if n <= 0 {
        list
    } else {
        let before = with_imports(list, fresh, n - 1);
        if imports_hold(before, fresh[n - 1].imported_as) {
            before
        } else {
            before.push(fresh[n - 1])
        }
    }
}

/// Whether a list of exports has one under the name `name`.
pub open spec fn exports_hold(list: Seq<NamedExport>, name: Seq<char>) -> bool {
    exists|i: int| 0 <= i < list.len() && (#[trigger] list[i]).exported.text() == name
}

/// `list` with the first `n` of `fresh` added in their order. The exports
/// are a mapping from the exported name: an export under a name that the
/// list has already is left out.
pub open spec fn with_exports(list: Seq<NamedExport>, fresh: Seq<NamedExport>, n: int) -> Seq<NamedExport>
    decreases n,
{
    if n <= 0 {
        list
    } else {
        let before = with_exports(list, fresh, n - 1);
        if exports_hold(before, fresh[n - 1].exported.text()) {
            before
        } else {
            before.push(fresh[n - 1])
        }
    }
}

/// `list` with the first `n` of `fresh` added in their order. The symbols
/// are a set: one that the list has already is left out.
pub open spec fn with_symbols(list: Seq<SymbolId>, fresh: Seq<SymbolId>, n: int) -> Seq<SymbolId>
    decreases n,
{
    if n <= 0 {
        list
    } else {
        let before = with_symbols(list, fresh, n - 1);
        if before.contains(fresh[n - 1]) {
            before
        } else {
            before.push(fresh[n - 1])
        }
    }
}

/// What is found after one more statement.
pub open spec fn scan_step(found: Scanned, stmt: Stmt, ctx: ScanContext) -> Scanned {
    let next_record = found.import_records.len() as int;
    let next_symbol = (ctx.symbols.len() + found.facades.len()) as int;
    Scanned {
        import_records: found.import_records + stmt_records(stmt),
        imports: found.imports + stmt_import_sites(stmt, found.stmt_infos.len() as int, next_record),
        named_imports: with_imports(
            found.named_imports,
            stmt_named_imports(stmt, ctx.owner, next_record, next_symbol),
            stmt_named_imports(stmt, ctx.owner, next_record, next_symbol).len() as int,
        ),
        named_exports: with_exports(
            found.named_exports,
            stmt_named_exports(stmt, ctx, next_symbol),
            stmt_named_exports(stmt, ctx, next_symbol).len() as int,
        ),
        stmt_infos: found.stmt_infos.push(stmt_info(stmt, ctx, next_record, next_symbol)),
        default_export_ref: match stmt {
            Stmt::ExportDefault { name, .. } => Some(default_ref(name, ctx.owner, next_symbol)),
            _ => found.default_export_ref,
        },
        facades: found.facades + stmt_facades(stmt, ctx.repr_name),
        errors: found.errors + stmt_errors(stmt, ctx.symbols),
        warnings: found.warnings + stmt_warnings(stmt),
        has_eval: found.has_eval || stmt_uses_global(stmt, "eval"@),
        ast_usage: EcmaModuleAstUsage {
            module_ref: found.ast_usage.module_ref || stmt_uses_global(stmt, "module"@),
            exports_ref: found.ast_usage.exports_ref || stmt_uses_global(stmt, "exports"@),
        },
        has_star_exports: found.has_star_exports || stmt matches Stmt::ExportAll { exported: None, .. },
        has_import: found.has_import || is_import_syntax(stmt),
        has_export: found.has_export || is_export_syntax(stmt),
        self_referenced: with_symbols(
            found.self_referenced,
            stmt_self_referenced(stmt),
            stmt_self_referenced(stmt).len() as int,
        ),
    }
}

/// What is found after the first `n` statements.
pub open spec fn scanned_before(stmts: Seq<Stmt>, ctx: ScanContext, n: int) -> Scanned
    decreases n,
{
    if n <= 0 {
        scan_start(ctx)
    } else {
        scan_step(scanned_before(stmts, ctx, n - 1), stmts[n - 1], ctx)
    }
}

/// What the scan of a module finds.
pub open spec fn scanned(stmts: Seq<Stmt>, ctx: ScanContext) -> Scanned {
    scanned_before(stmts, ctx, stmts.len() as int)
}

/// How a module offers its exports: with `export` where it has one; else
/// through `module` or `exports` where it reads one of them; else as its
/// format declares, and a module of unknown format that imports is taken to
/// be an ES module.
pub open spec fn exports_kind_of(found: Scanned, format: ModuleDefFormat) -> ExportsKind {
    if found.has_export {
        ExportsKind::Esm
    } else if found.ast_usage.module_ref || found.ast_usage.exports_ref {
        ExportsKind::CommonJs
    } else if format.spec_is_commonjs() {
        ExportsKind::CommonJs
    } else if format.spec_is_esm() || found.has_import {
        ExportsKind::Esm
    } else {
        ExportsKind::Neither
    }
}

} // verus!
