//! The view of a module: what the module graph keeps of one source file, and
//! how it is made from what the parser hands over.
use vstd::prelude::*;

use crate::ast_scanner::holds_facades;
use crate::ast_scanner::AstScanner;
use crate::ast_scanner::ScanResult;
use crate::diagnostic::BuildDiagnostic;
use crate::identifier::legitimize_identifier_name;
use crate::identifier::legitimized;
use crate::import_record::ImportRecords;
use crate::import_record::ImportSite;
use crate::import_record::NamedExport;
use crate::import_record::NamedImport;
use crate::import_record::RawImportRecords;
use crate::module_id::representative_file_name;
use crate::module_id::representative_name;
use crate::module_id::stabilized;
use crate::module_id::ModuleId;
use crate::options::ModuleDefFormat;
use crate::options::ModuleType;
use crate::options::NormalizedBundlerOptions;
use crate::package_json::PackageJson;
use crate::scan_laws::consistent;
use crate::scan_laws::without_duplicates;
use crate::scan_model::exports_kind_of;
use crate::scan_model::namespace_ref;
use crate::scan_model::scanned;
use crate::scan_model::EcmaModuleAstUsage;
use crate::scan_model::ExportsKind;
use crate::scan_model::ScanContext;
use crate::scan_model::Scanned;
use crate::side_effects::determine_side_effects;
use crate::side_effects::determined_side_effects;
use crate::side_effects::DeterminedSideEffects;
use crate::side_effects::HookSideEffects;
use crate::stmt_info::stmt_info_views;
use crate::stmt_info::StmtInfo;
use crate::symbol::bindings_follow;
use crate::symbol::make_ast_scopes_and_symbols;
use crate::symbol::AstScopes;
use crate::symbol::ModuleIdx;
use crate::symbol::ScopeTree;
use crate::symbol::SymbolId;
use crate::symbol::SymbolRef;
use crate::symbol::SymbolRefDbForModule;
use crate::symbol::SymbolTable;
use crate::syntax::EcmaAst;
use crate::view_meta::fresh_bits;
use crate::view_meta::EcmaViewMeta;
use crate::view_meta::EVAL;
use crate::view_meta::HAS_LAZY_EXPORT;
use crate::view_meta::HAS_STAR_EXPORT;
use crate::view_meta::INCLUDED;

verus! {

/// A module after resolution: its id, the format it declares, and the
/// manifest of the package it belongs to.
#[derive(Clone, Debug, PartialEq, Eq)]
pub struct ResolvedId {
    pub id: String,
    pub module_def_format: ModuleDefFormat,
    pub package_json: Option<PackageJson>,
}

/// What the making of a view reads of the build, and where it leaves its
/// warnings.
#[derive(Clone, Debug, PartialEq, Eq)]
pub struct CreateModuleContext {
    pub module_index: ModuleIdx,
    pub resolved_id: ResolvedId,
    pub options: NormalizedBundlerOptions,
    pub module_type: ModuleType,
    pub warnings: Vec<BuildDiagnostic>,
}

/// One source map of the chain that leads from the file to what was parsed.
#[derive(Clone, Debug, PartialEq, Eq)]
pub struct SourceMap {
    pub json: String,
}

/// What comes with the source of a module.
#[derive(Clone, Debug, PartialEq, Eq)]
pub struct CreateModuleViewArgs {
    pub sourcemap_chain: Vec<SourceMap>,
    pub hook_side_effects: Option<HookSideEffects>,
}

/// What the parser hands over.
#[derive(Clone, Debug, PartialEq, Eq)]
pub struct ParseToEcmaAstResult {
    pub ast: EcmaAst,
    pub symbol_table: SymbolTable,
    pub scope_tree: ScopeTree,
    pub has_lazy_export: bool,
    pub warning: Vec<BuildDiagnostic>,
}

/// A change to the syntax tree that a later stage has asked for.
#[derive(Clone, Debug, PartialEq, Eq)]
pub struct AstMutation {
    pub stmt: usize,
}

/// The view of a module.
#[derive(Debug, PartialEq, Eq)]
pub struct EcmaView {
    pub source: String,
    pub ecma_ast_idx: Option<usize>,
    pub named_imports: Vec<NamedImport>,
    pub named_exports: Vec<NamedExport>,
    pub stmt_infos: Vec<StmtInfo>,
    /// Where in the tree each `import(..)` with a record stands.
    pub imports: Vec<ImportSite>,
    pub default_export_ref: Option<SymbolRef>,
    pub scope: AstScopes,
    pub exports_kind: ExportsKind,
    pub namespace_object_ref: SymbolRef,
    pub def_format: ModuleDefFormat,
    pub sourcemap_chain: Vec<SourceMap>,
    /// Filled by the module graph when it has resolved the raw records.
    pub import_records: ImportRecords,
    /// Filled by the module graph.
    pub importers: Vec<ModuleId>,
    /// Filled by the module graph.
    pub dynamic_importers: Vec<ModuleId>,
    /// Filled by the module graph.
    pub imported_ids: Vec<ModuleId>,
    /// Filled by the module graph.
    pub dynamically_imported_ids: Vec<ModuleId>,
    pub side_effects: DeterminedSideEffects,
    pub ast_usage: EcmaModuleAstUsage,
    pub self_referenced_class_decl_symbol_ids: Vec<SymbolId>,
    pub meta: EcmaViewMeta,
    /// Filled by later stages.
    pub mutations: Vec<AstMutation>,
}

/// The view of a module together with what the module graph links it by.
#[derive(Debug, PartialEq, Eq)]
pub struct CreateEcmaViewReturn {
    pub view: EcmaView,
    pub raw_import_records: RawImportRecords,
    pub ast: EcmaAst,
    pub symbols: SymbolRefDbForModule,
}

/// What the scan of a module is given: its place in the graph, the symbols
/// of the parser, the identifier made of its file name, and its format.
pub open spec fn scan_context(
    module_index: ModuleIdx,
    id: Seq<char>,
    symbols: SymbolTable,
    format: ModuleDefFormat,
) -> ScanContext {
    ScanContext {
        owner: module_index,
        symbols: symbols.symbols@,
        repr_name: legitimized(representative_name(id)),
        format,
    }
}

/// Scans a parsed module: adapts the tables of the parser, names the module
/// after its file, and runs the scan. Gives the scopes, what was found, and
/// the symbol that stands for the namespace of the module.
pub fn scan_ast(
    module_index: ModuleIdx,
    id: &str,
    ast: &EcmaAst,
    symbols: SymbolTable,
    scopes: ScopeTree,
    module_def_format: ModuleDefFormat,
) -> (r: (AstScopes, ScanResult, SymbolRef))
    requires
        ast.valid_for(symbols.symbols@.len() as int),
    ensures
        r.0.parents == scopes.parents,
        bindings_follow(r.0.bindings@, symbols.symbols@, symbols.symbols@.len() as int),
        r.1.holds(
            scanned(ast.body@, scan_context(module_index, id@, symbols, module_def_format)),
            scan_context(module_index, id@, symbols, module_def_format),
        ),
        r.2 == namespace_ref(scan_context(module_index, id@, symbols, module_def_format)),
        consistent(
            scanned(ast.body@, scan_context(module_index, id@, symbols, module_def_format)),
            scan_context(module_index, id@, symbols, module_def_format),
        ),
        without_duplicates(scanned(ast.body@, scan_context(module_index, id@, symbols, module_def_format))),
{
    let (symbol_table, ast_scopes) = make_ast_scopes_and_symbols(symbols, scopes);
    let repr_name = representative_file_name(id);
    let repr_name = legitimize_identifier_name(repr_name.as_str());
    let scanner = AstScanner::new(module_index, symbol_table, repr_name.as_str(), module_def_format);
    let namespace_object_ref = scanner.namespace_object_ref();
    let scan_result = scanner.scan(ast);
    (ast_scopes, scan_result, namespace_object_ref)
}

impl EcmaView {
    /// Whether the view holds what was found in the module, the given
    /// verdict, and nothing yet of what later stages fill in.
    pub open spec fn holds(&self, found: Scanned, ctx: ScanContext, has_lazy_export: bool) -> bool {
        &&& self.ecma_ast_idx is None
        &&& self.named_imports@ == found.named_imports
        &&& self.named_exports@ == found.named_exports
        &&& stmt_info_views(self.stmt_infos@) == found.stmt_infos
        &&& self.imports@ == found.imports
        &&& self.default_export_ref == found.default_export_ref
        &&& self.exports_kind == exports_kind_of(found, ctx.format)
        &&& self.namespace_object_ref == namespace_ref(ctx)
        &&& self.def_format == ctx.format
        &&& self.import_records@.len() == 0
        &&& self.importers@.len() == 0
        &&& self.dynamic_importers@.len() == 0
        &&& self.imported_ids@.len() == 0
        &&& self.dynamically_imported_ids@.len() == 0
        &&& self.ast_usage == found.ast_usage
        &&& self.self_referenced_class_decl_symbol_ids@ == found.self_referenced
        &&& self.meta.bits() == fresh_bits(found.has_eval, has_lazy_export, found.has_star_exports)
        &&& !self.meta.has(INCLUDED)
        &&& self.meta.has(EVAL) == found.has_eval
        &&& self.meta.has(HAS_LAZY_EXPORT) == has_lazy_export
        &&& self.meta.has(HAS_STAR_EXPORT) == found.has_star_exports
        &&& self.mutations@.len() == 0
    }
}

/// The verdict on the side effects of a module, given what its scan found.
pub open spec fn module_side_effects(
    ctx: CreateModuleContext,
    hook: Option<HookSideEffects>,
    found: Scanned,
) -> DeterminedSideEffects {
    determined_side_effects(
        ctx.options.treeshake,
        ctx.module_type,
        hook,
        stabilized(ctx.resolved_id.id@, ctx.options.cwd@),
        ctx.resolved_id.package_json,
        ctx.resolved_id.id@,
        found.stmt_infos,
    )
}

/// Makes the view of a module from what the parser handed over.
///
/// A module whose scan finds an error gets no view: the errors come back as
/// they were found. The warnings of the parser, and after a scan without
/// errors those of the scan, are added to the warnings of the context;
/// nothing else of the context changes.
pub fn create_ecma_view(
    ctx: &mut CreateModuleContext,
    args: CreateModuleViewArgs,
    parsed: ParseToEcmaAstResult,
) -> (r: Result<CreateEcmaViewReturn, Vec<BuildDiagnostic>>)
    requires
        parsed.ast.valid_for(parsed.symbol_table.symbols@.len() as int),
    ensures
        final(ctx).module_index == old(ctx).module_index,
        final(ctx).resolved_id == old(ctx).resolved_id,
        final(ctx).options == old(ctx).options,
        final(ctx).module_type == old(ctx).module_type,
        ({
            let scan_ctx = scan_context(
                old(ctx).module_index,
                old(ctx).resolved_id.id@,
                parsed.symbol_table,
                old(ctx).resolved_id.module_def_format,
            );
            let found = scanned(parsed.ast.body@, scan_ctx);
            match r {
                Err(errors) => {
                    &&& found.errors.len() > 0
                    &&& errors@ == found.errors
                    &&& final(ctx).warnings@ == old(ctx).warnings@ + parsed.warning@
                },
                Ok(made) => {
                    &&& found.errors.len() == 0
                    &&& consistent(found, scan_ctx)
                    &&& without_duplicates(found)
                    &&& final(ctx).warnings@ == old(ctx).warnings@ + parsed.warning@ + found.warnings
                    &&& made.view.holds(found, scan_ctx, parsed.has_lazy_export)
                    &&& made.view.source == parsed.ast.source
                    &&& made.view.sourcemap_chain == args.sourcemap_chain
                    &&& made.view.scope.parents == parsed.scope_tree.parents
                    &&& bindings_follow(
                        made.view.scope.bindings@,
                        parsed.symbol_table.symbols@,
                        parsed.symbol_table.symbols@.len() as int,
                    )
                    &&& made.view.side_effects == module_side_effects(*old(ctx), args.hook_side_effects, found)
                    &&& made.raw_import_records@ == found.import_records
                    &&& made.ast == parsed.ast
                    &&& made.symbols.owner == old(ctx).module_index
                    &&& holds_facades(made.symbols.symbols@, parsed.symbol_table.symbols@, found.facades)
                },
            }
        }),
{
    let id = ModuleId::new(ctx.resolved_id.id.clone());
    let stable_id = id.stabilize(ctx.options.cwd.as_str());

    let ParseToEcmaAstResult { ast, symbol_table, scope_tree, has_lazy_export, warning } = parsed;
    let mut warning = warning;
    ctx.warnings.append(&mut warning);

    let (scope, scan_result, namespace_object_ref) = scan_ast(
        ctx.module_index,
        ctx.resolved_id.id.as_str(),
        &ast,
        symbol_table,
        scope_tree,
        ctx.resolved_id.module_def_format,
    );

    let ScanResult {
        named_imports,
        named_exports,
        stmt_infos,
        import_records,
        imports,
        default_export_ref,
        exports_kind,
        warnings: scan_warnings,
        has_eval,
        errors,
        ast_usage,
        symbol_ref_db,
        self_referenced_class_decl_symbol_ids,
        has_star_exports,
    } = scan_result;
    if errors.len() > 0 {
        return Err(errors);
    }
    let mut scan_warnings = scan_warnings;
    ctx.warnings.append(&mut scan_warnings);

    let side_effects = determine_side_effects(
        &ctx.options.treeshake,
        &ctx.module_type,
        args.hook_side_effects,
        stable_id.as_str(),
        &ctx.resolved_id.package_json,
        ctx.resolved_id.id.as_str(),
        &stmt_infos,
    );

    let mut meta = EcmaViewMeta::default();
    meta.set_included(false);
    meta.set_eval(has_eval);
    meta.set_has_lazy_export(has_lazy_export);
    meta.set_has_star_exports(has_star_exports);

    let view = EcmaView {
        source: ast.source.clone(),
        ecma_ast_idx: None,
        named_imports,
        named_exports,
        stmt_infos,
        imports,
        default_export_ref,
        scope,
        exports_kind,
        namespace_object_ref,
        def_format: ctx.resolved_id.module_def_format,
        sourcemap_chain: args.sourcemap_chain,
        import_records: ImportRecords::new(),
        importers: Vec::new(),
        dynamic_importers: Vec::new(),
        imported_ids: Vec::new(),
        dynamically_imported_ids: Vec::new(),
        side_effects,
        ast_usage,
        self_referenced_class_decl_symbol_ids,
        meta,
        mutations: Vec::new(),
    };

    Ok(CreateEcmaViewReturn { view, raw_import_records: import_records, ast, symbols: symbol_ref_db })
}

} // verus!
