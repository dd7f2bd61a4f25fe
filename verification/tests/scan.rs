use ecma_module_view::ast_scanner::merge_exports;
use ecma_module_view::ast_scanner::merge_imports;
use ecma_module_view::ast_scanner::merge_symbols;
use ecma_module_view::ast_scanner::same_exported_name;
use ecma_module_view::ast_scanner::AstScanner;
use ecma_module_view::ast_scanner::ScanResult;
use ecma_module_view::body_scan::body_has_side_effect;
use ecma_module_view::body_scan::body_uses_global;
use ecma_module_view::diagnostic::BuildDiagnostic;
use ecma_module_view::import_record::ImportKind;
use ecma_module_view::import_record::ImportSite;
use ecma_module_view::import_record::NodeSite;
use ecma_module_view::import_record::NamedExport;
use ecma_module_view::import_record::NamedImport;
use ecma_module_view::import_record::RawImportRecord;
use ecma_module_view::options::ModuleDefFormat;
use ecma_module_view::scan_model::EcmaModuleAstUsage;
use ecma_module_view::scan_model::ExportsKind;
use ecma_module_view::symbol::make_ast_scopes_and_symbols;
use ecma_module_view::symbol::ImportRecordIdx;
use ecma_module_view::symbol::ModuleIdx;
use ecma_module_view::symbol::ScopeId;
use ecma_module_view::symbol::ScopeTree;
use ecma_module_view::symbol::SymbolData;
use ecma_module_view::symbol::SymbolFlags;
use ecma_module_view::symbol::SymbolId;
use ecma_module_view::symbol::SymbolRef;
use ecma_module_view::symbol::SymbolTable;
use ecma_module_view::syntax::Body;
use ecma_module_view::syntax::EcmaAst;
use ecma_module_view::syntax::ExportSpecifier;
use ecma_module_view::syntax::ExportedName;
use ecma_module_view::syntax::ImportSpecifier;
use ecma_module_view::syntax::ImportedName;
use ecma_module_view::syntax::Node;
use ecma_module_view::syntax::NodeKind;
use ecma_module_view::syntax::ReExportSpecifier;
use ecma_module_view::syntax::Stmt;
use ecma_module_view::view::scan_ast;

const OWNER: ModuleIdx = ModuleIdx(7);

fn sym(name: &str, scope: usize, is_const: bool, is_import: bool) -> SymbolData {
    SymbolData { name: name.to_string(), scope: ScopeId(scope), flags: SymbolFlags { is_const, is_import } }
}

fn var(name: &str) -> SymbolData {
    sym(name, 0, false, false)
}

fn table(symbols: Vec<SymbolData>) -> SymbolTable {
    SymbolTable { symbols }
}

fn at(symbol: usize) -> SymbolRef {
    SymbolRef { owner: OWNER, symbol: SymbolId(symbol) }
}

fn leaf(kind: NodeKind) -> Body {
    Body::leaf(kind)
}

fn node(kind: NodeKind, children: Vec<Body>) -> Body {
    let mut below = Body::empty();
    for child in children {
        below = below.followed_by(child);
    }
    Body::node(kind, below)
}

fn read(name: &str, symbol: usize) -> Body {
    leaf(NodeKind::Reference { name: name.to_string(), symbol: Some(SymbolId(symbol)) })
}

fn global(name: &str) -> Body {
    leaf(NodeKind::Reference { name: name.to_string(), symbol: None })
}

fn lit() -> Body {
    leaf(NodeKind::Literal)
}

fn bind(symbol: usize) -> Body {
    leaf(NodeKind::Binding { symbol: SymbolId(symbol) })
}

/// `const name = init`
fn declare(symbol: usize, init: Body) -> Body {
    node(NodeKind::Variables, vec![bind(symbol), init])
}

fn import_of(request: &str) -> Body {
    node(NodeKind::DynamicImport { request: Some(request.to_string()) }, vec![lit()])
}

fn expression(inner: Body) -> Body {
    node(NodeKind::Expression, vec![inner])
}

fn other(body: Body) -> Stmt {
    Stmt::Other { body }
}

fn named(name: &str) -> ImportedName {
    ImportedName::Named(name.to_string())
}

fn exported(name: &str) -> ExportedName {
    ExportedName::Named(name.to_string())
}

fn scan(symbols: Vec<SymbolData>, body: Vec<Stmt>) -> ScanResult {
    scan_with("/project/src/entry.js", ModuleDefFormat::Unknown, symbols, body)
}

fn scan_with(id: &str, format: ModuleDefFormat, symbols: Vec<SymbolData>, body: Vec<Stmt>) -> ScanResult {
    let ast = EcmaAst { source: String::new(), body };
    assert!(ast.is_valid_for(symbols.len()));
    let (_, result, _) = scan_ast(OWNER, id, &ast, table(symbols), ScopeTree { parents: vec![None] }, format);
    result
}

fn requests(result: &ScanResult) -> Vec<String> {
    result.import_records.records().iter().map(|r| r.module_request.clone()).collect()
}

/// `import {a} from 'x'; export const b = 1; import('y');`
fn order_module() -> (Vec<SymbolData>, Vec<Stmt>) {
    let symbols = vec![sym("a", 0, false, true), sym("b", 0, true, false)];
    let body = vec![
        Stmt::Import {
            request: "x".to_string(),
            specifiers: vec![ImportSpecifier { imported: named("a"), local: SymbolId(0) }],
        },
        Stmt::ExportDecl { body: declare(1, lit()) },
        other(expression(import_of("y"))),
    ];
    (symbols, body)
}

#[test]
fn records_and_exports_keep_source_order() {
    let (symbols, body) = order_module();
    let result = scan(symbols, body);
    assert_eq!(requests(&result), vec!["x".to_string(), "y".to_string()]);
    assert_eq!(
        result.import_records.records(),
        &vec![
            RawImportRecord { module_request: "x".to_string(), kind: ImportKind::Import, is_export_star: false },
            RawImportRecord {
                module_request: "y".to_string(),
                kind: ImportKind::DynamicImport,
                is_export_star: false
            },
        ]
    );
    assert_eq!(result.named_exports, vec![NamedExport { exported: exported("b"), referenced: at(1) }]);
    assert_eq!(
        result.named_imports,
        vec![NamedImport { imported: named("a"), imported_as: at(0), record_id: ImportRecordIdx(0) }]
    );
    assert!(result.errors.is_empty());
    assert_eq!(result.exports_kind, ExportsKind::Esm);
}

#[test]
fn one_statement_info_per_statement() {
    let (symbols, body) = order_module();
    let result = scan(symbols, body);
    assert_eq!(result.stmt_infos.len(), 3);
    assert_eq!(result.stmt_infos[0].import_records, vec![ImportRecordIdx(0)]);
    assert_eq!(result.stmt_infos[0].declared_symbols, vec![at(0)]);
    assert!(!result.stmt_infos[0].side_effect);
    assert_eq!(result.stmt_infos[1].declared_symbols, vec![at(1)]);
    assert!(result.stmt_infos[1].import_records.is_empty());
    assert!(!result.stmt_infos[1].side_effect);
    assert_eq!(result.stmt_infos[2].import_records, vec![ImportRecordIdx(1)]);
    assert!(result.stmt_infos[2].side_effect);
}

#[test]
fn dynamic_import_before_static_import_comes_first() {
    let symbols = vec![sym("a", 0, false, true)];
    let body = vec![
        other(expression(import_of("late"))),
        Stmt::Import {
            request: "x".to_string(),
            specifiers: vec![ImportSpecifier { imported: ImportedName::Default, local: SymbolId(0) }],
        },
    ];
    let result = scan(symbols, body);
    assert_eq!(requests(&result), vec!["late".to_string(), "x".to_string()]);
    assert_eq!(result.named_imports[0].record_id, ImportRecordIdx(1));
    assert_eq!(result.named_imports[0].imported, ImportedName::Default);
}

#[test]
fn dynamic_imports_inside_functions_are_found() {
    let body = vec![other(node(
        NodeKind::Function { name: Some(SymbolId(0)) },
        vec![node(NodeKind::Block, vec![expression(import_of("a")), expression(import_of("b"))])],
    ))];
    let result = scan(vec![var("load")], body);
    assert_eq!(requests(&result), vec!["a".to_string(), "b".to_string()]);
    assert_eq!(result.stmt_infos[0].import_records, vec![ImportRecordIdx(0), ImportRecordIdx(1)]);
    assert!(!result.stmt_infos[0].side_effect);
    assert_eq!(result.stmt_infos[0].declared_symbols, vec![at(0)]);
}

#[test]
fn dynamic_import_of_an_expression_is_warned_about() {
    let body = vec![other(expression(node(
        NodeKind::DynamicImport { request: None },
        vec![read("path", 0)],
    )))];
    let result = scan(vec![var("path")], body);
    assert_eq!(result.import_records.len(), 0);
    assert_eq!(result.warnings, vec![BuildDiagnostic::UnanalyzableDynamicImport]);
    assert!(result.errors.is_empty());
    assert!(result.stmt_infos[0].side_effect);
}

/// `class A { m() { return A } }  class B { m() { return 1 } }`
#[test]
fn class_that_refers_to_itself_is_flagged() {
    let class = |symbol: usize, inner: Body| {
        other(node(
            NodeKind::Class { name: Some(SymbolId(symbol)) },
            vec![node(NodeKind::Function { name: None }, vec![node(NodeKind::Block, vec![inner])])],
        ))
    };
    let body = vec![class(0, read("A", 0)), class(1, lit())];
    let result = scan(vec![var("A"), var("B")], body);
    assert_eq!(result.self_referenced_class_decl_symbol_ids, vec![SymbolId(0)]);
}

#[test]
fn class_read_from_outside_is_not_flagged() {
    let body = vec![
        other(node(NodeKind::Class { name: Some(SymbolId(0)) }, vec![])),
        other(declare(1, node(NodeKind::New { pure: true }, vec![read("A", 0)]))),
    ];
    let result = scan(vec![var("A"), var("a")], body);
    assert!(result.self_referenced_class_decl_symbol_ids.is_empty());
    assert_eq!(result.stmt_infos[1].referenced_symbols, vec![at(0)]);
}

#[test]
fn class_that_refers_to_another_class_is_not_flagged() {
    let body = vec![other(node(
        NodeKind::Class { name: Some(SymbolId(0)) },
        vec![node(NodeKind::Function { name: None }, vec![read("B", 1)])],
    ))];
    let result = scan(vec![var("A"), var("B")], body);
    assert!(result.self_referenced_class_decl_symbol_ids.is_empty());
}

#[test]
fn nested_class_that_refers_to_itself_is_flagged() {
    let inner = node(NodeKind::Class { name: Some(SymbolId(1)) }, vec![read("Inner", 1)]);
    let body = vec![other(node(NodeKind::Function { name: Some(SymbolId(0)) }, vec![inner]))];
    let result = scan(vec![var("outer"), sym("Inner", 1, false, false)], body);
    assert_eq!(result.self_referenced_class_decl_symbol_ids, vec![SymbolId(1)]);
}

#[test]
fn pure_declarations_have_no_side_effect() {
    assert!(!body_has_side_effect(&declare(0, lit())));
    assert!(!body_has_side_effect(&declare(0, node(NodeKind::Array, vec![lit(), lit()]))));
    assert!(!body_has_side_effect(&declare(0, node(NodeKind::Binary, vec![lit(), lit()]))));
    assert!(!body_has_side_effect(&declare(0, read("a", 1))));
    assert!(!body_has_side_effect(&node(NodeKind::Class { name: Some(SymbolId(0)) }, vec![])));
    assert!(!body_has_side_effect(&Body::empty()));
}

#[test]
fn calls_and_assignments_have_side_effects() {
    assert!(body_has_side_effect(&expression(node(NodeKind::Call { pure: false }, vec![read("f", 0)]))));
    assert!(body_has_side_effect(&expression(node(NodeKind::New { pure: false }, vec![read("F", 0)]))));
    assert!(body_has_side_effect(&expression(node(
        NodeKind::Assign { target: Some(SymbolId(0)) },
        vec![lit()]
    ))));
    assert!(body_has_side_effect(&expression(node(NodeKind::Member, vec![read("a", 0)]))));
    assert!(body_has_side_effect(&leaf(NodeKind::Other)));
    assert!(body_has_side_effect(&expression(global("console"))));
    assert!(body_has_side_effect(&declare(0, node(NodeKind::Pattern, vec![bind(1)]))));
}

#[test]
fn call_marked_pure_has_the_side_effects_of_its_arguments() {
    let pure = |args: Vec<Body>| {
        let mut children = vec![read("f", 0)];
        children.extend(args);
        declare(1, node(NodeKind::Call { pure: true }, children))
    };
    assert!(!body_has_side_effect(&pure(vec![lit()])));
    assert!(body_has_side_effect(&pure(vec![node(NodeKind::Call { pure: false }, vec![read("g", 2)])])));
}

#[test]
fn operators_on_anything_but_literals_have_side_effects() {
    assert!(body_has_side_effect(&declare(0, node(NodeKind::Binary, vec![read("a", 1), lit()]))));
    assert!(body_has_side_effect(&declare(0, node(NodeKind::Unary, vec![read("a", 1)]))));
    assert!(!body_has_side_effect(&declare(0, node(NodeKind::Unary, vec![lit()]))));
}

#[test]
fn what_lies_inside_a_function_does_not_run_with_the_statement() {
    let call = expression(node(NodeKind::Call { pure: false }, vec![global("alert")]));
    let function = node(NodeKind::Function { name: Some(SymbolId(0)) }, vec![node(NodeKind::Block, vec![call])]);
    assert!(!body_has_side_effect(&function));
    let then_call = function.followed_by(expression(node(NodeKind::Call { pure: false }, vec![read("f", 0)])));
    assert!(body_has_side_effect(&then_call));
}

#[test]
fn eval_is_found_and_warned_about() {
    let body = vec![other(node(
        NodeKind::Function { name: Some(SymbolId(0)) },
        vec![expression(node(NodeKind::Call { pure: false }, vec![global("eval"), lit()]))],
    ))];
    let result = scan(vec![var("run")], body);
    assert!(result.has_eval);
    assert_eq!(result.warnings, vec![BuildDiagnostic::Eval]);
}

#[test]
fn local_binding_called_eval_is_not_eval() {
    let body = vec![other(expression(node(NodeKind::Call { pure: false }, vec![read("eval", 0), lit()])))];
    let result = scan(vec![var("eval")], body);
    assert!(!result.has_eval);
    assert!(result.warnings.is_empty());
}

#[test]
fn globals_are_looked_up_by_name() {
    let body = expression(node(NodeKind::Assign { target: None }, vec![
        node(NodeKind::Member, vec![global("module")]),
        lit(),
    ]));
    assert!(body_uses_global(&body, "module"));
    assert!(!body_uses_global(&body, "exports"));
    assert!(!body_uses_global(&read("module", 0), "module"));
}

#[test]
fn commonjs_module_is_told_by_its_globals() {
    let assign = |global_name: &str| {
        other(expression(node(NodeKind::Assign { target: None }, vec![
            node(NodeKind::Member, vec![global(global_name)]),
            lit(),
        ])))
    };
    let result = scan(vec![], vec![assign("module")]);
    assert_eq!(result.exports_kind, ExportsKind::CommonJs);
    assert_eq!(result.ast_usage, EcmaModuleAstUsage { module_ref: true, exports_ref: false });
    let result = scan(vec![], vec![assign("exports")]);
    assert_eq!(result.exports_kind, ExportsKind::CommonJs);
    assert_eq!(result.ast_usage, EcmaModuleAstUsage { module_ref: false, exports_ref: true });
}

#[test]
fn exports_kind_follows_syntax_then_globals_then_format() {
    let nothing = || vec![other(expression(lit()))];
    assert_eq!(scan(vec![], nothing()).exports_kind, ExportsKind::Neither);
    let formats = [
        (ModuleDefFormat::Cjs, ExportsKind::CommonJs),
        (ModuleDefFormat::Cts, ExportsKind::CommonJs),
        (ModuleDefFormat::CjsPackageJson, ExportsKind::CommonJs),
        (ModuleDefFormat::EsmMjs, ExportsKind::Esm),
        (ModuleDefFormat::EsmMts, ExportsKind::Esm),
        (ModuleDefFormat::EsmPackageJson, ExportsKind::Esm),
        (ModuleDefFormat::Unknown, ExportsKind::Neither),
    ];
    for (format, kind) in formats {
        assert_eq!(scan_with("/p/a.js", format, vec![], nothing()).exports_kind, kind);
    }
    let only_import = vec![Stmt::Import { request: "x".to_string(), specifiers: vec![] }];
    assert_eq!(scan(vec![], only_import.clone()).exports_kind, ExportsKind::Esm);
    assert_eq!(
        scan_with("/p/a.cjs", ModuleDefFormat::Cjs, vec![], only_import).exports_kind,
        ExportsKind::CommonJs
    );
    let with_export = vec![Stmt::ExportNamed { specifiers: vec![] }];
    assert_eq!(scan_with("/p/a.cjs", ModuleDefFormat::Cjs, vec![], with_export).exports_kind, ExportsKind::Esm);
}

#[test]
fn namespace_symbol_is_always_made_up() {
    let symbols = vec![var("a"), var("b")];
    let ast = EcmaAst { source: String::new(), body: vec![] };
    let (_, result, namespace) = scan_ast(
        OWNER,
        "/project/src/my-lib.js",
        &ast,
        table(symbols),
        ScopeTree { parents: vec![None] },
        ModuleDefFormat::Unknown,
    );
    assert_eq!(namespace, at(2));
    assert_eq!(result.symbol_ref_db.symbols.len(), 3);
    assert_eq!(result.symbol_ref_db.symbols[2], var("my_lib_exports"));
    assert_eq!(result.symbol_ref_db.owner, OWNER);
    assert_eq!(result.symbol_ref_db.symbols[0], var("a"));
    assert!(result.stmt_infos.is_empty());
    assert!(result.default_export_ref.is_none());
}

#[test]
fn index_file_is_named_after_its_directory() {
    let ast = EcmaAst { source: String::new(), body: vec![] };
    let (_, result, _) = scan_ast(
        OWNER,
        "/project/widgets/index.js",
        &ast,
        table(vec![]),
        ScopeTree { parents: vec![None] },
        ModuleDefFormat::Unknown,
    );
    assert_eq!(result.symbol_ref_db.symbols[0].name, "widgets_exports");
}

#[test]
fn default_export_without_name_gets_a_symbol() {
    let body = vec![Stmt::ExportDefault { name: None, body: expression(lit()) }];
    let result = scan(vec![var("a")], body);
    assert_eq!(result.default_export_ref, Some(at(2)));
    assert_eq!(result.symbol_ref_db.symbols[2], var("entry_default"));
    assert_eq!(result.named_exports, vec![NamedExport { exported: ExportedName::Default, referenced: at(2) }]);
    assert_eq!(result.stmt_infos[0].declared_symbols, vec![at(2)]);
    assert!(!result.stmt_infos[0].side_effect);
}

#[test]
fn default_export_of_a_named_function_uses_its_symbol() {
    let body = vec![Stmt::ExportDefault {
        name: Some(SymbolId(0)),
        body: node(NodeKind::Function { name: Some(SymbolId(0)) }, vec![]),
    }];
    let result = scan(vec![var("main")], body);
    assert_eq!(result.default_export_ref, Some(at(0)));
    assert_eq!(result.symbol_ref_db.symbols.len(), 2);
    assert_eq!(result.named_exports, vec![NamedExport { exported: ExportedName::Default, referenced: at(0) }]);
    assert_eq!(result.stmt_infos[0].declared_symbols, vec![at(0)]);
}

#[test]
fn default_export_with_a_call_has_side_effect() {
    let body = vec![Stmt::ExportDefault {
        name: None,
        body: expression(node(NodeKind::Call { pure: false }, vec![read("make", 0)])),
    }];
    let result = scan(vec![var("make")], body);
    assert!(result.stmt_infos[0].side_effect);
    assert_eq!(result.stmt_infos[0].referenced_symbols, vec![at(0)]);
}

#[test]
fn export_list_refers_to_local_symbols() {
    let body = vec![Stmt::ExportNamed {
        specifiers: vec![
            ExportSpecifier { local: "a".to_string(), symbol: Some(SymbolId(0)), exported: exported("x") },
            ExportSpecifier { local: "b".to_string(), symbol: Some(SymbolId(1)), exported: ExportedName::Default },
        ],
    }];
    let result = scan(vec![var("a"), var("b")], body);
    assert_eq!(
        result.named_exports,
        vec![
            NamedExport { exported: exported("x"), referenced: at(0) },
            NamedExport { exported: ExportedName::Default, referenced: at(1) },
        ]
    );
    assert_eq!(result.stmt_infos[0].referenced_symbols, vec![at(0), at(1)]);
    assert_eq!(result.import_records.len(), 0);
    assert!(result.errors.is_empty());
}

#[test]
fn export_of_an_undefined_name_is_an_error() {
    let body = vec![Stmt::ExportNamed {
        specifiers: vec![
            ExportSpecifier { local: "a".to_string(), symbol: Some(SymbolId(0)), exported: exported("a") },
            ExportSpecifier { local: "ghost".to_string(), symbol: None, exported: exported("ghost") },
        ],
    }];
    let result = scan(vec![var("a")], body);
    assert_eq!(result.errors, vec![BuildDiagnostic::ExportUndefinedVariable { name: "ghost".to_string() }]);
    assert_eq!(result.named_exports, vec![NamedExport { exported: exported("a"), referenced: at(0) }]);
}

#[test]
fn re_export_makes_up_a_symbol_for_each_name() {
    let body = vec![Stmt::ReExport {
        request: "lib".to_string(),
        specifiers: vec![
            ReExportSpecifier { imported: named("a"), exported: exported("b") },
            ReExportSpecifier { imported: ImportedName::Default, exported: exported("main") },
        ],
    }];
    let result = scan(vec![var("local")], body);
    assert_eq!(requests(&result), vec!["lib".to_string()]);
    assert_eq!(
        result.named_imports,
        vec![
            NamedImport { imported: named("a"), imported_as: at(2), record_id: ImportRecordIdx(0) },
            NamedImport { imported: ImportedName::Default, imported_as: at(3), record_id: ImportRecordIdx(0) },
        ]
    );
    assert_eq!(
        result.named_exports,
        vec![
            NamedExport { exported: exported("b"), referenced: at(2) },
            NamedExport { exported: exported("main"), referenced: at(3) },
        ]
    );
    assert_eq!(result.symbol_ref_db.symbols[2], var("a"));
    assert_eq!(result.symbol_ref_db.symbols[3], var("default"));
    assert_eq!(result.stmt_infos[0].declared_symbols, vec![at(2), at(3)]);
    assert_eq!(result.stmt_infos[0].import_records, vec![ImportRecordIdx(0)]);
}

#[test]
fn star_export_sets_the_flag() {
    let body = vec![Stmt::ExportAll { request: "lib".to_string(), exported: None }];
    let result = scan(vec![], body);
    assert!(result.has_star_exports);
    assert_eq!(
        result.import_records.records(),
        &vec![RawImportRecord { module_request: "lib".to_string(), kind: ImportKind::Import, is_export_star: true }]
    );
    assert!(result.named_exports.is_empty());
    assert!(result.named_imports.is_empty());
    assert_eq!(result.exports_kind, ExportsKind::Esm);
}

#[test]
fn star_export_under_a_name_is_a_namespace_import() {
    let body = vec![Stmt::ExportAll { request: "lib".to_string(), exported: Some(exported("ns")) }];
    let result = scan(vec![], body);
    assert!(!result.has_star_exports);
    assert!(!result.import_records.records()[0].is_export_star);
    assert_eq!(
        result.named_imports,
        vec![NamedImport { imported: ImportedName::Namespace, imported_as: at(1), record_id: ImportRecordIdx(0) }]
    );
    assert_eq!(result.named_exports, vec![NamedExport { exported: exported("ns"), referenced: at(1) }]);
    assert_eq!(result.symbol_ref_db.symbols[1], var("ns"));
}

#[test]
fn module_without_star_export_has_no_flag() {
    let (symbols, body) = order_module();
    assert!(!scan(symbols, body).has_star_exports);
}

#[test]
fn import_of_namespace_and_default() {
    let body = vec![Stmt::Import {
        request: "lib".to_string(),
        specifiers: vec![
            ImportSpecifier { imported: ImportedName::Default, local: SymbolId(0) },
            ImportSpecifier { imported: ImportedName::Namespace, local: SymbolId(1) },
        ],
    }];
    let result = scan(vec![sym("d", 0, false, true), sym("ns", 0, false, true)], body);
    assert_eq!(
        result.named_imports,
        vec![
            NamedImport { imported: ImportedName::Default, imported_as: at(0), record_id: ImportRecordIdx(0) },
            NamedImport { imported: ImportedName::Namespace, imported_as: at(1), record_id: ImportRecordIdx(0) },
        ]
    );
    assert_eq!(result.stmt_infos[0].declared_symbols, vec![at(0), at(1)]);
}

#[test]
fn assignment_to_an_import_is_an_error() {
    let body = vec![other(expression(node(NodeKind::Assign { target: Some(SymbolId(0)) }, vec![lit()])))];
    let result = scan(vec![sym("a", 0, false, true)], body);
    assert_eq!(result.errors, vec![BuildDiagnostic::AssignToImport { name: "a".to_string() }]);
}

#[test]
fn assignment_to_a_const_is_an_error() {
    let body = vec![other(expression(node(NodeKind::Assign { target: Some(SymbolId(0)) }, vec![lit()])))];
    let result = scan(vec![sym("limit", 0, true, false)], body);
    assert_eq!(result.errors, vec![BuildDiagnostic::ForbidConstAssign { name: "limit".to_string() }]);
}

#[test]
fn assignment_to_a_variable_is_no_error() {
    let body = vec![other(expression(node(NodeKind::Assign { target: Some(SymbolId(0)) }, vec![lit()])))];
    let result = scan(vec![var("count")], body);
    assert!(result.errors.is_empty());
    assert_eq!(result.stmt_infos[0].referenced_symbols, vec![at(0)]);
    assert!(result.stmt_infos[0].side_effect);
}

#[test]
fn only_symbols_of_the_module_scope_are_tracked() {
    let inner = node(NodeKind::Function { name: Some(SymbolId(0)) }, vec![
        bind(1),
        node(NodeKind::Block, vec![declare(2, read("p", 1)), expression(read("top", 3))]),
    ]);
    let symbols = vec![var("f"), sym("p", 1, false, false), sym("local", 1, false, false), var("top")];
    let result = scan(symbols, vec![other(inner)]);
    assert_eq!(result.stmt_infos[0].declared_symbols, vec![at(0)]);
    assert_eq!(result.stmt_infos[0].referenced_symbols, vec![at(3)]);
}

#[test]
fn exported_declaration_exports_what_it_declares() {
    let body = vec![Stmt::ExportDecl {
        body: node(NodeKind::Variables, vec![bind(0), lit(), bind(1), lit()]),
    }];
    let result = scan(vec![sym("a", 0, true, false), sym("b", 0, true, false)], body);
    assert_eq!(
        result.named_exports,
        vec![
            NamedExport { exported: exported("a"), referenced: at(0) },
            NamedExport { exported: exported("b"), referenced: at(1) },
        ]
    );
}

#[test]
fn scan_is_the_same_on_every_run() {
    let run = || {
        let (symbols, body) = order_module();
        scan(symbols, body)
    };
    assert_eq!(run(), run());
}

#[test]
fn scanner_can_be_driven_by_hand() {
    let (symbols, body) = order_module();
    let ast = EcmaAst { source: String::new(), body };
    let (symbols, scopes) = make_ast_scopes_and_symbols(table(symbols), ScopeTree { parents: vec![None] });
    assert_eq!(scopes.bindings.len(), 2);
    let scanner = AstScanner::new(OWNER, symbols, "entry", ModuleDefFormat::Unknown);
    assert_eq!(scanner.namespace_object_ref(), at(2));
    let result = scanner.scan(&ast);
    assert_eq!(result.symbol_ref_db.symbols[2].name, "entry_exports");
    assert_eq!(result.import_records.len(), 2);
}

#[test]
fn body_builder_writes_trees_in_pre_order() {
    let body = declare(3, node(NodeKind::Array, vec![lit(), lit()]));
    assert!(body.is_well_formed());
    let sizes: Vec<usize> = body.nodes.iter().map(|n| n.size).collect();
    assert_eq!(sizes, vec![5, 1, 3, 1, 1]);
    assert_eq!(body.nodes[0].kind, NodeKind::Variables);
    assert_eq!(body.nodes[1], Node { kind: NodeKind::Binding { symbol: SymbolId(3) }, size: 1 });
    assert_eq!(body.nodes[2].kind, NodeKind::Array);
}

#[test]
fn ill_formed_bodies_are_told() {
    let too_long = Body { nodes: vec![Node { kind: NodeKind::Literal, size: 2 }] };
    assert!(!too_long.is_well_formed());
    let empty_node = Body { nodes: vec![Node { kind: NodeKind::Literal, size: 0 }] };
    assert!(!empty_node.is_well_formed());
    let crossing = Body {
        nodes: vec![
            Node { kind: NodeKind::Block, size: 2 },
            Node { kind: NodeKind::Block, size: 2 },
            Node { kind: NodeKind::Literal, size: 1 },
        ],
    };
    assert!(!crossing.is_well_formed());
    assert!(Body::empty().is_well_formed());
}

#[test]
fn symbols_outside_the_table_are_told() {
    let body = read("a", 5);
    assert!(body.is_valid_for(6));
    assert!(!body.is_valid_for(5));
    let stmt = Stmt::Import {
        request: "x".to_string(),
        specifiers: vec![ImportSpecifier { imported: named("a"), local: SymbolId(2) }],
    };
    assert!(stmt.is_valid_for(3));
    assert!(!stmt.is_valid_for(2));
    let export = Stmt::ExportNamed {
        specifiers: vec![ExportSpecifier { local: "a".to_string(), symbol: Some(SymbolId(1)), exported: exported("a") }],
    };
    assert!(export.is_valid_for(2));
    assert!(!export.is_valid_for(1));
    let default = Stmt::ExportDefault { name: Some(SymbolId(4)), body: Body::empty() };
    assert!(default.is_valid_for(5));
    assert!(!default.is_valid_for(4));
    let ast = EcmaAst { source: String::new(), body: vec![other(read("a", 0)), other(read("b", 1))] };
    assert!(ast.is_valid_for(2));
    assert!(!ast.is_valid_for(1));
}

#[test]
fn second_export_under_one_name_is_left_out() {
    let body = vec![
        Stmt::ExportNamed {
            specifiers: vec![
                ExportSpecifier { local: "a".to_string(), symbol: Some(SymbolId(0)), exported: exported("x") },
                ExportSpecifier { local: "b".to_string(), symbol: Some(SymbolId(1)), exported: exported("x") },
                ExportSpecifier { local: "b".to_string(), symbol: Some(SymbolId(1)), exported: exported("default") },
            ],
        },
        Stmt::ExportDefault { name: Some(SymbolId(0)), body: Body::empty() },
    ];
    let result = scan(vec![var("a"), var("b")], body);
    assert_eq!(
        result.named_exports,
        vec![
            NamedExport { exported: exported("x"), referenced: at(0) },
            NamedExport { exported: exported("default"), referenced: at(1) },
        ]
    );
    assert_eq!(result.stmt_infos[0].referenced_symbols, vec![at(0), at(1), at(1)]);
}

#[test]
fn second_import_under_one_symbol_is_left_out() {
    let body = vec![
        Stmt::Import {
            request: "x".to_string(),
            specifiers: vec![
                ImportSpecifier { imported: named("a"), local: SymbolId(0) },
                ImportSpecifier { imported: named("b"), local: SymbolId(0) },
            ],
        },
        Stmt::Import {
            request: "y".to_string(),
            specifiers: vec![ImportSpecifier { imported: named("c"), local: SymbolId(0) }],
        },
    ];
    let result = scan(vec![sym("a", 0, false, true)], body);
    assert_eq!(
        result.named_imports,
        vec![NamedImport { imported: named("a"), imported_as: at(0), record_id: ImportRecordIdx(0) }]
    );
    assert_eq!(requests(&result), vec!["x".to_string(), "y".to_string()]);
}

#[test]
fn class_is_flagged_once() {
    let class = || {
        other(node(NodeKind::Class { name: Some(SymbolId(0)) }, vec![read("A", 0)]))
    };
    let result = scan(vec![var("A")], vec![class(), class()]);
    assert_eq!(result.self_referenced_class_decl_symbol_ids, vec![SymbolId(0)]);
}

#[test]
fn lists_are_merged_without_duplicates() {
    let mut imports = vec![NamedImport { imported: named("a"), imported_as: at(0), record_id: ImportRecordIdx(0) }];
    let fresh = vec![
        NamedImport { imported: named("b"), imported_as: at(1), record_id: ImportRecordIdx(1) },
        NamedImport { imported: named("c"), imported_as: at(0), record_id: ImportRecordIdx(1) },
        NamedImport { imported: named("d"), imported_as: at(1), record_id: ImportRecordIdx(2) },
    ];
    merge_imports(&mut imports, &fresh);
    assert_eq!(
        imports,
        vec![
            NamedImport { imported: named("a"), imported_as: at(0), record_id: ImportRecordIdx(0) },
            NamedImport { imported: named("b"), imported_as: at(1), record_id: ImportRecordIdx(1) },
        ]
    );
    let mut exports = vec![NamedExport { exported: ExportedName::Default, referenced: at(0) }];
    merge_exports(&mut exports, &vec![
        NamedExport { exported: exported("default"), referenced: at(1) },
        NamedExport { exported: exported("x"), referenced: at(1) },
    ]);
    assert_eq!(
        exports,
        vec![
            NamedExport { exported: ExportedName::Default, referenced: at(0) },
            NamedExport { exported: exported("x"), referenced: at(1) },
        ]
    );
    let mut symbols = vec![SymbolId(3)];
    merge_symbols(&mut symbols, &vec![SymbolId(1), SymbolId(3), SymbolId(1), SymbolId(2)]);
    assert_eq!(symbols, vec![SymbolId(3), SymbolId(1), SymbolId(2)]);
    assert!(same_exported_name(&ExportedName::Default, &exported("default")));
    assert!(!same_exported_name(&ExportedName::Default, &exported("x")));
    assert!(same_exported_name(&exported("x"), &exported("x")));
}

#[test]
fn imports_know_their_place_in_the_tree() {
    let body = vec![
        other(expression(import_of("a"))),
        Stmt::Import { request: "x".to_string(), specifiers: vec![] },
        other(node(NodeKind::Block, vec![
            expression(import_of("b")),
            expression(node(NodeKind::DynamicImport { request: None }, vec![lit()])),
            expression(import_of("c")),
        ])),
    ];
    let result = scan(vec![], body);
    assert_eq!(requests(&result), vec!["a".to_string(), "x".to_string(), "b".to_string(), "c".to_string()]);
    assert_eq!(
        result.imports,
        vec![
            ImportSite { site: NodeSite { stmt: 0, node: 1 }, record: ImportRecordIdx(0) },
            ImportSite { site: NodeSite { stmt: 2, node: 2 }, record: ImportRecordIdx(2) },
            ImportSite { site: NodeSite { stmt: 2, node: 8 }, record: ImportRecordIdx(3) },
        ]
    );
}
