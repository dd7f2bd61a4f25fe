//! What holds of every scan.
use vstd::prelude::*;

use crate::ast_scanner::is_facade;
use crate::ast_scanner::ScanResult;
use crate::body_scan::acts;
use crate::body_scan::declarations;
use crate::body_scan::declared_exports;
use crate::body_scan::defers;
use crate::body_scan::evaluated;
use crate::body_scan::has_side_effect;
use crate::body_scan::node_declaration;
use crate::body_scan::node_reference;
use crate::body_scan::reads_symbol_within;
use crate::body_scan::references;
use crate::body_scan::self_referenced_class;
use crate::body_scan::self_referenced_classes;
use crate::scan_model::local_export_symbols;
use crate::scan_model::local_exports;
use crate::body_scan::dynamic_records;
use crate::body_scan::import_sites;
use crate::import_record::ImportSite;
use crate::import_record::NamedExport;
use crate::import_record::NodeSite;
use crate::scan_model::stmt_import_sites;
use crate::import_record::NamedImport;
use crate::scan_model::exports_hold;
use crate::scan_model::imports_hold;
use crate::scan_model::scan_step;
use crate::scan_model::with_exports;
use crate::scan_model::with_imports;
use crate::scan_model::with_symbols;
use crate::scan_model::stmt_info;
use crate::scan_model::stmt_named_exports;
use crate::scan_model::stmt_named_imports;
use crate::scan_model::stmt_self_referenced;
use crate::scan_model::scanned_before;
use crate::scan_model::ScanContext;
use crate::scan_model::Scanned;
use crate::stmt_info::stmt_info_views;
use crate::stmt_info::StmtInfoView;
use crate::symbol::ModuleIdx;
use crate::symbol::SymbolData;
use crate::symbol::SymbolId;
use crate::symbol::SymbolRef;
use crate::syntax::exports_below;
use crate::syntax::stmts_valid_for;
use crate::syntax::symbols_below;
use crate::syntax::well_nested;
use crate::syntax::ExportSpecifier;
use crate::syntax::Node;
use crate::syntax::NodeKind;
use crate::syntax::Stmt;

verus! {

/// Two scans that found the same hand over the same: every list agrees item
/// by item, and so do the names, scopes and flags of all symbols.
pub proof fn law_scan_is_deterministic(a: ScanResult, b: ScanResult, found: Scanned, ctx: ScanContext)
    requires
        a.holds(found, ctx),
        b.holds(found, ctx),
    ensures
        a.named_imports@ == b.named_imports@,
        a.named_exports@ == b.named_exports@,
        stmt_info_views(a.stmt_infos@) == stmt_info_views(b.stmt_infos@),
        a.import_records@ == b.import_records@,
        a.imports@ == b.imports@,
        a.default_export_ref == b.default_export_ref,
        a.exports_kind == b.exports_kind,
        a.warnings@ == b.warnings@,
        a.errors@ == b.errors@,
        a.has_eval == b.has_eval,
        a.ast_usage == b.ast_usage,
        a.has_star_exports == b.has_star_exports,
        a.self_referenced_class_decl_symbol_ids@ == b.self_referenced_class_decl_symbol_ids@,
        a.symbol_ref_db.owner == b.symbol_ref_db.owner,
        a.symbol_ref_db.symbols@.len() == b.symbol_ref_db.symbols@.len(),
        forall|i: int|
            0 <= i < a.symbol_ref_db.symbols@.len() ==> {
                &&& (#[trigger] a.symbol_ref_db.symbols@[i]).name@ == b.symbol_ref_db.symbols@[i].name@
                &&& a.symbol_ref_db.symbols@[i].scope == b.symbol_ref_db.symbols@[i].scope
                &&& a.symbol_ref_db.symbols@[i].flags == b.symbol_ref_db.symbols@[i].flags
            },
{
    assert forall|i: int| 0 <= i < a.symbol_ref_db.symbols@.len() implies {
        &&& (#[trigger] a.symbol_ref_db.symbols@[i]).name@ == b.symbol_ref_db.symbols@[i].name@
        &&& a.symbol_ref_db.symbols@[i].scope == b.symbol_ref_db.symbols@[i].scope
        &&& a.symbol_ref_db.symbols@[i].flags == b.symbol_ref_db.symbols@[i].flags
    } by {
        if i >= ctx.symbols.len() {
            let k = i - ctx.symbols.len();
            assert(is_facade(a.symbol_ref_db.symbols@[ctx.symbols.len() + k], found.facades[k]));
            assert(is_facade(b.symbol_ref_db.symbols@[ctx.symbols.len() + k], found.facades[k]));
        }
    }
}

/// Whether no two imports of a list stand under the same symbol.
pub open spec fn distinct_imports(list: Seq<NamedImport>) -> bool {
    forall|i: int, j: int|
        0 <= i < j < list.len() ==> (#[trigger] list[i]).imported_as != (#[trigger] list[j]).imported_as
}

/// Whether no two exports of a list stand under the same name.
pub open spec fn distinct_exports(list: Seq<NamedExport>) -> bool {
    forall|i: int, j: int|
        0 <= i < j < list.len() ==> (#[trigger] list[i]).exported.text() != (#[trigger] list[j]).exported.text()
}

/// Adding imports keeps what the list had at its place, keeps what holds of
/// every import, and keeps the symbols apart.
pub proof fn lemma_with_imports(
    list: Seq<NamedImport>,
    fresh: Seq<NamedImport>,
    n: int,
    holds: spec_fn(NamedImport) -> bool,
)
    requires
        0 <= n <= fresh.len(),
        forall|i: int| 0 <= i < list.len() ==> holds(#[trigger] list[i]),
        forall|k: int| 0 <= k < n ==> holds(#[trigger] fresh[k]),
    ensures
        list.is_prefix_of(with_imports(list, fresh, n)),
        forall|i: int|
            0 <= i < with_imports(list, fresh, n).len() ==> holds(#[trigger] with_imports(list, fresh, n)[i]),
        distinct_imports(list) ==> distinct_imports(with_imports(list, fresh, n)),
    decreases n,
{
    if n > 0 {
        lemma_with_imports(list, fresh, n - 1, holds);
        let before = with_imports(list, fresh, n - 1);
        let now = with_imports(list, fresh, n);
        if !imports_hold(before, fresh[n - 1].imported_as) {
            assert forall|i: int| 0 <= i < now.len() implies holds(#[trigger] now[i]) by {
                if i < before.len() {
                    assert(now[i] == before[i]);
                }
            }
            if distinct_imports(list) {
                assert forall|i: int, j: int| 0 <= i < j < now.len() implies (#[trigger] now[i]).imported_as != (
                #[trigger] now[j]).imported_as by {
                    assert(now[i] == before[i]);
                    if j < before.len() {
                        assert(now[j] == before[j]);
                    }
                }
            }
        }
    }
}

/// Adding exports keeps what the list had at its place, keeps what holds of
/// every export, and keeps the names apart.
pub proof fn lemma_with_exports(
    list: Seq<NamedExport>,
    fresh: Seq<NamedExport>,
    n: int,
    holds: spec_fn(NamedExport) -> bool,
)
    requires
        0 <= n <= fresh.len(),
        forall|i: int| 0 <= i < list.len() ==> holds(#[trigger] list[i]),
        forall|k: int| 0 <= k < n ==> holds(#[trigger] fresh[k]),
    ensures
        list.is_prefix_of(with_exports(list, fresh, n)),
        forall|i: int|
            0 <= i < with_exports(list, fresh, n).len() ==> holds(#[trigger] with_exports(list, fresh, n)[i]),
        distinct_exports(list) ==> distinct_exports(with_exports(list, fresh, n)),
    decreases n,
{
    if n > 0 {
        lemma_with_exports(list, fresh, n - 1, holds);
        let before = with_exports(list, fresh, n - 1);
        let now = with_exports(list, fresh, n);
        if !exports_hold(before, fresh[n - 1].exported.text()) {
            assert forall|i: int| 0 <= i < now.len() implies holds(#[trigger] now[i]) by {
                if i < before.len() {
                    assert(now[i] == before[i]);
                }
            }
            if distinct_exports(list) {
                assert forall|i: int, j: int| 0 <= i < j < now.len() implies (#[trigger] now[i]).exported.text() != (
                #[trigger] now[j]).exported.text() by {
                    assert(now[i] == before[i]);
                    if j < before.len() {
                        assert(now[j] == before[j]);
                    }
                }
            }
        }
    }
}

/// Adding symbols keeps what the list had at its place, keeps what holds of
/// every symbol, and lets none occur twice.
pub proof fn lemma_with_symbols(list: Seq<SymbolId>, fresh: Seq<SymbolId>, n: int, holds: spec_fn(SymbolId) -> bool)
    requires
        0 <= n <= fresh.len(),
        forall|i: int| 0 <= i < list.len() ==> holds(#[trigger] list[i]),
        forall|k: int| 0 <= k < n ==> holds(#[trigger] fresh[k]),
    ensures
        list.is_prefix_of(with_symbols(list, fresh, n)),
        forall|i: int|
            0 <= i < with_symbols(list, fresh, n).len() ==> holds(#[trigger] with_symbols(list, fresh, n)[i]),
        list.no_duplicates() ==> with_symbols(list, fresh, n).no_duplicates(),
    decreases n,
{
    if n > 0 {
        lemma_with_symbols(list, fresh, n - 1, holds);
        let before = with_symbols(list, fresh, n - 1);
        let now = with_symbols(list, fresh, n);
        let last = fresh[n - 1];
        if !before.contains(last) {
            assert forall|i: int| 0 <= i < now.len() implies holds(#[trigger] now[i]) by {
                if i < before.len() {
                    assert(now[i] == before[i]);
                }
            }
            if list.no_duplicates() {
                assert forall|i: int, j: int| 0 <= i < now.len() && 0 <= j < now.len() && i != j implies now[i]
                    != now[j] by {
                    if i < before.len() {
                        assert(now[i] == before[i]);
                    }
                    if j < before.len() {
                        assert(now[j] == before[j]);
                    }
                }
            }
        }
    }
}

/// What is found after some statements stays as it is when more statements
/// follow: records, imports, exports, statement infos, errors, warnings and
/// made-up symbols only ever get longer at their end. So every list is in
/// source order.
pub proof fn law_scan_keeps_source_order(stmts: Seq<Stmt>, ctx: ScanContext, n: int, m: int)
    requires
        0 <= n <= m,
    ensures
        scanned_before(stmts, ctx, n).import_records.is_prefix_of(scanned_before(stmts, ctx, m).import_records),
        scanned_before(stmts, ctx, n).imports.is_prefix_of(scanned_before(stmts, ctx, m).imports),
        scanned_before(stmts, ctx, n).named_imports.is_prefix_of(scanned_before(stmts, ctx, m).named_imports),
        scanned_before(stmts, ctx, n).named_exports.is_prefix_of(scanned_before(stmts, ctx, m).named_exports),
        scanned_before(stmts, ctx, n).stmt_infos.is_prefix_of(scanned_before(stmts, ctx, m).stmt_infos),
        scanned_before(stmts, ctx, n).errors.is_prefix_of(scanned_before(stmts, ctx, m).errors),
        scanned_before(stmts, ctx, n).warnings.is_prefix_of(scanned_before(stmts, ctx, m).warnings),
        scanned_before(stmts, ctx, n).facades.is_prefix_of(scanned_before(stmts, ctx, m).facades),
        scanned_before(stmts, ctx, n).self_referenced.is_prefix_of(scanned_before(stmts, ctx, m).self_referenced),
        scanned_before(stmts, ctx, m).stmt_infos.len() == m,
    decreases m,
{
    if m == 0 {
    } else {
        let found = scanned_before(stmts, ctx, m - 1);
        let stmt = stmts[m - 1];
        let next_record = found.import_records.len() as int;
        let next_symbol = (ctx.symbols.len() + found.facades.len()) as int;
        let imports = stmt_named_imports(stmt, ctx.owner, next_record, next_symbol);
        let exports = stmt_named_exports(stmt, ctx, next_symbol);
        let classes = stmt_self_referenced(stmt);
        lemma_with_imports(found.named_imports, imports, imports.len() as int, |x: NamedImport| true);
        lemma_with_exports(found.named_exports, exports, exports.len() as int, |x: NamedExport| true);
        lemma_with_symbols(found.self_referenced, classes, classes.len() as int, |x: SymbolId| true);
        law_scan_keeps_source_order(stmts, ctx, 0, m - 1);
        if n < m {
            law_scan_keeps_source_order(stmts, ctx, n, m - 1);
        }
    }
}

/// Whether one of the first `n` nodes is a class that refers to itself under
/// the name `symbol`.
pub open spec fn some_class_reads_itself(nodes: Seq<Node>, symbol: SymbolId, n: int) -> bool {
    exists|i: int| 0 <= i < n && #[trigger] self_referenced_class(nodes, i) == Some(symbol)
}

/// A class is flagged exactly where a class of that name reads its own name
/// inside itself: one that does is among the flagged, and one that never
/// does is not.
pub proof fn law_self_reference_flag(nodes: Seq<Node>, symbol: SymbolId, n: int)
    requires
        0 <= n <= nodes.len(),
    ensures
        self_referenced_classes(nodes, n).contains(symbol) <==> some_class_reads_itself(nodes, symbol, n),
    decreases n,
{
    if n > 0 {
        law_self_reference_flag(nodes, symbol, n - 1);
        let before = self_referenced_classes(nodes, n - 1);
        let now = self_referenced_classes(nodes, n);
        if self_referenced_class(nodes, n - 1) == Some(symbol) {
            assert(now == before.push(symbol));
            assert(now[now.len() - 1] == symbol);
        }
        if now.contains(symbol) {
            let k = choose|k: int| 0 <= k < now.len() && now[k] == symbol;
            if k < before.len() {
                assert(before[k] == symbol);
                assert(before.contains(symbol));
                let i = choose|i: int| 0 <= i < n - 1 && #[trigger] self_referenced_class(nodes, i) == Some(symbol);
                assert(0 <= i < n && self_referenced_class(nodes, i) == Some(symbol));
            } else {
                assert(self_referenced_class(nodes, n - 1) == Some(symbol));
            }
        }
        if some_class_reads_itself(nodes, symbol, n) {
            let i = choose|i: int| 0 <= i < n && #[trigger] self_referenced_class(nodes, i) == Some(symbol);
            if i < n - 1 {
                assert(some_class_reads_itself(nodes, symbol, n - 1));
                let k = choose|k: int| 0 <= k < before.len() && before[k] == symbol;
                assert(now[k] == symbol);
            }
        }
    }
}

/// A class that declares the name `symbol` and reads it inside itself is
/// flagged.
pub proof fn law_self_referencing_class_is_flagged(nodes: Seq<Node>, i: int, symbol: SymbolId)
    requires
        0 <= i < nodes.len(),
        nodes[i].kind == (NodeKind::Class { name: Some(symbol) }),
        reads_symbol_within(nodes, i + 1, i + nodes[i].size, symbol),
    ensures
        self_referenced_classes(nodes, nodes.len() as int).contains(symbol),
{
    assert(self_referenced_class(nodes, i) == Some(symbol));
    law_self_reference_flag(nodes, symbol, nodes.len() as int);
}

/// A function does nothing when it is declared: whatever stands inside it,
/// the statement that consists of it has no side effect.
pub proof fn law_function_body_does_not_run(nodes: Seq<Node>)
    requires
        well_nested(nodes),
        nodes.len() > 0,
        nodes[0].kind is Function,
        nodes[0].size == nodes.len(),
    ensures
        !has_side_effect(nodes),
{
    assert forall|j: int| 0 <= j < nodes.len() implies !(evaluated(nodes, j) && #[trigger] acts(nodes, j)) by {
        if j > 0 {
            assert(defers(nodes[0].kind) && j < 0 + nodes[0].size);
        }
    }
}

/// Whether a symbol belongs to the module `owner` and is one of the first
/// `symbols` of its table.
pub open spec fn known(symbol: SymbolRef, owner: ModuleIdx, symbols: int) -> bool {
    symbol.owner == owner && symbol.symbol.0 < symbols
}

/// Whether every symbol of a list is [`known`].
pub open spec fn all_known(list: Seq<SymbolRef>, owner: ModuleIdx, symbols: int) -> bool {
    forall|i: int| 0 <= i < list.len() ==> known(#[trigger] list[i], owner, symbols)
}

/// Whether a statement info names only symbols and records that exist.
pub open spec fn info_consistent(info: StmtInfoView, owner: ModuleIdx, records: int, symbols: int) -> bool {
    &&& all_known(info.declared_symbols, owner, symbols)
    &&& all_known(info.referenced_symbols, owner, symbols)
    &&& forall|j: int| 0 <= j < info.import_records.len() ==> (#[trigger] info.import_records[j]).0 < records
}

/// Whether what was found hangs together: every record that is named
/// exists, and every symbol that is named belongs to the module and is in
/// its table, be it one of the parser or one that the scan made up.
pub open spec fn consistent(found: Scanned, ctx: ScanContext) -> bool {
    let records = found.import_records.len() as int;
    let symbols = (ctx.symbols.len() + found.facades.len()) as int;
    &&& forall|i: int|
        0 <= i < found.named_imports.len() ==> (#[trigger] found.named_imports[i]).record_id.0 < records && known(
            found.named_imports[i].imported_as,
            ctx.owner,
            symbols,
        )
    &&& forall|i: int|
        0 <= i < found.named_exports.len() ==> known((#[trigger] found.named_exports[i]).referenced, ctx.owner, symbols)
    &&& match found.default_export_ref {
        Some(symbol) => known(symbol, ctx.owner, symbols),
        None => true,
    }
    &&& forall|i: int|
        0 <= i < found.stmt_infos.len() ==> info_consistent(#[trigger] found.stmt_infos[i], ctx.owner, records, symbols)
    &&& forall|i: int| 0 <= i < found.self_referenced.len() ==> (#[trigger] found.self_referenced[i]).0 < ctx.symbols.len()
    &&& forall|i: int|
        0 <= i < found.imports.len() ==> (#[trigger] found.imports[i]).record.0 < records && found.imports[i].site.stmt
            < found.stmt_infos.len()
    &&& in_source_order(found.imports)
}

/// Whether the place `a` comes before the place `b` in the source.
pub open spec fn site_before(a: NodeSite, b: NodeSite) -> bool {
    a.stmt < b.stmt || (a.stmt == b.stmt && a.node < b.node)
}

/// Whether each place of a list comes before the next in the source. No
/// place then occurs twice.
pub open spec fn in_source_order(list: Seq<ImportSite>) -> bool {
    forall|i: int, j: int| 0 <= i < j < list.len() ==> site_before((#[trigger] list[i]).site, (#[trigger] list[j]).site)
}

/// Whether the records and the symbols can be counted by the machine.
pub open spec fn countable(found: Scanned, ctx: ScanContext) -> bool {
    &&& found.import_records.len() <= usize::MAX
    &&& ctx.symbols.len() + found.facades.len() <= usize::MAX
    &&& found.stmt_infos.len() <= usize::MAX
}

/// The records of more nodes are at least as many.
proof fn lemma_records_grow(nodes: Seq<Node>, n: int, m: int)
    requires
        0 <= n <= m,
    ensures
        dynamic_records(nodes, n).len() <= dynamic_records(nodes, m).len(),
    decreases m,
{
    if n < m {
        lemma_records_grow(nodes, n, m - 1);
    }
}

/// The places of the imports of a statement lie in that statement, one after
/// the other, and their records are among those of the statement.
proof fn lemma_import_sites(nodes: Seq<Node>, stmt: int, next_record: int, n: int)
    requires
        0 <= n <= nodes.len() <= usize::MAX,
        0 <= stmt <= usize::MAX,
        0 <= next_record,
        next_record + dynamic_records(nodes, n).len() <= usize::MAX,
    ensures
        forall|k: int|
            0 <= k < import_sites(nodes, stmt, next_record, n).len() ==> {
                let at = #[trigger] import_sites(nodes, stmt, next_record, n)[k];
                &&& at.site.stmt == stmt
                &&& at.site.node < n
                &&& at.record.0 < next_record + dynamic_records(nodes, n).len()
            },
        in_source_order(import_sites(nodes, stmt, next_record, n)),
    decreases n,
{
    if n > 0 {
        lemma_records_grow(nodes, n - 1, n);
        lemma_import_sites(nodes, stmt, next_record, n - 1);
        let before = import_sites(nodes, stmt, next_record, n - 1);
        let now = import_sites(nodes, stmt, next_record, n);
        assert forall|k: int| 0 <= k < now.len() implies {
            let at = #[trigger] now[k];
            &&& at.site.stmt == stmt
            &&& at.site.node < n
            &&& at.record.0 < next_record + dynamic_records(nodes, n).len()
        } by {
            if k < before.len() {
                assert(now[k] == before[k]);
            }
        }
        assert forall|i: int, j: int| 0 <= i < j < now.len() implies site_before(
            (#[trigger] now[i]).site,
            (#[trigger] now[j]).site,
        ) by {
            assert(now[i] == before[i]);
            if j < before.len() {
                assert(now[j] == before[j]);
            }
        }
    }
}

proof fn lemma_references_known(nodes: Seq<Node>, symbols: Seq<SymbolData>, owner: ModuleIdx, n: int)
    requires
        0 <= n <= nodes.len(),
    ensures
        all_known(references(nodes, symbols, owner, n), owner, symbols.len() as int),
    decreases n,
{
    if n > 0 {
        lemma_references_known(nodes, symbols, owner, n - 1);
        let before = references(nodes, symbols, owner, n - 1);
        let now = references(nodes, symbols, owner, n);
        assert forall|i: int| 0 <= i < now.len() implies known(#[trigger] now[i], owner, symbols.len() as int) by {
            if i < before.len() {
                assert(now[i] == before[i]);
            } else {
                assert(node_reference(nodes[n - 1], symbols, owner) == Some(now[i]));
            }
        }
    }
}

proof fn lemma_declarations_known(nodes: Seq<Node>, symbols: Seq<SymbolData>, owner: ModuleIdx, n: int)
    requires
        0 <= n <= nodes.len(),
    ensures
        all_known(declarations(nodes, symbols, owner, n), owner, symbols.len() as int),
        forall|i: int|
            0 <= i < declared_exports(nodes, symbols, owner, n).len() ==> known(
                (#[trigger] declared_exports(nodes, symbols, owner, n)[i]).referenced,
                owner,
                symbols.len() as int,
            ),
    decreases n,
{
    if n > 0 {
        lemma_declarations_known(nodes, symbols, owner, n - 1);
        let before = declarations(nodes, symbols, owner, n - 1);
        let now = declarations(nodes, symbols, owner, n);
        assert forall|i: int| 0 <= i < now.len() implies known(#[trigger] now[i], owner, symbols.len() as int) by {
            if i < before.len() {
                assert(now[i] == before[i]);
            } else {
                assert(node_declaration(nodes[n - 1], symbols) == Some(now[i].symbol));
            }
        }
        let exports_before = declared_exports(nodes, symbols, owner, n - 1);
        let exports_now = declared_exports(nodes, symbols, owner, n);
        assert forall|i: int| 0 <= i < exports_now.len() implies known(
            (#[trigger] exports_now[i]).referenced,
            owner,
            symbols.len() as int,
        ) by {
            if i < exports_before.len() {
                assert(exports_now[i] == exports_before[i]);
            } else {
                assert(node_declaration(nodes[n - 1], symbols) == Some(exports_now[i].referenced.symbol));
            }
        }
    }
}

proof fn lemma_self_referenced_below(nodes: Seq<Node>, bound: int, n: int)
    requires
        0 <= n <= nodes.len(),
        symbols_below(nodes, bound, n),
    ensures
        forall|i: int|
            0 <= i < self_referenced_classes(nodes, n).len() ==> (#[trigger] self_referenced_classes(nodes, n)[i]).0
                < bound,
    decreases n,
{
    if n > 0 {
        lemma_self_referenced_below(nodes, bound, n - 1);
        let before = self_referenced_classes(nodes, n - 1);
        let now = self_referenced_classes(nodes, n);
        assert forall|i: int| 0 <= i < now.len() implies (#[trigger] now[i]).0 < bound by {
            if i < before.len() {
                assert(now[i] == before[i]);
            } else {
                assert(self_referenced_class(nodes, n - 1) == Some(now[i]));
                assert(nodes[n - 1].kind.symbol() == Some(now[i]));
            }
        }
    }
}

proof fn lemma_local_exports_known(specifiers: Seq<ExportSpecifier>, owner: ModuleIdx, bound: int, n: int)
    requires
        0 <= n <= specifiers.len(),
        exports_below(specifiers, bound, n),
    ensures
        all_known(local_export_symbols(specifiers, owner, n), owner, bound),
        forall|i: int|
            0 <= i < local_exports(specifiers, owner, n).len() ==> known(
                (#[trigger] local_exports(specifiers, owner, n)[i]).referenced,
                owner,
                bound,
            ),
    decreases n,
{
    if n > 0 {
        lemma_local_exports_known(specifiers, owner, bound, n - 1);
        let before = local_export_symbols(specifiers, owner, n - 1);
        let now = local_export_symbols(specifiers, owner, n);
        assert forall|i: int| 0 <= i < now.len() implies known(#[trigger] now[i], owner, bound) by {
            if i < before.len() {
                assert(now[i] == before[i]);
            } else {
                assert(specifiers[n - 1].symbol == Some(now[i].symbol));
            }
        }
        let exports_before = local_exports(specifiers, owner, n - 1);
        let exports_now = local_exports(specifiers, owner, n);
        assert forall|i: int| 0 <= i < exports_now.len() implies known(
            (#[trigger] exports_now[i]).referenced,
            owner,
            bound,
        ) by {
            if i < exports_before.len() {
                assert(exports_now[i] == exports_before[i]);
            } else {
                assert(specifiers[n - 1].symbol == Some(exports_now[i].referenced.symbol));
            }
        }
    }
}

/// One more statement keeps what was found consistent.
proof fn lemma_step_consistent(found: Scanned, stmt: Stmt, ctx: ScanContext)
    requires
        consistent(found, ctx),
        stmt.valid_for(ctx.symbols.len() as int),
        countable(scan_step(found, stmt, ctx), ctx),
    ensures
        consistent(scan_step(found, stmt, ctx), ctx),
{
    let next = scan_step(found, stmt, ctx);
    let owner = ctx.owner;
    let parsed = ctx.symbols.len() as int;
    let next_record = found.import_records.len() as int;
    let next_symbol = (ctx.symbols.len() + found.facades.len()) as int;
    let records = next.import_records.len() as int;
    let symbols = (ctx.symbols.len() + next.facades.len()) as int;
    assert(next_record <= records && next_symbol <= symbols);
    match stmt {
        Stmt::ExportNamed { specifiers } => {
            lemma_local_exports_known(specifiers@, owner, parsed, specifiers@.len() as int);
        },
        Stmt::ExportDefault { body, .. } => {
            lemma_references_known(body.nodes@, ctx.symbols, owner, body.nodes@.len() as int);
            lemma_declarations_known(body.nodes@, ctx.symbols, owner, body.nodes@.len() as int);
            lemma_self_referenced_below(body.nodes@, parsed, body.nodes@.len() as int);
        },
        Stmt::ExportDecl { body } => {
            lemma_references_known(body.nodes@, ctx.symbols, owner, body.nodes@.len() as int);
            lemma_declarations_known(body.nodes@, ctx.symbols, owner, body.nodes@.len() as int);
            lemma_self_referenced_below(body.nodes@, parsed, body.nodes@.len() as int);
        },
        Stmt::Other { body } => {
            lemma_references_known(body.nodes@, ctx.symbols, owner, body.nodes@.len() as int);
            lemma_declarations_known(body.nodes@, ctx.symbols, owner, body.nodes@.len() as int);
            lemma_self_referenced_below(body.nodes@, parsed, body.nodes@.len() as int);
        },
        _ => {},
    }
    let imports = stmt_named_imports(stmt, owner, next_record, next_symbol);
    let import_holds = |x: NamedImport| x.record_id.0 < records && known(x.imported_as, owner, symbols);
    assert forall|k: int| 0 <= k < imports.len() implies import_holds(#[trigger] imports[k]) by {}
    assert forall|i: int| 0 <= i < found.named_imports.len() implies import_holds(
        #[trigger] found.named_imports[i],
    ) by {}
    lemma_with_imports(found.named_imports, imports, imports.len() as int, import_holds);
    assert forall|i: int| 0 <= i < next.named_imports.len() implies (#[trigger] next.named_imports[i]).record_id.0
        < records && known(next.named_imports[i].imported_as, owner, symbols) by {
        assert(import_holds(next.named_imports[i]));
    }
    let exports = stmt_named_exports(stmt, ctx, next_symbol);
    let export_holds = |x: NamedExport| known(x.referenced, owner, symbols);
    assert forall|k: int| 0 <= k < exports.len() implies export_holds(#[trigger] exports[k]) by {}
    assert forall|i: int| 0 <= i < found.named_exports.len() implies export_holds(
        #[trigger] found.named_exports[i],
    ) by {}
    lemma_with_exports(found.named_exports, exports, exports.len() as int, export_holds);
    assert forall|i: int| 0 <= i < next.named_exports.len() implies known(
        (#[trigger] next.named_exports[i]).referenced,
        owner,
        symbols,
    ) by {
        assert(export_holds(next.named_exports[i]));
    }
    let info = stmt_info(stmt, ctx, next_record, next_symbol);
    assert(all_known(info.declared_symbols, owner, symbols)) by {
        assert forall|j: int| 0 <= j < info.declared_symbols.len() implies known(
            #[trigger] info.declared_symbols[j],
            owner,
            symbols,
        ) by {
            match stmt {
                Stmt::ExportDefault { body, .. } => {
                    let declared = declarations(body.nodes@, ctx.symbols, owner, body.nodes@.len() as int);
                    if j < declared.len() {
                        assert(info.declared_symbols[j] == declared[j]);
                    }
                },
                _ => {},
            }
        }
    }
    assert(all_known(info.referenced_symbols, owner, symbols));
    assert(info_consistent(info, owner, records, symbols));
    assert forall|i: int| 0 <= i < next.stmt_infos.len() implies info_consistent(
        #[trigger] next.stmt_infos[i],
        owner,
        records,
        symbols,
    ) by {
        if i < found.stmt_infos.len() {
            assert(next.stmt_infos[i] == found.stmt_infos[i]);
            assert(info_consistent(found.stmt_infos[i], owner, next_record, next_symbol));
        }
    }
    let place = found.stmt_infos.len() as int;
    let sites = stmt_import_sites(stmt, place, next_record);
    match stmt.body() {
        Some(body) => {
            assert(body.nodes@.len() == body.nodes.len());
            assert(next.import_records =~= found.import_records + dynamic_records(
                body.nodes@,
                body.nodes@.len() as int,
            ));
            lemma_import_sites(body.nodes@, place, next_record, body.nodes@.len() as int);
        },
        None => {},
    }
    assert forall|i: int| 0 <= i < next.imports.len() implies (#[trigger] next.imports[i]).record.0 < records
        && next.imports[i].site.stmt < next.stmt_infos.len() by {
        if i < found.imports.len() {
            assert(next.imports[i] == found.imports[i]);
        } else {
            assert(next.imports[i] == sites[i - found.imports.len()]);
        }
    }
    assert forall|i: int, j: int| 0 <= i < j < next.imports.len() implies site_before(
        (#[trigger] next.imports[i]).site,
        (#[trigger] next.imports[j]).site,
    ) by {
        if j < found.imports.len() {
            assert(next.imports[i] == found.imports[i]);
            assert(next.imports[j] == found.imports[j]);
        } else if i < found.imports.len() {
            assert(next.imports[i] == found.imports[i]);
            assert(next.imports[j] == sites[j - found.imports.len()]);
        } else {
            assert(next.imports[i] == sites[i - found.imports.len()]);
            assert(next.imports[j] == sites[j - found.imports.len()]);
        }
    }
    let classes = stmt_self_referenced(stmt);
    let class_holds = |x: SymbolId| x.0 < ctx.symbols.len();
    assert forall|k: int| 0 <= k < classes.len() implies class_holds(#[trigger] classes[k]) by {}
    assert forall|i: int| 0 <= i < found.self_referenced.len() implies class_holds(
        #[trigger] found.self_referenced[i],
    ) by {}
    lemma_with_symbols(found.self_referenced, classes, classes.len() as int, class_holds);
    assert forall|i: int| 0 <= i < next.self_referenced.len() implies (#[trigger] next.self_referenced[i]).0
        < ctx.symbols.len() by {
        assert(class_holds(next.self_referenced[i]));
    }
}

/// Whether the imports, the exports and the flagged classes are what
/// they are meant to be: a mapping by symbol, a mapping by name, and a set.
pub open spec fn without_duplicates(found: Scanned) -> bool {
    &&& distinct_imports(found.named_imports)
    &&& distinct_exports(found.named_exports)
    &&& found.self_referenced.no_duplicates()
}

/// No symbol stands for two imports, no name for two exports, and no class
/// is flagged twice, whatever the statements are.
pub proof fn law_scan_has_no_duplicates(stmts: Seq<Stmt>, ctx: ScanContext, n: int)
    requires
        0 <= n,
    ensures
        without_duplicates(scanned_before(stmts, ctx, n)),
    decreases n,
{
    if n > 0 {
        law_scan_has_no_duplicates(stmts, ctx, n - 1);
        let found = scanned_before(stmts, ctx, n - 1);
        let stmt = stmts[n - 1];
        let next_record = found.import_records.len() as int;
        let next_symbol = (ctx.symbols.len() + found.facades.len()) as int;
        let imports = stmt_named_imports(stmt, ctx.owner, next_record, next_symbol);
        let exports = stmt_named_exports(stmt, ctx, next_symbol);
        let classes = stmt_self_referenced(stmt);
        lemma_with_imports(found.named_imports, imports, imports.len() as int, |x: NamedImport| true);
        lemma_with_exports(found.named_exports, exports, exports.len() as int, |x: NamedExport| true);
        lemma_with_symbols(found.self_referenced, classes, classes.len() as int, |x: SymbolId| true);
    }
}

/// What a scan of valid statements finds hangs together at every point:
/// no import names a record that does not exist, and no symbol is named
/// that the table of the module does not hold.
pub proof fn law_scan_is_consistent(stmts: Seq<Stmt>, ctx: ScanContext, n: int)
    requires
        0 <= n <= stmts.len(),
        stmts_valid_for(stmts, ctx.symbols.len() as int, n),
        countable(scanned_before(stmts, ctx, n), ctx),
    ensures
        consistent(scanned_before(stmts, ctx, n), ctx),
    decreases n,
{
    if n > 0 {
        law_scan_keeps_source_order(stmts, ctx, n - 1, n);
        law_scan_is_consistent(stmts, ctx, n - 1);
        assert(stmts[n - 1].valid_for(ctx.symbols.len() as int));
        lemma_step_consistent(scanned_before(stmts, ctx, n - 1), stmts[n - 1], ctx);
    }
}

} // verus!
