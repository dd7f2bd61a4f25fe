//! What the scan finds inside one statement.
//!
//! Each question is answered by one walk over the nodes of the body, in
//! source order.
use vstd::prelude::*;

use crate::diagnostic::BuildDiagnostic;
use crate::import_record::dynamic_record;
use crate::import_record::ImportKind;
use crate::import_record::ImportSite;
use crate::import_record::NodeSite;
use crate::import_record::NamedExport;
use crate::import_record::RawImportRecord;
use crate::import_record::RawImportRecords;
use crate::symbol::is_root_symbol;
use crate::symbol::ImportRecordIdx;
use crate::symbol::ModuleIdx;
use crate::symbol::SymbolData;
use crate::symbol::SymbolId;
use crate::symbol::SymbolRef;
use crate::syntax::Body;
use crate::syntax::ExportedName;
use crate::syntax::Node;
use crate::syntax::NodeKind;

verus! {

/// The import record that a node gives rise to: an `import(..)` of a string
/// literal asks for a module.
pub open spec fn node_record(node: Node) -> Option<RawImportRecord> {
    match node.kind {
        NodeKind::DynamicImport { request: Some(request) } => Some(dynamic_record(request)),
        _ => None,
    }
}

/// The records that the first `n` nodes give rise to, in source order.
pub open spec fn dynamic_records(nodes: Seq<Node>, n: int) -> Seq<RawImportRecord>
    decreases n,
{
    if n <= 0 {
        Seq::empty()
    } else {
        match node_record(nodes[n - 1]) {
            Some(record) => dynamic_records(nodes, n - 1).push(record),
            None => dynamic_records(nodes, n - 1),
        }
    }
}

/// The places among the first `n` nodes of the statement `stmt` at which an
/// `import(..)` gives rise to a record, each with its record. `next_record`
/// is the place that the first of these records takes.
pub open spec fn import_sites(nodes: Seq<Node>, stmt: int, next_record: int, n: int) -> Seq<ImportSite>
    decreases n,
{
    if n <= 0 {
        Seq::empty()
    } else {
        match node_record(nodes[n - 1]) {
            Some(_) => import_sites(nodes, stmt, next_record, n - 1).push(
                ImportSite {
                    site: NodeSite { stmt: stmt as usize, node: (n - 1) as usize },
                    record: ImportRecordIdx((next_record + dynamic_records(nodes, n - 1).len()) as usize),
                },
            ),
            None => import_sites(nodes, stmt, next_record, n - 1),
        }
    }
}

/// The symbol of the module's own scope that a node reads or writes.
pub open spec fn node_reference(node: Node, symbols: Seq<SymbolData>, owner: ModuleIdx) -> Option<SymbolRef> {
    match node.kind {
        NodeKind::Reference { symbol: Some(symbol), .. } => if is_root_symbol(symbols, symbol) {
            Some(SymbolRef { owner, symbol })
        } else {
            None
        },
        NodeKind::Assign { target: Some(symbol) } => if is_root_symbol(symbols, symbol) {
            Some(SymbolRef { owner, symbol })
        } else {
            None
        },
        _ => None,
    }
}

/// The symbols of the module's own scope that the first `n` nodes read or
/// write, in source order, each as often as it occurs.
pub open spec fn references(nodes: Seq<Node>, symbols: Seq<SymbolData>, owner: ModuleIdx, n: int) -> Seq<SymbolRef>
    decreases n,
{
    if n <= 0 {
        Seq::empty()
    } else {
        match node_reference(nodes[n - 1], symbols, owner) {
            Some(found) => references(nodes, symbols, owner, n - 1).push(found),
            None => references(nodes, symbols, owner, n - 1),
        }
    }
}

/// The symbol of the module's own scope that a node declares.
pub open spec fn node_declaration(node: Node, symbols: Seq<SymbolData>) -> Option<SymbolId> {
    match node.kind {
        NodeKind::Binding { symbol } => if is_root_symbol(symbols, symbol) {
            Some(symbol)
        } else {
            None
        },
        NodeKind::Function { name: Some(symbol) } => if is_root_symbol(symbols, symbol) {
            Some(symbol)
        } else {
            None
        },
        NodeKind::Class { name: Some(symbol) } => if is_root_symbol(symbols, symbol) {
            Some(symbol)
        } else {
            None
        },
        _ => None,
    }
}

/// The symbols of the module's own scope that the first `n` nodes declare,
/// in source order.
pub open spec fn declarations(nodes: Seq<Node>, symbols: Seq<SymbolData>, owner: ModuleIdx, n: int) -> Seq<SymbolRef>
    decreases n,
{
    if n <= 0 {
        Seq::empty()
    } else {
        match node_declaration(nodes[n - 1], symbols) {
            Some(symbol) => declarations(nodes, symbols, owner, n - 1).push(SymbolRef { owner, symbol }),
            None => declarations(nodes, symbols, owner, n - 1),
        }
    }
}

/// The exports that `export` in front of the first `n` nodes makes: each
/// symbol they declare in the module's own scope, under its own name.
pub open spec fn declared_exports(nodes: Seq<Node>, symbols: Seq<SymbolData>, owner: ModuleIdx, n: int) -> Seq<NamedExport>
    decreases n,
{
    if n <= 0 {
        Seq::empty()
    } else {
        match node_declaration(nodes[n - 1], symbols) {
            Some(symbol) => declared_exports(nodes, symbols, owner, n - 1).push(
                NamedExport {
                    exported: ExportedName::Named(symbols[symbol.0 as int].name),
                    referenced: SymbolRef { owner, symbol },
                },
            ),
            None => declared_exports(nodes, symbols, owner, n - 1),
        }
    }
}

/// The error that a node is: an assignment to an import or to a `const`.
pub open spec fn node_error(node: Node, symbols: Seq<SymbolData>) -> Option<BuildDiagnostic> {
    match node.kind {
        NodeKind::Assign { target: Some(symbol) } => if symbol.0 < symbols.len() {
            let target = symbols[symbol.0 as int];
            if target.flags.is_import {
                Some(BuildDiagnostic::AssignToImport { name: target.name })
            } else if target.flags.is_const {
                Some(BuildDiagnostic::ForbidConstAssign { name: target.name })
            } else {
                None
            }
        } else {
            None
        },
        _ => None,
    }
}

/// The errors among the first `n` nodes, in source order.
pub open spec fn errors(nodes: Seq<Node>, symbols: Seq<SymbolData>, n: int) -> Seq<BuildDiagnostic>
    decreases n,
{
    if n <= 0 {
        Seq::empty()
    } else {
        match node_error(nodes[n - 1], symbols) {
            Some(error) => errors(nodes, symbols, n - 1).push(error),
            None => errors(nodes, symbols, n - 1),
        }
    }
}

/// Whether a node reads the global `name`: a name that no declaration in
/// sight introduces.
pub open spec fn reads_global(node: Node, name: Seq<char>) -> bool {
    match node.kind {
        NodeKind::Reference { name: read, symbol: None } => read@ == name,
        _ => false,
    }
}

/// Whether one of the first `n` nodes reads the global `name`.
pub open spec fn uses_global(nodes: Seq<Node>, name: Seq<char>, n: int) -> bool {
    exists|i: int| 0 <= i < n && i < nodes.len() && reads_global(#[trigger] nodes[i], name)
}

/// The warning that a node earns: a use of `eval`, or an `import(..)` of
/// something that is no string literal.
pub open spec fn node_warning(node: Node) -> Option<BuildDiagnostic> {
    if reads_global(node, "eval"@) {
        Some(BuildDiagnostic::Eval)
    } else {
        match node.kind {
            NodeKind::DynamicImport { request: None } => Some(BuildDiagnostic::UnanalyzableDynamicImport),
            _ => None,
        }
    }
}

/// The warnings that the first `n` nodes earn, in source order.
pub open spec fn warnings(nodes: Seq<Node>, n: int) -> Seq<BuildDiagnostic>
    decreases n,
{
    if n <= 0 {
        Seq::empty()
    } else {
        match node_warning(nodes[n - 1]) {
            Some(warning) => warnings(nodes, n - 1).push(warning),
            None => warnings(nodes, n - 1),
        }
    }
}

/// Whether a node reads `symbol`.
pub open spec fn reads_symbol(node: Node, symbol: SymbolId) -> bool {
    match node.kind {
        NodeKind::Reference { symbol: Some(read), .. } => read == symbol,
        _ => false,
    }
}

/// Whether one of the nodes from `from` up to `to` reads `symbol`.
pub open spec fn reads_symbol_within(nodes: Seq<Node>, from: int, to: int, symbol: SymbolId) -> bool {
    exists|j: int| from <= j < to && 0 <= j < nodes.len() && reads_symbol(#[trigger] nodes[j], symbol)
}

/// The class that the node at `i` declares, where something inside the class
/// reads the name of the class.
pub open spec fn self_referenced_class(nodes: Seq<Node>, i: int) -> Option<SymbolId> {
    match nodes[i].kind {
        NodeKind::Class { name: Some(symbol) } => if reads_symbol_within(nodes, i + 1, i + nodes[i].size, symbol) {
            Some(symbol)
        } else {
            None
        },
        _ => None,
    }
}

/// The classes among the first `n` nodes that refer to themselves, in
/// source order.
pub open spec fn self_referenced_classes(nodes: Seq<Node>, n: int) -> Seq<SymbolId>
    decreases n,
{
    if n <= 0 {
        Seq::empty()
    } else {
        match self_referenced_class(nodes, n - 1) {
            Some(symbol) => self_referenced_classes(nodes, n - 1).push(symbol),
            None => self_referenced_classes(nodes, n - 1),
        }
    }
}

/// Whether what lies below a node of this kind runs only when something
/// calls it, not when the statement runs.
pub open spec fn defers(kind: NodeKind) -> bool {
    kind is Function
}

/// Whether the node at `j` runs when the statement runs: no node around it
/// defers it.
pub open spec fn evaluated(nodes: Seq<Node>, j: int) -> bool {
    forall|a: int| 0 <= a < j && j < a + (#[trigger] nodes[a]).size ==> !defers(nodes[a].kind)
}

/// Whether everything below the node at `j` is a literal.
pub open spec fn only_literals_below(nodes: Seq<Node>, j: int, to: int) -> bool {
    forall|k: int| j < k < to && k < nodes.len() ==> (#[trigger] nodes[k]).kind is Literal
}

/// Whether the node at `j`, taken by itself, may do something that can be
/// observed. The answer errs on the side of yes: reading a global or a
/// property, taking a value apart, a call that is not marked pure, an
/// assignment, an `import(..)`, an operator on anything but literals, and
/// everything the scan does not know.
pub open spec fn acts(nodes: Seq<Node>, j: int) -> bool {
    match nodes[j].kind {
        NodeKind::Reference { symbol, .. } => symbol is None,
        NodeKind::Pattern => true,
        NodeKind::Member => true,
        NodeKind::Call { pure } => !pure,
        NodeKind::New { pure } => !pure,
        NodeKind::Assign { .. } => true,
        NodeKind::DynamicImport { .. } => true,
        NodeKind::Unary => !only_literals_below(nodes, j, j + nodes[j].size),
        NodeKind::Binary => !only_literals_below(nodes, j, j + nodes[j].size),
        NodeKind::Other => true,
        _ => false,
    }
}

/// Whether one of the first `n` nodes runs with the statement and acts.
pub open spec fn acts_before(nodes: Seq<Node>, n: int) -> bool {
    exists|j: int| 0 <= j < n && j < nodes.len() && evaluated(nodes, j) && #[trigger] acts(nodes, j)
}

/// Whether running the statement may do something that can be observed.
pub open spec fn has_side_effect(nodes: Seq<Node>) -> bool {
    acts_before(nodes, nodes.len() as int)
}

/// Appends the records of [`dynamic_records`] to `records`, and to `sites`
/// the places of [`import_sites`] at which they arise in the statement `stmt`.
pub fn collect_dynamic_records(
    body: &Body,
    stmt: usize,
    records: &mut RawImportRecords,
    sites: &mut Vec<ImportSite>,
)
    ensures
        final(records)@ == old(records)@ + dynamic_records(body.nodes@, body.nodes@.len() as int),
        final(sites)@ == old(sites)@ + import_sites(
            body.nodes@,
            stmt as int,
            old(records)@.len() as int,
            body.nodes@.len() as int,
        ),
{
    let ghost before = records@;
    let ghost sites_before = sites@;
    let ghost base = records@.len() as int;
    let mut i: usize = 0;
    assert(records@ =~= before + dynamic_records(body.nodes@, 0));
    assert(sites@ =~= sites_before + import_sites(body.nodes@, stmt as int, base, 0));
    while i < body.nodes.len()
        invariant
            i <= body.nodes.len(),
            base == before.len(),
            records@ == before + dynamic_records(body.nodes@, i as int),
            sites@ == sites_before + import_sites(body.nodes@, stmt as int, base, i as int),
        decreases body.nodes.len() - i,
    {
        match &body.nodes[i].kind {
            NodeKind::DynamicImport { request: Some(request) } => {
                let record = records.push(
                    RawImportRecord {
                        module_request: request.clone(),
                        kind: ImportKind::DynamicImport,
                        is_export_star: false,
                    },
                );
                sites.push(ImportSite { site: NodeSite { stmt, node: i }, record });
                assert(records@ =~= before + dynamic_records(body.nodes@, i + 1));
                assert(sites@ =~= sites_before + import_sites(body.nodes@, stmt as int, base, i + 1));
            },
            _ => {},
        }
        i += 1;
    }
}

/// Appends the symbols of [`references`] to `out`. Only the first `known`
/// symbols of the table count as declared.
pub fn collect_references(
    body: &Body,
    symbols: &Vec<SymbolData>,
    known: usize,
    owner: ModuleIdx,
    out: &mut Vec<SymbolRef>,
)
    requires
        known <= symbols@.len(),
    ensures
        final(out)@ == old(out)@ + references(
            body.nodes@,
            symbols@.take(known as int),
            owner,
            body.nodes@.len() as int,
        ),
{
    let ghost before = out@;
    let ghost table = symbols@.take(known as int);
    let mut i: usize = 0;
    assert(out@ =~= before + references(body.nodes@, table, owner, 0));
    while i < body.nodes.len()
        invariant
            i <= body.nodes.len(),
            known <= symbols@.len(),
            table == symbols@.take(known as int),
            out@ == before + references(body.nodes@, table, owner, i as int),
        decreases body.nodes.len() - i,
    {
        let read = match &body.nodes[i].kind {
            NodeKind::Reference { symbol: Some(symbol), .. } => Some(*symbol),
            NodeKind::Assign { target: Some(symbol) } => Some(*symbol),
            _ => None,
        };
        match read {
            Some(symbol) => {
                if symbol.0 < known && symbols[symbol.0].scope.0 == 0 {
                    out.push(SymbolRef { owner, symbol });
                    assert(out@ =~= before + references(body.nodes@, table, owner, i + 1));
                }
            },
            None => {},
        }
        i += 1;
    }
}

/// The symbol of the module's own scope that the node at `i` declares.
fn declaration_at(body: &Body, symbols: &Vec<SymbolData>, known: usize, i: usize) -> (r: Option<SymbolId>)
    requires
        known <= symbols@.len(),
        i < body.nodes@.len(),
    ensures
        r == node_declaration(body.nodes@[i as int], symbols@.take(known as int)),
{
    let declared = match &body.nodes[i].kind {
        NodeKind::Binding { symbol } => Some(*symbol),
        NodeKind::Function { name: Some(symbol) } => Some(*symbol),
        NodeKind::Class { name: Some(symbol) } => Some(*symbol),
        _ => None,
    };
    match declared {
        Some(symbol) => if symbol.0 < known && symbols[symbol.0].scope.0 == 0 {
            Some(symbol)
        } else {
            None
        },
        None => None,
    }
}

/// Appends the symbols of [`declarations`] to `out`. Only the first `known`
/// symbols of the table count as declared.
pub fn collect_declarations(
    body: &Body,
    symbols: &Vec<SymbolData>,
    known: usize,
    owner: ModuleIdx,
    out: &mut Vec<SymbolRef>,
)
    requires
        known <= symbols@.len(),
    ensures
        final(out)@ == old(out)@ + declarations(
            body.nodes@,
            symbols@.take(known as int),
            owner,
            body.nodes@.len() as int,
        ),
{
    let ghost before = out@;
    let ghost table = symbols@.take(known as int);
    let mut i: usize = 0;
    assert(out@ =~= before + declarations(body.nodes@, table, owner, 0));
    while i < body.nodes.len()
        invariant
            i <= body.nodes.len(),
            known <= symbols@.len(),
            table == symbols@.take(known as int),
            out@ == before + declarations(body.nodes@, table, owner, i as int),
        decreases body.nodes.len() - i,
    {
        match declaration_at(body, symbols, known, i) {
            Some(symbol) => {
                out.push(SymbolRef { owner, symbol });
                assert(out@ =~= before + declarations(body.nodes@, table, owner, i + 1));
            },
            None => {},
        }
        i += 1;
    }
}

/// Appends the exports of [`declared_exports`] to `out`. Only the first
/// `known` symbols of the table count as declared.
pub fn collect_declared_exports(
    body: &Body,
    symbols: &Vec<SymbolData>,
    known: usize,
    owner: ModuleIdx,
    out: &mut Vec<NamedExport>,
)
    requires
        known <= symbols@.len(),
    ensures
        final(out)@ == old(out)@ + declared_exports(
            body.nodes@,
            symbols@.take(known as int),
            owner,
            body.nodes@.len() as int,
        ),
{
    let ghost before = out@;
    let ghost table = symbols@.take(known as int);
    let mut i: usize = 0;
    assert(out@ =~= before + declared_exports(body.nodes@, table, owner, 0));
    while i < body.nodes.len()
        invariant
            i <= body.nodes.len(),
            known <= symbols@.len(),
            table == symbols@.take(known as int),
            out@ == before + declared_exports(body.nodes@, table, owner, i as int),
        decreases body.nodes.len() - i,
    {
        match declaration_at(body, symbols, known, i) {
            Some(symbol) => {
                let name = symbols[symbol.0].name.clone();
                out.push(
                    NamedExport { exported: ExportedName::Named(name), referenced: SymbolRef { owner, symbol } },
                );
                assert(out@ =~= before + declared_exports(body.nodes@, table, owner, i + 1));
            },
            None => {},
        }
        i += 1;
    }
}

/// Appends the errors of [`errors`] to `out`. Only the first `known` symbols
/// of the table count as declared.
pub fn collect_errors(body: &Body, symbols: &Vec<SymbolData>, known: usize, out: &mut Vec<BuildDiagnostic>)
    requires
        known <= symbols@.len(),
    ensures
        final(out)@ == old(out)@ + errors(body.nodes@, symbols@.take(known as int), body.nodes@.len() as int),
{
    let ghost before = out@;
    let ghost table = symbols@.take(known as int);
    let mut i: usize = 0;
    assert(out@ =~= before + errors(body.nodes@, table, 0));
    while i < body.nodes.len()
        invariant
            i <= body.nodes.len(),
            known <= symbols@.len(),
            table == symbols@.take(known as int),
            out@ == before + errors(body.nodes@, table, i as int),
        decreases body.nodes.len() - i,
    {
        match &body.nodes[i].kind {
            NodeKind::Assign { target: Some(symbol) } => {
                if symbol.0 < known {
                    let target = &symbols[symbol.0];
                    if target.flags.is_import {
                        out.push(BuildDiagnostic::AssignToImport { name: target.name.clone() });
                        assert(out@ =~= before + errors(body.nodes@, table, i + 1));
                    } else if target.flags.is_const {
                        out.push(BuildDiagnostic::ForbidConstAssign { name: target.name.clone() });
                        assert(out@ =~= before + errors(body.nodes@, table, i + 1));
                    }
                }
            },
            _ => {},
        }
        i += 1;
    }
}

/// Whether the node at `i` reads the global `name`.
fn reads_global_at(body: &Body, name: &String, i: usize) -> (r: bool)
    requires
        i < body.nodes@.len(),
    ensures
        r == reads_global(body.nodes@[i as int], name@),
{
    match &body.nodes[i].kind {
        NodeKind::Reference { name: read, symbol: None } => *read == *name,
        _ => false,
    }
}

/// Computes [`uses_global`] for the whole body.
pub fn body_uses_global(body: &Body, name: &str) -> (r: bool)
    ensures
        r == uses_global(body.nodes@, name@, body.nodes@.len() as int),
{
    let wanted = String::from_str(name);
    let mut i: usize = 0;
    while i < body.nodes.len()
        invariant
            i <= body.nodes.len(),
            wanted@ == name@,
            !uses_global(body.nodes@, name@, i as int),
        decreases body.nodes.len() - i,
    {
        if reads_global_at(body, &wanted, i) {
            assert(reads_global(body.nodes@[i as int], name@));
            return true;
        }
        i += 1;
    }
    false
}

/// Appends the warnings of [`warnings`] to `out`.
pub fn collect_warnings(body: &Body, out: &mut Vec<BuildDiagnostic>)
    ensures
        final(out)@ == old(out)@ + warnings(body.nodes@, body.nodes@.len() as int),
{
    let ghost before = out@;
    let eval = String::from_str("eval");
    let mut i: usize = 0;
    assert(out@ =~= before + warnings(body.nodes@, 0));
    while i < body.nodes.len()
        invariant
            i <= body.nodes.len(),
            eval@ == "eval"@,
            out@ == before + warnings(body.nodes@, i as int),
        decreases body.nodes.len() - i,
    {
        if reads_global_at(body, &eval, i) {
            out.push(BuildDiagnostic::Eval);
            assert(out@ =~= before + warnings(body.nodes@, i + 1));
        } else {
            match &body.nodes[i].kind {
                NodeKind::DynamicImport { request: None } => {
                    out.push(BuildDiagnostic::UnanalyzableDynamicImport);
                    assert(out@ =~= before + warnings(body.nodes@, i + 1));
                },
                _ => {},
            }
        }
        i += 1;
    }
}

/// Computes [`reads_symbol_within`].
fn reads_within(body: &Body, from: usize, to: usize, symbol: SymbolId) -> (r: bool)
    requires
        to <= body.nodes@.len(),
    ensures
        r == reads_symbol_within(body.nodes@, from as int, to as int, symbol),
{
    let mut j: usize = from;
    while j < to
        invariant
            to <= body.nodes@.len(),
            from <= j || j == from,
            !reads_symbol_within(body.nodes@, from as int, j as int, symbol),
        decreases to - j,
    {
        let found = match &body.nodes[j].kind {
            NodeKind::Reference { symbol: Some(read), .. } => *read == symbol,
            _ => false,
        };
        if found {
            assert(reads_symbol(body.nodes@[j as int], symbol));
            return true;
        }
        j += 1;
    }
    false
}

/// Appends the classes of [`self_referenced_classes`] to `out`.
pub fn collect_self_referenced_classes(body: &Body, out: &mut Vec<SymbolId>)
    requires
        body.wf(),
    ensures
        final(out)@ == old(out)@ + self_referenced_classes(body.nodes@, body.nodes@.len() as int),
{
    let ghost before = out@;
    let mut i: usize = 0;
    assert(out@ =~= before + self_referenced_classes(body.nodes@, 0));
    while i < body.nodes.len()
        invariant
            i <= body.nodes.len(),
            body.wf(),
            out@ == before + self_referenced_classes(body.nodes@, i as int),
        decreases body.nodes.len() - i,
    {
        match &body.nodes[i].kind {
            NodeKind::Class { name: Some(symbol) } => {
                let size: usize = body.nodes[i].size;
                if reads_within(body, i + 1, i + size, *symbol) {
                    out.push(*symbol);
                    assert(out@ =~= before + self_referenced_classes(body.nodes@, i + 1));
                }
            },
            _ => {},
        }
        i += 1;
    }
}

/// Computes [`only_literals_below`] for the subtree of the node at `j`.
fn operands_are_literals(body: &Body, j: usize) -> (r: bool)
    requires
        body.wf(),
        j < body.nodes@.len(),
    ensures
        r == only_literals_below(body.nodes@, j as int, j + body.nodes@[j as int].size),
{
    let n: usize = body.nodes.len();
    assert(j + body.nodes@[j as int].size <= n);
    let to: usize = j + body.nodes[j].size;
    let mut k: usize = j + 1;
    while k < to
        invariant
            j < k <= to,
            to == j + body.nodes@[j as int].size,
            to <= body.nodes@.len(),
            only_literals_below(body.nodes@, j as int, k as int),
        decreases to - k,
    {
        if !matches!(body.nodes[k].kind, NodeKind::Literal) {
            assert(!(body.nodes@[k as int].kind is Literal));
            return false;
        }
        k += 1;
    }
    true
}

/// Computes [`acts`].
fn acts_at(body: &Body, j: usize) -> (r: bool)
    requires
        body.wf(),
        j < body.nodes@.len(),
    ensures
        r == acts(body.nodes@, j as int),
{
    match &body.nodes[j].kind {
        NodeKind::Reference { symbol, .. } => symbol.is_none(),
        NodeKind::Pattern => true,
        NodeKind::Member => true,
        NodeKind::Call { pure } => !*pure,
        NodeKind::New { pure } => !*pure,
        NodeKind::Assign { .. } => true,
        NodeKind::DynamicImport { .. } => true,
        NodeKind::Unary => !operands_are_literals(body, j),
        NodeKind::Binary => !operands_are_literals(body, j),
        NodeKind::Other => true,
        _ => false,
    }
}

/// Computes [`has_side_effect`]. What lies inside a function is passed over
/// without a look.
pub fn body_has_side_effect(body: &Body) -> (r: bool)
    requires
        body.wf(),
    ensures
        r == has_side_effect(body.nodes@),
{
    let n: usize = body.nodes.len();
    let mut j: usize = 0;
    while j < n
        invariant
            j <= n,
            n == body.nodes@.len(),
            body.wf(),
            !acts_before(body.nodes@, j as int),
            forall|a: int| 0 <= a < j && j < a + (#[trigger] body.nodes@[a]).size ==> !defers(body.nodes@[a].kind),
        decreases n - j,
    {
        let deferred = matches!(body.nodes[j].kind, NodeKind::Function { .. });
        if deferred {
            let next: usize = j + body.nodes[j].size;
            proof {
                let nodes = body.nodes@;
                assert(!acts(nodes, j as int));
                assert forall|k: int| j < k < next implies !evaluated(nodes, k) by {
                    assert(defers(nodes[j as int].kind) && k < j + nodes[j as int].size);
                }
                assert forall|a: int| 0 <= a < next && next < a + (#[trigger] nodes[a]).size implies !defers(
                    nodes[a].kind,
                ) by {
                    if a > j {
                        assert(a + nodes[a].size <= j + nodes[j as int].size);
                    }
                }
            }
            j = next;
        } else if acts_at(body, j) {
            assert(evaluated(body.nodes@, j as int));
            return true;
        } else {
            j += 1;
        }
    }
    false
}

} // verus!
