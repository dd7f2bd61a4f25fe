//! The syntax tree of a module, as far as the scan reads it.
//!
//! The statements of the module stand in source order. What lies inside a
//! statement is a [`Body`]: its nodes in the order in which they begin in the
//! source, each with the number of nodes it spans.
use vstd::prelude::*;

use crate::symbol::SymbolId;

verus! {

/// What a node of the tree is.
#[derive(Clone, Debug, PartialEq, Eq)]
pub enum NodeKind {
    /// A number, string, boolean, `null`, regular expression or `this`.
    Literal,
    /// A name that is read. `symbol` is the declaration it resolves to; a
    /// name with none in sight is a global.
    Reference { name: String, symbol: Option<SymbolId> },
    /// A name that is declared here: a variable, a parameter.
    Binding { symbol: SymbolId },
    /// A `var`, `let` or `const` declaration.
    Variables,
    /// A pattern that takes a value apart.
    Pattern,
    /// A function or arrow function with its body; `name` where it declares one.
    Function { name: Option<SymbolId> },
    /// A class with its heritage and members; `name` where it declares one.
    Class { name: Option<SymbolId> },
    Array,
    Object,
    Template,
    Sequence,
    Conditional,
    Logical,
    Unary,
    Binary,
    /// A property read off an object.
    Member,
    /// A call; `pure` where a comment in front of it marks it as free of side
    /// effects: see [`marks_pure`].
    Call { pure: bool },
    /// A `new` expression; `pure` as for a call.
    New { pure: bool },
    /// An assignment or update; `target` where it writes to a declared name.
    Assign { target: Option<SymbolId> },
    /// `import(..)`; `request` where the argument is a string literal.
    DynamicImport { request: Option<String> },
    Block,
    If,
    /// An expression statement.
    Expression,
    /// Anything else: it is taken to do something.
    Other,
}

/// One node of a [`Body`], with the number of nodes of the subtree it heads,
/// itself included.
#[derive(Clone, Debug, PartialEq, Eq)]
pub struct Node {
    pub kind: NodeKind,
    pub size: usize,
}

/// Whether `nodes` is a sequence of trees written down in pre-order: every
/// subtree ends within the sequence and within each subtree that holds its
/// head.
pub open spec fn well_nested(nodes: Seq<Node>) -> bool {
    &&& forall|i: int| 0 <= i < nodes.len() ==> 1 <= (#[trigger] nodes[i]).size && i + nodes[i].size <= nodes.len()
    &&& forall|i: int, j: int|
        0 <= i < j < nodes.len() && j < i + (#[trigger] nodes[i]).size ==> j + (#[trigger] nodes[j]).size <= i + nodes[i].size
}

/// Whether the node at `i` lies in the subtree that the node at `a` heads.
pub open spec fn within(nodes: Seq<Node>, a: int, i: int) -> bool {
    a <= i < a + nodes[a].size
}

/// The inside of a statement: trees of nodes in pre-order.
#[derive(Clone, Debug, PartialEq, Eq)]
pub struct Body {
    pub nodes: Vec<Node>,
}

impl Body {
    /// The invariant of a body.
    pub open spec fn wf(&self) -> bool {
        well_nested(self.nodes@)
    }

    /// Tests the invariant.
    pub fn is_well_formed(&self) -> (r: bool)
        ensures
            r == self.wf(),
    {
        let n: usize = self.nodes.len();
        let mut i: usize = 0;
        while i < n
            invariant
                n == self.nodes@.len(),
                i <= n,
                forall|a: int| 0 <= a < i ==> 1 <= (#[trigger] self.nodes@[a]).size && a + self.nodes@[a].size <= n,
                forall|a: int, b: int|
                    0 <= a < i && a < b < n && b < a + (#[trigger] self.nodes@[a]).size ==> b + (#[trigger] self.nodes@[b]).size <= a + self.nodes@[a].size,
            decreases n - i,
        {
            let size: usize = self.nodes[i].size;
            if size < 1 || size > n - i {
                return false;
            }
            let end: usize = i + size;
            let mut j: usize = i + 1;
            while j < end
                invariant
                    n == self.nodes@.len(),
                    i < j <= end,
                    end == i + self.nodes@[i as int].size,
                    end <= n,
                    forall|b: int| i < b < j ==> b + (#[trigger] self.nodes@[b]).size <= end,
                decreases end - j,
            {
                if self.nodes[j].size > end - j {
                    return false;
                }
                j += 1;
            }
            i += 1;
        }
        true
    }

    /// A body without nodes.
    pub fn empty() -> (r: Body)
        ensures
            r.wf(),
            r.nodes@.len() == 0,
    {
        Body { nodes: Vec::new() }
    }

    /// A single node without children.
    pub fn leaf(kind: NodeKind) -> (r: Body)
        ensures
            r.wf(),
            r.nodes@ == seq![Node { kind, size: 1 }],
    {
        let mut nodes: Vec<Node> = Vec::new();
        nodes.push(Node { kind, size: 1 });
        Body { nodes }
    }

    /// The trees of `self` followed by those of `next`.
    pub fn followed_by(self, next: Body) -> (r: Body)
        requires
            self.wf(),
            next.wf(),
        ensures
            r.wf(),
            r.nodes@ == self.nodes@ + next.nodes@,
    {
        let ghost first = self.nodes@;
        let ghost second = next.nodes@;
        let mut nodes = self.nodes;
        let mut rest = next.nodes;
        nodes.append(&mut rest);
        proof {
            let all = nodes@;
            assert(all =~= first + second);
            assert forall|i: int| 0 <= i < all.len() implies 1 <= (#[trigger] all[i]).size && i + all[i].size <= all.len() by {
                if i >= first.len() {
                    assert(all[i] == second[i - first.len()]);
                }
            }
            assert forall|i: int, j: int|
                0 <= i < j < all.len() && j < i + (#[trigger] all[i]).size implies j + (#[trigger] all[j]).size <= i + all[i].size by {
                if i >= first.len() {
                    assert(all[i] == second[i - first.len()]);
                    assert(all[j] == second[j - first.len()]);
                } else {
                    assert(all[i] == first[i]);
                    assert(all[j] == first[j]);
                }
            }
        }
        Body { nodes }
    }

    /// One node of the given kind with the trees of `children` below it.
    pub fn node(kind: NodeKind, children: Body) -> (r: Body)
        requires
            children.wf(),
        ensures
            r.wf(),
            r.nodes@ == seq![Node { kind, size: (children.nodes@.len() + 1) as usize }] + children.nodes@,
            children.nodes@.len() + 1 <= usize::MAX,
    {
        let ghost below = children.nodes@;
        let mut nodes: Vec<Node> = Vec::new();
        nodes.push(Node { kind: NodeKind::Literal, size: 1 });
        let mut rest = children.nodes;
        nodes.append(&mut rest);
        let size: usize = nodes.len();
        nodes.set(0, Node { kind, size });
        proof {
            let all = nodes@;
            assert(all =~= seq![Node { kind, size }] + below);
            assert forall|i: int| 0 <= i < all.len() implies 1 <= (#[trigger] all[i]).size && i + all[i].size <= all.len() by {
                if i > 0 {
                    assert(all[i] == below[i - 1]);
                }
            }
            assert forall|i: int, j: int|
                0 <= i < j < all.len() && j < i + (#[trigger] all[i]).size implies j + (#[trigger] all[j]).size <= i + all[i].size by {
                assert(all[j] == below[j - 1]);
                if i > 0 {
                    assert(all[i] == below[i - 1]);
                }
            }
        }
        Body { nodes }
    }
}


impl NodeKind {
    /// The symbol that a node of this kind names, where it names one.
    pub open spec fn symbol(self) -> Option<SymbolId> {
        match self {
            NodeKind::Reference { symbol, .. } => symbol,
            NodeKind::Binding { symbol } => Some(symbol),
            NodeKind::Function { name } => name,
            NodeKind::Class { name } => name,
            NodeKind::Assign { target } => target,
            _ => None,
        }
    }

    /// Computes [`symbol`](Self::symbol).
    pub fn named_symbol(&self) -> (r: Option<SymbolId>)
        ensures
            r == self.symbol(),
    {
        match self {
            NodeKind::Reference { symbol, .. } => *symbol,
            NodeKind::Binding { symbol } => Some(*symbol),
            NodeKind::Function { name } => *name,
            NodeKind::Class { name } => *name,
            NodeKind::Assign { target } => *target,
            _ => None,
        }
    }
}

/// Whether every symbol that the first `n` nodes name is one of the first
/// `symbols` of the table.
pub open spec fn symbols_below(nodes: Seq<Node>, symbols: int, n: int) -> bool {
    forall|i: int|
        0 <= i < n && i < nodes.len() ==> match (#[trigger] nodes[i]).kind.symbol() {
            Some(symbol) => symbol.0 < symbols,
            None => true,
        }
}

impl Body {
    /// Whether the body is well formed and names only symbols of a table
    /// with `symbols` entries.
    pub open spec fn valid_for(&self, symbols: int) -> bool {
        self.wf() && symbols_below(self.nodes@, symbols, self.nodes@.len() as int)
    }

    /// Computes [`valid_for`](Self::valid_for).
    pub fn is_valid_for(&self, symbols: usize) -> (r: bool)
        ensures
            r == self.valid_for(symbols as int),
    {
        if !self.is_well_formed() {
            return false;
        }
        let mut i: usize = 0;
        while i < self.nodes.len()
            invariant
                i <= self.nodes.len(),
                symbols_below(self.nodes@, symbols as int, i as int),
            decreases self.nodes.len() - i,
        {
            match self.nodes[i].kind.named_symbol() {
                Some(symbol) => {
                    if symbol.0 >= symbols {
                        assert(self.nodes@[i as int].kind.symbol() == Some(symbol));
                        return false;
                    }
                },
                None => {},
            }
            i += 1;
        }
        true
    }
}

/// The name under which a module offers what an import takes from it.
#[derive(Clone, Debug, PartialEq, Eq)]
pub enum ImportedName {
    /// The default export.
    Default,
    /// The namespace of the module: all its exports as one object.
    Namespace,
    Named(String),
}

/// The name under which a module offers one of its exports.
#[derive(Clone, Debug, PartialEq, Eq)]
pub enum ExportedName {
    Default,
    Named(String),
}

impl ImportedName {
    /// The name as written: `default`, `*`, or the name itself.
    pub open spec fn text(self) -> Seq<char> {
        match self {
            ImportedName::Default => "default"@,
            ImportedName::Namespace => "*"@,
            ImportedName::Named(name) => name@,
        }
    }

    pub fn copy(&self) -> (r: ImportedName)
        ensures
            r == *self,
    {
        match self {
            ImportedName::Default => ImportedName::Default,
            ImportedName::Namespace => ImportedName::Namespace,
            ImportedName::Named(name) => ImportedName::Named(name.clone()),
        }
    }
}

impl ExportedName {
    /// The name as written: `default`, or the name itself.
    pub open spec fn text(self) -> Seq<char> {
        match self {
            ExportedName::Default => "default"@,
            ExportedName::Named(name) => name@,
        }
    }

    pub fn copy(&self) -> (r: ExportedName)
        ensures
            r == *self,
    {
        match self {
            ExportedName::Default => ExportedName::Default,
            ExportedName::Named(name) => ExportedName::Named(name.clone()),
        }
    }
}

/// One binding of an `import` statement: `local` is the symbol it declares.
#[derive(Clone, Debug, PartialEq, Eq)]
pub struct ImportSpecifier {
    pub imported: ImportedName,
    pub local: SymbolId,
}

/// One name of an `export { .. }` list. `symbol` is the declaration that
/// `local` resolves to, where the module has one.
#[derive(Clone, Debug, PartialEq, Eq)]
pub struct ExportSpecifier {
    pub local: String,
    pub symbol: Option<SymbolId>,
    pub exported: ExportedName,
}

/// One name of an `export { .. } from` list.
#[derive(Clone, Debug, PartialEq, Eq)]
pub struct ReExportSpecifier {
    pub imported: ImportedName,
    pub exported: ExportedName,
}

/// One statement of a module.
#[derive(Clone, Debug, PartialEq, Eq)]
pub enum Stmt {
    /// `import .. from 'request'`, or `import 'request'` without specifiers.
    Import { request: String, specifiers: Vec<ImportSpecifier> },
    /// `export { .. }`
    ExportNamed { specifiers: Vec<ExportSpecifier> },
    /// `export { .. } from 'request'`
    ReExport { request: String, specifiers: Vec<ReExportSpecifier> },
    /// `export * from 'request'`, or `export * as name from 'request'`
    ExportAll { request: String, exported: Option<ExportedName> },
    /// `export default ..`; `name` where a function or class is exported
    /// that declares one.
    ExportDefault { name: Option<SymbolId>, body: Body },
    /// `export` in front of a declaration.
    ExportDecl { body: Body },
    /// Any other statement.
    Other { body: Body },
}

/// Whether each of the first `n` specifiers declares a symbol of a table with
/// `symbols` entries.
pub open spec fn locals_below(specifiers: Seq<ImportSpecifier>, symbols: int, n: int) -> bool {
    forall|i: int| 0 <= i < n && i < specifiers.len() ==> (#[trigger] specifiers[i]).local.0 < symbols
}

/// Whether each of the first `n` specifiers resolves, if at all, to a symbol
/// of a table with `symbols` entries.
pub open spec fn exports_below(specifiers: Seq<ExportSpecifier>, symbols: int, n: int) -> bool {
    forall|i: int|
        0 <= i < n && i < specifiers.len() ==> match (#[trigger] specifiers[i]).symbol {
            Some(symbol) => symbol.0 < symbols,
            None => true,
        }
}

fn check_locals_below(specifiers: &Vec<ImportSpecifier>, symbols: usize) -> (r: bool)
    ensures
        r == locals_below(specifiers@, symbols as int, specifiers@.len() as int),
{
    let mut i: usize = 0;
    while i < specifiers.len()
        invariant
            i <= specifiers.len(),
            locals_below(specifiers@, symbols as int, i as int),
        decreases specifiers.len() - i,
    {
        if specifiers[i].local.0 >= symbols {
            assert(!(specifiers@[i as int].local.0 < symbols));
            return false;
        }
        i += 1;
    }
    true
}

fn check_exports_below(specifiers: &Vec<ExportSpecifier>, symbols: usize) -> (r: bool)
    ensures
        r == exports_below(specifiers@, symbols as int, specifiers@.len() as int),
{
    let mut i: usize = 0;
    while i < specifiers.len()
        invariant
            i <= specifiers.len(),
            exports_below(specifiers@, symbols as int, i as int),
        decreases specifiers.len() - i,
    {
        match specifiers[i].symbol {
            Some(symbol) => {
                if symbol.0 >= symbols {
                    assert(specifiers@[i as int].symbol == Some(symbol));
                    return false;
                }
            },
            None => {},
        }
        i += 1;
    }
    true
}

impl Stmt {
    /// The body of the statement, where it has one.
    pub open spec fn body(self) -> Option<Body> {
        match self {
            Stmt::ExportDefault { body, .. } => Some(body),
            Stmt::ExportDecl { body } => Some(body),
            Stmt::Other { body } => Some(body),
            _ => None,
        }
    }

    /// Whether the statement is well formed and names only symbols of a
    /// table with `symbols` entries.
    pub open spec fn valid_for(self, symbols: int) -> bool {
        match self {
            Stmt::Import { specifiers, .. } => locals_below(specifiers@, symbols, specifiers@.len() as int),
            Stmt::ExportNamed { specifiers } => exports_below(specifiers@, symbols, specifiers@.len() as int),
            Stmt::ReExport { .. } => true,
            Stmt::ExportAll { .. } => true,
            Stmt::ExportDefault { name, body } => body.valid_for(symbols) && match name {
                Some(symbol) => symbol.0 < symbols,
                None => true,
            },
            Stmt::ExportDecl { body } => body.valid_for(symbols),
            Stmt::Other { body } => body.valid_for(symbols),
        }
    }

    /// Computes [`valid_for`](Self::valid_for).
    pub fn is_valid_for(&self, symbols: usize) -> (r: bool)
        ensures
            r == self.valid_for(symbols as int),
    {
        match self {
            Stmt::Import { specifiers, .. } => check_locals_below(specifiers, symbols),
            Stmt::ExportNamed { specifiers } => check_exports_below(specifiers, symbols),
            Stmt::ReExport { .. } => true,
            Stmt::ExportAll { .. } => true,
            Stmt::ExportDefault { name, body } => {
                let named = match name {
                    Some(symbol) => symbol.0 < symbols,
                    None => true,
                };
                named && body.is_valid_for(symbols)
            },
            Stmt::ExportDecl { body } => body.is_valid_for(symbols),
            Stmt::Other { body } => body.is_valid_for(symbols),
        }
    }
}

/// Whether each of the first `n` statements is valid for a table with
/// `symbols` entries.
pub open spec fn stmts_valid_for(stmts: Seq<Stmt>, symbols: int, n: int) -> bool {
    forall|i: int| 0 <= i < n && i < stmts.len() ==> (#[trigger] stmts[i]).valid_for(symbols)
}

/// A parsed module: its source text and its statements in source order.
#[derive(Clone, Debug, PartialEq, Eq)]
pub struct EcmaAst {
    pub source: String,
    pub body: Vec<Stmt>,
}

impl EcmaAst {
    /// Whether every statement is well formed and names only symbols of a
    /// table with `symbols` entries.
    pub open spec fn valid_for(&self, symbols: int) -> bool {
        stmts_valid_for(self.body@, symbols, self.body@.len() as int)
    }

    /// Computes [`valid_for`](Self::valid_for).
    pub fn is_valid_for(&self, symbols: usize) -> (r: bool)
        ensures
            r == self.valid_for(symbols as int),
    {
        let mut i: usize = 0;
        while i < self.body.len()
            invariant
                i <= self.body.len(),
                stmts_valid_for(self.body@, symbols as int, i as int),
            decreases self.body.len() - i,
        {
            if !self.body[i].is_valid_for(symbols) {
                assert(!self.body@[i as int].valid_for(symbols as int));
                return false;
            }
            i += 1;
        }
        true
    }
}

/// Whether `pattern` stands somewhere in `s`.
pub open spec fn has_infix(s: Seq<char>, pattern: Seq<char>) -> bool {
    exists|i: int| 0 <= i <= s.len() - pattern.len() && #[trigger] s.subrange(i, i + pattern.len()) == pattern
}

/// Whether a comment in front of a call marks the call as free of side
/// effects: it holds `#__PURE__` or `@__PURE__`.
pub open spec fn marks_pure(comment: Seq<char>) -> bool {
    has_infix(comment, "#__PURE__"@) || has_infix(comment, "@__PURE__"@)
}

/// Computes [`has_infix`].
pub fn contains_text(s: &str, pattern: &str) -> (r: bool)
    ensures
        r == has_infix(s@, pattern@),
{
    let n: usize = s.unicode_len();
    let m: usize = pattern.unicode_len();
    if m > n {
        return false;
    }
    let mut i: usize = 0;
    while i <= n - m
        invariant
            n == s@.len(),
            m == pattern@.len(),
            m <= n,
            i <= n - m + 1,
            forall|k: int| 0 <= k < i ==> #[trigger] s@.subrange(k, k + m) != pattern@,
        decreases n - m + 1 - i,
    {
        let mut j: usize = 0;
        while j < m && s.get_char(i + j) == pattern.get_char(j)
            invariant
                n == s@.len(),
                m == pattern@.len(),
                i <= n - m,
                j <= m,
                forall|k: int| 0 <= k < j ==> s@[i + k] == pattern@[k],
            decreases m - j,
        {
            j += 1;
        }
        if j == m {
            assert(s@.subrange(i as int, i + m) =~= pattern@);
            return true;
        }
        assert(s@.subrange(i as int, i + m)[j as int] != pattern@[j as int]);
        i += 1;
    }
    false
}

/// Computes [`marks_pure`].
pub fn is_pure_annotation(comment: &str) -> (r: bool)
    ensures
        r == marks_pure(comment@),
{
    contains_text(comment, "#__PURE__") || contains_text(comment, "@__PURE__")
}

} // verus!
