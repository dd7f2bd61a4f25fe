//! Symbols and scopes: what the parser hands over, and the tables the module
//! graph works with.
use vstd::prelude::*;

verus! {

/// The place of a module in the module graph.
#[derive(Clone, Copy, Debug, PartialEq, Eq, Hash, Structural)]
pub struct ModuleIdx(pub u32);

/// The place of a symbol in the symbol table of its module.
#[derive(Clone, Copy, Debug, PartialEq, Eq, Hash, Structural)]
pub struct SymbolId(pub usize);

/// The place of a scope in the scope tree of its module. The scope of the
/// module itself comes first.
#[derive(Clone, Copy, Debug, PartialEq, Eq, Hash, Structural)]
pub struct ScopeId(pub usize);

/// The place of an import record in the records of its module.
#[derive(Clone, Copy, Debug, PartialEq, Eq, PartialOrd, Ord, Hash, Structural)]
pub struct ImportRecordIdx(pub usize);

impl oxc::index::Idx for ImportRecordIdx {
    fn from_usize(idx: usize) -> Self {
        ImportRecordIdx(idx)
    }

    fn index(self) -> usize {
        self.0
    }
}

/// A symbol of some module: the pair names it wherever it is used, without
/// the tables of the module that owns it.
#[derive(Clone, Copy, Debug, PartialEq, Eq, Hash, Structural)]
pub struct SymbolRef {
    pub owner: ModuleIdx,
    pub symbol: SymbolId,
}

/// What kind of declaration a symbol comes from, as far as the scan asks.
#[derive(Clone, Copy, Debug, PartialEq, Eq, Structural)]
pub struct SymbolFlags {
    pub is_const: bool,
    pub is_import: bool,
}

/// One symbol: its name, the scope that declares it, and its flags.
#[derive(Clone, Debug, PartialEq, Eq)]
pub struct SymbolData {
    pub name: String,
    pub scope: ScopeId,
    pub flags: SymbolFlags,
}

/// The symbols of a module as the parser found them, each at the place that
/// is its id.
#[derive(Clone, Debug, PartialEq, Eq)]
pub struct SymbolTable {
    pub symbols: Vec<SymbolData>,
}

/// The scopes of a module as the parser found them: for each scope the one
/// around it.
#[derive(Clone, Debug, PartialEq, Eq)]
pub struct ScopeTree {
    pub parents: Vec<Option<ScopeId>>,
}

/// The scope of the module itself.
pub open spec fn root_scope() -> ScopeId {
    ScopeId(0)
}

/// Whether `symbol` is in the table and declared in the scope of the module
/// itself.
pub open spec fn is_root_symbol(symbols: Seq<SymbolData>, symbol: SymbolId) -> bool {
    symbol.0 < symbols.len() && symbols[symbol.0 as int].scope == root_scope()
}

/// A name that a scope introduces.
#[derive(Clone, Debug, PartialEq, Eq)]
pub struct ScopeBinding {
    pub name: String,
    pub scope: ScopeId,
}

/// The scopes of a module, ready to be asked.
#[derive(Clone, Debug, PartialEq, Eq)]
pub struct AstScopes {
    pub parents: Vec<Option<ScopeId>>,
    /// For each symbol, at the place that is its id, the scope that
    /// introduces it and the name it goes by.
    pub bindings: Vec<ScopeBinding>,
}

/// Whether one of the first `n` bindings gives `name` to `scope`.
pub open spec fn binds_before(bindings: Seq<ScopeBinding>, scope: ScopeId, name: Seq<char>, n: int) -> bool {
    exists|i: int| 0 <= i < n && i < bindings.len() && (#[trigger] bindings[i]).scope == scope && bindings[i].name@ == name
}

impl AstScopes {
    /// The scope around `scope`; none around the scope of the module, nor
    /// around a scope that the tree does not hold.
    pub open spec fn parent_of(&self, scope: ScopeId) -> Option<ScopeId> {
        if scope.0 < self.parents@.len() {
            self.parents@[scope.0 as int]
        } else {
            None
        }
    }

    /// Computes [`parent_of`](Self::parent_of).
    pub fn get_parent_id(&self, scope: ScopeId) -> (r: Option<ScopeId>)
        ensures
            r == self.parent_of(scope),
    {
        if scope.0 < self.parents.len() {
            self.parents[scope.0]
        } else {
            None
        }
    }

    /// Whether `scope` itself introduces a binding for `name`.
    pub open spec fn binds(&self, scope: ScopeId, name: Seq<char>) -> bool {
        binds_before(self.bindings@, scope, name, self.bindings@.len() as int)
    }

    /// Computes [`binds`](Self::binds).
    pub fn has_binding(&self, scope: ScopeId, name: &str) -> (r: bool)
        ensures
            r == self.binds(scope, name@),
    {
        let wanted = String::from_str(name);
        let mut i: usize = 0;
        while i < self.bindings.len()
            invariant
                i <= self.bindings.len(),
                wanted@ == name@,
                !binds_before(self.bindings@, scope, name@, i as int),
            decreases self.bindings.len() - i,
        {
            if self.bindings[i].scope == scope && self.bindings[i].name == wanted {
                assert(self.bindings@[i as int].scope == scope && self.bindings@[i as int].name@ == name@);
                return true;
            }
            i += 1;
        }
        false
    }
}

/// Whether `bindings` says of each of the first `n` symbols what `symbols`
/// says.
pub open spec fn bindings_follow(bindings: Seq<ScopeBinding>, symbols: Seq<SymbolData>, n: int) -> bool {
    &&& bindings.len() == n
    &&& n <= symbols.len()
    &&& forall|i: int|
        0 <= i < n ==> (#[trigger] bindings[i]).name == symbols[i].name && bindings[i].scope == symbols[i].scope
}

/// Turns what the parser found into the tables of the bundler. Every symbol
/// keeps its place, which is its id from now on; the scopes keep their
/// parents and learn which names each of them introduces.
pub fn make_ast_scopes_and_symbols(symbols: SymbolTable, scopes: ScopeTree) -> (r: (SymbolTable, AstScopes))
    ensures
        r.0 == symbols,
        r.1.parents == scopes.parents,
        bindings_follow(r.1.bindings@, symbols.symbols@, symbols.symbols@.len() as int),
{
    let mut bindings: Vec<ScopeBinding> = Vec::new();
    let mut i: usize = 0;
    while i < symbols.symbols.len()
        invariant
            i <= symbols.symbols.len(),
            bindings_follow(bindings@, symbols.symbols@, i as int),
        decreases symbols.symbols.len() - i,
    {
        let name = symbols.symbols[i].name.clone();
        let scope = symbols.symbols[i].scope;
        bindings.push(ScopeBinding { name, scope });
        i += 1;
    }
    (symbols, AstScopes { parents: scopes.parents, bindings })
}

/// The symbols of one module: those that the parser found, and behind them
/// the ones that the bundler made up.
#[derive(Clone, Debug, PartialEq, Eq)]
pub struct SymbolRefDbForModule {
    pub owner: ModuleIdx,
    pub symbols: Vec<SymbolData>,
}

impl SymbolRefDbForModule {
    pub fn new(owner: ModuleIdx, table: SymbolTable) -> (r: SymbolRefDbForModule)
        ensures
            r.owner == owner,
            r.symbols == table.symbols,
    {
        SymbolRefDbForModule { owner, symbols: table.symbols }
    }

    /// Makes up a symbol in the scope of the module. It gets the next free id.
    pub fn create_facade_root_symbol_ref(&mut self, name: String) -> (r: SymbolRef)
        ensures
            final(self).owner == old(self).owner,
            final(self).symbols@ == old(self).symbols@.push(
                SymbolData {
                    name,
                    scope: root_scope(),
                    flags: SymbolFlags { is_const: false, is_import: false },
                },
            ),
            r == (SymbolRef { owner: old(self).owner, symbol: SymbolId(old(self).symbols@.len() as usize) }),
    {
        let symbol = SymbolId(self.symbols.len());
        self.symbols.push(
            SymbolData {
                name,
                scope: ScopeId(0),
                flags: SymbolFlags { is_const: false, is_import: false },
            },
        );
        SymbolRef { owner: self.owner, symbol }
    }

    /// Whether `symbol` is declared in the scope of the module itself.
    pub fn is_root(&self, symbol: SymbolId) -> (r: bool)
        ensures
            r == is_root_symbol(self.symbols@, symbol),
    {
        symbol.0 < self.symbols.len() && self.symbols[symbol.0].scope.0 == 0
    }
}

} // verus!
