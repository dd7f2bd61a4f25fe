//! What the scan keeps of each statement of a module.
use vstd::prelude::*;

use crate::symbol::ImportRecordIdx;
use crate::symbol::SymbolRef;

verus! {

/// One statement of a module as tree shaking sees it.
#[derive(Clone, Debug, PartialEq, Eq)]
pub struct StmtInfo {
    /// Whether running the statement may do something that can be observed.
    pub side_effect: bool,
    /// The symbols of the module's own scope that the statement declares.
    pub declared_symbols: Vec<SymbolRef>,
    /// The symbols of the module's own scope that the statement reads or writes.
    pub referenced_symbols: Vec<SymbolRef>,
    /// The import records that the statement gives rise to.
    pub import_records: Vec<ImportRecordIdx>,
}

/// A [`StmtInfo`] with sequences for its lists.
#[verifier::ext_equal]
pub struct StmtInfoView {
    pub side_effect: bool,
    pub declared_symbols: Seq<SymbolRef>,
    pub referenced_symbols: Seq<SymbolRef>,
    pub import_records: Seq<ImportRecordIdx>,
}

impl View for StmtInfo {
    type V = StmtInfoView;

    open spec fn view(&self) -> StmtInfoView {
        StmtInfoView {
            side_effect: self.side_effect,
            declared_symbols: self.declared_symbols@,
            referenced_symbols: self.referenced_symbols@,
            import_records: self.import_records@,
        }
    }
}

/// The views of the statements, in their order.
pub open spec fn stmt_info_views(stmt_infos: Seq<StmtInfo>) -> Seq<StmtInfoView> {
    Seq::new(stmt_infos.len(), |i: int| stmt_infos[i]@)
}

/// Whether any of the first `n` statements has a side effect.
pub open spec fn any_side_effect_before(stmt_infos: Seq<StmtInfoView>, n: int) -> bool {
    exists|i: int| 0 <= i < n && i < stmt_infos.len() && (#[trigger] stmt_infos[i]).side_effect
}

/// Whether any statement has a side effect.
pub open spec fn any_side_effect(stmt_infos: Seq<StmtInfoView>) -> bool {
    any_side_effect_before(stmt_infos, stmt_infos.len() as int)
}

/// Computes [`any_side_effect`].
pub fn has_side_effect_stmt(stmt_infos: &Vec<StmtInfo>) -> (r: bool)
    ensures
        r == any_side_effect(stmt_info_views(stmt_infos@)),
{
    let mut i: usize = 0;
    while i < stmt_infos.len()
        invariant
            i <= stmt_infos.len(),
            !any_side_effect_before(stmt_info_views(stmt_infos@), i as int),
        decreases stmt_infos.len() - i,
    {
        if stmt_infos[i].side_effect {
            assert(stmt_info_views(stmt_infos@)[i as int].side_effect);
            return true;
        }
        i += 1;
    }
    false
}

} // verus!
