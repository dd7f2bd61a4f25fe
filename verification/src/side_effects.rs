//! The side-effects verdict of a module and the layers it is drawn from.
//!
//! The layers are asked in a fixed order and the first that has an opinion
//! decides: the build's tree-shaking switch, the type of the module, the
//! plugin hook (or, without one, the options), the package manifest and at
//! last the statements of the module itself. A layer that is not reached is
//! not computed.
use vstd::prelude::*;

use crate::module_id::path_parent;
use crate::module_id::parent_dir;
use crate::module_id::relative_path;
use crate::module_id::relative_to;
use crate::options::ModuleType;
use crate::options::TreeshakeOptions;
use crate::package_json::PackageJson;
use crate::stmt_info::any_side_effect;
use crate::stmt_info::has_side_effect_stmt;
use crate::stmt_info::stmt_info_views;
use crate::stmt_info::StmtInfo;
use crate::stmt_info::StmtInfoView;

verus! {

/// What a plugin hook said of a module's side effects.
#[derive(Clone, Copy, Debug, PartialEq, Eq, Structural)]
pub enum HookSideEffects {
    /// The module has side effects, as far as the lower layers do not refine it.
    True,
    /// The module has none.
    False,
    /// The module is kept whole, whatever it holds.
    NoTreeshake,
}

/// The one verdict a module gets on whether removing it could be observed.
#[derive(Clone, Copy, Debug, PartialEq, Eq, Structural)]
pub enum DeterminedSideEffects {
    /// Found by looking at the module itself.
    Analyzed(bool),
    /// Declared by the user: a hook, the options or the package manifest.
    UserDefined(bool),
    /// Tree shaking does not apply to the module.
    NoTreeshake,
}

impl DeterminedSideEffects {
    /// Whether the module must be kept although nothing imports from it.
    pub open spec fn spec_has_side_effects(self) -> bool {
        match self {
            DeterminedSideEffects::Analyzed(b) => b,
            DeterminedSideEffects::UserDefined(b) => b,
            DeterminedSideEffects::NoTreeshake => true,
        }
    }

    #[verifier::when_used_as_spec(spec_has_side_effects)]
    pub fn has_side_effects(self) -> (r: bool)
        ensures
            r == self.spec_has_side_effects(),
    {
        match self {
            DeterminedSideEffects::Analyzed(b) => b,
            DeterminedSideEffects::UserDefined(b) => b,
            DeterminedSideEffects::NoTreeshake => true,
        }
    }
}

/// The build's switch: with tree shaking off no module is ever removed.
pub open spec fn treeshake_layer(treeshake: TreeshakeOptions) -> Option<DeterminedSideEffects> {
    if treeshake.spec_is_disabled() {
        Some(DeterminedSideEffects::NoTreeshake)
    } else {
        None
    }
}

/// The type of the module: a stylesheet always has an effect.
pub open spec fn module_type_layer(module_type: ModuleType) -> Option<DeterminedSideEffects> {
    if module_type.spec_is_css() {
        Some(DeterminedSideEffects::Analyzed(true))
    } else {
        None
    }
}

/// The plugin hook, and without one the options. A hook that says `True`
/// leaves the answer to the layers below; so do options that let the module
/// have side effects.
pub open spec fn hook_layer(
    hook: Option<HookSideEffects>,
    treeshake: TreeshakeOptions,
    stable_id: Seq<char>,
) -> Option<DeterminedSideEffects> {
    match hook {
        Some(HookSideEffects::True) => None,
        Some(HookSideEffects::False) => Some(DeterminedSideEffects::UserDefined(false)),
        Some(HookSideEffects::NoTreeshake) => Some(DeterminedSideEffects::NoTreeshake),
        None => if treeshake.module_may_have_side_effects(stable_id) {
            None
        } else {
            Some(DeterminedSideEffects::UserDefined(false))
        },
    }
}

/// The layers that look at no file and no statement.
pub open spec fn policy_layers(
    treeshake: TreeshakeOptions,
    module_type: ModuleType,
    hook: Option<HookSideEffects>,
    stable_id: Seq<char>,
) -> Option<DeterminedSideEffects> {
    if treeshake_layer(treeshake) is Some {
        treeshake_layer(treeshake)
    } else if module_type_layer(module_type) is Some {
        module_type_layer(module_type)
    } else {
        hook_layer(hook, treeshake, stable_id)
    }
}

/// The package manifest: what its `sideEffects` field says of the module as
/// seen from the directory of the manifest.
pub open spec fn manifest_layer(package_json: Option<PackageJson>, id: Seq<char>) -> Option<
    DeterminedSideEffects,
> {
    match package_json {
        None => None,
        Some(manifest) => match path_parent(manifest.path@) {
            None => None,
            Some(dir) => match manifest.side_effects_for(relative_to(id, dir)) {
                None => None,
                Some(b) => Some(DeterminedSideEffects::UserDefined(b)),
            },
        },
    }
}

/// The statements of the module: it has side effects where one of them has.
pub open spec fn analysis_layer(stmt_infos: Seq<StmtInfoView>) -> DeterminedSideEffects {
    DeterminedSideEffects::Analyzed(any_side_effect(stmt_infos))
}

/// What the layers come to: the opinion of the first that has one.
pub open spec fn determined_side_effects(
    treeshake: TreeshakeOptions,
    module_type: ModuleType,
    hook: Option<HookSideEffects>,
    stable_id: Seq<char>,
    package_json: Option<PackageJson>,
    id: Seq<char>,
    stmt_infos: Seq<StmtInfoView>,
) -> DeterminedSideEffects {
    match policy_layers(treeshake, module_type, hook, stable_id) {
        Some(verdict) => verdict,
        None => match manifest_layer(package_json, id) {
            Some(verdict) => verdict,
            None => analysis_layer(stmt_infos),
        },
    }
}

/// Asks the layers that look at no file and no statement. The options are
/// asked about the module only where no hook has spoken.
pub fn check_policy_layers(
    treeshake: &TreeshakeOptions,
    module_type: &ModuleType,
    hook: Option<HookSideEffects>,
    stable_id: &str,
) -> (r: Option<DeterminedSideEffects>)
    ensures
        r == policy_layers(*treeshake, *module_type, hook, stable_id@),
{
    if treeshake.is_disabled() {
        return Some(DeterminedSideEffects::NoTreeshake);
    }
    if module_type.is_css() {
        return Some(DeterminedSideEffects::Analyzed(true));
    }
    match hook {
        Some(HookSideEffects::True) => None,
        Some(HookSideEffects::False) => Some(DeterminedSideEffects::UserDefined(false)),
        Some(HookSideEffects::NoTreeshake) => Some(DeterminedSideEffects::NoTreeshake),
        None => if treeshake.resolve_module_side_effects(stable_id) {
            None
        } else {
            Some(DeterminedSideEffects::UserDefined(false))
        },
    }
}

/// Asks the package manifest.
pub fn check_manifest_layer(package_json: &Option<PackageJson>, id: &str) -> (r: Option<
    DeterminedSideEffects,
>)
    ensures
        r == manifest_layer(*package_json, id@),
{
    match package_json {
        None => None,
        Some(manifest) => match parent_dir(manifest.path.as_str()) {
            None => None,
            Some(dir) => {
                let seen = relative_path(id, dir.as_str());
                match manifest.check_side_effects_for(seen.as_str()) {
                    None => None,
                    Some(b) => Some(DeterminedSideEffects::UserDefined(b)),
                }
            },
        },
    }
}

/// Determines the side effects of a module. The manifest is read only where
/// the layers above it have no opinion, and the statements only where the
/// manifest has none either.
pub fn determine_side_effects(
    treeshake: &TreeshakeOptions,
    module_type: &ModuleType,
    hook: Option<HookSideEffects>,
    stable_id: &str,
    package_json: &Option<PackageJson>,
    id: &str,
    stmt_infos: &Vec<StmtInfo>,
) -> (r: DeterminedSideEffects)
    ensures
        r == determined_side_effects(
            *treeshake,
            *module_type,
            hook,
            stable_id@,
            *package_json,
            id@,
            stmt_info_views(stmt_infos@),
        ),
{
    match check_policy_layers(treeshake, module_type, hook, stable_id) {
        Some(verdict) => verdict,
        None => match check_manifest_layer(package_json, id) {
            Some(verdict) => verdict,
            None => DeterminedSideEffects::Analyzed(has_side_effect_stmt(stmt_infos)),
        },
    }
}

/// With tree shaking switched off for the build, every module gets
/// `NoTreeshake`: no hook, manifest or statement changes that.
pub proof fn law_disabled_treeshake_overrides(
    module_type: ModuleType,
    hook: Option<HookSideEffects>,
    stable_id: Seq<char>,
    package_json: Option<PackageJson>,
    id: Seq<char>,
    stmt_infos: Seq<StmtInfoView>,
)
    ensures
        determined_side_effects(
            TreeshakeOptions::Boolean(false),
            module_type,
            hook,
            stable_id,
            package_json,
            id,
            stmt_infos,
        ) == DeterminedSideEffects::NoTreeshake,
{
}

/// While tree shaking is on, a stylesheet gets `Analyzed(true)`: its type
/// wins over any hook, over the options and over the package manifest.
pub proof fn law_stylesheet_overrides(
    treeshake: TreeshakeOptions,
    hook: Option<HookSideEffects>,
    stable_id: Seq<char>,
    package_json: Option<PackageJson>,
    id: Seq<char>,
    stmt_infos: Seq<StmtInfoView>,
)
    requires
        !treeshake.spec_is_disabled(),
    ensures
        determined_side_effects(
            treeshake,
            ModuleType::Css,
            hook,
            stable_id,
            package_json,
            id,
            stmt_infos,
        ) == DeterminedSideEffects::Analyzed(true),
{
}

/// Where the layers that look at no file have an opinion, neither the
/// manifest nor the statements enter the verdict.
pub proof fn law_policy_skips_lower_layers(
    treeshake: TreeshakeOptions,
    module_type: ModuleType,
    hook: Option<HookSideEffects>,
    stable_id: Seq<char>,
    package_json_a: Option<PackageJson>,
    package_json_b: Option<PackageJson>,
    id: Seq<char>,
    stmt_infos_a: Seq<StmtInfoView>,
    stmt_infos_b: Seq<StmtInfoView>,
)
    requires
        policy_layers(treeshake, module_type, hook, stable_id) is Some,
    ensures
        determined_side_effects(treeshake, module_type, hook, stable_id, package_json_a, id, stmt_infos_a)
            == determined_side_effects(treeshake, module_type, hook, stable_id, package_json_b, id, stmt_infos_b),
{
}

/// Where the manifest or a layer above it has an opinion, the statements do
/// not enter the verdict.
pub proof fn law_manifest_skips_analysis(
    treeshake: TreeshakeOptions,
    module_type: ModuleType,
    hook: Option<HookSideEffects>,
    stable_id: Seq<char>,
    package_json: Option<PackageJson>,
    id: Seq<char>,
    stmt_infos_a: Seq<StmtInfoView>,
    stmt_infos_b: Seq<StmtInfoView>,
)
    requires
        policy_layers(treeshake, module_type, hook, stable_id) is Some || manifest_layer(
            package_json,
            id,
        ) is Some,
    ensures
        determined_side_effects(treeshake, module_type, hook, stable_id, package_json, id, stmt_infos_a)
            == determined_side_effects(treeshake, module_type, hook, stable_id, package_json, id, stmt_infos_b),
{
}

/// A hook that says `True` on a stylesheet, or with tree shaking off, gives
/// a verdict with side effects whatever the statements are, even where none
/// of them has any.
pub proof fn law_hook_true_without_analysis(
    treeshake: TreeshakeOptions,
    module_type: ModuleType,
    stable_id: Seq<char>,
    package_json: Option<PackageJson>,
    id: Seq<char>,
    stmt_infos: Seq<StmtInfoView>,
)
    requires
        treeshake.spec_is_disabled() || module_type.spec_is_css(),
    ensures
        determined_side_effects(
            treeshake,
            module_type,
            Some(HookSideEffects::True),
            stable_id,
            package_json,
            id,
            stmt_infos,
        ).spec_has_side_effects(),
{
}

/// The layers decide by what they are given and by nothing else: two runs
/// on the same module, options, hook and statements give the same.
pub proof fn law_side_effects_are_deterministic(
    first: DeterminedSideEffects,
    second: DeterminedSideEffects,
    treeshake: TreeshakeOptions,
    module_type: ModuleType,
    hook: Option<HookSideEffects>,
    stable_id: Seq<char>,
    package_json: Option<PackageJson>,
    id: Seq<char>,
    stmt_infos: Seq<StmtInfoView>,
)
    requires
        first == determined_side_effects(treeshake, module_type, hook, stable_id, package_json, id, stmt_infos),
        second == determined_side_effects(treeshake, module_type, hook, stable_id, package_json, id, stmt_infos),
    ensures
        first == second,
{
}

} // verus!
