//! What the build is configured with, as far as one module's view needs it.
use vstd::prelude::*;

verus! {

/// How the content of a module is to be read.
#[derive(Clone, Debug, PartialEq, Eq)]
pub enum ModuleType {
    Js,
    Jsx,
    Ts,
    Tsx,
    Json,
    Text,
    Base64,
    Dataurl,
    Binary,
    Empty,
    Css,
    Custom(String),
}

impl ModuleType {
    pub open spec fn spec_is_css(&self) -> bool {
        self is Css
    }

    /// Whether the module is a stylesheet.
    #[verifier::when_used_as_spec(spec_is_css)]
    pub fn is_css(&self) -> (r: bool)
        ensures
            r == self.spec_is_css(),
    {
        matches!(self, ModuleType::Css)
    }
}

/// The module system a file is declared to use, and where that was found.
#[derive(Clone, Copy, Debug, PartialEq, Eq, Structural)]
pub enum ModuleDefFormat {
    /// A `.cjs` file.
    Cjs,
    /// A `.cts` file.
    Cts,
    /// The nearest package manifest says `"type": "commonjs"`.
    CjsPackageJson,
    /// A `.mjs` file.
    EsmMjs,
    /// A `.mts` file.
    EsmMts,
    /// The nearest package manifest says `"type": "module"`.
    EsmPackageJson,
    /// Nothing declares it.
    Unknown,
}

impl ModuleDefFormat {
    pub open spec fn spec_is_esm(self) -> bool {
        self is EsmMjs || self is EsmMts || self is EsmPackageJson
    }

    #[verifier::when_used_as_spec(spec_is_esm)]
    pub fn is_esm(self) -> (r: bool)
        ensures
            r == self.spec_is_esm(),
    {
        matches!(self, ModuleDefFormat::EsmMjs | ModuleDefFormat::EsmMts | ModuleDefFormat::EsmPackageJson)
    }

    pub open spec fn spec_is_commonjs(self) -> bool {
        self is Cjs || self is Cts || self is CjsPackageJson
    }

    #[verifier::when_used_as_spec(spec_is_commonjs)]
    pub fn is_commonjs(self) -> (r: bool)
        ensures
            r == self.spec_is_commonjs(),
    {
        matches!(self, ModuleDefFormat::Cjs | ModuleDefFormat::Cts | ModuleDefFormat::CjsPackageJson)
    }
}

/// Whether a regular expression finds a match in a text, as
/// `regex::Regex::is_match` decides after `regex::Regex::new` has compiled
/// the pattern; `None` where the pattern does not compile.
pub uninterp spec fn regex_is_match(pattern: Seq<char>, text: Seq<char>) -> Option<bool>;

/// Calls `regex::Regex::new`, and `regex::Regex::is_match` on what it built.
/// The claim is only that the answer depends on the two texts alone.
#[verifier::external_body]
fn regex_test(pattern: &str, text: &str) -> (r: Option<bool>)
    ensures
        r == regex_is_match(pattern@, text@),
{
    regex::Regex::new(pattern).ok().map(|re| re.is_match(text))
}

/// What a pattern says of a module, given what the search for a match came
/// to: a module in which the pattern finds a match may have side effects,
/// and a pattern that does not compile rules nothing out.
pub open spec fn pattern_answer(found: Option<bool>) -> bool {
    match found {
        Some(found) => found,
        None => true,
    }
}

/// Computes [`pattern_answer`].
pub fn answer_of_pattern(found: Option<bool>) -> (r: bool)
    ensures
        r == pattern_answer(found),
{
    match found {
        Some(found) => found,
        None => true,
    }
}

/// Which modules may have side effects, by their stable id.
#[derive(Clone, Debug, PartialEq, Eq)]
pub enum ModuleSideEffects {
    /// The same answer for every module.
    Boolean(bool),
    /// The modules whose stable id the regular expression matches.
    Regex(String),
}

impl ModuleSideEffects {
    /// Whether the module with this stable id may have side effects. A
    /// pattern that does not compile rules nothing out.
    pub open spec fn resolved(self, stable_id: Seq<char>) -> bool {
        match self {
            ModuleSideEffects::Boolean(b) => b,
            ModuleSideEffects::Regex(pattern) => pattern_answer(regex_is_match(pattern@, stable_id)),
        }
    }

    /// Computes [`resolved`](Self::resolved).
    pub fn resolve(&self, stable_id: &str) -> (r: bool)
        ensures
            r == self.resolved(stable_id@),
    {
        match self {
            ModuleSideEffects::Boolean(b) => *b,
            ModuleSideEffects::Regex(pattern) => answer_of_pattern(regex_test(pattern.as_str(), stable_id)),
        }
    }
}

/// The tree-shaking options in their structured form.
#[derive(Clone, Debug, PartialEq, Eq)]
pub struct InnerOptions {
    pub module_side_effects: ModuleSideEffects,
}

/// The tree-shaking policy of the build.
#[derive(Clone, Debug, PartialEq, Eq)]
pub enum TreeshakeOptions {
    /// Tree shaking switched off or on, with nothing more said.
    Boolean(bool),
    /// Tree shaking on, with options.
    Options(InnerOptions),
}

impl TreeshakeOptions {
    pub open spec fn spec_is_disabled(&self) -> bool {
        *self == TreeshakeOptions::Boolean(false)
    }

    /// Whether tree shaking is switched off for the whole build.
    #[verifier::when_used_as_spec(spec_is_disabled)]
    pub fn is_disabled(&self) -> (r: bool)
        ensures
            r == self.spec_is_disabled(),
    {
        matches!(self, TreeshakeOptions::Boolean(false))
    }

    /// Whether the options let the module with this stable id have side
    /// effects. Where nothing is configured every module may.
    pub open spec fn module_may_have_side_effects(self, stable_id: Seq<char>) -> bool {
        match self {
            TreeshakeOptions::Boolean(on) => on,
            TreeshakeOptions::Options(options) => options.module_side_effects.resolved(stable_id),
        }
    }

    /// Computes [`module_may_have_side_effects`](Self::module_may_have_side_effects).
    pub fn resolve_module_side_effects(&self, stable_id: &str) -> (r: bool)
        ensures
            r == self.module_may_have_side_effects(stable_id@),
    {
        match self {
            TreeshakeOptions::Boolean(on) => *on,
            TreeshakeOptions::Options(options) => options.module_side_effects.resolve(stable_id),
        }
    }
}

/// The options of the build that the view of a module depends on.
#[derive(Clone, Debug, PartialEq, Eq)]
pub struct NormalizedBundlerOptions {
    /// The working directory: stable ids are given from here.
    pub cwd: String,
    pub treeshake: TreeshakeOptions,
}

} // verus!
