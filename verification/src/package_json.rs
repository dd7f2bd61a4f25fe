//! The package manifest of a module, as far as side effects go.
use vstd::prelude::*;

verus! {

/// Whether a glob pattern matches a path, as `glob_match::glob_match` decides.
pub uninterp spec fn glob_matches(glob: Seq<char>, path: Seq<char>) -> bool;

/// Calls `glob_match::glob_match`. The claim is only that the answer depends
/// on the two texts alone.
#[verifier::external_body]
fn glob_match(glob: &str, path: &str) -> (r: bool)
    ensures
        r == glob_matches(glob@, path@),
{
    glob_match::glob_match(glob, path)
}

/// `s` without the `./` it starts with, however many times it does.
pub open spec fn without_leading_dot_slash(s: Seq<char>) -> Seq<char>
    decreases s.len(),
{
    if s.len() >= 2 && s[0] == '.' && s[1] == '/' {
        without_leading_dot_slash(s.skip(2))
    } else {
        s
    }
}

/// The glob that a pattern of the manifest stands for. A pattern without any
/// `/` names a file wherever it lies in the package; any other pattern is a
/// path from the package directory, with or without `./` in front.
pub open spec fn normalized_pattern(pattern: Seq<char>) -> Seq<char> {
    if pattern.contains('/') {
        without_leading_dot_slash(pattern)
    } else {
        "**/"@ + pattern
    }
}

/// Whether a pattern of the manifest selects a path given from the package
/// directory.
pub open spec fn pattern_selects(pattern: Seq<char>, path: Seq<char>) -> bool {
    glob_matches(normalized_pattern(pattern), path)
}

fn contains_slash(s: &str) -> (r: bool)
    ensures
        r == s@.contains('/'),
{
    let n: usize = s.unicode_len();
    let mut i: usize = 0;
    while i < n
        invariant
            n == s@.len(),
            i <= n,
            forall|j: int| 0 <= j < i ==> s@[j] != '/',
        decreases n - i,
    {
        if s.get_char(i) == '/' {
            return true;
        }
        i += 1;
    }
    false
}

fn strip_leading_dot_slash(s: &str) -> (r: &str)
    ensures
        r@ == without_leading_dot_slash(s@),
{
    let n: usize = s.unicode_len();
    let mut start: usize = 0;
    assert(s@.skip(0) =~= s@);
    while n - start >= 2 && s.get_char(start) == '.' && s.get_char(start + 1) == '/'
        invariant
            n == s@.len(),
            start <= n,
            without_leading_dot_slash(s@) == without_leading_dot_slash(s@.skip(start as int)),
        decreases n - start,
    {
        proof {
            let rest = s@.skip(start as int);
            assert(rest.len() >= 2 && rest[0] == '.' && rest[1] == '/');
            assert(rest.skip(2) =~= s@.skip(start + 2));
        }
        start += 2;
    }
    let r = s.substring_char(start, n);
    proof {
        let rest = s@.skip(start as int);
        assert(r@ =~= rest);
        assert(!(rest.len() >= 2 && rest[0] == '.' && rest[1] == '/'));
    }
    r
}

/// Computes [`pattern_selects`].
pub fn glob_match_with_normalized_pattern(pattern: &str, path: &str) -> (r: bool)
    ensures
        r == pattern_selects(pattern@, path@),
{
    if contains_slash(pattern) {
        glob_match(strip_leading_dot_slash(pattern), path)
    } else {
        let glob = String::from_str("**/").concat(pattern);
        glob_match(glob.as_str(), path)
    }
}

/// The `sideEffects` field of a package manifest.
#[derive(Clone, Debug, PartialEq, Eq)]
pub enum SideEffects {
    /// One answer for every file of the package.
    Flag(bool),
    /// One pattern: the files it selects have side effects.
    Pattern(String),
    /// Several patterns: the files that any of them selects have side effects.
    Patterns(Vec<String>),
}

/// Whether any of the first `n` patterns selects `path`.
pub open spec fn any_pattern_selects(patterns: Seq<String>, n: int, path: Seq<char>) -> bool {
    exists|i: int| 0 <= i < n && i < patterns.len() && pattern_selects(#[trigger] patterns[i]@, path)
}

impl SideEffects {
    /// What the field says of a file given from the package directory.
    pub open spec fn selects(self, path: Seq<char>) -> bool {
        match self {
            SideEffects::Flag(b) => b,
            SideEffects::Pattern(p) => pattern_selects(p@, path),
            SideEffects::Patterns(ps) => any_pattern_selects(ps@, ps@.len() as int, path),
        }
    }
}

/// A package manifest: where it lies and what it says of side effects.
#[derive(Clone, Debug, PartialEq, Eq)]
pub struct PackageJson {
    /// The path of the manifest file itself.
    pub path: String,
    pub side_effects: Option<SideEffects>,
}

impl PackageJson {
    /// What the manifest says of a file given from the package directory;
    /// `None` where it has no `sideEffects` field.
    pub open spec fn side_effects_for(self, file: Seq<char>) -> Option<bool> {
        match self.side_effects {
            None => None,
            Some(field) => Some(field.selects(file)),
        }
    }

    /// Computes [`side_effects_for`](Self::side_effects_for).
    pub fn check_side_effects_for(&self, file: &str) -> (r: Option<bool>)
        ensures
            r == self.side_effects_for(file@),
    {
        match &self.side_effects {
            None => None,
            Some(SideEffects::Flag(b)) => Some(*b),
            Some(SideEffects::Pattern(p)) => Some(
                glob_match_with_normalized_pattern(p.as_str(), file),
            ),
            Some(SideEffects::Patterns(ps)) => {
                let mut i: usize = 0;
                while i < ps.len()
                    invariant
                        i <= ps.len(),
                        self.side_effects == Some(SideEffects::Patterns(*ps)),
                        !any_pattern_selects(ps@, i as int, file@),
                    decreases ps.len() - i,
                {
                    if glob_match_with_normalized_pattern(ps[i].as_str(), file) {
                        assert(pattern_selects(ps@[i as int]@, file@));
                        return Some(true);
                    }
                    i += 1;
                }
                Some(false)
            },
        }
    }
}

} // verus!
