//! What the build reports of a module: errors that end its scan, and warnings.
use vstd::prelude::*;

verus! {

/// One finding about a module.
#[derive(Clone, Debug, PartialEq, Eq)]
pub enum BuildDiagnostic {
    /// A `const` is assigned to after its declaration.
    ForbidConstAssign { name: String },
    /// An imported binding is assigned to.
    AssignToImport { name: String },
    /// A name is exported that no declaration of the module introduces.
    ExportUndefinedVariable { name: String },
    /// The module calls on `eval`, which sees every binding in reach.
    Eval,
    /// An `import(..)` whose argument is no string literal: what it loads is
    /// not known before the program runs.
    UnanalyzableDynamicImport,
    /// A finding of the parser, in its own words.
    FrontEnd { message: String },
}

impl BuildDiagnostic {
    /// The finding in words.
    pub open spec fn text(self) -> Seq<char> {
        match self {
            BuildDiagnostic::ForbidConstAssign { name } => "Unexpected re-assignment of const variable `"@
                + name@ + "`"@,
            BuildDiagnostic::AssignToImport { name } => "Cannot assign to import `"@ + name@ + "`"@,
            BuildDiagnostic::ExportUndefinedVariable { name } => "Export `"@ + name@
                + "` is not defined"@,
            BuildDiagnostic::Eval => "Use of `eval` is strongly discouraged"@,
            BuildDiagnostic::UnanalyzableDynamicImport => "The argument of `import()` is not a string literal"@,
            BuildDiagnostic::FrontEnd { message } => message@,
        }
    }

    /// Computes [`text`](Self::text).
    pub fn message(&self) -> (r: String)
        ensures
            r@ == self.text(),
    {
        match self {
            BuildDiagnostic::ForbidConstAssign { name } => String::from_str(
                "Unexpected re-assignment of const variable `",
            ).concat(name.as_str()).concat("`"),
            BuildDiagnostic::AssignToImport { name } => String::from_str(
                "Cannot assign to import `",
            ).concat(name.as_str()).concat("`"),
            BuildDiagnostic::ExportUndefinedVariable { name } => String::from_str(
                "Export `",
            ).concat(name.as_str()).concat("` is not defined"),
            BuildDiagnostic::Eval => String::from_str("Use of `eval` is strongly discouraged"),
            BuildDiagnostic::UnanalyzableDynamicImport => String::from_str(
                "The argument of `import()` is not a string literal",
            ),
            BuildDiagnostic::FrontEnd { message } => message.clone(),
        }
    }
}

} // verus!
