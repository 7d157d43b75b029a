//! The failure kinds of the template pipeline.

use vstd::prelude::*;
use vstd::string::StringExecFns;

verus! {

/// Everything that can go wrong while loading directories, building the
/// catalog, or rendering.
#[derive(Clone, Copy, PartialEq, Eq, Structural, Debug)]
pub enum Error {
    /// The probed path does not resolve to a directory.
    NotADirectory,
    /// A directory has no extractable base name.
    InvalidFilename,
    /// A sidecar metadata file is present but malformed.
    TemplateConfigError,
    /// A template-source file failed to compile, or inheritance
    /// resolution failed, which fails that whole root's build.
    CompilationError,
    /// The build-manifest fragment failed to render; fatal to the whole
    /// render call.
    ManifestRenderError,
    /// No template of the requested name is in the catalog.
    TemplateNotFound,
    /// The catalog builder was given no root directories.
    NoTemplateDirs,
}

/// An invalid value was supplied for a named input field.
#[derive(Clone)]
pub struct InputError(String);

impl InputError {
    /// The name of the field the bad input was for.
    pub closed spec fn spec_field(&self) -> Seq<char> {
        self.0@
    }

    pub fn new(field: String) -> (r: InputError)
        ensures
            r.spec_field() == field@,
    {
        InputError(field)
    }

    pub fn field(&self) -> (r: &String)
        ensures
            r@ == self.spec_field(),
    {
        &self.0
    }

    /// A human-readable description of the error.
    pub fn message(&self) -> (r: String)
        ensures
            r@ == "Invalid input for field "@ + self.spec_field()
                + ". This may be due to a typo or a missing value."@,
    {
        let mut m = String::new();
        m.append("Invalid input for field ");
        m.append(self.0.as_str());
        m.append(". This may be due to a typo or a missing value.");
        proof {
            assert(m@ =~= "Invalid input for field "@ + self.spec_field()
                + ". This may be due to a typo or a missing value."@);
        }
        m
    }
}

} // verus!
