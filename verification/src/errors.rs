use vstd::prelude::*;

verus! {

/// Why a workspace resolution failed before or during glob construction.
#[derive(Clone, Copy, Debug, PartialEq, Eq, Structural)]
pub enum ConfigError {
    /// The workspace declaration file is absent or unreadable.
    MissingFile,
    /// The declaration file is present but does not parse into the expected
    /// shape (a top-level list of glob strings under the manager's key).
    MalformedDocument,
    /// The declaration parses but declares zero workspace globs; a
    /// workspace-enabled repository cannot have an empty glob list.
    EmptyWorkspaceDeclaration,
    /// A path or glob component is not valid text.
    InvalidPathEncoding,
    /// A constructed pattern is not a syntactically valid glob, or the
    /// pattern set could not be compiled.
    GlobCompilationError,
}

impl ConfigError {
    /// A short description of the error, for callers that report it.
    pub fn describe(&self) -> (r: &'static str)
        ensures
            r@ == spec_describe(*self),
    {
        match self {
            ConfigError::MissingFile => "workspace declaration file is missing or unreadable",
            ConfigError::MalformedDocument => "workspace declaration file is malformed",
            ConfigError::EmptyWorkspaceDeclaration => "workspace declaration lists no packages",
            ConfigError::InvalidPathEncoding => "path is invalid unicode",
            ConfigError::GlobCompilationError => "workspace glob did not compile",
        }
    }
}

/// The description each error variant carries.
pub open spec fn spec_describe(e: ConfigError) -> Seq<char> {
    match e {
        ConfigError::MissingFile => "workspace declaration file is missing or unreadable"@,
        ConfigError::MalformedDocument => "workspace declaration file is malformed"@,
        ConfigError::EmptyWorkspaceDeclaration => "workspace declaration lists no packages"@,
        ConfigError::InvalidPathEncoding => "path is invalid unicode"@,
        ConfigError::GlobCompilationError => "workspace glob did not compile"@,
    }
}

} // verus!
