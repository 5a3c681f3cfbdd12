use vstd::prelude::*;
use vstd::string::StringExecFns;
use crate::config::{json_strings_of, json_strings_under, yaml_strings_of, yaml_strings_under};
use crate::errors::ConfigError;
use crate::globs::{
    compile_globset, glob_set_is_match, glob_set_patterns, globset_builds, patterns_compile,
    set_matches,
};
use crate::strings_view;

verus! {

/// The package manager conventions a repository may follow; chosen once per
/// repository, it drives which declaration file is read and which paths the
/// walk ignores.
#[derive(Clone, Copy, Debug, PartialEq, Eq, Structural)]
pub enum PackageManager {
    Berry,
    Npm,
    Pnpm,
    Pnpm6,
    Yarn,
}

/// Name of the workspace declaration file this manager reads, relative to
/// the repository root.
pub open spec fn spec_declaration_file(pm: PackageManager) -> Seq<char> {
    match pm {
        PackageManager::Pnpm | PackageManager::Pnpm6 => "pnpm-workspace.yaml"@,
        _ => "package.json"@,
    }
}

/// The workspace globs the declaration text yields for this manager, before
/// the empty check: the pnpm family reads `packages` from YAML, the rest
/// read `workspaces` from JSON.
pub open spec fn spec_declared_globs(pm: PackageManager, text: Seq<char>) -> Option<Seq<Seq<char>>> {
    match pm {
        PackageManager::Pnpm | PackageManager::Pnpm6 => yaml_strings_of(text, "packages"@),
        _ => json_strings_of(text, "workspaces"@),
    }
}

/// What resolving workspace globs returns, as a function of the manager and
/// the declaration text (`None`: the file was absent or unreadable).
pub open spec fn spec_workspace_globs(pm: PackageManager, decl: Option<Seq<char>>) -> Result<
    Seq<Seq<char>>,
    ConfigError,
> {
    match decl {
        None => Err(ConfigError::MissingFile),
        Some(text) => match spec_declared_globs(pm, text) {
            None => Err(ConfigError::MalformedDocument),
            Some(globs) => if globs.len() == 0 {
                Err(ConfigError::EmptyWorkspaceDeclaration)
            } else {
                Ok(globs)
            },
        },
    }
}

/// The view of an optional declaration text.
pub open spec fn opt_text_view(t: Option<&str>) -> Option<Seq<char>> {
    match t {
        Some(s) => Some(s@),
        None => None,
    }
}

impl PackageManager {
    /// The declaration file to read under the repository root.
    pub fn workspace_declaration_file(&self) -> (r: &'static str)
        ensures
            r@ == spec_declaration_file(*self),
    {
        match self {
            PackageManager::Pnpm | PackageManager::Pnpm6 => "pnpm-workspace.yaml",
            _ => "package.json",
        }
    }

    /// Resolves the declared workspace globs from the declaration file's
    /// text (`None`: the file was absent or unreadable). The result is the
    /// declared glob list, in declaration order; a missing file, a document
    /// of the wrong shape, and an empty glob list each give their own error.
    pub fn get_workspace_globs(&self, decl_text: Option<&str>) -> (r: Result<
        Vec<String>,
        ConfigError,
    >)
        ensures
            r is Ok <==> spec_workspace_globs(*self, opt_text_view(decl_text)) is Ok,
            r is Ok ==> strings_view(r.unwrap()@) == spec_workspace_globs(
                *self,
                opt_text_view(decl_text),
            ).unwrap(),
            r is Err ==> r->Err_0 == spec_workspace_globs(*self, opt_text_view(decl_text))->Err_0,
    {
        match decl_text {
            None => Err(ConfigError::MissingFile),
            Some(text) => {
                let parsed = match self {
                    PackageManager::Pnpm | PackageManager::Pnpm6 => yaml_strings_under(
                        text,
                        "packages",
                    ),
                    _ => json_strings_under(text, "workspaces"),
                };
                match parsed {
                    None => Err(ConfigError::MalformedDocument),
                    Some(globs) => if globs.len() == 0 {
                        Err(ConfigError::EmptyWorkspaceDeclaration)
                    } else {
                        Ok(globs)
                    },
                }
            },
        }
    }

    /// Builds the glob set of paths the walk must ignore. Berry, Npm and the
    /// pnpm family use fixed pattern lists; Yarn derives one ignore pattern
    /// per declared workspace glob, so its declaration errors propagate.
    /// It succeeds exactly when the patterns resolve and globset accepts
    /// them all and builds the set.
    pub fn get_workspace_ignores(&self, decl_text: Option<&str>) -> (r: Result<
        globset::GlobSet,
        ConfigError,
    >)
        ensures
            r is Ok <==> spec_ignore_build_succeeds(*self, opt_text_view(decl_text)),
            r is Ok ==> glob_set_patterns(r.unwrap()) == spec_ignore_patterns(
                *self,
                opt_text_view(decl_text),
            ).unwrap(),
            spec_ignore_patterns(*self, opt_text_view(decl_text)) is Err ==> r is Err
                && r->Err_0 == spec_ignore_patterns(*self, opt_text_view(decl_text))->Err_0,
            r is Err ==> (spec_ignore_patterns(*self, opt_text_view(decl_text)) is Err
                && r->Err_0 == spec_ignore_patterns(*self, opt_text_view(decl_text))->Err_0)
                || r->Err_0 == ConfigError::GlobCompilationError,
    {
        match self {
            PackageManager::Berry => {
                let mut pats: Vec<String> = Vec::new();
                pats.push("**/node_modules".to_owned());
                pats.push("**/.git".to_owned());
                pats.push("**/.yarn".to_owned());
                proof {
                    assert(strings_view(pats@) =~= spec_ignore_patterns(
                        *self,
                        opt_text_view(decl_text),
                    ).unwrap());
                }
                compile_globset(&pats)
            },
            PackageManager::Npm => {
                let mut pats: Vec<String> = Vec::new();
                pats.push("**/node_modules/**".to_owned());
                proof {
                    assert(strings_view(pats@) =~= spec_ignore_patterns(
                        *self,
                        opt_text_view(decl_text),
                    ).unwrap());
                }
                compile_globset(&pats)
            },
            PackageManager::Pnpm | PackageManager::Pnpm6 => {
                let mut pats: Vec<String> = Vec::new();
                pats.push("**/node_modules/**".to_owned());
                pats.push("**/bower_components/**".to_owned());
                proof {
                    assert(strings_view(pats@) =~= spec_ignore_patterns(
                        *self,
                        opt_text_view(decl_text),
                    ).unwrap());
                }
                compile_globset(&pats)
            },
            PackageManager::Yarn => {
                let globs = match self.get_workspace_globs(decl_text) {
                    Ok(g) => g,
                    Err(e) => {
                        return Err(e);
                    },
                };
                let ghost declared = spec_workspace_globs(*self, opt_text_view(decl_text)).unwrap();
                let mut pats: Vec<String> = Vec::new();
                let mut i: usize = 0;
                while i < globs.len()
                    invariant
                        i <= globs@.len(),
                        strings_view(globs@) == declared,
                        pats@.len() == i,
                        forall|j: int|
                            0 <= j < i ==> #[trigger] pats@[j]@ == yarn_ignore_of(declared[j]),
                    decreases globs@.len() - i,
                {
                    pats.push(globs[i].clone().concat("/node_modules/**"));
                    proof {
                        assert(declared[i as int] == globs@[i as int]@);
                    }
                    i += 1;
                }
                proof {
                    assert(strings_view(pats@) =~= yarn_ignores_of(declared));
                }
                compile_globset(&pats)
            },
        }
    }

    /// Prepares the two compiled glob sets that drive the workspace walk:
    /// one manifest glob per declared workspace glob, anchored at the root,
    /// and the manager's ignore set. It succeeds exactly when the
    /// declaration resolves and globset accepts and builds both pattern
    /// lists.
    pub fn plan_workspaces(&self, root: &str, decl_text: Option<&str>) -> (r: Result<
        WorkspacePlan,
        ConfigError,
    >)
        ensures
            r is Ok <==> spec_plan_succeeds(*self, root@, opt_text_view(decl_text)),
            r is Ok ==> spec_manifest_patterns(*self, root@, opt_text_view(decl_text)) is Ok
                && glob_set_patterns(r.unwrap().manifest_globs) == spec_manifest_patterns(
                *self,
                root@,
                opt_text_view(decl_text),
            ).unwrap() && spec_ignore_patterns(*self, opt_text_view(decl_text)) is Ok
                && glob_set_patterns(r.unwrap().ignores) == spec_ignore_patterns(
                *self,
                opt_text_view(decl_text),
            ).unwrap(),
            spec_workspace_globs(*self, opt_text_view(decl_text)) is Err ==> r is Err
                && r->Err_0 == spec_workspace_globs(*self, opt_text_view(decl_text))->Err_0,
            r is Err ==> (spec_workspace_globs(*self, opt_text_view(decl_text)) is Err
                && r->Err_0 == spec_workspace_globs(*self, opt_text_view(decl_text))->Err_0)
                || r->Err_0 == ConfigError::GlobCompilationError,
    {
        let globs = match self.get_workspace_globs(decl_text) {
            Ok(g) => g,
            Err(e) => {
                return Err(e);
            },
        };
        let ghost declared = spec_workspace_globs(*self, opt_text_view(decl_text)).unwrap();
        let mut pats: Vec<String> = Vec::new();
        let mut i: usize = 0;
        while i < globs.len()
            invariant
                i <= globs@.len(),
                strings_view(globs@) == declared,
                pats@.len() == i,
                forall|j: int|
                    0 <= j < i ==> #[trigger] pats@[j]@ == manifest_glob_of(root@, declared[j]),
            decreases globs@.len() - i,
        {
            let anchored = root.to_owned().concat("/");
            let with_glob = anchored.concat(globs[i].as_str());
            pats.push(with_glob.concat("/package.json"));
            proof {
                assert(declared[i as int] == globs@[i as int]@);
            }
            i += 1;
        }
        proof {
            assert(strings_view(pats@) =~= manifest_globs_of(root@, declared));
        }
        let manifest_globs = match compile_globset(&pats) {
            Ok(s) => s,
            Err(e) => {
                return Err(e);
            },
        };
        let ignores = match self.get_workspace_ignores(decl_text) {
            Ok(s) => s,
            Err(e) => {
                return Err(e);
            },
        };
        Ok(WorkspacePlan { manifest_globs, ignores })
    }
}

/// The derived Yarn ignore pattern for one declared workspace glob: the
/// glob's own subtree of installed dependencies, and nothing outside it.
pub open spec fn yarn_ignore_of(g: Seq<char>) -> Seq<char> {
    g + "/node_modules/**"@
}

/// The Yarn ignore patterns for a declared glob list, one per glob, in
/// order.
pub open spec fn yarn_ignores_of(globs: Seq<Seq<char>>) -> Seq<Seq<char>> {
    globs.map_values(|g: Seq<char>| yarn_ignore_of(g))
}

/// The ignore patterns of each manager: fixed lists for Berry, Npm and the
/// pnpm family; for Yarn one derived pattern per declared workspace glob.
pub open spec fn spec_ignore_patterns(pm: PackageManager, decl: Option<Seq<char>>) -> Result<
    Seq<Seq<char>>,
    ConfigError,
> {
    match pm {
        PackageManager::Berry => Ok(seq!["**/node_modules"@, "**/.git"@, "**/.yarn"@]),
        PackageManager::Npm => Ok(seq!["**/node_modules/**"@]),
        PackageManager::Pnpm | PackageManager::Pnpm6 => Ok(
            seq!["**/node_modules/**"@, "**/bower_components/**"@],
        ),
        PackageManager::Yarn => match spec_workspace_globs(PackageManager::Yarn, decl) {
            Ok(globs) => Ok(yarn_ignores_of(globs)),
            Err(e) => Err(e),
        },
    }
}

/// Whether building the ignore set succeeds: the ignore patterns resolve,
/// globset accepts each, and the set builds.
pub open spec fn spec_ignore_build_succeeds(pm: PackageManager, decl: Option<Seq<char>>) -> bool {
    &&& spec_ignore_patterns(pm, decl) is Ok
    &&& patterns_compile(spec_ignore_patterns(pm, decl).unwrap())
    &&& globset_builds(spec_ignore_patterns(pm, decl).unwrap())
}

/// Whether preparing the walk plan succeeds: the declaration resolves, and
/// globset accepts and builds both the manifest patterns and the ignore
/// patterns.
pub open spec fn spec_plan_succeeds(
    pm: PackageManager,
    root: Seq<char>,
    decl: Option<Seq<char>>,
) -> bool {
    &&& spec_manifest_patterns(pm, root, decl) is Ok
    &&& patterns_compile(spec_manifest_patterns(pm, root, decl).unwrap())
    &&& globset_builds(spec_manifest_patterns(pm, root, decl).unwrap())
    &&& spec_ignore_build_succeeds(pm, decl)
}

/// The positive glob for one workspace glob: the manifest filename appended
/// to the glob, anchored at the repository root.
pub open spec fn manifest_glob_of(root: Seq<char>, g: Seq<char>) -> Seq<char> {
    root + "/"@ + g + "/package.json"@
}

/// The positive globs for a declared glob list, one per glob, in order.
pub open spec fn manifest_globs_of(root: Seq<char>, globs: Seq<Seq<char>>) -> Seq<Seq<char>> {
    globs.map_values(|g: Seq<char>| manifest_glob_of(root, g))
}

/// The positive manifest patterns of a resolution, or the error its
/// declaration yields.
pub open spec fn spec_manifest_patterns(
    pm: PackageManager,
    root: Seq<char>,
    decl: Option<Seq<char>>,
) -> Result<Seq<Seq<char>>, ConfigError> {
    match spec_workspace_globs(pm, decl) {
        Ok(globs) => Ok(manifest_globs_of(root, globs)),
        Err(e) => Err(e),
    }
}

/// The two compiled glob sets a workspace walk runs with.
#[derive(Debug)]
pub struct WorkspacePlan {
    /// Matches candidate manifest files.
    pub manifest_globs: globset::GlobSet,
    /// Matches paths the walk must leave out; it takes precedence.
    pub ignores: globset::GlobSet,
}

/// What the walk does with one filesystem entry.
#[derive(Clone, Copy, Debug, PartialEq, Eq, Structural)]
pub enum WalkDecision {
    /// A directory whose subtree stays in the walk.
    Descend,
    /// A directory whose whole subtree is left out.
    Prune,
    /// A file that belongs to the result.
    EmitManifest,
    /// A file that does not.
    Skip,
}

/// The walk decision for one entry: ignore matching takes precedence over
/// positive matching, and an ignored directory is pruned whole.
pub open spec fn spec_classify(positive: bool, ignored: bool, is_dir: bool) -> WalkDecision {
    if is_dir {
        if ignored {
            WalkDecision::Prune
        } else {
            WalkDecision::Descend
        }
    } else {
        if !ignored && positive {
            WalkDecision::EmitManifest
        } else {
            WalkDecision::Skip
        }
    }
}

impl WorkspacePlan {
    /// One step of the workspace walk: prune ignored directories, descend
    /// into the rest, emit files that match a manifest glob and are not
    /// ignored, and skip every other file.
    pub fn classify(&self, path: &str, is_dir: bool) -> (r: WalkDecision)
        ensures
            r == spec_classify(
                set_matches(self.manifest_globs, path@),
                set_matches(self.ignores, path@),
                is_dir,
            ),
    {
        let ignored = glob_set_is_match(&self.ignores, path);
        if is_dir {
            if ignored {
                WalkDecision::Prune
            } else {
                WalkDecision::Descend
            }
        } else {
            if !ignored && glob_set_is_match(&self.manifest_globs, path) {
                WalkDecision::EmitManifest
            } else {
                WalkDecision::Skip
            }
        }
    }
}

/// Law: resolving workspace globs is deterministic. Two resolutions of one
/// manager over one declaration text agree exactly.
pub proof fn lemma_workspace_globs_deterministic(
    pm: PackageManager,
    decl: Option<Seq<char>>,
    r1: Result<Seq<Seq<char>>, ConfigError>,
    r2: Result<Seq<Seq<char>>, ConfigError>,
)
    requires
        r1 == spec_workspace_globs(pm, decl),
        r2 == spec_workspace_globs(pm, decl),
    ensures
        r1 == r2,
{
}

/// Law: preparing the walk plan is deterministic in its outcome. With one
/// manager, root and declaration text, two preparations agree on whether
/// they succeed; on success, the determinism of the resolved globs pins
/// both pattern lists as well.
pub proof fn lemma_plan_outcome_deterministic(
    pm: PackageManager,
    root: Seq<char>,
    decl: Option<Seq<char>>,
    ok1: bool,
    ok2: bool,
)
    requires
        ok1 == spec_plan_succeeds(pm, root, decl),
        ok2 == spec_plan_succeeds(pm, root, decl),
    ensures
        ok1 == ok2,
        ok1 ==> spec_manifest_patterns(pm, root, decl) is Ok && spec_ignore_patterns(
            pm,
            decl,
        ) is Ok,
{
}

/// Law: the empty-workspace error comes exactly when the declaration text
/// parses to a glob list with zero entries, however the file is otherwise
/// shaped.
pub proof fn lemma_empty_declaration_iff(pm: PackageManager, text: Seq<char>)
    ensures
        spec_workspace_globs(pm, Some(text)) == Err::<Seq<Seq<char>>, ConfigError>(
            ConfigError::EmptyWorkspaceDeclaration,
        ) <==> (spec_declared_globs(pm, text) is Some && spec_declared_globs(
            pm,
            text,
        ).unwrap().len() == 0),
{
}

/// Law: for Berry, Npm and the pnpm family the ignore patterns are a fixed
/// list, the same whatever the declaration holds; only Yarn derives its
/// ignores from the declared globs.
pub proof fn lemma_fixed_ignores_independent_of_declaration(
    pm: PackageManager,
    d1: Option<Seq<char>>,
    d2: Option<Seq<char>>,
)
    requires
        pm != PackageManager::Yarn,
    ensures
        spec_ignore_patterns(pm, d1) == spec_ignore_patterns(pm, d2),
        spec_ignore_patterns(pm, d1) is Ok,
{
}

/// Law: ignore matching takes precedence over positive matching. An ignored
/// entry is never emitted: an ignored directory is pruned whole, and an
/// ignored file is skipped even when a manifest glob matches it.
pub proof fn lemma_ignore_takes_precedence(positive: bool, is_dir: bool)
    ensures
        spec_classify(positive, true, is_dir) != WalkDecision::EmitManifest,
        is_dir ==> spec_classify(positive, true, is_dir) == WalkDecision::Prune,
        !is_dir ==> spec_classify(positive, true, is_dir) == WalkDecision::Skip,
{
}

/// Law: Yarn's ignore set is scoped to the declared workspace globs. When
/// the declaration resolves, there is exactly one ignore pattern per
/// declared glob, in order, and it is that glob followed by
/// `/node_modules/**`.
pub proof fn lemma_yarn_ignores_scoped(decl: Option<Seq<char>>)
    requires
        spec_workspace_globs(PackageManager::Yarn, decl) is Ok,
    ensures
        spec_ignore_patterns(PackageManager::Yarn, decl) is Ok,
        spec_ignore_patterns(PackageManager::Yarn, decl).unwrap().len() == spec_workspace_globs(
            PackageManager::Yarn,
            decl,
        ).unwrap().len(),
        forall|i: int|
            0 <= i < spec_workspace_globs(PackageManager::Yarn, decl).unwrap().len()
                ==> spec_ignore_patterns(PackageManager::Yarn, decl).unwrap()[i] == yarn_ignore_of(
                #[trigger] spec_workspace_globs(PackageManager::Yarn, decl).unwrap()[i],
            ),
{
}

} // verus!
