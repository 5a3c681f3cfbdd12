use vstd::prelude::*;
use crate::errors::ConfigError;
use crate::strings_view;

verus! {

#[verifier::external_type_specification]
#[verifier::external_body]
pub struct ExGlobSet(globset::GlobSet);

#[verifier::external_type_specification]
#[verifier::external_body]
pub struct ExGlobSetBuilder(globset::GlobSetBuilder);

#[verifier::external_type_specification]
#[verifier::external_body]
pub struct ExGlobsetError(globset::Error);

/// The glob patterns a builder has been given so far, in order.
pub uninterp spec fn builder_patterns(b: globset::GlobSetBuilder) -> Seq<Seq<char>>;

/// The glob patterns a compiled set was built from, in order.
pub uninterp spec fn glob_set_patterns(s: globset::GlobSet) -> Seq<Seq<char>>;

/// Whether globset accepts this pattern text as a syntactically valid glob.
pub uninterp spec fn glob_compiles(pattern: Seq<char>) -> bool;

/// Whether building a set from these already parsed patterns succeeds; a
/// function of the pattern texts alone.
pub uninterp spec fn globset_builds(patterns: Seq<Seq<char>>) -> bool;

/// Whether globset accepts every pattern of the list.
pub open spec fn patterns_compile(patterns: Seq<Seq<char>>) -> bool {
    forall|i: int| 0 <= i < patterns.len() ==> glob_compiles(#[trigger] patterns[i])
}

/// Whether a glob pattern matches a path, under globset's default matching
/// options.
pub uninterp spec fn glob_matches(pattern: Seq<char>, path: Seq<char>) -> bool;

/// A path matches a set when some pattern of the set matches it.
pub open spec fn set_matches(s: globset::GlobSet, path: Seq<char>) -> bool {
    exists|i: int|
        0 <= i < glob_set_patterns(s).len() && glob_matches(glob_set_patterns(s)[i], path)
}

/// Relies on globset::GlobSetBuilder::new: a fresh builder holds no
/// patterns.
#[verifier::external_body]
fn globset_builder_new() -> (b: globset::GlobSetBuilder)
    ensures
        builder_patterns(b) == Seq::<Seq<char>>::empty(),
{
    globset::GlobSetBuilder::new()
}

/// Relies on globset::Glob::new and globset::GlobSetBuilder::add: `new`
/// accepts exactly the syntactically valid pattern texts, and `add` appends
/// the compiled pattern to the builder.
#[verifier::external_body]
fn globset_builder_add(b: &mut globset::GlobSetBuilder, pattern: &str) -> (r: Result<
    (),
    globset::Error,
>)
    ensures
        r is Ok <==> glob_compiles(pattern@),
        r is Ok ==> builder_patterns(*final(b)) == builder_patterns(*old(b)).push(pattern@),
        r is Err ==> builder_patterns(*final(b)) == builder_patterns(*old(b)),
{
    match globset::Glob::new(pattern) {
        Ok(g) => {
            b.add(g);
            Ok(())
        },
        Err(e) => Err(e),
    }
}

/// Relies on globset::GlobSetBuilder::build: whether the build succeeds
/// depends on the builder's patterns alone, and the compiled set holds
/// exactly those patterns.
#[verifier::external_body]
fn globset_builder_build(b: &globset::GlobSetBuilder) -> (r: Result<
    globset::GlobSet,
    globset::Error,
>)
    ensures
        r is Ok <==> globset_builds(builder_patterns(*b)),
        r is Ok ==> glob_set_patterns(r.unwrap()) == builder_patterns(*b),
{
    b.build()
}

/// Relies on globset::GlobSet::is_match: the set matches a path exactly
/// when one of its globs matches it.
#[verifier::external_body]
pub(crate) fn glob_set_is_match(s: &globset::GlobSet, path: &str) -> (r: bool)
    ensures
        r == (exists|i: int|
            0 <= i < glob_set_patterns(*s).len() && glob_matches(
                #[trigger] glob_set_patterns(*s)[i],
                path@,
            )),
        r == set_matches(*s, path@),
{
    s.is_match(path)
}

/// Compiles a list of glob pattern strings into one set. It succeeds
/// exactly when globset accepts every pattern and builds the set, and the
/// set then holds exactly the given patterns, in order; any rejection
/// turns into a glob compilation error.
pub fn compile_globset(patterns: &Vec<String>) -> (r: Result<globset::GlobSet, ConfigError>)
    ensures
        r is Ok <==> patterns_compile(strings_view(patterns@)) && globset_builds(
            strings_view(patterns@),
        ),
        r is Ok ==> glob_set_patterns(r.unwrap()) == strings_view(patterns@),
        r is Err ==> r.unwrap_err() == ConfigError::GlobCompilationError,
{
    let mut builder = globset_builder_new();
    let mut idx: usize = 0;
    while idx < patterns.len()
        invariant
            idx <= patterns@.len(),
            builder_patterns(builder) == strings_view(patterns@.take(idx as int)),
            forall|i: int| 0 <= i < idx ==> glob_compiles(#[trigger] patterns@[i]@),
        decreases patterns@.len() - idx,
    {
        match globset_builder_add(&mut builder, patterns[idx].as_str()) {
            Ok(()) => {},
            Err(_) => {
                proof {
                    assert(strings_view(patterns@)[idx as int] == patterns@[idx as int]@);
                    assert(!patterns_compile(strings_view(patterns@)));
                }
                return Err(ConfigError::GlobCompilationError);
            },
        }
        idx += 1;
        proof {
            assert(builder_patterns(builder) =~= strings_view(patterns@.take(idx as int)));
        }
    }
    proof {
        assert(patterns@.take(patterns@.len() as int) =~= patterns@);
        assert forall|i: int| 0 <= i < strings_view(patterns@).len() implies glob_compiles(
            #[trigger] strings_view(patterns@)[i],
        ) by {
            assert(strings_view(patterns@)[i] == patterns@[i]@);
        }
    }
    match globset_builder_build(&builder) {
        Ok(s) => Ok(s),
        Err(_) => Err(ConfigError::GlobCompilationError),
    }
}

} // verus!
