//! The glob matcher of the `globset` crate, as the staleness check uses it.
use globset::{Glob, GlobSet, GlobSetBuilder};
use vstd::prelude::*;

verus! {

#[verifier::external_type_specification]
#[verifier::external_body]
pub struct ExGlob(Glob);

#[verifier::external_type_specification]
#[verifier::external_body]
pub struct ExGlobSetBuilder(GlobSetBuilder);

#[verifier::external_type_specification]
#[verifier::external_body]
pub struct ExGlobSet(GlobSet);

/// Whether `Glob::new` accepts a pattern text.
pub uninterp spec fn glob_is_valid(pattern: Seq<char>) -> bool;

/// Whether the glob parsed from `pattern` with default options matches `path`.
pub uninterp spec fn glob_matches(pattern: Seq<char>, path: Seq<char>) -> bool;

/// The pattern text a parsed glob was built from.
pub uninterp spec fn glob_text(glob: Glob) -> Seq<char>;

/// The pattern texts of the globs added to a builder, in order.
pub uninterp spec fn builder_globs(builder: GlobSetBuilder) -> Seq<Seq<char>>;

/// The pattern texts of the globs a set was built from, in order.
pub uninterp spec fn set_globs(set: GlobSet) -> Seq<Seq<char>>;

/// Whether `GlobSetBuilder::build` succeeds on globs with these pattern
/// texts; its matcher limits are fixed, so this depends on the texts alone.
pub uninterp spec fn set_builds(globs: Seq<Seq<char>>) -> bool;

/// Whether at least one of `globs` matches `path`.
pub open spec fn any_glob_matches(globs: Seq<Seq<char>>, path: Seq<char>) -> bool {
    exists|i: int| 0 <= i < globs.len() && glob_matches(#[trigger] globs[i], path)
}

/// Relies on `globset::Glob::new`: it parses a pattern with default options,
/// fails exactly on malformed patterns, and the glob keeps the text it was
/// parsed from (`Glob::glob` returns it).
#[verifier::external_body]
pub(crate) fn parse_glob(pattern: &str) -> (r: Result<Glob, globset::Error>)
    ensures
        r is Ok <==> glob_is_valid(pattern@),
        r matches Ok(g) ==> glob_text(g) == pattern@,
{
    Glob::new(pattern)
}

/// Relies on `globset::GlobSetBuilder::new`: a builder with no globs.
#[verifier::external_body]
pub(crate) fn new_builder() -> (r: GlobSetBuilder)
    ensures
        builder_globs(r) == Seq::<Seq<char>>::empty(),
{
    GlobSetBuilder::new()
}

/// Relies on `globset::GlobSetBuilder::add`: the glob is appended.
#[verifier::external_body]
pub(crate) fn add_glob(builder: &mut GlobSetBuilder, glob: Glob)
    ensures
        builder_globs(*final(builder)) == builder_globs(*old(builder)).push(glob_text(glob)),
{
    builder.add(glob);
}

/// Relies on `globset::GlobSetBuilder::build`: a set built from the
/// builder's globs. It fails when the combined matcher of those globs cannot
/// be compiled within globset's fixed size limits.
#[verifier::external_body]
pub(crate) fn build_set(builder: &GlobSetBuilder) -> (r: Result<GlobSet, globset::Error>)
    ensures
        r is Ok <==> set_builds(builder_globs(*builder)),
        r matches Ok(s) ==> set_globs(s) == builder_globs(*builder),
{
    builder.build()
}

/// Relies on `globset::GlobSet::is_match`: true iff any glob of the set
/// matches the path.
#[verifier::external_body]
pub(crate) fn set_is_match(set: &GlobSet, path: &str) -> (r: bool)
    ensures
        r == (exists|i: int| 0 <= i < set_globs(*set).len() && glob_matches(#[trigger] set_globs(*set)[i], path@)),
{
    set.is_match(std::path::Path::new(path))
}

} // verus!
