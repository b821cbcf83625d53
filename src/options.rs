use crate::error::NeedsRebuildError;
use crate::matching::{
    add_glob, build_set, glob_is_valid, new_builder, parse_glob, set_builds, set_globs,
};
use globset::GlobSet;
use vstd::prelude::*;

verus! {

/// How a staleness check selects source files and walks the source tree.
#[derive(Clone, Debug)]
pub struct ScanOptions {
    /// Glob patterns that select the source files taking part in the check.
    pub patterns: Vec<String>,
    /// Report progress and findings while checking.
    pub verbose: bool,
    /// Follow symbolic links below the root as if they were the files and
    /// directories they point to. Disabled by default.
    pub follow_links: bool,
    /// Follow a symbolic link that is the root of the walk. Enabled by default.
    pub follow_root_links: bool,
    /// The deepest level below the root that the walk visits; the root is
    /// level 0. Unlimited when absent.
    pub max_depth: Option<usize>,
    /// The most directory handles the walk keeps open at once. A value of 0
    /// counts as 1; the walker picks a small default when absent.
    pub max_open_files: Option<usize>,
    /// Do not descend into directories on another file system than the root.
    pub same_file_system: bool,
}

/// The structural settings of a walk over the source tree.
#[derive(Clone, Copy, Debug)]
pub struct Traversal {
    pub follow_links: bool,
    pub follow_root_links: bool,
    pub max_depth: Option<usize>,
    pub max_open: Option<usize>,
    pub same_file_system: bool,
}

/// The pattern texts of a list of owned strings.
pub open spec fn texts_of(patterns: Seq<String>) -> Seq<Seq<char>> {
    patterns.map_values(|p: String| p@)
}

/// The pattern texts of a list of borrowed strings.
pub open spec fn texts_of_strs(patterns: Seq<&str>) -> Seq<Seq<char>> {
    patterns.map_values(|p: &str| p@)
}

/// The pattern that selects every file.
pub open spec fn match_all() -> Seq<char> {
    "**/*"@
}

impl ScanOptions {
    /// The configured patterns, in order.
    pub open spec fn pattern_list(&self) -> Seq<Seq<char>> {
        texts_of(self.patterns@)
    }

    /// The configured depth limit.
    pub open spec fn depth_limit(&self) -> Option<usize> {
        self.max_depth
    }

    /// The configured limit on open directory handles, as supplied.
    pub open spec fn open_limit(&self) -> Option<usize> {
        self.max_open_files
    }

    /// Whether every pattern is well formed and together they compile into
    /// one matcher.
    pub open spec fn patterns_compile(&self) -> bool {
        &&& forall|i: int| 0 <= i < self.pattern_list().len() ==> glob_is_valid(#[trigger] self.pattern_list()[i])
        &&& set_builds(self.pattern_list())
    }

    /// Whether every option but the patterns has its default value.
    pub open spec fn has_default_settings(&self) -> bool {
        &&& !self.verbose
        &&& !self.follow_links
        &&& self.follow_root_links
        &&& self.depth_limit() is None
        &&& self.open_limit() is None
        &&& !self.same_file_system
    }

    fn owned_patterns(patterns: &[&str]) -> (r: Vec<String>)
        ensures
            texts_of(r@) == texts_of_strs(patterns@),
    {
        let mut r: Vec<String> = Vec::new();
        let mut i: usize = 0;
        while i < patterns.len()
            invariant
                0 <= i <= patterns@.len(),
                texts_of(r@) == texts_of_strs(patterns@.subrange(0, i as int)),
            decreases patterns@.len() - i,
        {
            r.push(patterns[i].to_owned());
            i += 1;
            assert(texts_of_strs(patterns@.subrange(0, i as int)) =~= texts_of_strs(
                patterns@.subrange(0, i - 1),
            ).push(patterns@[i - 1]@));
            assert(texts_of(r@) =~= texts_of_strs(patterns@.subrange(0, i as int)));
        }
        assert(patterns@.subrange(0, i as int) =~= patterns@);
        r
    }

    /// Options that select files by the given patterns, with every other
    /// option at its default.
    pub fn new(patterns: &[&str]) -> (r: ScanOptions)
        ensures
            r.pattern_list() == texts_of_strs(patterns@),
            r.has_default_settings(),
    {
        ScanOptions {
            patterns: ScanOptions::owned_patterns(patterns),
            verbose: false,
            follow_links: false,
            follow_root_links: true,
            max_depth: None,
            max_open_files: None,
            same_file_system: false,
        }
    }

    /// Replaces the patterns; the other options are kept.
    pub fn patterns(&mut self, patterns: &[&str])
        ensures
            final(self).pattern_list() == texts_of_strs(patterns@),
            final(self).verbose == old(self).verbose,
            final(self).follow_links == old(self).follow_links,
            final(self).follow_root_links == old(self).follow_root_links,
            final(self).depth_limit() == old(self).depth_limit(),
            final(self).open_limit() == old(self).open_limit(),
            final(self).same_file_system == old(self).same_file_system,
    {
        self.patterns = ScanOptions::owned_patterns(patterns);
    }

    /// Limits the walk to `value` levels below the root.
    pub fn max_depth(&mut self, value: usize)
        ensures
            final(self).depth_limit() == Some(value),
            final(self).pattern_list() == old(self).pattern_list(),
            final(self).verbose == old(self).verbose,
            final(self).follow_links == old(self).follow_links,
            final(self).follow_root_links == old(self).follow_root_links,
            final(self).open_limit() == old(self).open_limit(),
            final(self).same_file_system == old(self).same_file_system,
    {
        self.max_depth = Some(value);
    }

    /// Limits the directory handles that the walk keeps open at once.
    pub fn max_open_files(&mut self, value: usize)
        ensures
            final(self).open_limit() == Some(value),
            final(self).pattern_list() == old(self).pattern_list(),
            final(self).verbose == old(self).verbose,
            final(self).follow_links == old(self).follow_links,
            final(self).follow_root_links == old(self).follow_root_links,
            final(self).depth_limit() == old(self).depth_limit(),
            final(self).same_file_system == old(self).same_file_system,
    {
        self.max_open_files = Some(value);
    }

    /// The walk that these options ask for. A handle limit of 0 becomes 1.
    pub fn traversal(&self) -> (r: Traversal)
        ensures
            r.follow_links == self.follow_links,
            r.follow_root_links == self.follow_root_links,
            r.max_depth == self.depth_limit(),
            r.max_open == (match self.open_limit() {
                Some(n) => Some(if n == 0 { 1usize } else { n }),
                None => None,
            }),
            r.same_file_system == self.same_file_system,
    {
        let max_open = match self.max_open_files {
            Some(n) => Some(if n == 0 { 1usize } else { n }),
            None => None,
        };
        Traversal {
            follow_links: self.follow_links,
            follow_root_links: self.follow_root_links,
            max_depth: self.max_depth,
            max_open,
            same_file_system: self.same_file_system,
        }
    }

    /// Compiles the patterns into one matcher. A malformed pattern fails the
    /// whole compilation; no pattern is silently left out.
    pub fn matcher(&self) -> (r: Result<GlobSet, NeedsRebuildError>)
        ensures
            r matches Ok(s) ==> set_globs(s) == self.pattern_list(),
            r is Ok ==> forall|i: int| 0 <= i < self.pattern_list().len() ==> glob_is_valid(#[trigger] self.pattern_list()[i]),
            (exists|i: int| 0 <= i < self.pattern_list().len() && !glob_is_valid(#[trigger] self.pattern_list()[i])) ==> r is Err,
            self.patterns_compile() ==> r is Ok,
            r matches Err(e) ==> e is PatternError,
    {
        let mut builder = new_builder();
        let mut i: usize = 0;
        while i < self.patterns.len()
            invariant
                0 <= i <= self.patterns@.len(),
                self.pattern_list().len() == self.patterns@.len(),
                crate::matching::builder_globs(builder) == self.pattern_list().subrange(0, i as int),
                forall|j: int| 0 <= j < i ==> glob_is_valid(#[trigger] self.pattern_list()[j]),
            decreases self.patterns@.len() - i,
        {
            match parse_glob(self.patterns[i].as_str()) {
                Ok(glob) => {
                    add_glob(&mut builder, glob);
                },
                Err(e) => {
                    assert(self.pattern_list()[i as int] == self.patterns@[i as int]@);
                    return Err(NeedsRebuildError::PatternError(e));
                },
            }
            i += 1;
            assert(self.pattern_list().subrange(0, i as int) =~= self.pattern_list().subrange(
                0,
                i - 1,
            ).push(self.pattern_list()[i - 1]));
        }
        assert(self.pattern_list().subrange(0, i as int) =~= self.pattern_list());
        match build_set(&builder) {
            Ok(set) => Ok(set),
            Err(e) => Err(NeedsRebuildError::PatternError(e)),
        }
    }
}

impl Default for ScanOptions {
    /// Every file is selected; symbolic links are followed at the root only;
    /// no depth limit; the walker's own handle limit.
    fn default() -> (r: ScanOptions)
        ensures
            r.pattern_list() == seq![match_all()],
            r.has_default_settings(),
    {
        let mut patterns: Vec<String> = Vec::new();
        patterns.push("**/*".to_owned());
        let r = ScanOptions {
            patterns,
            verbose: false,
            follow_links: false,
            follow_root_links: true,
            max_depth: None,
            max_open_files: None,
            same_file_system: false,
        };
        assert(r.pattern_list() =~= seq![match_all()]);
        r
    }
}

} // verus!
