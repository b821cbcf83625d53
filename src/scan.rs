//! The staleness decision. The caller walks the source tree and reads
//! modification times; a [`Scan`] decides, entry by entry, what to read next
//! and when the answer is known.
use crate::error::NeedsRebuildError;
use crate::matching::{any_glob_matches, glob_is_valid, set_globs, set_is_match};
use crate::options::ScanOptions;
use crate::timestamp::Timestamp;
use globset::GlobSet;
use vstd::prelude::*;

verus! {

/// One entry of the source tree as the check saw it: its path, whether it is
/// a directory, and its modification time if the check read it.
pub struct Visit {
    pub path: Seq<char>,
    pub is_dir: bool,
    pub modified: Option<Timestamp>,
}

/// Whether an entry takes part in the comparison: a file selected by the globs.
pub open spec fn selected(globs: Seq<Seq<char>>, path: Seq<char>, is_dir: bool) -> bool {
    !is_dir && any_glob_matches(globs, path)
}

/// Whether one visited entry is a selected file modified strictly after the
/// baseline.
pub open spec fn triggers(globs: Seq<Seq<char>>, baseline: Timestamp, v: Visit) -> bool {
    &&& selected(globs, v.path, v.is_dir)
    &&& v.modified matches Some(t)
    &&& t.is_after(baseline)
}

/// The answer of the check: a missing target (no baseline) must be rebuilt;
/// otherwise a rebuild is needed iff some visited entry triggers.
pub open spec fn rebuild_needed(
    target: Option<Timestamp>,
    globs: Seq<Seq<char>>,
    visits: Seq<Visit>,
) -> bool {
    match target {
        None => true,
        Some(baseline) => exists|i: int|
            0 <= i < visits.len() && triggers(globs, baseline, #[trigger] visits[i]),
    }
}

/// What the caller must do next.
pub enum Action {
    /// Hand over the next entry of the walk, or finish if there is none.
    NextEntry,
    /// Read the modification time of the entry just handed over.
    ReadModified,
    /// The answer is known: `true` when a rebuild is needed.
    Finish(bool),
}

/// How a check begins.
pub enum Start {
    /// The target does not exist: rebuild, without walking the sources.
    Rebuild,
    /// Walk the sources, feeding each entry to the scan.
    Walk(Scan),
}

/// A check in progress over a walk of the source tree.
pub struct Scan {
    baseline: Timestamp,
    matcher: GlobSet,
    awaiting: bool,
    found: bool,
    globs: Ghost<Seq<Seq<char>>>,
    visits: Ghost<Seq<Visit>>,
}

/// Begins a check of a target whose modification time is `target_modified`
/// (`None` when it does not exist).
pub fn start(target_modified: Option<Timestamp>, options: &ScanOptions) -> (r: Result<
    Start,
    NeedsRebuildError,
>)
    ensures
        target_modified is None ==> r matches Ok(Start::Rebuild),
        target_modified is Some ==> !(r matches Ok(Start::Rebuild)),
        r matches Ok(Start::Walk(s)) ==> s.wf() && !s.awaiting() && s.visits() == Seq::<Visit>::empty()
            && Some(s.baseline()) == target_modified && s.globs() == options.pattern_list(),
        target_modified is Some && (exists|i: int| 0 <= i < options.pattern_list().len() && !glob_is_valid(#[trigger] options.pattern_list()[i])) ==> r is Err,
        target_modified is Some && options.patterns_compile() ==> r matches Ok(Start::Walk(_)),
        r matches Err(e) ==> e is PatternError,
{
    match target_modified {
        None => Ok(Start::Rebuild),
        Some(baseline) => {
            let matcher = match options.matcher() {
                Ok(m) => m,
                Err(e) => {
                    return Err(e);
                },
            };
            let scan = Scan {
                baseline,
                matcher,
                awaiting: false,
                found: false,
                globs: Ghost(options.pattern_list()),
                visits: Ghost(Seq::empty()),
            };
            Ok(Start::Walk(scan))
        },
    }
}

impl Scan {
    /// The target's modification time.
    pub closed spec fn baseline(&self) -> Timestamp {
        self.baseline
    }

    /// The patterns that select source files.
    pub closed spec fn globs(&self) -> Seq<Seq<char>> {
        self.globs@
    }

    /// The entries handed over so far, in order.
    pub closed spec fn visits(&self) -> Seq<Visit> {
        self.visits@
    }

    /// Whether the scan waits for the modification time of the last entry.
    pub closed spec fn awaiting(&self) -> bool {
        self.awaiting
    }

    /// The matcher holds the scan's globs, `found` is the answer over the
    /// entries so far, and an awaited entry is a selected file whose time
    /// has not been read yet.
    pub closed spec fn wf(&self) -> bool {
        &&& set_globs(self.matcher) == self.globs@
        &&& self.found == rebuild_needed(Some(self.baseline), self.globs@, self.visits@)
        &&& self.awaiting ==> {
            &&& self.visits@.len() > 0
            &&& self.visits@.last().modified is None
            &&& selected(self.globs@, self.visits@.last().path, self.visits@.last().is_dir)
        }
    }

    /// Hands over the next entry of the walk. The patterns are matched
    /// against the whole path as the walk reports it, root included.
    /// Directories never take part, and the modification time is asked for
    /// only when the entry is a file selected by the patterns.
    pub fn entry(&mut self, path: &str, is_dir: bool) -> (a: Action)
        requires
            old(self).wf(),
            !old(self).awaiting(),
        ensures
            final(self).wf(),
            final(self).baseline() == old(self).baseline(),
            final(self).globs() == old(self).globs(),
            final(self).visits() == old(self).visits().push(Visit { path: path@, is_dir, modified: None }),
            a == (if selected(old(self).globs(), path@, is_dir) { Action::ReadModified } else { Action::NextEntry }),
            final(self).awaiting() == (a is ReadModified),
            final(self).awaiting() ==> final(self).visits().len() > 0,
    {
        let ghost v = Visit { path: path@, is_dir, modified: None };
        proof {
            let old_visits = self.visits@;
            self.visits@ = self.visits@.push(v);
            assert(!triggers(self.globs@, self.baseline, v));
            assert(rebuild_needed(Some(self.baseline), self.globs@, old_visits) ==> rebuild_needed(Some(self.baseline), self.globs@, self.visits@)) by {
                if rebuild_needed(Some(self.baseline), self.globs@, old_visits) {
                    let i = choose|i: int| 0 <= i < old_visits.len() && triggers(self.globs@, self.baseline, #[trigger] old_visits[i]);
                    assert(self.visits@[i] == old_visits[i]);
                }
            }
        }
        if !is_dir && set_is_match(&self.matcher, path) {
            self.awaiting = true;
            Action::ReadModified
        } else {
            Action::NextEntry
        }
    }

    /// Hands over the modification time that the scan asked for. The answer
    /// is a rebuild as soon as it is strictly later than the target's.
    pub fn modified(&mut self, time: Timestamp) -> (a: Action)
        requires
            old(self).wf(),
            old(self).awaiting(),
        ensures
            final(self).wf(),
            !final(self).awaiting(),
            final(self).baseline() == old(self).baseline(),
            final(self).globs() == old(self).globs(),
            final(self).visits() == old(self).visits().update(
                old(self).visits().len() - 1,
                Visit { modified: Some(time), ..old(self).visits().last() },
            ),
            a == (if time.is_after(old(self).baseline()) { Action::Finish(true) } else { Action::NextEntry }),
            a is Finish ==> rebuild_needed(Some(final(self).baseline()), final(self).globs(), final(self).visits()),
    {
        let ghost old_visits = self.visits@;
        let ghost last = old_visits.len() - 1;
        let ghost v = Visit { modified: Some(time), ..old_visits.last() };
        proof {
            self.visits@ = old_visits.update(last, v);
        }
        let newer = time.newer_than(&self.baseline);
        proof {
            let g = self.globs@;
            let b = self.baseline;
            let nv = self.visits@;
            assert(triggers(g, b, v) == newer);
            if self.found {
                let i = choose|i: int| 0 <= i < old_visits.len() && triggers(g, b, #[trigger] old_visits[i]);
                assert(i != last);
                assert(nv[i] == old_visits[i]);
            }
            if newer {
                assert(nv[last] == v);
            }
            if rebuild_needed(Some(b), g, nv) {
                let i = choose|i: int| 0 <= i < nv.len() && triggers(g, b, #[trigger] nv[i]);
                if i != last {
                    assert(nv[i] == old_visits[i]);
                }
            }
        }
        self.awaiting = false;
        if newer {
            self.found = true;
            Action::Finish(true)
        } else {
            Action::NextEntry
        }
    }

    /// The answer once the walk has handed over every entry.
    pub fn finish(&self) -> (r: bool)
        requires
            self.wf(),
            !self.awaiting(),
        ensures
            r == rebuild_needed(Some(self.baseline()), self.globs(), self.visits()),
    {
        self.found
    }
}

} // verus!
