//! Properties of the staleness decision that hold for every source tree.
use crate::matching::any_glob_matches;
use crate::scan::{rebuild_needed, selected, triggers, Visit};
use crate::timestamp::Timestamp;
use vstd::prelude::*;

verus! {

/// A target that does not exist needs a rebuild, whatever the patterns and
/// whatever the source tree holds.
pub proof fn missing_target_needs_rebuild(globs: Seq<Seq<char>>, visits: Seq<Visit>)
    ensures
        rebuild_needed(None, globs, visits),
{
}

/// When the target exists and no visited file matches any pattern, no
/// rebuild is needed.
pub proof fn nothing_selected_needs_no_rebuild(
    target: Timestamp,
    globs: Seq<Seq<char>>,
    visits: Seq<Visit>,
)
    requires
        forall|i: int| 0 <= i < visits.len() ==> !selected(globs, #[trigger] visits[i].path, visits[i].is_dir),
    ensures
        !rebuild_needed(Some(target), globs, visits),
{
    assert forall|i: int| 0 <= i < visits.len() implies !triggers(globs, target, #[trigger] visits[i]) by {
        assert(!selected(globs, visits[i].path, visits[i].is_dir));
    }
}

/// A visited file that matches a pattern and was modified strictly after the
/// target makes the check answer that a rebuild is needed.
pub proof fn newer_selected_file_needs_rebuild(
    target: Timestamp,
    globs: Seq<Seq<char>>,
    visits: Seq<Visit>,
    i: int,
    time: Timestamp,
)
    requires
        0 <= i < visits.len(),
        !visits[i].is_dir,
        any_glob_matches(globs, visits[i].path),
        visits[i].modified == Some(time),
        time.is_after(target),
    ensures
        rebuild_needed(Some(target), globs, visits),
{
    assert(triggers(globs, target, visits[i]));
}

/// An entry modified at exactly the target's time never changes the answer:
/// a tie is not newer.
pub proof fn tie_does_not_trigger(
    target: Timestamp,
    globs: Seq<Seq<char>>,
    visits: Seq<Visit>,
    v: Visit,
)
    requires
        v.modified == Some(target),
    ensures
        !triggers(globs, target, v),
        rebuild_needed(Some(target), globs, visits.push(v)) == rebuild_needed(Some(target), globs, visits),
{
    let w = visits.push(v);
    if rebuild_needed(Some(target), globs, w) {
        let i = choose|i: int| 0 <= i < w.len() && triggers(globs, target, #[trigger] w[i]);
        assert(i < visits.len());
        assert(w[i] == visits[i]);
    }
    if rebuild_needed(Some(target), globs, visits) {
        let i = choose|i: int| 0 <= i < visits.len() && triggers(globs, target, #[trigger] visits[i]);
        assert(w[i] == visits[i]);
    }
}

/// Narrowing the patterns to a subset that leaves out every file which made
/// the wider set answer "rebuild" turns the answer into "no rebuild".
pub proof fn narrowing_excludes_offenders(
    target: Timestamp,
    wide: Seq<Seq<char>>,
    narrow: Seq<Seq<char>>,
    visits: Seq<Visit>,
)
    requires
        forall|j: int| 0 <= j < narrow.len() ==> wide.contains(#[trigger] narrow[j]),
        forall|i: int| 0 <= i < visits.len() && triggers(wide, target, #[trigger] visits[i]) ==> !any_glob_matches(narrow, visits[i].path),
    ensures
        !rebuild_needed(Some(target), narrow, visits),
{
    if rebuild_needed(Some(target), narrow, visits) {
        let i = choose|i: int| 0 <= i < visits.len() && triggers(narrow, target, #[trigger] visits[i]);
        let j = choose|j: int| 0 <= j < narrow.len() && crate::matching::glob_matches(#[trigger] narrow[j], visits[i].path);
        assert(wide.contains(narrow[j]));
        let k = choose|k: int| 0 <= k < wide.len() && wide[k] == narrow[j];
        assert(crate::matching::glob_matches(wide[k], visits[i].path));
        assert(triggers(wide, target, visits[i]));
    }
}

/// Stopping at the first newer file gives the answer a full walk would give:
/// once some entries answer "rebuild", any further entries keep that answer.
pub proof fn early_answer_is_final(
    target: Option<Timestamp>,
    globs: Seq<Seq<char>>,
    seen: Seq<Visit>,
    rest: Seq<Visit>,
)
    requires
        rebuild_needed(target, globs, seen),
    ensures
        rebuild_needed(target, globs, seen + rest),
{
    if let Some(b) = target {
        let i = choose|i: int| 0 <= i < seen.len() && triggers(globs, b, #[trigger] seen[i]);
        assert((seen + rest)[i] == seen[i]);
    }
}

} // verus!
