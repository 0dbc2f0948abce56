use vstd::prelude::*;

use crate::names::{
    all_ascii, ascii_lowercase, path_extension, preview_extensions, is_plain_name, starts_with_two_separators, lemma_entry_file_final_component, name_extension, spec_entry_file,
};
use crate::preview::{
    entry_step_spec, hidden_silently, lowered, opt_view, lemma_preview_dimensions_fill_box,
    lemma_preview_dimensions_keep_ratio, lemma_shown_run, lemma_step_moves_forward, preview_step_spec, CacheFolder,
    PreviewAction, PreviewEvent, PreviewOutcome, PreviewState, PREVIEW_HEIGHT, PREVIEW_WIDTH,
};

verus! {

/// `states`, `events` and `actions` record a run of `preview_step` from the
/// start: step `i` goes from `states[i]` on `events[i]` to `states[i + 1]`,
/// asking for `actions[i]`.
pub open spec fn is_run(states: Seq<PreviewState>, events: Seq<PreviewEvent>, actions: Seq<PreviewAction>) -> bool {
    &&& states.len() == events.len() + 1
    &&& actions.len() == events.len()
    &&& states[0] == PreviewState::Start
    &&& forall|i: int| 0 <= i < events.len() ==> preview_step_spec(states[i], #[trigger] events[i], states[i + 1], actions[i])
}

/// A run that has ended: its last action is `Finish`.
pub open spec fn is_complete_run(states: Seq<PreviewState>, events: Seq<PreviewEvent>, actions: Seq<PreviewAction>) -> bool {
    &&& is_run(states, events, actions)
    &&& events.len() > 0
    &&& actions.last() is Finish
}

// ---------------------------------------------------------------------------
// Runs on two files whose extensions differ only in case
// ---------------------------------------------------------------------------

/// Two rows in the same folder whose names are plain names with ASCII
/// extensions that are equal up to the case of their letters, read while
/// neither file is the one previewed; the folder, joined with `/`, does not
/// begin with two separators (a Windows network or device prefix).
pub open spec fn case_variant_entries(e1: PreviewEvent, e2: PreviewEvent) -> bool {
    &&& e1 matches PreviewEvent::EntryRead { path: p1, name: n1, current_preview: c1 }
    &&& e2 matches PreviewEvent::EntryRead { path: p2, name: n2, current_preview: c2 }
    &&& p1@ == p2@
    &&& c1@ == c2@
    &&& !starts_with_two_separators(p1@.push('/'))
    &&& is_plain_name(n1@)
    &&& is_plain_name(n2@)
    &&& name_extension(n1@) matches Some(x1)
    &&& name_extension(n2@) matches Some(x2)
    &&& all_ascii(x1)
    &&& all_ascii(x2)
    &&& ascii_lowercase(x1) == ascii_lowercase(x2)
    &&& spec_entry_file(p1@, n1@) != c1@
    &&& spec_entry_file(p2@, n2@) != c2@
}

/// Whether reading the row of `file` while `current` is previewed keeps the
/// preview unchanged: the file has a preview extension and is `current`.
pub open spec fn entry_keeps(file: Seq<char>, current: Seq<char>) -> bool {
    &&& lowered(path_extension(file)) matches Some(l)
    &&& preview_extensions().contains(l)
    &&& file == current
}

/// The same row read twice, with remembered files that both keep the
/// preview unchanged or both do not.
pub open spec fn same_entry_events(e1: PreviewEvent, e2: PreviewEvent) -> bool {
    &&& e1 matches PreviewEvent::EntryRead { path: p1, name: n1, current_preview: c1 }
    &&& e2 matches PreviewEvent::EntryRead { path: p2, name: n2, current_preview: c2 }
    &&& p1@ == p2@
    &&& n1@ == n2@
    &&& entry_keeps(spec_entry_file(p1@, n1@), c1@) == entry_keeps(spec_entry_file(p2@, n2@), c2@)
}

/// Two events that are the same, rows that are case variants of each other,
/// or the same row read with remembered files that lead to the same decision.
pub open spec fn corresponding_events(e1: PreviewEvent, e2: PreviewEvent) -> bool {
    e1 == e2 || case_variant_entries(e1, e2) || same_entry_events(e1, e2)
}

/// Two states of the same kind that agree on everything but the file.
pub open spec fn corresponding_states(s1: PreviewState, s2: PreviewState) -> bool {
    match (s1, s2) {
        (PreviewState::Start, PreviewState::Start) => true,
        (PreviewState::LocatingCache, PreviewState::LocatingCache) => true,
        (PreviewState::CreatingCache { dir: d1 }, PreviewState::CreatingCache { dir: d2 }) => d1@ == d2@,
        (PreviewState::ReadingEntry, PreviewState::ReadingEntry) => true,
        (PreviewState::Opening { lower_extension: x1, .. }, PreviewState::Opening { lower_extension: x2, .. }) => x1@ == x2@,
        (PreviewState::Saving { .. }, PreviewState::Saving { .. }) => true,
        (PreviewState::Removing { target: t1, .. }, PreviewState::Removing { target: t2, .. }) => t1@ == t2@,
        (PreviewState::Finished, PreviewState::Finished) => true,
        _ => false,
    }
}

/// Two actions of the same kind that agree on everything but the file: the
/// same scaled size and cached file, the same shown copy, the same outcome,
/// a report in both or in neither, and the same clean-up.
pub open spec fn corresponding_actions(a1: PreviewAction, a2: PreviewAction) -> bool {
    match (a1, a2) {
        (PreviewAction::LocateCache, PreviewAction::LocateCache) => true,
        (PreviewAction::CreateCache, PreviewAction::CreateCache) => true,
        (PreviewAction::ReadEntry, PreviewAction::ReadEntry) => true,
        (PreviewAction::OpenImage { .. }, PreviewAction::OpenImage { .. }) => true,
        (
            PreviewAction::ResizeAndSave { width: w1, height: h1, cached_name: c1 },
            PreviewAction::ResizeAndSave { width: w2, height: h2, cached_name: c2 },
        ) => w1 == w2 && h1 == h2 && c1@ == c2@,
        (PreviewAction::ShowCached { target: t1, .. }, PreviewAction::ShowCached { target: t2, .. }) => t1@ == t2@,
        (
            PreviewAction::Finish { outcome: o1, failure: f1, discard_cached: d1 },
            PreviewAction::Finish { outcome: o2, failure: f2, discard_cached: d2 },
        ) => o1 == o2 && (f1 is Some) == (f2 is Some) && d1 == d2,
        _ => false,
    }
}

proof fn lemma_case_variant_step(
    s1: PreviewState, e1: PreviewEvent, t1: PreviewState, a1: PreviewAction,
    s2: PreviewState, e2: PreviewEvent, t2: PreviewState, a2: PreviewAction,
)
    requires
        corresponding_states(s1, s2),
        corresponding_events(e1, e2),
        preview_step_spec(s1, e1, t1, a1),
        preview_step_spec(s2, e2, t2, a2),
    ensures
        corresponding_states(t1, t2),
        corresponding_actions(a1, a2),
{
    if case_variant_entries(e1, e2) {
        let p1 = e1->path;
        let n1 = e1->name;
        let p2 = e2->path;
        let n2 = e2->name;
        lemma_entry_file_final_component(p1@, n1@);
        lemma_entry_file_final_component(p2@, n2@);
        assert(s1 is ReadingEntry);
    }
}

/// Two runs that see the same events, except that the selected rows are two
/// names whose ASCII extensions differ only in case (neither being the file
/// previewed), take the same course: each step asks for the same kind of
/// action with the same scaled size and the same cached file name, and each
/// run ends with the same outcome, reports a failure in both or in neither,
/// and cleans up alike. Only the remembered file (each its own) differs.
pub proof fn lemma_extension_case_same_course(
    states1: Seq<PreviewState>, events1: Seq<PreviewEvent>, actions1: Seq<PreviewAction>,
    states2: Seq<PreviewState>, events2: Seq<PreviewEvent>, actions2: Seq<PreviewAction>,
)
    requires
        is_run(states1, events1, actions1),
        is_run(states2, events2, actions2),
        events1.len() == events2.len(),
        forall|i: int| 0 <= i < events1.len() ==> corresponding_events(#[trigger] events1[i], events2[i]),
    ensures
        forall|i: int| 0 <= i <= events1.len() ==> corresponding_states(#[trigger] states1[i], states2[i]),
        forall|i: int| 0 <= i < events1.len() ==> corresponding_actions(#[trigger] actions1[i], actions2[i]),
{
    lemma_case_variant_prefix(states1, events1, actions1, states2, events2, actions2, events1.len() as int);
}

proof fn lemma_case_variant_prefix(
    states1: Seq<PreviewState>, events1: Seq<PreviewEvent>, actions1: Seq<PreviewAction>,
    states2: Seq<PreviewState>, events2: Seq<PreviewEvent>, actions2: Seq<PreviewAction>,
    k: int,
)
    requires
        is_run(states1, events1, actions1),
        is_run(states2, events2, actions2),
        forall|i: int| 0 <= i < k ==> corresponding_events(#[trigger] events1[i], events2[i]),
        0 <= k <= events1.len(),
        k <= events2.len(),
    ensures
        forall|i: int| 0 <= i <= k ==> corresponding_states(#[trigger] states1[i], states2[i]),
        forall|i: int| 0 <= i < k ==> corresponding_actions(#[trigger] actions1[i], actions2[i]),
    decreases k,
{
    if k > 0 {
        lemma_case_variant_prefix(states1, events1, actions1, states2, events2, actions2, k - 1);
        let j = k - 1;
        assert(corresponding_events(events1[j], events2[j]));
        assert(preview_step_spec(states1[j], events1[j], states1[j + 1], actions1[j]));
        assert(preview_step_spec(states2[j], events2[j], states2[j + 1], actions2[j]));
        lemma_case_variant_step(
            states1[j], events1[j], states1[j + 1], actions1[j],
            states2[j], events2[j], states2[j + 1], actions2[j],
        );
        assert forall|i: int| 0 <= i <= k implies corresponding_states(#[trigger] states1[i], states2[i]) by {
            if i == k {
                assert(corresponding_states(states1[j + 1], states2[j + 1]));
            }
        }
        assert forall|i: int| 0 <= i < k implies corresponding_actions(#[trigger] actions1[i], actions2[i]) by {
            if i == j {
                assert(corresponding_actions(actions1[j], actions2[j]));
            }
        }
    }
}


// ---------------------------------------------------------------------------
// Facts about where actions occur in a run
// ---------------------------------------------------------------------------

/// In a run, a step asks for `Finish` exactly when it is the last step of a
/// complete run; `ShowCached` is asked for only by the step before last, and
/// the last step then shows the preview or hides it.
pub proof fn lemma_run_shape(states: Seq<PreviewState>, events: Seq<PreviewEvent>, actions: Seq<PreviewAction>)
    requires
        is_complete_run(states, events, actions),
    ensures
        forall|i: int| 0 <= i < events.len() - 1 ==> !(#[trigger] actions[i] is Finish),
        forall|i: int| 0 <= i < events.len() && (#[trigger] actions[i] is ShowCached) ==> i == events.len() - 2,
        actions[events.len() - 2] is ShowCached ==> (actions.last() matches PreviewAction::Finish { outcome, .. }
            && (outcome is Shown || outcome is Hidden)),
        (actions.last() matches PreviewAction::Finish { outcome, .. } && outcome is Shown) ==>
            events.len() >= 2 && actions[events.len() - 2] is ShowCached,
{
    let n = events.len() as int;
    assert forall|i: int| 0 <= i < n - 1 implies !(#[trigger] actions[i] is Finish) by {
        assert(preview_step_spec(states[i], events[i], states[i + 1], actions[i]));
        let j = i + 1;
        assert(preview_step_spec(states[j], events[j], states[j + 1], actions[j]));
        lemma_step_moves_forward(states[i], events[i], states[i + 1], actions[i]);
    }
    assert forall|i: int| 0 <= i < n && (#[trigger] actions[i] is ShowCached) implies i == n - 2 by {
        assert(preview_step_spec(states[i], events[i], states[i + 1], actions[i]));
        assert(states[i + 1] is Removing);
        let j = i + 1;
        if j == n {
            let l = n - 1;
            assert(preview_step_spec(states[l], events[l], states[l + 1], actions[l]));
        } else {
            assert(preview_step_spec(states[j], events[j], states[j + 1], actions[j]));
            assert(states[j + 1] == PreviewState::Finished);
            if j + 1 < n {
                let m = j + 1;
                assert(preview_step_spec(states[m], events[m], states[m + 1], actions[m]));
            }
        }
    }
    if n >= 2 && actions[n - 2] is ShowCached {
        let i = n - 2;
        assert(preview_step_spec(states[i], events[i], states[i + 1], actions[i]));
        let j = n - 1;
        assert(preview_step_spec(states[j], events[j], states[j + 1], actions[j]));
    }
    if actions.last() matches PreviewAction::Finish { outcome, .. } && outcome is Shown {
        lemma_shown_run(states, events, actions);
    }
}

// ---------------------------------------------------------------------------
// What the preview widget shows
// ---------------------------------------------------------------------------

/// What the caller's preview widget and remembered file are: whether the
/// preview is visible, the file whose preview it holds, and the remembered
/// preview file (empty when none is remembered).
pub open spec fn display_after(d: (bool, Seq<char>, Seq<char>), a: PreviewAction) -> (bool, Seq<char>, Seq<char>) {
    match a {
        PreviewAction::ShowCached { file, .. } => (d.0, file@, file@),
        PreviewAction::Finish { outcome: PreviewOutcome::Shown, .. } => (true, d.1, d.2),
        PreviewAction::Finish { outcome: PreviewOutcome::Hidden, .. } => (false, d.1, Seq::empty()),
        _ => d,
    }
}

/// The preview widget and remembered file after carrying out `actions` in order.
pub open spec fn display_after_all(d: (bool, Seq<char>, Seq<char>), actions: Seq<PreviewAction>) -> (bool, Seq<char>, Seq<char>)
    decreases actions.len(),
{
    if actions.len() == 0 {
        d
    } else {
        display_after(display_after_all(d, actions.drop_last()), actions.last())
    }
}

/// Either no file is remembered, or the preview is visible and holds the
/// preview of the remembered file.
pub open spec fn display_consistent(d: (bool, Seq<char>, Seq<char>)) -> bool {
    d.2.len() == 0 || (d.0 && d.1 == d.2)
}

proof fn lemma_quiet_prefix(d: (bool, Seq<char>, Seq<char>), actions: Seq<PreviewAction>, k: int)
    requires
        0 <= k <= actions.len(),
        forall|j: int| 0 <= j < k ==> !(#[trigger] actions[j] is Finish) && !(actions[j] is ShowCached),
    ensures
        display_after_all(d, actions.take(k)) == d,
    decreases k,
{
    if k > 0 {
        lemma_quiet_prefix(d, actions, k - 1);
        assert(actions.take(k).drop_last() == actions.take(k - 1));
        assert(actions.take(k).last() == actions[k - 1]);
    }
}

/// Whatever course a complete run takes (the file already previewed, a
/// preview shown, no preview, or any failure), a consistent preview widget
/// stays consistent: afterwards either no file is remembered, or the
/// preview is visible and holds the remembered file. A run that shows a copy
/// of a file remembers the selected file if it ends shown and nothing if it
/// ends hidden; a run that ends unchanged changes nothing.
pub proof fn lemma_preview_stays_consistent(
    d: (bool, Seq<char>, Seq<char>),
    states: Seq<PreviewState>,
    events: Seq<PreviewEvent>,
    actions: Seq<PreviewAction>,
)
    requires
        is_complete_run(states, events, actions),
        display_consistent(d),
    ensures
        display_consistent(display_after_all(d, actions)),
        actions.last() matches PreviewAction::Finish { outcome, .. } && outcome is Unchanged ==>
            display_after_all(d, actions) == d,
        actions.last() matches PreviewAction::Finish { outcome, .. } && outcome is Hidden ==>
            display_after_all(d, actions).2.len() == 0 && !display_after_all(d, actions).0,
        actions.last() matches PreviewAction::Finish { outcome, .. } && outcome is Shown ==> ({
            let n = events.len() as int;
            &&& events[n - 4] matches PreviewEvent::EntryRead { path, name, .. }
            &&& display_after_all(d, actions) == (true, spec_entry_file(path@, name@), spec_entry_file(path@, name@))
        }),
{
    let n = events.len() as int;
    lemma_run_shape(states, events, actions);
    assert(actions.drop_last() == actions.take(n - 1));
    assert(actions.last() == actions[n - 1]);
    assert(display_after_all(d, actions) == display_after(display_after_all(d, actions.take(n - 1)), actions[n - 1]));
    if n >= 2 && actions[n - 2] is ShowCached {
        assert forall|j: int| 0 <= j < n - 2 implies !(#[trigger] actions[j] is Finish) && !(actions[j] is ShowCached) by {}
        lemma_quiet_prefix(d, actions, n - 2);
        assert(actions.take(n - 1).drop_last() == actions.take(n - 2));
        assert(actions.take(n - 1).last() == actions[n - 2]);
        assert(display_after_all(d, actions.take(n - 1)) == display_after(d, actions[n - 2]));
        if actions.last() matches PreviewAction::Finish { outcome, .. } && outcome is Shown {
            lemma_shown_run(states, events, actions);
        }
    } else {
        assert forall|j: int| 0 <= j < n - 1 implies !(#[trigger] actions[j] is Finish) && !(actions[j] is ShowCached) by {
            if actions[j] is ShowCached {
                assert(j == n - 2);
            }
        }
        lemma_quiet_prefix(d, actions, n - 1);
    }
}

// ---------------------------------------------------------------------------
// Running again on the same file
// ---------------------------------------------------------------------------

/// After a run that ends with the preview of the selected file shown, a second
/// run on the same file, with that file remembered as the one previewed,
/// opens, scales, saves and shows nothing; once it reads the selected row it
/// ends keeping the preview unchanged, reporting nothing.
pub proof fn lemma_repeated_run_keeps_preview(
    states1: Seq<PreviewState>, events1: Seq<PreviewEvent>, actions1: Seq<PreviewAction>,
    states2: Seq<PreviewState>, events2: Seq<PreviewEvent>, actions2: Seq<PreviewAction>,
)
    requires
        is_complete_run(states1, events1, actions1),
        actions1.last() matches PreviewAction::Finish { outcome, .. } && outcome is Shown,
        is_run(states2, events2, actions2),
        forall|i: int| 0 <= i < events2.len() && (#[trigger] events2[i] is EntryRead) ==> ({
            let n = events1.len() as int;
            &&& events1[n - 4] matches PreviewEvent::EntryRead { path: p1, name: n1, .. }
            &&& events2[i] matches PreviewEvent::EntryRead { path: p2, name: n2, current_preview: c2 }
            &&& spec_entry_file(p2@, n2@) == spec_entry_file(p1@, n1@)
            &&& actions1[n - 2] matches PreviewAction::ShowCached { file, .. } && c2@ == file@
        }),
    ensures
        forall|i: int| 0 <= i < events2.len() ==> !(#[trigger] actions2[i] is OpenImage)
            && !(actions2[i] is ResizeAndSave) && !(actions2[i] is ShowCached),
        forall|i: int| 0 <= i < events2.len() && (#[trigger] events2[i] is EntryRead) ==>
            actions2[i] == (PreviewAction::Finish { outcome: PreviewOutcome::Unchanged, failure: None, discard_cached: false }),
{
    lemma_shown_run(states1, events1, actions1);
    lemma_never_opens(states1, events1, actions1, states2, events2, actions2, events2.len() as int);
    assert forall|i: int| 0 <= i < events2.len() implies !(#[trigger] actions2[i] is OpenImage)
        && !(actions2[i] is ResizeAndSave) && !(actions2[i] is ShowCached) by {
        lemma_reads_unchanged(states1, events1, actions1, states2, events2, actions2, i);
    }
    assert forall|i: int| 0 <= i < events2.len() && (#[trigger] events2[i] is EntryRead) implies
        actions2[i] == (PreviewAction::Finish { outcome: PreviewOutcome::Unchanged, failure: None, discard_cached: false }) by {
        lemma_reads_unchanged(states1, events1, actions1, states2, events2, actions2, i);
    }
}

proof fn lemma_reads_unchanged(
    states1: Seq<PreviewState>, events1: Seq<PreviewEvent>, actions1: Seq<PreviewAction>,
    states2: Seq<PreviewState>, events2: Seq<PreviewEvent>, actions2: Seq<PreviewAction>,
    i: int,
)
    requires
        is_complete_run(states1, events1, actions1),
        actions1.last() matches PreviewAction::Finish { outcome, .. } && outcome is Shown,
        ({
            let n = events1.len() as int;
            &&& n >= 5
            &&& events1[n - 4] matches PreviewEvent::EntryRead { path, name, current_preview }
            &&& crate::names::path_extension(spec_entry_file(path@, name@)) matches Some(ext)
            &&& crate::names::spec_is_preview_extension(ext)
            &&& actions1[n - 2] matches PreviewAction::ShowCached { file, .. } && file@ == spec_entry_file(path@, name@)
        }),
        is_run(states2, events2, actions2),
        forall|i: int| 0 <= i < events2.len() && (#[trigger] events2[i] is EntryRead) ==> ({
            let n = events1.len() as int;
            &&& events1[n - 4] matches PreviewEvent::EntryRead { path: p1, name: n1, .. }
            &&& events2[i] matches PreviewEvent::EntryRead { path: p2, name: n2, current_preview: c2 }
            &&& spec_entry_file(p2@, n2@) == spec_entry_file(p1@, n1@)
            &&& actions1[n - 2] matches PreviewAction::ShowCached { file, .. } && c2@ == file@
        }),
        forall|j: int| 0 <= j <= events2.len() ==> quiet_state(#[trigger] states2[j]),
        0 <= i < events2.len(),
    ensures
        !(actions2[i] is OpenImage) && !(actions2[i] is ResizeAndSave) && !(actions2[i] is ShowCached),
        events2[i] is EntryRead ==>
            actions2[i] == (PreviewAction::Finish { outcome: PreviewOutcome::Unchanged, failure: None, discard_cached: false }),
{
    assert(preview_step_spec(states2[i], events2[i], states2[i + 1], actions2[i]));
    assert(quiet_state(states2[i]));
    let n = events1.len() as int;
    if events2[i] is EntryRead {
        let e1 = events1[n - 4];
        let e2 = events2[i];
        let f1 = spec_entry_file(e1->path@, e1->name@);
        let f2 = spec_entry_file(e2->path@, e2->name@);
        assert(f1 == f2);
        assert(e2->current_preview@ == f1);
        assert(crate::names::path_extension(f1) is Some);
    }
}

/// A state before any file has been opened.
pub open spec fn quiet_state(s: PreviewState) -> bool {
    !(s is Opening) && !(s is Saving) && !(s is Removing)
}

proof fn lemma_never_opens(
    states1: Seq<PreviewState>, events1: Seq<PreviewEvent>, actions1: Seq<PreviewAction>,
    states2: Seq<PreviewState>, events2: Seq<PreviewEvent>, actions2: Seq<PreviewAction>,
    k: int,
)
    requires
        is_complete_run(states1, events1, actions1),
        actions1.last() matches PreviewAction::Finish { outcome, .. } && outcome is Shown,
        ({
            let n = events1.len() as int;
            &&& n >= 5
            &&& events1[n - 4] matches PreviewEvent::EntryRead { path, name, current_preview }
            &&& crate::names::path_extension(spec_entry_file(path@, name@)) matches Some(ext)
            &&& crate::names::spec_is_preview_extension(ext)
        }),
        is_run(states2, events2, actions2),
        forall|i: int| 0 <= i < events2.len() && (#[trigger] events2[i] is EntryRead) ==> ({
            let n = events1.len() as int;
            &&& events1[n - 4] matches PreviewEvent::EntryRead { path: p1, name: n1, .. }
            &&& events2[i] matches PreviewEvent::EntryRead { path: p2, name: n2, current_preview: c2 }
            &&& spec_entry_file(p2@, n2@) == spec_entry_file(p1@, n1@)
            &&& actions1[n - 2] matches PreviewAction::ShowCached { file, .. } && c2@ == file@
        }),
        ({
            let n = events1.len() as int;
            &&& events1[n - 4] matches PreviewEvent::EntryRead { path, name, .. }
            &&& actions1[n - 2] matches PreviewAction::ShowCached { file, .. } && file@ == spec_entry_file(path@, name@)
        }),
        0 <= k <= events2.len(),
    ensures
        forall|i: int| 0 <= i <= k ==> quiet_state(#[trigger] states2[i]),
    decreases k,
{
    if k > 0 {
        lemma_never_opens(states1, events1, actions1, states2, events2, actions2, k - 1);
        let j = k - 1;
        assert(preview_step_spec(states2[j], events2[j], states2[j + 1], actions2[j]));
        assert(quiet_state(states2[j]));
        if events2[j] is EntryRead {
            assert(quiet_state(states2[j + 1]));
        }
        assert forall|i: int| 0 <= i <= k implies quiet_state(#[trigger] states2[i]) by {
            if i == k {
                assert(quiet_state(states2[j + 1]));
            }
        }
    }
}


// ---------------------------------------------------------------------------
// Running again on an unchanged world
// ---------------------------------------------------------------------------

proof fn lemma_phases_grow(states: Seq<PreviewState>, events: Seq<PreviewEvent>, actions: Seq<PreviewAction>, i: int, j: int)
    requires
        is_run(states, events, actions),
        0 <= i < j <= events.len(),
    ensures
        states[j].phase() > states[i].phase(),
    decreases j - i,
{
    let k = j - 1;
    assert(preview_step_spec(states[k], events[k], states[k + 1], actions[k]));
    lemma_step_moves_forward(states[k], events[k], states[k + 1], actions[k]);
    if i < k {
        lemma_phases_grow(states, events, actions, i, k);
    }
}

proof fn lemma_copy_is_selected(states: Seq<PreviewState>, events: Seq<PreviewEvent>, actions: Seq<PreviewAction>)
    requires
        is_run(states, events, actions),
        events.len() >= 2,
        actions[events.len() - 2] is ShowCached,
    ensures
        events.len() >= 5,
        ({
            let n = events.len() as int;
            &&& events[n - 4] matches PreviewEvent::EntryRead { path, name, .. }
            &&& actions[n - 2] matches PreviewAction::ShowCached { file, .. } && file@ == spec_entry_file(path@, name@)
        }),
{
    let n = events.len() as int;
    let i2 = n - 2;
    assert(preview_step_spec(states[i2], events[i2], states[i2 + 1], actions[i2]));
    assert(states[i2] is Saving);
    assert(i2 >= 1);
    let i3 = n - 3;
    assert(preview_step_spec(states[i3], events[i3], states[i3 + 1], actions[i3]));
    assert(states[i3] is Opening);
    assert(i3 >= 1);
    let i4 = n - 4;
    assert(preview_step_spec(states[i4], events[i4], states[i4 + 1], actions[i4]));
    assert(states[i4] is ReadingEntry);
    assert(i4 >= 1);
}

proof fn lemma_display_of_complete_run(
    d: (bool, Seq<char>, Seq<char>),
    states: Seq<PreviewState>,
    events: Seq<PreviewEvent>,
    actions: Seq<PreviewAction>,
)
    requires
        is_complete_run(states, events, actions),
    ensures
        ({
            let n = events.len() as int;
            display_after_all(d, actions) == if n >= 2 && actions[n - 2] is ShowCached {
                display_after(display_after(d, actions[n - 2]), actions[n - 1])
            } else {
                display_after(d, actions[n - 1])
            }
        }),
{
    let n = events.len() as int;
    lemma_run_shape(states, events, actions);
    assert(actions.drop_last() == actions.take(n - 1));
    assert(actions.last() == actions[n - 1]);
    assert(display_after_all(d, actions) == display_after(display_after_all(d, actions.take(n - 1)), actions[n - 1]));
    if n >= 2 && actions[n - 2] is ShowCached {
        assert forall|j: int| 0 <= j < n - 2 implies !(#[trigger] actions[j] is Finish) && !(actions[j] is ShowCached) by {}
        lemma_quiet_prefix(d, actions, n - 2);
        assert(actions.take(n - 1).drop_last() == actions.take(n - 2));
        assert(actions.take(n - 1).last() == actions[n - 2]);
        assert(display_after_all(d, actions.take(n - 1)) == display_after(d, actions[n - 2]));
    } else {
        assert forall|j: int| 0 <= j < n - 1 implies !(#[trigger] actions[j] is Finish) && !(actions[j] is ShowCached) by {
            if actions[j] is ShowCached {
                assert(j == n - 2);
            }
        }
        lemma_quiet_prefix(d, actions, n - 1);
    }
}

/// A second run sees the same world as the first: the same events, except
/// that when it reads the selected row (the same folder and name) the
/// remembered file is `remembered`.
pub open spec fn same_world(e1: PreviewEvent, e2: PreviewEvent, remembered: Seq<char>) -> bool {
    if e1 is EntryRead {
        &&& e2 matches PreviewEvent::EntryRead { path: p2, name: n2, current_preview: c2 }
        &&& p2@ == e1->path@
        &&& n2@ == e1->name@
        &&& c2@ == remembered
    } else {
        e2 == e1
    }
}

/// Running the preview again when nothing has changed leaves it as it was.
/// A first complete run starts from a consistent preview widget `d0` and
/// reads the row with `d0`'s remembered file; a second complete run sees the
/// same events, except that it reads the row with the file remembered after
/// the first run. Then after the second run the preview's visibility, the
/// file it shows and the remembered file are what they were after the first.
/// If a file is remembered after the first run, the second run opens, scales,
/// saves and shows nothing and reports no failure.
pub proof fn lemma_second_run_changes_nothing(
    d0: (bool, Seq<char>, Seq<char>),
    states1: Seq<PreviewState>, events1: Seq<PreviewEvent>, actions1: Seq<PreviewAction>,
    states2: Seq<PreviewState>, events2: Seq<PreviewEvent>, actions2: Seq<PreviewAction>,
)
    requires
        display_consistent(d0),
        is_complete_run(states1, events1, actions1),
        forall|i: int| 0 <= i < events1.len() && (#[trigger] events1[i] is EntryRead) ==> events1[i]->current_preview@ == d0.2,
        is_complete_run(states2, events2, actions2),
        events2.len() <= events1.len(),
        forall|i: int| 0 <= i < events2.len() ==> same_world(#[trigger] events1[i], events2[i], display_after_all(d0, actions1).2),
    ensures
        display_after_all(display_after_all(d0, actions1), actions2) == display_after_all(d0, actions1),
        display_after_all(d0, actions1).2.len() > 0 ==> {
            &&& forall|i: int| 0 <= i < events2.len() ==> !(#[trigger] actions2[i] is OpenImage)
                && !(actions2[i] is ResizeAndSave) && !(actions2[i] is ShowCached)
            &&& actions2.last() matches PreviewAction::Finish { failure, .. } && failure is None
        },
{
    let d1 = display_after_all(d0, actions1);
    let n1 = events1.len() as int;
    let n2 = events2.len() as int;
    lemma_preview_stays_consistent(d0, states1, events1, actions1);
    lemma_run_shape(states1, events1, actions1);
    lemma_run_shape(states2, events2, actions2);
    let last1 = actions1[n1 - 1];
    assert(actions1.last() == last1);
    if last1 matches PreviewAction::Finish { outcome, .. } && outcome is Shown {
        lemma_shown_run(states1, events1, actions1);
        let m = n1 - 4;
        // Before the row is read, both runs see the same events.
        assert forall|i: int| 0 <= i < m && i < n2 implies corresponding_events(#[trigger] events1[i], events2[i]) by {
            if events1[i] is EntryRead {
                assert(preview_step_spec(states1[i], events1[i], states1[i + 1], actions1[i]));
                assert(preview_step_spec(states1[m], events1[m], states1[m + 1], actions1[m]));
                lemma_phases_grow(states1, events1, actions1, i, m);
            }
        }
        let k = if n2 < m { n2 } else { m };
        lemma_case_variant_prefix(states1, events1, actions1, states2, events2, actions2, k);
        assert(n2 > m) by {
            if n2 <= m {
                let l = n2 - 1;
                assert(corresponding_actions(actions1[l], actions2[l]));
            }
        }
        assert(corresponding_states(states1[m], states2[m]));
        assert(preview_step_spec(states1[m], events1[m], states1[m + 1], actions1[m]));
        assert(preview_step_spec(states2[m], events2[m], states2[m + 1], actions2[m]));
        assert(same_world(events1[m], events2[m], d1.2));
        assert(actions2[m] is Finish);
        assert(n2 == m + 1);
        assert forall|i: int| 0 <= i < n2 implies !(#[trigger] actions2[i] is OpenImage)
            && !(actions2[i] is ResizeAndSave) && !(actions2[i] is ShowCached) by {
            if i < m {
                assert(corresponding_actions(actions1[i], actions2[i]));
                assert(preview_step_spec(states1[i], events1[i], states1[i + 1], actions1[i]));
                if i + 1 < m {
                    lemma_phases_grow(states1, events1, actions1, i + 1, m);
                }
            }
        }
        lemma_preview_stays_consistent(d1, states2, events2, actions2);
    } else {
        // The first run did not show a new preview: the second takes the same course.
        assert forall|i: int| 0 <= i < n2 implies corresponding_events(#[trigger] events1[i], events2[i]) by {
            if events1[i] is EntryRead {
                assert(preview_step_spec(states1[i], events1[i], states1[i + 1], actions1[i]));
                let f = spec_entry_file(events1[i]->path@, events1[i]->name@);
                assert(f.len() > 0) by {
                    reveal_strlit("/");
                }
                if entry_keeps(f, events1[i]->current_preview@) {
                    assert(actions1[i] is Finish);
                    assert(i == n1 - 1);
                    assert(d1 == d0);
                } else if last1 matches PreviewAction::Finish { outcome, .. } && outcome is Unchanged {
                    let l = n1 - 1;
                    assert(preview_step_spec(states1[l], events1[l], states1[l + 1], actions1[l]));
                    assert(states1[l] is ReadingEntry);
                    if i < l {
                        lemma_phases_grow(states1, events1, actions1, i, l);
                    }
                    assert(i == l);
                } else {
                    assert(d1.2.len() == 0);
                }
                assert(same_entry_events(events1[i], events2[i]));
            }
        }
        lemma_case_variant_prefix(states1, events1, actions1, states2, events2, actions2, n2);
        let l = n2 - 1;
        assert(corresponding_actions(actions1[l], actions2[l]));
        assert(l == n1 - 1);
        lemma_display_of_complete_run(d0, states1, events1, actions1);
        lemma_display_of_complete_run(d1, states2, events2, actions2);
        if n1 >= 2 && actions1[n1 - 2] is ShowCached {
            assert(corresponding_actions(actions1[n1 - 2], actions2[n1 - 2]));
            lemma_copy_is_selected(states1, events1, actions1);
            lemma_copy_is_selected(states2, events2, actions2);
            assert(same_world(events1[n1 - 4], events2[n1 - 4], d1.2));
        }
        if d1.2.len() > 0 {
            // Only a run that ended unchanged remembers a file here; it never opened one.
            let l = n1 - 1;
            assert(preview_step_spec(states1[l], events1[l], states1[l + 1], actions1[l]));
            assert(states1[l] is ReadingEntry);
            assert forall|i: int| 0 <= i < n2 implies !(#[trigger] actions2[i] is OpenImage)
                && !(actions2[i] is ResizeAndSave) && !(actions2[i] is ShowCached) by {
                assert(corresponding_actions(actions1[i], actions2[i]));
                assert(preview_step_spec(states1[i], events1[i], states1[i + 1], actions1[i]));
                if i + 1 < l {
                    lemma_phases_grow(states1, events1, actions1, i + 1, l);
                }
            }
        }
    }
}

/// A cache folder that has just been created without error is used as one
/// that already existed: the run goes on to read the selected row, exactly as
/// after finding the folder in place, and does not end at that step.
pub proof fn lemma_created_cache_reads_entry(
    dir: String,
    found: CacheFolder,
    t1: PreviewState, a1: PreviewAction,
    t2: PreviewState, a2: PreviewAction,
)
    requires
        found.exists,
        found.is_dir,
        preview_step_spec(PreviewState::LocatingCache, PreviewEvent::CacheLocated { folder: Some(found) }, t1, a1),
        preview_step_spec(PreviewState::CreatingCache { dir }, PreviewEvent::CacheCreated { error: None }, t2, a2),
    ensures
        t2 == t1,
        a2 == a1,
        t2 == PreviewState::ReadingEntry,
        a2 == PreviewAction::ReadEntry,
        !(a2 is Finish),
{
}

/// Every image format takes the same course: a selected file whose lower-case
/// extension is `jpg`, `jpeg`, `png`, `bmp`, `tiff`, `tif`, `tga`, `ff`, `gif`,
/// `jif` or `jfi` is opened, with that extension kept for its cached copy,
/// unless it is the file previewed now, which is left as it is; a file with any
/// other extension, or none, gets no preview and nothing is reported.
pub proof fn lemma_image_formats_open(
    file: Seq<char>,
    lower: Option<Seq<char>>,
    current: Seq<char>,
    t: PreviewState,
    a: PreviewAction,
)
    requires
        entry_step_spec(file, lower, current, t, a),
    ensures
        (lower matches Some(l) && (l == "jpg"@ || l == "jpeg"@ || l == "png"@ || l == "bmp"@
            || l == "tiff"@ || l == "tif"@ || l == "tga"@ || l == "ff"@ || l == "gif"@ || l == "jif"@
            || l == "jfi"@)) ==> if file == current {
                &&& t == PreviewState::Finished
                &&& a == (PreviewAction::Finish { outcome: PreviewOutcome::Unchanged, failure: None, discard_cached: false })
            } else {
                &&& t matches PreviewState::Opening { file: f, lower_extension: x } && f@ == file && Some(x@) == lower
                &&& a matches PreviewAction::OpenImage { file: f } && f@ == file
            },
        !(lower matches Some(l) && (l == "jpg"@ || l == "jpeg"@ || l == "png"@ || l == "bmp"@
            || l == "tiff"@ || l == "tif"@ || l == "tga"@ || l == "ff"@ || l == "gif"@ || l == "jif"@
            || l == "jfi"@)) ==> t == PreviewState::Finished && a == hidden_silently(),
{
    let exts = preview_extensions();
    if let Some(l) = lower {
        if l == "jpg"@ { assert(exts[0] == l); }
        else if l == "jpeg"@ { assert(exts[1] == l); }
        else if l == "png"@ { assert(exts[2] == l); }
        else if l == "bmp"@ { assert(exts[3] == l); }
        else if l == "tiff"@ { assert(exts[4] == l); }
        else if l == "tif"@ { assert(exts[5] == l); }
        else if l == "tga"@ { assert(exts[6] == l); }
        else if l == "ff"@ { assert(exts[7] == l); }
        else if l == "gif"@ { assert(exts[8] == l); }
        else if l == "jif"@ { assert(exts[9] == l); }
        else if l == "jfi"@ { assert(exts[10] == l); }
        else { assert(!exts.contains(l)); }
    }
}

/// Reading a selected row whose name is a plain file name with an ASCII
/// extension `e` of an image format, in any letter case, opens the file the
/// row stands for, with the lower-case form of `e`, unless that file is the
/// one previewed now.
pub proof fn lemma_image_row_opened(
    path: String,
    name: String,
    current_preview: String,
    e: Seq<char>,
    t: PreviewState,
    a: PreviewAction,
)
    requires
        is_plain_name(name@),
        !starts_with_two_separators(path@.push('/')),
        name_extension(name@) == Some(e),
        all_ascii(e),
        ({
            let l = ascii_lowercase(e);
            l == "jpg"@ || l == "jpeg"@ || l == "png"@ || l == "bmp"@ || l == "tiff"@ || l == "tif"@
                || l == "tga"@ || l == "ff"@ || l == "gif"@ || l == "jif"@ || l == "jfi"@
        }),
        spec_entry_file(path@, name@) != current_preview@,
        preview_step_spec(
            PreviewState::ReadingEntry,
            PreviewEvent::EntryRead { path, name, current_preview },
            t,
            a,
        ),
    ensures
        t matches PreviewState::Opening { file: f, lower_extension: x }
            && f@ == spec_entry_file(path@, name@) && x@ == ascii_lowercase(e),
        a matches PreviewAction::OpenImage { file: f } && f@ == spec_entry_file(path@, name@),
{
    let file = spec_entry_file(path@, name@);
    lemma_entry_file_final_component(path@, name@);
    assert(path_extension(file) == Some(e));
    assert(lowered(path_extension(file)) == Some(ascii_lowercase(e)));
    lemma_image_formats_open(file, Some(ascii_lowercase(e)), current_preview@, t, a);
}

/// A preview is attempted only when exactly one row is selected and previews
/// are switched on; otherwise the run ends at once, hiding the preview and
/// reporting nothing.
pub proof fn lemma_preview_needs_one_selected_row(selected_rows: usize, enabled: bool, t: PreviewState, a: PreviewAction)
    requires
        preview_step_spec(PreviewState::Start, PreviewEvent::Selection { selected_rows, enabled }, t, a),
    ensures
        selected_rows == 1 && enabled ==> t == PreviewState::LocatingCache && a == PreviewAction::LocateCache,
        !(selected_rows == 1 && enabled) ==> t == PreviewState::Finished && a == hidden_silently(),
{
}

/// The cache folder is created exactly when nothing exists at its path, and
/// it is that folder which is created; without a cache location the run ends
/// quietly, hiding the preview.
pub proof fn lemma_cache_folder_created_when_missing(folder: Option<CacheFolder>, t: PreviewState, a: PreviewAction)
    requires
        preview_step_spec(PreviewState::LocatingCache, PreviewEvent::CacheLocated { folder }, t, a),
    ensures
        folder is None ==> t == PreviewState::Finished && a == hidden_silently(),
        folder matches Some(c) ==> (a == PreviewAction::CreateCache <==> !c.exists),
        folder is Some && !folder->0.exists ==> (t matches PreviewState::CreatingCache { dir } && dir@ == folder->0.dir@),
{
}

/// The text of a reported failure ends with `reason`.
pub open spec fn reports_reason(a: PreviewAction, reason: Seq<char>) -> bool {
    &&& a matches PreviewAction::Finish { outcome: PreviewOutcome::Hidden, failure: Some(f), .. }
    &&& f.spec_message().len() >= reason.len()
    &&& f.spec_message().subrange(f.spec_message().len() - reason.len(), f.spec_message().len() as int) == reason
}

/// Within one step: a failure is reported exactly when the caller reported an
/// error, the opened image has no pixels, or the cache path is not a folder; a
/// reported failure always hides the preview, and its text ends with the
/// reason the caller gave; the cached copy is deleted on the way out only when
/// it could not be saved.
pub proof fn lemma_failures_reported(s: PreviewState, e: PreviewEvent, t: PreviewState, a: PreviewAction)
    requires
        preview_step_spec(s, e, t, a),
    ensures
        (a matches PreviewAction::Finish { failure: Some(_), .. }) <==> {
            ||| e matches PreviewEvent::CacheLocated { folder: Some(c) } && c.exists && !c.is_dir
            ||| e matches PreviewEvent::CacheCreated { error: Some(_) }
            ||| e matches PreviewEvent::ImageOpened { result: Err(_) }
            ||| e matches PreviewEvent::ImageOpened { result: Ok((w, h)) } && (w == 0 || h == 0)
            ||| e matches PreviewEvent::Saved { error: Some(_), .. }
            ||| e matches PreviewEvent::Removed { error: Some(_) }
        },
        a matches PreviewAction::Finish { failure: Some(_), outcome, .. } ==> outcome is Hidden,
        (a matches PreviewAction::Finish { discard_cached, .. } && discard_cached)
            <==> (e matches PreviewEvent::Saved { error: Some(_), .. }),
        e matches PreviewEvent::CacheCreated { error: Some(r) } ==> reports_reason(a, r@),
        e matches PreviewEvent::ImageOpened { result: Err(r) } ==> reports_reason(a, r@),
        e matches PreviewEvent::Saved { error: Some(r), .. } ==> reports_reason(a, r@),
        e matches PreviewEvent::Removed { error: Some(r) } ==> reports_reason(a, r@),
{
    match e {
        PreviewEvent::CacheCreated { error: Some(r) } => {
            let m = a->failure->0.spec_message();
            assert(m.subrange(m.len() - r@.len(), m.len() as int) =~= r@);
        },
        PreviewEvent::ImageOpened { result: Err(r) } => {
            let m = a->failure->0.spec_message();
            assert(m.subrange(m.len() - r@.len(), m.len() as int) =~= r@);
        },
        PreviewEvent::Saved { error: Some(r), .. } => {
            let m = a->failure->0.spec_message();
            assert(m.subrange(m.len() - r@.len(), m.len() as int) =~= r@);
        },
        PreviewEvent::Removed { error: Some(r) } => {
            let m = a->failure->0.spec_message();
            assert(m.subrange(m.len() - r@.len(), m.len() as int) =~= r@);
        },
        _ => {},
    }
}

/// An opened image with pixels is scaled to fit the preview box: the size
/// asked for is between 1 and the box side in each direction and fills the
/// box in at least one; an image taller than wide fills its height and one at
/// least twice as wide as high fills its width, the other side keeping the
/// proportions (rounded down, but never below 1); the cached copy is named after the image's lower-case
/// extension, and the run then waits for that copy to be saved.
pub proof fn lemma_opened_image_scaled_to_box(
    file: String,
    lower_extension: String,
    w: u32,
    h: u32,
    t: PreviewState,
    a: PreviewAction,
)
    requires
        w > 0,
        h > 0,
        preview_step_spec(
            PreviewState::Opening { file, lower_extension },
            PreviewEvent::ImageOpened { result: Ok((w, h)) },
            t,
            a,
        ),
    ensures
        t matches PreviewState::Saving { file: x } && x@ == file@,
        a matches PreviewAction::ResizeAndSave { width, height, cached_name } && {
            &&& 1 <= width <= PREVIEW_WIDTH
            &&& 1 <= height <= PREVIEW_HEIGHT
            &&& width == PREVIEW_WIDTH || height == PREVIEW_HEIGHT
            &&& w < h ==> height == PREVIEW_HEIGHT && (width == 1 || width * h <= w * PREVIEW_HEIGHT)
            &&& 2 * h <= w ==> width == PREVIEW_WIDTH && (height == 1 || height * w <= h * PREVIEW_WIDTH)
            &&& cached_name@ == "cached_file."@ + lower_extension@
        },
{
    lemma_preview_dimensions_fill_box(w, h);
    lemma_preview_dimensions_keep_ratio(w, h);
}

} // verus!
