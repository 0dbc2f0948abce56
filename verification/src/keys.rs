use vstd::prelude::*;

use crate::layout::{preview_columns, spec_columns, spec_preview_columns, Column, NotebookMainEnum, PreviewColumns};

verus! {

/// Hardware key code of the Delete key.
pub const KEY_DELETE: u32 = 119;

/// Positions of the folder list to remove, in the order in which to remove
/// them, when a key with code `key_code` is released over the list with the
/// rows at positions `selected` (in list order) selected: for the Delete key
/// the selection from last to first, so that each removal leaves the
/// positions still to remove where they were; for any other key nothing.
pub fn directory_rows_to_remove(key_code: u32, selected: &Vec<usize>) -> (r: Vec<usize>)
    ensures
        r@ == if key_code == KEY_DELETE { selected@.reverse() } else { Seq::<usize>::empty() },
{
    let mut r: Vec<usize> = Vec::new();
    if key_code != KEY_DELETE {
        return r;
    }
    let n = selected.len();
    let mut k = n;
    while k > 0
        invariant
            n == selected@.len(),
            k <= n,
            r@.len() == n - k,
            forall|i: int| 0 <= i < n - k ==> r@[i] == selected@[n - 1 - i],
        decreases k,
    {
        k = k - 1;
        r.push(selected[k]);
    }
    assert(r@ =~= selected@.reverse());
    r
}

/// Something that releasing a key over a result view asks for.
#[derive(Clone, Copy, Debug, PartialEq, Eq, Structural)]
pub enum KeyReleaseAction {
    /// Start deleting the selected files.
    DeleteSelected,
    /// Refresh the preview, reading the selected file from these columns.
    RefreshPreview(PreviewColumns),
}

/// What releasing the key with code `key_code` over result view `nb` asks
/// for, in order: first deleting the selected files (for the Delete key),
/// then, in a view with a preview, refreshing the preview (for any key).
pub open spec fn spec_results_key_release(nb: NotebookMainEnum, key_code: u32) -> Seq<KeyReleaseAction> {
    let delete = if key_code == KEY_DELETE { seq![KeyReleaseAction::DeleteSelected] } else { Seq::empty() };
    match spec_preview_columns(nb) {
        Some(p) => delete.push(KeyReleaseAction::RefreshPreview(p)),
        None => delete,
    }
}

/// What releasing the key with code `key_code` over result view `nb` asks
/// for, in the order in which it is done.
pub fn results_key_release(nb: NotebookMainEnum, key_code: u32) -> (r: Vec<KeyReleaseAction>)
    ensures
        r@ == spec_results_key_release(nb, key_code),
{
    let mut r: Vec<KeyReleaseAction> = Vec::new();
    if key_code == KEY_DELETE {
        r.push(KeyReleaseAction::DeleteSelected);
    }
    match preview_columns(nb) {
        Some(p) => r.push(KeyReleaseAction::RefreshPreview(p)),
        None => {},
    }
    proof {
        if key_code == KEY_DELETE {
            assert(r@.take(1) == seq![KeyReleaseAction::DeleteSelected]);
        }
    }
    assert(r@ =~= spec_results_key_release(nb, key_code));
    r
}

/// Releasing the Delete key over any result view first asks for the selected
/// files to be deleted, and no other key asks for that; the preview is
/// refreshed, as the last thing asked for, exactly in the views of duplicates
/// and of similar images, reading the file from their `Path` and `Name`
/// columns; nothing else is asked for.
pub proof fn lemma_delete_key_deletes(nb: NotebookMainEnum, key_code: u32)
    ensures
        key_code == KEY_DELETE ==> spec_results_key_release(nb, key_code).len() > 0
            && spec_results_key_release(nb, key_code)[0] == KeyReleaseAction::DeleteSelected,
        spec_results_key_release(nb, key_code).contains(KeyReleaseAction::DeleteSelected)
            ==> key_code == KEY_DELETE,
        spec_results_key_release(nb, key_code).len()
            == (if key_code == KEY_DELETE { 1int } else { 0int })
            + (if nb == NotebookMainEnum::Duplicate || nb == NotebookMainEnum::SimilarImages { 1int } else { 0int }),
        forall|i: int| 0 <= i < spec_results_key_release(nb, key_code).len()
            && #[trigger] spec_results_key_release(nb, key_code)[i] != KeyReleaseAction::DeleteSelected ==> {
                &&& i == spec_results_key_release(nb, key_code).len() - 1
                &&& nb == NotebookMainEnum::Duplicate || nb == NotebookMainEnum::SimilarImages
                &&& spec_results_key_release(nb, key_code)[i] matches KeyReleaseAction::RefreshPreview(p)
                &&& 0 <= p.column_path < spec_columns(nb).len()
                &&& 0 <= p.column_name < spec_columns(nb).len()
                &&& spec_columns(nb)[p.column_path as int] == Column::Path
                &&& spec_columns(nb)[p.column_name as int] == Column::Name
            },
{
    let s = spec_results_key_release(nb, key_code);
    if key_code == KEY_DELETE {
        assert(s[0] == KeyReleaseAction::DeleteSelected);
    } else {
        assert forall|i: int| 0 <= i < s.len() implies s[i] != KeyReleaseAction::DeleteSelected by {}
    }
    let cols = spec_columns(nb);
    match nb {
        NotebookMainEnum::Duplicate => { assert(cols[3] == Column::Path && cols[2] == Column::Name); },
        NotebookMainEnum::SimilarImages => { assert(cols[7] == Column::Path && cols[6] == Column::Name); },
        _ => {},
    }
}

/// Whether position `i` is one of `selected`.
pub open spec fn selects(selected: Seq<usize>, i: int) -> bool {
    exists|j: int| 0 <= j < selected.len() && selected[j] as int == i
}

/// `rows` after removing, in turn, the row at each position of `order`.
pub open spec fn remove_in_order<A>(rows: Seq<A>, order: Seq<usize>) -> Seq<A>
    decreases order.len(),
{
    if order.len() == 0 {
        rows
    } else {
        remove_in_order(rows.remove(order[0] as int), order.drop_first())
    }
}

/// The rows of `rows` whose positions are not among `selected`, in order.
pub open spec fn without_positions<A>(rows: Seq<A>, selected: Seq<usize>) -> Seq<A>
    decreases rows.len(),
{
    if rows.len() == 0 {
        rows
    } else {
        let rest = without_positions(rows.drop_last(), selected);
        if selects(selected, rows.len() - 1) {
            rest
        } else {
            rest.push(rows.last())
        }
    }
}

/// Positions in strictly increasing order, all within a list of `len` rows.
pub open spec fn ascending_within(selected: Seq<usize>, len: int) -> bool {
    &&& forall|i: int, j: int| 0 <= i < j < selected.len() ==> selected[i] < selected[j]
    &&& forall|i: int| 0 <= i < selected.len() ==> selected[i] < len
}

proof fn lemma_same_selection<A>(rows: Seq<A>, s1: Seq<usize>, s2: Seq<usize>)
    requires
        forall|i: int| 0 <= i < rows.len() ==> selects(s1, i) == selects(s2, i),
    ensures
        without_positions(rows, s1) == without_positions(rows, s2),
    decreases rows.len(),
{
    if rows.len() > 0 {
        lemma_same_selection(rows.drop_last(), s1, s2);
    }
}

proof fn lemma_split_at<A>(rows: Seq<A>, selected: Seq<usize>, k: int)
    requires
        0 <= k <= rows.len(),
        forall|i: int| 0 <= i < selected.len() ==> selected[i] < k,
    ensures
        without_positions(rows, selected) == without_positions(rows.take(k), selected) + rows.skip(k),
    decreases rows.len(),
{
    if rows.len() == k {
        assert(rows.take(k) == rows);
        assert(rows.skip(k) =~= Seq::<A>::empty());
    } else {
        let d = rows.drop_last();
        lemma_split_at(d, selected, k);
        assert(!selects(selected, rows.len() - 1));
        assert(d.take(k) == rows.take(k));
        assert(d.skip(k).push(rows.last()) =~= rows.skip(k));
    }
}

/// Removing the selected rows of a list one by one, from the last selected
/// position to the first, removes exactly the selected rows and keeps the
/// others in order (the selection being in list order, as a tree view
/// reports it).
pub proof fn lemma_remove_selected_from_last<A>(rows: Seq<A>, selected: Seq<usize>)
    requires
        ascending_within(selected, rows.len() as int),
    ensures
        remove_in_order(rows, selected.reverse()) == without_positions(rows, selected),
    decreases selected.len(),
{
    if selected.len() == 0 {
        assert(selected.reverse() =~= Seq::<usize>::empty());
        lemma_same_selection(rows, selected, Seq::<usize>::empty());
        lemma_no_selection(rows);
    } else {
        let m = selected.last() as int;
        let rest = selected.drop_last();
        let removed = rows.remove(m);
        assert(selected.reverse()[0] == selected.last());
        assert(selected.reverse().drop_first() =~= rest.reverse());
        assert(ascending_within(rest, removed.len() as int)) by {
            assert forall|i: int| 0 <= i < rest.len() implies rest[i] < removed.len() by {
                assert(selected[i] < selected[selected.len() - 1]);
            }
        }
        lemma_remove_selected_from_last(removed, rest);
        // Both sides equal the unselected rows before `m` followed by the rows after it.
        assert forall|i: int| 0 <= i < rest.len() implies rest[i] < m by {
            assert(selected[i] < selected[selected.len() - 1]);
        }
        lemma_split_at(removed, rest, m);
        assert(removed.take(m) =~= rows.take(m));
        assert(removed.skip(m) =~= rows.skip(m + 1));
        assert forall|i: int| 0 <= i < selected.len() implies selected[i] < m + 1 by {
            if i < selected.len() - 1 {
                assert(selected[i] < selected[selected.len() - 1]);
            }
        }
        lemma_split_at(rows, selected, m + 1);
        let front = rows.take(m + 1);
        assert(front.drop_last() =~= rows.take(m));
        assert(selects(selected, m)) by {
            assert(selected[selected.len() - 1] as int == m);
        }
        assert(without_positions(front, selected) == without_positions(rows.take(m), selected));
        assert forall|i: int| 0 <= i < rows.take(m).len() implies selects(selected, i) == selects(rest, i) by {
            if selects(selected, i) {
                let j = choose|j: int| 0 <= j < selected.len() && selected[j] as int == i;
                assert(j < selected.len() - 1);
                assert(rest[j] == selected[j]);
            }
            if selects(rest, i) {
                let j = choose|j: int| 0 <= j < rest.len() && rest[j] as int == i;
                assert(selected[j] == rest[j]);
            }
        }
        lemma_same_selection(rows.take(m), selected, rest);
    }
}

proof fn lemma_no_selection<A>(rows: Seq<A>)
    ensures
        without_positions(rows, Seq::<usize>::empty()) == rows,
    decreases rows.len(),
{
    if rows.len() > 0 {
        lemma_no_selection(rows.drop_last());
        assert(rows.drop_last().push(rows.last()) =~= rows);
    }
}

} // verus!
