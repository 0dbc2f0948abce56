use czkawka_gui::keys::{directory_rows_to_remove, results_key_release, KeyReleaseAction, KEY_DELETE};
use czkawka_gui::layout::{NotebookMainEnum, PreviewColumns};

#[test]
fn delete_key_removes_selection_from_last() {
    assert_eq!(directory_rows_to_remove(KEY_DELETE, &vec![1, 4, 7]), vec![7, 4, 1]);
    assert_eq!(directory_rows_to_remove(KEY_DELETE, &vec![]), Vec::<usize>::new());
    assert_eq!(directory_rows_to_remove(KEY_DELETE + 1, &vec![1, 4, 7]), Vec::<usize>::new());
}

#[test]
fn removing_in_that_order_drops_exactly_the_selection() {
    let rows: Vec<&str> = vec!["a", "b", "c", "d", "e", "f", "g", "h"];
    let selected = vec![1, 4, 7];
    let mut list = rows.clone();
    for i in directory_rows_to_remove(KEY_DELETE, &selected) {
        list.remove(i);
    }
    assert_eq!(list, vec!["a", "c", "d", "f", "g"]);
}

#[test]
fn key_release_over_results() {
    let dup = PreviewColumns { column_path: 3, column_name: 2 };
    let img = PreviewColumns { column_path: 7, column_name: 6 };
    assert_eq!(
        results_key_release(NotebookMainEnum::Duplicate, KEY_DELETE),
        vec![KeyReleaseAction::DeleteSelected, KeyReleaseAction::RefreshPreview(dup)]
    );
    assert_eq!(results_key_release(NotebookMainEnum::SimilarImages, 36), vec![KeyReleaseAction::RefreshPreview(img)]);
    assert_eq!(results_key_release(NotebookMainEnum::EmptyFiles, KEY_DELETE), vec![KeyReleaseAction::DeleteSelected]);
    assert_eq!(results_key_release(NotebookMainEnum::EmptyFiles, 36), vec![]);
}
