use czkawka_gui::layout::{
    all_result_views, column_position, column_types, columns, directory_column_types, has_image_preview,
    has_select_function, initially_visible, preview_columns, result_view_setup, similar_images_scale,
    similar_videos_scale, tree_view_name, BottomButton, Column, ColumnType, NotebookMainEnum, PreviewColumns,
    ScaleSetup, directory_view_setup, SelectionKind,
};

#[test]
fn only_search_button_starts_visible() {
    assert!(initially_visible(BottomButton::Search));
    for b in [BottomButton::Save, BottomButton::Delete, BottomButton::Select, BottomButton::Symlink, BottomButton::Hardlink, BottomButton::Move] {
        assert!(!initially_visible(b));
    }
}

#[test]
fn duplicate_view_columns() {
    let (b, t, n) = (ColumnType::Bool, ColumnType::Str, ColumnType::U64);
    assert_eq!(column_types(NotebookMainEnum::Duplicate), vec![b, b, t, t, t, n, t, t]);
    assert_eq!(column_types(NotebookMainEnum::EmptyDirectories), vec![b, t, t, t, n]);
    assert_eq!(column_types(NotebookMainEnum::BigFiles), vec![b, t, t, t, t, n, n]);
    assert_eq!(
        column_types(NotebookMainEnum::SimilarImages),
        vec![b, b, t, t, n, t, t, t, t, n, t, t]
    );
    assert_eq!(column_types(NotebookMainEnum::SimilarVideos), vec![b, b, t, n, t, t, t, n, t, t]);
    assert_eq!(
        column_types(NotebookMainEnum::SameMusic),
        vec![b, b, t, n, t, t, t, t, t, t, t, t, n, t, t]
    );
    assert_eq!(column_types(NotebookMainEnum::Symlinks), vec![b, t, t, t, t, t, n]);
    assert_eq!(column_types(NotebookMainEnum::BrokenFiles), vec![b, t, t, t, t, n]);
    assert_eq!(directory_column_types(), vec![t]);
}

#[test]
fn every_view_has_unique_name_and_path_columns() {
    for nb in all_result_views() {
        let cols = columns(nb);
        for (i, c) in cols.iter().enumerate() {
            assert_eq!(cols.iter().position(|d| d == c), Some(i));
        }
        let name = column_position(nb, Column::Name).unwrap();
        let path = column_position(nb, Column::Path).unwrap();
        assert_eq!(column_types(nb)[name], ColumnType::Str);
        assert_eq!(column_types(nb)[path], ColumnType::Str);
        assert_eq!(column_types(nb).len(), cols.len());
    }
    assert_eq!(column_position(NotebookMainEnum::Duplicate, Column::Title), None);
}

#[test]
fn preview_reads_name_and_path_columns() {
    assert_eq!(preview_columns(NotebookMainEnum::Duplicate), Some(PreviewColumns { column_path: 3, column_name: 2 }));
    assert_eq!(preview_columns(NotebookMainEnum::SimilarImages), Some(PreviewColumns { column_path: 7, column_name: 6 }));
    assert_eq!(preview_columns(NotebookMainEnum::SameMusic), None);
    assert!(has_image_preview(NotebookMainEnum::Duplicate));
    assert!(!has_image_preview(NotebookMainEnum::BigFiles));
}

#[test]
fn grouped_views_filter_selection() {
    let grouped: Vec<NotebookMainEnum> = all_result_views().into_iter().filter(|nb| has_select_function(*nb)).collect();
    assert_eq!(
        grouped,
        vec![NotebookMainEnum::Duplicate, NotebookMainEnum::SimilarImages, NotebookMainEnum::SimilarVideos, NotebookMainEnum::SameMusic]
    );
}

#[test]
fn view_names_and_setup() {
    assert_eq!(tree_view_name(NotebookMainEnum::Duplicate), "tree_view_duplicate_finder");
    assert_eq!(tree_view_name(NotebookMainEnum::EmptyDirectories), "tree_view_empty_folder_finder");
    assert_eq!(tree_view_name(NotebookMainEnum::Symlinks), "tree_view_invalid_symlinks");
    assert_eq!(tree_view_name(NotebookMainEnum::BrokenFiles), "tree_view_broken_files");
    let setup = result_view_setup(NotebookMainEnum::SimilarImages);
    assert_eq!(setup.widget_name, "tree_view_similar_images_finder");
    assert_eq!(setup.column_types.len(), 12);
    assert!(setup.select_function && setup.image_preview);
    let setup = result_view_setup(NotebookMainEnum::Temporary);
    assert!(!setup.select_function && !setup.image_preview);
    assert_eq!(all_result_views().len(), 10);
}

#[test]
fn scales() {
    assert_eq!(similar_images_scale(), ScaleSetup { lower: 0, upper: 40, fill_level: 40, step_increment: 1, value: None });
    assert_eq!(similar_videos_scale(), ScaleSetup { lower: 0, upper: 20, fill_level: 20, step_increment: 1, value: Some(15) });
}

#[test]
fn views_start_with_multiple_selection_and_hidden_previews() {
    for nb in all_result_views() {
        let setup = result_view_setup(nb);
        assert_eq!(setup.selection, SelectionKind::Multiple);
        assert!(setup.scrolled_window_visible);
        assert!(!setup.image_preview_visible);
    }
    let dirs = directory_view_setup();
    assert_eq!(dirs.selection, SelectionKind::Multiple);
    assert!(dirs.scrolled_window_visible);
    assert_eq!(dirs.column_types, vec![ColumnType::Str]);
}

#[test]
fn result_views_in_setup_order() {
    assert_eq!(
        all_result_views(),
        vec![
            NotebookMainEnum::Duplicate,
            NotebookMainEnum::EmptyDirectories,
            NotebookMainEnum::EmptyFiles,
            NotebookMainEnum::Temporary,
            NotebookMainEnum::BigFiles,
            NotebookMainEnum::SimilarImages,
            NotebookMainEnum::SimilarVideos,
            NotebookMainEnum::SameMusic,
            NotebookMainEnum::Symlinks,
            NotebookMainEnum::BrokenFiles,
        ]
    );
}
