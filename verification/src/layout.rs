use vstd::prelude::*;

verus! {

/// The result views of the main notebook, one per kind of search.
#[derive(Clone, Copy, Debug, PartialEq, Eq, Structural)]
pub enum NotebookMainEnum {
    Duplicate,
    EmptyDirectories,
    EmptyFiles,
    Temporary,
    BigFiles,
    SimilarImages,
    SimilarVideos,
    SameMusic,
    Symlinks,
    BrokenFiles,
}

/// A column of a result view.
#[derive(Clone, Copy, Debug, PartialEq, Eq, Structural)]
pub enum Column {
    ActivatableSelectButton,
    SelectionButton,
    Name,
    Path,
    Modification,
    ModificationAsSecs,
    Color,
    TextColor,
    Size,
    SizeAsBytes,
    Similarity,
    Dimensions,
    Title,
    Artist,
    AlbumTitle,
    AlbumArtist,
    Year,
    DestinationPath,
    TypeOfError,
    ErrorType,
}

/// The kind of value a column of a list store holds.
#[derive(Clone, Copy, Debug, PartialEq, Eq, Structural)]
pub enum ColumnType {
    Bool,
    Str,
    U64,
}

/// The columns of the list store behind a result view, in order.
pub open spec fn spec_columns(nb: NotebookMainEnum) -> Seq<Column> {
    match nb {
        NotebookMainEnum::Duplicate => seq![
            Column::ActivatableSelectButton, Column::SelectionButton, Column::Name, Column::Path,
            Column::Modification, Column::ModificationAsSecs, Column::Color, Column::TextColor,
        ],
        NotebookMainEnum::EmptyDirectories => seq![
            Column::SelectionButton, Column::Name, Column::Path, Column::Modification,
            Column::ModificationAsSecs,
        ],
        NotebookMainEnum::EmptyFiles => seq![
            Column::SelectionButton, Column::Name, Column::Path, Column::Modification,
            Column::ModificationAsSecs,
        ],
        NotebookMainEnum::Temporary => seq![
            Column::SelectionButton, Column::Name, Column::Path, Column::Modification,
            Column::ModificationAsSecs,
        ],
        NotebookMainEnum::BigFiles => seq![
            Column::SelectionButton, Column::Size, Column::Name, Column::Path, Column::Modification,
            Column::SizeAsBytes, Column::ModificationAsSecs,
        ],
        NotebookMainEnum::SimilarImages => seq![
            Column::ActivatableSelectButton, Column::SelectionButton, Column::Similarity, Column::Size,
            Column::SizeAsBytes, Column::Dimensions, Column::Name, Column::Path, Column::Modification,
            Column::ModificationAsSecs, Column::Color, Column::TextColor,
        ],
        NotebookMainEnum::SimilarVideos => seq![
            Column::ActivatableSelectButton, Column::SelectionButton, Column::Size, Column::SizeAsBytes,
            Column::Name, Column::Path, Column::Modification, Column::ModificationAsSecs, Column::Color,
            Column::TextColor,
        ],
        NotebookMainEnum::SameMusic => seq![
            Column::ActivatableSelectButton, Column::SelectionButton, Column::Size, Column::SizeAsBytes,
            Column::Name, Column::Path, Column::Title, Column::Artist, Column::AlbumTitle,
            Column::AlbumArtist, Column::Year, Column::Modification, Column::ModificationAsSecs,
            Column::Color, Column::TextColor,
        ],
        NotebookMainEnum::Symlinks => seq![
            Column::SelectionButton, Column::Name, Column::Path, Column::DestinationPath,
            Column::TypeOfError, Column::Modification, Column::ModificationAsSecs,
        ],
        NotebookMainEnum::BrokenFiles => seq![
            Column::SelectionButton, Column::Name, Column::Path, Column::ErrorType, Column::Modification,
            Column::ModificationAsSecs,
        ],
    }
}

/// What a column holds: check boxes hold booleans, sizes in bytes and
/// modification times in seconds hold numbers, everything else text.
pub open spec fn spec_column_type(c: Column) -> ColumnType {
    match c {
        Column::ActivatableSelectButton | Column::SelectionButton => ColumnType::Bool,
        Column::SizeAsBytes | Column::ModificationAsSecs => ColumnType::U64,
        _ => ColumnType::Str,
    }
}

/// The kinds of value held by the columns of a result view, in order.
pub open spec fn spec_column_types(nb: NotebookMainEnum) -> Seq<ColumnType> {
    spec_columns(nb).map_values(|c: Column| spec_column_type(c))
}

/// The columns of the list store behind result view `nb`, in order.
pub fn columns(nb: NotebookMainEnum) -> (r: Vec<Column>)
    ensures
        r@ == spec_columns(nb),
{
    match nb {
        NotebookMainEnum::Duplicate => vec![
            Column::ActivatableSelectButton, Column::SelectionButton, Column::Name, Column::Path,
            Column::Modification, Column::ModificationAsSecs, Column::Color, Column::TextColor,
        ],
        NotebookMainEnum::EmptyDirectories => vec![
            Column::SelectionButton, Column::Name, Column::Path, Column::Modification,
            Column::ModificationAsSecs,
        ],
        NotebookMainEnum::EmptyFiles => vec![
            Column::SelectionButton, Column::Name, Column::Path, Column::Modification,
            Column::ModificationAsSecs,
        ],
        NotebookMainEnum::Temporary => vec![
            Column::SelectionButton, Column::Name, Column::Path, Column::Modification,
            Column::ModificationAsSecs,
        ],
        NotebookMainEnum::BigFiles => vec![
            Column::SelectionButton, Column::Size, Column::Name, Column::Path, Column::Modification,
            Column::SizeAsBytes, Column::ModificationAsSecs,
        ],
        NotebookMainEnum::SimilarImages => vec![
            Column::ActivatableSelectButton, Column::SelectionButton, Column::Similarity, Column::Size,
            Column::SizeAsBytes, Column::Dimensions, Column::Name, Column::Path, Column::Modification,
            Column::ModificationAsSecs, Column::Color, Column::TextColor,
        ],
        NotebookMainEnum::SimilarVideos => vec![
            Column::ActivatableSelectButton, Column::SelectionButton, Column::Size, Column::SizeAsBytes,
            Column::Name, Column::Path, Column::Modification, Column::ModificationAsSecs, Column::Color,
            Column::TextColor,
        ],
        NotebookMainEnum::SameMusic => vec![
            Column::ActivatableSelectButton, Column::SelectionButton, Column::Size, Column::SizeAsBytes,
            Column::Name, Column::Path, Column::Title, Column::Artist, Column::AlbumTitle,
            Column::AlbumArtist, Column::Year, Column::Modification, Column::ModificationAsSecs,
            Column::Color, Column::TextColor,
        ],
        NotebookMainEnum::Symlinks => vec![
            Column::SelectionButton, Column::Name, Column::Path, Column::DestinationPath,
            Column::TypeOfError, Column::Modification, Column::ModificationAsSecs,
        ],
        NotebookMainEnum::BrokenFiles => vec![
            Column::SelectionButton, Column::Name, Column::Path, Column::ErrorType, Column::Modification,
            Column::ModificationAsSecs,
        ],
    }
}

/// What column `c` holds.
pub fn column_type(c: Column) -> (r: ColumnType)
    ensures
        r == spec_column_type(c),
{
    match c {
        Column::ActivatableSelectButton | Column::SelectionButton => ColumnType::Bool,
        Column::SizeAsBytes | Column::ModificationAsSecs => ColumnType::U64,
        _ => ColumnType::Str,
    }
}

/// The kinds of value held by the columns of result view `nb`, in order:
/// what its list store is created with.
pub fn column_types(nb: NotebookMainEnum) -> (r: Vec<ColumnType>)
    ensures
        r@ == spec_column_types(nb),
{
    let cols = columns(nb);
    let mut r: Vec<ColumnType> = Vec::new();
    for i in 0..cols.len()
        invariant
            cols@ == spec_columns(nb),
            r@ == spec_columns(nb).take(i as int).map_values(|c: Column| spec_column_type(c)),
    {
        r.push(column_type(cols[i]));
        assert(spec_columns(nb).take(i + 1) == spec_columns(nb).take(i as int).push(cols@[i as int]));
    }
    assert(spec_columns(nb).take(cols.len() as int) == spec_columns(nb));
    r
}


/// Position of the first column `col` of result view `nb`, if it has one.
pub fn column_position(nb: NotebookMainEnum, col: Column) -> (r: Option<usize>)
    ensures
        match r {
            Some(i) => {
                &&& i < spec_columns(nb).len()
                &&& spec_columns(nb)[i as int] == col
                &&& forall|j: int| 0 <= j < i ==> spec_columns(nb)[j] != col
            },
            None => !spec_columns(nb).contains(col),
        },
{
    let cols = columns(nb);
    for i in 0..cols.len()
        invariant
            cols@ == spec_columns(nb),
            forall|j: int| 0 <= j < i ==> spec_columns(nb)[j] != col,
    {
        if cols[i] == col {
            return Some(i);
        }
    }
    None
}

/// Whether result view `nb` shows a preview of the selected image.
pub open spec fn spec_has_image_preview(nb: NotebookMainEnum) -> bool {
    nb == NotebookMainEnum::Duplicate || nb == NotebookMainEnum::SimilarImages
}

/// Whether result view `nb` shows a preview of the selected image.
pub fn has_image_preview(nb: NotebookMainEnum) -> (r: bool)
    ensures
        r == spec_has_image_preview(nb),
{
    match nb {
        NotebookMainEnum::Duplicate | NotebookMainEnum::SimilarImages => true,
        _ => false,
    }
}

/// Whether the rows of result view `nb` are grouped, so that its selection
/// is filtered by a select function (header rows cannot be selected).
pub open spec fn spec_has_select_function(nb: NotebookMainEnum) -> bool {
    ||| nb == NotebookMainEnum::Duplicate
    ||| nb == NotebookMainEnum::SimilarImages
    ||| nb == NotebookMainEnum::SimilarVideos
    ||| nb == NotebookMainEnum::SameMusic
}

/// Whether the selection of result view `nb` is filtered by a select function.
pub fn has_select_function(nb: NotebookMainEnum) -> (r: bool)
    ensures
        r == spec_has_select_function(nb),
{
    match nb {
        NotebookMainEnum::Duplicate | NotebookMainEnum::SimilarImages | NotebookMainEnum::SimilarVideos
        | NotebookMainEnum::SameMusic => true,
        _ => false,
    }
}

/// The widget name of the tree view of result view `nb`.
pub open spec fn spec_tree_view_name(nb: NotebookMainEnum) -> Seq<char> {
    match nb {
        NotebookMainEnum::Duplicate => "tree_view_duplicate_finder"@,
        NotebookMainEnum::EmptyDirectories => "tree_view_empty_folder_finder"@,
        NotebookMainEnum::EmptyFiles => "tree_view_empty_files_finder"@,
        NotebookMainEnum::Temporary => "tree_view_temporary_files_finder"@,
        NotebookMainEnum::BigFiles => "tree_view_big_files_finder"@,
        NotebookMainEnum::SimilarImages => "tree_view_similar_images_finder"@,
        NotebookMainEnum::SimilarVideos => "tree_view_similar_videos_finder"@,
        NotebookMainEnum::SameMusic => "tree_view_same_music_finder"@,
        NotebookMainEnum::Symlinks => "tree_view_invalid_symlinks"@,
        NotebookMainEnum::BrokenFiles => "tree_view_broken_files"@,
    }
}

/// The widget name of the tree view of result view `nb`.
pub fn tree_view_name(nb: NotebookMainEnum) -> (r: &'static str)
    ensures
        r@ == spec_tree_view_name(nb),
{
    match nb {
        NotebookMainEnum::Duplicate => "tree_view_duplicate_finder",
        NotebookMainEnum::EmptyDirectories => "tree_view_empty_folder_finder",
        NotebookMainEnum::EmptyFiles => "tree_view_empty_files_finder",
        NotebookMainEnum::Temporary => "tree_view_temporary_files_finder",
        NotebookMainEnum::BigFiles => "tree_view_big_files_finder",
        NotebookMainEnum::SimilarImages => "tree_view_similar_images_finder",
        NotebookMainEnum::SimilarVideos => "tree_view_similar_videos_finder",
        NotebookMainEnum::SameMusic => "tree_view_same_music_finder",
        NotebookMainEnum::Symlinks => "tree_view_invalid_symlinks",
        NotebookMainEnum::BrokenFiles => "tree_view_broken_files",
    }
}

/// The columns from which the preview of a result view takes the folder and
/// the name of the selected file.
#[derive(Clone, Copy, Debug, PartialEq, Eq, Structural)]
pub struct PreviewColumns {
    pub column_path: i32,
    pub column_name: i32,
}

/// The positions of the `Path` and `Name` columns of the views with a preview.
pub open spec fn spec_preview_columns(nb: NotebookMainEnum) -> Option<PreviewColumns> {
    match nb {
        NotebookMainEnum::Duplicate => Some(PreviewColumns { column_path: 3, column_name: 2 }),
        NotebookMainEnum::SimilarImages => Some(PreviewColumns { column_path: 7, column_name: 6 }),
        _ => None,
    }
}

/// Where the preview of result view `nb` reads the selected file: the
/// positions of its `Path` and `Name` columns; none for a view without preview.
pub fn preview_columns(nb: NotebookMainEnum) -> (r: Option<PreviewColumns>)
    ensures
        r == spec_preview_columns(nb),
        r is Some <==> spec_has_image_preview(nb),
        r matches Some(p) ==> {
            &&& 0 <= p.column_path < spec_columns(nb).len()
            &&& 0 <= p.column_name < spec_columns(nb).len()
            &&& spec_columns(nb)[p.column_path as int] == Column::Path
            &&& spec_columns(nb)[p.column_name as int] == Column::Name
            &&& forall|j: int| 0 <= j < p.column_path ==> spec_columns(nb)[j] != Column::Path
            &&& forall|j: int| 0 <= j < p.column_name ==> spec_columns(nb)[j] != Column::Name
        },
{
    if !has_image_preview(nb) {
        return None;
    }
    let ghost cols = spec_columns(nb);
    assert(cols.len() <= 15);
    let path = column_position(nb, Column::Path);
    let name = column_position(nb, Column::Name);
    match (path, name) {
        (Some(p), Some(n)) => Some(PreviewColumns { column_path: p as i32, column_name: n as i32 }),
        _ => {
            proof {
                if nb == NotebookMainEnum::Duplicate {
                    assert(cols[3] == Column::Path && cols[2] == Column::Name);
                } else {
                    assert(cols[7] == Column::Path && cols[6] == Column::Name);
                }
            }
            None
        },
    }
}


/// Every result view has each of its columns once, has a `Name` and a `Path`
/// column, and its list store holds text in both: so a preview, which reads
/// these two columns as text, finds exactly one of each.
pub proof fn lemma_columns_well_formed(nb: NotebookMainEnum)
    ensures
        spec_columns(nb).no_duplicates(),
        spec_columns(nb).contains(Column::Name),
        spec_columns(nb).contains(Column::Path),
        spec_column_types(nb).len() == spec_columns(nb).len(),
        forall|i: int| 0 <= i < spec_columns(nb).len()
            && (spec_columns(nb)[i] == Column::Name || spec_columns(nb)[i] == Column::Path)
            ==> spec_column_types(nb)[i] == ColumnType::Str,
{
    let cols = spec_columns(nb);
    match nb {
        NotebookMainEnum::Duplicate => { assert(cols[2] == Column::Name && cols[3] == Column::Path); },
        NotebookMainEnum::EmptyDirectories => { assert(cols[1] == Column::Name && cols[2] == Column::Path); },
        NotebookMainEnum::EmptyFiles => { assert(cols[1] == Column::Name && cols[2] == Column::Path); },
        NotebookMainEnum::Temporary => { assert(cols[1] == Column::Name && cols[2] == Column::Path); },
        NotebookMainEnum::BigFiles => { assert(cols[2] == Column::Name && cols[3] == Column::Path); },
        NotebookMainEnum::SimilarImages => { assert(cols[6] == Column::Name && cols[7] == Column::Path); },
        NotebookMainEnum::SimilarVideos => { assert(cols[4] == Column::Name && cols[5] == Column::Path); },
        NotebookMainEnum::SameMusic => { assert(cols[4] == Column::Name && cols[5] == Column::Path); },
        NotebookMainEnum::Symlinks => { assert(cols[1] == Column::Name && cols[2] == Column::Path); },
        NotebookMainEnum::BrokenFiles => { assert(cols[1] == Column::Name && cols[2] == Column::Path); },
    }
}

/// The list store of each result view is created with these kinds of value,
/// column by column.
pub proof fn lemma_column_types_table(nb: NotebookMainEnum)
    ensures
        nb == NotebookMainEnum::Duplicate ==> spec_column_types(nb) == seq![
            ColumnType::Bool, ColumnType::Bool, ColumnType::Str, ColumnType::Str, ColumnType::Str,
            ColumnType::U64, ColumnType::Str, ColumnType::Str,
        ],
        nb == NotebookMainEnum::EmptyDirectories ==> spec_column_types(nb) == seq![
            ColumnType::Bool, ColumnType::Str, ColumnType::Str, ColumnType::Str, ColumnType::U64,
        ],
        nb == NotebookMainEnum::EmptyFiles ==> spec_column_types(nb) == seq![
            ColumnType::Bool, ColumnType::Str, ColumnType::Str, ColumnType::Str, ColumnType::U64,
        ],
        nb == NotebookMainEnum::Temporary ==> spec_column_types(nb) == seq![
            ColumnType::Bool, ColumnType::Str, ColumnType::Str, ColumnType::Str, ColumnType::U64,
        ],
        nb == NotebookMainEnum::BigFiles ==> spec_column_types(nb) == seq![
            ColumnType::Bool, ColumnType::Str, ColumnType::Str, ColumnType::Str, ColumnType::Str,
            ColumnType::U64, ColumnType::U64,
        ],
        nb == NotebookMainEnum::SimilarImages ==> spec_column_types(nb) == seq![
            ColumnType::Bool, ColumnType::Bool, ColumnType::Str, ColumnType::Str, ColumnType::U64,
            ColumnType::Str, ColumnType::Str, ColumnType::Str, ColumnType::Str, ColumnType::U64,
            ColumnType::Str, ColumnType::Str,
        ],
        nb == NotebookMainEnum::SimilarVideos ==> spec_column_types(nb) == seq![
            ColumnType::Bool, ColumnType::Bool, ColumnType::Str, ColumnType::U64, ColumnType::Str,
            ColumnType::Str, ColumnType::Str, ColumnType::U64, ColumnType::Str, ColumnType::Str,
        ],
        nb == NotebookMainEnum::SameMusic ==> spec_column_types(nb) == seq![
            ColumnType::Bool, ColumnType::Bool, ColumnType::Str, ColumnType::U64, ColumnType::Str,
            ColumnType::Str, ColumnType::Str, ColumnType::Str, ColumnType::Str, ColumnType::Str,
            ColumnType::Str, ColumnType::Str, ColumnType::U64, ColumnType::Str, ColumnType::Str,
        ],
        nb == NotebookMainEnum::Symlinks ==> spec_column_types(nb) == seq![
            ColumnType::Bool, ColumnType::Str, ColumnType::Str, ColumnType::Str, ColumnType::Str,
            ColumnType::Str, ColumnType::U64,
        ],
        nb == NotebookMainEnum::BrokenFiles ==> spec_column_types(nb) == seq![
            ColumnType::Bool, ColumnType::Str, ColumnType::Str, ColumnType::Str, ColumnType::Str,
            ColumnType::U64,
        ],
{
}

/// In every result view the check boxes come first (the selection box,
/// after the activatable one in grouped views), the `Path` column comes right
/// after the `Name` column, and the text of the modification date comes
/// before its value in seconds, as the size text comes before the size in bytes.
pub proof fn lemma_column_order(nb: NotebookMainEnum)
    ensures
        ({
            let cols = spec_columns(nb);
            &&& cols[0] == Column::SelectionButton
                || (cols[0] == Column::ActivatableSelectButton && cols[1] == Column::SelectionButton)
            &&& forall|i: int| 0 <= i < cols.len() && #[trigger] cols[i] == Column::Name
                ==> i + 1 < cols.len() && cols[i + 1] == Column::Path
            &&& exists|i: int, j: int| 0 <= i < j < cols.len()
                && cols[i] == Column::Modification && cols[j] == Column::ModificationAsSecs
            &&& forall|i: int, j: int| 0 <= i < cols.len() && 0 <= j < cols.len()
                && cols[i] == Column::ModificationAsSecs && cols[j] == Column::Modification ==> j < i
            &&& forall|i: int, j: int| 0 <= i < cols.len() && 0 <= j < cols.len()
                && cols[i] == Column::SizeAsBytes && cols[j] == Column::Size ==> j < i
            &&& cols.contains(Column::Size) <==> cols.contains(Column::SizeAsBytes)
        }),
{
    let cols = spec_columns(nb);
    match nb {
        NotebookMainEnum::Duplicate => { assert(cols[4] == Column::Modification && cols[5] == Column::ModificationAsSecs); },
        NotebookMainEnum::EmptyDirectories => { assert(cols[3] == Column::Modification && cols[4] == Column::ModificationAsSecs); },
        NotebookMainEnum::EmptyFiles => { assert(cols[3] == Column::Modification && cols[4] == Column::ModificationAsSecs); },
        NotebookMainEnum::Temporary => { assert(cols[3] == Column::Modification && cols[4] == Column::ModificationAsSecs); },
        NotebookMainEnum::BigFiles => { assert(cols[4] == Column::Modification && cols[6] == Column::ModificationAsSecs); assert(cols[1] == Column::Size && cols[5] == Column::SizeAsBytes); },
        NotebookMainEnum::SimilarImages => { assert(cols[8] == Column::Modification && cols[9] == Column::ModificationAsSecs); assert(cols[3] == Column::Size && cols[4] == Column::SizeAsBytes); },
        NotebookMainEnum::SimilarVideos => { assert(cols[6] == Column::Modification && cols[7] == Column::ModificationAsSecs); assert(cols[2] == Column::Size && cols[3] == Column::SizeAsBytes); },
        NotebookMainEnum::SameMusic => { assert(cols[11] == Column::Modification && cols[12] == Column::ModificationAsSecs); assert(cols[2] == Column::Size && cols[3] == Column::SizeAsBytes); },
        NotebookMainEnum::Symlinks => { assert(cols[5] == Column::Modification && cols[6] == Column::ModificationAsSecs); },
        NotebookMainEnum::BrokenFiles => { assert(cols[4] == Column::Modification && cols[5] == Column::ModificationAsSecs); },
    }
}


/// The result views with a select function are exactly the grouped ones:
/// those whose rows start with the check box that header rows leave inactive
/// and carry the colours of header rows. The image preview belongs to two of
/// them, duplicates and similar images, which read the previewed file from
/// their `Path` and `Name` columns.
pub proof fn lemma_grouped_views(nb: NotebookMainEnum)
    ensures
        spec_has_select_function(nb) <==> spec_columns(nb)[0] == Column::ActivatableSelectButton,
        spec_has_select_function(nb) <==> spec_columns(nb).contains(Column::Color),
        spec_has_select_function(nb) <==> spec_columns(nb).contains(Column::TextColor),
        spec_has_image_preview(nb) ==> spec_has_select_function(nb),
        spec_has_image_preview(nb) <==> (nb == NotebookMainEnum::Duplicate || nb == NotebookMainEnum::SimilarImages),
        spec_preview_columns(nb) is Some <==> spec_has_image_preview(nb),
        spec_preview_columns(nb) matches Some(p) ==> {
            &&& 0 <= p.column_path < spec_columns(nb).len()
            &&& 0 <= p.column_name < spec_columns(nb).len()
            &&& spec_columns(nb)[p.column_path as int] == Column::Path
            &&& spec_columns(nb)[p.column_name as int] == Column::Name
        },
{
    let cols = spec_columns(nb);
    match nb {
        NotebookMainEnum::Duplicate => { assert(cols[6] == Column::Color && cols[7] == Column::TextColor); },
        NotebookMainEnum::SimilarImages => { assert(cols[10] == Column::Color && cols[11] == Column::TextColor); },
        NotebookMainEnum::SimilarVideos => { assert(cols[8] == Column::Color && cols[9] == Column::TextColor); },
        NotebookMainEnum::SameMusic => { assert(cols[13] == Column::Color && cols[14] == Column::TextColor); },
        _ => {},
    }
}

/// The buttons below the result views.
#[derive(Clone, Copy, Debug, PartialEq, Eq, Structural)]
pub enum BottomButton {
    Search,
    Save,
    Delete,
    Select,
    Symlink,
    Hardlink,
    Move,
}

/// Whether a bottom button is shown when the window opens: only the search
/// button is, since there are no results yet to act on.
pub fn initially_visible(button: BottomButton) -> (r: bool)
    ensures
        r == (button == BottomButton::Search),
{
    match button {
        BottomButton::Search => true,
        _ => false,
    }
}

/// Largest similarity level that the similar-images scale offers: the last
/// level of the similarity table for the default hash size.
pub const SIMILAR_IMAGES_MAX_SIMILARITY: u32 = 40;

/// Largest tolerance that the similar-videos scale offers.
pub const SIMILAR_VIDEOS_MAX_TOLERANCE: u32 = 20;

/// Tolerance the similar-videos scale starts at.
pub const SIMILAR_VIDEOS_DEFAULT_TOLERANCE: u32 = 15;

/// How a scale of the main notebook is set up.
#[derive(Clone, Copy, Debug, PartialEq, Eq, Structural)]
pub struct ScaleSetup {
    /// Lower end of the range.
    pub lower: u32,
    /// Upper end of the range.
    pub upper: u32,
    /// Level up to which the scale's trough is filled.
    pub fill_level: u32,
    /// Amount by which one step moves the scale.
    pub step_increment: u32,
    /// The value set, if one is set.
    pub value: Option<u32>,
}

/// The similarity scale of the similar-images view: from 0 to the largest
/// similarity level, filled to the end, moving by 1; its value is left as it is.
pub fn similar_images_scale() -> (r: ScaleSetup)
    ensures
        r == (ScaleSetup {
            lower: 0,
            upper: SIMILAR_IMAGES_MAX_SIMILARITY,
            fill_level: SIMILAR_IMAGES_MAX_SIMILARITY,
            step_increment: 1,
            value: None,
        }),
{
    ScaleSetup {
        lower: 0,
        upper: SIMILAR_IMAGES_MAX_SIMILARITY,
        fill_level: SIMILAR_IMAGES_MAX_SIMILARITY,
        step_increment: 1,
        value: None,
    }
}

/// The tolerance scale of the similar-videos view: from 0 to the largest
/// tolerance, filled to the end, moving by 1, set to the default tolerance.
pub fn similar_videos_scale() -> (r: ScaleSetup)
    ensures
        r == (ScaleSetup {
            lower: 0,
            upper: SIMILAR_VIDEOS_MAX_TOLERANCE,
            fill_level: SIMILAR_VIDEOS_MAX_TOLERANCE,
            step_increment: 1,
            value: Some(SIMILAR_VIDEOS_DEFAULT_TOLERANCE),
        }),
        r.lower <= SIMILAR_VIDEOS_DEFAULT_TOLERANCE <= r.upper,
{
    ScaleSetup {
        lower: 0,
        upper: SIMILAR_VIDEOS_MAX_TOLERANCE,
        fill_level: SIMILAR_VIDEOS_MAX_TOLERANCE,
        step_increment: 1,
        value: Some(SIMILAR_VIDEOS_DEFAULT_TOLERANCE),
    }
}

/// The kinds of value held by the list store of the included and of the
/// excluded folders: one text column, the folder.
pub fn directory_column_types() -> (r: Vec<ColumnType>)
    ensures
        r@ == seq![ColumnType::Str],
{
    vec![ColumnType::Str]
}


/// How rows of a tree view can be selected.
#[derive(Clone, Copy, Debug, PartialEq, Eq, Structural)]
pub enum SelectionKind {
    /// One row at most.
    Single,
    /// Any number of rows.
    Multiple,
}

/// How the tree view of a result view is set up when the window opens.
pub struct ResultViewSetup {
    /// Kinds of value of the columns of its list store, in order.
    pub column_types: Vec<ColumnType>,
    /// Widget name of the tree view.
    pub widget_name: &'static str,
    /// How its rows can be selected.
    pub selection: SelectionKind,
    /// Whether its selection is filtered by a select function.
    pub select_function: bool,
    /// Whether it has an image preview.
    pub image_preview: bool,
    /// Whether its image preview (if it has one) is visible at first.
    pub image_preview_visible: bool,
    /// Whether the scrolled window holding the tree view is shown.
    pub scrolled_window_visible: bool,
}

/// How the tree view of result view `nb` is set up: the column kinds of its
/// list store, its widget name, selection of any number of rows, whether it
/// gets a select function, whether it has an image preview (hidden at
/// first), and its scrolled window shown.
pub fn result_view_setup(nb: NotebookMainEnum) -> (r: ResultViewSetup)
    ensures
        r.column_types@ == spec_column_types(nb),
        r.widget_name@ == spec_tree_view_name(nb),
        r.selection == SelectionKind::Multiple,
        r.select_function == spec_has_select_function(nb),
        r.image_preview == spec_has_image_preview(nb),
        !r.image_preview_visible,
        r.scrolled_window_visible,
{
    ResultViewSetup {
        column_types: column_types(nb),
        widget_name: tree_view_name(nb),
        selection: SelectionKind::Multiple,
        select_function: has_select_function(nb),
        image_preview: has_image_preview(nb),
        image_preview_visible: false,
        scrolled_window_visible: true,
    }
}

/// How the tree view of the included or of the excluded folders is set up.
pub struct DirectoryViewSetup {
    /// Kinds of value of the columns of its list store, in order.
    pub column_types: Vec<ColumnType>,
    /// How its rows can be selected.
    pub selection: SelectionKind,
    /// Whether the scrolled window holding the tree view is shown.
    pub scrolled_window_visible: bool,
}

/// How the tree views of the included and of the excluded folders are set
/// up: one text column (the folder), selection of any number of rows, and
/// the scrolled window shown.
pub fn directory_view_setup() -> (r: DirectoryViewSetup)
    ensures
        r.column_types@ == seq![ColumnType::Str],
        r.selection == SelectionKind::Multiple,
        r.scrolled_window_visible,
{
    DirectoryViewSetup {
        column_types: directory_column_types(),
        selection: SelectionKind::Multiple,
        scrolled_window_visible: true,
    }
}

/// All result views, in the order in which they are set up.
pub fn all_result_views() -> (r: Vec<NotebookMainEnum>)
    ensures
        r@ == seq![
            NotebookMainEnum::Duplicate,
            NotebookMainEnum::EmptyDirectories,
            NotebookMainEnum::EmptyFiles,
            NotebookMainEnum::Temporary,
            NotebookMainEnum::BigFiles,
            NotebookMainEnum::SimilarImages,
            NotebookMainEnum::SimilarVideos,
            NotebookMainEnum::SameMusic,
            NotebookMainEnum::Symlinks,
            NotebookMainEnum::BrokenFiles,
        ],
        r@.no_duplicates(),
        forall|nb: NotebookMainEnum| r@.contains(nb),
{
    let r = vec![
        NotebookMainEnum::Duplicate,
        NotebookMainEnum::EmptyDirectories,
        NotebookMainEnum::EmptyFiles,
        NotebookMainEnum::Temporary,
        NotebookMainEnum::BigFiles,
        NotebookMainEnum::SimilarImages,
        NotebookMainEnum::SimilarVideos,
        NotebookMainEnum::SameMusic,
        NotebookMainEnum::Symlinks,
        NotebookMainEnum::BrokenFiles,
    ];
    assert forall|nb: NotebookMainEnum| r@.contains(nb) by {
        match nb {
            NotebookMainEnum::Duplicate => assert(r@[0] == nb),
            NotebookMainEnum::EmptyDirectories => assert(r@[1] == nb),
            NotebookMainEnum::EmptyFiles => assert(r@[2] == nb),
            NotebookMainEnum::Temporary => assert(r@[3] == nb),
            NotebookMainEnum::BigFiles => assert(r@[4] == nb),
            NotebookMainEnum::SimilarImages => assert(r@[5] == nb),
            NotebookMainEnum::SimilarVideos => assert(r@[6] == nb),
            NotebookMainEnum::SameMusic => assert(r@[7] == nb),
            NotebookMainEnum::Symlinks => assert(r@[8] == nb),
            NotebookMainEnum::BrokenFiles => assert(r@[9] == nb),
        }
    }
    r
}

} // verus!
