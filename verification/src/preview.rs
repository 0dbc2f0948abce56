use vstd::prelude::*;

use crate::names::{
    cached_name_for, entry_file, extension_facts, extension_of, is_preview_lowercase, lowercase, path_extension,
    preview_extensions, spec_cached_name_for, spec_entry_file, spec_is_preview_extension,
};

verus! {

/// Width of the box that a preview image is scaled into.
pub const PREVIEW_WIDTH: u32 = 400;

/// Height of the box that a preview image is scaled into.
pub const PREVIEW_HEIGHT: u32 = 400;

/// The size requested for the preview of an image of `width` x `height`
/// pixels: the side that is relatively longer gets the full box side and the
/// other one is scaled by the same factor; an image whose integer aspect
/// ratio equals the box's gets the whole box. No side is below 1.
pub open spec fn spec_preview_dimensions(width: int, height: int) -> (int, int) {
    let ratio = width / height;
    let box_ratio = PREVIEW_WIDTH / PREVIEW_HEIGHT;
    if ratio > box_ratio {
        (PREVIEW_WIDTH as int, at_least_one(height * PREVIEW_WIDTH / width))
    } else if ratio < box_ratio {
        (at_least_one(width * PREVIEW_HEIGHT / height), PREVIEW_HEIGHT as int)
    } else {
        (PREVIEW_WIDTH as int, PREVIEW_HEIGHT as int)
    }
}

/// `x`, raised to 1 where it is smaller.
pub open spec fn at_least_one(x: int) -> int {
    if x < 1 { 1 } else { x }
}

/// The products that `preview_dimensions` forms fit in a `u32`.
pub open spec fn preview_dimensions_fit(width: u32, height: u32) -> bool {
    &&& width / height > PREVIEW_WIDTH / PREVIEW_HEIGHT ==> height * PREVIEW_WIDTH <= u32::MAX
    &&& width / height < PREVIEW_WIDTH / PREVIEW_HEIGHT ==> width * PREVIEW_HEIGHT <= u32::MAX
}

/// Size to which an image of `width` x `height` pixels is scaled for its preview.
pub fn preview_dimensions(width: u32, height: u32) -> (r: (u32, u32))
    requires
        width > 0,
        height > 0,
        preview_dimensions_fit(width, height),
    ensures
        r.0 == spec_preview_dimensions(width as int, height as int).0,
        r.1 == spec_preview_dimensions(width as int, height as int).1,
{
    let ratio = width / height;
    let box_ratio = PREVIEW_WIDTH / PREVIEW_HEIGHT;
    if ratio > box_ratio {
        let h = height * PREVIEW_WIDTH / width;
        (PREVIEW_WIDTH, if h < 1 { 1 } else { h })
    } else if ratio < box_ratio {
        let w = width * PREVIEW_HEIGHT / height;
        (if w < 1 { 1 } else { w }, PREVIEW_HEIGHT)
    } else {
        (PREVIEW_WIDTH, PREVIEW_HEIGHT)
    }
}



/// A reason why no preview was made, reported in the error view.
pub enum PreviewFailure {
    /// The cache path exists but is not a folder.
    NotAFolder { dir: String },
    /// The cache folder could not be created.
    CannotCreateFolder { dir: String, reason: String },
    /// The selected file could not be opened as an image.
    CannotOpen { file: String, reason: String },
    /// The image has no pixels in one direction.
    EmptyImage { file: String },
    /// The scaled image could not be written to the cache.
    CannotSave { target: String, reason: String },
    /// The scaled image could not be deleted from the cache after use.
    CannotRemove { target: String, reason: String },
}

impl PreviewFailure {
    /// The text reported for this failure.
    pub open spec fn spec_message(&self) -> Seq<char> {
        match self {
            PreviewFailure::NotAFolder { dir } =>
                "Path "@ + dir@ + " doesn't point at folder, which is needed by image preview"@,
            PreviewFailure::CannotCreateFolder { dir, reason } =>
                "Failed to create dir "@ + dir@ + " needed by image preview, reason "@ + reason@,
            PreviewFailure::CannotOpen { file, reason } =>
                "Failed to open temporary image file "@ + file@ + ", reason "@ + reason@,
            PreviewFailure::EmptyImage { file } =>
                "Cannot create preview of image "@ + file@ + ", with 0 width or height"@,
            PreviewFailure::CannotSave { target, reason } =>
                "Failed to save temporary image file to "@ + target@ + ", reason "@ + reason@,
            PreviewFailure::CannotRemove { target, reason } =>
                "Failed to delete temporary image file to "@ + target@ + ", reason "@ + reason@,
        }
    }

    /// The text reported for this failure.
    pub fn message(&self) -> (r: String)
        ensures
            r@ == self.spec_message(),
    {
        match self {
            PreviewFailure::NotAFolder { dir } => {
                let mut r = String::from_str("Path ");
                r.append(dir.as_str());
                r.append(" doesn't point at folder, which is needed by image preview");
                r
            },
            PreviewFailure::CannotCreateFolder { dir, reason } => {
                let mut r = String::from_str("Failed to create dir ");
                r.append(dir.as_str());
                r.append(" needed by image preview, reason ");
                r.append(reason.as_str());
                r
            },
            PreviewFailure::CannotOpen { file, reason } => {
                let mut r = String::from_str("Failed to open temporary image file ");
                r.append(file.as_str());
                r.append(", reason ");
                r.append(reason.as_str());
                r
            },
            PreviewFailure::EmptyImage { file } => {
                let mut r = String::from_str("Cannot create preview of image ");
                r.append(file.as_str());
                r.append(", with 0 width or height");
                r
            },
            PreviewFailure::CannotSave { target, reason } => {
                let mut r = String::from_str("Failed to save temporary image file to ");
                r.append(target.as_str());
                r.append(", reason ");
                r.append(reason.as_str());
                r
            },
            PreviewFailure::CannotRemove { target, reason } => {
                let mut r = String::from_str("Failed to delete temporary image file to ");
                r.append(target.as_str());
                r.append(", reason ");
                r.append(reason.as_str());
                r
            },
        }
    }
}


/// What becomes of the preview widget when a run of `preview_step` ends.
pub enum PreviewOutcome {
    /// The freshly made preview is shown.
    Shown,
    /// The preview is hidden and the remembered preview file is forgotten.
    Hidden,
    /// The selected file already is the one previewed: nothing changes.
    Unchanged,
}

/// What was found at the cache location of the application.
pub struct CacheFolder {
    /// The cache folder, as displayed in messages.
    pub dir: String,
    /// Whether something exists at that path.
    pub exists: bool,
    /// Whether what exists there is a folder.
    pub is_dir: bool,
}

/// Where a preview run stands.
pub enum PreviewState {
    /// Nothing has been looked at yet.
    Start,
    /// Waiting for the cache location.
    LocatingCache,
    /// Waiting for the cache folder `dir` to be created.
    CreatingCache { dir: String },
    /// Waiting for the folder and name of the selected row.
    ReadingEntry,
    /// Waiting for `file` (whose lower-case extension is `lower_extension`) to be opened.
    Opening { file: String, lower_extension: String },
    /// Waiting for the scaled image of `file` to be written to the cache.
    Saving { file: String },
    /// Waiting for the cached copy `target` of `file`'s preview to be deleted.
    Removing { file: String, target: String },
    /// The run is over.
    Finished,
}

/// What the caller observed while carrying out the last action.
pub enum PreviewEvent {
    /// How many rows are selected, and whether previews are switched on.
    Selection { selected_rows: usize, enabled: bool },
    /// The cache location of the application, if the platform has one.
    CacheLocated { folder: Option<CacheFolder> },
    /// The cache folder was created, or the reason why not.
    CacheCreated { error: Option<String> },
    /// Folder and name of the selected row, and the file previewed now.
    EntryRead { path: String, name: String, current_preview: String },
    /// Width and height of the opened image, or the reason it did not open.
    ImageOpened { result: Result<(u32, u32), String> },
    /// The scaled image was written to `target`, or the reason why not.
    Saved { target: String, error: Option<String> },
    /// The cached copy was deleted, or the reason why not.
    Removed { error: Option<String> },
}

/// What the caller is to do next.
pub enum PreviewAction {
    /// Find the cache location of the application.
    LocateCache,
    /// Create the cache folder with all its parents.
    CreateCache,
    /// Read the folder and name columns of the selected row.
    ReadEntry,
    /// Open `file` as an image.
    OpenImage { file: String },
    /// Scale the opened image to fit `width` x `height` and write it to the
    /// file `cached_name` in the cache folder.
    ResizeAndSave { width: u32, height: u32, cached_name: String },
    /// Show the image in `target`, remember `file` as the previewed file, then
    /// delete `target`.
    ShowCached { target: String, file: String },
    /// End the run with `outcome`, reporting `failure` if there is one, and
    /// first deleting the cached file (ignoring any error) if `discard_cached`.
    Finish { outcome: PreviewOutcome, failure: Option<PreviewFailure>, discard_cached: bool },
}

/// The action that ends a run with the preview hidden and nothing reported.
pub open spec fn hidden_silently() -> PreviewAction {
    PreviewAction::Finish { outcome: PreviewOutcome::Hidden, failure: None, discard_cached: false }
}

/// `a` ends a run with the preview hidden, reporting `f` (which passes `is_failure`).
pub open spec fn hidden_with(a: PreviewAction, discard: bool, is_failure: spec_fn(PreviewFailure) -> bool) -> bool {
    &&& a matches PreviewAction::Finish { outcome: PreviewOutcome::Hidden, failure: Some(f), discard_cached }
    &&& discard_cached == discard
    &&& is_failure(f)
}

impl PreviewState {
    /// Whether `event` is what this state waits for (and, for an opened image,
    /// whether its size can be scaled without overflow).
    pub open spec fn spec_accepts(&self, event: PreviewEvent) -> bool {
        match (*self, event) {
            (PreviewState::Start, PreviewEvent::Selection { .. }) => true,
            (PreviewState::LocatingCache, PreviewEvent::CacheLocated { .. }) => true,
            (PreviewState::CreatingCache { .. }, PreviewEvent::CacheCreated { .. }) => true,
            (PreviewState::ReadingEntry, PreviewEvent::EntryRead { .. }) => true,
            (PreviewState::Opening { .. }, PreviewEvent::ImageOpened { result }) => match result {
                Ok((w, h)) => w == 0 || h == 0 || preview_dimensions_fit(w, h),
                Err(_) => true,
            },
            (PreviewState::Saving { .. }, PreviewEvent::Saved { .. }) => true,
            (PreviewState::Removing { .. }, PreviewEvent::Removed { .. }) => true,
            _ => false,
        }
    }

    /// Position of the state in a run; every step moves forward.
    pub open spec fn phase(&self) -> nat {
        match *self {
            PreviewState::Start => 0,
            PreviewState::LocatingCache => 1,
            PreviewState::CreatingCache { .. } => 2,
            PreviewState::ReadingEntry => 3,
            PreviewState::Opening { .. } => 4,
            PreviewState::Saving { .. } => 5,
            PreviewState::Removing { .. } => 6,
            PreviewState::Finished => 7,
        }
    }
}

/// The lower-case form of an extension, if there is one.
pub open spec fn lowered(extension: Option<Seq<char>>) -> Option<Seq<char>> {
    match extension {
        Some(e) => Some(lowercase(e)),
        None => None,
    }
}

/// The view of an optional text.
pub open spec fn opt_view(o: Option<String>) -> Option<Seq<char>> {
    match o {
        Some(s) => Some(s@),
        None => None,
    }
}

/// The step taken on the selected file `file`, whose lower-case extension is
/// `lower` (if it has one), while `current` is the file previewed now: no
/// preview without a preview extension, nothing changes for the current
/// file, else the file is opened.
pub open spec fn entry_step_spec(file: Seq<char>, lower: Option<Seq<char>>, current: Seq<char>, t: PreviewState, a: PreviewAction) -> bool {
    match lower {
        None => t == PreviewState::Finished && a == hidden_silently(),
        Some(l) => if !preview_extensions().contains(l) {
            t == PreviewState::Finished && a == hidden_silently()
        } else if file == current {
            &&& t == PreviewState::Finished
            &&& a == (PreviewAction::Finish { outcome: PreviewOutcome::Unchanged, failure: None, discard_cached: false })
        } else {
            &&& t matches PreviewState::Opening { file: f, lower_extension: x } && f@ == file && x@ == l
            &&& a matches PreviewAction::OpenImage { file: f } && f@ == file
        },
    }
}

/// One step of making a preview: from state `s`, on event `e`, the run goes
/// to state `t` and asks for action `a`.
pub open spec fn preview_step_spec(s: PreviewState, e: PreviewEvent, t: PreviewState, a: PreviewAction) -> bool {
    match (s, e) {
        (PreviewState::Start, PreviewEvent::Selection { selected_rows, enabled }) =>
            if selected_rows == 1 && enabled {
                t == PreviewState::LocatingCache && a == PreviewAction::LocateCache
            } else {
                t == PreviewState::Finished && a == hidden_silently()
            },
        (PreviewState::LocatingCache, PreviewEvent::CacheLocated { folder }) => match folder {
            None => t == PreviewState::Finished && a == hidden_silently(),
            Some(c) => if c.exists {
                if c.is_dir {
                    t == PreviewState::ReadingEntry && a == PreviewAction::ReadEntry
                } else {
                    t == PreviewState::Finished
                        && hidden_with(a, false, |f: PreviewFailure| f matches PreviewFailure::NotAFolder { dir } && dir@ == c.dir@)
                }
            } else {
                &&& t matches PreviewState::CreatingCache { dir } && dir@ == c.dir@
                &&& a == PreviewAction::CreateCache
            },
        },
        (PreviewState::CreatingCache { dir }, PreviewEvent::CacheCreated { error }) => match error {
            None => t == PreviewState::ReadingEntry && a == PreviewAction::ReadEntry,
            Some(reason) => t == PreviewState::Finished && hidden_with(a, false,
                |f: PreviewFailure| f matches PreviewFailure::CannotCreateFolder { dir: d, reason: r }
                    && d@ == dir@ && r@ == reason@),
        },
        (PreviewState::ReadingEntry, PreviewEvent::EntryRead { path, name, current_preview }) => {
            let file = spec_entry_file(path@, name@);
            &&& extension_facts(file)
            &&& entry_step_spec(file, lowered(path_extension(file)), current_preview@, t, a)
        },
        (PreviewState::Opening { file, lower_extension }, PreviewEvent::ImageOpened { result }) => match result {
            Err(reason) => t == PreviewState::Finished && hidden_with(a, false,
                |f: PreviewFailure| f matches PreviewFailure::CannotOpen { file: x, reason: r }
                    && x@ == file@ && r@ == reason@),
            Ok((w, h)) => if w == 0 || h == 0 {
                t == PreviewState::Finished && hidden_with(a, false,
                    |f: PreviewFailure| f matches PreviewFailure::EmptyImage { file: x } && x@ == file@)
            } else {
                &&& t matches PreviewState::Saving { file: x } && x@ == file@
                &&& a matches PreviewAction::ResizeAndSave { width, height, cached_name }
                &&& width == spec_preview_dimensions(w as int, h as int).0
                &&& height == spec_preview_dimensions(w as int, h as int).1
                &&& cached_name@ == spec_cached_name_for(lower_extension@)
            },
        },
        (PreviewState::Saving { file }, PreviewEvent::Saved { target, error }) => match error {
            Some(reason) => t == PreviewState::Finished && hidden_with(a, true,
                |f: PreviewFailure| f matches PreviewFailure::CannotSave { target: x, reason: r }
                    && x@ == target@ && r@ == reason@),
            None => {
                &&& t matches PreviewState::Removing { file: x, target: y } && x@ == file@ && y@ == target@
                &&& a matches PreviewAction::ShowCached { target: y, file: x } && x@ == file@ && y@ == target@
            },
        },
        (PreviewState::Removing { file, target }, PreviewEvent::Removed { error }) => match error {
            None => {
                &&& t == PreviewState::Finished
                &&& a == (PreviewAction::Finish { outcome: PreviewOutcome::Shown, failure: None, discard_cached: false })
            },
            Some(reason) => t == PreviewState::Finished && hidden_with(a, false,
                |f: PreviewFailure| f matches PreviewFailure::CannotRemove { target: x, reason: r }
                    && x@ == target@ && r@ == reason@),
        },
        _ => false,
    }
}


impl PreviewState {
    /// Whether `event` is what this state waits for; a caller tests this
    /// before handing the event to `preview_step`.
    pub fn accepts(&self, event: &PreviewEvent) -> (r: bool)
        ensures
            r == self.spec_accepts(*event),
    {
        match (self, event) {
            (PreviewState::Start, PreviewEvent::Selection { .. }) => true,
            (PreviewState::LocatingCache, PreviewEvent::CacheLocated { .. }) => true,
            (PreviewState::CreatingCache { .. }, PreviewEvent::CacheCreated { .. }) => true,
            (PreviewState::ReadingEntry, PreviewEvent::EntryRead { .. }) => true,
            (PreviewState::Opening { .. }, PreviewEvent::ImageOpened { result }) => match result {
                Ok((w, h)) => *w == 0 || *h == 0 || dimensions_fit(*w, *h),
                Err(_) => true,
            },
            (PreviewState::Saving { .. }, PreviewEvent::Saved { .. }) => true,
            (PreviewState::Removing { .. }, PreviewEvent::Removed { .. }) => true,
            _ => false,
        }
    }
}

/// Whether the size of a `width` x `height` image can be scaled without overflow.
pub fn dimensions_fit(width: u32, height: u32) -> (r: bool)
    requires
        height > 0,
    ensures
        r == preview_dimensions_fit(width, height),
{
    let ratio = width / height;
    let box_ratio = PREVIEW_WIDTH / PREVIEW_HEIGHT;
    if ratio > box_ratio {
        (height as u64) * (PREVIEW_WIDTH as u64) <= u32::MAX as u64
    } else if ratio < box_ratio {
        (width as u64) * (PREVIEW_HEIGHT as u64) <= u32::MAX as u64
    } else {
        true
    }
}

fn finish_hidden(failure: PreviewFailure, discard_cached: bool) -> (r: (PreviewState, PreviewAction))
    ensures
        r.0 == PreviewState::Finished,
        r.1 == (PreviewAction::Finish { outcome: PreviewOutcome::Hidden, failure: Some(failure), discard_cached }),
{
    (PreviewState::Finished, PreviewAction::Finish { outcome: PreviewOutcome::Hidden, failure: Some(failure), discard_cached })
}

fn finish_silently() -> (r: (PreviewState, PreviewAction))
    ensures
        r.0 == PreviewState::Finished,
        r.1 == hidden_silently(),
{
    (PreviewState::Finished, PreviewAction::Finish { outcome: PreviewOutcome::Hidden, failure: None, discard_cached: false })
}

/// The step taken on the selected file `file`, whose lower-case extension is
/// `lower_extension` (if it has one), while `current_preview` is the file
/// previewed now.
pub fn entry_step(file: String, lower_extension: Option<String>, current_preview: String) -> (r: (PreviewState, PreviewAction))
    ensures
        entry_step_spec(file@, opt_view(lower_extension), current_preview@, r.0, r.1),
{
    match lower_extension {
        None => finish_silently(),
        Some(lower_extension) => {
            if !is_preview_lowercase(lower_extension.as_str()) {
                finish_silently()
            } else if file == current_preview {
                (
                    PreviewState::Finished,
                    PreviewAction::Finish { outcome: PreviewOutcome::Unchanged, failure: None, discard_cached: false },
                )
            } else {
                let opened = file.clone();
                (PreviewState::Opening { file, lower_extension }, PreviewAction::OpenImage { file: opened })
            }
        },
    }
}

/// One step of making the preview of the selected row: given where the run
/// stands and what the caller observed, the next state and what to do next.
/// A run starts in `PreviewState::Start` and ends when `PreviewAction::Finish`
/// is returned.
pub fn preview_step(state: PreviewState, event: PreviewEvent) -> (r: (PreviewState, PreviewAction))
    requires
        state.spec_accepts(event),
    ensures
        preview_step_spec(state, event, r.0, r.1),
{
    match (state, event) {
        (PreviewState::Start, PreviewEvent::Selection { selected_rows, enabled }) => {
            if selected_rows == 1 && enabled {
                (PreviewState::LocatingCache, PreviewAction::LocateCache)
            } else {
                finish_silently()
            }
        },
        (PreviewState::LocatingCache, PreviewEvent::CacheLocated { folder }) => match folder {
            None => finish_silently(),
            Some(c) => {
                if c.exists {
                    if c.is_dir {
                        (PreviewState::ReadingEntry, PreviewAction::ReadEntry)
                    } else {
                        finish_hidden(PreviewFailure::NotAFolder { dir: c.dir }, false)
                    }
                } else {
                    (PreviewState::CreatingCache { dir: c.dir }, PreviewAction::CreateCache)
                }
            },
        },
        (PreviewState::CreatingCache { dir }, PreviewEvent::CacheCreated { error }) => match error {
            None => (PreviewState::ReadingEntry, PreviewAction::ReadEntry),
            Some(reason) => finish_hidden(PreviewFailure::CannotCreateFolder { dir, reason }, false),
        },
        (PreviewState::ReadingEntry, PreviewEvent::EntryRead { path, name, current_preview }) => {
            let file = entry_file(path.as_str(), name.as_str());
            let lower = match extension_of(file.as_str()) {
                Some((_, l)) => Some(l),
                None => None,
            };
            entry_step(file, lower, current_preview)
        },
        (PreviewState::Opening { file, lower_extension }, PreviewEvent::ImageOpened { result }) => match result {
            Err(reason) => finish_hidden(PreviewFailure::CannotOpen { file, reason }, false),
            Ok((w, h)) => {
                if w == 0 || h == 0 {
                    finish_hidden(PreviewFailure::EmptyImage { file }, false)
                } else {
                    let (width, height) = preview_dimensions(w, h);
                    let cached_name = cached_name_for(lower_extension.as_str());
                    (PreviewState::Saving { file }, PreviewAction::ResizeAndSave { width, height, cached_name })
                }
            },
        },
        (PreviewState::Saving { file }, PreviewEvent::Saved { target, error }) => match error {
            Some(reason) => finish_hidden(PreviewFailure::CannotSave { target, reason }, true),
            None => {
                let shown = target.clone();
                let remembered = file.clone();
                (PreviewState::Removing { file, target }, PreviewAction::ShowCached { target: shown, file: remembered })
            },
        },
        (PreviewState::Removing { file, target }, PreviewEvent::Removed { error }) => match error {
            None => (
                PreviewState::Finished,
                PreviewAction::Finish { outcome: PreviewOutcome::Shown, failure: None, discard_cached: false },
            ),
            Some(reason) => finish_hidden(PreviewFailure::CannotRemove { target, reason }, false),
        },
        _ => finish_silently(),
    }
}


/// A preview always fits the preview box and fills it in at least one
/// direction: both sides are between 1 and the box side, and one side equals
/// the box side.
pub proof fn lemma_preview_dimensions_fill_box(width: u32, height: u32)
    requires
        width > 0,
        height > 0,
    ensures
        ({
            let d = spec_preview_dimensions(width as int, height as int);
            &&& 1 <= d.0 <= PREVIEW_WIDTH
            &&& 1 <= d.1 <= PREVIEW_HEIGHT
            &&& d.0 == PREVIEW_WIDTH || d.1 == PREVIEW_HEIGHT
        }),
{
    let w = width as int;
    let h = height as int;
    if w / h > 1 {
        assert(h * 400 / w <= 400) by (nonlinear_arith)
            requires w / h > 1, h > 0, w > 0;
    } else if w / h < 1 {
        assert(w * 400 / h <= 400) by (nonlinear_arith)
            requires w / h < 1, h > 0, w >= 0;
    }
}

/// The preview keeps the image's proportions, scaled so the longer side (as
/// the integer ratio decides) fills the box:
/// - an image taller than wide is `PREVIEW_HEIGHT` high and as wide as the
///   same scaling makes it, rounded down (at least 1): its width `p` has
///   `p * height <= width * PREVIEW_HEIGHT < (p + 1) * height`;
/// - an image at least twice as wide as high is `PREVIEW_WIDTH` wide and its
///   height `q` has `q * width <= height * PREVIEW_WIDTH < (q + 1) * width`
///   (at least 1);
/// - any other image (as wide as high, up to under twice as wide) fills the box.
pub proof fn lemma_preview_dimensions_keep_ratio(width: u32, height: u32)
    requires
        width > 0,
        height > 0,
    ensures
        ({
            let d = spec_preview_dimensions(width as int, height as int);
            let w = width as int;
            let h = height as int;
            &&& w < h ==> {
                &&& d.1 == PREVIEW_HEIGHT
                &&& w * PREVIEW_HEIGHT < h ==> d.0 == 1
                &&& w * PREVIEW_HEIGHT >= h ==> d.0 * h <= w * PREVIEW_HEIGHT < (d.0 + 1) * h
            }
            &&& 2 * h <= w ==> {
                &&& d.0 == PREVIEW_WIDTH
                &&& h * PREVIEW_WIDTH < w ==> d.1 == 1
                &&& h * PREVIEW_WIDTH >= w ==> d.1 * w <= h * PREVIEW_WIDTH < (d.1 + 1) * w
            }
            &&& h <= w < 2 * h ==> d.0 == PREVIEW_WIDTH && d.1 == PREVIEW_HEIGHT
        }),
{
    let w = width as int;
    let h = height as int;
    let ratio = w / h;
    assert(w < h ==> ratio == 0) by (nonlinear_arith)
        requires ratio == w / h, h > 0, w >= 0;
    assert(2 * h <= w ==> ratio >= 2) by (nonlinear_arith)
        requires ratio == w / h, h > 0, w >= 0;
    assert(h <= w < 2 * h ==> ratio == 1) by (nonlinear_arith)
        requires ratio == w / h, h > 0, w >= 0;
    let x = w * 400;
    let q = x / h;
    assert(q * h <= x < (q + 1) * h) by (nonlinear_arith)
        requires q == x / h, h > 0, x >= 0;
    assert(x < h <==> q == 0) by (nonlinear_arith)
        requires q == x / h, h > 0, x >= 0;
    let y = h * 400;
    let p = y / w;
    assert(p * w <= y < (p + 1) * w) by (nonlinear_arith)
        requires p == y / w, w > 0, y >= 0;
    assert(y < w <==> p == 0) by (nonlinear_arith)
        requires p == y / w, w > 0, y >= 0;
}

/// Every step moves a run forward, and a step ends the run exactly when it
/// asks for `Finish`; so a run ends after at most seven steps. A run that
/// ends with a failure always hides the preview.
pub proof fn lemma_step_moves_forward(s: PreviewState, e: PreviewEvent, t: PreviewState, a: PreviewAction)
    requires
        preview_step_spec(s, e, t, a),
    ensures
        t.phase() > s.phase(),
        (t == PreviewState::Finished) <==> (a is Finish),
        a matches PreviewAction::Finish { outcome, failure: Some(f), discard_cached } ==> outcome is Hidden,
        a matches PreviewAction::Finish { discard_cached, .. } && discard_cached ==> s is Saving,
{
}

/// A run keeps the current preview unchanged exactly when the selected file
/// (folder, slash, name) has a previewable extension and is the file already
/// previewed.
pub proof fn lemma_unchanged_only_for_current_file(s: PreviewState, e: PreviewEvent, t: PreviewState, a: PreviewAction)
    requires
        preview_step_spec(s, e, t, a),
    ensures
        (a matches PreviewAction::Finish { outcome, .. } && outcome is Unchanged) <==> ({
            &&& s is ReadingEntry
            &&& e matches PreviewEvent::EntryRead { path, name, current_preview }
            &&& path_extension(spec_entry_file(path@, name@)) matches Some(ext)
            &&& spec_is_preview_extension(ext)
            &&& spec_entry_file(path@, name@) == current_preview@
        }),
{
}

/// A run from the start that ends with the preview shown had exactly one row
/// selected with previews switched on; the selected file had a previewable
/// extension and was not the file already previewed; it opened with a
/// nonzero size; its scaled copy was written, shown and deleted again, and
/// the shown file is the selected one.
pub proof fn lemma_shown_run(states: Seq<PreviewState>, events: Seq<PreviewEvent>, actions: Seq<PreviewAction>)
    requires
        states.len() == events.len() + 1,
        actions.len() == events.len(),
        events.len() > 0,
        states[0] == PreviewState::Start,
        forall|i: int| 0 <= i < events.len() ==> preview_step_spec(states[i], #[trigger] events[i], states[i + 1], actions[i]),
        actions.last() matches PreviewAction::Finish { outcome, .. } && outcome is Shown,
    ensures
        events.len() >= 5,
        events[0] == (PreviewEvent::Selection { selected_rows: 1, enabled: true }),
        ({
            let n = events.len() as int;
            &&& events[n - 4] matches PreviewEvent::EntryRead { path, name, current_preview }
            &&& path_extension(spec_entry_file(path@, name@)) matches Some(ext)
            &&& spec_is_preview_extension(ext)
            &&& spec_entry_file(path@, name@) != current_preview@
            &&& events[n - 3] matches PreviewEvent::ImageOpened { result: Ok((w, h)) } && w > 0 && h > 0
            &&& events[n - 2] matches PreviewEvent::Saved { error: None, .. }
            &&& events[n - 1] matches PreviewEvent::Removed { error: None }
            &&& actions[n - 2] matches PreviewAction::ShowCached { file, .. }
                && file@ == spec_entry_file(path@, name@)
        }),
{
    let n = events.len() as int;
    let i1 = n - 1;
    assert(preview_step_spec(states[i1], events[i1], states[i1 + 1], actions[i1]));
    assert(states[n - 1] is Removing);
    assert(n >= 2) by {
        if n == 1 { assert(states[0] is Start); }
    }
    let i2 = n - 2;
    assert(preview_step_spec(states[i2], events[i2], states[i2 + 1], actions[i2]));
    assert(states[n - 2] is Saving);
    assert(n >= 3) by {
        if n == 2 { assert(states[0] is Start); }
    }
    let i3 = n - 3;
    assert(preview_step_spec(states[i3], events[i3], states[i3 + 1], actions[i3]));
    assert(states[n - 3] is Opening);
    assert(n >= 4) by {
        if n == 3 { assert(states[0] is Start); }
    }
    let i4 = n - 4;
    assert(preview_step_spec(states[i4], events[i4], states[i4 + 1], actions[i4]));
    assert(states[n - 4] is ReadingEntry);
    assert(n >= 5) by {
        if n == 4 { assert(states[0] is Start); }
    }
    assert(preview_step_spec(states[0], events[0], states[1], actions[0]));
    assert(states[1] != PreviewState::Finished) by {
        if states[1] == PreviewState::Finished {
            assert(preview_step_spec(states[1], events[1], states[2], actions[1]));
        }
    }
}

} // verus!
