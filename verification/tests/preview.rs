use czkawka_gui::names::{
    cached_file_name, cached_name_for, entry_file, extension_of, is_preview_extension, is_preview_lowercase,
};
use czkawka_gui::preview::{
    dimensions_fit, entry_step, preview_dimensions, preview_step, CacheFolder, PreviewAction, PreviewEvent,
    PreviewFailure, PreviewOutcome, PreviewState,
};

fn step(state: PreviewState, event: PreviewEvent) -> (PreviewState, PreviewAction) {
    assert!(state.accepts(&event));
    preview_step(state, event)
}

fn finish_outcome(a: &PreviewAction) -> Option<((), Option<String>, bool)> {
    match a {
        PreviewAction::Finish { failure, discard_cached, .. } => Some(((), failure.as_ref().map(|f| f.message()), *discard_cached)),
        _ => None,
    }
}

fn is_outcome(a: &PreviewAction, expected: &str) -> bool {
    match a {
        PreviewAction::Finish { outcome: PreviewOutcome::Shown, .. } => expected == "shown",
        PreviewAction::Finish { outcome: PreviewOutcome::Hidden, .. } => expected == "hidden",
        PreviewAction::Finish { outcome: PreviewOutcome::Unchanged, .. } => expected == "unchanged",
        _ => false,
    }
}

#[test]
fn dimensions_wide_image() {
    assert_eq!(preview_dimensions(800, 200), (400, 100));
    assert_eq!(preview_dimensions(4000, 10), (400, 1));
}

#[test]
fn dimensions_tall_image() {
    assert_eq!(preview_dimensions(300, 600), (200, 400));
    assert_eq!(preview_dimensions(1, 1000), (1, 400));
}

#[test]
fn dimensions_square_ratio() {
    assert_eq!(preview_dimensions(500, 400), (400, 400));
    assert_eq!(preview_dimensions(1, 1), (400, 400));
    assert_eq!(preview_dimensions(799, 400), (400, 400));
}

#[test]
fn dimensions_fill_the_box() {
    for w in 1..300u32 {
        for h in [1u32, 2, 3, 7, 50, 199, 200, 201, 399, 400, 401, 1000] {
            let (a, b) = preview_dimensions(w, h);
            assert!(1 <= a && a <= 400 && 1 <= b && b <= 400);
            assert!(a == 400 || b == 400);
        }
    }
}

#[test]
fn dimensions_overflow_is_detected() {
    assert!(dimensions_fit(800, 200));
    assert!(!dimensions_fit(u32::MAX, 20_000_000));
    assert!(!dimensions_fit(20_000_000, u32::MAX));
    assert!(dimensions_fit(u32::MAX, u32::MAX));
}

#[test]
fn extensions_ignore_case() {
    assert!(is_preview_extension("jpg"));
    assert!(is_preview_extension("JPG"));
    assert!(is_preview_extension("Jpeg"));
    assert!(is_preview_extension("TIF"));
    assert!(is_preview_extension("jfi"));
    assert!(!is_preview_extension("webp"));
    assert!(!is_preview_extension("txt"));
    assert!(!is_preview_extension(""));
}

#[test]
fn names_of_files() {
    assert_eq!(entry_file("/home/a", "b.png"), "/home/a/b.png");
    assert_eq!(cached_file_name("PNG"), "cached_file.png");
    assert_eq!(cached_file_name("jpeg"), "cached_file.jpeg");
}

#[test]
fn failure_messages() {
    let m = PreviewFailure::NotAFolder { dir: "/c".to_string() }.message();
    assert_eq!(m, "Path /c doesn't point at folder, which is needed by image preview");
    let m = PreviewFailure::CannotCreateFolder { dir: "/c".to_string(), reason: "denied".to_string() }.message();
    assert_eq!(m, "Failed to create dir /c needed by image preview, reason denied");
    let m = PreviewFailure::CannotOpen { file: "/a/b.png".to_string(), reason: "bad".to_string() }.message();
    assert_eq!(m, "Failed to open temporary image file /a/b.png, reason bad");
    let m = PreviewFailure::EmptyImage { file: "/a/b.png".to_string() }.message();
    assert_eq!(m, "Cannot create preview of image /a/b.png, with 0 width or height");
    let m = PreviewFailure::CannotSave { target: "/c/x".to_string(), reason: "full".to_string() }.message();
    assert_eq!(m, "Failed to save temporary image file to /c/x, reason full");
    let m = PreviewFailure::CannotRemove { target: "/c/x".to_string(), reason: "busy".to_string() }.message();
    assert_eq!(m, "Failed to delete temporary image file to /c/x, reason busy");
}

#[test]
fn no_preview_without_single_selection() {
    let (s, a) = step(PreviewState::Start, PreviewEvent::Selection { selected_rows: 2, enabled: true });
    assert!(matches!(s, PreviewState::Finished));
    assert!(is_outcome(&a, "hidden"));
    let (s, a) = step(PreviewState::Start, PreviewEvent::Selection { selected_rows: 1, enabled: false });
    assert!(matches!(s, PreviewState::Finished));
    assert!(is_outcome(&a, "hidden"));
    let (_, a) = step(PreviewState::Start, PreviewEvent::Selection { selected_rows: 0, enabled: true });
    assert_eq!(finish_outcome(&a).map(|f| (f.1, f.2)), Some((None, false)));
}

fn run_to_entry() -> PreviewState {
    let (s, a) = step(PreviewState::Start, PreviewEvent::Selection { selected_rows: 1, enabled: true });
    assert!(matches!(a, PreviewAction::LocateCache));
    let folder = CacheFolder { dir: "/cache".to_string(), exists: true, is_dir: true };
    let (s, a) = step(s, PreviewEvent::CacheLocated { folder: Some(folder) });
    assert!(matches!(a, PreviewAction::ReadEntry));
    s
}

#[test]
fn full_run_shows_preview() {
    let s = run_to_entry();
    let (s, a) = step(
        s,
        PreviewEvent::EntryRead { path: "/pics".to_string(), name: "Cat.PNG".to_string(), current_preview: String::new() },
    );
    match &a {
        PreviewAction::OpenImage { file } => assert_eq!(file, "/pics/Cat.PNG"),
        _ => panic!("expected OpenImage"),
    }
    let (s, a) = step(s, PreviewEvent::ImageOpened { result: Ok((1000, 250)) });
    match &a {
        PreviewAction::ResizeAndSave { width, height, cached_name } => {
            assert_eq!((*width, *height), (400, 100));
            assert_eq!(cached_name, "cached_file.png");
        }
        _ => panic!("expected ResizeAndSave"),
    }
    let (s, a) = step(s, PreviewEvent::Saved { target: "/cache/cached_file.png".to_string(), error: None });
    match &a {
        PreviewAction::ShowCached { target, file } => {
            assert_eq!(target, "/cache/cached_file.png");
            assert_eq!(file, "/pics/Cat.PNG");
        }
        _ => panic!("expected ShowCached"),
    }
    let (s, a) = step(s, PreviewEvent::Removed { error: None });
    assert!(matches!(s, PreviewState::Finished));
    assert!(is_outcome(&a, "shown"));
}

#[test]
fn same_file_keeps_preview() {
    let s = run_to_entry();
    let (s, a) = step(
        s,
        PreviewEvent::EntryRead {
            path: "/pics".to_string(),
            name: "cat.jpg".to_string(),
            current_preview: "/pics/cat.jpg".to_string(),
        },
    );
    assert!(matches!(s, PreviewState::Finished));
    assert!(is_outcome(&a, "unchanged"));
}

#[test]
fn unsupported_or_missing_extension_hides() {
    let s = run_to_entry();
    let (_, a) = step(
        s,
        PreviewEvent::EntryRead { path: "/docs".to_string(), name: "notes.txt".to_string(), current_preview: String::new() },
    );
    assert!(is_outcome(&a, "hidden"));
    let s = run_to_entry();
    let (_, a) = step(
        s,
        PreviewEvent::EntryRead { path: "/docs".to_string(), name: "README".to_string(), current_preview: String::new() },
    );
    assert!(is_outcome(&a, "hidden"));
}

#[test]
fn cache_problems_are_reported() {
    let (s, _) = step(PreviewState::Start, PreviewEvent::Selection { selected_rows: 1, enabled: true });
    let (_, a) = step(s, PreviewEvent::CacheLocated { folder: None });
    assert_eq!(finish_outcome(&a).map(|f| (f.1, f.2)), Some((None, false)));

    let (s, _) = step(PreviewState::Start, PreviewEvent::Selection { selected_rows: 1, enabled: true });
    let folder = CacheFolder { dir: "/cache".to_string(), exists: true, is_dir: false };
    let (_, a) = step(s, PreviewEvent::CacheLocated { folder: Some(folder) });
    assert!(is_outcome(&a, "hidden"));
    assert_eq!(
        finish_outcome(&a).and_then(|f| f.1),
        Some("Path /cache doesn't point at folder, which is needed by image preview".to_string())
    );

    let (s, _) = step(PreviewState::Start, PreviewEvent::Selection { selected_rows: 1, enabled: true });
    let folder = CacheFolder { dir: "/cache".to_string(), exists: false, is_dir: false };
    let (s, a) = step(s, PreviewEvent::CacheLocated { folder: Some(folder) });
    assert!(matches!(a, PreviewAction::CreateCache));
    let (_, a) = step(s, PreviewEvent::CacheCreated { error: Some("denied".to_string()) });
    assert_eq!(
        finish_outcome(&a).and_then(|f| f.1),
        Some("Failed to create dir /cache needed by image preview, reason denied".to_string())
    );
}

#[test]
fn image_problems_are_reported() {
    let entry = || PreviewEvent::EntryRead { path: "/p".to_string(), name: "x.gif".to_string(), current_preview: String::new() };
    let (s, _) = step(run_to_entry(), entry());
    let (_, a) = step(s, PreviewEvent::ImageOpened { result: Err("corrupt".to_string()) });
    assert_eq!(finish_outcome(&a).and_then(|f| f.1), Some("Failed to open temporary image file /p/x.gif, reason corrupt".to_string()));

    let (s, _) = step(run_to_entry(), entry());
    let (_, a) = step(s, PreviewEvent::ImageOpened { result: Ok((0, 10)) });
    assert_eq!(finish_outcome(&a).and_then(|f| f.1), Some("Cannot create preview of image /p/x.gif, with 0 width or height".to_string()));

    let (s, _) = step(run_to_entry(), entry());
    let (s, _) = step(s, PreviewEvent::ImageOpened { result: Ok((10, 10)) });
    let (_, a) = step(s, PreviewEvent::Saved { target: "/c/cached_file.gif".to_string(), error: Some("full".to_string()) });
    let f = finish_outcome(&a).unwrap();
    assert!(is_outcome(&a, "hidden"));
    assert_eq!(f.1, Some("Failed to save temporary image file to /c/cached_file.gif, reason full".to_string()));
    assert!(f.2);

    let (s, _) = step(run_to_entry(), entry());
    let (s, _) = step(s, PreviewEvent::ImageOpened { result: Ok((10, 10)) });
    let (s, _) = step(s, PreviewEvent::Saved { target: "/c/cached_file.gif".to_string(), error: None });
    let (_, a) = step(s, PreviewEvent::Removed { error: Some("busy".to_string()) });
    assert!(is_outcome(&a, "hidden"));
    assert_eq!(finish_outcome(&a).and_then(|f| f.1), Some("Failed to delete temporary image file to /c/cached_file.gif, reason busy".to_string()));
}

#[test]
fn unexpected_events_are_not_accepted() {
    assert!(!PreviewState::Start.accepts(&PreviewEvent::Removed { error: None }));
    assert!(!PreviewState::Finished.accepts(&PreviewEvent::Selection { selected_rows: 1, enabled: true }));
    let opening = PreviewState::Opening { file: "/a.png".to_string(), lower_extension: "png".to_string() };
    assert!(!opening.accepts(&PreviewEvent::ImageOpened { result: Ok((u32::MAX, 20_000_000)) }));
    assert!(opening.accepts(&PreviewEvent::ImageOpened { result: Ok((0, u32::MAX)) }));
}

#[test]
fn lower_case_extension_check() {
    assert!(is_preview_lowercase("png"));
    assert!(is_preview_lowercase("jfi"));
    assert!(!is_preview_lowercase("PNG"));
    assert!(!is_preview_lowercase("pn"));
    assert_eq!(cached_name_for("gif"), "cached_file.gif");
}

#[test]
fn extensions_of_files() {
    assert_eq!(extension_of("/a/b.PNG"), Some(("PNG".to_string(), "png".to_string())));
    assert_eq!(extension_of("/a/b.tar.gz"), Some(("gz".to_string(), "gz".to_string())));
    assert_eq!(extension_of("/a/.hidden"), None);
    assert_eq!(extension_of("/a/noext"), None);
    assert_eq!(extension_of("/a/b."), Some((String::new(), String::new())));
    assert_eq!(extension_of("C:\\pics/b.JPG"), Some(("JPG".to_string(), "jpg".to_string())));
}

#[test]
fn entry_step_on_given_extension() {
    let (s, a) = entry_step("/p/x.png".to_string(), Some("png".to_string()), String::new());
    assert!(matches!(s, PreviewState::Opening { .. }));
    match a {
        PreviewAction::OpenImage { file } => assert_eq!(file, "/p/x.png"),
        _ => panic!("expected OpenImage"),
    }
    let (_, a) = entry_step("/p/x.png".to_string(), Some("png".to_string()), "/p/x.png".to_string());
    assert!(is_outcome(&a, "unchanged"));
    let (_, a) = entry_step("/p/x.txt".to_string(), Some("txt".to_string()), String::new());
    assert!(is_outcome(&a, "hidden"));
    let (_, a) = entry_step("/p/x".to_string(), None, String::new());
    assert!(is_outcome(&a, "hidden"));
}

/// Runs the preview steps with the given observations, returning the actions.
fn run(name: &str, current: &str) -> Vec<PreviewAction> {
    let mut state = PreviewState::Start;
    let mut actions = Vec::new();
    let mut events = vec![
        PreviewEvent::Selection { selected_rows: 1, enabled: true },
        PreviewEvent::CacheLocated { folder: Some(CacheFolder { dir: "/c".to_string(), exists: true, is_dir: true }) },
        PreviewEvent::EntryRead { path: "/p".to_string(), name: name.to_string(), current_preview: current.to_string() },
        PreviewEvent::ImageOpened { result: Ok((640, 480)) },
        PreviewEvent::Saved { target: "/c/cached_file.png".to_string(), error: None },
        PreviewEvent::Removed { error: None },
    ]
    .into_iter();
    loop {
        let event = events.next().unwrap();
        let (next, action) = step(state, event);
        state = next;
        let done = matches!(action, PreviewAction::Finish { .. });
        actions.push(action);
        if done {
            return actions;
        }
    }
}

fn describe(a: &PreviewAction) -> String {
    match a {
        PreviewAction::LocateCache => "locate".to_string(),
        PreviewAction::CreateCache => "create".to_string(),
        PreviewAction::ReadEntry => "read".to_string(),
        PreviewAction::OpenImage { .. } => "open".to_string(),
        PreviewAction::ResizeAndSave { width, height, cached_name } => format!("save {} {} {}", width, height, cached_name),
        PreviewAction::ShowCached { target, .. } => format!("show {}", target),
        PreviewAction::Finish { failure, discard_cached, .. } => {
            format!("finish {} {} {}", if is_outcome(a, "shown") { "shown" } else if is_outcome(a, "hidden") { "hidden" } else { "unchanged" }, failure.is_some(), discard_cached)
        }
    }
}

#[test]
fn extension_case_takes_same_course() {
    let upper: Vec<String> = run("a.PNG", "").iter().map(describe).collect();
    let lower: Vec<String> = run("a.png", "").iter().map(describe).collect();
    assert_eq!(upper, lower);
    assert_eq!(upper.last().unwrap(), "finish shown false false");
    assert!(upper.contains(&"save 400 400 cached_file.png".to_string()));
}

#[test]
fn repeated_run_keeps_preview() {
    let first = run("a.png", "");
    let shown = first
        .iter()
        .find_map(|a| match a {
            PreviewAction::ShowCached { file, .. } => Some(file.clone()),
            _ => None,
        })
        .unwrap();
    assert_eq!(shown, "/p/a.png");
    let second: Vec<String> = run("a.png", &shown).iter().map(describe).collect();
    assert_eq!(second, vec!["locate", "read", "finish unchanged false false"]);
}

/// Carries out the display effects of the actions: (visible, shown file, remembered file).
fn display(mut d: (bool, String, String), actions: &[PreviewAction]) -> (bool, String, String) {
    for a in actions {
        match a {
            PreviewAction::ShowCached { file, .. } => {
                d.1 = file.clone();
                d.2 = file.clone();
            }
            PreviewAction::Finish { outcome: PreviewOutcome::Shown, .. } => d.0 = true,
            PreviewAction::Finish { outcome: PreviewOutcome::Hidden, .. } => {
                d.0 = false;
                d.2 = String::new();
            }
            _ => {}
        }
    }
    d
}

#[test]
fn remembered_file_is_shown_or_cleared() {
    let d = display((false, String::new(), String::new()), &run("a.png", ""));
    assert_eq!(d, (true, "/p/a.png".to_string(), "/p/a.png".to_string()));
    let again = display(d.clone(), &run("a.png", "/p/a.png"));
    assert_eq!(again, d);
    let other = display(d.clone(), &run("notes.txt", "/p/a.png"));
    assert_eq!(other.2, "");
    assert!(!other.0);
}

#[test]
fn second_run_changes_nothing() {
    let start = (true, "/p/old.png".to_string(), "/p/old.png".to_string());
    // A first run that ends hidden: the second run, with nothing remembered, ends hidden too.
    let first = display(start.clone(), &run("notes.txt", "/p/old.png"));
    let second = display(first.clone(), &run("notes.txt", &first.2));
    assert_eq!(first, second);
    assert_eq!(first.2, "");
    // A first run that ends unchanged: so does the second.
    let first = display(start.clone(), &run("old.png", "/p/old.png"));
    assert_eq!(first, start);
    let actions = run("old.png", &first.2);
    assert_eq!(display(first.clone(), &actions), first);
    assert!(actions.iter().all(|a| !matches!(a, PreviewAction::OpenImage { .. } | PreviewAction::ShowCached { .. })));
}
