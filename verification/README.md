# czkawka_gui

The decision logic of the czkawka main window, verified with Verus.

- `src/layout.rs`: the result views (their columns and column kinds, widget
  names, which views group rows and which have an image preview), the bottom
  buttons visible at start, and the similarity scales.
- `src/keys.rs`: what releasing a key over the folder lists and the result
  views does, with the proof that removing selected folders from the last one
  to the first removes exactly the selection.
- `src/names.rs`: file names and extensions: which files get a preview,
  the selected file, the name of the cached copy, and the stated rules of
  the two std calls (lower-casing, finding an extension) that they rest on.
- `src/preview.rs`: making the preview of a selected image as a state
  machine (`preview_step`): the caller performs each requested action (find
  the cache folder, read the row, open, scale and save the image, show and
  delete the cached copy) and reports what it observed.
- `src/preview_laws.rs`: laws over whole runs: extensions that differ only
  in case take the same course, running again on an unchanged world changes
  nothing, and the remembered preview file is always the shown one or none.
- `app/lib.rs`: the GTK wiring that carries those decisions out.
