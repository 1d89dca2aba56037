# scanner_rs

Watches a `waves` folder for scanned PNG images, finds a purchase-order number
in each (barcode and/or OCR), and files the image under `wavesfinished`
(named `<PO>_<6 hex chars>.png`) or `wavesfinished/UncapturedPO`.

- `src/` is the verified library: scan modes, PO-number extraction (through the
  `regex` crate), barcode decoding of image bytes (through `rxing`), the
  extraction pipeline and the filing rules as step
  functions, file naming, the retry policy for file access, the watcher's event
  filter, the Windows WIA script, and the state machine and background worker
  of the desktop window.
- `app/main.rs` is the command-line watcher; it performs the I/O (commands,
  reading image files, the `notify` watcher) that the
  library's step functions ask for. `app/gui.rs` (not reached from `main.rs`,
  as eframe is not a dependency) is the eframe window over
  the same library state.
- `tests/` runs the library against the real outside crates.
