use scanner_rs::barcode::{decode_barcode, read_barcode};
use scanner_rs::po::po_number_from_search;
use scanner_rs::watch::paths_to_process;
use scanner_rs::worker::{worker_step, WorkerOutcome, WorkerRequest, WorkerStep};
use scanner_rs::app_state::{
    access_failed_event, format_log_line, processing_error_event, scan_failed_event,
    scan_output_name, ActivityLog, AppState, UiAction, MAX_LOG_LINES,
};
use scanner_rs::events::AppEvent;
use scanner_rs::files::{
    default_root, derive_dirs, is_png_extension, move_target_name, name_with_suffix,
};
use scanner_rs::filing::{destination_for, process_file, Destination, FileOutcome, FileRequest, FileStep, StopReason};
use scanner_rs::mode::ScanMode;
use scanner_rs::pipeline::{process_image, ScanOutcome, ScanRequest, ScanStep};
use scanner_rs::po::{best_identifier, extract_po_number, identifier_from};
use scanner_rs::scanner_hw::{sanitize_path, scan_to_file, wia_scan_script, wia_scan_verdict};
use scanner_rs::tesseract::{find_tesseract, run_ocr, CommandReport, LocateOutcome, LocateRequest, LocateStep, Wording};
use scanner_rs::watch::{
    after_access_attempt, first_access_attempt, relay_watch_event, watch_error_event,
    AccessDecision, WatchedPath,
};

fn finished(step: ScanStep) -> Result<Option<String>, String> {
    match step {
        ScanStep::Finished(r) => r,
        ScanStep::Perform(q) => panic!("expected a result, got request {q:?}"),
    }
}

fn requested(step: ScanStep) -> ScanRequest {
    match step {
        ScanStep::Perform(q) => q,
        ScanStep::Finished(r) => panic!("expected a request, got {r:?}"),
    }
}

#[test]
fn labels_are_the_selector_texts() {
    assert_eq!(ScanMode::Auto.label(), "Auto (barcode → OCR)");
    assert_eq!(ScanMode::OcrOnly.label(), "OCR only");
    assert_eq!(ScanMode::BarcodeOnly.label(), "Barcode only");
    assert_eq!(ScanMode::ALL, [ScanMode::Auto, ScanMode::OcrOnly, ScanMode::BarcodeOnly]);
}

#[test]
fn po_number_is_first_match_inside_text() {
    assert_eq!(extract_po_number("xx APO7 and PO8"), Some("APO7".to_string()));
    assert_eq!(extract_po_number("po123 PO"), None);
    assert_eq!(extract_po_number("PO42abc"), Some("PO42".to_string()));
}

#[test]
fn barcode_identifier_prefers_po_number() {
    assert_eq!(best_identifier("SHIP-PO9981-X".to_string()), "PO9981");
    assert_eq!(best_identifier("0123456789".to_string()), "0123456789");
    assert_eq!(identifier_from("RAW".to_string(), Some("PO3".to_string())), "PO3");
    assert_eq!(identifier_from("RAW".to_string(), None), "RAW");
}

#[test]
fn auto_mode_uses_barcode_first() {
    assert_eq!(requested(process_image(ScanMode::Auto, None)), ScanRequest::ReadBarcode);
    let done = process_image(
        ScanMode::Auto,
        Some(ScanOutcome::Barcode(Ok(Some("LOT PPO55 A".to_string())))),
    );
    assert_eq!(finished(done), Ok(Some("PPO55".to_string())));
    let raw = process_image(ScanMode::Auto, Some(ScanOutcome::Barcode(Ok(Some("ABC".to_string())))));
    assert_eq!(finished(raw), Ok(Some("ABC".to_string())));
}

#[test]
fn auto_mode_falls_back_to_ocr() {
    let none = process_image(ScanMode::Auto, Some(ScanOutcome::Barcode(Ok(None))));
    assert_eq!(requested(none), ScanRequest::RunOcr);
    let err = process_image(ScanMode::Auto, Some(ScanOutcome::Barcode(Err("bad path".to_string()))));
    assert_eq!(requested(err), ScanRequest::RunOcr);
    let ocr = process_image(ScanMode::Auto, Some(ScanOutcome::Ocr(Ok("Order PO77\n".to_string()))));
    assert_eq!(finished(ocr), Ok(Some("PO77".to_string())));
}

#[test]
fn barcode_only_mode_never_runs_ocr() {
    assert_eq!(requested(process_image(ScanMode::BarcodeOnly, None)), ScanRequest::ReadBarcode);
    let none = process_image(ScanMode::BarcodeOnly, Some(ScanOutcome::Barcode(Ok(None))));
    assert_eq!(finished(none), Ok(None));
    let err = process_image(ScanMode::BarcodeOnly, Some(ScanOutcome::Barcode(Err("bad".to_string()))));
    assert_eq!(finished(err), Err("bad".to_string()));
}

#[test]
fn ocr_only_mode_reads_text() {
    assert_eq!(requested(process_image(ScanMode::OcrOnly, None)), ScanRequest::RunOcr);
    let none = process_image(ScanMode::OcrOnly, Some(ScanOutcome::Ocr(Ok("no number".to_string()))));
    assert_eq!(finished(none), Ok(None));
    let err = process_image(ScanMode::OcrOnly, Some(ScanOutcome::Ocr(Err("exit 1".to_string()))));
    assert_eq!(finished(err), Err("exit 1".to_string()));
}

#[test]
fn directories_live_under_the_root() {
    let sep = std::path::MAIN_SEPARATOR;
    assert_eq!(default_root(), format!("{sep}renamescans"));
    let (waves, finished, error) = derive_dirs("/data/scans");
    assert_eq!(waves, "/data/scans/waves");
    assert_eq!(finished, "/data/scans/wavesfinished");
    assert_eq!(error, "/data/scans/wavesfinished/UncapturedPO");
    let (waves, _, _) = derive_dirs("/data/scans/");
    assert_eq!(waves, "/data/scans/waves");
}

#[test]
fn moved_files_get_po_names() {
    assert_eq!(name_with_suffix("PO1", "a1b2c3d4e5", Some("png")), "PO1_a1b2c3.png");
    assert_eq!(name_with_suffix("PO1", "a1b2c3d4e5", None), "PO1_a1b2c3");
    let name = move_target_name(Some("PPO9"), Some("png"), "scan.png");
    assert_eq!(name.len(), "PPO9_".len() + 6 + ".png".len());
    assert!(name.starts_with("PPO9_"));
    assert!(name.ends_with(".png"));
    assert!(name[5..11].chars().all(|c| c.is_ascii_hexdigit() && !c.is_ascii_uppercase()));
    let other = move_target_name(Some("PPO9"), Some("png"), "scan.png");
    assert_eq!(other.len(), name.len());
    assert_eq!(move_target_name(None, Some("png"), "scan.png"), "scan.png");
}

#[test]
fn png_extension_is_case_insensitive() {
    assert!(is_png_extension(Some("png")));
    assert!(is_png_extension(Some("PNG")));
    assert!(is_png_extension(Some("Png")));
    assert!(!is_png_extension(Some("jpg")));
    assert!(!is_png_extension(Some("")));
    assert!(!is_png_extension(None));
}

#[test]
fn hardware_scan_is_refused_without_wia() {
    assert_eq!(
        scan_to_file("/tmp/x.png"),
        Err("Hardware scanning via WIA is only available on Windows. On other platforms, drop image files into the 'waves' folder.".to_string())
    );
}

#[test]
fn wia_script_strips_quotes() {
    assert_eq!(sanitize_path("C:\\a\"b\".png"), "C:\\ab.png");
    let script = wia_scan_script("C:\\scans\\\"x\".png");
    assert!(script.ends_with("$image.SaveFile(\"C:\\scans\\x.png\")\n"));
    assert!(script.starts_with("\n$mgr    = New-Object -ComObject WIA.DeviceManager\n"));
    assert_eq!(wia_scan_verdict(true, true), Ok(()));
    assert_eq!(wia_scan_verdict(false, true), Err("WIA scan script exited with failure".to_string()));
    assert_eq!(
        wia_scan_verdict(true, false),
        Err("Scan appeared to succeed but output file was not created".to_string())
    );
}

#[test]
fn log_lines_carry_the_time_of_day() {
    assert_eq!(format_log_line(3661, "hi"), "[01:01:01] hi");
    assert_eq!(format_log_line(86400 + 86399, "x"), "[23:59:59] x");
    assert_eq!(format_log_line(0, ""), "[00:00:00] ");
}

#[test]
fn activity_log_keeps_the_newest_lines() {
    let mut log = ActivityLog::new();
    for i in 0..(MAX_LOG_LINES + 5) {
        log.push_log(&format!("line {i}"), 0);
    }
    assert_eq!(log.lines.len(), MAX_LOG_LINES);
    assert_eq!(log.lines.front().unwrap(), "[00:00:00] line 5");
    assert_eq!(log.lines.back().unwrap(), &format!("[00:00:00] line {}", MAX_LOG_LINES + 4));
}

#[test]
fn app_state_starts_ready() {
    let app = AppState::new(None, 7200);
    assert_eq!(app.mode, ScanMode::Auto);
    assert_eq!(app.tesseract_cmd, "tesseract");
    assert!(!app.tesseract_ok);
    assert_eq!(app.status, "Ready");
    assert!(app.root_directory.ends_with("renamescans"));
    assert!(app.waves_dir.ends_with("waves"));
    assert!(app.error_dir.ends_with("UncapturedPO"));
    assert_eq!(app.log.lines.iter().cloned().collect::<Vec<_>>(), vec!["[02:00:00] Application started.".to_string()]);
    let found = AppState::new(Some("/usr/bin/tesseract".to_string()), 0);
    assert!(found.tesseract_ok);
    assert_eq!(found.tesseract_cmd, "/usr/bin/tesseract");
}

#[test]
fn detected_file_is_previewed_and_processed() {
    let mut app = AppState::new(None, 0);
    let actions = app.handle_event(AppEvent::FileDetected("/w/a.png".to_string()), 1);
    assert_eq!(app.status, "Processing /w/a.png…");
    assert_eq!(app.log.lines.back().unwrap(), "[00:00:01] File detected: /w/a.png");
    assert!(matches!(&actions[..], [UiAction::LoadPreview(p), UiAction::SpawnProcess(q)] if p == "/w/a.png" && q == "/w/a.png"));
}

#[test]
fn finished_processing_updates_last_id() {
    let mut app = AppState::new(None, 0);
    let actions = app.handle_event(
        AppEvent::ProcessingDone {
            source: "/w/waves/a.png".to_string(),
            po_number: Some("PO12".to_string()),
            destination: Ok("/w/wavesfinished/PO12_abcdef.png".to_string()),
        },
        2,
    );
    assert!(actions.is_empty());
    assert_eq!(app.last_id, Some("PO12".to_string()));
    assert_eq!(app.status, "Last ID: PO12");
    assert_eq!(app.log.lines.back().unwrap(), "[00:00:02] ✓ a.png → PO12_abcdef.png [PO12]");

    app.handle_event(
        AppEvent::ProcessingDone {
            source: "/w/waves/b.png".to_string(),
            po_number: None,
            destination: Ok("/w/wavesfinished/UncapturedPO/b.png".to_string()),
        },
        3,
    );
    assert_eq!(app.last_id, None);
    assert_eq!(app.status, "Last ID: —");
    assert_eq!(app.log.lines.back().unwrap(), "[00:00:03] ✓ b.png → b.png [(no ID)]");
}

#[test]
fn failed_move_reports_error() {
    let mut app = AppState::new(None, 0);
    app.handle_event(
        AppEvent::ProcessingDone {
            source: "/w/c.png".to_string(),
            po_number: Some("PO1".to_string()),
            destination: Err("denied".to_string()),
        },
        4,
    );
    assert_eq!(app.status, "Error — see log.");
    assert_eq!(app.last_id, None);
    assert_eq!(app.log.lines.back().unwrap(), "[00:00:04] ✗ Move failed for /w/c.png: denied");
}

#[test]
fn hardware_scan_events() {
    let mut app = AppState::new(None, 0);
    app.begin_hardware_scan();
    assert!(app.is_scanning);
    assert_eq!(app.status, "Scanning…");
    assert_eq!(app.scan_button_label(), "⏳ Scanning…");
    assert!(!app.scan_button_enabled(true));
    let actions = app.handle_event(AppEvent::HardwareScanReady("/w/scan_1.png".to_string()), 5);
    assert!(!app.is_scanning);
    assert_eq!(app.status, "Scan complete — processing…");
    assert_eq!(actions.len(), 2);
    assert_eq!(app.scan_button_label(), "📷 Scan Now");
    assert!(app.scan_button_enabled(true));
    assert!(!app.scan_button_enabled(false));
    app.hardware_scan_unavailable(6);
    assert_eq!(app.status, "Not available on this platform.");
    assert_eq!(app.log.lines.back().unwrap(), "[00:00:06] Hardware scanning requires Windows + WIA.");
    assert_eq!(scan_output_name(1700000000), "scan_1700000000.png");
    assert_eq!(scan_output_name(0), "scan_0.png");
}

#[test]
fn log_event_and_preview() {
    let mut app = AppState::new(None, 0);
    let actions = app.handle_event(AppEvent::Log("hello".to_string()), 8);
    assert!(actions.is_empty());
    assert_eq!(app.status, "Ready");
    assert_eq!(app.log.lines.back().unwrap(), "[00:00:08] hello");
    app.preview_failed("corrupt", 9);
    assert_eq!(app.log.lines.back().unwrap(), "[00:00:09] Could not load preview: corrupt");
    app.preview_loaded("/w/a.png".to_string());
    assert_eq!(app.preview_path, Some("/w/a.png".to_string()));
}

#[test]
fn applying_settings_rederives_directories() {
    let mut app = AppState::new(None, 0);
    app.root_directory = "/srv/scans".to_string();
    app.apply_settings(10);
    assert_eq!(app.waves_dir, "/srv/scans/waves");
    assert_eq!(app.finished_dir, "/srv/scans/wavesfinished");
    assert_eq!(app.error_dir, "/srv/scans/wavesfinished/UncapturedPO");
    assert_eq!(app.status, "Watching /srv/scans/waves");
    assert_eq!(app.log.lines.back().unwrap(), "[00:00:10] Settings applied — watching \"/srv/scans/waves\"");
}

#[test]
fn background_failure_messages() {
    assert!(matches!(scan_failed_event("no device"), AppEvent::Log(m) if m == "Scan failed: no device"));
    assert!(matches!(access_failed_event("/w/a.png"), AppEvent::Log(m) if m == "Could not access file after retries: \"/w/a.png\""));
    assert!(matches!(processing_error_event("/w/a.png", "boom"), AppEvent::Log(m) if m == "Processing error for \"/w/a.png\": boom"));
    assert!(matches!(watch_error_event("gone"), AppEvent::Log(m) if m == "Watcher error: gone"));
}

#[test]
fn watcher_relays_created_pngs_only() {
    let paths = vec![
        WatchedPath { path: "/w/a.PNG".to_string(), extension: Some("PNG".to_string()) },
        WatchedPath { path: "/w/b.txt".to_string(), extension: Some("txt".to_string()) },
        WatchedPath { path: "/w/c".to_string(), extension: None },
        WatchedPath { path: "/w/d.png".to_string(), extension: Some("png".to_string()) },
    ];
    let events = relay_watch_event(true, &paths);
    let detected: Vec<String> = events
        .into_iter()
        .map(|e| match e {
            AppEvent::FileDetected(p) => p,
            other => panic!("unexpected {other:?}"),
        })
        .collect();
    assert_eq!(detected, vec!["/w/a.PNG".to_string(), "/w/d.png".to_string()]);
    assert!(relay_watch_event(false, &paths).is_empty());
}

#[test]
fn file_access_is_retried_up_to_the_limit() {
    assert_eq!(first_access_attempt(10), Some(1));
    assert_eq!(first_access_attempt(0), None);
    assert_eq!(after_access_attempt(1, 10, true), AccessDecision::Accessible);
    assert_eq!(after_access_attempt(1, 10, false), AccessDecision::PauseThenRetry(2));
    assert_eq!(after_access_attempt(10, 10, false), AccessDecision::GiveUp);
    // Walk the whole wait for a file that opens on the fourth attempt.
    let opens = [false, false, false, true, false];
    let mut attempt = first_access_attempt(5);
    let mut tries = 0;
    let mut ok = false;
    while let Some(a) = attempt {
        tries += 1;
        match after_access_attempt(a, 5, opens[(a - 1) as usize]) {
            AccessDecision::Accessible => { ok = true; attempt = None; }
            AccessDecision::PauseThenRetry(n) => attempt = Some(n),
            AccessDecision::GiveUp => attempt = None,
        }
    }
    assert!(ok);
    assert_eq!(tries, 4);
}

#[test]
fn tesseract_is_located() {
    assert!(matches!(find_tesseract(Wording::Window, None), LocateStep::Perform(LocateRequest::ProbeVersion)));
    let ok_probe = CommandReport { success: true, stdout: String::new(), stderr: String::new() };
    assert!(matches!(find_tesseract(Wording::Window, Some(LocateOutcome::Probe(Some(ok_probe)))), LocateStep::Done(Ok(c)) if c == "tesseract"));
    let stderr_probe = CommandReport { success: false, stdout: String::new(), stderr: "tesseract 5".to_string() };
    assert!(matches!(find_tesseract(Wording::Window, Some(LocateOutcome::Probe(Some(stderr_probe)))), LocateStep::Done(Ok(c)) if c == "tesseract"));
    let silent = CommandReport { success: false, stdout: String::new(), stderr: String::new() };
    assert!(matches!(find_tesseract(Wording::Window, Some(LocateOutcome::Probe(Some(silent)))), LocateStep::Perform(LocateRequest::RunLocator)));
    assert!(matches!(find_tesseract(Wording::Window, Some(LocateOutcome::Probe(None))), LocateStep::Perform(LocateRequest::RunLocator)));
    let which = CommandReport { success: true, stdout: "  /usr/bin/tesseract\n".to_string(), stderr: String::new() };
    assert!(matches!(find_tesseract(Wording::Window, Some(LocateOutcome::Locator(Some(which)))), LocateStep::Done(Ok(p)) if p == "/usr/bin/tesseract"));
    let empty = CommandReport { success: true, stdout: " \n".to_string(), stderr: String::new() };
    assert!(matches!(find_tesseract(Wording::Window, Some(LocateOutcome::Locator(Some(empty)))), LocateStep::Done(Err(m)) if m == "Tesseract not found on PATH — please install Tesseract OCR."));
    assert!(matches!(find_tesseract(Wording::Window, Some(LocateOutcome::Locator(None))), LocateStep::Done(Err(m)) if m == "Could not run 'which tesseract'"));
}

#[test]
fn ocr_results_are_reported() {
    let ok = CommandReport { success: true, stdout: "PO1\n".to_string(), stderr: String::new() };
    assert_eq!(run_ocr(Wording::Window, "/w/a.png", Some(ok)), Ok("PO1\n".to_string()));
    let bad = CommandReport { success: false, stdout: String::new(), stderr: "oops".to_string() };
    assert_eq!(run_ocr(Wording::Window, "/w/a.png", Some(bad)), Err("Tesseract non-zero exit: oops".to_string()));
    assert_eq!(run_ocr(Wording::Window, "/w/a.png", None), Err("Failed to launch Tesseract for \"/w/a.png\"".to_string()));
}

#[test]
fn new_files_are_filed_by_po_number() {
    assert!(matches!(process_file(true, None), FileStep::Perform(FileRequest::WaitForAccess)));
    assert!(matches!(process_file(true, Some(FileOutcome::Access(false))), FileStep::Stop(StopReason::Inaccessible)));
    assert!(matches!(process_file(false, Some(FileOutcome::Access(true))), FileStep::Stop(StopReason::NotPng)));
    assert!(matches!(process_file(true, Some(FileOutcome::Access(true))), FileStep::Perform(FileRequest::RunOcr)));
    assert!(matches!(
        process_file(true, Some(FileOutcome::Ocr(Ok("Ref PO123 thanks".to_string())))),
        FileStep::Move { to: Destination::Finished, po_number: Some(p) } if p == "PO123"
    ));
    assert!(matches!(
        process_file(true, Some(FileOutcome::Ocr(Ok("nothing".to_string())))),
        FileStep::Move { to: Destination::Uncaptured, po_number: None }
    ));
    assert!(matches!(
        process_file(true, Some(FileOutcome::Ocr(Err("crash".to_string())))),
        FileStep::Move { to: Destination::Uncaptured, po_number: None }
    ));
    assert_eq!(destination_for(&Some("PO1".to_string())), Destination::Finished);
    assert_eq!(destination_for(&None), Destination::Uncaptured);
}

#[test]
fn access_gives_up_without_a_final_pause() {
    // All attempts fail: one pause between each two attempts, none after the last.
    let mut attempt = first_access_attempt(3);
    let mut pauses = 0;
    let mut tries = 0;
    while let Some(a) = attempt {
        tries += 1;
        match after_access_attempt(a, 3, false) {
            AccessDecision::PauseThenRetry(n) => {
                pauses += 1;
                attempt = Some(n);
            }
            AccessDecision::GiveUp => attempt = None,
            AccessDecision::Accessible => unreachable!(),
        }
    }
    assert_eq!(tries, 3);
    assert_eq!(pauses, 2);
    assert_eq!(after_access_attempt(1, 1, false), AccessDecision::GiveUp);
}

#[test]
fn identifiers_cannot_leave_the_destination() {
    let name = move_target_name(Some("/tmp/x"), Some("png"), "scan.png");
    assert!(name.starts_with("_tmp_x_"));
    assert!(!name.contains('/') && !name.contains('\\') && !name.contains(':'));
    assert_eq!(name_with_suffix("..\\C:x", "abcdef01", Some("p/g")), "..\\C:x_abcdef.p/g");
    assert_eq!(scanner_rs::files::keep_in_directory("a/b_x.png".to_string()), "a_b_x.png");
    assert_eq!(scanner_rs::files::keep_in_directory("PO1_abcdef.png".to_string()), "PO1_abcdef.png");
    assert_eq!(scanner_rs::files::sanitize_component("a/b\\c:d"), "a_b_c_d");
    let dir = std::path::Path::new("/dest");
    assert_eq!(dir.join(&name).parent(), Some(dir));
}

#[test]
fn directories_are_separate_components() {
    let (waves, finished, error) = derive_dirs("/srv/x1");
    assert_eq!(waves, "/srv/x1/waves");
    assert!(!finished.starts_with(&format!("{waves}/")));
    assert!(!error.starts_with(&format!("{waves}/")));
    assert_eq!(derive_dirs("rel").0, "rel/waves");
    let root = default_root();
    assert!(root.starts_with('/') || root.starts_with('\\'));
    assert_eq!(&root[1..], "renamescans");
}

#[test]
fn located_command_is_trimmed() {
    assert_eq!(scanner_rs::text::trim("\t /usr/bin/tesseract \u{3000}\n"), "/usr/bin/tesseract");
    assert_eq!(scanner_rs::text::trim(" \n\t"), "");
    assert_eq!(scanner_rs::text::trim("a b"), "a b");
    assert_eq!(scanner_rs::text::trim(""), "");
    let which = CommandReport { success: true, stdout: "\u{a0}C:\\t\\tesseract.exe\r\n".to_string(), stderr: String::new() };
    assert!(matches!(find_tesseract(Wording::Window, Some(LocateOutcome::Locator(Some(which)))), LocateStep::Done(Ok(p)) if p == "C:\\t\\tesseract.exe"));
    let failed = CommandReport { success: false, stdout: "/usr/bin/tesseract".to_string(), stderr: String::new() };
    assert!(matches!(find_tesseract(Wording::CommandLine, Some(LocateOutcome::Locator(Some(failed)))), LocateStep::Done(Err(m)) if m == "Tesseract not found on PATH. Please install Tesseract OCR."));
    assert!(matches!(find_tesseract(Wording::CommandLine, Some(LocateOutcome::Locator(None))), LocateStep::Done(Err(m)) if m == "Tesseract not found on PATH. Please install Tesseract OCR."));
}

#[test]
fn command_line_wording_for_ocr_failures() {
    let bad = CommandReport { success: false, stdout: String::new(), stderr: "oops".to_string() };
    assert_eq!(run_ocr(Wording::CommandLine, "/w/a.png", Some(bad)), Err("Tesseract returned a non-zero exit code: oops".to_string()));
    assert_eq!(run_ocr(Wording::CommandLine, "/w/it's.png", None), Err(format!("Failed to launch Tesseract for {:?}", std::path::Path::new("/w/it's.png"))));
}

#[test]
fn search_results_become_po_numbers() {
    assert_eq!(po_number_from_search(Ok(Some("PO1".to_string()))), Some("PO1".to_string()));
    assert_eq!(po_number_from_search(Ok(None)), None);
    let err = regex::Regex::new("(").unwrap_err();
    assert_eq!(po_number_from_search(Err(err)), None);
}

#[test]
fn only_creation_events_start_processing() {
    let paths = vec!["/w/a.png".to_string(), "/w/b.txt".to_string()];
    assert_eq!(paths_to_process(true, &paths), paths);
    assert!(paths_to_process(false, &paths).is_empty());
}

#[test]
fn window_worker_files_and_reports() {
    let p = "/w/a.png";
    assert!(matches!(worker_step(p, None), WorkerStep::Perform(WorkerRequest::WaitForAccess)));
    assert!(matches!(worker_step(p, Some(WorkerOutcome::Access(false))),
        WorkerStep::Finish(AppEvent::Log(m)) if m == "Could not access file after retries: \"/w/a.png\""));
    assert!(matches!(worker_step(p, Some(WorkerOutcome::Access(true))), WorkerStep::Perform(WorkerRequest::RunPipeline)));
    assert!(matches!(worker_step(p, Some(WorkerOutcome::Pipeline(Err("boom".to_string())))),
        WorkerStep::Move { notice: Some(AppEvent::Log(m)), to: Destination::Uncaptured, po_number: None }
            if m == "Processing error for \"/w/a.png\": boom"));
    assert!(matches!(worker_step(p, Some(WorkerOutcome::Pipeline(Ok(Some("PO4".to_string()))))),
        WorkerStep::Move { notice: None, to: Destination::Finished, po_number: Some(id) } if id == "PO4"));
    assert!(matches!(worker_step(p, Some(WorkerOutcome::Pipeline(Ok(None)))),
        WorkerStep::Move { notice: None, to: Destination::Uncaptured, po_number: None }));
    let done = worker_step(p, Some(WorkerOutcome::Moved { po_number: Some("PO4".to_string()), destination: Ok("/f/PO4_abcdef.png".to_string()) }));
    assert!(matches!(done, WorkerStep::Finish(AppEvent::ProcessingDone { source, po_number: Some(id), destination: Ok(d) })
        if source == p && id == "PO4" && d == "/f/PO4_abcdef.png"));
}

#[test]
fn identifiers_keep_plain_characters() {
    // `:` and `\` are ordinary file-name characters on Unix: the name is kept.
    let sep_is_backslash = std::path::MAIN_SEPARATOR == '\\';
    let name = move_target_name(Some("P:1"), Some("png"), "scan.png");
    if !sep_is_backslash {
        assert!(name.starts_with("P:1_"));
        let back = move_target_name(Some("A\\B"), None, "scan.png");
        assert!(back.starts_with("A\\B_"));
    }
    let dir = std::path::Path::new("/dest");
    assert_eq!(dir.join(&name).parent(), Some(dir));
    assert!(scanner_rs::files::is_png_lowercase("png"));
    assert!(!scanner_rs::files::is_png_lowercase("PNG"));
}

#[test]
fn barcodes_are_decoded_from_file_contents() {
    assert_eq!(decode_barcode(b"not an image"), None);
    assert_eq!(read_barcode(true, None), Ok(None));
    assert_eq!(read_barcode(true, Some(b"not an image".to_vec())), Ok(None));
    assert_eq!(read_barcode(false, None), Err("Image path contains non-UTF-8 characters".to_string()));
    // A QR code rendered by rxing's own writer, stored as a BMP file, decodes back to its text.
    let writer = rxing::MultiFormatWriter::default();
    let matrix = rxing::Writer::encode(&writer, "PO4242", &rxing::BarcodeFormat::QR_CODE, 200, 200).unwrap();
    let size = matrix.width().max(matrix.height());
    assert_eq!(decode_barcode(&bmp_of(&matrix, size)), Some("PO4242".to_string()));
}

/// A 24-bit BMP file of `m` (set = black), each module drawn 2 pixels wide,
/// inside a white border of 8 modules.
fn bmp_of(m: &rxing::common::BitMatrix, size: u32) -> Vec<u8> {
    let scale = 2;
    let border = 8;
    let px = (size + 2 * border) * scale;
    let row = (px * 3 + 3) / 4 * 4;
    let data = row * px;
    let mut out = Vec::new();
    out.extend_from_slice(b"BM");
    out.extend_from_slice(&(54 + data).to_le_bytes());
    out.extend_from_slice(&0u32.to_le_bytes());
    out.extend_from_slice(&54u32.to_le_bytes());
    out.extend_from_slice(&40u32.to_le_bytes());
    out.extend_from_slice(&(px as i32).to_le_bytes());
    out.extend_from_slice(&(px as i32).to_le_bytes());
    out.extend_from_slice(&1u16.to_le_bytes());
    out.extend_from_slice(&24u16.to_le_bytes());
    out.extend_from_slice(&0u32.to_le_bytes());
    out.extend_from_slice(&data.to_le_bytes());
    out.extend_from_slice(&2835u32.to_le_bytes());
    out.extend_from_slice(&2835u32.to_le_bytes());
    out.extend_from_slice(&0u32.to_le_bytes());
    out.extend_from_slice(&0u32.to_le_bytes());
    for py in (0..px).rev() {
        for qx in 0..px {
            let (mx, my) = (qx / scale, py / scale);
            let black = mx >= border
                && my >= border
                && m.try_get(mx - border, my - border).unwrap_or(false);
            let v = if black { 0u8 } else { 255u8 };
            out.extend_from_slice(&[v, v, v]);
        }
        out.resize(out.len() + (row - px * 3) as usize, 0);
    }
    out
}

#[test]
fn directories_beside_waves_for_any_root_ending() {
    let (waves, finished, error) = derive_dirs("/data/scans.");
    assert_eq!(waves, "/data/scans./waves");
    assert_eq!(finished, "/data/scans./wavesfinished");
    assert_eq!(error, "/data/scans./wavesfinished/UncapturedPO");
    assert!(!finished.starts_with(&format!("{waves}/")));
    assert!(!error.starts_with(&format!("{waves}/")));
}

#[test]
fn ocr_identifiers_have_the_po_shape() {
    let step = process_image(
        ScanMode::OcrOnly,
        Some(ScanOutcome::Ocr(Ok("Ref PO x, P O 1, order XYPO553 of today".to_string()))),
    );
    assert_eq!(finished(step), Ok(Some("XYPO553".to_string())));
    let step = process_image(
        ScanMode::BarcodeOnly,
        Some(ScanOutcome::Barcode(Ok(Some("lot 7 / PO12".to_string())))),
    );
    assert_eq!(finished(step), Ok(Some("PO12".to_string())));
}
