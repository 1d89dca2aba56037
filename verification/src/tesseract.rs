use vstd::prelude::*;

use crate::text::{all_whitespace, lemma_trim_facts, path_debug, path_debug_rendering, trim, trim_bounds, trims_to};

verus! {

/// What a finished external command reported, its output decoded as text.
#[derive(Debug)]
pub struct CommandReport {
    /// Whether the command exited successfully.
    pub success: bool,
    pub stdout: String,
    pub stderr: String,
}

/// Which front-end the messages are worded for.
#[derive(Clone, Copy, Debug, PartialEq, Eq, Structural)]
pub enum Wording {
    /// The desktop window.
    Window,
    /// The command-line watcher.
    CommandLine,
}

/// Outside work needed to locate the OCR engine.
#[derive(Clone, Copy, Debug, PartialEq, Eq, Structural)]
pub enum LocateRequest {
    /// Run `tesseract --version`.
    ProbeVersion,
    /// Ask the platform's locator (`which` / `where`) for `tesseract`.
    RunLocator,
}

/// What that work produced: `None` when the command could not be started.
#[derive(Debug)]
pub enum LocateOutcome {
    Probe(Option<CommandReport>),
    Locator(Option<CommandReport>),
}

/// The next step in locating the OCR engine.
#[derive(Debug)]
pub enum LocateStep {
    Perform(LocateRequest),
    /// The command to run OCR with, or why none was found.
    Done(Result<String, String>),
}

pub open spec fn not_found_message(wording: Wording) -> Seq<char> {
    match wording {
        Wording::Window => "Tesseract not found on PATH — please install Tesseract OCR."@,
        Wording::CommandLine => "Tesseract not found on PATH. Please install Tesseract OCR."@,
    }
}

/// The message when the locator itself cannot be started.
pub open spec fn locator_failed_message(wording: Wording) -> Seq<char> {
    match wording {
        Wording::Window => "Could not run 'which tesseract'"@,
        Wording::CommandLine => not_found_message(wording),
    }
}

/// Whether the version probe shows that `tesseract` runs: it exited
/// successfully or at least wrote to stderr (some versions print their version there).
pub open spec fn probe_finds_tesseract(probe: Option<CommandReport>) -> bool {
    match probe {
        Some(out) => out.success || out.stderr@.len() > 0,
        None => false,
    }
}

fn not_found(wording: Wording) -> (m: String)
    ensures
        m@ == not_found_message(wording),
{
    match wording {
        Wording::Window => String::from_str("Tesseract not found on PATH — please install Tesseract OCR."),
        Wording::CommandLine => String::from_str("Tesseract not found on PATH. Please install Tesseract OCR."),
    }
}

/// Return the name / path of the `tesseract` executable, one step at a time:
/// start with `None`, perform each requested command and pass its outcome back.
/// A command found is never empty and never has surrounding whitespace.
pub fn find_tesseract(wording: Wording, outcome: Option<LocateOutcome>) -> (step: LocateStep)
    ensures
        outcome is None ==> step == LocateStep::Perform(LocateRequest::ProbeVersion),
        outcome matches Some(LocateOutcome::Probe(p)) ==> (if probe_finds_tesseract(p) {
            step matches LocateStep::Done(Ok(cmd)) && cmd@ == "tesseract"@
        } else {
            step == LocateStep::Perform(LocateRequest::RunLocator)
        }),
        outcome matches Some(LocateOutcome::Locator(None)) ==> (step matches LocateStep::Done(
            Err(m),
        ) && m@ == locator_failed_message(wording)),
        outcome matches Some(LocateOutcome::Locator(Some(out))) ==> (if out.success
            && !all_whitespace(out.stdout@) {
            step matches LocateStep::Done(Ok(path)) && trims_to(out.stdout@, path@)
        } else {
            step matches LocateStep::Done(Err(m)) && m@ == not_found_message(wording)
        }),
        step matches LocateStep::Done(Ok(cmd)) ==> cmd@.len() > 0 && trims_to(cmd@, cmd@),
{
    match outcome {
        None => LocateStep::Perform(LocateRequest::ProbeVersion),
        Some(LocateOutcome::Probe(p)) => {
            let found = match &p {
                Some(out) => out.success || out.stderr.as_str().unicode_len() > 0,
                None => false,
            };
            if found {
                let cmd = String::from_str("tesseract");
                proof {
                    reveal_strlit("tesseract");
                    assert(trim_bounds(cmd@, 0, 9));
                    assert(cmd@ =~= cmd@.subrange(0, 9));
                }
                LocateStep::Done(Ok(cmd))
            } else {
                LocateStep::Perform(LocateRequest::RunLocator)
            }
        },
        Some(LocateOutcome::Locator(None)) => match wording {
            Wording::Window => LocateStep::Done(Err(String::from_str("Could not run 'which tesseract'"))),
            Wording::CommandLine => LocateStep::Done(Err(not_found(wording))),
        },
        Some(LocateOutcome::Locator(Some(out))) => {
            let path = trim(out.stdout.as_str());
            proof {
                lemma_trim_facts(out.stdout@, path@);
            }
            if out.success && path.as_str().unicode_len() > 0 {
                LocateStep::Done(Ok(path))
            } else {
                LocateStep::Done(Err(not_found(wording)))
            }
        },
    }
}

/// The message when the OCR engine could not be started, given how the image's
/// path is shown.
pub fn launch_failed_message(shown_path: &str) -> (m: String)
    ensures
        m@ == "Failed to launch Tesseract for "@ + shown_path@,
{
    let mut m = String::from_str("Failed to launch Tesseract for ");
    m.append(shown_path);
    m
}

/// The text an OCR run produced, or why it failed: `report` is `None` when the
/// engine could not be started for `image_path`.
pub fn run_ocr(wording: Wording, image_path: &str, report: Option<CommandReport>) -> (r: Result<String, String>)
    ensures
        report is None ==> (r matches Err(m) && m@ == "Failed to launch Tesseract for "@
            + path_debug_rendering(image_path@)),
        report matches Some(out) ==> (if out.success {
            r matches Ok(text) && text@ == out.stdout@
        } else {
            r matches Err(m) && m@ == (match wording {
                Wording::Window => "Tesseract non-zero exit: "@,
                Wording::CommandLine => "Tesseract returned a non-zero exit code: "@,
            }) + out.stderr@
        }),
{
    match report {
        None => {
            let shown = path_debug(image_path);
            Err(launch_failed_message(shown.as_str()))
        },
        Some(out) => {
            if out.success {
                Ok(out.stdout)
            } else {
                let mut m = match wording {
                    Wording::Window => String::from_str("Tesseract non-zero exit: "),
                    Wording::CommandLine => String::from_str("Tesseract returned a non-zero exit code: "),
                };
                m.append(out.stderr.as_str());
                Err(m)
            }
        },
    }
}

} // verus!
