use vstd::prelude::*;

use crate::events::AppEvent;
use crate::files::{is_png_extension, is_png_ext};
use crate::text::opt_view;

verus! {

/// A path reported by the file watcher, with its extension (if any).
#[derive(Debug)]
pub struct WatchedPath {
    pub path: String,
    pub extension: Option<String>,
}

/// The paths of a creation event that are PNG images, in order.
pub open spec fn png_paths(paths: Seq<WatchedPath>) -> Seq<Seq<char>>
    decreases paths.len(),
{
    if paths.len() == 0 {
        Seq::empty()
    } else {
        let rest = png_paths(paths.drop_last());
        if is_png_ext(opt_view(paths.last().extension)) {
            rest.push(paths.last().path@)
        } else {
            rest
        }
    }
}

/// Translates one file-watcher event into front-end events: every PNG path of
/// a creation event becomes `FileDetected`; other paths and other kinds of
/// events are ignored.
pub fn relay_watch_event(is_create: bool, paths: &Vec<WatchedPath>) -> (events: Vec<AppEvent>)
    ensures
        !is_create ==> events@.len() == 0,
        is_create ==> events@.len() == png_paths(paths@).len(),
        is_create ==> forall|i: int|
            0 <= i < events@.len() ==> (#[trigger] events@[i] matches AppEvent::FileDetected(p)
                && p@ == png_paths(paths@)[i]),
{
    let mut events: Vec<AppEvent> = Vec::new();
    if !is_create {
        return events;
    }
    let n = paths.len();
    let mut i: usize = 0;
    while i < n
        invariant
            n == paths@.len(),
            i <= n,
            events@.len() == png_paths(paths@.take(i as int)).len(),
            forall|k: int|
                0 <= k < events@.len() ==> (#[trigger] events@[k] matches AppEvent::FileDetected(p)
                    && p@ == png_paths(paths@.take(i as int))[k]),
        decreases n - i,
    {
        proof {
            assert(paths@.take(i + 1).drop_last() =~= paths@.take(i as int));
            assert(paths@.take(i + 1).last() == paths@[i as int]);
        }
        let ext = match &paths[i].extension {
            Some(e) => Some(e.as_str()),
            None => None,
        };
        if is_png_extension(ext) {
            events.push(AppEvent::FileDetected(paths[i].path.clone()));
        }
        i = i + 1;
    }
    proof {
        assert(paths@.take(n as int) =~= paths@);
    }
    events
}

/// The front-end event for an error reported by the file watcher.
pub fn watch_error_event(error: &str) -> (event: AppEvent)
    ensures
        event matches AppEvent::Log(msg) && msg@ == "Watcher error: "@ + error@,
{
    let mut msg = String::from_str("Watcher error: ");
    msg.append(error);
    AppEvent::Log(msg)
}

// ── Waiting for a file to become writable ───────────────────────────────────

/// What to do after one attempt to open the file for appending.
#[derive(Clone, Copy, Debug, PartialEq, Eq, Structural)]
pub enum AccessDecision {
    /// The file could be opened: it is ready.
    Accessible,
    /// Pause, then make this attempt.
    PauseThenRetry(u32),
    /// That was the last attempt: report that the file never became accessible.
    GiveUp,
}

/// The first attempt, or `None` when no attempt is allowed.
pub fn first_access_attempt(max_tries: u32) -> (first: Option<u32>)
    ensures
        first == (if max_tries >= 1 { Some(1u32) } else { None::<u32> }),
{
    if max_tries >= 1 {
        Some(1)
    } else {
        None
    }
}

/// After a failed attempt there is a pause only when another attempt follows.
pub open spec fn access_decision(attempt: u32, max_tries: u32, opened: bool) -> AccessDecision {
    if opened {
        AccessDecision::Accessible
    } else if attempt < max_tries {
        AccessDecision::PauseThenRetry((attempt + 1) as u32)
    } else {
        AccessDecision::GiveUp
    }
}

/// The decision after attempt number `attempt` (counting from 1) of at most `max_tries`.
pub fn after_access_attempt(attempt: u32, max_tries: u32, opened: bool) -> (d: AccessDecision)
    requires
        1 <= attempt <= max_tries,
    ensures
        d == access_decision(attempt, max_tries, opened),
{
    if opened {
        AccessDecision::Accessible
    } else if attempt < max_tries {
        AccessDecision::PauseThenRetry(attempt + 1)
    } else {
        AccessDecision::GiveUp
    }
}

/// Following the decisions from `attempt` on, where `opens[k]` says whether
/// attempt `k + 1` can open the file: whether the file is reported accessible,
/// and how many pauses are made on the way.
pub open spec fn access_run(attempt: u32, max_tries: u32, opens: Seq<bool>) -> (bool, nat)
    decreases max_tries - attempt,
{
    if attempt < 1 || attempt > max_tries {
        (false, 0)
    } else {
        match access_decision(attempt, max_tries, opens[attempt - 1]) {
            AccessDecision::Accessible => (true, 0),
            AccessDecision::PauseThenRetry(next) => if next > attempt {
                let (ok, pauses) = access_run(next, max_tries, opens);
                (ok, pauses + 1)
            } else {
                (false, 0)
            },
            AccessDecision::GiveUp => (false, 0),
        }
    }
}

/// From attempt `attempt` on: the file is reported accessible exactly when one
/// of the attempts up to `max_tries` opens it; a pause lies between each two
/// attempts and none follows the last, so the pauses are one fewer than the
/// attempts made (up to the first that opens the file, or up to `max_tries`).
pub proof fn lemma_access_run(attempt: u32, max_tries: u32, opens: Seq<bool>)
    requires
        1 <= attempt <= max_tries,
        opens.len() >= max_tries,
    ensures
        access_run(attempt, max_tries, opens).0 <==> exists|k: int|
            attempt - 1 <= k < max_tries && #[trigger] opens[k],
        (forall|k: int| attempt - 1 <= k < max_tries ==> !#[trigger] opens[k]) ==> access_run(
            attempt,
            max_tries,
            opens,
        ).1 == max_tries - attempt,
        forall|k: int|
            attempt - 1 <= k < max_tries && #[trigger] opens[k] && (forall|j: int|
                attempt - 1 <= j < k ==> !#[trigger] opens[j]) ==> access_run(
                attempt,
                max_tries,
                opens,
            ).1 == k - (attempt - 1),
    decreases max_tries - attempt,
{
    if !opens[attempt - 1] && attempt < max_tries {
        lemma_access_run((attempt + 1) as u32, max_tries, opens);
        if exists|k: int| attempt - 1 <= k < max_tries && #[trigger] opens[k] {
            let k = choose|k: int| attempt - 1 <= k < max_tries && #[trigger] opens[k];
            assert(k != attempt - 1);
            assert(attempt <= k < max_tries && opens[k]);
        }
        assert forall|k: int|
            attempt - 1 <= k < max_tries && #[trigger] opens[k] && (forall|j: int|
                attempt - 1 <= j < k ==> !#[trigger] opens[j]) implies access_run(
            attempt,
            max_tries,
            opens,
        ).1 == k - (attempt - 1) by {
            assert(k != attempt - 1);
            assert forall|j: int| attempt <= j < k implies !#[trigger] opens[j] by {
                assert(attempt - 1 <= j < k);
            }
        }
    } else if opens[attempt - 1] {
        assert forall|k: int|
            attempt - 1 <= k < max_tries && #[trigger] opens[k] && (forall|j: int|
                attempt - 1 <= j < k ==> !#[trigger] opens[j]) implies access_run(
            attempt,
            max_tries,
            opens,
        ).1 == k - (attempt - 1) by {
            if k != attempt - 1 {
                assert(!opens[attempt - 1]);
            }
        }
    }
}

/// The whole wait, started with `first_access_attempt`: the file is reported
/// accessible exactly when one of the first `max_tries` attempts opens it, and
/// when none does, `max_tries - 1` pauses are made: one between each two attempts.
pub proof fn lemma_wait_for_file_access(max_tries: u32, opens: Seq<bool>)
    requires
        max_tries >= 1,
        opens.len() >= max_tries,
    ensures
        access_run(1, max_tries, opens).0 <==> exists|k: int|
            0 <= k < max_tries && #[trigger] opens[k],
        (forall|k: int| 0 <= k < max_tries ==> !#[trigger] opens[k]) ==> access_run(
            1,
            max_tries,
            opens,
        ).1 == max_tries - 1,
{
    lemma_access_run(1, max_tries, opens);
}

/// The paths of a watcher event that start processing: all paths of a
/// creation event, none of any other event.
pub fn paths_to_process(is_create: bool, paths: &Vec<String>) -> (todo: Vec<String>)
    ensures
        todo@.len() == (if is_create { paths@.len() } else { 0 }),
        forall|i: int| 0 <= i < todo@.len() ==> #[trigger] todo@[i]@ == paths@[i]@,
{
    let mut todo: Vec<String> = Vec::new();
    if is_create {
        let n = paths.len();
        let mut i: usize = 0;
        while i < n
            invariant
                n == paths@.len(),
                i <= n,
                todo@.len() == i,
                forall|k: int| 0 <= k < i ==> #[trigger] todo@[k]@ == paths@[k]@,
            decreases n - i,
        {
            todo.push(paths[i].clone());
            i = i + 1;
        }
    }
    todo
}

} // verus!
