//! The restart policy: whether a change notification warrants a restart.

use vstd::prelude::*;
use crate::event::{eligible, EventView, WatchEvent};
use crate::extension::{chars_of, extension_of, extension_text, lists, listed};
use crate::options::{OptionsView, WatchOptions};

verus! {

/// The quiet window that holds whatever the configuration says, in
/// milliseconds. It absorbs the burst of notifications that one save of one
/// file produces.
pub const MIN_QUIET_WINDOW_MS: u64 = 100;

/// The least time between two restarts, in milliseconds: the configured delay,
/// and never less than `MIN_QUIET_WINDOW_MS`.
pub open spec fn quiet_window(delay: Option<u64>) -> u64 {
    match delay {
        Some(d) => if d > MIN_QUIET_WINDOW_MS { d } else { MIN_QUIET_WINDOW_MS },
        None => MIN_QUIET_WINDOW_MS,
    }
}

/// The time from `last_restart` to `now`, both in milliseconds on one
/// monotonic clock; zero where the clock reads earlier than `last_restart`.
pub open spec fn elapsed(last_restart: u64, now: u64) -> u64 {
    if now >= last_restart {
        (now - last_restart) as u64
    } else {
        0
    }
}

/// A restart is held back while the quiet window since the last one is open.
pub open spec fn throttled(delay: Option<u64>, elapsed_ms: u64) -> bool {
    elapsed_ms < quiet_window(delay)
}

/// One of `paths` is exactly `script`.
pub open spec fn touches(paths: Seq<Seq<char>>, script: Seq<char>) -> bool {
    exists|i: int| 0 <= i < paths.len() && #[trigger] paths[i] == script
}

/// One of `paths` has an extension that the comma-separated `list` holds. A
/// path without an extension is compared as the empty text.
pub open spec fn matches_filter(list: Seq<char>, paths: Seq<Seq<char>>) -> bool {
    exists|i: int| 0 <= i < paths.len() && lists(list, extension_text(#[trigger] paths[i]))
}

/// The event passes the extension filter: there is no filter, or one of its
/// paths matches it.
pub open spec fn passes_filter(ext: Option<Seq<char>>, paths: Seq<Seq<char>>) -> bool {
    match ext {
        Some(list) => matches_filter(list, paths),
        None => true,
    }
}

/// The restart policy. `elapsed_ms` is the time since the last restart.
///
/// Nothing restarts while the quiet window is open. After it, a change of the
/// script itself always restarts; any other event restarts if its kind is
/// eligible and it passes the extension filter.
pub open spec fn restart_due(options: OptionsView, event: EventView, elapsed_ms: u64) -> bool {
    &&& !throttled(options.delay, elapsed_ms)
    &&& (touches(event.paths, options.script) || (eligible(event.kind) && passes_filter(
        options.ext,
        event.paths,
    )))
}

impl WatchOptions {
    /// The least time between two restarts, in milliseconds.
    pub fn quiet_window(&self) -> (w: u64)
        ensures
            w == quiet_window(self.delay),
            w >= MIN_QUIET_WINDOW_MS,
    {
        match self.delay {
            Some(d) => if d > MIN_QUIET_WINDOW_MS { d } else { MIN_QUIET_WINDOW_MS },
            None => MIN_QUIET_WINDOW_MS,
        }
    }
}

/// The time from `last_restart` to `now`, in milliseconds.
pub fn elapsed_since(last_restart: u64, now: u64) -> (e: u64)
    ensures
        e == elapsed(last_restart, now),
{
    if now >= last_restart {
        now - last_restart
    } else {
        0
    }
}

/// Whether one of `paths` is exactly `script`.
pub fn touches_script(paths: &Vec<String>, script: &String) -> (r: bool)
    ensures
        r == touches(crate::options::texts_of(paths@), script@),
{
    let ghost texts = crate::options::texts_of(paths@);
    let mut i: usize = 0;
    while i < paths.len()
        invariant
            i <= paths.len(),
            texts == crate::options::texts_of(paths@),
            forall|k: int| 0 <= k < i ==> texts[k] != script@,
        decreases paths.len() - i,
    {
        if paths[i] == *script {
            assert(texts[i as int] == script@);
            return true;
        }
        i += 1;
    }
    false
}

/// Whether one of `paths` has an extension that the comma-separated `list`
/// holds.
pub fn matches_extension(list: &str, paths: &Vec<String>) -> (r: bool)
    ensures
        r == matches_filter(list@, crate::options::texts_of(paths@)),
{
    let ghost texts = crate::options::texts_of(paths@);
    let list_chars = chars_of(list);
    let mut i: usize = 0;
    while i < paths.len()
        invariant
            i <= paths.len(),
            list_chars@ == list@,
            texts == crate::options::texts_of(paths@),
            forall|k: int| 0 <= k < i ==> !lists(list@, extension_text(#[trigger] texts[k])),
        decreases paths.len() - i,
    {
        let ext = extension_of(paths[i].as_str());
        let ext_chars = chars_of(ext.as_str());
        if listed(&list_chars, &ext_chars) {
            assert(lists(list@, extension_text(texts[i as int])));
            return true;
        }
        i += 1;
    }
    false
}

/// The restart policy: whether `event`, arriving `elapsed_ms` milliseconds
/// after the last restart, warrants a restart under `options`.
pub fn should_restart(event: &WatchEvent, elapsed_ms: u64, options: &WatchOptions) -> (r: bool)
    ensures
        r == restart_due(options@, event@, elapsed_ms),
{
    if elapsed_ms < options.quiet_window() {
        return false;
    }
    if touches_script(&event.paths, &options.script) {
        return true;
    }
    if !event.kind.is_eligible() {
        return false;
    }
    match &options.ext {
        Some(list) => matches_extension(list.as_str(), &event.paths),
        None => true,
    }
}

/// A change of the script itself restarts whatever its kind and whatever the
/// extension filter says, once the quiet window has passed.
pub proof fn law_script_change_restarts(options: OptionsView, event: EventView, elapsed_ms: u64)
    requires
        touches(event.paths, options.script),
        !throttled(options.delay, elapsed_ms),
    ensures
        restart_due(options, event, elapsed_ms),
{
}

/// Nothing restarts within the quiet window: not within `MIN_QUIET_WINDOW_MS`
/// of the last restart, and not within the configured delay.
pub proof fn law_quiet_window_holds_back(options: OptionsView, event: EventView, elapsed_ms: u64)
    requires
        elapsed_ms < MIN_QUIET_WINDOW_MS || (options.delay matches Some(d) && elapsed_ms < d),
    ensures
        !restart_due(options, event, elapsed_ms),
{
}

/// After the quiet window, an event that does not touch the script restarts
/// exactly if its kind is eligible and it passes the extension filter. An
/// event without paths passes no filter.
pub proof fn law_filter_decides(options: OptionsView, event: EventView, elapsed_ms: u64)
    requires
        !throttled(options.delay, elapsed_ms),
        !touches(event.paths, options.script),
    ensures
        restart_due(options, event, elapsed_ms) == (eligible(event.kind) && passes_filter(
            options.ext,
            event.paths,
        )),
        event.paths.len() == 0 && options.ext is Some ==> !restart_due(
            options,
            event,
            elapsed_ms,
        ),
{
}

/// The `ignore` patterns have no part in the decision.
pub proof fn law_ignore_is_inert(
    options: OptionsView,
    ignore: Option<Seq<Seq<char>>>,
    event: EventView,
    elapsed_ms: u64,
)
    ensures
        restart_due(OptionsView { ignore, ..options }, event, elapsed_ms) == restart_due(
            options,
            event,
            elapsed_ms,
        ),
{
}

} // verus!
