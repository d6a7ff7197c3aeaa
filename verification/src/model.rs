//! The adapter as mathematics: what it remembers, what it asks of its host,
//! and how each answer moves it on.
//!
//! Texts are sequences of characters and captured output is a sequence of
//! bytes. The executable code is specified against the functions of this
//! module.

use vstd::prelude::*;
use vstd::utf8::{decode_utf8, valid_utf8};
use crate::text::{trimmed, utf8_error_text};

verus! {

/// The settings that a user may give for the adapter.
pub struct SettingsView {
    /// The path to use for the binary, if one is configured.
    pub cu_path: Option<Seq<char>>,
}

/// What the host holds as settings: nothing, settings that do not have the
/// expected shape (with the reason), or settings.
pub type SettingsReadingView = Option<Result<SettingsView, Seq<char>>>;

/// A fact that the adapter needs from its host.
pub enum HostRequestView {
    /// Is `path` an existing regular file?
    CheckFile { path: Seq<char> },
    /// Run `program` with `args` and capture what it prints.
    RunLookup { program: Seq<char>, args: Seq<Seq<char>> },
}

/// The host's answer to a request.
pub enum HostReplyView {
    /// Whether the path asked about is an existing regular file.
    FileChecked(bool),
    /// The standard output of the program, or why it could not be started.
    LookupFinished(Result<Seq<u8>, Seq<char>>),
}

/// Where an operation stands after a step: it needs a fact, or it is over.
pub enum StepView<T> {
    Ask(HostRequestView),
    Done(Result<T, Seq<char>>),
}

/// How a process is started.
pub struct CommandView {
    pub command: Seq<char>,
    pub args: Seq<Seq<char>>,
    pub env: Seq<(Seq<char>, Seq<char>)>,
}

/// What moves a launch on: the request itself, which brings the settings,
/// or the host's answer to what the step before asked.
pub enum LaunchEventView {
    Requested(SettingsReadingView),
    Replied(HostReplyView),
}

/// The message for a lookup that could not be started.
pub open spec fn spawn_failure_message(detail: Seq<char>) -> Seq<char> {
    "Error finding cu in PATH: "@ + detail
}

/// The message for lookup output that is not text.
pub open spec fn decode_failure_message(detail: Seq<char>) -> Seq<char> {
    "Error parsing cu path: "@ + detail
}

/// The message for a lookup that ran and named no path.
pub open spec fn not_found_message() -> Seq<char> {
    "Failed to find `cu` path. Follow the instructions in README.md"@
}

/// The lookup: ask the system's program resolution for `cu`.
pub open spec fn lookup_request() -> HostRequestView {
    HostRequestView::RunLookup { program: "which"@, args: seq!["cu"@] }
}

/// What a resolution asks first: whether the remembered path is still a
/// file, or, with nothing remembered, the lookup.
pub open spec fn first_request(cached: Option<Seq<char>>) -> HostRequestView {
    match cached {
        Some(path) => HostRequestView::CheckFile { path },
        None => lookup_request(),
    }
}

/// What reading `stdout` as text gives: its characters, or the reason why it
/// is no text.
pub open spec fn decoded(stdout: Seq<u8>) -> Result<Seq<char>, Seq<char>> {
    if valid_utf8(stdout) {
        Ok(decode_utf8(stdout))
    } else {
        Err(utf8_error_text(stdout))
    }
}

/// The path that trimmed output names: the output itself, unless it is
/// empty.
pub open spec fn found_path(candidate: Seq<char>) -> Result<Seq<char>, Seq<char>> {
    if candidate.len() == 0 {
        Err(not_found_message())
    } else {
        Ok(candidate)
    }
}

/// The path that decoded output names.
pub open spec fn path_of_text(decoded: Result<Seq<char>, Seq<char>>) -> Result<Seq<char>, Seq<char>> {
    match decoded {
        Ok(text) => found_path(trimmed(text)),
        Err(detail) => Err(decode_failure_message(detail)),
    }
}

/// The path that the lookup's output names: the output decoded and trimmed,
/// unless it is no text or nothing is left of it.
pub open spec fn path_of_output(stdout: Seq<u8>) -> Result<Seq<char>, Seq<char>> {
    path_of_text(decoded(stdout))
}

/// What a finished lookup comes to.
pub open spec fn lookup_result(outcome: Result<Seq<u8>, Seq<char>>) -> Result<Seq<char>, Seq<char>> {
    match outcome {
        Ok(stdout) => path_of_output(stdout),
        Err(detail) => Err(spawn_failure_message(detail)),
    }
}

/// The memory after a lookup: a path that was found is remembered, a failure
/// changes nothing.
pub open spec fn remembered(cached: Option<Seq<char>>, found: Result<Seq<char>, Seq<char>>) -> Option<
    Seq<char>,
> {
    match found {
        Ok(path) => Some(path),
        Err(_) => cached,
    }
}

/// One step of resolving the binary path: the memory and the step's result,
/// from the memory before and the host's answer (`None` at the start).
pub open spec fn path_step(cached: Option<Seq<char>>, reply: Option<HostReplyView>) -> (
    Option<Seq<char>>,
    StepView<Seq<char>>,
) {
    match reply {
        None => (cached, StepView::Ask(first_request(cached))),
        Some(HostReplyView::FileChecked(is_file)) => match cached {
            Some(path) if is_file => (cached, StepView::Done(Ok(path))),
            _ => (cached, StepView::Ask(lookup_request())),
        },
        Some(HostReplyView::LookupFinished(outcome)) => (
            remembered(cached, lookup_result(outcome)),
            StepView::Done(lookup_result(outcome)),
        ),
    }
}

/// What resolving comes to when the steps are followed to the end, with a
/// host for which the remembered path is a file or not (`is_file`) and whose
/// lookup, if it is asked for, ends with `lookup`: a remembered path that is
/// a file is the answer; else the lookup decides.
pub open spec fn resolution(
    cached: Option<Seq<char>>,
    is_file: bool,
    lookup: Result<Seq<u8>, Seq<char>>,
) -> (Option<Seq<char>>, Result<Seq<char>, Seq<char>>) {
    match cached {
        Some(path) if is_file => (cached, Ok(path)),
        _ => (remembered(cached, lookup_result(lookup)), lookup_result(lookup)),
    }
}

/// The path that the settings put in place of the memory, if they do.
pub open spec fn configured_path(settings: SettingsReadingView) -> Option<Seq<char>> {
    match settings {
        Some(Ok(s)) => s.cu_path,
        _ => None,
    }
}

/// The memory once the settings are read: a configured path replaces it,
/// anything else leaves it.
pub open spec fn configured(cached: Option<Seq<char>>, settings: SettingsReadingView) -> Option<
    Seq<char>,
> {
    match configured_path(settings) {
        Some(path) => Some(path),
        None => cached,
    }
}

/// How the binary at `path` is started: in stdio mode, with nothing added to
/// the environment.
pub open spec fn launch_command(path: Seq<char>) -> CommandView {
    CommandView { command: path, args: seq!["stdio"@], env: seq![] }
}

/// A step of the path resolution as a step of the launch.
pub open spec fn launch_step(step: StepView<Seq<char>>) -> StepView<CommandView> {
    match step {
        StepView::Ask(request) => StepView::Ask(request),
        StepView::Done(Ok(path)) => StepView::Done(Ok(launch_command(path))),
        StepView::Done(Err(message)) => StepView::Done(Err(message)),
    }
}

/// What a launch comes to when its steps are followed to the end, with a
/// host that holds `settings` and answers as for [`resolution`]: the settings
/// are read, then the path is resolved, and the binary at a path that was
/// found is started in stdio mode.
pub open spec fn launch(
    cached: Option<Seq<char>>,
    settings: SettingsReadingView,
    is_file: bool,
    lookup: Result<Seq<u8>, Seq<char>>,
) -> (Option<Seq<char>>, Result<CommandView, Seq<char>>) {
    let (memory, found) = resolution(configured(cached, settings), is_file, lookup);
    match found {
        Ok(path) => (memory, Ok(launch_command(path))),
        Err(message) => (memory, Err(message)),
    }
}

/// One step of building the launch command: the memory and the step's
/// result, from the memory before and the event.
pub open spec fn command_step(cached: Option<Seq<char>>, event: LaunchEventView) -> (
    Option<Seq<char>>,
    StepView<CommandView>,
) {
    match event {
        LaunchEventView::Requested(settings) => {
            let (memory, step) = path_step(configured(cached, settings), None);
            (memory, launch_step(step))
        },
        LaunchEventView::Replied(reply) => {
            let (memory, step) = path_step(cached, Some(reply));
            (memory, launch_step(step))
        },
    }
}

} // verus!
