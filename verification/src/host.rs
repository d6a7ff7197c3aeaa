//! The values that pass between the adapter and its host.

use vstd::prelude::*;
use crate::model::{
    CommandView, HostReplyView, HostRequestView, LaunchEventView, SettingsReadingView,
    SettingsView, StepView,
};

verus! {

/// The name under which the host keeps the adapter's settings.
pub const CONTEXT_SERVER_ID: &'static str = "container-use-mcp";

/// The settings that a user may give for the adapter.
#[derive(Debug, PartialEq, Eq)]
pub struct ContainerUseMcpSettings {
    /// Path to the cu binary. Without it the binary is looked up.
    pub cu_path: Option<String>,
}

impl View for ContainerUseMcpSettings {
    type V = SettingsView;

    open spec fn view(&self) -> SettingsView {
        SettingsView { cu_path: self.cu_path.deep_view() }
    }
}

/// What the host holds as settings for the adapter: `None` where it holds
/// none, `Err` with the reason where what it holds does not have the shape
/// of [`ContainerUseMcpSettings`].
pub type SettingsReading = Option<Result<ContainerUseMcpSettings, String>>;

/// The mathematical value of a settings reading.
pub open spec fn settings_reading_view(reading: SettingsReading) -> SettingsReadingView {
    match reading {
        None => None,
        Some(Ok(settings)) => Some(Ok(settings@)),
        Some(Err(reason)) => Some(Err(reason@)),
    }
}

/// The mathematical value of a text or a message.
pub open spec fn text_result_view(result: Result<String, String>) -> Result<Seq<char>, Seq<char>> {
    match result {
        Ok(text) => Ok(text@),
        Err(message) => Err(message@),
    }
}

/// The mathematical value of what a lookup came to.
pub open spec fn lookup_outcome_view(outcome: Result<Vec<u8>, String>) -> Result<Seq<u8>, Seq<char>> {
    match outcome {
        Ok(stdout) => Ok(stdout@),
        Err(detail) => Err(detail@),
    }
}

/// A fact that the adapter needs from its host.
#[derive(Debug, PartialEq, Eq)]
pub enum HostRequest {
    /// Is `path` an existing regular file?
    CheckFile { path: String },
    /// Run `program` with `args`, wait for it, and capture what it writes to
    /// its standard output.
    RunLookup { program: String, args: Vec<String> },
}

impl View for HostRequest {
    type V = HostRequestView;

    open spec fn view(&self) -> HostRequestView {
        match self {
            HostRequest::CheckFile { path } => HostRequestView::CheckFile { path: path@ },
            HostRequest::RunLookup { program, args } => HostRequestView::RunLookup {
                program: program@,
                args: args.deep_view(),
            },
        }
    }
}

/// The host's answer to a request.
#[derive(Debug, PartialEq, Eq)]
pub enum HostReply {
    /// To `CheckFile`: whether the path is an existing regular file.
    FileChecked(bool),
    /// To `RunLookup`: the program's standard output, or the reason why it
    /// could not be started.
    LookupFinished(Result<Vec<u8>, String>),
}

impl View for HostReply {
    type V = HostReplyView;

    open spec fn view(&self) -> HostReplyView {
        match self {
            HostReply::FileChecked(is_file) => HostReplyView::FileChecked(*is_file),
            HostReply::LookupFinished(outcome) => HostReplyView::LookupFinished(
                lookup_outcome_view(*outcome),
            ),
        }
    }
}

/// The mathematical value of the answer that a step is given, `None` at the
/// start.
pub open spec fn reply_view(reply: Option<HostReply>) -> Option<HostReplyView> {
    match reply {
        None => None,
        Some(answer) => Some(answer@),
    }
}

/// Where an operation stands after a step: it needs a fact from the host, or
/// it is over with a result or a message.
#[derive(Debug, PartialEq, Eq)]
pub enum Step<T> {
    Ask(HostRequest),
    Done(Result<T, String>),
}

impl<T: View> View for Step<T> {
    type V = StepView<T::V>;

    open spec fn view(&self) -> StepView<T::V> {
        match self {
            Step::Ask(request) => StepView::Ask(request@),
            Step::Done(Ok(value)) => StepView::Done(Ok(value@)),
            Step::Done(Err(message)) => StepView::Done(Err(message@)),
        }
    }
}

/// How a process is started: the executable, its arguments, and what is
/// added to its environment.
#[derive(Debug, PartialEq, Eq)]
pub struct Command {
    pub command: String,
    pub args: Vec<String>,
    pub env: Vec<(String, String)>,
}

impl View for Command {
    type V = CommandView;

    open spec fn view(&self) -> CommandView {
        CommandView {
            command: self.command@,
            args: self.args.deep_view(),
            env: self.env.deep_view(),
        }
    }
}

/// What moves a launch on.
#[derive(Debug, PartialEq, Eq)]
pub enum LaunchEvent {
    /// The launch command is asked for; the host brings the settings.
    Requested(SettingsReading),
    /// The host answers what the step before asked.
    Replied(HostReply),
}

impl View for LaunchEvent {
    type V = LaunchEventView;

    open spec fn view(&self) -> LaunchEventView {
        match self {
            LaunchEvent::Requested(reading) => LaunchEventView::Requested(
                settings_reading_view(*reading),
            ),
            LaunchEvent::Replied(answer) => LaunchEventView::Replied(answer@),
        }
    }
}

} // verus!
