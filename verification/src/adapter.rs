//! The adapter: the remembered binary path and the steps that resolve it and
//! build the launch command.

use vstd::prelude::*;
use vstd::string::StringExecFns;
use crate::host::{
    lookup_outcome_view, reply_view, settings_reading_view, text_result_view, Command, HostReply,
    HostRequest, LaunchEvent, SettingsReading, Step,
};
use crate::model;
use crate::text::decode_text;

verus! {

/// The message for a lookup that could not be started; `detail` is the
/// host's reason.
pub fn spawn_failure(detail: &str) -> (message: String)
    ensures
        message@ == model::spawn_failure_message(detail@),
{
    "Error finding cu in PATH: ".to_string().concat(detail)
}

/// The message for lookup output that is not text; `detail` says why.
pub fn decode_failure(detail: &str) -> (message: String)
    ensures
        message@ == model::decode_failure_message(detail@),
{
    "Error parsing cu path: ".to_string().concat(detail)
}

/// The message for a lookup that ran and named no path.
pub fn not_found() -> (message: String)
    ensures
        message@ == model::not_found_message(),
{
    "Failed to find `cu` path. Follow the instructions in README.md".to_string()
}

/// The lookup that finds `cu`: the system's program resolution, asked for
/// that name.
pub fn lookup_request() -> (request: HostRequest)
    ensures
        request@ == model::lookup_request(),
{
    let mut args: Vec<String> = Vec::new();
    args.push("cu".to_string());
    let request = HostRequest::RunLookup { program: "which".to_string(), args };
    assert(request@->RunLookup_args =~= seq!["cu"@]);
    request
}

/// The path that trimmed lookup output names: the output itself, and the
/// not-found message where the output is empty.
pub fn found_path(candidate: &str) -> (found: Result<String, String>)
    ensures
        text_result_view(found) == model::found_path(candidate@),
{
    if candidate.is_empty() {
        Err(not_found())
    } else {
        Ok(candidate.to_string())
    }
}

/// The path that decoded lookup output names. `decoded` is the output as
/// text, or the reason why it is none.
pub fn path_of_text(decoded: Result<String, String>) -> (found: Result<String, String>)
    ensures
        text_result_view(found) == model::path_of_text(text_result_view(decoded)),
{
    match decoded {
        Ok(text) => found_path(text.as_str().trim()),
        Err(detail) => Err(decode_failure(detail.as_str())),
    }
}

/// The path that the lookup's standard output names.
pub fn path_of_output(stdout: Vec<u8>) -> (found: Result<String, String>)
    ensures
        text_result_view(found) == model::path_of_output(stdout@),
{
    path_of_text(decode_text(stdout))
}

/// What a finished lookup comes to: the path it printed, or the message
/// that says which part of it failed.
pub fn lookup_result(outcome: Result<Vec<u8>, String>) -> (found: Result<String, String>)
    ensures
        text_result_view(found) == model::lookup_result(lookup_outcome_view(outcome)),
{
    match outcome {
        Ok(stdout) => path_of_output(stdout),
        Err(detail) => Err(spawn_failure(detail.as_str())),
    }
}

/// How the binary at `path` is started: with the one argument `stdio` and
/// nothing added to the environment.
pub fn launch_command(path: String) -> (command: Command)
    ensures
        command@ == model::launch_command(path@),
{
    let mut args: Vec<String> = Vec::new();
    args.push("stdio".to_string());
    let command = Command { command: path, args, env: Vec::new() };
    assert(command@.args =~= seq!["stdio"@]);
    assert(command@.env =~= seq![]);
    command
}

/// The adapter. All it keeps between calls is the path at which the binary
/// was last configured or found.
pub struct ContainerUseMcpExtension {
    cached_binary_path: Option<String>,
}

impl View for ContainerUseMcpExtension {
    type V = Option<Seq<char>>;

    /// The remembered path.
    closed spec fn view(&self) -> Option<Seq<char>> {
        self.cached_binary_path.deep_view()
    }
}

impl ContainerUseMcpExtension {
    /// An adapter that remembers no path.
    pub fn new() -> (adapter: Self)
        ensures
            adapter@ == None::<Seq<char>>,
    {
        ContainerUseMcpExtension { cached_binary_path: None }
    }

    /// The remembered path.
    pub fn cached_binary_path(&self) -> (path: Option<String>)
        ensures
            path.deep_view() == self@,
    {
        match &self.cached_binary_path {
            Some(path) => Some(path.clone()),
            None => None,
        }
    }

    /// Reads the settings: a configured path takes the place of whatever is
    /// remembered. Missing settings, settings of the wrong shape and settings
    /// without a path change nothing.
    pub fn apply_settings(&mut self, settings: SettingsReading)
        ensures
            final(self)@ == model::configured(old(self)@, settings_reading_view(settings)),
    {
        if let Some(Ok(custom_settings)) = settings {
            if let Some(cu_path) = custom_settings.cu_path {
                self.cached_binary_path = Some(cu_path);
            }
        }
    }

    /// One step of resolving the binary path. `reply` is the host's answer
    /// to the request of the step before, `None` at the start.
    ///
    /// A remembered path is used if the host finds it to be a file. Else
    /// the lookup decides; a path that it finds is remembered.
    pub fn context_server_binary_path(&mut self, reply: Option<HostReply>) -> (step: Step<String>)
        ensures
            (final(self)@, step@) == model::path_step(old(self)@, reply_view(reply)),
    {
        match reply {
            None => match &self.cached_binary_path {
                Some(path) => Step::Ask(HostRequest::CheckFile { path: path.clone() }),
                None => Step::Ask(lookup_request()),
            },
            Some(HostReply::FileChecked(is_file)) => match &self.cached_binary_path {
                Some(path) => if is_file {
                    Step::Done(Ok(path.clone()))
                } else {
                    Step::Ask(lookup_request())
                },
                None => Step::Ask(lookup_request()),
            },
            Some(HostReply::LookupFinished(outcome)) => {
                let found = lookup_result(outcome);
                match &found {
                    Ok(path) => {
                        self.cached_binary_path = Some(path.clone());
                    },
                    Err(_) => {},
                }
                Step::Done(found)
            },
        }
    }

    /// One step of building the launch command. The request itself brings
    /// the settings, which are read before the path is resolved; after that
    /// each event is the host's answer to the step before.
    pub fn context_server_command(&mut self, event: LaunchEvent) -> (step: Step<Command>)
        ensures
            (final(self)@, step@) == model::command_step(old(self)@, event@),
            step matches Step::Done(Ok(command)) ==> command@.args == seq!["stdio"@]
                && command@.env.len() == 0,
    {
        let resolved = match event {
            LaunchEvent::Requested(settings) => {
                self.apply_settings(settings);
                self.context_server_binary_path(None)
            },
            LaunchEvent::Replied(reply) => self.context_server_binary_path(Some(reply)),
        };
        match resolved {
            Step::Ask(request) => Step::Ask(request),
            Step::Done(Ok(path)) => Step::Done(Ok(launch_command(path))),
            Step::Done(Err(message)) => Step::Done(Err(message)),
        }
    }
}

} // verus!
