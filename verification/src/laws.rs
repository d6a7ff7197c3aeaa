//! What holds of the adapter on every input, proved from the model that the
//! executable functions are specified against.

use vstd::prelude::*;
use vstd::utf8::{decode_utf8, valid_utf8};
use crate::model::{
    command_step, configured, decode_failure_message, first_request, launch, launch_command,
    lookup_request, lookup_result, not_found_message, path_step, resolution,
    spawn_failure_message, CommandView, HostReplyView, HostRequestView, LaunchEventView,
    SettingsReadingView, SettingsView, StepView,
};
use crate::text::{lemma_trimmed, trimmed, white_space};

verus! {

/// A remembered path that is a file is the answer, and no lookup is run for
/// it: the first step asks about the file only, the answer ends the
/// resolution with that very path, and the memory stays as it is.
pub proof fn lemma_cached_file_is_returned(path: Seq<char>)
    ensures
        path_step(Some(path), None) == (
            Some(path),
            StepView::<Seq<char>>::Ask(HostRequestView::CheckFile { path }),
        ),
        path_step(Some(path), Some(HostReplyView::FileChecked(true))) == (
            Some(path),
            StepView::Done(Ok(path)),
        ),
{
}

/// A remembered path that is no file is never the answer: the step that
/// learns so asks for the lookup.
pub proof fn lemma_dangling_path_falls_through(cached: Option<Seq<char>>)
    ensures
        path_step(cached, Some(HostReplyView::FileChecked(false))) == (
            cached,
            StepView::<Seq<char>>::Ask(lookup_request()),
        ),
{
}

/// With nothing remembered the resolution starts with the lookup.
pub proof fn lemma_empty_memory_starts_with_lookup()
    ensures
        path_step(None, None) == (
            None::<Seq<char>>,
            StepView::<Seq<char>>::Ask(lookup_request()),
        ),
{
}

/// A resolution is over after three steps at most, and comes to what
/// [`resolution`] says. The start asks for a fact. Where a path is
/// remembered that fact is whether it is a file: if it is, the answer ends
/// the resolution; if not, the answer asks for the lookup, whose outcome
/// ends it. Where nothing is remembered the start asks for the lookup.
pub proof fn lemma_steps_reach_resolution(
    cached: Option<Seq<char>>,
    is_file: bool,
    lookup: Result<Seq<u8>, Seq<char>>,
)
    ensures
        ({
            let end = resolution(cached, is_file, lookup);
            let ended = (end.0, StepView::Done(end.1));
            let checked = path_step(cached, Some(HostReplyView::FileChecked(is_file)));
            let looked_up = path_step(cached, Some(HostReplyView::LookupFinished(lookup)));
            &&& path_step(cached, None) == (
                cached,
                StepView::<Seq<char>>::Ask(first_request(cached)),
            )
            &&& match cached {
                Some(path) => {
                    &&& first_request(cached) == HostRequestView::CheckFile { path }
                    &&& is_file ==> checked == ended
                    &&& !is_file ==> checked == (
                        cached,
                        StepView::<Seq<char>>::Ask(lookup_request()),
                    ) && looked_up == ended
                },
                None => first_request(cached) == lookup_request() && looked_up == ended,
            }
        }),
{
}

/// A launch is over after three steps at most, and comes to what
/// [`launch`] says. The request reads the settings and asks for the first
/// fact; from there the steps are those of resolving the path, and a path
/// that they end with is made the command.
pub proof fn lemma_steps_reach_launch(
    cached: Option<Seq<char>>,
    settings: SettingsReadingView,
    is_file: bool,
    lookup: Result<Seq<u8>, Seq<char>>,
)
    ensures
        ({
            let memory = configured(cached, settings);
            let end = launch(cached, settings, is_file, lookup);
            let ended = (end.0, StepView::Done(end.1));
            let checked = command_step(
                memory,
                LaunchEventView::Replied(HostReplyView::FileChecked(is_file)),
            );
            let looked_up = command_step(
                memory,
                LaunchEventView::Replied(HostReplyView::LookupFinished(lookup)),
            );
            &&& command_step(cached, LaunchEventView::Requested(settings)) == (
                memory,
                StepView::<CommandView>::Ask(first_request(memory)),
            )
            &&& match memory {
                Some(path) => {
                    &&& first_request(memory) == HostRequestView::CheckFile { path }
                    &&& is_file ==> checked == ended
                    &&& !is_file ==> checked == (
                        memory,
                        StepView::<CommandView>::Ask(lookup_request()),
                    ) && looked_up == ended
                },
                None => first_request(memory) == lookup_request() && looked_up == ended,
            }
        }),
{
}

/// The memory changes in one way only while a path is resolved: a lookup
/// that finds a path makes it the remembered one.
pub proof fn lemma_memory_changes_on_discovery_only(
    cached: Option<Seq<char>>,
    reply: Option<HostReplyView>,
)
    ensures
        path_step(cached, reply).0 != cached ==> (reply matches Some(
            HostReplyView::LookupFinished(outcome),
        ) && lookup_result(outcome) is Ok),
        path_step(cached, reply).1 matches StepView::Done(Ok(path)) ==> path_step(cached, reply).0
            == Some(path),
{
}

/// A path that a lookup finds is not empty, and neither begins nor ends
/// with white space.
pub proof fn lemma_found_path_is_bare(outcome: Result<Seq<u8>, Seq<char>>)
    ensures
        lookup_result(outcome) matches Ok(path) ==> {
            &&& path.len() > 0
            &&& !white_space(path.first())
            &&& !white_space(path.last())
        },
{
    if let Ok(stdout) = outcome {
        if valid_utf8(stdout) {
            lemma_trimmed(decode_utf8(stdout));
        }
    }
}

/// A configured path wins over whatever is remembered: the launch asks
/// about that path first, and where the host finds it to be a file the
/// command's executable is that path, character for character.
pub proof fn lemma_override_wins(
    cached: Option<Seq<char>>,
    path: Seq<char>,
    lookup: Result<Seq<u8>, Seq<char>>,
)
    ensures
        ({
            let settings = Some(Ok::<SettingsView, Seq<char>>(SettingsView { cu_path: Some(path) }));
            &&& command_step(cached, LaunchEventView::Requested(settings)) == (
                Some(path),
                StepView::<CommandView>::Ask(HostRequestView::CheckFile { path }),
            )
            &&& command_step(
                Some(path),
                LaunchEventView::Replied(HostReplyView::FileChecked(true)),
            ) == (Some(path), StepView::Done(Ok(launch_command(path))))
            &&& launch_command(path).command == path
            &&& launch(cached, settings, true, lookup) == (
                Some(path),
                Ok::<CommandView, Seq<char>>(launch_command(path)),
            )
        }),
{
}

/// Settings that are missing, that do not have the expected shape, or that
/// name no path all count as no settings: the launch goes on from what is
/// remembered, and no message comes of them.
pub proof fn lemma_unusable_settings_are_ignored(
    cached: Option<Seq<char>>,
    reason: Seq<char>,
    is_file: bool,
    lookup: Result<Seq<u8>, Seq<char>>,
)
    ensures
        ({
            let absent = LaunchEventView::Requested(None);
            let malformed = LaunchEventView::Requested(Some(Err(reason)));
            let pathless = LaunchEventView::Requested(Some(Ok(SettingsView { cu_path: None })));
            &&& command_step(cached, absent) == (
                cached,
                StepView::<CommandView>::Ask(first_request(cached)),
            )
            &&& command_step(cached, malformed) == command_step(cached, absent)
            &&& command_step(cached, pathless) == command_step(cached, absent)
            &&& launch(cached, Some(Err(reason)), is_file, lookup) == launch(
                cached,
                None,
                is_file,
                lookup,
            )
            &&& launch(cached, Some(Ok(SettingsView { cu_path: None })), is_file, lookup)
                == launch(cached, None, is_file, lookup)
        }),
{
}

/// Every command that a launch ends with has the one argument `stdio` and
/// adds nothing to the environment, however its path was obtained.
pub proof fn lemma_launch_is_stdio(
    cached: Option<Seq<char>>,
    event: LaunchEventView,
    settings: SettingsReadingView,
    is_file: bool,
    lookup: Result<Seq<u8>, Seq<char>>,
)
    ensures
        command_step(cached, event).1 matches StepView::Done(Ok(command)) ==> {
            &&& command.args == seq!["stdio"@]
            &&& command.env == Seq::<(Seq<char>, Seq<char>)>::empty()
        },
        launch(cached, settings, is_file, lookup).1 matches Ok(command) ==> {
            &&& command.args == seq!["stdio"@]
            &&& command.env == Seq::<(Seq<char>, Seq<char>)>::empty()
        },
{
}

/// The three messages of a failed lookup tell the causes apart: whatever
/// the details are, no two of them are the same text.
pub proof fn lemma_messages_differ(spawn_detail: Seq<char>, decode_detail: Seq<char>)
    ensures
        not_found_message() != spawn_failure_message(spawn_detail),
        not_found_message() != decode_failure_message(decode_detail),
        spawn_failure_message(spawn_detail) != decode_failure_message(decode_detail),
{
    reveal_strlit("Failed to find `cu` path. Follow the instructions in README.md");
    reveal_strlit("Error finding cu in PATH: ");
    reveal_strlit("Error parsing cu path: ");
    assert(not_found_message()[0] == 'F');
    assert(spawn_failure_message(spawn_detail)[0] == 'E');
    assert(decode_failure_message(decode_detail)[0] == 'E');
    assert(spawn_failure_message(spawn_detail)[6] == 'f');
    assert(decode_failure_message(decode_detail)[6] == 'p');
}

/// A lookup that ran and printed nothing but white space ends the
/// resolution with the not-found message, which is not the message of a
/// lookup that could not be started; the memory stays as it is.
pub proof fn lemma_empty_output_is_not_found(
    cached: Option<Seq<char>>,
    stdout: Seq<u8>,
    spawn_detail: Seq<char>,
)
    requires
        valid_utf8(stdout),
        trimmed(decode_utf8(stdout)).len() == 0,
    ensures
        path_step(cached, Some(HostReplyView::LookupFinished(Ok(stdout)))) == (
            cached,
            StepView::<Seq<char>>::Done(Err(not_found_message())),
        ),
        path_step(cached, Some(HostReplyView::LookupFinished(Err(spawn_detail)))) == (
            cached,
            StepView::<Seq<char>>::Done(Err(spawn_failure_message(spawn_detail))),
        ),
        not_found_message() != spawn_failure_message(spawn_detail),
{
    lemma_messages_differ(spawn_detail, spawn_detail);
}

} // verus!
