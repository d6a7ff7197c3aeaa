use container_use_mcp::adapter::{
    decode_failure, found_path, lookup_request, lookup_result, not_found, path_of_output,
    path_of_text, spawn_failure,
};
use container_use_mcp::{ContainerUseMcpExtension, ContainerUseMcpSettings, HostReply, HostRequest, Step};

const NOT_FOUND: &str = "Failed to find `cu` path. Follow the instructions in README.md";

fn remembering(path: &str) -> ContainerUseMcpExtension {
    let mut adapter = ContainerUseMcpExtension::new();
    adapter.apply_settings(Some(Ok(ContainerUseMcpSettings { cu_path: Some(path.to_string()) })));
    adapter
}

fn which_cu() -> HostRequest {
    HostRequest::RunLookup { program: "which".to_string(), args: vec!["cu".to_string()] }
}

/// Follows the steps to the end with a host that gives these answers, and
/// counts the requests of each sort.
fn resolve(
    adapter: &mut ContainerUseMcpExtension,
    is_file: bool,
    lookup: Result<Vec<u8>, String>,
) -> (Result<String, String>, usize, usize) {
    let mut checks = 0;
    let mut lookups = 0;
    let mut lookup = Some(lookup);
    let mut step = adapter.context_server_binary_path(None);
    for _ in 0..3 {
        let reply = match step {
            Step::Done(result) => return (result, checks, lookups),
            Step::Ask(HostRequest::CheckFile { .. }) => {
                checks += 1;
                HostReply::FileChecked(is_file)
            }
            Step::Ask(HostRequest::RunLookup { .. }) => {
                lookups += 1;
                HostReply::LookupFinished(lookup.take().expect("the lookup is asked for once"))
            }
        };
        step = adapter.context_server_binary_path(Some(reply));
    }
    panic!("a resolution is over after three steps")
}

#[test]
fn new_adapter_remembers_nothing() {
    let adapter = ContainerUseMcpExtension::new();
    assert_eq!(adapter.cached_binary_path(), None);
}

#[test]
fn resolution_without_memory_starts_with_the_lookup() {
    let mut adapter = ContainerUseMcpExtension::new();
    assert_eq!(adapter.context_server_binary_path(None), Step::Ask(which_cu()));
    assert_eq!(adapter.cached_binary_path(), None);
}

#[test]
fn lookup_request_runs_which_for_cu() {
    assert_eq!(lookup_request(), which_cu());
}

#[test]
fn remembered_path_is_checked_first() {
    let mut adapter = remembering("/opt/tools/cu");
    assert_eq!(
        adapter.context_server_binary_path(None),
        Step::Ask(HostRequest::CheckFile { path: "/opt/tools/cu".to_string() })
    );
}

#[test]
fn remembered_file_is_returned_without_lookup() {
    let mut adapter = remembering("/opt/tools/cu");
    assert_eq!(
        adapter.context_server_binary_path(Some(HostReply::FileChecked(true))),
        Step::Done(Ok("/opt/tools/cu".to_string()))
    );
    assert_eq!(adapter.cached_binary_path(), Some("/opt/tools/cu".to_string()));

    let mut adapter = remembering("/opt/tools/cu");
    let (result, checks, lookups) = resolve(&mut adapter, true, Err("never run".to_string()));
    assert_eq!(result, Ok("/opt/tools/cu".to_string()));
    assert_eq!((checks, lookups), (1, 0));
}

#[test]
fn dangling_remembered_path_falls_through_to_lookup() {
    let mut adapter = remembering("/gone/cu");
    assert_eq!(
        adapter.context_server_binary_path(Some(HostReply::FileChecked(false))),
        Step::Ask(which_cu())
    );
    assert_eq!(adapter.cached_binary_path(), Some("/gone/cu".to_string()));

    let (result, checks, lookups) = resolve(&mut adapter, false, Ok(b"/usr/bin/cu\n".to_vec()));
    assert_eq!(result, Ok("/usr/bin/cu".to_string()));
    assert_eq!((checks, lookups), (1, 1));
    assert_eq!(adapter.cached_binary_path(), Some("/usr/bin/cu".to_string()));
}

#[test]
fn file_answer_without_memory_asks_for_the_lookup() {
    let mut adapter = ContainerUseMcpExtension::new();
    assert_eq!(
        adapter.context_server_binary_path(Some(HostReply::FileChecked(true))),
        Step::Ask(which_cu())
    );
}

#[test]
fn found_path_is_remembered() {
    let mut adapter = ContainerUseMcpExtension::new();
    let (result, checks, lookups) = resolve(&mut adapter, false, Ok(b"/usr/local/bin/cu\n".to_vec()));
    assert_eq!(result, Ok("/usr/local/bin/cu".to_string()));
    assert_eq!((checks, lookups), (0, 1));
    assert_eq!(adapter.cached_binary_path(), Some("/usr/local/bin/cu".to_string()));

    let (again, checks, lookups) = resolve(&mut adapter, true, Err("never run".to_string()));
    assert_eq!(again, Ok("/usr/local/bin/cu".to_string()));
    assert_eq!((checks, lookups), (1, 0));
}

#[test]
fn failed_lookup_leaves_the_memory() {
    let mut adapter = remembering("/gone/cu");
    let (result, _, _) = resolve(&mut adapter, false, Ok(Vec::new()));
    assert_eq!(result, Err(NOT_FOUND.to_string()));
    assert_eq!(adapter.cached_binary_path(), Some("/gone/cu".to_string()));

    let mut adapter = ContainerUseMcpExtension::new();
    let (result, _, _) = resolve(&mut adapter, false, Err("no such program".to_string()));
    assert_eq!(result, Err("Error finding cu in PATH: no such program".to_string()));
    assert_eq!(adapter.cached_binary_path(), None);
}

#[test]
fn lookup_output_is_trimmed() {
    assert_eq!(path_of_output(b"/usr/bin/cu\n".to_vec()), Ok("/usr/bin/cu".to_string()));
    assert_eq!(path_of_output(b"  \t/usr/bin/cu \r\n".to_vec()), Ok("/usr/bin/cu".to_string()));
    assert_eq!(path_of_output(b"/usr/bin/cu".to_vec()), Ok("/usr/bin/cu".to_string()));
}

#[test]
fn white_space_inside_a_path_stays() {
    assert_eq!(
        path_of_output(b"\n/Applications/My Tools/cu\n".to_vec()),
        Ok("/Applications/My Tools/cu".to_string())
    );
}

#[test]
fn unicode_white_space_is_trimmed() {
    let output = "\u{2003}/usr/bin/cu\u{3000}\u{a0}".as_bytes().to_vec();
    assert_eq!(path_of_output(output), Ok("/usr/bin/cu".to_string()));
}

#[test]
fn non_ascii_path_is_decoded() {
    let output = "/home/zo\u{eb}/b\u{fc}ro/cu\n".as_bytes().to_vec();
    assert_eq!(path_of_output(output), Ok("/home/zo\u{eb}/b\u{fc}ro/cu".to_string()));
    assert_eq!(
        path_of_output(vec![0x2f, 0xe2, 0x82, 0xac, 0x2f, 0x63, 0x75]),
        Ok("/\u{20ac}/cu".to_string())
    );
}

#[test]
fn empty_lookup_output_is_not_found() {
    assert_eq!(lookup_result(Ok(Vec::new())), Err(NOT_FOUND.to_string()));
    assert_eq!(lookup_result(Ok(b"\n".to_vec())), Err(NOT_FOUND.to_string()));
    assert_eq!(lookup_result(Ok(b" \t \r\n".to_vec())), Err(NOT_FOUND.to_string()));
    assert_eq!(lookup_result(Ok("\u{2028}\u{2029}".as_bytes().to_vec())), Err(NOT_FOUND.to_string()));
}

#[test]
fn not_found_differs_from_spawn_failure() {
    let not_found_message = lookup_result(Ok(b"\n".to_vec())).unwrap_err();
    let spawn_message = lookup_result(Err("permission denied".to_string())).unwrap_err();
    assert_eq!(spawn_message, "Error finding cu in PATH: permission denied");
    assert_ne!(not_found_message, spawn_message);
    assert!(not_found_message.starts_with("Failed to find"));
    assert!(spawn_message.starts_with("Error finding"));
    assert_ne!(not_found_message, lookup_result(Err(String::new())).unwrap_err());
}

#[test]
fn output_that_is_no_text_is_a_decode_failure() {
    assert_eq!(
        path_of_output(vec![0xff, 0xfe]),
        Err("Error parsing cu path: invalid utf-8 sequence of 1 bytes from index 0".to_string())
    );
    assert_eq!(
        path_of_output(vec![0x2f, 0x63, 0x75, 0xe2, 0x82]),
        Err("Error parsing cu path: incomplete utf-8 byte sequence from index 3".to_string())
    );
    let message = lookup_result(Ok(vec![0x2f, 0xc0, 0xaf])).unwrap_err();
    assert!(message.starts_with("Error parsing cu path: "));
    assert_ne!(message, NOT_FOUND);
}

#[test]
fn messages_have_their_exact_text() {
    assert_eq!(spawn_failure("boom"), "Error finding cu in PATH: boom");
    assert_eq!(spawn_failure(""), "Error finding cu in PATH: ");
    assert_eq!(decode_failure("bad bytes"), "Error parsing cu path: bad bytes");
    assert_eq!(not_found(), NOT_FOUND);
}

#[test]
fn found_path_takes_any_text_but_the_empty_one() {
    assert_eq!(found_path("/usr/bin/cu"), Ok("/usr/bin/cu".to_string()));
    assert_eq!(found_path(" "), Ok(" ".to_string()));
    assert_eq!(found_path(""), Err(NOT_FOUND.to_string()));
}

#[test]
fn path_of_text_trims_or_reports() {
    assert_eq!(path_of_text(Ok(" /usr/bin/cu\n".to_string())), Ok("/usr/bin/cu".to_string()));
    assert_eq!(path_of_text(Ok("\n\n".to_string())), Err(NOT_FOUND.to_string()));
    assert_eq!(
        path_of_text(Err("not text".to_string())),
        Err("Error parsing cu path: not text".to_string())
    );
}

#[test]
fn exit_status_plays_no_part() {
    // Only what the lookup printed counts: output beside a path is part of it.
    assert_eq!(
        lookup_result(Ok(b"cu not found".to_vec())),
        Ok("cu not found".to_string())
    );
}
