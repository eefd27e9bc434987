use edamame_posture::launcher::{
    device_identity, local_device_identity, push_quoted, start_record, wide_command_line,
    worker_arguments, worker_command_line, worker_reentry, InvalidArguments, LaunchError,
    WorkerArgs,
};

fn alice() -> WorkerArgs {
    WorkerArgs {
        user: "alice".to_string(),
        domain: "corp.example".to_string(),
        pin: "1234".to_string(),
        device_id: String::new(),
        lan_scanning: true,
    }
}

fn words(list: &[&str]) -> Vec<String> {
    list.iter().map(|w| w.to_string()).collect()
}

#[test]
fn worker_arguments_are_the_command_and_five_values_in_order() {
    assert_eq!(
        worker_arguments(&alice()),
        words(&["background-process", "alice", "corp.example", "1234", "", "true"])
    );
    let mut quiet = alice();
    quiet.lan_scanning = false;
    quiet.device_id = "laptop".to_string();
    assert_eq!(
        worker_arguments(&quiet),
        words(&["background-process", "alice", "corp.example", "1234", "laptop", "false"])
    );
}

#[test]
fn command_line_quotes_program_and_arguments() {
    assert_eq!(
        worker_command_line("C:\\bin\\posture.exe", &alice()),
        "\"C:\\bin\\posture.exe\" \"background-process\" \"alice\" \"corp.example\" \"1234\" \"\" \"true\""
    );
}

#[test]
fn command_line_keeps_an_empty_device_identifier_as_one_argument() {
    let line = worker_command_line("posture", &alice());
    assert_eq!(line.matches(' ').count(), 6);
    assert!(line.contains(" \"1234\" \"\" \"true\""));
}

#[test]
fn quoting_doubles_backslashes_before_a_quote_and_at_the_end() {
    let quoted = |word: &str| {
        let mut line = String::from("x ");
        push_quoted(&mut line, word);
        line
    };
    assert_eq!(quoted(""), "x \"\"");
    assert_eq!(quoted("plain"), "x \"plain\"");
    assert_eq!(quoted("two words"), "x \"two words\"");
    assert_eq!(quoted("say \"hi\""), "x \"say \\\"hi\\\"\"");
    assert_eq!(quoted("dir\\"), "x \"dir\\\\\"");
    assert_eq!(quoted("a\\b"), "x \"a\\b\"");
    assert_eq!(quoted("a\\\\\"b"), "x \"a\\\\\\\\\\\"b\"");
    assert_eq!(quoted("\u{e9}\u{1F600}"), "x \"\u{e9}\u{1F600}\"");
}

#[test]
fn wide_command_line_is_utf16_with_a_closing_nul() {
    let args = WorkerArgs {
        user: "u".to_string(),
        domain: "d".to_string(),
        pin: "p".to_string(),
        device_id: "\u{1F600}".to_string(),
        lan_scanning: false,
    };
    let wide = wide_command_line("x", &args).unwrap();
    let text = "\"x\" \"background-process\" \"u\" \"d\" \"p\" \"\u{1F600}\" \"false\"";
    let mut expected: Vec<u16> = text.encode_utf16().collect();
    expected.push(0);
    assert_eq!(wide, expected);
    assert_eq!(*wide.last().unwrap(), 0);
    assert_eq!(wide.len(), text.chars().count() + 1 + 1);
    let at = text.chars().position(|c| c == '\u{1F600}').unwrap();
    assert_eq!(&wide[at..at + 2], &[0xD83D, 0xDE00]);
}

#[test]
fn wide_command_line_refuses_a_nul_character() {
    let mut args = alice();
    args.pin = "12\u{0}34".to_string();
    assert_eq!(wide_command_line("x", &args).unwrap_err(), LaunchError::InteriorNul);
    assert_eq!(wide_command_line("x\u{0}", &alice()).unwrap_err(), LaunchError::InteriorNul);
}

#[test]
fn reentry_reads_the_five_values_back() {
    let mut argv = vec!["/usr/bin/posture".to_string()];
    argv.extend(worker_arguments(&alice()));
    let args = worker_reentry(&argv).unwrap().unwrap();
    assert_eq!(args.user, "alice");
    assert_eq!(args.domain, "corp.example");
    assert_eq!(args.pin, "1234");
    assert_eq!(args.device_id, "");
    assert!(args.lan_scanning);
}

#[test]
fn reentry_takes_only_the_word_true_for_true() {
    let argv = words(&["exe", "background-process", "u", "d", "p", "id", "false"]);
    assert!(!worker_reentry(&argv).unwrap().unwrap().lan_scanning);
    let argv = words(&["exe", "background-process", "u", "d", "p", "id", "TRUE"]);
    assert!(!worker_reentry(&argv).unwrap().unwrap().lan_scanning);
    let argv = words(&["exe", "background-process", "u", "d", "p", "id", "true"]);
    assert!(worker_reentry(&argv).unwrap().unwrap().lan_scanning);
}

#[test]
fn reentry_with_another_count_is_invalid() {
    let argv = words(&["exe", "background-process", "u", "d", "p", "id"]);
    assert_eq!(worker_reentry(&argv).unwrap_err(), InvalidArguments { count: 6 });
    let argv = words(&["exe", "background-process"]);
    assert_eq!(worker_reentry(&argv).unwrap_err(), InvalidArguments { count: 2 });
    let argv = words(&["exe", "background-process", "u", "d", "p", "id", "true", "more"]);
    assert_eq!(worker_reentry(&argv).unwrap_err(), InvalidArguments { count: 8 });
}

#[test]
fn other_invocations_are_no_reentry() {
    assert!(worker_reentry(&words(&["exe"])).unwrap().is_none());
    assert!(worker_reentry(&words(&[])).unwrap().is_none());
    assert!(worker_reentry(&words(&["exe", "status"])).unwrap().is_none());
    assert!(worker_reentry(&words(&["exe", "start", "background-process", "d", "p", "i", "true"]))
        .unwrap()
        .is_none());
}

#[test]
fn start_record_names_the_worker_and_its_session() {
    let state = start_record(4242, Some(77), "alice", "corp.example");
    assert_eq!(state.pid, Some(4242));
    assert_eq!(state.handle, Some(77));
    assert!(!state.is_success);
    assert_eq!(state.connected_user, "alice");
    assert_eq!(state.connected_domain, "corp.example");
    assert_eq!(state.last_network_activity, "");
}

#[test]
fn device_identity_puts_the_machine_first() {
    assert_eq!(device_identity(Some("abc123".to_string()), "laptop"), "abc123/laptop");
    assert_eq!(device_identity(None, "laptop"), "/laptop");
    assert_eq!(device_identity(Some("abc123".to_string()), ""), "abc123/");
}

#[test]
fn local_device_identity_ends_with_the_chosen_identifier() {
    let id = local_device_identity("laptop");
    assert!(id.ends_with("/laptop"));
}
