use bakery::native_commands::{search_candidates, Command, CommandError, ExitStatus, Output};

fn output(stdout: &[u8], stderr: &[u8], status: ExitStatus) -> Output {
    Output { stdout: stdout.to_vec(), stderr: stderr.to_vec(), status }
}

#[test]
fn a_new_command_has_a_name_and_nothing_else() {
    let cmd = Command::new("truncate");
    assert_eq!(cmd.get_name(), "truncate");
    assert!(cmd.command_args().is_empty());
    assert_eq!(cmd.get_stdout(), None);
    assert_eq!(cmd.get_stderr(), None);
    assert_eq!(cmd.get_exit_status(), None);
    assert_eq!(cmd.get_working_directory(), None);
    assert!(!cmd.success());
}

#[test]
fn arguments_are_passed_as_they_stand() {
    let cmd = Command::new("echo").with_args(vec!["a b", "", "$HOME", "'quoted'", "*"]);
    assert_eq!(cmd.command_args(), vec!["a b", "", "$HOME", "'quoted'", "*"]);
}

#[test]
fn the_subcommand_comes_before_the_arguments() {
    let cmd = Command::new("git").with_args(vec!["-m", "message"]).with_subcommand("commit");
    assert_eq!(cmd.command_args(), vec!["commit", "-m", "message"]);
    let cmd = Command::new("git").with_subcommand("status");
    assert_eq!(cmd.command_args(), vec!["status"]);
}

#[test]
fn later_arguments_replace_earlier_ones() {
    let cmd = Command::new("ls").with_args(vec!["-l"]).with_args(vec!["-a", "/"]);
    assert_eq!(cmd.command_args(), vec!["-a", "/"]);
}

#[test]
fn the_builders_change_one_thing_each() {
    let cmd = Command::new("a")
        .with_args(vec!["x"])
        .with_name("b")
        .with_verbose(true)
        .with_show_progress(true)
        .with_working_directory("/tmp");
    assert_eq!(cmd.get_name(), "b");
    assert_eq!(cmd.command_args(), vec!["x"]);
    assert_eq!(cmd.get_working_directory().as_deref(), Some("/tmp"));
    assert_eq!(cmd.get_stdout(), None);
}

#[test]
fn a_clone_is_the_same_command() {
    let cmd = Command::new("tool").with_subcommand("sub").with_args(vec!["1", "2"]);
    let copy = cmd.clone();
    assert_eq!(copy.get_name(), "tool");
    assert_eq!(copy.command_args(), cmd.command_args());
}

#[test]
fn run_records_both_streams_apart_and_the_status() {
    let done = Command::new("tool")
        .with_args(vec!["x"])
        .run(output(b"out\n", b"err\n", ExitStatus::Code(0)))
        .unwrap();
    assert_eq!(done.get_stdout().as_deref(), Some("out\n"));
    assert_eq!(done.get_stderr().as_deref(), Some("err\n"));
    assert_eq!(done.get_exit_status(), Some(ExitStatus::Code(0)));
    assert!(done.success());
    assert_eq!(done.get_name(), "tool");
    assert_eq!(done.command_args(), vec!["x"]);
}

#[test]
fn run_decodes_utf8() {
    let done = Command::new("tool")
        .run(output("gr\u{fc}\u{df}e \u{2713}".as_bytes(), b"", ExitStatus::Code(0)))
        .unwrap();
    assert_eq!(done.get_stdout().as_deref(), Some("gr\u{fc}\u{df}e \u{2713}"));
    assert_eq!(done.get_stdout().unwrap().chars().count(), 7);
    assert_eq!(done.get_stderr().as_deref(), Some(""));
}

#[test]
fn a_status_other_than_zero_is_no_error_of_run() {
    let done = Command::new("false").run(output(b"", b"", ExitStatus::Code(1))).unwrap();
    assert!(!done.success());
    assert_eq!(done.get_exit_status(), Some(ExitStatus::Code(1)));
    let done = Command::new("sleep").run(output(b"", b"", ExitStatus::Signal)).unwrap();
    assert!(!done.success());
    assert_eq!(done.get_exit_status(), Some(ExitStatus::Signal));
}

#[test]
fn run_refuses_output_that_is_not_utf8() {
    let out = Command::new("tool").run(output(&[0x80], b"fine", ExitStatus::Code(0)));
    assert_eq!(out.err(), Some(CommandError::StdoutNotUtf8));
    let out = Command::new("tool").run(output(b"fine", &[0xe2, 0x82], ExitStatus::Code(0)));
    assert_eq!(out.err(), Some(CommandError::StderrNotUtf8));
    let out = Command::new("tool").run(output(&[0xff], &[0xff], ExitStatus::Code(0)));
    assert_eq!(out.err(), Some(CommandError::StdoutNotUtf8));
}

#[test]
fn exit_status_knows_its_code() {
    assert!(ExitStatus::Code(0).success());
    assert!(!ExitStatus::Code(2).success());
    assert!(!ExitStatus::Code(-1).success());
    assert!(!ExitStatus::Signal.success());
    assert_eq!(ExitStatus::Code(7).code(), Some(7));
    assert_eq!(ExitStatus::Signal.code(), None);
}

#[test]
fn a_tool_is_looked_for_in_each_directory_of_the_path() {
    assert_eq!(
        search_candidates(Some("/usr/local/bin:/usr/bin:/bin"), "mkfs.ext4"),
        vec!["/usr/local/bin/mkfs.ext4", "/usr/bin/mkfs.ext4", "/bin/mkfs.ext4"]
    );
    assert_eq!(search_candidates(Some("/bin"), "truncate"), vec!["/bin/truncate"]);
}

#[test]
fn an_empty_entry_of_the_path_is_the_current_directory() {
    assert_eq!(search_candidates(Some(""), "tool"), vec!["./tool"]);
    assert_eq!(search_candidates(Some(":/bin"), "tool"), vec!["./tool", "/bin/tool"]);
    assert_eq!(search_candidates(Some("/bin:"), "tool"), vec!["/bin/tool", "./tool"]);
    assert_eq!(search_candidates(Some("/a::/b"), "tool"), vec!["/a/tool", "./tool", "/b/tool"]);
}

#[test]
fn a_name_with_a_slash_is_a_path_already() {
    assert_eq!(search_candidates(Some("/usr/bin:/bin"), "./tool"), vec!["./tool"]);
    assert_eq!(search_candidates(Some("/usr/bin:/bin"), "/opt/x/tool"), vec!["/opt/x/tool"]);
    assert_eq!(search_candidates(Some(""), "a/b"), vec!["a/b"]);
}

#[test]
fn the_path_is_split_as_the_standard_library_splits_it() {
    let alphabet = [':', '/', 'a', '.'];
    let mut all = vec![String::new()];
    for _ in 0..7 {
        let mut longer = Vec::new();
        for path in &all {
            let expected: Vec<String> = path
                .split(':')
                .map(|dir| if dir.is_empty() { "./tool".to_string() } else { format!("{}/tool", dir) })
                .collect();
            assert_eq!(search_candidates(Some(path.as_str()), "tool"), expected, "{:?}", path);
            for c in alphabet {
                let mut next = path.clone();
                next.push(c);
                longer.push(next);
            }
        }
        all = longer;
    }
}

#[test]
fn without_a_search_path_no_directory_is_searched() {
    assert!(search_candidates(None, "tool").is_empty());
    assert!(search_candidates(None, "mkfs.ext4").is_empty());
    assert_eq!(search_candidates(None, "./tool"), vec!["./tool"]);
    assert_eq!(search_candidates(None, "/usr/bin/tool"), vec!["/usr/bin/tool"]);
}
