use nexterm::bridge::{AutoWireBridge, BridgeStep, ServiceReply};
use nexterm::cache::AugmentationCache;
use nexterm::config::Config;
use nexterm::records::{AutoWireResult, CommandResult};
use nexterm::terminal::{command_to_run, ShellRun, SpawnError, Terminal};
use nexterm::text::push_lines;

fn config() -> Config {
    Config::with_defaults(Some("/bin/sh".to_string()), None)
}

fn run(stdout: &str, stderr: &str, code: Option<i32>) -> ShellRun {
    ShellRun {
        stdout: stdout.to_string(),
        stderr: stderr.to_string(),
        exit_code: code,
        duration_ms: 5,
    }
}

fn answer(cmd: &str, suggestions: &[&str]) -> AutoWireResult {
    AutoWireResult {
        processed_command: cmd.to_string(),
        suggestions: suggestions.iter().map(|s| s.to_string()).collect(),
        agent_used: None,
        confidence_bits: 0.8f32.to_bits(),
    }
}

fn ok_reply(parsed: Option<AutoWireResult>) -> ServiceReply {
    ServiceReply {
        succeeded: true,
        stdout: "{\"processed_command\":\"echo hi\",\"suggestions\":[\"x\"],\"agent_used\":null,\"confidence\":0.8}\n".to_string(),
        parsed,
    }
}

fn lines(text: &str) -> Vec<String> {
    let mut v = Vec::new();
    push_lines(&mut v, text);
    v
}

#[test]
fn echo_hello_without_augmentation() {
    let mut t = Terminal::new(config());
    let r = t.execute_command("echo hello", Ok(run("hello\n", "", Some(0)))).unwrap();
    assert_eq!(r.output, "hello\n");
    assert_eq!(r.exit_code, 0);
    assert!(!r.autowire_processed);
    assert_eq!(r.command, "echo hello");
    assert_eq!(t.get_output(), vec!["hello".to_string()]);
}

#[test]
fn exit_code_seven_is_kept() {
    let mut t = Terminal::new(config());
    let r = t.execute_command("exit 7", Ok(run("", "", Some(7)))).unwrap();
    assert_eq!(r.exit_code, 7);
}

#[test]
fn missing_exit_status_reads_minus_one() {
    let mut t = Terminal::new(config());
    let r = t.execute_command("kill -9 $$", Ok(run("", "", None))).unwrap();
    assert_eq!(r.exit_code, -1);
}

#[test]
fn stderr_gets_a_labelled_line() {
    let mut t = Terminal::new(config());
    let r = t.execute_command("ls nope", Ok(run("a\n", "boom\n", Some(2)))).unwrap();
    assert_eq!(r.error, "boom\n");
    assert_eq!(t.get_output(), vec!["a".to_string(), "Error: boom".to_string()]);
}

#[test]
fn spawn_error_is_returned_and_history_still_grows() {
    let mut t = Terminal::new(config());
    let e = t
        .execute_command("ls", Err(SpawnError { message: "no shell".to_string() }))
        .unwrap_err();
    assert_eq!(e.message, "no shell");
    assert_eq!(t.get_history(), &["ls".to_string()]);
    assert!(t.get_output().is_empty());
}

#[test]
fn output_is_appended_in_order_after_earlier_lines() {
    let mut t = Terminal::new(config());
    t.add_output("first\nsecond");
    t.execute_command("printf", Ok(run("one\r\ntwo\nthree", "", Some(0)))).unwrap();
    assert_eq!(
        t.get_output(),
        vec!["first", "second", "one", "two", "three"]
            .into_iter()
            .map(String::from)
            .collect::<Vec<_>>()
    );
    t.clear_output();
    assert!(t.get_output().is_empty());
}

#[test]
fn history_keeps_call_order() {
    let mut t = Terminal::new(config());
    for c in ["a", "b", "c"] {
        t.execute_command(c, Ok(run("", "", Some(0)))).unwrap();
    }
    t.complete_augmented("d", None, Ok(run("", "", Some(0)))).unwrap();
    assert_eq!(t.get_history().len(), 4);
    assert_eq!(t.get_history(), &["a", "b", "c", "d"].map(String::from));
}

#[test]
fn line_splitting_matches_str_lines() {
    for text in ["", "x", "x\n", "a\r\nb\n\nc", "\n", "a\rb\n", "tail\r", "é\nü"] {
        let expected: Vec<String> = text.lines().map(String::from).collect();
        assert_eq!(lines(text), expected, "text {:?}", text);
    }
}

#[test]
fn augmented_command_runs_rewrite_and_reports_suggestions() {
    let mut t = Terminal::new(config());
    t.enable_autowire_integration(true);
    let script = match t.autowire_begin("ai hi") {
        BridgeStep::CallService(s) => s,
        BridgeStep::Done(_) => panic!("expected a service call"),
    };
    assert!(script.contains("command = \"ai hi\""));
    let got = t.autowire_settle("ai hi", ok_reply(Some(answer("echo hi", &["x"])))).unwrap();
    assert_eq!(got.processed_command, "echo hi");
    let r = t.complete_augmented("ai hi", Some(got), Ok(run("hi\n", "", Some(0)))).unwrap();
    assert_eq!(r.command, "echo hi");
    assert!(r.autowire_processed);
    let out = t.get_output();
    let last = out.last().unwrap();
    assert!(last.contains("x"));
    assert_eq!(last, "\u{1F4A1} Auto-Wiring Suggestions: [\"x\"]");
    assert_eq!(out, vec!["hi".to_string(), String::new(), last.clone()]);
    assert_eq!(t.get_history(), &["echo hi".to_string()]);
}

#[test]
fn augmented_without_suggestions_adds_no_line() {
    let mut t = Terminal::new(config());
    let r = t
        .complete_augmented("ls", Some(answer("ls -l", &[])), Ok(run("f\n", "", Some(0))))
        .unwrap();
    assert!(r.autowire_processed);
    assert_eq!(t.get_output(), vec!["f".to_string()]);
}

#[test]
fn failed_service_run_falls_back_to_raw() {
    let mut a = Terminal::new(config());
    a.enable_autowire_integration(true);
    let reply = ServiceReply { succeeded: false, stdout: String::new(), parsed: None };
    let aug = a.autowire_settle("foo", reply);
    assert!(aug.is_none());
    let ra = a.complete_augmented("foo", aug, Ok(run("bar\n", "err\n", Some(1)))).unwrap();
    let mut b = Terminal::new(config());
    let rb = b.execute_command("foo", Ok(run("bar\n", "err\n", Some(1)))).unwrap();
    assert_eq!(ra, rb);
    assert_eq!(a.get_output(), b.get_output());
    assert_eq!(a.get_history(), b.get_history());
}

#[test]
fn malformed_reply_gives_no_augmentation() {
    let mut b = AutoWireBridge::new(true);
    let reply = ServiceReply { succeeded: true, stdout: "not json".to_string(), parsed: None };
    assert!(b.settle("foo", reply).is_none());
    assert!(matches!(b.prepare("foo"), BridgeStep::CallService(_)));
}

#[test]
fn blank_output_gives_no_augmentation() {
    let mut b = AutoWireBridge::new(true);
    let reply = ServiceReply { succeeded: true, stdout: " \n\t".to_string(), parsed: Some(answer("x", &[])) };
    assert!(b.settle("foo", reply).is_none());
    assert!(matches!(b.prepare("foo"), BridgeStep::CallService(_)));
}

#[test]
fn absent_service_is_never_asked() {
    let b = AutoWireBridge::new(false);
    assert!(!b.is_available());
    assert!(matches!(b.prepare("ai hi"), BridgeStep::Done(None)));
    let t = Terminal::new(config());
    assert!(matches!(t.autowire_begin("ai hi"), BridgeStep::Done(None)));
}

#[test]
fn second_request_is_served_from_cache() {
    let mut b = AutoWireBridge::new(true);
    let mut calls = 0;
    let mut results = Vec::new();
    for _ in 0..2 {
        let r = match b.prepare("ai hi") {
            BridgeStep::Done(r) => r,
            BridgeStep::CallService(_) => {
                calls += 1;
                b.settle("ai hi", ok_reply(Some(answer("echo hi", &["x"]))))
            }
        };
        results.push(r.unwrap());
    }
    assert_eq!(calls, 1);
    assert_eq!(results[0], results[1]);
    b.clear_cache();
    assert!(matches!(b.prepare("ai hi"), BridgeStep::CallService(_)));
}

#[test]
fn cache_keys_are_exact_and_overwritten() {
    let mut c = AugmentationCache::new();
    c.put("ls".to_string(), answer("ls -a", &[]));
    c.put("ls ".to_string(), answer("ls -b", &[]));
    c.put("ls".to_string(), answer("ls -c", &[]));
    assert_eq!(c.get("ls").unwrap().processed_command, "ls -c");
    assert_eq!(c.get("ls ").unwrap().processed_command, "ls -b");
    assert!(c.get("LS").is_none());
    c.clear();
    assert!(c.get("ls").is_none());
}

#[test]
fn request_quotes_the_command_as_json() {
    let s = AutoWireBridge::request_for("say \"hi\"\n");
    assert!(s.contains("command = \"say \\\"hi\\\"\\n\""));
    assert!(s.starts_with(nexterm::bridge::SCRIPT_HEAD));
    assert!(s.ends_with(nexterm::bridge::SCRIPT_TAIL));
}

#[test]
fn background_results_join_the_log() {
    let mut t = Terminal::new(config());
    let mk = |o: &str| CommandResult {
        command: "c".to_string(),
        output: o.to_string(),
        error: String::new(),
        exit_code: 0,
        duration_ms: 1,
        autowire_processed: false,
    };
    t.update_output(vec![mk("a\nb"), mk(""), mk("c\n")]);
    assert_eq!(t.get_output(), vec!["a", "b", "c"].into_iter().map(String::from).collect::<Vec<_>>());
    t.update_output(Vec::new());
    assert_eq!(t.get_output().len(), 3);
}

#[test]
fn shell_comes_from_config() {
    let t = Terminal::new(config());
    assert_eq!(t.shell(), "/bin/sh");
    assert!(t.autowire().is_none());
}

#[test]
fn request_escapes_control_characters() {
    let s = AutoWireBridge::request_for("a\u{1}b\u{1f}\t\\/é");
    assert!(s.contains("command = \"a\\u0001b\\u001f\\t\\\\/é\""));
    assert_eq!(
        s,
        format!(
            "{}{}{}",
            nexterm::bridge::SCRIPT_HEAD,
            "\"a\\u0001b\\u001f\\t\\\\/é\"",
            nexterm::bridge::SCRIPT_TAIL
        )
    );
}

#[test]
fn service_list_reads_a_json_array() {
    let b = AutoWireBridge::new(true);
    assert_eq!(
        b.list_services(Some("[\"git\", \"docker\"]\n".to_string())),
        vec!["git".to_string(), "docker".to_string()]
    );
    assert!(b.list_services(Some("not json".to_string())).is_empty());
    assert!(b.list_services(Some("[1, 2]".to_string())).is_empty());
    assert!(b.list_services(None).is_empty());
    let absent = AutoWireBridge::new(false);
    assert!(absent.list_services(Some("[\"git\"]".to_string())).is_empty());
}

#[test]
fn uncached_command_asks_the_service_with_its_literal() {
    let b = AutoWireBridge::new(true);
    match b.prepare("ai hi") {
        BridgeStep::CallService(s) => assert_eq!(s, AutoWireBridge::request_for("ai hi")),
        BridgeStep::Done(_) => panic!("expected a service call"),
    }
}

#[test]
fn service_count_of_bridge() {
    let b = AutoWireBridge::new(true);
    assert_eq!(b.service_count(Some(" 4\n".to_string())), 4);
    assert_eq!(b.service_count(Some("four".to_string())), 0);
    assert_eq!(b.service_count(None), 0);
    let absent = AutoWireBridge::new(false);
    assert_eq!(absent.service_count(Some("4".to_string())), 0);
}

#[test]
fn command_to_run_prefers_the_rewrite() {
    assert_eq!(command_to_run("ai hi", &Some(answer("echo hi", &["x"]))), "echo hi");
    assert_eq!(command_to_run("ls", &None), "ls");
}

#[test]
fn history_from_new_terminal_is_the_commands_in_order() {
    let mut t = Terminal::new(config());
    let cmds = ["one", "two", "three", "four"];
    for c in cmds {
        t.complete_augmented(c, None, Ok(run("", "", Some(0)))).unwrap();
    }
    assert_eq!(t.get_history(), &cmds.map(String::from));
}
