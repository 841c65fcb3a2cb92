use rspl::session::{Action, BuildOutcome, Repl, ReplResult, Signal};

fn fresh_repl() -> Repl {
    Repl::new(
        "/data/rspl".to_string(),
        &"main".to_string(),
        "/data/rspl/src/bin/main.rs".to_string(),
        None,
    )
}

fn submit(repl: &mut Repl, line: &str) -> String {
    match repl.process_signal(Signal::Success(line.to_string())) {
        Action::Build { source } => source,
        _ => panic!("a code line must request a build"),
    }
}

#[test]
fn new_session_starts_empty() {
    let repl = fresh_repl();
    assert!(repl.buffer.is_empty());
    assert_eq!(repl.dir, "/data/rspl");
    assert_eq!(repl.bin_path, "/data/rspl/src/bin/main.rs");
    assert_eq!(repl.command, vec!["cargo", "run", "-q", "--bin", "main"]);
}

#[test]
fn build_command_honors_tool_override() {
    let repl = Repl::new(
        "/w".to_string(),
        &"entry".to_string(),
        "/w/src/bin/entry.rs".to_string(),
        Some("/usr/bin/cargo-nightly".to_string()),
    );
    assert_eq!(
        repl.command,
        vec!["/usr/bin/cargo-nightly", "run", "-q", "--bin", "entry"]
    );
}

#[test]
fn successful_expression_is_committed() {
    // Scenario: fresh standalone session, input `1 + 1`.
    let mut repl = fresh_repl();
    let source = submit(&mut repl, "1 + 1");
    assert_eq!(
        source,
        "\n#![allow(warnings)]\nfn main() {\n    print!(\"{:?}\", {\n        1 + 1\n    });\n}\n"
    );
    let report = repl.process_build(BuildOutcome::Success {
        stdout: "2".to_string(),
    });
    assert_eq!(report.result, ReplResult::Success);
    assert_eq!(report.message, "2");
    assert!(!report.to_error_stream);
    assert_eq!(repl.buffer, vec!["1 + 1"]);
}

#[test]
fn let_line_gains_a_terminator() {
    // Scenario: continuing with `let x = 41`, rewritten to `let x = 41;`.
    let mut repl = fresh_repl();
    submit(&mut repl, "1 + 1");
    repl.process_build(BuildOutcome::Success {
        stdout: "2".to_string(),
    });
    let source = submit(&mut repl, "let x = 41");
    assert!(source.contains("1 + 1;\nlet x = 41;"));
    let report = repl.process_build(BuildOutcome::Success {
        stdout: "()".to_string(),
    });
    assert_eq!(report.result, ReplResult::Success);
    assert_eq!(report.message, "()");
    assert_eq!(repl.buffer, vec!["1 + 1", "let x = 41;"]);
}

#[test]
fn committed_bindings_stay_usable() {
    // Scenario: `x + 1` builds against the committed binding, printing 42.
    let mut repl = fresh_repl();
    for (line, out) in [("1 + 1", "2"), ("let x = 41", "()"), ("x + 1", "42")] {
        submit(&mut repl, line);
        let report = repl.process_build(BuildOutcome::Success {
            stdout: out.to_string(),
        });
        assert_eq!(report.result, ReplResult::Success);
        assert_eq!(report.message, out);
    }
    assert_eq!(repl.buffer, vec!["1 + 1", "let x = 41;", "x + 1"]);
}

#[test]
fn failing_line_is_rolled_back() {
    // Scenario: `does_not_exist()` fails to build; the buffer reverts.
    let mut repl = fresh_repl();
    for (line, out) in [("1 + 1", "2"), ("let x = 41", "()"), ("x + 1", "42")] {
        submit(&mut repl, line);
        repl.process_build(BuildOutcome::Success {
            stdout: out.to_string(),
        });
    }
    let good = repl.buffer.clone();
    submit(&mut repl, "does_not_exist()");
    let report = repl.process_build(BuildOutcome::Failure {
        stderr: "error[E0425]: cannot find function `does_not_exist`".to_string(),
    });
    assert_eq!(report.result, ReplResult::Failure);
    assert!(report.to_error_stream);
    assert_eq!(report.message, "error[E0425]: cannot find function `does_not_exist`");
    assert_eq!(repl.buffer, good);
}

#[test]
fn resubmitting_a_failing_line_repeats_the_same_attempt() {
    // Rollback idempotence: the buffer is byte-for-byte identical after a
    // failure, and the retry materializes the identical program text, so an
    // unchanged build tool reports the same diagnostic both times.
    let mut repl = fresh_repl();
    submit(&mut repl, "1 + 1");
    repl.process_build(BuildOutcome::Success {
        stdout: "2".to_string(),
    });
    let good = repl.buffer.clone();
    let diagnostic = "error[E0425]: cannot find value `nope`";

    let first_source = submit(&mut repl, "nope");
    let first = repl.process_build(BuildOutcome::Failure {
        stderr: diagnostic.to_string(),
    });
    assert_eq!(repl.buffer, good);

    let second_source = submit(&mut repl, "nope");
    let second = repl.process_build(BuildOutcome::Failure {
        stderr: diagnostic.to_string(),
    });
    assert_eq!(repl.buffer, good);

    assert_eq!(first_source, second_source);
    assert_eq!(first.message, second.message);
    assert_eq!(first.result, second.result);
}

#[test]
fn launch_error_reports_and_rolls_back() {
    let mut repl = fresh_repl();
    submit(&mut repl, "1 + 1");
    let report = repl.process_build(BuildOutcome::LaunchError {
        message: "No such file or directory (os error 2)".to_string(),
    });
    assert_eq!(report.result, ReplResult::Failure);
    assert!(report.to_error_stream);
    assert_eq!(
        report.message,
        "Failed to build: No such file or directory (os error 2)"
    );
    assert!(repl.buffer.is_empty());
}

#[test]
fn clear_empties_the_buffer() {
    // Scenario: `:clear` empties the buffer; the empty buffer then builds a
    // program that prints the unit representation.
    let mut repl = fresh_repl();
    submit(&mut repl, "1 + 1");
    repl.process_build(BuildOutcome::Success {
        stdout: "2".to_string(),
    });
    let act = repl.process_signal(Signal::Success(":clear".to_string()));
    assert!(matches!(act, Action::Silent));
    assert!(repl.buffer.is_empty());

    let source = submit(&mut repl, "()");
    assert!(source.contains("print!(\"{:?}\", {\n        ()\n    });"));
    let report = repl.process_build(BuildOutcome::Success {
        stdout: "()".to_string(),
    });
    assert_eq!(report.message, "()");
}

#[test]
fn pop_removes_the_last_line() {
    let mut repl = fresh_repl();
    for line in ["let a = 1", "a"] {
        submit(&mut repl, line);
        repl.process_build(BuildOutcome::Success {
            stdout: String::new(),
        });
    }
    let act = repl.process_signal(Signal::Success(":pop".to_string()));
    assert!(matches!(act, Action::Silent));
    assert_eq!(repl.buffer, vec!["let a = 1;"]);

    // Popping an empty buffer is harmless.
    repl.process_signal(Signal::Success(":clear".to_string()));
    let act = repl.process_signal(Signal::Success(":pop".to_string()));
    assert!(matches!(act, Action::Silent));
    assert!(repl.buffer.is_empty());
}

#[test]
fn buffer_command_prints_the_lines() {
    let mut repl = fresh_repl();
    for line in ["let a = 1", "a + 1"] {
        submit(&mut repl, line);
        repl.process_build(BuildOutcome::Success {
            stdout: String::new(),
        });
    }
    match repl.process_signal(Signal::Success(":buffer".to_string())) {
        Action::Print { text } => assert_eq!(text, "let a = 1;\na + 1"),
        _ => panic!("expected the buffer to be printed"),
    }
}

#[test]
fn help_lists_the_commands() {
    let mut repl = fresh_repl();
    let expected = ":q, :quit, :exit - Exit the REPL\n:buffer - Print the current buffer\n:clear - Clear the current buffer\n:pop - Remove the last line from the buffer\n:h, :help - Print this help message";
    for cmd in [":h", ":help"] {
        match repl.process_signal(Signal::Success(cmd.to_string())) {
            Action::Print { text } => assert_eq!(text, expected),
            _ => panic!("expected the help text"),
        }
    }
    assert!(repl.buffer.is_empty());
}

#[test]
fn unknown_command_is_reported_and_ignored() {
    let mut repl = fresh_repl();
    submit(&mut repl, "1 + 1");
    repl.process_build(BuildOutcome::Success {
        stdout: "2".to_string(),
    });
    let act = repl.process_signal(Signal::Success(":frobnicate".to_string()));
    match &act {
        Action::PrintError { text } => assert_eq!(
            text,
            "Unknown command: :frobnicate. Type :help to show the available commands"
        ),
        _ => panic!("expected an unknown-command report"),
    }
    assert_eq!(act.result(), ReplResult::Unknown);
    assert_eq!(repl.buffer, vec!["1 + 1"]);
}

#[test]
fn quit_commands_and_interrupts_exit() {
    for quit in [":q", ":quit", ":exit"] {
        let mut repl = fresh_repl();
        let act = repl.process_signal(Signal::Success(quit.to_string()));
        assert!(matches!(act, Action::Exit));
        assert_eq!(act.result(), ReplResult::Exit);
    }
    for sig in [Signal::CtrlC, Signal::CtrlD] {
        let mut repl = fresh_repl();
        let act = repl.process_signal(sig);
        assert!(matches!(act, Action::Exit));
    }
}
