use repl_session::context::{CommandContext, EvalCallbacks, Outcome, StartupScript};
use repl_session::engine::EvalResponse;
use repl_session::errors::{CompilationFailureRecord, Error};
use repl_session::outputs::{text_output, OutputAccumulator};
use repl_session::segment::{CommandFragment, Segment};
use repl_session::deps::parse_dep_argument;

fn cmd(name: &str, arg: Option<&str>) -> Segment {
    Segment::Command(CommandFragment {
        name: name.to_string(),
        argument: arg.map(|a| a.to_string()),
    })
}

fn code(text: &str) -> Segment {
    Segment::Code(text.to_string())
}

fn success_with_text(text: &str) -> EvalResponse {
    let mut acc = OutputAccumulator::new();
    acc.insert("text/plain".to_string(), text.to_string());
    EvalResponse::Success(acc)
}

fn plain_of(outcome: Result<Outcome, Error>) -> String {
    match outcome {
        Ok(Outcome::Output(acc)) => match acc.get(&"text/plain".to_string()) {
            Some(p) => p.clone(),
            None => String::new(),
        },
        _ => panic!("expected an output"),
    }
}

#[test]
fn code_only_output_is_engine_output() {
    let mut ctx = CommandContext::new_for_testing();
    ctx.push_eval_result(success_with_text("engine says hi"));
    let r = ctx.execute(&vec![code("1 + 1")]);
    let out = match r {
        Ok(Outcome::Output(acc)) => acc,
        _ => panic!("expected output"),
    };
    assert_eq!(out.get(&"text/plain".to_string()).unwrap(), "engine says hi");
    assert!(out.timing().is_none());
}

#[test]
fn code_only_with_timing_enabled_attaches_timing() {
    let mut ctx = CommandContext::new_for_testing();
    let toggled = ctx.execute(&vec![cmd(":toggle-timing", None)]);
    assert_eq!(plain_of(toggled), "Timing: true\n");
    ctx.push_eval_result(success_with_text("out"));
    let r = ctx.execute(&vec![code("1")]);
    match r {
        Ok(Outcome::Output(acc)) => assert!(acc.timing().is_some()),
        _ => panic!("expected output"),
    }
}

#[test]
fn commands_merge_before_the_one_evaluation_merge() {
    // The command writes text/plain first; the engine's merge comes last and
    // overwrites it, whatever the textual interleaving was.
    let mut ctx = CommandContext::new_for_testing();
    ctx.push_eval_result(success_with_text("evaluation output"));
    let r = ctx.execute(&vec![code("a"), cmd(":version", None), code("b")]);
    assert_eq!(plain_of(r), "evaluation output");
}

#[test]
fn empty_code_is_a_no_op_success_without_consuming_a_verdict() {
    let mut ctx = CommandContext::new_for_testing();
    let r = ctx.execute(&vec![cmd(":version", None)]);
    assert_eq!(plain_of(r), "0.1.0\n");
    // No verdict was loaded and none was needed.
    let r2 = ctx.execute(&vec![code("needs a verdict")]);
    assert!(matches!(r2, Err(Error::EngineUnavailable)));
}

#[test]
fn opt_level_toggles_between_presets() {
    let mut ctx = CommandContext::new_for_testing();
    assert_eq!(ctx.engine().opt_level().as_str(), "2");
    let r = ctx.execute(&vec![cmd(":set-opt-level", None)]);
    assert_eq!(plain_of(r), "Optimization: 0\n");
    assert_eq!(ctx.engine().opt_level().as_str(), "0");
    let r2 = ctx.execute(&vec![cmd(":set-opt-level", None)]);
    assert_eq!(plain_of(r2), "Optimization: 2\n");
    assert_eq!(ctx.engine().opt_level().as_str(), "2");
}

#[test]
fn opt_level_explicit_argument_is_set() {
    let mut ctx = CommandContext::new_for_testing();
    let r = ctx.execute(&vec![cmd(":set-opt-level", Some("1"))]);
    assert_eq!(plain_of(r), "Optimization: 1\n");
    assert_eq!(ctx.engine().opt_level().as_str(), "1");
}

#[test]
fn explain_without_failure_and_without_explanation_fail_differently() {
    let mut ctx = CommandContext::new_for_testing();
    let r = ctx.execute(&vec![cmd(":explain-last-error", None)]);
    assert!(matches!(r, Err(Error::NoFailureToExplain)));

    ctx.push_eval_result(EvalResponse::CompilationFailure(vec![
        CompilationFailureRecord { explanation: None, encoded: "{}".to_string() },
    ]));
    let failed = ctx.execute(&vec![code("bad code")]);
    assert!(matches!(failed, Err(Error::CompilationFailures(_))));

    let r2 = ctx.execute(&vec![cmd(":explain-last-error", None)]);
    assert!(matches!(r2, Err(Error::FailureWithoutExplanation)));
    assert_ne!(
        Error::NoFailureToExplain.message(),
        Error::FailureWithoutExplanation.message()
    );
}

#[test]
fn explain_concatenates_explanations() {
    let mut ctx = CommandContext::new_for_testing();
    ctx.push_eval_result(EvalResponse::CompilationFailure(vec![
        CompilationFailureRecord {
            explanation: Some("first. ".to_string()),
            encoded: "e1".to_string(),
        },
        CompilationFailureRecord {
            explanation: Some("second.".to_string()),
            encoded: "e2".to_string(),
        },
    ]));
    let _ = ctx.execute(&vec![code("bad")]);
    let r = ctx.execute(&vec![cmd(":explain-last-error", None)]);
    assert_eq!(plain_of(r), "first. second.\n");
}

#[test]
fn last_error_encoded_always_fails_with_the_encoded_forms() {
    let mut ctx = CommandContext::new_for_testing();
    ctx.push_eval_result(EvalResponse::CompilationFailure(vec![
        CompilationFailureRecord { explanation: None, encoded: "{\"a\":1}".to_string() },
    ]));
    let _ = ctx.execute(&vec![code("bad")]);
    match ctx.execute(&vec![cmd(":last-error-encoded", None)]) {
        Err(Error::EncodedReport(s)) => assert_eq!(s, "{\"a\":1}\n"),
        _ => panic!("expected the encoded report"),
    }
    // With nothing recorded it still fails, with an empty report.
    let mut fresh = CommandContext::new_for_testing();
    match fresh.execute(&vec![cmd(":last-error-encoded", None)]) {
        Err(Error::EncodedReport(s)) => assert_eq!(s, ""),
        _ => panic!("expected the encoded report"),
    }
}

#[test]
fn failure_record_survives_success() {
    let mut ctx = CommandContext::new_for_testing();
    ctx.push_eval_result(EvalResponse::CompilationFailure(vec![
        CompilationFailureRecord {
            explanation: Some("why".to_string()),
            encoded: "e".to_string(),
        },
    ]));
    let _ = ctx.execute(&vec![code("bad")]);
    ctx.push_eval_result(success_with_text("fine"));
    let _ = ctx.execute(&vec![code("good")]);
    assert_eq!(ctx.last_errors().len(), 1);
}

#[test]
fn dependency_argument_with_version() {
    let r = parse_dep_argument("foo = \"1.0\"").unwrap();
    assert_eq!(r.0, "foo");
    assert_eq!(r.1, "\"1.0\"");
}

#[test]
fn dependency_argument_name_only_defaults_to_wildcard() {
    let r = parse_dep_argument("foo").unwrap();
    assert_eq!(r.0, "foo");
    assert_eq!(r.1, "\"*\"");
}

#[test]
fn dependency_command_without_argument_fails() {
    let mut ctx = CommandContext::new_for_testing();
    let r = ctx.execute(&vec![cmd(":add-dependency", None)]);
    assert!(matches!(r, Err(Error::MissingDependencyArgument)));
}

#[test]
fn dependency_argument_malformed_fails() {
    assert!(matches!(
        parse_dep_argument("foo bar"),
        Err(Error::MalformedDependencyArgument)
    ));
    assert!(matches!(
        parse_dep_argument("= x"),
        Err(Error::MalformedDependencyArgument)
    ));
    assert!(matches!(
        parse_dep_argument("foo ="),
        Err(Error::MalformedDependencyArgument)
    ));
}

#[test]
fn dependency_is_registered_with_the_engine() {
    let mut ctx = CommandContext::new_for_testing();
    let r = ctx.execute(&vec![cmd(":add-dependency", Some("serde = { version = \"1\" }"))]);
    assert!(r.is_ok());
    let deps = ctx.engine().deps();
    assert_eq!(deps.len(), 1);
    assert_eq!(deps[0].0, "serde");
    assert_eq!(deps[0].1, "{ version = \"1\" }");
}

#[test]
fn startup_replay_runs_lines_before_prelude() {
    let mut ctx = CommandContext::new_for_testing();
    ctx.set_startup_script(StartupScript {
        lines: vec![vec![cmd(":add-dependency", Some("foo"))]],
        prelude: Some(vec![code("use foo;")]),
    });
    // One verdict, for the prelude's code: by then the dependency must be
    // registered, so the engine reports success.
    ctx.push_eval_result(success_with_text("prelude ran"));
    let r = ctx.execute(&vec![cmd(":load-config", None)]);
    assert_eq!(plain_of(r), "prelude ran");
    let deps = ctx.engine().deps();
    assert_eq!(deps.len(), 1);
    assert_eq!(deps[0].0, "foo");
    assert_eq!(deps[0].1, "\"*\"");
}

#[test]
fn nested_startup_replay_fails() {
    let mut ctx = CommandContext::new_for_testing();
    ctx.set_startup_script(StartupScript {
        lines: vec![vec![cmd(":load-config", None)]],
        prelude: None,
    });
    let r = ctx.execute(&vec![cmd(":load-config", None)]);
    assert!(matches!(r, Err(Error::NestedReplay)));
}

#[test]
fn variable_listings_enumerate_the_same_pairs_in_order() {
    let mut ctx = CommandContext::new_for_testing();
    ctx.set_variables(vec![
        ("x".to_string(), "Vec<u8>".to_string()),
        ("y".to_string(), "i32".to_string()),
    ]);
    assert_eq!(ctx.vars_as_text(), "x: Vec<u8>\ny: i32\n");
    assert_eq!(
        ctx.vars_as_html(),
        "<table><tr><th>Variable</th><th>Type</th></tr>\
         <tr><td>x</td><td>Vec&lt;u8&gt;</td></tr>\
         <tr><td>y</td><td>i32</td></tr></table>"
    );
}

#[test]
fn list_vars_command_produces_both_renderings() {
    let mut ctx = CommandContext::new_for_testing();
    ctx.set_variables(vec![("a".to_string(), "bool".to_string())]);
    let r = ctx.execute(&vec![cmd(":list-vars", None)]);
    let acc = match r {
        Ok(Outcome::Output(acc)) => acc,
        _ => panic!("expected output"),
    };
    assert_eq!(acc.get(&"text/plain".to_string()).unwrap(), "a: bool\n");
    assert_eq!(
        acc.get(&"text/html".to_string()).unwrap(),
        "<table><tr><th>Variable</th><th>Type</th></tr><tr><td>a</td><td>bool</td></tr></table>"
    );
}

#[test]
fn unrecognised_command_fails_with_its_name() {
    let mut ctx = CommandContext::new_for_testing();
    match ctx.execute(&vec![cmd(":frobnicate", None)]) {
        Err(Error::UnrecognisedCommand(n)) => assert_eq!(n, ":frobnicate"),
        _ => panic!("expected the unrecognised-command error"),
    }
}

#[test]
fn quit_requests_termination_and_skips_the_rest() {
    let mut ctx = CommandContext::new_for_testing();
    let r = ctx.execute(&vec![cmd(":quit", None), cmd(":frobnicate", None)]);
    assert!(matches!(r, Ok(Outcome::Terminated)));
}

#[test]
fn engine_failure_propagates_without_recording() {
    let mut ctx = CommandContext::new_for_testing();
    ctx.push_eval_result(EvalResponse::OtherFailure("disk full".to_string()));
    match ctx.execute(&vec![code("x")]) {
        Err(Error::EngineFailure(m)) => assert_eq!(m, "disk full"),
        _ => panic!("expected the engine failure"),
    }
    assert_eq!(ctx.last_errors().len(), 0);
}

#[test]
fn clear_resets_variables_and_dependencies() {
    let mut ctx = CommandContext::new_for_testing();
    ctx.set_variables(vec![("x".to_string(), "i32".to_string())]);
    let _ = ctx.execute(&vec![cmd(":add-dependency", Some("foo"))]);
    let r = ctx.execute(&vec![cmd(":clear", None)]);
    assert!(r.is_ok());
    assert_eq!(ctx.engine().variables_and_types().len(), 0);
    assert_eq!(ctx.engine().deps().len(), 0);
}

#[test]
fn error_format_is_set_or_rejected() {
    let mut ctx = CommandContext::new_for_testing();
    let r = ctx.execute(&vec![cmd(":set-error-format", Some("{}"))]);
    assert_eq!(
        plain_of(r),
        "Error format: {} (errors must implement std::fmt::Display)\n"
    );
    let r2 = ctx.execute(&vec![cmd(":set-error-format", Some("{:wrong}"))]);
    assert!(matches!(r2, Err(Error::InvalidErrorFormat)));
    let r3 = ctx.execute(&vec![cmd(":set-error-format", None)]);
    assert_eq!(
        plain_of(r3),
        "Error format: {} (errors must implement std::fmt::Display)\n"
    );
}

#[test]
fn configuration_commands_report_their_state() {
    let mut ctx = CommandContext::new_for_testing();
    assert_eq!(
        plain_of(ctx.execute(&vec![cmd(":toggle-internal-debug", None)])),
        "Internal debug: true\n"
    );
    assert_eq!(
        plain_of(ctx.execute(&vec![cmd(":preserve-on-panic", Some("1"))])),
        "Preserve variables on panic: true\n"
    );
    assert_eq!(
        plain_of(ctx.execute(&vec![cmd(":preserve-on-panic", Some("yes"))])),
        "Preserve variables on panic: false\n"
    );
    assert_eq!(
        plain_of(ctx.execute(&vec![cmd(":toggle-pass-timing", None)])),
        "Time passes: true\n"
    );
    assert_eq!(
        plain_of(ctx.execute(&vec![cmd(":set-cache-backend", Some("0"))])),
        "Compilation cache: false\n"
    );
    assert_eq!(
        plain_of(ctx.execute(&vec![cmd(":set-cache-backend", None)])),
        "Compilation cache: true\n"
    );
    assert_eq!(
        plain_of(ctx.execute(&vec![cmd(":set-linker", Some("lld"))])),
        "Linker: lld\n"
    );
    assert_eq!(
        plain_of(ctx.execute(&vec![cmd(":set-linker", None)])),
        "Linker: lld\n"
    );
    assert_eq!(
        plain_of(ctx.execute(&vec![cmd(":set-output-format", Some("{}"))])),
        "Output format: {}\n"
    );
    assert_eq!(
        plain_of(ctx.execute(&vec![cmd(":set-output-format", None)])),
        "Output format: {:?}\n"
    );
    assert_eq!(
        plain_of(ctx.execute(&vec![cmd(":last-compile-dir", None)])),
        "Last compile dir: \n"
    );
}

#[test]
fn completions_apply_dependency_commands_best_effort() {
    let mut ctx = CommandContext::new_for_testing();
    let q = ctx.completions(
        &vec![
            cmd(":add-dependency", Some("foo")),
            cmd(":add-dependency", None),
            code("foo::ba"),
        ],
        7,
    );
    assert_eq!(q.position, 7);
    assert_eq!(q.code, vec!["foo::ba".to_string()]);
    let deps = ctx.engine().deps();
    assert_eq!(deps.len(), 1);
    assert_eq!(deps[0].0, "foo");
}

#[test]
fn text_output_appends_a_line_terminator() {
    let out = text_output("hello").unwrap();
    assert_eq!(out.get(&"text/plain".to_string()).unwrap(), "hello\n");
}

#[test]
fn merge_is_last_write_wins_per_kind() {
    let mut a = OutputAccumulator::new();
    a.insert("text/plain".to_string(), "old".to_string());
    a.insert("text/html".to_string(), "<b>kept</b>".to_string());
    let mut b = OutputAccumulator::new();
    b.insert("text/plain".to_string(), "new".to_string());
    a.merge(b);
    assert_eq!(a.get(&"text/plain".to_string()).unwrap(), "new");
    assert_eq!(a.get(&"text/html".to_string()).unwrap(), "<b>kept</b>");
}

#[test]
fn help_lists_the_commands() {
    let mut ctx = CommandContext::new_for_testing();
    let text = plain_of(ctx.execute(&vec![cmd(":help", None)]));
    assert!(text.contains(":list-vars"));
    assert!(text.contains(":add-dependency"));
    assert!(text.contains(":quit"));
}

#[test]
fn execute_with_callbacks_matches_execute() {
    let mut ctx = CommandContext::new_for_testing();
    let mut callbacks = EvalCallbacks::default();
    let r = ctx.execute_with_callbacks(&vec![cmd(":version", None)], &mut callbacks);
    assert_eq!(plain_of(r), "0.1.0\n");
}

#[test]
fn set_opt_level_rejects_an_empty_level() {
    let mut ctx = CommandContext::new_for_testing();
    assert!(matches!(
        ctx.set_opt_level(""),
        Err(Error::InvalidOptimizationLevel)
    ));
    assert!(ctx.set_opt_level("3").is_ok());
    assert_eq!(ctx.engine().opt_level().as_str(), "3");
}
