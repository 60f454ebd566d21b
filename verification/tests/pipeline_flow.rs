use branchgen::command::LogFormat;
use branchgen::pipeline::{step, Action, Config, Event, Outcome, State};

fn config() -> Config {
    Config {
        revision: None,
        from: "trunk()".to_string(),
        change: "@".to_string(),
        log_format: LogFormat::OneLine,
        model: "phi3".to_string(),
        prefix: None,
        dry_run: false,
        structured: false,
        strict: false,
    }
}

#[test]
fn full_run_creates_then_pushes() {
    let cfg = config();

    let (st, act) = step(&cfg, State::Init, Event::Begin);
    assert!(matches!(st, State::AwaitingHistory));
    match act {
        Action::RunLog { args } => {
            assert_eq!(args.len(), 6);
            assert_eq!(args[0], "log");
            assert_eq!(args[3], "-r");
            assert_eq!(args[4], "trunk()..@");
            assert_eq!(args[5], "--no-graph");
        }
        _ => panic!("expected the log command first"),
    }

    let (st, act) = step(
        &cfg,
        st,
        Event::History { text: "fix bug\nadd feature\n".to_string() },
    );
    assert!(matches!(st, State::AwaitingGeneration));
    match act {
        Action::CallBackend { model, prompt } => {
            assert_eq!(model, "phi3");
            assert!(prompt.contains("fix bug\nadd feature\n"));
        }
        _ => panic!("expected a backend request"),
    }

    let (st, act) = step(&cfg, st, Event::Generated { text: "  Fix   Bugs  ".to_string() });
    match &act {
        Action::CreateBookmark { announce, args } => {
            assert_eq!(announce, "jj bookmark create fix-bugs --revision @");
            assert_eq!(args.len(), 5);
            assert_eq!(args[0], "bookmark");
            assert_eq!(args[1], "create");
            assert_eq!(args[2], "fix-bugs");
            assert_eq!(args[3], "--revision");
            assert_eq!(args[4], "@");
        }
        _ => panic!("expected the create command before any push"),
    }
    assert!(matches!(st, State::AwaitingCreate { .. }));

    let (st, act) = step(&cfg, st, Event::CommandDone);
    assert!(matches!(st, State::AwaitingPush));
    match act {
        Action::PushBookmark { announce, args } => {
            assert_eq!(announce, "jj git push --bookmark fix-bugs --allow-new");
            assert_eq!(args.len(), 5);
            assert_eq!(args[0], "git");
            assert_eq!(args[1], "push");
            assert_eq!(args[2], "--bookmark");
            assert_eq!(args[3], "fix-bugs");
            assert_eq!(args[4], "--allow-new");
        }
        _ => panic!("the push must follow the create"),
    }

    let (st, act) = step(&cfg, st, Event::CommandDone);
    assert!(matches!(st, State::Done { outcome: Outcome::Published }));
    assert!(matches!(act, Action::Finish));
}

#[test]
fn combined_revision_expression_is_used_verbatim() {
    let mut cfg = config();
    cfg.revision = Some("mine() & mutable()".to_string());
    let (_, act) = step(&cfg, State::Init, Event::Begin);
    match act {
        Action::RunLog { args } => {
            assert_eq!(args[4], "mine() & mutable()");
        }
        _ => panic!("expected the log command first"),
    }
}

#[test]
fn empty_history_stops_before_any_backend_request() {
    let cfg = config();
    for text in ["", "   \n\t  ", "\u{000B}", " \u{00A0}\u{2003} "] {
        let (st, act) = step(&cfg, State::AwaitingHistory, Event::History { text: text.to_string() });
        assert!(matches!(st, State::Done { outcome: Outcome::NoCommits }));
        match act {
            Action::Fail { message, code } => {
                assert!(message.contains("No commits to summarize"));
                assert_eq!(code, 1);
            }
            _ => panic!("a blank history must end the run"),
        }
    }
}

#[test]
fn backend_transport_error_is_fatal_without_bookmark_commands() {
    let cfg = config();
    let (st, act) = step(
        &cfg,
        State::AwaitingGeneration,
        Event::GenerationError { message: "connection refused".to_string() },
    );
    assert!(matches!(st, State::Done { outcome: Outcome::GenerationFailed }));
    match act {
        Action::Fail { message, code } => {
            assert_eq!(message, "connection refused");
            assert_eq!(code, 1);
        }
        _ => panic!("a backend failure must end the run"),
    }
}

#[test]
fn dry_run_reports_instead_of_publishing() {
    let mut cfg = config();
    cfg.dry_run = true;
    let (st, act) = step(
        &cfg,
        State::AwaitingGeneration,
        Event::Generated { text: "Fix Bugs".to_string() },
    );
    assert!(matches!(st, State::Done { outcome: Outcome::DryRunComplete }));
    match act {
        Action::DryRunReport { create_line, push_line } => {
            assert_eq!(create_line, "[dry run] jj bookmark create fix-bugs --revision @");
            assert_eq!(push_line, "[dry run] jj git push --bookmark fix-bugs --allow-new");
        }
        _ => panic!("dry run must only report"),
    }
}

#[test]
fn prefix_reaches_the_published_name() {
    let mut cfg = config();
    cfg.prefix = Some("feature".to_string());
    let (_, act) = step(
        &cfg,
        State::AwaitingGeneration,
        Event::Generated { text: "add login".to_string() },
    );
    match act {
        Action::CreateBookmark { args, .. } => {
            assert_eq!(args[2], "feature/add-login");
        }
        _ => panic!("expected the create command"),
    }
}

#[test]
fn structured_payload_is_decoded_not_taken_verbatim() {
    let mut cfg = config();
    cfg.structured = true;
    let (_, act) = step(
        &cfg,
        State::AwaitingGeneration,
        Event::Generated { text: "\"fix-all-bugs\"".to_string() },
    );
    match act {
        Action::CreateBookmark { args, .. } => {
            assert_eq!(args[2], "fix-all-bugs");
        }
        _ => panic!("expected the create command"),
    }
}

#[test]
fn malformed_structured_payload_is_fatal() {
    let mut cfg = config();
    cfg.structured = true;
    let (st, act) = step(
        &cfg,
        State::AwaitingGeneration,
        Event::Generated { text: "not json at all".to_string() },
    );
    assert!(matches!(st, State::Done { outcome: Outcome::GenerationFailed }));
    match act {
        Action::Fail { code, .. } => assert_eq!(code, 1),
        _ => panic!("a malformed payload must end the run"),
    }
}

#[test]
fn strict_mode_rejects_names_outside_the_shape() {
    let mut cfg = config();
    cfg.structured = true;
    cfg.strict = true;
    let (st, act) = step(
        &cfg,
        State::AwaitingGeneration,
        Event::Generated { text: "\"fix\"".to_string() },
    );
    assert!(matches!(st, State::Done { outcome: Outcome::InvalidName }));
    match act {
        Action::Fail { message, code } => {
            assert_eq!(message, "Invalid branch name: fix");
            assert_eq!(code, 1);
        }
        _ => panic!("an invalid name must end the run"),
    }
}

#[test]
fn strict_mode_accepts_names_of_the_shape() {
    let mut cfg = config();
    cfg.structured = true;
    cfg.strict = true;
    let (_, act) = step(
        &cfg,
        State::AwaitingGeneration,
        Event::Generated { text: "\"fix-login-form\"".to_string() },
    );
    assert!(matches!(act, Action::CreateBookmark { .. }));
}

#[test]
fn empty_generated_name_is_invalid() {
    let cfg = config();
    let (st, _) = step(
        &cfg,
        State::AwaitingGeneration,
        Event::Generated { text: "   ".to_string() },
    );
    assert!(matches!(st, State::Done { outcome: Outcome::InvalidName }));
}

#[test]
fn leading_hyphen_never_reaches_the_publisher() {
    let cfg = config();
    let (st, act) = step(
        &cfg,
        State::AwaitingGeneration,
        Event::Generated { text: "-ab ".to_string() },
    );
    assert!(matches!(st, State::Done { outcome: Outcome::InvalidName }));
    match act {
        Action::Fail { message, code } => {
            assert_eq!(message, "Invalid branch name: -ab");
            assert_eq!(code, 1);
        }
        _ => panic!("a name reading as a flag must be rejected"),
    }
}

#[test]
fn hyphen_runs_never_reach_the_publisher() {
    let cfg = config();
    let (st, _) = step(
        &cfg,
        State::AwaitingGeneration,
        Event::Generated { text: "a - b".to_string() },
    );
    assert!(matches!(st, State::Done { outcome: Outcome::InvalidName }));
}

#[test]
fn failed_command_propagates_its_exit_code() {
    let cfg = config();
    let (st, act) = step(
        &cfg,
        State::AwaitingHistory,
        Event::CommandError { detail: "revset parse error".to_string(), code: Some(3) },
    );
    assert!(matches!(st, State::Done { outcome: Outcome::CommandFailed }));
    match act {
        Action::Fail { message, code } => {
            assert_eq!(message, "revset parse error");
            assert_eq!(code, 3);
        }
        _ => panic!("a failed command must end the run"),
    }
}

#[test]
fn failed_command_without_code_exits_one() {
    let cfg = config();
    let (_, act) = step(
        &cfg,
        State::AwaitingPush,
        Event::CommandError { detail: "killed".to_string(), code: None },
    );
    match act {
        Action::Fail { code, .. } => assert_eq!(code, 1),
        _ => panic!("a failed command must end the run"),
    }
}
