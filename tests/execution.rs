use klask::app_state::{AppState, CommandSpec, Schema};
use klask::arg_state::{ArgAction, ArgSpec, ArgsError, ValueHint};
use klask::child_app::{check_env_keys, ChildApp, ChildStatus, ExecutionRequest, StdinType};
use klask::error::{ExecutionError, MatchFailure};
use klask::run::{conclude_execution, try_start_execution, REQUIRED_FIELD_MISSING};

fn request(argv: Vec<&str>, env: Option<Vec<(&str, &str)>>) -> ExecutionRequest {
    ExecutionRequest {
        argv: argv.into_iter().map(String::from).collect(),
        env: env.map(|v| {
            v.into_iter()
                .map(|(k, x)| (k.to_string(), x.to_string()))
                .collect()
        }),
        stdin: Some(StdinType::Text(String::new())),
        working_dir: None,
    }
}

#[test]
fn echo_run_reaches_exit_with_output() {
    let mut child = ChildApp::new();
    assert!(child.check_request(&request(vec!["echo", "hello"], None)).is_ok());
    child.spawned();
    assert!(child.is_running());
    child.append_output("hello\n");
    child.exited(0);
    assert_eq!(child.status, ChildStatus::Exited(0));
    assert_eq!(child.output, "hello\n");
    assert!(!child.is_running());
}

#[test]
fn kill_is_idempotent() {
    let mut child = ChildApp::new();
    assert!(!child.kill());
    assert_eq!(child.status, ChildStatus::NotStarted);
    child.spawned();
    child.append_output("partial");
    assert!(child.kill());
    assert_eq!(child.status, ChildStatus::Killed);
    assert!(!child.kill());
    assert_eq!(child.status, ChildStatus::Killed);
    child.exited(137);
    assert_eq!(child.status, ChildStatus::Killed);
    assert_eq!(child.output, "partial");
}

#[test]
fn empty_env_key_rejected_before_spawn() {
    let child = ChildApp::new();
    let r = child.check_request(&request(vec!["echo"], Some(vec![("A", "1"), ("", "2")])));
    assert!(matches!(r, Err(ExecutionError::EmptyEnvKey)));
    assert_eq!(child.status, ChildStatus::NotStarted);
    assert!(check_env_keys(&Some(vec![("A".to_string(), String::new())])));
    assert!(!check_env_keys(&Some(vec![(String::new(), "v".to_string())])));
    assert!(check_env_keys(&None));
}

#[test]
fn empty_argv_has_no_program() {
    let child = ChildApp::new();
    assert!(matches!(
        child.check_request(&request(vec![], None)),
        Err(ExecutionError::NoProgram)
    ));
}

#[test]
fn spawn_failure_never_runs() {
    let mut child = ChildApp::new();
    child.spawn_failed("not found".to_string());
    assert_eq!(child.status, ChildStatus::SpawnFailed("not found".to_string()));
    child.spawned();
    child.exited(0);
    assert_eq!(child.status, ChildStatus::SpawnFailed("not found".to_string()));
}

#[test]
fn execution_error_conversions() {
    let e = ExecutionError::from(MatchFailure {
        value_validation: true,
        context: Some(("invalid value".to_string(), "abc".to_string())),
        message: "m".to_string(),
    });
    assert!(matches!(e, ExecutionError::ValidationError { ref name, ref message }
        if name == "invalid value" && message == "abc"));
    let e = ExecutionError::from(MatchFailure {
        value_validation: true,
        context: None,
        message: "m".to_string(),
    });
    assert!(matches!(e, ExecutionError::NoValidationName));
    let e = ExecutionError::from(MatchFailure {
        value_validation: false,
        context: None,
        message: "unexpected".to_string(),
    });
    assert!(matches!(e, ExecutionError::MatchError(ref m) if m == "unexpected"));
    assert!(matches!(ExecutionError::from("oops".to_string()), ExecutionError::GuiError(ref m) if m == "oops"));
    assert!(matches!(
        ExecutionError::from(ArgsError::MissingSubcommand),
        ExecutionError::Args(ArgsError::MissingSubcommand)
    ));
}

fn name_schema() -> Schema {
    Schema {
        commands: vec![CommandSpec {
            name: "prog".to_string(),
            about: None,
            args: vec![ArgSpec {
                id: "name".to_string(),
                long: Some("name".to_string()),
                short: None,
                help: None,
                long_help: None,
                required: true,
                require_equals: false,
                action: ArgAction::SetValue,
                default_values: vec![],
                possible_values: vec![],
                value_hint: ValueHint::Unknown,
            }],
            subcommands: vec![],
            subcommand_required: false,
        }],
    }
}

#[test]
fn start_execution_paints_missing_required() {
    let schema = name_schema();
    let mut state = AppState::new(&schema, 0);
    let r = try_start_execution(&mut state);
    assert!(matches!(
        r,
        Err(ExecutionError::Args(ArgsError::MissingRequired(ref id))) if id == "name"
    ));
    assert_eq!(
        state.args[0].validation_error.as_deref(),
        Some(REQUIRED_FIELD_MISSING)
    );
}

#[test]
fn start_execution_succeeds_and_clears_errors() {
    let schema = name_schema();
    let mut state = AppState::new(&schema, 0);
    state.args[0].set_single("bob".to_string());
    state.args[0].validation_error = Some("stale".to_string());
    let args = try_start_execution(&mut state).unwrap();
    assert_eq!(args, vec!["--name", "bob"]);
    assert!(state.args[0].validation_error.is_none());
    let env = Some(vec![("K".to_string(), "v".to_string())]);
    let r = conclude_execution(&mut state, args.clone(), Ok(()), &env);
    assert_eq!(r.unwrap(), vec!["--name", "bob"]);
    let bad_env = Some(vec![(String::new(), "v".to_string())]);
    assert!(matches!(
        conclude_execution(&mut state, args, Ok(()), &bad_env),
        Err(ExecutionError::EmptyEnvKey)
    ));
}

#[test]
fn conclude_paints_rejected_value() {
    let schema = name_schema();
    let mut state = AppState::new(&schema, 0);
    let failure = MatchFailure {
        value_validation: true,
        context: Some(("name".to_string(), "not allowed".to_string())),
        message: String::new(),
    };
    let r = conclude_execution(&mut state, vec!["--name".to_string()], Err(failure), &None);
    assert!(matches!(r, Err(ExecutionError::ValidationError { .. })));
    assert_eq!(state.args[0].validation_error.as_deref(), Some("not allowed"));
    let ok = conclude_execution(&mut state, vec!["a".to_string()], Ok(()), &None);
    assert_eq!(ok.unwrap(), vec!["a"]);
}

#[test]
fn conclude_reports_command_line_rejection() {
    let schema = name_schema();
    let mut state = AppState::new(&schema, 0);
    state.args[0].set_single("bob".to_string());
    let args = try_start_execution(&mut state).unwrap();
    let failure = MatchFailure {
        value_validation: false,
        context: None,
        message: "unexpected argument '--name' found".to_string(),
    };
    let r = conclude_execution(&mut state, args, Err(failure), &None);
    assert!(matches!(r, Err(ExecutionError::MatchError(ref m)) if m.contains("--name")));
    assert!(state.args[0].validation_error.is_none());
}
