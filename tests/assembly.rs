use klask::app_state::{AppState, CommandSpec, Schema};
use klask::arg_state::{ArgAction, ArgKind, ArgSpec, ArgState, ArgsError, ValueHint};
use klask::sentence::{append_on_new_word, is_not_alphanumeric, to_sentence_case};

fn spec(id: &str, long: Option<&str>, short: Option<char>, action: ArgAction) -> ArgSpec {
    ArgSpec {
        id: id.to_string(),
        long: long.map(|s| s.to_string()),
        short,
        help: None,
        long_help: None,
        required: false,
        require_equals: false,
        action,
        default_values: vec![],
        possible_values: vec![],
        value_hint: ValueHint::Unknown,
    }
}

fn single_text(a: &ArgState) -> String {
    match &a.kind {
        ArgKind::String { value, .. } => value.0.clone(),
        _ => panic!("not a single value"),
    }
}

#[test]
fn sentence_case_of_camel_snake_and_pascal() {
    assert_eq!(to_sentence_case("fooBar"), "Foo bar");
    assert_eq!(to_sentence_case("foo_bar"), "Foo bar");
    assert_eq!(to_sentence_case("FooBar"), "Foo bar");
    assert_eq!(
        to_sentence_case("count_occurrences_as_a_nice_counter"),
        "Count occurrences as a nice counter"
    );
}

#[test]
fn sentence_case_edges() {
    assert_eq!(to_sentence_case(""), "");
    assert_eq!(to_sentence_case("__foo"), "Foo");
    assert_eq!(to_sentence_case("foo__"), "Foo");
    assert_eq!(to_sentence_case("foo2bar"), "Foo2 bar");
    assert_eq!(to_sentence_case("XMLHttp"), "Xmlhttp");
    assert_eq!(to_sentence_case("--"), "");
}

#[test]
fn word_helpers() {
    assert_eq!(append_on_new_word(String::new(), true, 'a'), "A");
    assert_eq!(append_on_new_word("Foo".to_string(), false, 'B'), "Foo b");
    assert!(is_not_alphanumeric('_'));
    assert!(!is_not_alphanumeric('z'));
    assert!(!is_not_alphanumeric('7'));
}

#[test]
fn new_arg_state_from_spec() {
    let mut s = spec("required_field", Some("flag"), Some('f'), ArgAction::SetValue);
    s.required = true;
    s.default_values = vec!["d1".to_string(), "d2".to_string()];
    s.help = Some("short help".to_string());
    let a = ArgState::new(&s);
    assert_eq!(a.id, "required_field");
    assert_eq!(a.name, "Required field");
    assert_eq!(a.call_name.as_deref(), Some("--flag"));
    assert_eq!(a.desc.as_deref(), Some("short help"));
    assert!(!a.optional);
    assert!(a.validation_error.is_none());
    match &a.kind {
        ArgKind::String { value, default, .. } => {
            assert_eq!(value.0, "");
            assert_eq!(default.as_deref(), Some("d1"));
        }
        _ => panic!("expected a single value"),
    }
    let short = ArgState::new(&spec("v", None, Some('v'), ArgAction::Count));
    assert_eq!(short.call_name.as_deref(), Some("-v"));
    assert!(matches!(short.kind, ArgKind::Occurences(0)));
    let positional = ArgState::new(&spec("input", None, None, ArgAction::SetValue));
    assert!(positional.call_name.is_none());
    assert!(matches!(
        ArgState::new(&spec("q", Some("quiet"), None, ArgAction::SetFalse)).kind,
        ArgKind::Bool(false)
    ));
}

#[test]
fn use_equals_joins_token_and_value() {
    let mut s = spec("flag", Some("flag"), None, ArgAction::SetValue);
    s.require_equals = true;
    let mut a = ArgState::new(&s);
    assert!(a.set_single("x".to_string()));
    assert_eq!(a.get_cmd_args(vec![]).unwrap(), vec!["--flag=x"]);
    a.use_equals = false;
    assert_eq!(a.get_cmd_args(vec![]).unwrap(), vec!["--flag", "x"]);
}

#[test]
fn positional_value_is_bare_and_appended() {
    let mut a = ArgState::new(&spec("input", None, None, ArgAction::SetValue));
    a.set_single("file.txt".to_string());
    assert_eq!(
        a.get_cmd_args(vec!["first".to_string()]).unwrap(),
        vec!["first", "file.txt"]
    );
}

#[test]
fn counter_repeats_its_token() {
    let mut a = ArgState::new(&spec("verbose", None, Some('v'), ArgAction::Count));
    for _ in 0..3 {
        assert!(a.increment_counter());
    }
    assert_eq!(a.get_cmd_args(vec![]).unwrap(), vec!["-v", "-v", "-v"]);
}

#[test]
fn counter_floor_at_zero() {
    let mut a = ArgState::new(&spec("verbose", None, Some('v'), ArgAction::Count));
    assert!(a.decrement_counter());
    assert!(matches!(a.kind, ArgKind::Occurences(0)));
    a.increment_counter();
    a.decrement_counter();
    a.decrement_counter();
    assert!(matches!(a.kind, ArgKind::Occurences(0)));
    assert!(a.get_cmd_args(vec![]).unwrap().is_empty());
}

#[test]
fn required_empty_single_fails_with_its_id() {
    let mut s = spec("name", Some("name"), None, ArgAction::SetValue);
    s.required = true;
    let a = ArgState::new(&s);
    assert_eq!(
        a.get_cmd_args(vec![]),
        Err(ArgsError::MissingRequired("name".to_string()))
    );
    let optional = ArgState::new(&spec("opt", Some("opt"), None, ArgAction::SetValue));
    assert!(optional.get_cmd_args(vec![]).unwrap().is_empty());
}

#[test]
fn multiple_values_each_get_the_token() {
    let mut a = ArgState::new(&spec("m", Some("m"), None, ArgAction::Append));
    assert!(a.get_cmd_args(vec![]).unwrap().is_empty());
    assert!(a.add_multiple("a".to_string()));
    assert!(a.add_multiple("b".to_string()));
    assert_eq!(a.get_cmd_args(vec![]).unwrap(), vec!["--m", "a", "--m", "b"]);
    assert!(a.remove_multiple(0));
    assert!(!a.remove_multiple(5));
    assert_eq!(a.get_cmd_args(vec![]).unwrap(), vec!["--m", "b"]);
}

#[test]
fn reset_multiple_to_default_values() {
    let mut s = spec("m", Some("m"), None, ArgAction::Append);
    s.default_values = vec!["x".to_string(), "y".to_string()];
    let mut a = ArgState::new(&s);
    a.add_multiple("z".to_string());
    assert!(a.reset_multiple_to_default());
    assert_eq!(a.get_cmd_args(vec![]).unwrap(), vec!["--m", "x", "--m", "y"]);
    assert!(!a.set_single("no".to_string()));
}

#[test]
fn flag_emits_token_when_set() {
    let mut a = ArgState::new(&spec("debug", Some("debug"), None, ArgAction::SetTrue));
    assert!(a.get_cmd_args(vec![]).unwrap().is_empty());
    assert!(a.toggle_flag());
    assert_eq!(a.get_cmd_args(vec![]).unwrap(), vec!["--debug"]);
}

#[test]
fn flag_without_token_is_internal_error() {
    let mut a = ArgState::new(&spec("debug", None, None, ArgAction::SetTrue));
    assert_eq!(
        a.get_cmd_args(vec![]),
        Err(ArgsError::NoCallName("debug".to_string()))
    );
    a.toggle_flag();
    assert_eq!(
        a.get_cmd_args(vec![]),
        Err(ArgsError::NoCallName("debug".to_string()))
    );
    let counter = ArgState::new(&spec("level", None, None, ArgAction::Count));
    assert_eq!(
        counter.get_cmd_args(vec![]),
        Err(ArgsError::NoCallName("level".to_string()))
    );
}

#[test]
fn closed_choice_accepts_listed_values_only() {
    let mut s = spec("mode", Some("mode"), None, ArgAction::SetValue);
    s.possible_values = vec!["fast".to_string(), "slow".to_string()];
    let mut a = ArgState::new(&s);
    assert!(a.set_single("slow".to_string()));
    assert!(!a.set_single("medium".to_string()));
    assert_eq!(single_text(&a), "slow");
    assert!(a.set_single(String::new()));
    s.required = true;
    let mut required = ArgState::new(&s);
    assert!(!required.set_single(String::new()));
    assert!(required.set_single("fast".to_string()));

    let mut m = spec("tags", Some("tag"), None, ArgAction::Append);
    m.possible_values = vec!["a".to_string()];
    let mut multi = ArgState::new(&m);
    assert!(multi.add_multiple("a".to_string()));
    assert!(!multi.add_multiple("b".to_string()));
    assert_eq!(multi.get_cmd_args(vec![]).unwrap(), vec!["--tag", "a"]);
}

#[test]
fn adding_a_value_keeps_existing_identities() {
    let mut a = ArgState::new(&spec("m", Some("m"), None, ArgAction::Append));
    a.add_multiple("x".to_string());
    a.add_multiple("y".to_string());
    let before: Vec<(String, uuid::Uuid)> = match &a.kind {
        ArgKind::MultipleStrings { values, .. } => values.clone(),
        _ => panic!("not a list"),
    };
    a.add_multiple("z".to_string());
    match &a.kind {
        ArgKind::MultipleStrings { values, .. } => {
            assert_eq!(&values[..2], &before[..]);
            assert_eq!(values[2].0, "z");
            assert_ne!(values[2].1, values[0].1);
        }
        _ => panic!("not a list"),
    }
}

#[test]
fn validation_error_only_on_matching_id() {
    let mut a = ArgState::new(&spec("a", Some("a"), None, ArgAction::SetValue));
    let mut b = ArgState::new(&spec("b", Some("b"), None, ArgAction::SetValue));
    b.validation_error = Some("old".to_string());
    a.update_validation_error("a", "bad");
    b.update_validation_error("a", "bad");
    assert_eq!(a.validation_error.as_deref(), Some("bad"));
    assert_eq!(b.validation_error.as_deref(), Some("old"));
    a.set_single("v".to_string());
    assert!(a.validation_error.is_none());
}

fn command(name: &str, args: Vec<ArgSpec>, subs: Vec<usize>, required: bool) -> CommandSpec {
    CommandSpec {
        name: name.to_string(),
        about: None,
        args,
        subcommands: subs,
        subcommand_required: required,
    }
}

fn schema() -> Schema {
    let mut input = spec("input", None, None, ArgAction::SetValue);
    input.required = true;
    Schema {
        commands: vec![
            command(
                "prog",
                vec![spec("debug", Some("debug"), Some('d'), ArgAction::SetTrue), input],
                vec![1, 2],
                true,
            ),
            command("alpha", vec![spec("path", Some("path"), None, ArgAction::SetValue)], vec![3], false),
            command("beta", vec![spec("level", None, Some('l'), ArgAction::Count)], vec![], false),
            command("inner", vec![], vec![], false),
        ],
    }
}

#[test]
fn tree_assembles_in_declaration_order_then_subcommand() {
    let schema = schema();
    let mut state = AppState::new(&schema, 0);
    assert_eq!(
        state.get_cmd_args(vec![]),
        Err(ArgsError::MissingRequired("input".to_string()))
    );
    state.args[1].set_single("in.txt".to_string());
    assert_eq!(state.get_cmd_args(vec![]), Err(ArgsError::MissingSubcommand));
    assert!(state.select_subcommand(&schema, &vec![], "alpha"));
    state.args[0].toggle_flag();
    if let Some((_, child)) = &mut state.current {
        child.args[0].set_single("p".to_string());
    }
    assert_eq!(
        state.get_cmd_args(vec![]).unwrap(),
        vec!["--debug", "in.txt", "alpha", "--path", "p"]
    );
    assert!(state.select_subcommand(&schema, &vec!["alpha".to_string()], "inner"));
    assert_eq!(
        state.get_cmd_args(vec![]).unwrap(),
        vec!["--debug", "in.txt", "alpha", "--path", "p", "inner"]
    );
}

#[test]
fn reselecting_a_branch_drops_its_edits() {
    let schema = schema();
    let mut state = AppState::new(&schema, 0);
    assert!(state.select_subcommand(&schema, &vec![], "alpha"));
    if let Some((_, child)) = &mut state.current {
        child.args[0].set_single("edited".to_string());
        assert_eq!(single_text(&child.args[0]), "edited");
    }
    assert!(state.select_subcommand(&schema, &vec![], "beta"));
    assert!(state.select_subcommand(&schema, &vec![], "alpha"));
    let (name, child) = state.current.as_ref().unwrap();
    assert_eq!(name, "alpha");
    assert_eq!(single_text(&child.args[0]), "");
}

#[test]
fn selecting_unknown_branch_changes_nothing() {
    let schema = schema();
    let mut state = AppState::new(&schema, 0);
    assert!(!state.select_subcommand(&schema, &vec![], "gamma"));
    assert!(state.current.is_none());
    assert!(!state.select_subcommand(&schema, &vec!["alpha".to_string()], "inner"));
    assert!(state.current.is_none());
}

#[test]
fn tree_validation_error_reaches_selected_branch() {
    let schema = schema();
    let mut state = AppState::new(&schema, 0);
    state.select_subcommand(&schema, &vec![], "alpha");
    state.update_validation_error("path", "bad path");
    let (_, child) = state.current.as_ref().unwrap();
    assert_eq!(child.args[0].validation_error.as_deref(), Some("bad path"));
    assert!(state.args[0].validation_error.is_none());
    state.clear_validation_errors();
    let (_, child) = state.current.as_ref().unwrap();
    assert!(child.args[0].validation_error.is_none());
}
