use mcp_git_tools::contract::{absent_if_empty, validate, Argument, FieldKind, FieldSpec};
use mcp_git_tools::error::{ErrorKind, ToolError};
use mcp_git_tools::value::{Number, Value};

fn text(s: &str) -> Value {
    Value::Text(s.to_string())
}

fn object(fields: Vec<(&str, Value)>) -> Value {
    Value::Object(fields.into_iter().map(|(k, v)| (k.to_string(), v)).collect())
}

fn contract() -> Vec<FieldSpec> {
    vec![
        FieldSpec::new("repo_path", "The path to the git repository", FieldKind::Text, true, false),
        FieldSpec::new("max_count", "The maximum number of commits to return", FieldKind::Count, false, true),
        FieldSpec::new("branch", "The branch to filter commits by", FieldKind::Text, false, true),
        FieldSpec::new("force", "Whether to force", FieldKind::Flag, false, false),
    ]
}

fn decode_failure(message: &str) -> ToolError {
    ToolError { kind: ErrorKind::DecodeFailure, message: message.to_string() }
}

#[test]
fn value_get_finds_the_field_of_an_object() {
    let v = object(vec![("a", text("1")), ("b", Value::Bool(true))]);
    assert_eq!(v.get("a"), Some(&text("1")));
    assert_eq!(v.get("b"), Some(&Value::Bool(true)));
    assert_eq!(v.get("c"), None);
    assert_eq!(v.get("A"), None);
}

#[test]
fn value_get_takes_the_later_of_two_fields_of_one_name() {
    let v = object(vec![("a", text("first")), ("b", Value::Null), ("a", text("second"))]);
    assert_eq!(v.get("a"), Some(&text("second")));
}

#[test]
fn value_get_finds_nothing_in_what_is_no_object() {
    assert_eq!(text("a").get("a"), None);
    assert_eq!(Value::Null.get("a"), None);
    assert_eq!(Value::Array(vec![text("a")]).get("a"), None);
}

#[test]
fn value_constructors_build_what_they_say() {
    assert_eq!(Value::text("a".to_string()), text("a"));
    assert_eq!(Value::literal("a"), text("a"));
    assert_eq!(Value::optional_text(Some("a".to_string())), text("a"));
    assert_eq!(Value::optional_text(None), Value::Null);
    assert_eq!(
        Value::text_array(vec!["a".to_string(), "b".to_string()]),
        Value::Array(vec![text("a"), text("b")])
    );
    assert_eq!(Value::array(vec![Value::Null]), Value::Array(vec![Value::Null]));
    assert_eq!(
        Value::object(vec![("k".to_string(), Value::Bool(false))]),
        object(vec![("k", Value::Bool(false))])
    );
}

#[test]
fn value_clone_holds_what_the_value_holds() {
    let v = object(vec![
        ("a", Value::Array(vec![text("x"), Value::Null, Value::Number(Number::Negative(-2))])),
        ("b", object(vec![("c", Value::Bool(true)), ("d", Value::Number(Number::Fraction(1)))])),
        ("a", Value::Number(Number::Unsigned(7))),
    ]);
    let copy = v.clone();
    assert_eq!(copy, v);
    assert_eq!(Value::Null.clone(), Value::Null);
    assert_eq!(Value::Array(vec![]).clone(), Value::Array(vec![]));
}

#[test]
fn validation_gives_one_argument_for_each_field() {
    let args = object(vec![
        ("repo_path", text("/repo")),
        ("max_count", Value::Number(Number::Unsigned(5))),
        ("branch", text("main")),
        ("force", Value::Bool(true)),
    ]);
    assert_eq!(
        validate(&contract(), &args),
        Ok(vec![
            Argument::Text("/repo".to_string()),
            Argument::Count(5),
            Argument::Text("main".to_string()),
            Argument::Flag(true),
        ])
    );
}

#[test]
fn validation_fills_in_absent_for_optional_fields_left_out() {
    let args = object(vec![("repo_path", text("/repo"))]);
    assert_eq!(
        validate(&contract(), &args),
        Ok(vec![Argument::Text("/repo".to_string()), Argument::Absent, Argument::Absent, Argument::Absent])
    );
}

#[test]
fn validation_ignores_unknown_fields() {
    let args = object(vec![
        ("verbose", Value::Bool(true)),
        ("repo_path", text("/repo")),
        ("extra", Value::Array(vec![Value::Null])),
    ]);
    assert_eq!(
        validate(&contract(), &args),
        Ok(vec![Argument::Text("/repo".to_string()), Argument::Absent, Argument::Absent, Argument::Absent])
    );
}

#[test]
fn validation_fails_on_a_missing_required_field() {
    let args = object(vec![("branch", text("main"))]);
    assert_eq!(validate(&contract(), &args), Err(decode_failure("missing field `repo_path`")));
    assert_eq!(validate(&contract(), &object(vec![])), Err(decode_failure("missing field `repo_path`")));
}

#[test]
fn null_means_left_out_in_nullable_fields_only() {
    let args = object(vec![("repo_path", text("/repo")), ("max_count", Value::Null), ("branch", Value::Null)]);
    assert_eq!(
        validate(&contract(), &args),
        Ok(vec![Argument::Text("/repo".to_string()), Argument::Absent, Argument::Absent, Argument::Absent])
    );
    let args = object(vec![("repo_path", text("/repo")), ("force", Value::Null)]);
    assert_eq!(
        validate(&contract(), &args),
        Err(decode_failure("invalid type for field `force`: expected a boolean"))
    );
    let args = object(vec![("repo_path", Value::Null)]);
    assert_eq!(
        validate(&contract(), &args),
        Err(decode_failure("invalid type for field `repo_path`: expected a string"))
    );
    let required_nullable = vec![FieldSpec::new("name", "", FieldKind::Text, true, true)];
    assert_eq!(
        validate(&required_nullable, &object(vec![("name", Value::Null)])),
        Err(decode_failure("missing field `name`"))
    );
}

#[test]
fn validation_fails_on_a_value_of_another_type() {
    let args = object(vec![("repo_path", Value::Bool(true))]);
    assert_eq!(
        validate(&contract(), &args),
        Err(decode_failure("invalid type for field `repo_path`: expected a string"))
    );
    let args = object(vec![("repo_path", text("/repo")), ("max_count", text("5"))]);
    assert_eq!(
        validate(&contract(), &args),
        Err(decode_failure("invalid type for field `max_count`: expected an unsigned 32-bit integer"))
    );
    let args = object(vec![("repo_path", text("/repo")), ("force", text("yes"))]);
    assert_eq!(
        validate(&contract(), &args),
        Err(decode_failure("invalid type for field `force`: expected a boolean"))
    );
    let args = object(vec![("repo_path", text("/repo")), ("branch", Value::Number(Number::Unsigned(1)))]);
    assert_eq!(
        validate(&contract(), &args),
        Err(decode_failure("invalid type for field `branch`: expected a string"))
    );
}

#[test]
fn validation_reports_the_first_field_that_fails() {
    let args = object(vec![("force", text("yes")), ("max_count", text("5"))]);
    assert_eq!(validate(&contract(), &args), Err(decode_failure("missing field `repo_path`")));
    let args = object(vec![("force", text("yes")), ("max_count", text("5")), ("repo_path", text("/r"))]);
    assert_eq!(
        validate(&contract(), &args),
        Err(decode_failure("invalid type for field `max_count`: expected an unsigned 32-bit integer"))
    );
}

#[test]
fn validation_takes_counts_up_to_the_largest_of_32_bits() {
    let with = |n: Number| object(vec![("repo_path", text("/repo")), ("max_count", Value::Number(n))]);
    let failure = Err(decode_failure("invalid type for field `max_count`: expected an unsigned 32-bit integer"));
    assert_eq!(
        validate(&contract(), &with(Number::Unsigned(4294967295))).map(|l| l[1].clone()),
        Ok(Argument::Count(u32::MAX))
    );
    assert_eq!(validate(&contract(), &with(Number::Unsigned(0))).map(|l| l[1].clone()), Ok(Argument::Count(0)));
    assert_eq!(validate(&contract(), &with(Number::Unsigned(4294967296))), failure);
    assert_eq!(validate(&contract(), &with(Number::Negative(-1))), failure);
    assert_eq!(validate(&contract(), &with(Number::Fraction(0x3ff8000000000000))), failure);
}

#[test]
fn validation_fails_on_arguments_that_are_no_object() {
    let failure = Err(decode_failure("invalid type: expected an object"));
    assert_eq!(validate(&contract(), &Value::Null), failure);
    assert_eq!(validate(&contract(), &text("/repo")), failure);
    assert_eq!(validate(&contract(), &Value::Array(vec![text("/repo")])), failure);
    assert_eq!(validate(&Vec::new(), &Value::Null), failure);
}

#[test]
fn validation_of_an_empty_contract_gives_no_argument() {
    assert_eq!(validate(&Vec::new(), &object(vec![("a", text("b"))])), Ok(Vec::new()));
}

#[test]
fn empty_text_in_an_optional_field_is_absent() {
    let with_empty = object(vec![("repo_path", text("/repo")), ("branch", text(""))]);
    let without = object(vec![("repo_path", text("/repo"))]);
    let with_null = object(vec![("repo_path", text("/repo")), ("branch", Value::Null)]);
    let expected = Ok(vec![Argument::Text("/repo".to_string()), Argument::Absent, Argument::Absent, Argument::Absent]);
    assert_eq!(validate(&contract(), &with_empty), expected);
    assert_eq!(validate(&contract(), &without), expected);
    assert_eq!(validate(&contract(), &with_null), expected);
}

#[test]
fn empty_text_in_a_required_field_is_taken_as_it_stands() {
    let args = object(vec![("repo_path", text(""))]);
    assert_eq!(validate(&contract(), &args).map(|l| l[0].clone()), Ok(Argument::Text(String::new())));
}

#[test]
fn text_that_is_not_empty_is_passed_on_unchanged() {
    let args = object(vec![("repo_path", text("/repo")), ("branch", text("  feature/x \n"))]);
    assert_eq!(
        validate(&contract(), &args).map(|l| l[2].clone()),
        Ok(Argument::Text("  feature/x \n".to_string()))
    );
}

#[test]
fn field_decode_agrees_with_validation() {
    let spec = FieldSpec::new("branch", "", FieldKind::Text, false, true);
    assert_eq!(spec.decode(None), Ok(Argument::Absent));
    assert_eq!(spec.decode(Some(&Value::Null)), Ok(Argument::Absent));
    let strict = FieldSpec::new("branch", "", FieldKind::Text, false, false);
    assert_eq!(strict.decode(None), Ok(Argument::Absent));
    assert_eq!(strict.decode(Some(&text(""))), Ok(Argument::Absent));
    assert_eq!(
        strict.decode(Some(&Value::Null)),
        Err(decode_failure("invalid type for field `branch`: expected a string"))
    );
    assert_eq!(spec.decode(Some(&text(""))), Ok(Argument::Absent));
    assert_eq!(spec.decode(Some(&text("x"))), Ok(Argument::Text("x".to_string())));
    assert_eq!(
        spec.decode(Some(&Value::Object(vec![]))),
        Err(decode_failure("invalid type for field `branch`: expected a string"))
    );
}

#[test]
fn argument_accessors_give_defaults_for_other_arguments() {
    assert_eq!(Argument::Text("a".to_string()).text(), Some("a".to_string()));
    assert_eq!(Argument::Absent.text(), None);
    assert_eq!(Argument::Flag(true).text(), None);
    assert_eq!(Argument::Text("a".to_string()).text_or_empty(), "a");
    assert_eq!(Argument::Absent.text_or_empty(), "");
    assert!(Argument::Flag(true).flag());
    assert!(!Argument::Flag(false).flag());
    assert!(!Argument::Absent.flag());
    assert_eq!(Argument::Count(3).count(), Some(3));
    assert_eq!(Argument::Absent.count(), None);
}

#[test]
fn absent_if_empty_keeps_other_texts() {
    assert_eq!(absent_if_empty(None), None);
    assert_eq!(absent_if_empty(Some(String::new())), None);
    assert_eq!(absent_if_empty(Some(" ".to_string())), Some(" ".to_string()));
    assert_eq!(absent_if_empty(Some("main".to_string())), Some("main".to_string()));
}

#[test]
fn failures_carry_their_kind_and_message() {
    assert_eq!(
        ToolError::not_found("git_x"),
        ToolError { kind: ErrorKind::NotFound, message: "Tool 'git_x' not found".to_string() }
    );
    assert_eq!(ToolError::missing_field("path"), decode_failure("missing field `path`"));
    assert_eq!(
        ToolError::invalid_field("path", "a string"),
        decode_failure("invalid type for field `path`: expected a string")
    );
    assert_eq!(ToolError::not_an_object(), decode_failure("invalid type: expected an object"));
    assert_eq!(
        ToolError::launch_failed("No such file or directory (os error 2)"),
        ToolError {
            kind: ErrorKind::ExecutionFailure,
            message: "Failed to execute git: No such file or directory (os error 2)".to_string()
        }
    );
    assert_eq!(
        ToolError::command_failed("fatal: not a git repository\n"),
        ToolError {
            kind: ErrorKind::ExecutionFailure,
            message: "Git command failed: fatal: not a git repository\n".to_string()
        }
    );
    assert_eq!(
        ToolError::resources_unsupported(),
        ToolError { kind: ErrorKind::NotFound, message: "Resources not supported".to_string() }
    );
    assert_eq!(
        ToolError::prompt_not_found("p"),
        ToolError { kind: ErrorKind::NotFound, message: "Prompt 'p' not found".to_string() }
    );
}
