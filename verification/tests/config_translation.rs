use netcoredbg_adapter::config::{ConfigError, FieldName};
use netcoredbg_adapter::json::JsonValue;
use netcoredbg_adapter::translate::{
    adapter_name, build_attach_scenario, build_launch_scenario, build_scenario, classify_request,
    translate_to_adapter_binary_request, AttachRequest, ClassifyError, GenericDebugRequest,
    LaunchRequest, RequestKind, ScenarioError, TranslateError,
};

fn obj(fields: Vec<(&str, JsonValue)>) -> JsonValue {
    JsonValue::Obj(fields.into_iter().map(|(k, v)| (k.to_string(), v)).collect())
}

fn s(text: &str) -> JsonValue {
    JsonValue::Str(text.to_string())
}

#[test]
fn launch_with_empty_args_omits_args_and_env() {
    let launch = LaunchRequest {
        program: "/bin/app".to_string(),
        cwd: None,
        args: vec![],
        envs: vec![],
    };
    let text = build_launch_scenario(launch, None).unwrap();
    assert_eq!(text, "{\"request\":\"launch\",\"program\":\"/bin/app\"}");
}

#[test]
fn launch_with_all_fields_serializes_in_schema_order() {
    let launch = LaunchRequest {
        program: "/bin/app".to_string(),
        cwd: Some("/work".to_string()),
        args: vec!["x".to_string(), "y".to_string()],
        envs: vec![("K".to_string(), "V".to_string())],
    };
    let text = build_launch_scenario(launch, Some(true)).unwrap();
    assert_eq!(
        text,
        "{\"request\":\"launch\",\"program\":\"/bin/app\",\"args\":[\"x\",\"y\"],\"cwd\":\"/work\",\"env\":{\"K\":\"V\"},\"stopAtEntry\":true}"
    );
}

#[test]
fn launch_escapes_quotes_backslashes_and_control_characters() {
    let launch = LaunchRequest {
        program: "a\"b\\c\nd".to_string(),
        cwd: None,
        args: vec![],
        envs: vec![],
    };
    let text = build_launch_scenario(launch, None).unwrap();
    assert_eq!(
        text,
        "{\"request\":\"launch\",\"program\":\"a\\\"b\\\\c\\u000ad\"}"
    );
}

#[test]
fn launch_text_is_wellformed_json_for_a_real_parser() {
    let launch = LaunchRequest {
        program: "a\"b\\c\nd".to_string(),
        cwd: Some("/w".to_string()),
        args: vec!["-v".to_string()],
        envs: vec![("HOME".to_string(), "/home/u".to_string())],
    };
    let text = build_launch_scenario(launch, Some(false)).unwrap();
    let v: serde_json::Value = serde_json::from_str(&text).unwrap();
    assert_eq!(v.get("request").and_then(|x| x.as_str()), Some("launch"));
    assert_eq!(v.get("program").and_then(|x| x.as_str()), Some("a\"b\\c\nd"));
    assert_eq!(v.get("cwd").and_then(|x| x.as_str()), Some("/w"));
    assert_eq!(v.get("stopAtEntry").and_then(|x| x.as_bool()), Some(false));
    assert_eq!(
        v.get("env").and_then(|e| e.get("HOME")).and_then(|x| x.as_str()),
        Some("/home/u")
    );
}

#[test]
fn attach_without_process_id_is_missing_process_id() {
    let r = build_attach_scenario(AttachRequest { process_id: None }, None);
    assert_eq!(r, Err(ScenarioError::MissingProcessId));
}

#[test]
fn attach_with_too_large_process_id_overflows() {
    let r = build_attach_scenario(AttachRequest { process_id: Some(2147483648) }, None);
    assert_eq!(r, Err(ScenarioError::ProcessIdOverflow(2147483648)));
}

#[test]
fn attach_in_range_emits_the_integer_exactly() {
    let text = build_attach_scenario(AttachRequest { process_id: Some(4242) }, None).unwrap();
    assert_eq!(text, "{\"request\":\"attach\",\"processId\":4242}");
    let text2 =
        build_attach_scenario(AttachRequest { process_id: Some(2147483647) }, Some(true)).unwrap();
    assert_eq!(
        text2,
        "{\"request\":\"attach\",\"stopAtEntry\":true,\"processId\":2147483647}"
    );
}

#[test]
fn classify_launch_and_attach() {
    let launch = obj(vec![("request", s("launch"))]);
    assert_eq!(classify_request("netcoredbg", &launch), Ok(RequestKind::Launch));
    let attach = obj(vec![("request", s("attach"))]);
    assert_eq!(classify_request("netcoredbg", &attach), Ok(RequestKind::Attach));
}

#[test]
fn classify_restart_is_invalid_request_kind() {
    let cfg = obj(vec![("request", s("restart"))]);
    assert_eq!(
        classify_request("netcoredbg", &cfg),
        Err(ClassifyError::InvalidRequestKind("restart".to_string()))
    );
}

#[test]
fn classify_missing_or_nonstring_request_is_missing_field() {
    let empty = obj(vec![]);
    assert_eq!(
        classify_request("netcoredbg", &empty),
        Err(ClassifyError::MissingRequestField)
    );
    let numeric = obj(vec![("request", JsonValue::Int(5))]);
    assert_eq!(
        classify_request("netcoredbg", &numeric),
        Err(ClassifyError::MissingRequestField)
    );
    let not_an_object = JsonValue::Str("launch".to_string());
    assert_eq!(
        classify_request("netcoredbg", &not_an_object),
        Err(ClassifyError::MissingRequestField)
    );
}

#[test]
fn classify_for_another_adapter_is_rejected() {
    let cfg = obj(vec![("request", s("launch"))]);
    assert_eq!(
        classify_request("gdb", &cfg),
        Err(ClassifyError::UnknownAdapter("gdb".to_string()))
    );
}

#[test]
fn classify_attach_without_process_id_still_succeeds() {
    let cfg = obj(vec![("request", s("attach"))]);
    assert_eq!(classify_request("netcoredbg", &cfg), Ok(RequestKind::Attach));
    let r = build_attach_scenario(AttachRequest { process_id: None }, None);
    assert_eq!(r, Err(ScenarioError::MissingProcessId));
}

#[test]
fn translate_round_trips_a_built_launch_scenario() {
    let launch = LaunchRequest {
        program: "/bin/app".to_string(),
        cwd: Some("/work".to_string()),
        args: vec!["x".to_string()],
        envs: vec![("K".to_string(), "V".to_string())],
    };
    let text = build_launch_scenario(launch, Some(true)).unwrap();
    let d = translate_to_adapter_binary_request(
        "netcoredbg",
        &text,
        "/usr/bin/netcoredbg".to_string(),
        "/fallback",
    )
    .unwrap();
    assert_eq!(d.request, RequestKind::Launch);
    assert_eq!(d.command, "/usr/bin/netcoredbg");
    assert_eq!(d.arguments, vec!["--interpreter=vscode".to_string()]);
    assert_eq!(d.cwd, "/work");
    assert_eq!(d.envs, vec![("K".to_string(), "V".to_string())]);
    assert_eq!(d.configuration, text);
}

#[test]
fn translate_falls_back_to_worktree_cwd_only_when_absent() {
    let d = translate_to_adapter_binary_request(
        "netcoredbg",
        "{\"request\":\"launch\",\"program\":\"/bin/app\"}",
        "cmd".to_string(),
        "/fallback",
    )
    .unwrap();
    assert_eq!(d.cwd, "/fallback");
    let d2 = translate_to_adapter_binary_request(
        "netcoredbg",
        "{\"request\":\"launch\",\"cwd\":\"\"}",
        "cmd".to_string(),
        "/fallback",
    )
    .unwrap();
    assert_eq!(d2.cwd, "");
}

#[test]
fn translate_rejects_malformed_json_with_a_diagnostic() {
    let r = translate_to_adapter_binary_request(
        "netcoredbg",
        "not json at all",
        "cmd".to_string(),
        "/w",
    );
    assert!(matches!(r, Err(TranslateError::ConfigParse(_))));
}

#[test]
fn translate_rejects_schema_violations() {
    let r = translate_to_adapter_binary_request(
        "netcoredbg",
        "{\"request\":\"launch\",\"args\":\"x\"}",
        "cmd".to_string(),
        "/w",
    );
    assert_eq!(
        r,
        Err(TranslateError::InvalidConfig(ConfigError::WrongFieldType(FieldName::Args)))
    );
    let r2 = translate_to_adapter_binary_request(
        "netcoredbg",
        "{\"program\":\"/bin/app\"}",
        "cmd".to_string(),
        "/w",
    );
    assert_eq!(r2, Err(TranslateError::InvalidConfig(ConfigError::MissingRequest)));
}

#[test]
fn translate_rejects_unknown_request_kind_with_the_value() {
    let r = translate_to_adapter_binary_request(
        "netcoredbg",
        "{\"request\":\"restart\"}",
        "cmd".to_string(),
        "/w",
    );
    assert_eq!(r, Err(TranslateError::InvalidRequestKind("restart".to_string())));
}

#[test]
fn translate_checks_process_id_range_and_form() {
    let r = translate_to_adapter_binary_request(
        "netcoredbg",
        "{\"request\":\"attach\",\"processId\":3000000000}",
        "cmd".to_string(),
        "/w",
    );
    assert_eq!(
        r,
        Err(TranslateError::InvalidConfig(ConfigError::ProcessIdOutOfRange(3000000000)))
    );
    let ok = translate_to_adapter_binary_request(
        "netcoredbg",
        "{\"request\":\"attach\",\"processId\":\"123\"}",
        "cmd".to_string(),
        "/w",
    )
    .unwrap();
    assert_eq!(ok.request, RequestKind::Attach);
    let bad = translate_to_adapter_binary_request(
        "netcoredbg",
        "{\"request\":\"attach\",\"processId\":\"abc\"}",
        "cmd".to_string(),
        "/w",
    );
    assert_eq!(
        bad,
        Err(TranslateError::InvalidConfig(ConfigError::ProcessIdNotNumeric))
    );
}

#[test]
fn translate_ignores_unknown_members() {
    let d = translate_to_adapter_binary_request(
        "netcoredbg",
        "{\"request\":\"launch\",\"futureOption\":{\"nested\":[1,2.5,null]}}",
        "cmd".to_string(),
        "/w",
    )
    .unwrap();
    assert_eq!(d.request, RequestKind::Launch);
}

#[test]
fn build_scenario_dispatches_on_the_request_kind() {
    let launch = GenericDebugRequest::Launch(LaunchRequest {
        program: "/bin/app".to_string(),
        cwd: None,
        args: vec![],
        envs: vec![],
    });
    assert_eq!(
        build_scenario(launch, None).unwrap(),
        "{\"request\":\"launch\",\"program\":\"/bin/app\"}"
    );
    let attach = GenericDebugRequest::Attach(AttachRequest { process_id: Some(7) });
    assert_eq!(
        build_scenario(attach, None).unwrap(),
        "{\"request\":\"attach\",\"processId\":7}"
    );
}

#[test]
fn classification_accepts_the_published_adapter_name() {
    let cfg = obj(vec![("request", s("launch"))]);
    assert_eq!(classify_request(adapter_name(), &cfg), Ok(RequestKind::Launch));
}

#[test]
fn duplicate_members_read_the_first_occurrence() {
    let cfg = obj(vec![("request", s("launch")), ("request", s("restart"))]);
    assert_eq!(classify_request("netcoredbg", &cfg), Ok(RequestKind::Launch));
}

#[test]
fn empty_process_id_string_is_not_numeric() {
    let r = translate_to_adapter_binary_request(
        "netcoredbg",
        "{\"request\":\"attach\",\"processId\":\"\"}",
        "cmd".to_string(),
        "/w",
    );
    assert_eq!(
        r,
        Err(TranslateError::InvalidConfig(ConfigError::ProcessIdNotNumeric))
    );
}

#[test]
fn negative_process_id_in_range_is_accepted() {
    let d = translate_to_adapter_binary_request(
        "netcoredbg",
        "{\"request\":\"attach\",\"processId\":-5}",
        "cmd".to_string(),
        "/w",
    )
    .unwrap();
    assert_eq!(d.request, RequestKind::Attach);
}

#[test]
fn null_optionals_count_as_absent_but_null_env_is_rejected() {
    let d = translate_to_adapter_binary_request(
        "netcoredbg",
        "{\"request\":\"launch\",\"program\":null,\"args\":null,\"stopAtEntry\":null}",
        "cmd".to_string(),
        "/fallback",
    )
    .unwrap();
    assert_eq!(d.cwd, "/fallback");
    let r = translate_to_adapter_binary_request(
        "netcoredbg",
        "{\"request\":\"launch\",\"env\":null}",
        "cmd".to_string(),
        "/fallback",
    );
    assert_eq!(
        r,
        Err(TranslateError::InvalidConfig(ConfigError::WrongFieldType(FieldName::Env)))
    );
}

#[test]
fn translate_for_another_adapter_is_rejected() {
    let r = translate_to_adapter_binary_request(
        "lldb",
        "{\"request\":\"launch\"}",
        "cmd".to_string(),
        "/w",
    );
    assert_eq!(r, Err(TranslateError::UnknownAdapter("lldb".to_string())));
}
