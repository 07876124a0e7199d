//! Translation between the editor's generic debug requests and the adapter's
//! native configuration dialect, and classification of raw configuration
//! payloads by request kind.
//!
//! Classification tolerates unknown members and looks only at `request`;
//! full translation validates the whole payload against the schema. The two
//! gates are independent: a payload may classify cleanly and still fail the
//! strict parse, and vice versa only the strict parse rejects shape faults.

use crate::config::{
    config_from_json, config_text, config_view, opt_str_view, pair_views_of, parse_spec,
    to_json_text, views_of, ConfigError, ConfigModel, NetCoreDbgDebugConfig, PidModel, ProcessId,
};
use crate::json::{lookup, obj_lookup, str_eq, JsonValue};
use vstd::prelude::*;
use vstd::string::StringExecFns;

verus! {

/// The two ways a debug session can start: launching a new process
/// or attaching to a running one.
#[derive(Clone, Copy, PartialEq, Eq, Structural, Debug)]
pub enum RequestKind {
    Launch,
    Attach,
}

/// The only adapter this crate serves.
pub fn adapter_name() -> (r: &'static str)
    ensures
        r@ == "netcoredbg"@,
{
    "netcoredbg"
}

/// The `request` member of a JSON object, when it is a string.
pub open spec fn request_str(v: JsonValue) -> Option<Seq<char>> {
    match v {
        JsonValue::Obj(fields) => match lookup(fields@, "request"@) {
            Some(JsonValue::Str(s)) => Some(s@),
            _ => None,
        },
        _ => None,
    }
}

/// Why a payload could not be classified.
#[derive(Debug, Clone, PartialEq, Eq)]
pub enum ClassifyError {
    /// The request was addressed to an adapter this crate does not serve.
    UnknownAdapter(String),
    /// `request` holds a string other than `launch` or `attach`; the value
    /// is carried for the user.
    InvalidRequestKind(String),
    /// `request` is absent or not a string.
    MissingRequestField,
}

/// Classifies a generic configuration payload by its `request` member alone:
/// `launch` and `attach` map to their kinds, any other string is invalid,
/// an absent or non-string member is missing. Total: every input yields
/// exactly one of the four outcomes.
pub fn classify_request(adapter: &str, config: &JsonValue) -> (r: Result<
    RequestKind,
    ClassifyError,
>)
    ensures
        adapter@ != "netcoredbg"@ ==> (r matches Err(ClassifyError::UnknownAdapter(a)) && a@
            == adapter@),
        adapter@ == "netcoredbg"@ ==> {
            &&& (request_str(*config) is None <==> r == Err::<RequestKind, ClassifyError>(ClassifyError::MissingRequestField))
            &&& (request_str(*config) == Some("launch"@) <==> r == Ok::<RequestKind, ClassifyError>(RequestKind::Launch))
            &&& (request_str(*config) == Some("attach"@) <==> r == Ok::<RequestKind, ClassifyError>(RequestKind::Attach))
            &&& ((request_str(*config) matches Some(s) && s != "launch"@ && s != "attach"@) <==> (
            r matches Err(ClassifyError::InvalidRequestKind(w)) && w@ == request_str(
                *config,
            )->Some_0))
        },
{
    proof {
        reveal_strlit("launch");
        reveal_strlit("attach");
        assert("launch"@[0] == 'l');
        assert("attach"@[0] == 'a');
        assert("launch"@ != "attach"@);
    }
    if !str_eq(adapter, "netcoredbg") {
        return Err(ClassifyError::UnknownAdapter(String::from_str(adapter)));
    }
    let fields = match config {
        JsonValue::Obj(fields) => fields,
        _ => {
            return Err(ClassifyError::MissingRequestField);
        },
    };
    let looked = obj_lookup(fields, "request");
    match looked {
        Some(jv) => match jv {
            JsonValue::Str(s) => {
                proof {
                    assert(request_str(*config) == Some(s@));
                }
                if str_eq(s.as_str(), "launch") {
                    Ok(RequestKind::Launch)
                } else if str_eq(s.as_str(), "attach") {
                    Ok(RequestKind::Attach)
                } else {
                    proof {
                        assert(s@ != "launch"@ && s@ != "attach"@);
                    }
                    Err(ClassifyError::InvalidRequestKind(s.clone()))
                }
            },
            _ => {
                proof {
                    assert(request_str(*config) is None);
                }
                Err(ClassifyError::MissingRequestField)
            },
        },
        None => {
            proof {
                assert(request_str(*config) is None);
            }
            Err(ClassifyError::MissingRequestField)
        },
    }
}

/// A generic launch request as the editor hands it over.
#[derive(Debug, Clone, PartialEq)]
pub struct LaunchRequest {
    pub program: String,
    pub cwd: Option<String>,
    pub args: Vec<String>,
    pub envs: Vec<(String, String)>,
}

/// A generic attach request as the editor hands it over.
#[derive(Debug, Clone, PartialEq, Eq)]
pub struct AttachRequest {
    pub process_id: Option<u64>,
}

/// The editor's generic description of what to debug.
#[derive(Debug, Clone, PartialEq)]
pub enum GenericDebugRequest {
    Launch(LaunchRequest),
    Attach(AttachRequest),
}

/// The configuration a generic launch request denotes: program, working
/// directory, environment and stop-on-entry pass through; an empty argument
/// list becomes an absent member; nothing else is set.
pub open spec fn launch_config_model(l: LaunchRequest, stop: Option<bool>) -> ConfigModel {
    ConfigModel {
        request: "launch"@,
        program: Some(l.program@),
        args: if l.args@.len() == 0 {
            None
        } else {
            Some(views_of(l.args@))
        },
        cwd: opt_str_view(l.cwd),
        env: pair_views_of(l.envs@),
        stop_at_entry: stop,
        process_id: None,
        just_my_code: None,
        enable_step_filtering: None,
    }
}

/// The configuration a generic attach request with an in-range id denotes:
/// only the integer process id and stop-on-entry are set.
pub open spec fn attach_config_model(pid: int, stop: Option<bool>) -> ConfigModel {
    ConfigModel {
        request: "attach"@,
        program: None,
        args: None,
        cwd: None,
        env: Seq::empty(),
        stop_at_entry: stop,
        process_id: Some(PidModel::Int(pid)),
        just_my_code: None,
        enable_step_filtering: None,
    }
}

/// Why a generic request could not become a scenario.
#[derive(Debug, Clone, Copy, PartialEq, Eq, Structural)]
pub enum ScenarioError {
    /// Attach mode requires selecting a target process.
    MissingProcessId,
    /// The selected process id does not fit the schema's 32-bit integer.
    ProcessIdOverflow(u64),
}

/// Builds a launch scenario's configuration text: never fails. An empty
/// argument list is normalized to an absent `args` member; `processId`,
/// `justMyCode` and `enableStepFiltering` are left absent.
pub fn build_launch_scenario(launch: LaunchRequest, stop_on_entry: Option<bool>) -> (r: Result<
    String,
    ScenarioError,
>)
    ensures
        r is Ok,
        r->Ok_0@ == config_text(launch_config_model(launch, stop_on_entry)),
{
    let cfg = NetCoreDbgDebugConfig {
        request: String::from_str("launch"),
        program: Some(launch.program),
        args: if launch.args.len() == 0 {
            None
        } else {
            Some(launch.args)
        },
        cwd: launch.cwd,
        env: launch.envs,
        stop_at_entry: stop_on_entry,
        process_id: None,
        just_my_code: None,
        enable_step_filtering: None,
    };
    proof {
        assert(config_view(cfg) == launch_config_model(launch, stop_on_entry));
    }
    Ok(to_json_text(&cfg))
}

/// Builds an attach scenario's configuration text. Fails when no process was
/// selected, or when the id exceeds the schema's 32-bit signed integer; in
/// range, the id is emitted as the integer variant exactly.
pub fn build_attach_scenario(attach: AttachRequest, stop_on_entry: Option<bool>) -> (r: Result<
    String,
    ScenarioError,
>)
    ensures
        attach.process_id is None <==> r == Err::<String, ScenarioError>(ScenarioError::MissingProcessId),
        (attach.process_id matches Some(p) && p > 2147483647) <==> r == Err::<String, ScenarioError>(
            ScenarioError::ProcessIdOverflow(attach.process_id->Some_0),
        ),
        (attach.process_id matches Some(p) && p <= 2147483647) <==> r is Ok,
        r is Ok ==> r->Ok_0@ == config_text(
            attach_config_model(attach.process_id->Some_0 as int, stop_on_entry),
        ),
{
    let pid = match attach.process_id {
        None => {
            return Err(ScenarioError::MissingProcessId);
        },
        Some(p) => p,
    };
    if pid > 2147483647 {
        return Err(ScenarioError::ProcessIdOverflow(pid));
    }
    let cfg = NetCoreDbgDebugConfig {
        request: String::from_str("attach"),
        program: None,
        args: None,
        cwd: None,
        env: Vec::new(),
        stop_at_entry: stop_on_entry,
        process_id: Some(ProcessId::Int(pid as i32)),
        just_my_code: None,
        enable_step_filtering: None,
    };
    proof {
        assert(pair_views_of(cfg.env@) =~= Seq::<(Seq<char>, Seq<char>)>::empty());
        assert(config_view(cfg) == attach_config_model(pid as int, stop_on_entry));
    }
    Ok(to_json_text(&cfg))
}

/// Builds the scenario configuration text for either kind of generic
/// request: launch requests always succeed, attach requests need an
/// in-range process id.
pub fn build_scenario(request: GenericDebugRequest, stop_on_entry: Option<bool>) -> (r: Result<
    String,
    ScenarioError,
>)
    ensures
        request matches GenericDebugRequest::Launch(l) ==> r is Ok && r->Ok_0@ == config_text(
            launch_config_model(l, stop_on_entry),
        ),
        request matches GenericDebugRequest::Attach(a) ==> {
            &&& (a.process_id is None <==> r == Err::<String, ScenarioError>(
                ScenarioError::MissingProcessId,
            ))
            &&& ((a.process_id matches Some(p) && p > 2147483647) <==> r == Err::<
                String,
                ScenarioError,
            >(ScenarioError::ProcessIdOverflow(a.process_id->Some_0)))
            &&& ((a.process_id matches Some(p) && p <= 2147483647) <==> r is Ok)
            &&& r is Ok ==> r->Ok_0@ == config_text(
                attach_config_model(a.process_id->Some_0 as int, stop_on_entry),
            )
        },
{
    match request {
        GenericDebugRequest::Launch(launch) => build_launch_scenario(launch, stop_on_entry),
        GenericDebugRequest::Attach(attach) => build_attach_scenario(attach, stop_on_entry),
    }
}

#[verifier::external_type_specification]
#[verifier::external_body]
pub struct ExSerdeJsonValue(serde_json::Value);

/// What parsing a configuration text yields: the library's model of the
/// JSON value the text denotes, or nothing when the text is not well-formed
/// JSON. The result is a function of the text alone.
pub uninterp spec fn parsed_json(s: Seq<char>) -> Option<JsonValue>;

/// Relies on serde_json::Value: each variant of the parsed tree is mapped,
/// one arm per variant, onto the library's own JSON model. Numbers outside
/// the signed 64-bit integers keep their decimal rendering as text.
#[verifier::external_body]
fn model_of_value(v: serde_json::Value) -> JsonValue {
    match v {
        serde_json::Value::Null => JsonValue::Null,
        serde_json::Value::Bool(b) => JsonValue::Bool(b),
        serde_json::Value::Number(n) => match n.as_i64() {
            Some(i) => JsonValue::Int(i),
            None => JsonValue::OtherNum(n.to_string()),
        },
        serde_json::Value::String(s) => JsonValue::Str(s),
        serde_json::Value::Array(a) => JsonValue::Arr(
            a.into_iter().map(model_of_value).collect(),
        ),
        serde_json::Value::Object(m) => JsonValue::Obj(
            m.into_iter().map(|(k, x)| (k, model_of_value(x))).collect(),
        ),
    }
}

/// Relies on serde_json::from_str: well-formed JSON text parses to exactly
/// one value, and malformed text is rejected with a diagnostic.
#[verifier::external_body]
fn parse_json_text(text: &str) -> (r: Result<JsonValue, String>)
    ensures
        r is Ok <==> parsed_json(text@) is Some,
        r is Ok ==> r->Ok_0 == parsed_json(text@)->Some_0,
{
    match serde_json::from_str::<serde_json::Value>(text) {
        Ok(v) => Ok(model_of_value(v)),
        Err(e) => Err(e.to_string()),
    }
}

/// The adapter invocation descriptor: the resolved command, its fixed
/// argument list, the environment pairs, the effective working directory,
/// and the pass-through of the original configuration text with its kind.
#[derive(Debug, Clone, PartialEq)]
pub struct DebugAdapterDescriptor {
    pub command: String,
    pub arguments: Vec<String>,
    pub envs: Vec<(String, String)>,
    pub cwd: String,
    pub configuration: String,
    pub request: RequestKind,
}

/// Why a task definition could not be translated.
#[derive(Debug, Clone, PartialEq, Eq)]
pub enum TranslateError {
    /// The task was addressed to an adapter this crate does not serve.
    UnknownAdapter(String),
    /// The configuration is not well-formed JSON; carries the parser's
    /// diagnostic.
    ConfigParse(String),
    /// The configuration violates the adapter schema.
    InvalidConfig(ConfigError),
    /// `request` holds a string other than `launch` or `attach`.
    InvalidRequestKind(String),
}

/// What the descriptor promises about a well-translated task.
pub open spec fn descriptor_matches(
    d: DebugAdapterDescriptor,
    m: ConfigModel,
    kind: RequestKind,
    command: Seq<char>,
    text: Seq<char>,
    fallback: Seq<char>,
) -> bool {
    &&& d.command@ == command
    &&& d.arguments@.len() == 1
    &&& d.arguments@[0]@ == "--interpreter=vscode"@
    &&& pair_views_of(d.envs@) == m.env
    &&& d.cwd@ == (match m.cwd {
        Some(c) => c,
        None => fallback,
    })
    &&& d.configuration@ == text
    &&& d.request == kind
}

/// Translates a task definition into the adapter invocation descriptor.
///
/// The configuration text is the one validation gate: it must be well-formed
/// JSON and conform to the adapter schema. The working directory falls back
/// to `cwd_fallback` only when `cwd` is absent. `command` is the adapter
/// binary obtained from the binary resolver; translation itself performs no
/// resolution.
pub fn translate_to_adapter_binary_request(
    adapter: &str,
    config_text: &str,
    command: String,
    cwd_fallback: &str,
) -> (r: Result<DebugAdapterDescriptor, TranslateError>)
    ensures
        adapter@ != "netcoredbg"@ ==> (r matches Err(TranslateError::UnknownAdapter(a)) && a@
            == adapter@),
        adapter@ == "netcoredbg"@ ==> ({
            let pj = parsed_json(config_text@);
            &&& (pj is None <==> (r matches Err(TranslateError::ConfigParse(_))))
            &&& (pj is Some && parse_spec(pj->Some_0) is Err) ==> r == Err::<DebugAdapterDescriptor, TranslateError>(
                TranslateError::InvalidConfig(parse_spec(pj->Some_0)->Err_0),
            )
            &&& (pj is Some && parse_spec(pj->Some_0) is Ok) ==> ({
                let m = parse_spec(pj->Some_0)->Ok_0;
                if m.request == "launch"@ {
                    r is Ok && descriptor_matches(
                        r->Ok_0,
                        m,
                        RequestKind::Launch,
                        command@,
                        config_text@,
                        cwd_fallback@,
                    )
                } else if m.request == "attach"@ {
                    r is Ok && descriptor_matches(
                        r->Ok_0,
                        m,
                        RequestKind::Attach,
                        command@,
                        config_text@,
                        cwd_fallback@,
                    )
                } else {
                    r matches Err(TranslateError::InvalidRequestKind(w)) && w@ == m.request
                }
            })
        }),
{
    if !str_eq(adapter, "netcoredbg") {
        return Err(TranslateError::UnknownAdapter(String::from_str(adapter)));
    }
    let v = match parse_json_text(config_text) {
        Ok(v) => v,
        Err(msg) => {
            return Err(TranslateError::ConfigParse(msg));
        },
    };
    let cfg = match config_from_json(&v) {
        Ok(c) => c,
        Err(e) => {
            return Err(TranslateError::InvalidConfig(e));
        },
    };
    let kind = if str_eq(cfg.request.as_str(), "launch") {
        RequestKind::Launch
    } else if str_eq(cfg.request.as_str(), "attach") {
        RequestKind::Attach
    } else {
        return Err(TranslateError::InvalidRequestKind(cfg.request));
    };
    let cwd = match cfg.cwd {
        Some(c) => c,
        None => String::from_str(cwd_fallback),
    };
    let mut arguments: Vec<String> = Vec::new();
    arguments.push(String::from_str("--interpreter=vscode"));
    Ok(
        DebugAdapterDescriptor {
            command,
            arguments,
            envs: cfg.env,
            cwd,
            configuration: String::from_str(config_text),
            request: kind,
        },
    )
}

/// Law: the two validation tiers agree. Any value that passes the strict
/// parse exposes to the classifier exactly the `request` text the parse read,
/// so classification of a fully valid configuration never reports the
/// request member missing.
pub proof fn lemma_parse_classify_agree(v: JsonValue)
    requires
        parse_spec(v) is Ok,
    ensures
        request_str(v) == Some(parse_spec(v)->Ok_0.request),
{
}

/// Law: round trip of a launch request. Any JSON value that validates to the
/// configuration built from a generic launch request classifies as Launch,
/// and carries the original program, working directory and environment
/// unchanged.
pub proof fn lemma_launch_round_trip(
    launch: LaunchRequest,
    stop_on_entry: Option<bool>,
    v: JsonValue,
)
    requires
        parse_spec(v) == Ok::<ConfigModel, ConfigError>(
            launch_config_model(launch, stop_on_entry),
        ),
    ensures
        request_str(v) == Some("launch"@),
        parse_spec(v)->Ok_0.program == Some(launch.program@),
        parse_spec(v)->Ok_0.cwd == crate::config::opt_str_view(launch.cwd),
        parse_spec(v)->Ok_0.env == pair_views_of(launch.envs@),
{
    lemma_parse_classify_agree(v);
}

} // verus!
