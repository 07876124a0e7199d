//! The adapter's native configuration schema and its strict validation.
//!
//! A generic JSON value is checked against the schema field by field; the
//! result is a typed configuration record. Unknown members are ignored, a
//! `null` stands for an absent optional field, and every violation is a typed
//! error naming the offending field.

use crate::json::{lookup, obj_lookup, JsonValue};
use crate::text::{append_dec_i32, append_quoted, dec_int, quoted};
use vstd::prelude::*;

verus! {

/// A process id as the adapter schema carries it: a 32-bit signed integer,
/// or the same number as a string of decimal digits.
#[derive(Debug, Clone, PartialEq, Eq)]
pub enum ProcessId {
    Int(i32),
    Str(String),
}

/// The adapter's native configuration record. `request` is mandatory;
/// every other field is optional and omitted from the wire form when absent
/// (`env` when empty).
#[derive(Debug, Clone, PartialEq)]
pub struct NetCoreDbgDebugConfig {
    pub request: String,
    pub program: Option<String>,
    pub args: Option<Vec<String>>,
    pub cwd: Option<String>,
    pub env: Vec<(String, String)>,
    pub stop_at_entry: Option<bool>,
    pub process_id: Option<ProcessId>,
    pub just_my_code: Option<bool>,
    pub enable_step_filtering: Option<bool>,
}

/// The mathematical value of a process id.
pub enum PidModel {
    Int(int),
    Str(Seq<char>),
}

/// The mathematical value of a configuration record.
pub struct ConfigModel {
    pub request: Seq<char>,
    pub program: Option<Seq<char>>,
    pub args: Option<Seq<Seq<char>>>,
    pub cwd: Option<Seq<char>>,
    pub env: Seq<(Seq<char>, Seq<char>)>,
    pub stop_at_entry: Option<bool>,
    pub process_id: Option<PidModel>,
    pub just_my_code: Option<bool>,
    pub enable_step_filtering: Option<bool>,
}

/// The characters of each string in a sequence.
pub open spec fn views_of(a: Seq<String>) -> Seq<Seq<char>> {
    a.map(|i: int, s: String| s@)
}

/// The characters of each pair of strings in a sequence.
pub open spec fn pair_views_of(a: Seq<(String, String)>) -> Seq<(Seq<char>, Seq<char>)> {
    a.map(|i: int, p: (String, String)| (p.0@, p.1@))
}

/// The characters of an optional string.
pub open spec fn opt_str_view(v: Option<String>) -> Option<Seq<char>> {
    match v {
        Some(s) => Some(s@),
        None => None,
    }
}

/// The model a process id stands for.
pub open spec fn pid_view(p: ProcessId) -> PidModel {
    match p {
        ProcessId::Int(i) => PidModel::Int(i as int),
        ProcessId::Str(s) => PidModel::Str(s@),
    }
}

/// The model a configuration record stands for.
pub open spec fn config_view(c: NetCoreDbgDebugConfig) -> ConfigModel {
    ConfigModel {
        request: c.request@,
        program: opt_str_view(c.program),
        args: match c.args {
            Some(a) => Some(views_of(a@)),
            None => None,
        },
        cwd: opt_str_view(c.cwd),
        env: pair_views_of(c.env@),
        stop_at_entry: c.stop_at_entry,
        process_id: match c.process_id {
            Some(p) => Some(pid_view(p)),
            None => None,
        },
        just_my_code: c.just_my_code,
        enable_step_filtering: c.enable_step_filtering,
    }
}

/// A field of the adapter schema, named in shape errors.
#[derive(Debug, Clone, Copy, PartialEq, Eq, Structural)]
pub enum FieldName {
    Request,
    Program,
    Args,
    Cwd,
    Env,
    StopAtEntry,
    ProcessId,
    JustMyCode,
    EnableStepFiltering,
}

/// Why a generic JSON value violates the adapter schema.
#[derive(Debug, Clone, Copy, PartialEq, Eq, Structural)]
pub enum ConfigError {
    /// The configuration is not a JSON object.
    NotAnObject,
    /// The mandatory `request` member is absent.
    MissingRequest,
    /// A known member holds a value of the wrong JSON type.
    WrongFieldType(FieldName),
    /// An integer process id outside the 32-bit signed range.
    ProcessIdOutOfRange(i64),
    /// A string process id that is not all decimal digits.
    ProcessIdNotNumeric,
}

/// Whether `s` is a non-empty run of decimal digits.
pub open spec fn spec_is_numeric(s: Seq<char>) -> bool {
    s.len() > 0 && forall|i: int| 0 <= i < s.len() ==> '0' <= #[trigger] s[i] <= '9'
}

/// An optional string member: absent, `null`, or a string.
pub open spec fn opt_string_ok(fs: Seq<(String, JsonValue)>, name: Seq<char>) -> bool {
    match lookup(fs, name) {
        None => true,
        Some(JsonValue::Null) => true,
        Some(JsonValue::Str(_)) => true,
        Some(_) => false,
    }
}

/// The value of an optional string member, when present.
pub open spec fn opt_string_val(fs: Seq<(String, JsonValue)>, name: Seq<char>) -> Option<
    Seq<char>,
> {
    match lookup(fs, name) {
        Some(JsonValue::Str(s)) => Some(s@),
        _ => None,
    }
}

/// An optional boolean member: absent, `null`, or a boolean.
pub open spec fn opt_bool_ok(fs: Seq<(String, JsonValue)>, name: Seq<char>) -> bool {
    match lookup(fs, name) {
        None => true,
        Some(JsonValue::Null) => true,
        Some(JsonValue::Bool(_)) => true,
        Some(_) => false,
    }
}

/// The value of an optional boolean member, when present.
pub open spec fn opt_bool_val(fs: Seq<(String, JsonValue)>, name: Seq<char>) -> Option<bool> {
    match lookup(fs, name) {
        Some(JsonValue::Bool(b)) => Some(b),
        _ => None,
    }
}

/// Whether every element of `a` is a JSON string.
pub open spec fn all_strings(a: Seq<JsonValue>) -> bool {
    forall|i: int| 0 <= i < a.len() ==> (#[trigger] a[i]) is Str
}

/// The characters of each element of a sequence of JSON strings.
pub open spec fn str_seq_of(a: Seq<JsonValue>) -> Seq<Seq<char>> {
    a.map(|i: int, v: JsonValue| v->Str_0@)
}

/// The `args` member: absent, `null`, or an array of strings.
pub open spec fn args_ok(fs: Seq<(String, JsonValue)>) -> bool {
    match lookup(fs, "args"@) {
        None => true,
        Some(JsonValue::Null) => true,
        Some(JsonValue::Arr(a)) => all_strings(a@),
        Some(_) => false,
    }
}

/// The value of the `args` member, when present.
pub open spec fn args_val(fs: Seq<(String, JsonValue)>) -> Option<Seq<Seq<char>>> {
    match lookup(fs, "args"@) {
        Some(JsonValue::Arr(a)) => Some(str_seq_of(a@)),
        _ => None,
    }
}

/// Whether every member of `m` holds a JSON string.
pub open spec fn all_string_members(m: Seq<(String, JsonValue)>) -> bool {
    forall|i: int| 0 <= i < m.len() ==> (#[trigger] m[i]).1 is Str
}

/// The key/value characters of each member of an all-string object.
pub open spec fn pair_seq_of(m: Seq<(String, JsonValue)>) -> Seq<(Seq<char>, Seq<char>)> {
    m.map(|i: int, p: (String, JsonValue)| (p.0@, p.1->Str_0@))
}

/// The `env` member: absent, or an object whose members are all strings.
/// Unlike the other optional fields, a `null` is not accepted: the schema's
/// environment defaults to an empty mapping only when the member is missing.
pub open spec fn env_ok(fs: Seq<(String, JsonValue)>) -> bool {
    match lookup(fs, "env"@) {
        None => true,
        Some(JsonValue::Obj(m)) => all_string_members(m@),
        Some(_) => false,
    }
}

/// The entries of the `env` member; empty when it is absent.
pub open spec fn env_val(fs: Seq<(String, JsonValue)>) -> Seq<(Seq<char>, Seq<char>)> {
    match lookup(fs, "env"@) {
        Some(JsonValue::Obj(m)) => pair_seq_of(m@),
        _ => Seq::empty(),
    }
}

/// The `processId` member: absent or `null` for none, an integer in the
/// 32-bit signed range, or a string of decimal digits.
pub open spec fn pid_result(fs: Seq<(String, JsonValue)>) -> Result<Option<PidModel>, ConfigError> {
    match lookup(fs, "processId"@) {
        None => Ok(None),
        Some(JsonValue::Null) => Ok(None),
        Some(JsonValue::Int(i)) => if -2147483648 <= i as int <= 2147483647 {
            Ok(Some(PidModel::Int(i as int)))
        } else {
            Err(ConfigError::ProcessIdOutOfRange(i))
        },
        Some(JsonValue::Str(s)) => if spec_is_numeric(s@) {
            Ok(Some(PidModel::Str(s@)))
        } else {
            Err(ConfigError::ProcessIdNotNumeric)
        },
        Some(_) => Err(ConfigError::WrongFieldType(FieldName::ProcessId)),
    }
}

/// The strict reading of a generic JSON value as an adapter configuration:
/// the model it denotes, or the first schema violation in field order.
pub open spec fn parse_spec(v: JsonValue) -> Result<ConfigModel, ConfigError> {
    match v {
        JsonValue::Obj(fields) => {
            let fs = fields@;
            if lookup(fs, "request"@) is None {
                Err(ConfigError::MissingRequest)
            } else if !(lookup(fs, "request"@) matches Some(JsonValue::Str(_))) {
                Err(ConfigError::WrongFieldType(FieldName::Request))
            } else if !opt_string_ok(fs, "program"@) {
                Err(ConfigError::WrongFieldType(FieldName::Program))
            } else if !args_ok(fs) {
                Err(ConfigError::WrongFieldType(FieldName::Args))
            } else if !opt_string_ok(fs, "cwd"@) {
                Err(ConfigError::WrongFieldType(FieldName::Cwd))
            } else if !env_ok(fs) {
                Err(ConfigError::WrongFieldType(FieldName::Env))
            } else if !opt_bool_ok(fs, "stopAtEntry"@) {
                Err(ConfigError::WrongFieldType(FieldName::StopAtEntry))
            } else if pid_result(fs) is Err {
                Err(pid_result(fs)->Err_0)
            } else if !opt_bool_ok(fs, "justMyCode"@) {
                Err(ConfigError::WrongFieldType(FieldName::JustMyCode))
            } else if !opt_bool_ok(fs, "enableStepFiltering"@) {
                Err(ConfigError::WrongFieldType(FieldName::EnableStepFiltering))
            } else {
                Ok(
                    ConfigModel {
                        request: lookup(fs, "request"@)->Some_0->Str_0@,
                        program: opt_string_val(fs, "program"@),
                        args: args_val(fs),
                        cwd: opt_string_val(fs, "cwd"@),
                        env: env_val(fs),
                        stop_at_entry: opt_bool_val(fs, "stopAtEntry"@),
                        process_id: pid_result(fs)->Ok_0,
                        just_my_code: opt_bool_val(fs, "justMyCode"@),
                        enable_step_filtering: opt_bool_val(fs, "enableStepFiltering"@),
                    },
                )
            }
        },
        _ => Err(ConfigError::NotAnObject),
    }
}

/// Whether `s` is a non-empty run of decimal digits.
pub fn is_numeric(s: &str) -> (r: bool)
    ensures
        r == spec_is_numeric(s@),
{
    let n = vstd::string::StrSliceExecFns::unicode_len(s);
    if n == 0 {
        return false;
    }
    let mut i: usize = 0;
    while i < n
        invariant
            n == s@.len(),
            0 < n,
            i <= n,
            forall|j: int| 0 <= j < i ==> '0' <= #[trigger] s@[j] <= '9',
        decreases n - i,
    {
        let c = vstd::string::StrSliceExecFns::get_char(s, i);
        if !('0' <= c && c <= '9') {
            return false;
        }
        i = i + 1;
    }
    true
}

/// Reads an optional string member; `Err(())` when it has the wrong type.
fn take_opt_string(fields: &Vec<(String, JsonValue)>, name: &str) -> (r: Result<
    Option<String>,
    (),
>)
    ensures
        r is Ok <==> opt_string_ok(fields@, name@),
        r is Ok ==> (match r->Ok_0 {
            Some(s) => opt_string_val(fields@, name@) == Some(s@),
            None => opt_string_val(fields@, name@) is None,
        }),
{
    match obj_lookup(fields, name) {
        None => Ok(None),
        Some(JsonValue::Null) => Ok(None),
        Some(JsonValue::Str(s)) => Ok(Some(s.clone())),
        Some(_) => Err(()),
    }
}

/// Reads an optional boolean member; `Err(())` when it has the wrong type.
fn take_opt_bool(fields: &Vec<(String, JsonValue)>, name: &str) -> (r: Result<Option<bool>, ()>)
    ensures
        r is Ok <==> opt_bool_ok(fields@, name@),
        r is Ok ==> r->Ok_0 == opt_bool_val(fields@, name@),
{
    match obj_lookup(fields, name) {
        None => Ok(None),
        Some(JsonValue::Null) => Ok(None),
        Some(JsonValue::Bool(b)) => Ok(Some(*b)),
        Some(_) => Err(()),
    }
}

/// Copies an array of JSON strings out as plain strings;
/// `Err(())` when some element is not a string.
fn take_string_array(a: &Vec<JsonValue>) -> (r: Result<Vec<String>, ()>)
    ensures
        r is Ok <==> all_strings(a@),
        r is Ok ==> r->Ok_0@.len() == a@.len(),
        r is Ok ==> forall|j: int|
            0 <= j < a@.len() ==> (#[trigger] r->Ok_0@[j])@ == a@[j]->Str_0@,
{
    let mut out: Vec<String> = Vec::new();
    let mut i: usize = 0;
    while i < a.len()
        invariant
            i <= a@.len(),
            out@.len() == i,
            forall|j: int| 0 <= j < i ==> (#[trigger] a@[j]) is Str,
            forall|j: int| 0 <= j < i ==> (#[trigger] out@[j])@ == a@[j]->Str_0@,
        decreases a@.len() - i,
    {
        match &a[i] {
            JsonValue::Str(s) => {
                out.push(s.clone());
            },
            _ => {
                return Err(());
            },
        }
        i = i + 1;
    }
    Ok(out)
}

/// Copies an all-string JSON object out as key/value pairs;
/// `Err(())` when some member is not a string.
fn take_string_pairs(m: &Vec<(String, JsonValue)>) -> (r: Result<Vec<(String, String)>, ()>)
    ensures
        r is Ok <==> all_string_members(m@),
        r is Ok ==> r->Ok_0@.len() == m@.len(),
        r is Ok ==> forall|j: int|
            0 <= j < m@.len() ==> (#[trigger] r->Ok_0@[j]).0@ == m@[j].0@ && r->Ok_0@[j].1@
                == m@[j].1->Str_0@,
{
    let mut out: Vec<(String, String)> = Vec::new();
    let mut i: usize = 0;
    while i < m.len()
        invariant
            i <= m@.len(),
            out@.len() == i,
            forall|j: int| 0 <= j < i ==> (#[trigger] m@[j]).1 is Str,
            forall|j: int| 0 <= j < i ==> (#[trigger] out@[j]).0@ == m@[j].0@ && out@[j].1@
                == m@[j].1->Str_0@,
        decreases m@.len() - i,
    {
        match &m[i].1 {
            JsonValue::Str(s) => {
                out.push((m[i].0.clone(), s.clone()));
            },
            _ => {
                return Err(());
            },
        }
        i = i + 1;
    }
    Ok(out)
}

/// Checks a generic JSON value strictly against the adapter schema and
/// returns the typed configuration it denotes, or the first violation.
pub fn config_from_json(v: &JsonValue) -> (r: Result<NetCoreDbgDebugConfig, ConfigError>)
    ensures
        r is Ok <==> parse_spec(*v) is Ok,
        r is Err ==> r->Err_0 == parse_spec(*v)->Err_0,
        r is Ok ==> config_view(r->Ok_0) == parse_spec(*v)->Ok_0,
{
    let fields = match v {
        JsonValue::Obj(fields) => fields,
        _ => {
            return Err(ConfigError::NotAnObject);
        },
    };
    let request = match obj_lookup(fields, "request") {
        None => {
            return Err(ConfigError::MissingRequest);
        },
        Some(JsonValue::Str(s)) => s.clone(),
        Some(_) => {
            return Err(ConfigError::WrongFieldType(FieldName::Request));
        },
    };
    let program = match take_opt_string(fields, "program") {
        Ok(p) => p,
        Err(()) => {
            return Err(ConfigError::WrongFieldType(FieldName::Program));
        },
    };
    let args = match obj_lookup(fields, "args") {
        None => None,
        Some(JsonValue::Null) => None,
        Some(JsonValue::Arr(a)) => match take_string_array(a) {
            Ok(xs) => Some(xs),
            Err(()) => {
                return Err(ConfigError::WrongFieldType(FieldName::Args));
            },
        },
        Some(_) => {
            return Err(ConfigError::WrongFieldType(FieldName::Args));
        },
    };
    let cwd = match take_opt_string(fields, "cwd") {
        Ok(p) => p,
        Err(()) => {
            return Err(ConfigError::WrongFieldType(FieldName::Cwd));
        },
    };
    let env = match obj_lookup(fields, "env") {
        None => Vec::new(),
        Some(JsonValue::Obj(m)) => match take_string_pairs(m) {
            Ok(ps) => ps,
            Err(()) => {
                return Err(ConfigError::WrongFieldType(FieldName::Env));
            },
        },
        Some(_) => {
            return Err(ConfigError::WrongFieldType(FieldName::Env));
        },
    };
    let stop_at_entry = match take_opt_bool(fields, "stopAtEntry") {
        Ok(b) => b,
        Err(()) => {
            return Err(ConfigError::WrongFieldType(FieldName::StopAtEntry));
        },
    };
    let process_id = match obj_lookup(fields, "processId") {
        None => None,
        Some(JsonValue::Null) => None,
        Some(JsonValue::Int(i)) => {
            if -2147483648 <= *i && *i <= 2147483647 {
                Some(ProcessId::Int(*i as i32))
            } else {
                return Err(ConfigError::ProcessIdOutOfRange(*i));
            }
        },
        Some(JsonValue::Str(s)) => {
            if is_numeric(s.as_str()) {
                Some(ProcessId::Str(s.clone()))
            } else {
                return Err(ConfigError::ProcessIdNotNumeric);
            }
        },
        Some(_) => {
            return Err(ConfigError::WrongFieldType(FieldName::ProcessId));
        },
    };
    let just_my_code = match take_opt_bool(fields, "justMyCode") {
        Ok(b) => b,
        Err(()) => {
            return Err(ConfigError::WrongFieldType(FieldName::JustMyCode));
        },
    };
    let enable_step_filtering = match take_opt_bool(fields, "enableStepFiltering") {
        Ok(b) => b,
        Err(()) => {
            return Err(ConfigError::WrongFieldType(FieldName::EnableStepFiltering));
        },
    };
    let cfg = NetCoreDbgDebugConfig {
        request,
        program,
        args,
        cwd,
        env,
        stop_at_entry,
        process_id,
        just_my_code,
        enable_step_filtering,
    };
    proof {
        let fs = fields@;
        let m = parse_spec(*v)->Ok_0;
        let cv = config_view(cfg);
        assert(cv.request == m.request);
        assert(cv.program == m.program);
        assert(cv.cwd == m.cwd);
        assert(cv.args == m.args) by {
            match lookup(fs, "args"@) {
                Some(JsonValue::Arr(a)) => {
                    assert(cv.args->Some_0 =~= str_seq_of(a@));
                },
                _ => {},
            }
        }
        assert(cv.env == m.env) by {
            match lookup(fs, "env"@) {
                Some(JsonValue::Obj(mm)) => {
                    assert forall|j: int| 0 <= j < cv.env.len() implies #[trigger] cv.env[j]
                        == pair_seq_of(mm@)[j] by {
                        assert(cv.env[j] == (cfg.env@[j].0@, cfg.env@[j].1@));
                    }
                    assert(cv.env =~= pair_seq_of(mm@));
                },
                _ => {
                    assert(cv.env =~= Seq::<(Seq<char>, Seq<char>)>::empty());
                },
            }
        }
        assert(cv.stop_at_entry == m.stop_at_entry);
        assert(cv.process_id == m.process_id);
        assert(cv.just_my_code == m.just_my_code);
        assert(cv.enable_step_filtering == m.enable_step_filtering);
        assert(cv == m);
    }
    Ok(cfg)
}

/// The wire form of one optional string field, comma included; empty when absent.
pub open spec fn opt_str_part(name: Seq<char>, v: Option<Seq<char>>) -> Seq<char> {
    match v {
        None => Seq::empty(),
        Some(s) => seq![','] + quoted(name) + seq![':'] + quoted(s),
    }
}

/// The wire form of one optional boolean field, comma included; empty when absent.
pub open spec fn opt_bool_part(name: Seq<char>, v: Option<bool>) -> Seq<char> {
    match v {
        None => Seq::empty(),
        Some(b) => seq![','] + quoted(name) + seq![':'] + (if b {
            "true"@
        } else {
            "false"@
        }),
    }
}

/// The elements of a JSON array of strings, separated by commas.
pub open spec fn join_quoted(a: Seq<Seq<char>>) -> Seq<char>
    decreases a.len(),
{
    if a.len() == 0 {
        Seq::empty()
    } else if a.len() == 1 {
        quoted(a[0])
    } else {
        join_quoted(a.drop_last()) + seq![','] + quoted(a.last())
    }
}

/// The wire form of the `args` field; empty when absent.
pub open spec fn args_part(v: Option<Seq<Seq<char>>>) -> Seq<char> {
    match v {
        None => Seq::empty(),
        Some(a) => seq![','] + quoted("args"@) + seq![':', '['] + join_quoted(a) + seq![']'],
    }
}

/// The members of a JSON object of strings, separated by commas.
pub open spec fn join_pairs(m: Seq<(Seq<char>, Seq<char>)>) -> Seq<char>
    decreases m.len(),
{
    if m.len() == 0 {
        Seq::empty()
    } else if m.len() == 1 {
        quoted(m[0].0) + seq![':'] + quoted(m[0].1)
    } else {
        join_pairs(m.drop_last()) + seq![','] + quoted(m.last().0) + seq![':'] + quoted(
            m.last().1,
        )
    }
}

/// The wire form of the `env` field; empty when the mapping is empty.
pub open spec fn env_part(m: Seq<(Seq<char>, Seq<char>)>) -> Seq<char> {
    if m.len() == 0 {
        Seq::empty()
    } else {
        seq![','] + quoted("env"@) + seq![':', '{'] + join_pairs(m) + seq!['}']
    }
}

/// The wire form of the `processId` field; empty when absent. An integer id
/// is emitted as a bare number, a string id as a JSON string.
pub open spec fn pid_part(v: Option<PidModel>) -> Seq<char> {
    match v {
        None => Seq::empty(),
        Some(PidModel::Int(i)) => seq![','] + quoted("processId"@) + seq![':'] + dec_int(i),
        Some(PidModel::Str(s)) => seq![','] + quoted("processId"@) + seq![':'] + quoted(s),
    }
}

/// The complete wire form of a configuration: a JSON object in schema field
/// order, every absent optional field omitted (`env` omitted when empty).
pub open spec fn config_text(m: ConfigModel) -> Seq<char> {
    seq!['{'] + quoted("request"@) + seq![':'] + quoted(m.request) + opt_str_part(
        "program"@,
        m.program,
    ) + args_part(m.args) + opt_str_part("cwd"@, m.cwd) + env_part(m.env) + opt_bool_part(
        "stopAtEntry"@,
        m.stop_at_entry,
    ) + pid_part(m.process_id) + opt_bool_part("justMyCode"@, m.just_my_code) + opt_bool_part(
        "enableStepFiltering"@,
        m.enable_step_filtering,
    ) + seq!['}']
}

/// Appends `,"<name>":"<value>"` when the field is present.
fn append_opt_str_part(out: &mut String, name: &str, v: &Option<String>)
    ensures
        final(out)@ == old(out)@ + opt_str_part(name@, opt_str_view(*v)),
{
    match v {
        None => {
            proof {
                assert(out@ =~= old(out)@ + opt_str_part(name@, opt_str_view(*v)));
            }
        },
        Some(s) => {
            out.append(",");
            append_quoted(out, name);
            out.append(":");
            append_quoted(out, s.as_str());
            proof {
                reveal_strlit(",");
                reveal_strlit(":");
                assert(","@ =~= seq![',']);
                assert(":"@ =~= seq![':']);
                assert(out@ =~= old(out)@ + opt_str_part(name@, opt_str_view(*v)));
            }
        },
    }
}

/// Appends `,"<name>":true` or `,"<name>":false` when the field is present.
fn append_opt_bool_part(out: &mut String, name: &str, v: &Option<bool>)
    ensures
        final(out)@ == old(out)@ + opt_bool_part(name@, *v),
{
    match v {
        None => {
            proof {
                assert(out@ =~= old(out)@ + opt_bool_part(name@, *v));
            }
        },
        Some(b) => {
            out.append(",");
            append_quoted(out, name);
            out.append(":");
            if *b {
                out.append("true");
            } else {
                out.append("false");
            }
            proof {
                reveal_strlit(",");
                reveal_strlit(":");
                assert(","@ =~= seq![',']);
                assert(":"@ =~= seq![':']);
                assert(out@ =~= old(out)@ + opt_bool_part(name@, *v));
            }
        },
    }
}

/// Appends `["a","b",...]` holding every string of `xs`, in order.
fn append_string_array(out: &mut String, xs: &Vec<String>)
    ensures
        final(out)@ == old(out)@ + seq!['['] + join_quoted(views_of(xs@)) + seq![']'],
{
    out.append("[");
    proof {
        reveal_strlit("[");
        assert("["@ =~= seq!['[']);
        assert(views_of(xs@).take(0).len() == 0);
        assert(out@ =~= old(out)@ + seq!['['] + join_quoted(views_of(xs@).take(0)));
    }
    let n = xs.len();
    let mut i: usize = 0;
    while i < n
        invariant
            n == xs@.len(),
            i <= n,
            out@ == old(out)@ + seq!['['] + join_quoted(views_of(xs@).take(i as int)),
        decreases n - i,
    {
        if i > 0 {
            out.append(",");
        }
        append_quoted(out, xs[i].as_str());
        proof {
            reveal_strlit(",");
            assert(","@ =~= seq![',']);
            let vs = views_of(xs@);
            let pre = vs.take(i as int);
            let p1 = vs.take(i as int + 1);
            assert(p1.drop_last() =~= pre);
            assert(p1.last() == vs[i as int]);
            assert(vs[i as int] == xs@[i as int]@);
            if i == 0 {
                assert(join_quoted(p1) == quoted(vs[0]));
            } else {
                assert(join_quoted(p1) == join_quoted(pre) + seq![','] + quoted(p1.last()));
            }
            assert(out@ =~= old(out)@ + seq!['['] + join_quoted(p1));
        }
        i = i + 1;
    }
    out.append("]");
    proof {
        reveal_strlit("]");
        assert("]"@ =~= seq![']']);
        assert(views_of(xs@).take(n as int) =~= views_of(xs@));
        assert(out@ =~= old(out)@ + seq!['['] + join_quoted(views_of(xs@)) + seq![']']);
    }
}

/// Appends `{"k":"v",...}` holding every pair of `ps`, in order.
fn append_string_pairs(out: &mut String, ps: &Vec<(String, String)>)
    ensures
        final(out)@ == old(out)@ + seq!['{'] + join_pairs(pair_views_of(ps@)) + seq!['}'],
{
    out.append("{");
    proof {
        reveal_strlit("{");
        assert("{"@ =~= seq!['{']);
        assert(pair_views_of(ps@).take(0).len() == 0);
        assert(out@ =~= old(out)@ + seq!['{'] + join_pairs(pair_views_of(ps@).take(0)));
    }
    let n = ps.len();
    let mut i: usize = 0;
    while i < n
        invariant
            n == ps@.len(),
            i <= n,
            out@ == old(out)@ + seq!['{'] + join_pairs(pair_views_of(ps@).take(i as int)),
        decreases n - i,
    {
        if i > 0 {
            out.append(",");
        }
        append_quoted(out, ps[i].0.as_str());
        out.append(":");
        append_quoted(out, ps[i].1.as_str());
        proof {
            reveal_strlit(",");
            reveal_strlit(":");
            assert(","@ =~= seq![',']);
            assert(":"@ =~= seq![':']);
            let vs = pair_views_of(ps@);
            let pre = vs.take(i as int);
            let p1 = vs.take(i as int + 1);
            assert(p1.drop_last() =~= pre);
            assert(p1.last() == vs[i as int]);
            assert(vs[i as int] == (ps@[i as int].0@, ps@[i as int].1@));
            if i == 0 {
                assert(join_pairs(p1) == quoted(vs[0].0) + seq![':'] + quoted(vs[0].1));
            } else {
                assert(join_pairs(p1) == join_pairs(pre) + seq![','] + quoted(p1.last().0) + seq![
                    ':',
                ] + quoted(p1.last().1));
            }
            assert(out@ =~= old(out)@ + seq!['{'] + join_pairs(p1));
        }
        i = i + 1;
    }
    out.append("}");
    proof {
        reveal_strlit("}");
        assert("}"@ =~= seq!['}']);
        assert(pair_views_of(ps@).take(n as int) =~= pair_views_of(ps@));
        assert(out@ =~= old(out)@ + seq!['{'] + join_pairs(pair_views_of(ps@)) + seq!['}']);
    }
}

/// Serializes a configuration record to its exact wire form.
pub fn to_json_text(cfg: &NetCoreDbgDebugConfig) -> (r: String)
    ensures
        r@ == config_text(config_view(*cfg)),
{
    let ghost m = config_view(*cfg);
    let mut out = String::new();
    out.append("{");
    append_quoted(&mut out, "request");
    out.append(":");
    append_quoted(&mut out, cfg.request.as_str());
    proof {
        reveal_strlit("{");
        reveal_strlit(":");
        assert("{"@ =~= seq!['{']);
        assert(":"@ =~= seq![':']);
        assert(out@ =~= seq!['{'] + quoted("request"@) + seq![':'] + quoted(m.request));
    }
    let ghost head = out@;
    append_opt_str_part(&mut out, "program", &cfg.program);
    match &cfg.args {
        None => {
            proof {
                assert(out@ =~= head + opt_str_part("program"@, m.program) + args_part(m.args));
            }
        },
        Some(xs) => {
            out.append(",");
            append_quoted(&mut out, "args");
            out.append(":");
            append_string_array(&mut out, xs);
            proof {
                reveal_strlit(",");
                reveal_strlit(":");
                assert(","@ =~= seq![',']);
                assert(":"@ =~= seq![':']);
                assert(out@ =~= head + opt_str_part("program"@, m.program) + args_part(m.args));
            }
        },
    }
    let ghost head2 = head + opt_str_part("program"@, m.program) + args_part(m.args);
    append_opt_str_part(&mut out, "cwd", &cfg.cwd);
    if cfg.env.len() > 0 {
        out.append(",");
        append_quoted(&mut out, "env");
        out.append(":");
        append_string_pairs(&mut out, &cfg.env);
        proof {
            reveal_strlit(",");
            reveal_strlit(":");
            assert(","@ =~= seq![',']);
            assert(":"@ =~= seq![':']);
            assert(out@ =~= head2 + opt_str_part("cwd"@, m.cwd) + env_part(m.env));
        }
    } else {
        proof {
            assert(m.env.len() == 0);
            assert(out@ =~= head2 + opt_str_part("cwd"@, m.cwd) + env_part(m.env));
        }
    }
    let ghost head3 = head2 + opt_str_part("cwd"@, m.cwd) + env_part(m.env);
    append_opt_bool_part(&mut out, "stopAtEntry", &cfg.stop_at_entry);
    let ghost head4 = head3 + opt_bool_part("stopAtEntry"@, m.stop_at_entry);
    match &cfg.process_id {
        None => {
            proof {
                assert(out@ =~= head4 + pid_part(m.process_id));
            }
        },
        Some(ProcessId::Int(i)) => {
            out.append(",");
            append_quoted(&mut out, "processId");
            out.append(":");
            append_dec_i32(&mut out, *i);
            proof {
                reveal_strlit(",");
                reveal_strlit(":");
                assert(","@ =~= seq![',']);
                assert(":"@ =~= seq![':']);
                assert(out@ =~= head4 + pid_part(m.process_id));
            }
        },
        Some(ProcessId::Str(s)) => {
            out.append(",");
            append_quoted(&mut out, "processId");
            out.append(":");
            append_quoted(&mut out, s.as_str());
            proof {
                reveal_strlit(",");
                reveal_strlit(":");
                assert(","@ =~= seq![',']);
                assert(":"@ =~= seq![':']);
                assert(out@ =~= head4 + pid_part(m.process_id));
            }
        },
    }
    let ghost head5 = head4 + pid_part(m.process_id);
    append_opt_bool_part(&mut out, "justMyCode", &cfg.just_my_code);
    append_opt_bool_part(&mut out, "enableStepFiltering", &cfg.enable_step_filtering);
    out.append("}");
    proof {
        reveal_strlit("}");
        assert("}"@ =~= seq!['}']);
        assert(out@ =~= config_text(m));
    }
    out
}

} // verus!
