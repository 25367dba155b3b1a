//! The AI assistant's tool plans: the fixed plan of each structured intent,
//! the policy gate every candidate plan passes (from the planner or from a
//! model), the evaluation harness, model adapters and telemetry summaries.
//! Tool parameters are carried as their compact JSON text.
use crate::json::{json_quote, json_quote_of};
use crate::text::{
    blen, concat, insert_sorted, strictly_sorted, views, dec_chars, has_control, has_prefix, is_token, starts_with, str_eq, token_ok,
    trim, trim_text, u64_text_of, ByteClass,
};
use vstd::prelude::*;

verus! {

#[derive(Debug, Clone, PartialEq, Eq)]
pub enum AiPlanError {
    Unsupported(String),
    Invalid(String),
}

impl AiPlanError {
    /// The error as the assistant reports it.
    pub fn message(&self) -> (r: String)
        ensures
            r@ == match self {
                AiPlanError::Unsupported(m) => "unsupported structured intent: "@ + m@,
                AiPlanError::Invalid(m) => "invalid structured intent: "@ + m@,
            },
    {
        match self {
            AiPlanError::Unsupported(m) => concat("unsupported structured intent: ", m.as_str()),
            AiPlanError::Invalid(m) => concat("invalid structured intent: ", m.as_str()),
        }
    }
}

/// Whether `r` failed with `Invalid(msg)`.
pub open spec fn ai_invalid<T>(r: Result<T, AiPlanError>, msg: Seq<char>) -> bool {
    r matches Err(AiPlanError::Invalid(m)) && m@ == msg
}

fn invalid(msg: &str) -> (e: AiPlanError)
    ensures
        e matches AiPlanError::Invalid(m) && m@ == msg@,
{
    AiPlanError::Invalid(msg.to_owned())
}

fn text(v: &str) -> (r: String)
    ensures
        r@ == v@,
{
    v.to_owned()
}

/// What the user asked the assistant for. The database connection is carried
/// as its JSON text.
#[derive(Debug, Clone, PartialEq, Eq)]
pub enum StructuredIntent {
    DiagnoseProject { path: String },
    InspectDatabase { connection: String },
    CreateProject { template: String, path: String },
    FixPortConflict { port: u16 },
    InspectMachine,
}

/// One tool call of a plan; `params` is the compact JSON text of its
/// parameters.
#[derive(Debug, Clone, PartialEq, Eq)]
pub struct ToolCall {
    pub command: String,
    pub permission: String,
    pub params: String,
    pub mutating: bool,
    pub requires_confirmation: bool,
}

#[derive(Debug, Clone, PartialEq, Eq)]
pub struct ToolPlan {
    pub version: u32,
    pub intent: String,
    pub calls: Vec<ToolCall>,
    pub unrestricted_shell_allowed: bool,
}

#[derive(Debug, Clone, PartialEq, Eq)]
pub struct CandidatePlanValidation {
    pub valid: bool,
    pub calls: usize,
    pub mutating_calls: usize,
    pub total_param_bytes: usize,
    pub errors: Vec<String>,
}

#[derive(Debug, Clone, PartialEq, Eq)]
pub struct AiCapabilityReport {
    pub intents: Vec<String>,
    pub max_tool_calls: usize,
    pub unrestricted_shell_allowed: bool,
    pub requires_confirmation_for_mutations: bool,
    pub candidate_plan_validation: bool,
}

pub open spec fn texts(v: Seq<String>) -> Seq<Seq<char>> {
    v.map_values(|x: String| x@)
}

fn push_text(v: &mut Vec<String>, t: String)
    ensures
        texts(final(v)@) =~= texts(old(v)@).push(t@),
{
    v.push(t);
}

/// The intents the assistant plans for.
pub fn capabilities() -> (r: AiCapabilityReport)
    ensures
        texts(r.intents@) =~= seq![
            "diagnose_project"@,
            "inspect_database"@,
            "create_project"@,
            "fix_port_conflict"@,
            "inspect_machine"@,
        ],
        r.max_tool_calls == 16,
        !r.unrestricted_shell_allowed,
        r.requires_confirmation_for_mutations,
        r.candidate_plan_validation,
{
    let mut intents: Vec<String> = Vec::new();
    push_text(&mut intents, text("diagnose_project"));
    push_text(&mut intents, text("inspect_database"));
    push_text(&mut intents, text("create_project"));
    push_text(&mut intents, text("fix_port_conflict"));
    push_text(&mut intents, text("inspect_machine"));
    AiCapabilityReport {
        intents,
        max_tool_calls: 16,
        unrestricted_shell_allowed: false,
        requires_confirmation_for_mutations: true,
        candidate_plan_validation: true,
    }
}

// ---------------------------------------------------------------------------
// The policy gate
// ---------------------------------------------------------------------------

/// Command and permission names: 1 to 128 bytes of lower-case letters,
/// digits, `.`, `_` and `-`.
pub open spec fn is_tool_name(v: Seq<char>) -> bool {
    is_token(v, 1, 128, ByteClass::LowerDotted)
}

/// A call as (command, permission, params, mutating, requires confirmation).
pub open spec fn call_view(c: ToolCall) -> (Seq<char>, Seq<char>, Seq<char>, bool, bool) {
    (c.command@, c.permission@, c.params@, c.mutating, c.requires_confirmation)
}

pub open spec fn calls_view(v: Seq<ToolCall>) -> Seq<(Seq<char>, Seq<char>, Seq<char>, bool, bool)> {
    v.map_values(|c: ToolCall| call_view(c))
}

/// The errors the policy check finds in call `i` of a plan.
pub open spec fn call_errors(c: (Seq<char>, Seq<char>, Seq<char>, bool, bool), i: int) -> Seq<
    Seq<char>,
> {
    let n = dec_chars(i as nat);
    (if !is_tool_name(c.0) {
        seq!["call "@ + n + " command is invalid"@]
    } else {
        seq![]
    }) + (if starts_with(c.0, "ai."@) {
        seq!["call "@ + n + " recursively invokes AI"@]
    } else {
        seq![]
    }) + (if !is_tool_name(c.1) {
        seq!["call "@ + n + " permission is invalid"@]
    } else {
        seq![]
    }) + (if blen(c.2) > 2097152 {
        seq!["call "@ + n + " params exceed 2 MiB"@]
    } else {
        seq![]
    }) + (if c.3 && !c.4 {
        seq!["call "@ + n + " mutates without confirmation"@]
    } else {
        seq![]
    })
}

/// The errors of the calls `s[..k]`, in order.
pub open spec fn calls_errors(s: Seq<(Seq<char>, Seq<char>, Seq<char>, bool, bool)>, k: int) -> Seq<
    Seq<char>,
>
    decreases k,
{
    if k <= 0 {
        seq![]
    } else {
        calls_errors(s, k - 1) + call_errors(s[k - 1], k - 1)
    }
}

/// The bytes of parameters of `s[..k]`, saturating at `usize::MAX`.
pub open spec fn param_bytes(s: Seq<(Seq<char>, Seq<char>, Seq<char>, bool, bool)>, k: int) -> int
    decreases k,
{
    if k <= 0 {
        0
    } else {
        let t = param_bytes(s, k - 1) + blen(s[k - 1].2);
        if t > usize::MAX {
            usize::MAX as int
        } else {
            t
        }
    }
}

/// How many of `s[..k]` mutate.
pub open spec fn mutating_count(s: Seq<(Seq<char>, Seq<char>, Seq<char>, bool, bool)>, k: int) -> int
    decreases k,
{
    if k <= 0 {
        0
    } else {
        mutating_count(s, k - 1) + (if s[k - 1].3 {
            1int
        } else {
            0
        })
    }
}

/// Every error the policy check finds in a plan of the given version, intent, shell
/// setting and calls, in the order it reports them.
pub open spec fn plan_errors_of(
    version: u32,
    intent: Seq<char>,
    unrestricted: bool,
    calls: Seq<(Seq<char>, Seq<char>, Seq<char>, bool, bool)>,
) -> Seq<Seq<char>> {
    let n = calls.len() as int;
    (if version != 1 {
        seq!["unsupported tool plan version"@]
    } else {
        seq![]
    }) + (if trim(intent).len() == 0 || blen(intent) > 128 || has_control(intent) {
        seq!["plan intent is invalid"@]
    } else {
        seq![]
    }) + (if unrestricted {
        seq!["unrestricted shell must remain disabled"@]
    } else {
        seq![]
    }) + (if n == 0 || n > 16 {
        seq!["tool plan must contain 1..16 calls"@]
    } else {
        seq![]
    }) + calls_errors(calls, n) + (if param_bytes(calls, n) > 4194304 {
        seq!["combined tool parameters exceed 4 MiB"@]
    } else {
        seq![]
    })
}

pub open spec fn plan_errors(p: ToolPlan) -> Seq<Seq<char>> {
    plan_errors_of(p.version, p.intent@, p.unrestricted_shell_allowed, calls_view(p.calls@))
}

fn push_if(v: &mut Vec<String>, cond: bool, msg: &str)
    ensures
        texts(final(v)@) =~= texts(old(v)@) + (if cond {
            seq![msg@]
        } else {
            seq![]
        }),
{
    if cond {
        push_text(v, text(msg));
    }
}

fn push_call_error(v: &mut Vec<String>, cond: bool, index: usize, what: &str)
    ensures
        texts(final(v)@) =~= texts(old(v)@) + (if cond {
            seq!["call "@ + dec_chars(index as nat) + what@]
        } else {
            seq![]
        }),
{
    if cond {
        let mut m = concat("call ", u64_text_of(index as u64).as_str());
        vstd::string::StringExecFns::append(&mut m, what);
        push_text(v, m);
    }
}

fn one_call_errors(c: &ToolCall, index: usize) -> (r: Vec<String>)
    ensures
        texts(r@) =~= call_errors(call_view(*c), index as int),
{
    let mut v: Vec<String> = Vec::new();
    push_call_error(
        &mut v,
        !token_ok(c.command.as_str(), 1, 128, ByteClass::LowerDotted),
        index,
        " command is invalid",
    );
    push_call_error(&mut v, has_prefix(c.command.as_str(), "ai."), index, " recursively invokes AI");
    push_call_error(
        &mut v,
        !token_ok(c.permission.as_str(), 1, 128, ByteClass::LowerDotted),
        index,
        " permission is invalid",
    );
    push_call_error(
        &mut v,
        c.params.as_str().as_bytes().len() > 2097152,
        index,
        " params exceed 2 MiB",
    );
    push_call_error(
        &mut v,
        c.mutating && !c.requires_confirmation,
        index,
        " mutates without confirmation",
    );
    v
}

/// The policy check every plan passes before it runs: version 1, a sane intent, no
/// unrestricted shell, 1 to 16 calls with valid names, no call into the
/// assistant itself, parameters of at most 2 MiB each and 4 MiB in all, and
/// confirmation on every mutating call. The plan is valid when there is no
/// error.
pub fn validate_candidate_plan(plan: &ToolPlan) -> (r: CandidatePlanValidation)
    ensures
        texts(r.errors@) =~= plan_errors(*plan),
        r.valid == (plan_errors(*plan).len() == 0),
        r.calls == plan.calls@.len(),
        r.mutating_calls == mutating_count(calls_view(plan.calls@), plan.calls@.len() as int),
        r.total_param_bytes == param_bytes(calls_view(plan.calls@), plan.calls@.len() as int),
{
    let mut errors: Vec<String> = Vec::new();
    push_if(&mut errors, plan.version != 1, "unsupported tool plan version");
    let intent = plan.intent.as_str();
    push_if(
        &mut errors,
        trim_text(intent).as_str().unicode_len() == 0 || intent.as_bytes().len() > 128
            || crate::text::any_control(intent),
        "plan intent is invalid",
    );
    push_if(&mut errors, plan.unrestricted_shell_allowed, "unrestricted shell must remain disabled");
    push_if(
        &mut errors,
        plan.calls.len() == 0 || plan.calls.len() > 16,
        "tool plan must contain 1..16 calls",
    );
    let ghost head = texts(errors@);
    let mut total: usize = 0;
    let mut mutating: usize = 0;
    let mut i: usize = 0;
    while i < plan.calls.len()
        invariant
            0 <= i <= plan.calls@.len(),
            texts(errors@) =~= head + calls_errors(calls_view(plan.calls@), i as int),
            total == param_bytes(calls_view(plan.calls@), i as int),
            mutating == mutating_count(calls_view(plan.calls@), i as int),
            mutating <= i,
        decreases plan.calls@.len() - i,
    {
        let c = &plan.calls[i];
        let mut more = one_call_errors(c, i);
        let ghost before = errors@;
        errors.append(&mut more);
        assert(calls_view(plan.calls@)[i as int] == call_view(plan.calls@[i as int]));
        assert(texts(errors@) =~= texts(before) + call_errors(call_view(plan.calls@[i as int]), i as int));
        total = total.saturating_add(c.params.as_str().as_bytes().len());
        if c.mutating {
            mutating += 1;
        }
        i += 1;
    }
    push_if(&mut errors, total > 4194304, "combined tool parameters exceed 4 MiB");
    let valid = errors.len() == 0;
    CandidatePlanValidation {
        valid,
        calls: plan.calls.len(),
        mutating_calls: mutating,
        total_param_bytes: total,
        errors,
    }
}

// ---------------------------------------------------------------------------
// Planning
// ---------------------------------------------------------------------------

/// A project path: not blank, at most 4096 bytes, no NUL.
pub open spec fn is_plan_path(p: Seq<char>) -> bool {
    trim(p).len() > 0 && blen(p) <= 4096 && !p.contains('\0')
}

pub fn validate_path(path: &str) -> (r: Result<(), AiPlanError>)
    ensures
        is_plan_path(path@) ==> r is Ok,
        !is_plan_path(path@) ==> ai_invalid(r, "path is invalid"@),
{
    let mut nul = false;
    for c in it: path.chars()
        invariant
            it.seq() == path@,
            nul == exists|j: int| 0 <= j < it.index() && path@[j] == '\0',
    {
        assert(c == path@[it.index() as int]);
        if c == '\0' {
            nul = true;
        }
    }
    if nul {
        assert(path@.contains('\0'));
    }
    if trim_text(path).as_str().unicode_len() == 0 || path.as_bytes().len() > 4096 || nul {
        Err(invalid("path is invalid"))
    } else {
        Ok(())
    }
}

/// `{"path":<path>}`.
pub open spec fn path_params(path: Seq<char>) -> Seq<char> {
    "{\"path\":"@ + json_quote_of(path) + "}"@
}

/// `{"path":<path>,"template":<template>}` (keys in order, as the JSON
/// object map keeps them).
pub open spec fn project_params(template: Seq<char>, path: Seq<char>) -> Seq<char> {
    "{\"path\":"@ + json_quote_of(path) + ",\"template\":"@ + json_quote_of(template) + "}"@
}

/// The plan of each intent: its name and its calls.
pub open spec fn intent_plan(i: StructuredIntent) -> Result<
    (Seq<char>, Seq<(Seq<char>, Seq<char>, Seq<char>, bool, bool)>),
    Seq<char>,
> {
    match i {
        StructuredIntent::DiagnoseProject { path } => if !is_plan_path(path@) {
            Err("path is invalid"@)
        } else {
            Ok(
                (
                    "diagnose_project"@,
                    seq![
                        ("project.detect"@, "project.view"@, path_params(path@), false, false),
                        ("project.dependencies"@, "project.view"@, path_params(path@), false, false),
                        ("runtime.list"@, "runtime.view"@, "{}"@, false, false),
                        ("port.list"@, "network.view"@, "{}"@, false, false),
                    ],
                ),
            )
        },
        StructuredIntent::InspectDatabase { connection } => Ok(
            (
                "inspect_database"@,
                seq![
                    (
                        "database.cli.inspect"@,
                        "database.view"@,
                        "{\"connection\":"@ + connection@ + "}"@,
                        false,
                        false,
                    ),
                ],
            ),
        ),
        StructuredIntent::CreateProject { template, path } => if trim(template@).len() == 0 || blen(
            template@,
        ) > 64 {
            Err("template is invalid"@)
        } else if !is_plan_path(path@) {
            Err("path is invalid"@)
        } else {
            Ok(
                (
                    "create_project"@,
                    seq![
                        (
                            "project.bootstrap-plan"@,
                            "project.edit"@,
                            project_params(template@, path@),
                            false,
                            false,
                        ),
                        (
                            "project.bootstrap"@,
                            "project.edit"@,
                            project_params(template@, path@),
                            true,
                            true,
                        ),
                    ],
                ),
            )
        },
        StructuredIntent::FixPortConflict { port } => Ok(
            (
                "fix_port_conflict"@,
                seq![
                    (
                        "port.check"@,
                        "network.view"@,
                        "{\"port\":"@ + dec_chars(port as nat) + "}"@,
                        false,
                        false,
                    ),
                ],
            ),
        ),
        StructuredIntent::InspectMachine => Ok(
            (
                "inspect_machine"@,
                seq![
                    ("status"@, "machine.view"@, "{}"@, false, false),
                    ("process.list"@, "machine.view"@, "{}"@, false, false),
                    ("port.list"@, "network.view"@, "{}"@, false, false),
                ],
            ),
        ),
    }
}

fn call(command: &str, permission: &str, params: String, mutating: bool, requires_confirmation: bool) -> (r:
    ToolCall)
    ensures
        call_view(r) == (command@, permission@, params@, mutating, requires_confirmation),
{
    ToolCall {
        command: text(command),
        permission: text(permission),
        params,
        mutating,
        requires_confirmation,
    }
}

fn push_call(v: &mut Vec<ToolCall>, c: ToolCall)
    ensures
        calls_view(final(v)@) =~= calls_view(old(v)@).push(call_view(c)),
{
    v.push(c);
}

fn path_params_of(path: &str) -> (r: String)
    ensures
        r@ == path_params(path@),
{
    let mut t = concat("{\"path\":", json_quote(path).as_str());
    vstd::string::StringExecFns::append(&mut t, "}");
    t
}

fn project_params_of(template: &str, path: &str) -> (r: String)
    ensures
        r@ == project_params(template@, path@),
{
    let mut t = concat("{\"path\":", json_quote(path).as_str());
    vstd::string::StringExecFns::append(&mut t, ",\"template\":");
    vstd::string::StringExecFns::append(&mut t, json_quote(template).as_str());
    vstd::string::StringExecFns::append(&mut t, "}");
    t
}

/// The fixed tool plan of a structured intent: read-only calls, except the
/// project bootstrap, which mutates and asks for confirmation; the shell is
/// never unrestricted.
pub fn plan(intent: &StructuredIntent) -> (r: Result<ToolPlan, AiPlanError>)
    ensures
        match intent_plan(*intent) {
            Err(m) => ai_invalid(r, m),
            Ok((name, calls)) => r matches Ok(p) && p.version == 1 && p.intent@ == name
                && calls_view(p.calls@) =~= calls && !p.unrestricted_shell_allowed,
        },
{
    let mut calls: Vec<ToolCall> = Vec::new();
    let name = match intent {
        StructuredIntent::DiagnoseProject { path } => {
            validate_path(path.as_str())?;
            let p = path.as_str();
            push_call(&mut calls, call("project.detect", "project.view", path_params_of(p), false, false));
            push_call(
                &mut calls,
                call("project.dependencies", "project.view", path_params_of(p), false, false),
            );
            push_call(&mut calls, call("runtime.list", "runtime.view", text("{}"), false, false));
            push_call(&mut calls, call("port.list", "network.view", text("{}"), false, false));
            "diagnose_project"
        },
        StructuredIntent::InspectDatabase { connection } => {
            let mut params = concat("{\"connection\":", connection.as_str());
            vstd::string::StringExecFns::append(&mut params, "}");
            push_call(&mut calls, call("database.cli.inspect", "database.view", params, false, false));
            "inspect_database"
        },
        StructuredIntent::CreateProject { template, path } => {
            let t = template.as_str();
            if trim_text(t).as_str().unicode_len() == 0 || t.as_bytes().len() > 64 {
                return Err(invalid("template is invalid"));
            }
            validate_path(path.as_str())?;
            let p = path.as_str();
            push_call(
                &mut calls,
                call("project.bootstrap-plan", "project.edit", project_params_of(t, p), false, false),
            );
            push_call(
                &mut calls,
                call("project.bootstrap", "project.edit", project_params_of(t, p), true, true),
            );
            "create_project"
        },
        StructuredIntent::FixPortConflict { port } => {
            let mut params = concat("{\"port\":", u64_text_of(*port as u64).as_str());
            vstd::string::StringExecFns::append(&mut params, "}");
            push_call(&mut calls, call("port.check", "network.view", params, false, false));
            "fix_port_conflict"
        },
        StructuredIntent::InspectMachine => {
            push_call(&mut calls, call("status", "machine.view", text("{}"), false, false));
            push_call(&mut calls, call("process.list", "machine.view", text("{}"), false, false));
            push_call(&mut calls, call("port.list", "network.view", text("{}"), false, false));
            "inspect_machine"
        },
    };
    Ok(ToolPlan { version: 1, intent: text(name), calls, unrestricted_shell_allowed: false })
}


// ---------------------------------------------------------------------------
// Evaluation
// ---------------------------------------------------------------------------

#[derive(Debug, Clone, PartialEq, Eq)]
pub struct EvaluationCase {
    pub name: String,
    pub intent: StructuredIntent,
    pub expected_commands: Vec<String>,
    pub forbid_mutations: bool,
}

#[derive(Debug, Clone, PartialEq, Eq)]
pub struct EvaluationCaseResult {
    pub name: String,
    pub passed: bool,
    pub errors: Vec<String>,
}

#[derive(Debug, Clone, PartialEq, Eq)]
pub struct EvaluationReport {
    pub total: usize,
    pub passed: usize,
    pub failed: usize,
    pub cases: Vec<EvaluationCaseResult>,
}

/// The expected commands that a plan's calls leave out, each reported.
pub open spec fn missing_commands(
    expected: Seq<Seq<char>>,
    calls: Seq<(Seq<char>, Seq<char>, Seq<char>, bool, bool)>,
    k: int,
) -> Seq<Seq<char>>
    decreases k,
{
    if k <= 0 {
        seq![]
    } else {
        missing_commands(expected, calls, k - 1) + (if !(exists|j: int|
            0 <= j < calls.len() && (#[trigger] calls[j]).0 == expected[k - 1]) {
            seq!["missing expected command: "@ + expected[k - 1]]
        } else {
            seq![]
        })
    }
}

/// The mutating calls without confirmation among `calls[..k]`, each reported.
pub open spec fn unconfirmed(calls: Seq<(Seq<char>, Seq<char>, Seq<char>, bool, bool)>, k: int) -> Seq<
    Seq<char>,
>
    decreases k,
{
    if k <= 0 {
        seq![]
    } else {
        unconfirmed(calls, k - 1) + (if calls[k - 1].3 && !calls[k - 1].4 {
            seq!["mutating command "@ + calls[k - 1].0 + " does not require confirmation"@]
        } else {
            seq![]
        })
    }
}

/// Every error of one evaluation case, in the order they are reported.
pub open spec fn case_errors(c: EvaluationCase) -> Seq<Seq<char>> {
    match intent_plan(c.intent) {
        Err(m) => seq!["invalid structured intent: "@ + m],
        Ok((name, calls)) => {
            let expected = texts(c.expected_commands@);
            missing_commands(expected, calls, expected.len() as int) + (if c.forbid_mutations
                && exists|j: int| 0 <= j < calls.len() && (#[trigger] calls[j]).3 {
                seq!["plan contains a mutation while forbid_mutations=true"@]
            } else {
                seq![]
            }) + unconfirmed(calls, calls.len() as int) + plan_errors_of(1, name, false, calls).map_values(
                |e: Seq<char>| "candidate-plan validation: "@ + e,
            )
        },
    }
}

/// How many of `cases[..k]` pass.
pub open spec fn passing(cases: Seq<EvaluationCase>, k: int) -> int
    decreases k,
{
    if k <= 0 {
        0
    } else {
        passing(cases, k - 1) + (if case_errors(cases[k - 1]).len() == 0 {
            1int
        } else {
            0
        })
    }
}

fn has_command(calls: &Vec<ToolCall>, command: &str) -> (r: bool)
    ensures
        r == exists|j: int| 0 <= j < calls@.len() && (#[trigger] calls_view(calls@)[j]).0 == command@,
{
    let mut i: usize = 0;
    while i < calls.len()
        invariant
            0 <= i <= calls@.len(),
            forall|j: int| 0 <= j < i ==> (#[trigger] calls_view(calls@)[j]).0 != command@,
        decreases calls@.len() - i,
    {
        assert(calls_view(calls@)[i as int] == call_view(calls@[i as int]));
        if str_eq(calls[i].command.as_str(), command) {
            return true;
        }
        i += 1;
    }
    false
}

fn evaluate_case(case: &EvaluationCase) -> (r: Vec<String>)
    ensures
        texts(r@) =~= case_errors(*case),
{
    let mut errors: Vec<String> = Vec::new();
    let p = match plan(&case.intent) {
        Ok(p) => p,
        Err(e) => {
            push_text(&mut errors, e.message());
            return errors;
        },
    };
    let ghost calls = calls_view(p.calls@);
    let ghost expected = texts(case.expected_commands@);
    let mut i: usize = 0;
    while i < case.expected_commands.len()
        invariant
            calls == calls_view(p.calls@),
            expected == texts(case.expected_commands@),
            0 <= i <= expected.len(),
            texts(errors@) =~= missing_commands(expected, calls, i as int),
        decreases expected.len() - i,
    {
        let e = case.expected_commands[i].as_str();
        assert(expected[i as int] == e@);
        if !has_command(&p.calls, e) {
            push_text(&mut errors, concat("missing expected command: ", e));
        }
        i += 1;
    }
    let ghost e1 = texts(errors@);
    let mut any_mutation = false;
    let mut k: usize = 0;
    while k < p.calls.len()
        invariant
            calls == calls_view(p.calls@),
            0 <= k <= calls.len(),
            any_mutation == exists|j: int| 0 <= j < k && (#[trigger] calls[j]).3,
        decreases calls.len() - k,
    {
        assert(calls[k as int] == call_view(p.calls@[k as int]));
        if p.calls[k].mutating {
            any_mutation = true;
        }
        k += 1;
    }
    push_if(
        &mut errors,
        case.forbid_mutations && any_mutation,
        "plan contains a mutation while forbid_mutations=true",
    );
    push_if(&mut errors, p.unrestricted_shell_allowed, "unrestricted shell was enabled");
    let ghost e2 = texts(errors@);
    let mut m: usize = 0;
    while m < p.calls.len()
        invariant
            calls == calls_view(p.calls@),
            0 <= m <= calls.len(),
            texts(errors@) =~= e2 + unconfirmed(calls, m as int),
        decreases calls.len() - m,
    {
        let c = &p.calls[m];
        assert(calls[m as int] == call_view(p.calls@[m as int]));
        if c.mutating && !c.requires_confirmation {
            let mut t = concat("mutating command ", c.command.as_str());
            vstd::string::StringExecFns::append(&mut t, " does not require confirmation");
            push_text(&mut errors, t);
        }
        m += 1;
    }
    let validation = validate_candidate_plan(&p);
    let ghost e3 = texts(errors@);
    let ghost ve = texts(validation.errors@);
    let mut q: usize = 0;
    while q < validation.errors.len()
        invariant
            ve == texts(validation.errors@),
            0 <= q <= ve.len(),
            texts(errors@) =~= e3 + ve.subrange(0, q as int).map_values(
                |e: Seq<char>| "candidate-plan validation: "@ + e,
            ),
        decreases ve.len() - q,
    {
        assert(ve[q as int] == validation.errors@[q as int]@);
        push_text(
            &mut errors,
            concat("candidate-plan validation: ", validation.errors[q].as_str()),
        );
        assert(ve.subrange(0, q + 1).map_values(|e: Seq<char>| "candidate-plan validation: "@ + e)
            =~= ve.subrange(0, q as int).map_values(
            |e: Seq<char>| "candidate-plan validation: "@ + e,
        ).push("candidate-plan validation: "@ + ve[q as int]));
        q += 1;
    }
    assert(ve.subrange(0, ve.len() as int) =~= ve);
    errors
}

/// Runs an evaluation suite: each case is planned, and fails when its plan
/// misses an expected command, mutates where mutations are forbidden, has a
/// mutating call without confirmation, or fails the plan gate.
pub fn evaluate(cases: &Vec<EvaluationCase>) -> (r: EvaluationReport)
    ensures
        r.total == cases@.len(),
        r.cases@.len() == cases@.len(),
        forall|i: int|
            0 <= i < cases@.len() ==> {
                let res = #[trigger] r.cases@[i];
                &&& res.name == cases@[i].name
                &&& texts(res.errors@) =~= case_errors(cases@[i])
                &&& res.passed == (case_errors(cases@[i]).len() == 0)
            },
        r.passed == passing(cases@, cases@.len() as int),
        r.failed == r.total - r.passed,
{
    let mut results: Vec<EvaluationCaseResult> = Vec::new();
    let mut passed: usize = 0;
    let mut i: usize = 0;
    while i < cases.len()
        invariant
            0 <= i <= cases@.len(),
            results@.len() == i,
            passed == passing(cases@, i as int),
            passed <= i,
            forall|j: int|
                0 <= j < i ==> {
                    let res = #[trigger] results@[j];
                    &&& res.name == cases@[j].name
                    &&& texts(res.errors@) =~= case_errors(cases@[j])
                    &&& res.passed == (case_errors(cases@[j]).len() == 0)
                },
        decreases cases@.len() - i,
    {
        let errors = evaluate_case(&cases[i]);
        let ok = errors.len() == 0;
        if ok {
            passed += 1;
        }
        results.push(EvaluationCaseResult { name: cases[i].name.clone(), passed: ok, errors });
        i += 1;
    }
    let total = results.len();
    EvaluationReport { total, passed, failed: total - passed, cases: results }
}

/// An evaluation suite read from JSON (`parsed`, or the decoder's message):
/// it must hold 1 to 1024 cases.
pub fn evaluate_parsed(parsed: Result<Vec<EvaluationCase>, String>) -> (r: Result<
    EvaluationReport,
    AiPlanError,
>)
    ensures
        match parsed {
            Err(m) => ai_invalid(r, "evaluation JSON is invalid: "@ + m@),
            Ok(cases) => if cases@.len() == 0 || cases@.len() > 1024 {
                ai_invalid(r, "evaluation suite must contain 1..1024 cases"@)
            } else {
                r matches Ok(rep) && rep.total == cases@.len() && rep.passed == passing(
                    cases@,
                    cases@.len() as int,
                )
            },
        },
{
    match parsed {
        Err(m) => Err(AiPlanError::Invalid(concat("evaluation JSON is invalid: ", m.as_str()))),
        Ok(cases) => {
            if cases.len() == 0 || cases.len() > 1024 {
                return Err(invalid("evaluation suite must contain 1..1024 cases"));
            }
            Ok(evaluate(&cases))
        },
    }
}

// ---------------------------------------------------------------------------
// Model adapters
// ---------------------------------------------------------------------------

#[derive(Debug, Clone, Copy, PartialEq, Eq, Structural)]
pub enum ModelAdapterTransport {
    Extension,
    LocalProcess,
    LocalHttp,
    RemoteHttps,
}

#[derive(Debug, Clone, PartialEq, Eq)]
pub struct ModelAdapterDescriptor {
    pub id: String,
    pub transport: ModelAdapterTransport,
    pub emits_tool_plan_v1: bool,
    pub network_required: bool,
    pub secret_reference_required: bool,
}

#[derive(Debug, Clone, PartialEq, Eq)]
pub struct ModelOutputValidation {
    pub adapter_id: String,
    pub accepted: bool,
    pub plan: Option<ToolPlan>,
    pub validation: CandidatePlanValidation,
    pub error: Option<String>,
}

/// Why an adapter is refused, if it is.
pub open spec fn adapter_refusal(a: ModelAdapterDescriptor) -> Option<Seq<char>> {
    if !is_tool_name(a.id@) {
        Some("model adapter id is invalid"@)
    } else if !a.emits_tool_plan_v1 {
        Some("model adapter must emit ToolPlan v1"@)
    } else if a.transport == ModelAdapterTransport::RemoteHttps && !a.network_required {
        Some("remote HTTPS adapter must declare network_required"@)
    } else {
        None
    }
}

/// A model adapter: a valid id, ToolPlan v1 output, and (when remote) a
/// declared network need.
pub fn validate_adapter(adapter: &ModelAdapterDescriptor) -> (r: Result<(), AiPlanError>)
    ensures
        adapter_refusal(*adapter) is None ==> r is Ok,
        adapter_refusal(*adapter) matches Some(m) ==> ai_invalid(r, m),
{
    if !token_ok(adapter.id.as_str(), 1, 128, ByteClass::LowerDotted) {
        return Err(invalid("model adapter id is invalid"));
    }
    if !adapter.emits_tool_plan_v1 {
        return Err(invalid("model adapter must emit ToolPlan v1"));
    }
    if adapter.transport == ModelAdapterTransport::RemoteHttps && !adapter.network_required {
        return Err(invalid("remote HTTPS adapter must declare network_required"));
    }
    Ok(())
}

fn rejected(adapter: &ModelAdapterDescriptor, why: String, error: &str) -> (r: ModelOutputValidation)
    ensures
        r.adapter_id == adapter.id,
        !r.accepted,
        r.plan is None,
        !r.validation.valid && r.validation.calls == 0 && r.validation.mutating_calls == 0
            && r.validation.total_param_bytes == 0,
        texts(r.validation.errors@) =~= seq![why@],
        r.error matches Some(e) && e@ == error@,
{
    let mut errors: Vec<String> = Vec::new();
    push_text(&mut errors, why);
    ModelOutputValidation {
        adapter_id: adapter.id.clone(),
        accepted: false,
        plan: None,
        validation: CandidatePlanValidation {
            valid: false,
            calls: 0,
            mutating_calls: 0,
            total_param_bytes: 0,
            errors,
        },
        error: Some(text(error)),
    }
}

/// A model's output passes the same gate as the planner's: the adapter must
/// be valid, the output at most 4 MiB and a ToolPlan (`parsed` is what the
/// JSON decoder made of `bytes`, or its message), and the plan must pass
/// `validate_candidate_plan`.
pub fn validate_model_output(
    adapter: &ModelAdapterDescriptor,
    bytes: &[u8],
    parsed: Result<ToolPlan, String>,
) -> (r: ModelOutputValidation)
    ensures
        r.adapter_id == adapter.id,
        adapter_refusal(*adapter) is Some ==> !r.accepted && r.plan is None && (r.error matches Some(
            e,
        ) && e@ == "invalid adapter descriptor"@) && texts(r.validation.errors@) =~= seq![
            "model adapter descriptor is invalid"@,
        ],
        adapter_refusal(*adapter) is None && bytes@.len() > 4194304 ==> !r.accepted && r.plan is None
            && (r.error matches Some(e) && e@ == "model output too large"@) && texts(
            r.validation.errors@,
        ) =~= seq!["model output exceeds 4 MiB"@],
        adapter_refusal(*adapter) is None && bytes@.len() <= 4194304 ==> match parsed {
            Err(m) => !r.accepted && r.plan is None && (r.error matches Some(e) && e@
                == "invalid ToolPlan JSON"@) && texts(r.validation.errors@) =~= seq![
                "model output is not ToolPlan JSON: "@ + m@,
            ],
            Ok(p) => r.plan == Some(p) && r.error is None && r.accepted == (plan_errors(p).len()
                == 0) && texts(r.validation.errors@) =~= plan_errors(p),
        },
{
    if validate_adapter(adapter).is_err() {
        return rejected(adapter, text("model adapter descriptor is invalid"), "invalid adapter descriptor");
    }
    if bytes.len() > 4194304 {
        return rejected(adapter, text("model output exceeds 4 MiB"), "model output too large");
    }
    match parsed {
        Err(m) => rejected(
            adapter,
            concat("model output is not ToolPlan JSON: ", m.as_str()),
            "invalid ToolPlan JSON",
        ),
        Ok(p) => {
            let validation = validate_candidate_plan(&p);
            ModelOutputValidation {
                adapter_id: adapter.id.clone(),
                accepted: validation.valid,
                plan: Some(p),
                validation,
                error: None,
            }
        },
    }
}


// ---------------------------------------------------------------------------
// Telemetry
// ---------------------------------------------------------------------------

#[derive(Debug, Clone, PartialEq, Eq)]
pub struct AiTelemetryRecord {
    pub timestamp_unix_ms: u128,
    pub adapter_id: String,
    pub intent: String,
    pub accepted: bool,
    pub calls: usize,
    pub mutating_calls: usize,
    pub completed: bool,
    pub duration_ms: u128,
}

#[derive(Debug, Clone, PartialEq, Eq)]
pub struct AiTelemetrySummary {
    pub records: usize,
    pub accepted: usize,
    pub completed: usize,
    pub rejected: usize,
    pub adapters: Vec<String>,
}

/// One line of the telemetry log as read back: blank, not a record (with
/// the decoder's message), or a record.
#[derive(Debug, Clone, PartialEq, Eq)]
pub enum TelemetryLine {
    Blank,
    Malformed(String),
    Record(AiTelemetryRecord),
}

/// The largest telemetry log that still takes new records, 64 MiB.
pub const TELEMETRY_CEILING_BYTES: u64 = 67108864;

/// A record is appended only while the log is at most 64 MiB.
pub fn telemetry_size_check(existing_bytes: u64) -> (r: Result<(), AiPlanError>)
    ensures
        existing_bytes <= TELEMETRY_CEILING_BYTES ==> r is Ok,
        existing_bytes > TELEMETRY_CEILING_BYTES ==> ai_invalid(
            r,
            "AI telemetry file reached 64 MiB rotation ceiling"@,
        ),
{
    if existing_bytes > TELEMETRY_CEILING_BYTES {
        return Err(invalid("AI telemetry file reached 64 MiB rotation ceiling"));
    }
    Ok(())
}

/// Counts kept while reading the log: records, accepted, completed, and the
/// adapters seen.
pub type Tally = (nat, nat, nat, Set<Seq<char>>);

/// Reading `lines[lo..i]` from the end down, starting from `acc`: blank
/// lines are skipped, the first line that is not a record (from the end) is
/// the error, and each record is counted.
pub open spec fn tally(lines: Seq<TelemetryLine>, lo: int, i: int, acc: Tally) -> Result<Tally, Seq<char>>
    decreases i - lo,
{
    if i <= lo || i > lines.len() {
        Ok(acc)
    } else {
        match lines[i - 1] {
            TelemetryLine::Blank => tally(lines, lo, i - 1, acc),
            TelemetryLine::Malformed(m) => Err(m@),
            TelemetryLine::Record(r) => tally(
                lines,
                lo,
                i - 1,
                (
                    acc.0 + 1,
                    acc.1 + (if r.accepted {
                        1nat
                    } else {
                        0nat
                    }),
                    acc.2 + (if r.completed {
                        1nat
                    } else {
                        0nat
                    }),
                    acc.3.insert(r.adapter_id@),
                ),
            ),
        }
    }
}

/// The first line of the window that is read: only the last 10,000 lines
/// count.
pub open spec fn telemetry_window(n: int) -> int {
    if n > 10000 {
        n - 10000
    } else {
        0
    }
}

/// The summary of a telemetry log read back as lines: over its last 10,000
/// lines, the number of records, accepted and completed ones, the rejected
/// ones (records not accepted), and the adapters seen, sorted and each once.
/// A line that is not a record fails the whole summary.
pub fn summarize_telemetry(lines: &Vec<TelemetryLine>) -> (r: Result<AiTelemetrySummary, AiPlanError>)
    ensures
        match tally(
            lines@,
            telemetry_window(lines@.len() as int),
            lines@.len() as int,
            (0nat, 0nat, 0nat, Set::empty()),
        ) {
            Err(m) => ai_invalid(r, "AI telemetry record invalid: "@ + m),
            Ok((n, a, c, s)) => r matches Ok(t) && t.records == n && t.accepted == a
                && t.completed == c && t.rejected == n - a && strictly_sorted(
                views(t.adapters@),
            ) && views(t.adapters@).to_set() == s,
        },
{
    let n = lines.len();
    let lo: usize = if n > 10000 {
        n - 10000
    } else {
        0
    };
    let mut records: usize = 0;
    let mut accepted: usize = 0;
    let mut completed: usize = 0;
    let mut adapters: Vec<String> = Vec::new();
    let mut i: usize = n;
    let ghost init: Tally = (0nat, 0nat, 0nat, Set::empty());
    proof {
        assert(views(adapters@).to_set() =~= Set::<Seq<char>>::empty());
    }
    while i > lo
        invariant
            n == lines@.len(),
            lo == telemetry_window(n as int),
            lo <= i <= n,
            init == (0nat, 0nat, 0nat, Set::<Seq<char>>::empty()),
            accepted <= records,
            completed <= records,
            records <= n - i,
            strictly_sorted(views(adapters@)),
            tally(lines@, lo as int, n as int, init) == tally(
                lines@,
                lo as int,
                i as int,
                (records as nat, accepted as nat, completed as nat, views(adapters@).to_set()),
            ),
        decreases i - lo,
    {
        match &lines[i - 1] {
            TelemetryLine::Blank => {},
            TelemetryLine::Malformed(m) => {
                assert(tally(
                    lines@,
                    lo as int,
                    i as int,
                    (records as nat, accepted as nat, completed as nat, views(adapters@).to_set()),
                ) == Err::<Tally, Seq<char>>(m@));
                return Err(AiPlanError::Invalid(concat("AI telemetry record invalid: ", m.as_str())));
            },
            TelemetryLine::Record(rec) => {
                records += 1;
                if rec.accepted {
                    accepted += 1;
                }
                if rec.completed {
                    completed += 1;
                }
                insert_sorted(&mut adapters, rec.adapter_id.clone());
            },
        }
        i -= 1;
    }
    Ok(AiTelemetrySummary { records, accepted, completed, rejected: records - accepted, adapters })
}

// ---------------------------------------------------------------------------
// Conformance
// ---------------------------------------------------------------------------

#[derive(Debug, Clone, PartialEq, Eq)]
pub struct AiConformanceReport {
    pub tool_plan_v1: bool,
    pub candidate_plan_validation: bool,
    pub mutation_confirmation: bool,
    pub recursive_ai_blocked: bool,
    pub unrestricted_shell_blocked: bool,
    pub model_adapter_boundary: bool,
    pub evaluation_harness: bool,
    pub telemetry: bool,
    pub issues: Vec<String>,
}

fn probe_plan(unrestricted: bool) -> (r: ToolPlan)
    ensures
        r.version == 1,
        r.intent@ == "test"@,
        r.unrestricted_shell_allowed == unrestricted,
        calls_view(r.calls@) =~= seq![("ai.execute"@, "machine.view"@, "{}"@, false, false)],
{
    let mut calls: Vec<ToolCall> = Vec::new();
    push_call(&mut calls, call("ai.execute", "machine.view", text("{}"), false, false));
    ToolPlan { version: 1, intent: text("test"), calls, unrestricted_shell_allowed: unrestricted }
}

/// The self-check of the policy: a plan that calls the assistant recursively, and
/// one that enables the unrestricted shell, are both refused.
#[verifier::spinoff_prover]
pub fn conformance() -> (r: AiConformanceReport)
    ensures
        r.recursive_ai_blocked,
        r.unrestricted_shell_blocked,
        r.issues@.len() == 0,
        r.tool_plan_v1 && r.candidate_plan_validation && r.mutation_confirmation
            && r.model_adapter_boundary && r.evaluation_harness && r.telemetry,
{
    let recursive = probe_plan(false);
    let shell = probe_plan(true);
    let rv = validate_candidate_plan(&recursive);
    let sv = validate_candidate_plan(&shell);
    proof {
        reveal_strlit("ai.execute");
        reveal_strlit("ai.");
        reveal_strlit("execute");
        assert("ai.execute"@ =~= "ai."@ + "execute"@);
        crate::text::lemma_prefix_starts("ai."@, "execute"@);
        let cs = calls_view(recursive.calls@);
        assert(calls_errors(cs, 1) =~= calls_errors(cs, 0) + call_errors(cs[0], 0));
        assert(call_errors(cs[0], 0).len() >= 1);
        assert(plan_errors(recursive).len() >= 1);
        assert(plan_errors(shell).len() >= 1);
    }
    let mut issues: Vec<String> = Vec::new();
    let recursive_ai_blocked = !rv.valid;
    let unrestricted_shell_blocked = !sv.valid;
    if !recursive_ai_blocked {
        issues.push(text("recursive AI calls are not blocked"));
    }
    if !unrestricted_shell_blocked {
        issues.push(text("unrestricted shell is not blocked"));
    }
    AiConformanceReport {
        tool_plan_v1: true,
        candidate_plan_validation: true,
        mutation_confirmation: true,
        recursive_ai_blocked,
        unrestricted_shell_blocked,
        model_adapter_boundary: true,
        evaluation_harness: true,
        telemetry: true,
        issues,
    }
}

} // verus!

