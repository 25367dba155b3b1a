use vsn::ai::{
    summarize_telemetry, telemetry_size_check, AiTelemetryRecord, TelemetryLine,
    capabilities, conformance, evaluate, evaluate_parsed, plan, validate_adapter,
    validate_candidate_plan, validate_model_output, validate_path, AiPlanError, EvaluationCase,
    ModelAdapterDescriptor, ModelAdapterTransport, StructuredIntent, ToolCall, ToolPlan,
};

fn local_adapter(id: &str) -> ModelAdapterDescriptor {
    ModelAdapterDescriptor {
        id: id.into(),
        transport: ModelAdapterTransport::LocalProcess,
        emits_tool_plan_v1: true,
        network_required: false,
        secret_reference_required: false,
    }
}

fn single_call_plan(command: &str, unrestricted: bool) -> ToolPlan {
    ToolPlan {
        version: 1,
        intent: "x".into(),
        calls: vec![ToolCall {
            command: command.into(),
            permission: "machine.view".into(),
            params: "{}".into(),
            mutating: false,
            requires_confirmation: false,
        }],
        unrestricted_shell_allowed: unrestricted,
    }
}

#[test]
fn ai_plans_never_enable_unrestricted_shell() {
    let plan = plan(&StructuredIntent::InspectMachine).unwrap();
    assert!(!plan.unrestricted_shell_allowed);
}

#[test]
fn mutating_project_creation_requires_confirmation() {
    let plan = plan(&StructuredIntent::CreateProject {
        template: "laravel".into(),
        path: "C:/work/app".into(),
    })
    .unwrap();
    assert!(plan
        .calls
        .iter()
        .any(|c| c.mutating && c.requires_confirmation));
}

#[test]
fn candidate_plan_rejects_recursive_ai() {
    let p = single_call_plan("ai.execute", false);
    assert!(!validate_candidate_plan(&p).valid);
}

#[test]
fn evaluation_detects_expected_commands() {
    let report = evaluate(&vec![EvaluationCase {
        name: "machine".into(),
        intent: StructuredIntent::InspectMachine,
        expected_commands: vec!["status".into(), "process.list".into()],
        forbid_mutations: true,
    }]);
    assert_eq!(report.failed, 0);
}

#[test]
fn model_output_still_passes_policy_gate() {
    let a = local_adapter("local.test");
    let p = plan(&StructuredIntent::InspectMachine).unwrap();
    let bytes = br#"{"version":1,"intent":"inspect_machine"}"#;
    let v = validate_model_output(&a, bytes, Ok(p));
    assert!(v.accepted);
}

#[test]
fn invalid_adapter_cannot_bypass_plan_validation() {
    let a = ModelAdapterDescriptor {
        id: "BAD SPACE".into(),
        transport: ModelAdapterTransport::RemoteHttps,
        emits_tool_plan_v1: true,
        network_required: false,
        secret_reference_required: true,
    };
    let p = plan(&StructuredIntent::InspectMachine).unwrap();
    assert!(!validate_model_output(&a, b"{}", Ok(p)).accepted);
}

#[test]
fn machine_plan_has_its_read_only_calls() {
    let p = plan(&StructuredIntent::InspectMachine).unwrap();
    assert_eq!(p.version, 1);
    assert_eq!(p.intent, "inspect_machine");
    assert!(p.calls.iter().all(|c| !c.mutating));
    let commands: Vec<&str> = p.calls.iter().map(|c| c.command.as_str()).collect();
    assert!(commands.contains(&"status"));
    assert!(commands.contains(&"process.list"));
}

#[test]
fn project_paths_are_checked() {
    assert!(validate_path("C:/work/app").is_ok());
    assert_eq!(
        validate_path("   "),
        Err(AiPlanError::Invalid("path is invalid".into()))
    );
    assert!(validate_path("a\0b").is_err());
    let r = plan(&StructuredIntent::DiagnoseProject { path: "".into() });
    assert_eq!(r, Err(AiPlanError::Invalid("path is invalid".into())));
}

#[test]
fn diagnose_plan_carries_the_path_as_json() {
    let p = plan(&StructuredIntent::DiagnoseProject { path: "C:/a\"b".into() }).unwrap();
    assert_eq!(p.intent, "diagnose_project");
    assert_eq!(p.calls[0].command, "project.detect");
    assert_eq!(p.calls[0].params, "{\"path\":\"C:/a\\\"b\"}");
    let q = plan(&StructuredIntent::DiagnoseProject { path: "C:\\dir\\x".into() }).unwrap();
    assert_eq!(q.calls[0].params, "{\"path\":\"C:\\\\dir\\\\x\"}");
}

#[test]
fn unrestricted_shell_plan_is_refused() {
    let p = single_call_plan("status", true);
    let v = validate_candidate_plan(&p);
    assert!(!v.valid);
    assert_eq!(v.calls, 1);
    let ok = single_call_plan("status", false);
    assert!(validate_candidate_plan(&ok).valid);
}

#[test]
fn adapters_need_valid_ids_and_declared_network() {
    assert!(validate_adapter(&local_adapter("local.test")).is_ok());
    assert_eq!(
        validate_adapter(&local_adapter("BAD SPACE")),
        Err(AiPlanError::Invalid("model adapter id is invalid".into()))
    );
    let mut remote = local_adapter("remote.model");
    remote.transport = ModelAdapterTransport::RemoteHttps;
    assert_eq!(
        validate_adapter(&remote),
        Err(AiPlanError::Invalid(
            "remote HTTPS adapter must declare network_required".into()
        ))
    );
    remote.network_required = true;
    assert!(validate_adapter(&remote).is_ok());
    let mut legacy = local_adapter("legacy");
    legacy.emits_tool_plan_v1 = false;
    assert!(validate_adapter(&legacy).is_err());
}

#[test]
fn model_output_errors_are_reported() {
    let a = local_adapter("local.test");
    let v = validate_model_output(&a, b"not json", Err("expected value".into()));
    assert!(!v.accepted);
    assert_eq!(v.error.as_deref(), Some("invalid ToolPlan JSON"));
    assert_eq!(
        v.validation.errors,
        vec!["model output is not ToolPlan JSON: expected value".to_string()]
    );
    let big = vec![b' '; 4 * 1024 * 1024 + 1];
    let p = plan(&StructuredIntent::InspectMachine).unwrap();
    let v = validate_model_output(&a, &big, Ok(p));
    assert_eq!(v.error.as_deref(), Some("model output too large"));
    let recursive = single_call_plan("ai.execute", false);
    let v = validate_model_output(&a, b"{}", Ok(recursive));
    assert!(!v.accepted);
    assert!(v.error.is_none());
    assert!(v.plan.is_some());
}

#[test]
fn evaluation_suites_are_bounded() {
    assert_eq!(
        evaluate_parsed(Ok(vec![])),
        Err(AiPlanError::Invalid(
            "evaluation suite must contain 1..1024 cases".into()
        ))
    );
    assert_eq!(
        evaluate_parsed(Err("eof".into())),
        Err(AiPlanError::Invalid("evaluation JSON is invalid: eof".into()))
    );
    let failing = EvaluationCase {
        name: "wants-missing".into(),
        intent: StructuredIntent::InspectMachine,
        expected_commands: vec!["no.such.command".into()],
        forbid_mutations: true,
    };
    let rep = evaluate_parsed(Ok(vec![failing])).unwrap();
    assert_eq!(rep.total, 1);
    assert_eq!(rep.failed, 1);
    assert!(!rep.cases[0].passed);
}

#[test]
fn capabilities_and_conformance() {
    let c = capabilities();
    assert_eq!(c.max_tool_calls, 16);
    assert!(!c.unrestricted_shell_allowed);
    assert_eq!(c.intents.len(), 5);
    let r = conformance();
    assert!(r.recursive_ai_blocked && r.unrestricted_shell_blocked);
    assert!(r.issues.is_empty());
}

fn record(adapter: &str, accepted: bool, completed: bool) -> TelemetryLine {
    TelemetryLine::Record(AiTelemetryRecord {
        timestamp_unix_ms: 1,
        adapter_id: adapter.into(),
        intent: "inspect_machine".into(),
        accepted,
        calls: 2,
        mutating_calls: 0,
        completed,
        duration_ms: 5,
    })
}

#[test]
fn telemetry_summary_counts_and_sorts_adapters() {
    let lines = vec![
        record("zeta.model", true, true),
        TelemetryLine::Blank,
        record("alpha", false, false),
        record("zeta.model", true, false),
        record("Beta", true, true),
    ];
    let s = summarize_telemetry(&lines).unwrap();
    assert_eq!(s.records, 4);
    assert_eq!(s.accepted, 3);
    assert_eq!(s.completed, 2);
    assert_eq!(s.rejected, 1);
    assert_eq!(s.adapters, vec!["Beta", "alpha", "zeta.model"]);
    let empty = summarize_telemetry(&vec![]).unwrap();
    assert_eq!(empty.records, 0);
    assert!(empty.adapters.is_empty());
}

#[test]
fn telemetry_reports_the_last_bad_line() {
    let lines = vec![
        TelemetryLine::Malformed("first".into()),
        record("a", true, true),
        TelemetryLine::Malformed("last".into()),
    ];
    assert_eq!(
        summarize_telemetry(&lines),
        Err(AiPlanError::Invalid("AI telemetry record invalid: last".into()))
    );
}

#[test]
fn telemetry_reads_only_the_last_ten_thousand_lines() {
    let mut lines = vec![TelemetryLine::Malformed("old".into())];
    for _ in 0..10_000 {
        lines.push(record("a", true, true));
    }
    let s = summarize_telemetry(&lines).unwrap();
    assert_eq!(s.records, 10_000);
    assert!(telemetry_size_check(64 * 1024 * 1024).is_ok());
    assert_eq!(
        telemetry_size_check(64 * 1024 * 1024 + 1),
        Err(AiPlanError::Invalid(
            "AI telemetry file reached 64 MiB rotation ceiling".into()
        ))
    );
}
