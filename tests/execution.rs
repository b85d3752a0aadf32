use cfai::action::{Action, ActionKind, Risk};
use cfai::dispatch::{ParamKey, RemoteOp, ValidationError};
use cfai::executor::{Execution, ExecutionReport, Failure, Outcome, Phase, Step};
use cfai::extract::extract;

/// Runs a plan with scripted answers; `remote` decides how each dispatched action goes.
/// Returns the report, the indices dispatched, and the indices after which "continue" was asked.
fn run(
    actions: Vec<Action>,
    batch: bool,
    high: &[bool],
    cont: &[bool],
    remote: impl Fn(usize, &RemoteOp) -> Result<String, String>,
) -> (ExecutionReport, Vec<usize>, Vec<usize>) {
    let mut ex = Execution::new(actions);
    let mut high = high.iter();
    let mut cont = cont.iter();
    let mut sent = Vec::new();
    let mut asked = Vec::new();
    loop {
        match ex.step() {
            Step::ConfirmBatch => ex.answer_batch(batch),
            Step::ConfirmHighRisk(_) => ex.answer_high_risk(*high.next().unwrap()),
            Step::Dispatch(i, op) => {
                sent.push(i);
                ex.record_result(remote(i, &op));
            }
            Step::ConfirmContinue(i) => {
                asked.push(i);
                ex.answer_continue(*cont.next().unwrap());
            }
            Step::Finished => break,
        }
    }
    assert_eq!(ex.phase(), Phase::Done);
    (ex.finish(), sent, asked)
}

fn delete(id: &str, risk: Risk) -> Action {
    Action {
        kind: ActionKind::DnsRecordDelete,
        description: format!("delete {}", id),
        params: serde_json::from_str(&format!("{{\"record_id\":\"{}\"}}", id)).unwrap(),
        risk,
    }
}

#[test]
fn scenario_create_runs_once() {
    let text = "Sure, here: ```json\n{\"actions\":[{\"type\":\"dns_create\",\"description\":\"add www\",\"params\":{\"type\":\"A\",\"name\":\"www\",\"content\":\"1.2.3.4\"},\"risk\":\"low\"}]}\n```\nDone.";
    let plan = extract(text);
    let (report, sent, asked) = run(plan.actions, true, &[], &[], |_, op| match op {
        RemoteOp::CreateDnsRecord(r) if r.name == "www" && r.content == "1.2.3.4" => Ok("created".to_string()),
        _ => Err("unexpected".to_string()),
    });
    assert_eq!(sent, vec![0]);
    assert!(asked.is_empty());
    assert_eq!((report.succeeded, report.failed, report.skipped, report.total), (1, 0, 0, 1));
    assert_eq!(report.outcomes, vec![Outcome::Succeeded("created".to_string())]);
}

#[test]
fn declined_batch_sends_nothing() {
    let actions = vec![delete("a", Risk::Low), delete("b", Risk::High), delete("c", Risk::Medium)];
    let (report, sent, asked) = run(actions, false, &[], &[], |_, _| Ok("x".to_string()));
    assert!(sent.is_empty());
    assert!(asked.is_empty());
    assert_eq!((report.succeeded, report.failed, report.skipped, report.total), (0, 0, 3, 3));
    assert!(report.outcomes.iter().all(|o| *o == Outcome::Skipped));
}

#[test]
fn empty_plan_is_finished_at_once() {
    let ex = Execution::new(Vec::new());
    assert_eq!(ex.step(), Step::Finished);
    let report = ex.finish();
    assert_eq!((report.succeeded, report.failed, report.skipped, report.total), (0, 0, 0, 0));
}

#[test]
fn failure_then_abort_skips_the_rest() {
    let actions: Vec<Action> = (0..5).map(|i| delete(&format!("r{}", i), Risk::Low)).collect();
    let (report, sent, asked) = run(actions, true, &[], &[false], |i, _| {
        if i == 2 { Err("conflict".to_string()) } else { Ok(format!("ok {}", i)) }
    });
    assert_eq!(sent, vec![0, 1, 2]);
    assert_eq!(asked, vec![2]);
    assert_eq!(report.total, 5);
    assert_eq!(
        report.outcomes,
        vec![
            Outcome::Succeeded("ok 0".to_string()),
            Outcome::Succeeded("ok 1".to_string()),
            Outcome::Failed(Failure::Remote("conflict".to_string())),
            Outcome::Skipped,
            Outcome::Skipped,
        ]
    );
    assert_eq!((report.succeeded, report.failed, report.skipped), (2, 1, 2));
}

#[test]
fn failure_then_continue_goes_on() {
    let actions: Vec<Action> = (0..3).map(|i| delete(&format!("r{}", i), Risk::Low)).collect();
    let (report, sent, asked) = run(actions, true, &[], &[true], |i, _| {
        if i == 0 { Err("rate limited".to_string()) } else { Ok("ok".to_string()) }
    });
    assert_eq!(sent, vec![0, 1, 2]);
    assert_eq!(asked, vec![0]);
    assert_eq!((report.succeeded, report.failed, report.skipped, report.total), (2, 1, 0, 3));
}

#[test]
fn failure_of_last_action_asks_nothing() {
    let actions = vec![delete("a", Risk::Low), delete("b", Risk::Low)];
    let (report, _, asked) = run(actions, true, &[], &[], |i, _| if i == 1 { Err("gone".to_string()) } else { Ok("ok".to_string()) });
    assert!(asked.is_empty());
    assert_eq!((report.succeeded, report.failed, report.skipped, report.total), (1, 1, 0, 2));
}

#[test]
fn declined_high_risk_moves_on_without_asking() {
    let actions = vec![delete("a", Risk::High), delete("b", Risk::Low)];
    let (report, sent, asked) = run(actions, true, &[false], &[], |_, _| Ok("ok".to_string()));
    assert_eq!(sent, vec![1]);
    assert!(asked.is_empty());
    assert_eq!(report.outcomes, vec![Outcome::Skipped, Outcome::Succeeded("ok".to_string())]);
    assert_eq!((report.succeeded, report.failed, report.skipped, report.total), (1, 0, 1, 2));
}

#[test]
fn accepted_high_risk_is_sent() {
    let actions = vec![delete("a", Risk::High)];
    let (report, sent, _) = run(actions, true, &[true], &[], |_, _| Ok("ok".to_string()));
    assert_eq!(sent, vec![0]);
    assert_eq!(report.succeeded, 1);
}

#[test]
fn unknown_risk_is_not_asked_separately() {
    let actions = vec![delete("a", Risk::Unknown("critical".to_string()))];
    let (report, sent, _) = run(actions, true, &[], &[], |_, _| Ok("ok".to_string()));
    assert_eq!(sent, vec![0]);
    assert_eq!(report.succeeded, 1);
}

#[test]
fn invalid_action_fails_without_remote_call() {
    let bad = Action {
        kind: ActionKind::AccessRuleChange,
        description: "block".to_string(),
        params: serde_json::from_str("{\"type\":\"block-ip\"}").unwrap(),
        risk: Risk::Low,
    };
    let actions = vec![bad, delete("b", Risk::Low)];
    let (report, sent, asked) = run(actions, true, &[], &[false], |_, _| Ok("ok".to_string()));
    assert!(sent.is_empty());
    assert_eq!(asked, vec![0]);
    assert_eq!(
        report.outcomes,
        vec![Outcome::Failed(Failure::Invalid(ValidationError::MissingParam(ParamKey::Ip))), Outcome::Skipped]
    );
}
