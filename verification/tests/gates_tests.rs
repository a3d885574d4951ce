use tuck::catastrophic::{CatastrophicLog, CatastrophicStatus};
use tuck::hitl::{ConfirmBook, ConfirmResult, ConfirmStatus};
use tuck::hot_reload::{PolicyState, ReloadStatus};
use tuck::pfp::Decision;
use tuck::policy::{DecisionConfig, PolicyConfig, PolicyConfigError, PolicyVersion};

#[test]
fn confirmation_resolves_once_and_moves_to_history() {
    let mut book = ConfirmBook::new();
    let r = book.open_request("Critical", "Executive", "wire transfer", 300);
    assert_eq!(book.pending_count(), 1);
    assert!(book.get_pending(&r.id).is_some());
    assert!(book.resolve(&r.id, ConfirmStatus::Confirmed));
    assert!(!book.resolve(&r.id, ConfirmStatus::Rejected));
    assert_eq!(book.pending_count(), 0);
    let history = book.history();
    assert_eq!(history.len(), 1);
    assert_eq!(history[0].status, ConfirmStatus::Confirmed);
    assert_eq!(history[0].description, "wire transfer");
}

#[test]
fn only_confirmation_passes() {
    assert_eq!(Decision::from(ConfirmStatus::Confirmed.result()), Decision::Pass);
    assert_eq!(Decision::from(ConfirmStatus::Rejected.result()), Decision::Reject);
    assert_eq!(Decision::from(ConfirmStatus::TimedOut.result()), Decision::Reject);
    assert_eq!(ConfirmResult::Pass.decision(), Decision::Pass);
}

#[test]
fn catastrophic_events_acknowledge_and_resolve() {
    let mut log = CatastrophicLog::new();
    let e = log.trigger("Catastrophic", "Executive", "HardOverride", "emergency");
    assert_eq!(log.active_count(), 1);
    assert!(log.acknowledge(&e.id));
    assert_eq!(log.get_event(&e.id).unwrap().status, CatastrophicStatus::Acknowledged);
    assert!(log.resolve(&e.id));
    assert_eq!(log.active_count(), 0);
    assert!(log.active_events().is_empty());
    assert_eq!(log.history().len(), 1);
    assert!(!log.resolve(&[0u8; 16]));
}

#[test]
fn reload_failure_keeps_policy_and_success_replaces_it() {
    let mut state = PolicyState::new(PolicyConfig::default(), Some(10));
    let up = state.check_reload(false, Some(10)).unwrap();
    assert_eq!(up.status, ReloadStatus::UpToDate);
    assert!(state.check_reload(false, Some(11)).is_none());
    let none = state.check_reload(true, Some(11)).unwrap();
    assert_eq!(none.status, ReloadStatus::Failed);
    assert_eq!(none.error.as_deref(), Some("No policy file path"));

    let failed = state.finish_reload(Err(PolicyConfigError::Parse("bad".to_string())), Some(11));
    assert_eq!(failed.status, ReloadStatus::Failed);
    assert_eq!(failed.error.as_deref(), Some("parse error: bad"));
    assert_eq!(state.current_policy().critical, Decision::NeedHumanConfirm);

    let mut strict = PolicyConfig::default();
    strict.risk_levels.critical = DecisionConfig::Reject;
    strict.policy.version = PolicyVersion::new(1, 0, 1);
    let ok = state.finish_reload(Ok(strict), Some(12));
    assert_eq!(ok.status, ReloadStatus::Reloaded);
    assert_eq!(ok.new_version, PolicyVersion::new(1, 0, 1));
    assert_eq!(state.current_policy().critical, Decision::Reject);
    assert_eq!(state.version(), PolicyVersion::new(1, 0, 1));
    assert_eq!(state.history().len(), 2);
}
