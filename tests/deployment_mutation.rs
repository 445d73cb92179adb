use graphman::mutation::{
    reassign_warning, DeploymentMutation, ExecutionId, ExecutionPhase, NextStep,
    DEFAULT_RESTART_DELAY_SECONDS,
};
use graphman::node::NodeId;
use graphman::store::{AssignmentStore, DeploymentSelector, MutationError};

fn engine() -> DeploymentMutation {
    let mut store = AssignmentStore::new();
    store.register("sg/alpha".to_string(), "QmAlpha".to_string(), "sgd1".to_string());
    store.register("sg/beta".to_string(), "QmBeta".to_string(), "sgd2".to_string());
    store.register("sg/gamma".to_string(), "QmAlpha".to_string(), "sgd3".to_string());
    DeploymentMutation::new(store)
}

fn name(s: &str) -> DeploymentSelector {
    DeploymentSelector::Name(s.to_string())
}

fn node_of(m: &DeploymentMutation, i: usize) -> Option<String> {
    m.store().assigned_node(i).map(|n| n.as_str().to_string())
}

#[test]
fn pause_then_pause_fails_with_already_paused() {
    let mut m = engine();
    assert!(m.pause(&name("sg/alpha")).is_ok());
    assert!(m.store().is_paused(0));
    assert_eq!(m.pause(&name("sg/alpha")).unwrap_err(), MutationError::AlreadyPaused);
    assert!(m.store().is_paused(0));
}

#[test]
fn resume_then_resume_fails_with_not_paused() {
    let mut m = engine();
    assert_eq!(m.resume(&name("sg/beta")).unwrap_err(), MutationError::NotPaused);
    m.pause(&name("sg/beta")).unwrap();
    assert!(m.resume(&name("sg/beta")).is_ok());
    assert!(!m.store().is_paused(1));
    assert_eq!(m.resume(&name("sg/beta")).unwrap_err(), MutationError::NotPaused);
}

#[test]
fn selectors_resolve_by_name_hash_and_schema() {
    let mut m = engine();
    assert!(m.pause(&DeploymentSelector::Schema("sgd2".to_string())).is_ok());
    assert!(m.store().is_paused(1));
    assert!(m.resume(&DeploymentSelector::Subgraph("QmBeta".to_string())).is_ok());
    assert!(!m.store().is_paused(1));
}

#[test]
fn unknown_selector_is_not_found() {
    let mut m = engine();
    assert_eq!(m.pause(&name("sg/none")).unwrap_err(), MutationError::NotFound);
    assert_eq!(m.resume(&name("sg/none")).unwrap_err(), MutationError::NotFound);
    assert_eq!(m.unassign(&name("sg/none")).unwrap_err(), MutationError::NotFound);
    assert_eq!(m.reassign(&name("sg/none"), "node_1".to_string()).unwrap_err(), MutationError::NotFound);
    assert_eq!(m.restart(&name("sg/none"), None).unwrap_err(), MutationError::NotFound);
}

#[test]
fn shared_hash_is_ambiguous() {
    let mut m = engine();
    let sel = DeploymentSelector::Subgraph("QmAlpha".to_string());
    assert_eq!(m.pause(&sel).unwrap_err(), MutationError::Ambiguous);
    assert!(!m.store().is_paused(0));
    assert!(!m.store().is_paused(2));
}

#[test]
fn unassign_is_idempotent() {
    let mut m = engine();
    m.reassign(&name("sg/alpha"), "node_1".to_string()).unwrap();
    assert!(m.unassign(&name("sg/alpha")).is_ok());
    assert_eq!(node_of(&m, 0), None);
    assert!(m.unassign(&name("sg/alpha")).is_ok());
    assert_eq!(node_of(&m, 0), None);
}

#[test]
fn unassign_clears_paused_flag() {
    let mut m = engine();
    m.reassign(&name("sg/alpha"), "node_1".to_string()).unwrap();
    m.pause(&name("sg/alpha")).unwrap();
    m.unassign(&name("sg/alpha")).unwrap();
    assert!(!m.store().is_paused(0));
}

#[test]
fn reassign_last_writer_wins() {
    let mut m = engine();
    m.reassign(&name("sg/alpha"), "node_1".to_string()).unwrap();
    m.reassign(&name("sg/alpha"), "node_2".to_string()).unwrap();
    assert_eq!(node_of(&m, 0), Some("node_2".to_string()));
}

#[test]
fn reassign_keeps_paused_flag() {
    let mut m = engine();
    m.pause(&name("sg/beta")).unwrap();
    m.reassign(&name("sg/beta"), "node_1".to_string()).unwrap();
    assert!(m.store().is_paused(1));
}

#[test]
fn reassign_to_lone_node_warns() {
    let mut m = engine();
    let resp = m.reassign(&name("sg/alpha"), "index_node_7".to_string()).unwrap();
    assert_eq!(
        resp.warning,
        Some(
            "warning: this is the only deployment assigned to 'index_node_7'. Are you sure it is spelled correctly?"
                .to_string()
        )
    );
    assert!(resp.warning.unwrap().contains("index_node_7"));
}

#[test]
fn reassign_to_busy_node_gives_no_warning() {
    let mut m = engine();
    m.reassign(&name("sg/alpha"), "node_1".to_string()).unwrap();
    m.reassign(&name("sg/beta"), "node_1".to_string()).unwrap();
    let resp = m.reassign(&name("sg/gamma"), "node_1".to_string()).unwrap();
    assert_eq!(resp.warning, None);
}

#[test]
fn reassign_second_deployment_gives_no_warning() {
    let mut m = engine();
    let first = m.reassign(&name("sg/alpha"), "node_1".to_string()).unwrap();
    assert!(first.warning.is_some());
    let second = m.reassign(&name("sg/beta"), "node_1".to_string()).unwrap();
    assert_eq!(second.warning, None);
}

#[test]
fn reassign_empty_token_is_invalid() {
    let mut m = engine();
    m.reassign(&name("sg/alpha"), "node_1".to_string()).unwrap();
    assert_eq!(
        m.reassign(&name("sg/alpha"), String::new()).unwrap_err(),
        MutationError::InvalidNodeId(String::new())
    );
    assert_eq!(node_of(&m, 0), Some("node_1".to_string()));
}

#[test]
fn reassign_malformed_token_is_invalid_before_resolution() {
    let mut m = engine();
    assert_eq!(
        m.reassign(&name("sg/none"), "bad node!".to_string()).unwrap_err(),
        MutationError::InvalidNodeId("bad node!".to_string())
    );
    let long = "n".repeat(64);
    assert_eq!(
        m.reassign(&name("sg/alpha"), long.clone()).unwrap_err(),
        MutationError::InvalidNodeId(long)
    );
    assert_eq!(node_of(&m, 0), None);
}

#[test]
fn node_token_validation() {
    assert!(NodeId::new("index_node_0".to_string()).is_ok());
    assert!(NodeId::new("A9_z".to_string()).is_ok());
    assert!(NodeId::new("n".repeat(63)).is_ok());
    assert!(NodeId::new("n".repeat(64)).is_err());
    assert!(NodeId::new(String::new()).is_err());
    assert!(NodeId::new("node-1".to_string()).is_err());
    assert!(NodeId::new("nœud".to_string()).is_err());
    assert_eq!(NodeId::new("node_1".to_string()).unwrap().as_str(), "node_1");
}

#[test]
fn warning_only_for_a_count_of_one() {
    let node = NodeId::new("node_9".to_string()).unwrap();
    assert_eq!(reassign_warning(0, &node), None);
    assert_eq!(reassign_warning(2, &node), None);
    assert_eq!(
        reassign_warning(1, &node),
        Some("warning: this is the only deployment assigned to 'node_9'. Are you sure it is spelled correctly?".to_string())
    );
}

#[test]
fn restart_with_zero_delay_round_trips() {
    let mut m = engine();
    m.reassign(&name("sg/beta"), "node_1".to_string()).unwrap();
    let id = m.restart(&name("sg/beta"), Some(0)).unwrap();
    // Submission alone neither pauses nor waits.
    assert!(!m.store().is_paused(1));
    assert!(matches!(m.execution(id).unwrap().phase, ExecutionPhase::Submitted));
    assert_eq!(m.advance(id), NextStep::Wait(0));
    assert!(m.store().is_paused(1));
    assert!(matches!(m.execution(id).unwrap().phase, ExecutionPhase::Waiting));
    assert_eq!(m.advance(id), NextStep::Done);
    assert!(!m.store().is_paused(1));
    assert_eq!(node_of(&m, 1), Some("node_1".to_string()));
    assert!(matches!(m.execution(id).unwrap().phase, ExecutionPhase::Completed));
    assert_eq!(m.advance(id), NextStep::Done);
}

#[test]
fn restart_uses_default_delay() {
    let mut m = engine();
    let id = m.restart(&name("sg/alpha"), None).unwrap();
    assert_eq!(m.execution(id).unwrap().delay_seconds, DEFAULT_RESTART_DELAY_SECONDS);
    assert_eq!(m.advance(id), NextStep::Wait(20));
}

#[test]
fn restart_of_paused_deployment_fails_without_waiting() {
    let mut m = engine();
    m.pause(&name("sg/alpha")).unwrap();
    let id = m.restart(&name("sg/alpha"), Some(5)).unwrap();
    assert_eq!(m.advance(id), NextStep::Done);
    assert!(matches!(
        m.execution(id).unwrap().phase,
        ExecutionPhase::Failed(MutationError::AlreadyPaused)
    ));
    assert!(m.store().is_paused(0));
    assert_eq!(m.advance(id), NextStep::Done);
    assert!(m.store().is_paused(0));
}

#[test]
fn restart_records_failed_resume() {
    let mut m = engine();
    let id = m.restart(&name("sg/beta"), Some(1)).unwrap();
    assert_eq!(m.advance(id), NextStep::Wait(1));
    m.resume(&name("sg/beta")).unwrap();
    assert_eq!(m.advance(id), NextStep::Done);
    assert!(matches!(
        m.execution(id).unwrap().phase,
        ExecutionPhase::Failed(MutationError::NotPaused)
    ));
}

#[test]
fn concurrent_restarts_do_not_interfere() {
    let mut m = engine();
    let a = m.restart(&name("sg/alpha"), Some(0)).unwrap();
    let b = m.restart(&name("sg/beta"), Some(0)).unwrap();
    assert_ne!(a, b);
    assert_eq!(m.execution(a).unwrap().deployment, 0);
    assert_eq!(m.execution(b).unwrap().deployment, 1);
    assert_eq!(m.advance(b), NextStep::Wait(0));
    assert!(m.store().is_paused(1));
    assert!(!m.store().is_paused(0));
    assert_eq!(m.advance(a), NextStep::Wait(0));
    assert_eq!(m.advance(a), NextStep::Done);
    assert!(!m.store().is_paused(0));
    assert!(m.store().is_paused(1));
    assert_eq!(m.advance(b), NextStep::Done);
    assert!(!m.store().is_paused(1));
}

#[test]
fn unknown_execution_is_done() {
    let mut m = engine();
    assert!(m.execution(ExecutionId(3)).is_none());
    assert_eq!(m.advance(ExecutionId(3)), NextStep::Done);
}
