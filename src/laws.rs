use vstd::prelude::*;
use crate::mutation::{
    advance_spec, reassign_spec, restart_spec, warning_text, ExecutionPhase, MutationView, NextStep,
};
use crate::node::valid_node_token;
use crate::store::{
    assigned_count, count_upto, lemma_resolve_bounded, lemma_resolve_same_keys, pause_spec,
    reassign_at_spec, resolve_spec, resume_spec, same_keys, unassign_spec, DeploymentSelector,
    DeploymentView, MutationError,
};

verus! {

/// Pausing a deployment that is not paused succeeds, and pausing it again
/// right after fails with `AlreadyPaused`.
pub proof fn pause_then_pause_fails(v: Seq<DeploymentView>, sel: DeploymentSelector)
    requires
        resolve_spec(v, sel) matches Ok(i) && !v[i].paused,
    ensures
        pause_spec(v, sel) is Ok,
        pause_spec(pause_spec(v, sel)->Ok_0, sel) == Err::<Seq<DeploymentView>, MutationError>(
            MutationError::AlreadyPaused,
        ),
{
    lemma_resolve_bounded(v, sel);
    let w = pause_spec(v, sel)->Ok_0;
    assert(same_keys(v, w));
    lemma_resolve_same_keys(v, w, sel);
}

/// Resuming a paused deployment succeeds, and resuming it again right after
/// fails with `NotPaused`.
pub proof fn resume_then_resume_fails(v: Seq<DeploymentView>, sel: DeploymentSelector)
    requires
        resolve_spec(v, sel) matches Ok(i) && v[i].paused,
    ensures
        resume_spec(v, sel) is Ok,
        resume_spec(resume_spec(v, sel)->Ok_0, sel) == Err::<Seq<DeploymentView>, MutationError>(
            MutationError::NotPaused,
        ),
{
    lemma_resolve_bounded(v, sel);
    let w = resume_spec(v, sel)->Ok_0;
    assert(same_keys(v, w));
    lemma_resolve_same_keys(v, w, sel);
}

/// Unassigning is idempotent: two unassigns in a row both succeed, the
/// second changes nothing, and the deployment is left without a node.
pub proof fn unassign_twice(v: Seq<DeploymentView>, sel: DeploymentSelector)
    requires
        resolve_spec(v, sel) is Ok,
    ensures
        unassign_spec(v, sel) is Ok,
        unassign_spec(unassign_spec(v, sel)->Ok_0, sel) == unassign_spec(v, sel),
        unassign_spec(v, sel)->Ok_0[resolve_spec(v, sel)->Ok_0].node is None,
{
    lemma_resolve_bounded(v, sel);
    let i = resolve_spec(v, sel)->Ok_0;
    let w = unassign_spec(v, sel)->Ok_0;
    assert(same_keys(v, w));
    lemma_resolve_same_keys(v, w, sel);
    assert(unassign_spec(w, sel)->Ok_0 =~= w);
}

/// The last reassignment wins: after reassigning to `n1` (whether or not it
/// succeeded) and then to a well-formed `n2`, the deployment is on `n2`.
pub proof fn reassign_last_writer_wins(v: Seq<DeploymentView>, sel: DeploymentSelector, n1: String, n2: String)
    requires
        resolve_spec(v, sel) is Ok,
        valid_node_token(n2@),
    ensures
        ({
            let w = match reassign_spec(v, sel, n1) {
                Ok((w, _)) => w,
                Err(_) => v,
            };
            reassign_spec(w, sel, n2) matches Ok((u, _)) && u[resolve_spec(v, sel)->Ok_0].node == Some(n2@)
        }),
{
    lemma_resolve_bounded(v, sel);
    let i = resolve_spec(v, sel)->Ok_0;
    let w = match reassign_spec(v, sel, n1) {
        Ok((w, _)) => w,
        Err(_) => v,
    };
    assert(same_keys(v, w));
    lemma_resolve_same_keys(v, w, sel);
}

/// When a reassignment leaves the node with this deployment alone, the
/// response warns, and the warning names the node.
pub proof fn reassign_lone_node_warns(v: Seq<DeploymentView>, sel: DeploymentSelector, n: String)
    requires
        reassign_spec(v, sel, n) matches Ok((w, _)) && assigned_count(w, n@) == 1,
    ensures
        reassign_spec(v, sel, n) matches Ok((_, warning)) && warning == Some(warning_text(n@)),
        exists|p: int|
            0 <= p && p + n@.len() <= warning_text(n@).len() && #[trigger] warning_text(n@).subrange(p, p + n@.len()) == n@,
{
    let p = "warning: this is the only deployment assigned to '"@.len() as int;
    assert(warning_text(n@).subrange(p, p + n@.len()) =~= n@);
}

proof fn lemma_count_grows(v: Seq<DeploymentView>, i: int, node: Seq<char>, k: int)
    requires
        0 <= i < v.len(),
        k <= v.len(),
    ensures
        count_upto(reassign_at_spec(v, i, node), node, k) >= count_upto(v, node, k),
    decreases k,
{
    if k > 0 {
        lemma_count_grows(v, i, node, k - 1);
    }
}

/// Reassigning to a node that already holds two or more deployments gives
/// no warning.
pub proof fn reassign_busy_node_no_warning(v: Seq<DeploymentView>, sel: DeploymentSelector, n: String)
    requires
        resolve_spec(v, sel) is Ok,
        valid_node_token(n@),
        assigned_count(v, n@) >= 2,
    ensures
        reassign_spec(v, sel, n) matches Ok((_, warning)) && warning is None,
{
    lemma_resolve_bounded(v, sel);
    let i = resolve_spec(v, sel)->Ok_0;
    lemma_count_grows(v, i, n@, v.len() as int);
}

/// A malformed node token fails with `InvalidNodeId` carrying the token,
/// whatever the selector, and no state is produced.
pub proof fn reassign_invalid_token_fails(v: Seq<DeploymentView>, sel: DeploymentSelector, n: String)
    requires
        !valid_node_token(n@),
    ensures
        reassign_spec(v, sel, n) == Err::<(Seq<DeploymentView>, Option<Seq<char>>), MutationError>(
            MutationError::InvalidNodeId(n),
        ),
{
}

/// A restart with no delay returns its identity without touching the
/// deployment; its first step pauses it and asks for no wait, its second
/// resumes it, and the deployment ends as it was.
pub proof fn restart_round_trip(m: MutationView, sel: DeploymentSelector)
    requires
        m.deployments.len() <= usize::MAX,
        m.executions.len() < usize::MAX,
        resolve_spec(m.deployments, sel) matches Ok(i) && !m.deployments[i].paused,
    ensures
        restart_spec(m, sel, Some(0u64)) matches Ok((m1, id)) && {
            &&& m1.deployments == m.deployments
            &&& advance_spec(m1, id).1 == NextStep::Wait(0)
            &&& advance_spec(advance_spec(m1, id).0, id).1 == NextStep::Done
            &&& advance_spec(advance_spec(m1, id).0, id).0.deployments == m.deployments
            &&& advance_spec(advance_spec(m1, id).0, id).0.executions[id.0 as int].phase is Completed
        },
{
    lemma_resolve_bounded(m.deployments, sel);
    let (m1, id) = restart_spec(m, sel, Some(0u64))->Ok_0;
    let m2 = advance_spec(m1, id).0;
    let m3 = advance_spec(m2, id).0;
    assert(m3.deployments =~= m.deployments);
}

/// A restart of a deployment that is already paused fails at its first
/// step with `AlreadyPaused`, never waits, and never resumes: later steps
/// change nothing.
pub proof fn restart_of_paused_fails(m: MutationView, sel: DeploymentSelector, delay: Option<u64>)
    requires
        m.deployments.len() <= usize::MAX,
        m.executions.len() < usize::MAX,
        resolve_spec(m.deployments, sel) matches Ok(i) && m.deployments[i].paused,
    ensures
        restart_spec(m, sel, delay) matches Ok((m1, id)) && {
            &&& advance_spec(m1, id).1 == NextStep::Done
            &&& advance_spec(m1, id).0.deployments == m.deployments
            &&& advance_spec(m1, id).0.executions[id.0 as int].phase == ExecutionPhase::Failed(
                MutationError::AlreadyPaused,
            )
            &&& advance_spec(advance_spec(m1, id).0, id) == advance_spec(m1, id)
        },
{
    lemma_resolve_bounded(m.deployments, sel);
}

/// Restarts of two different deployments get different identities, and each
/// execution tracks its own deployment.
pub proof fn restarts_are_independent(
    m: MutationView,
    sel1: DeploymentSelector,
    d1: Option<u64>,
    sel2: DeploymentSelector,
    d2: Option<u64>,
)
    requires
        m.deployments.len() <= usize::MAX,
        m.executions.len() + 1 < usize::MAX,
        resolve_spec(m.deployments, sel1) matches Ok(i) && resolve_spec(m.deployments, sel2) matches Ok(j) && i != j,
    ensures
        restart_spec(m, sel1, d1) matches Ok((m1, id1)) && restart_spec(m1, sel2, d2) matches Ok((m2, id2)) && {
            &&& id1 != id2
            &&& m2.executions[id1.0 as int].deployment == resolve_spec(m.deployments, sel1)->Ok_0
            &&& m2.executions[id2.0 as int].deployment == resolve_spec(m.deployments, sel2)->Ok_0
        },
{
    lemma_resolve_bounded(m.deployments, sel1);
    lemma_resolve_bounded(m.deployments, sel2);
}

} // verus!
