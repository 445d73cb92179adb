use vstd::prelude::*;
use vstd::string::*;
use crate::node::{valid_node_token, NodeId};
use crate::store::{
    assigned_count, lemma_resolve_bounded, pause_at_spec, pause_spec, reassign_at_spec, resolve_spec,
    resume_at_spec, resume_spec, unassign_spec, AssignmentStore, DeploymentSelector, DeploymentView,
    MutationError,
};

verus! {

/// The delay of a restart, in seconds, when the caller gives none.
pub const DEFAULT_RESTART_DELAY_SECONDS: u64 = 20;

/// The acknowledgement of a command, with an optional advisory warning.
#[derive(Clone, Debug)]
pub struct EmptyResponse {
    pub warning: Option<String>,
}

impl EmptyResponse {
    pub fn new(warning: Option<String>) -> (r: EmptyResponse)
        ensures
            r.warning == warning,
    {
        EmptyResponse { warning }
    }
}

/// The identity of a background restart: its position in the execution table.
#[derive(Clone, Copy, Debug, PartialEq, Eq, Structural)]
pub struct ExecutionId(pub usize);

/// Where a background restart stands.
#[derive(Clone, Debug)]
pub enum ExecutionPhase {
    /// Accepted; the pause has not been attempted yet.
    Submitted,
    /// Paused; waiting for the delay to pass before resuming.
    Waiting,
    /// Paused and resumed.
    Completed,
    /// The pause or the resume failed with the given error.
    Failed(MutationError),
}

/// One background restart of a deployment.
#[derive(Clone, Debug)]
pub struct Execution {
    /// The position of the deployment in the store.
    pub deployment: usize,
    pub delay_seconds: u64,
    pub phase: ExecutionPhase,
}

/// What the runner of an execution does next.
#[derive(Clone, Copy, Debug, PartialEq, Eq, Structural)]
pub enum NextStep {
    /// Sleep this many seconds, then advance the execution again.
    Wait(u64),
    /// The execution has reached a final phase.
    Done,
}

/// The abstract state: the deployments and the table of executions.
pub struct MutationView {
    pub deployments: Seq<DeploymentView>,
    pub executions: Seq<Execution>,
}

pub open spec fn warning_view(w: Option<String>) -> Option<Seq<char>> {
    match w {
        Some(s) => Some(s@),
        None => None,
    }
}

/// The caution given when `node` holds a single deployment.
pub open spec fn warning_text(node: Seq<char>) -> Seq<char> {
    "warning: this is the only deployment assigned to '"@ + node
        + "'. Are you sure it is spelled correctly?"@
}

/// The warning after a reassignment to `node`, given how many deployments it holds.
pub open spec fn warning_spec(count: nat, node: Seq<char>) -> Option<Seq<char>> {
    if count == 1 {
        Some(warning_text(node))
    } else {
        None
    }
}

/// The reassign command: the new deployments and the warning, or why it failed.
pub open spec fn reassign_spec(v: Seq<DeploymentView>, sel: DeploymentSelector, node: String) -> Result<
    (Seq<DeploymentView>, Option<Seq<char>>),
    MutationError,
> {
    if !valid_node_token(node@) {
        Err(MutationError::InvalidNodeId(node))
    } else {
        match resolve_spec(v, sel) {
            Ok(i) => {
                let w = reassign_at_spec(v, i, node@);
                Ok((w, warning_spec(assigned_count(w, node@), node@)))
            },
            Err(e) => Err(e),
        }
    }
}

pub open spec fn delay_or_default(delay: Option<u64>) -> u64 {
    match delay {
        Some(d) => d,
        None => DEFAULT_RESTART_DELAY_SECONDS,
    }
}

/// The restart command: the state with a new submitted execution and its identity.
pub open spec fn restart_spec(m: MutationView, sel: DeploymentSelector, delay: Option<u64>) -> Result<
    (MutationView, ExecutionId),
    MutationError,
> {
    match resolve_spec(m.deployments, sel) {
        Ok(i) => Ok(
            (
                MutationView {
                    deployments: m.deployments,
                    executions: m.executions.push(
                        Execution {
                            deployment: i as usize,
                            delay_seconds: delay_or_default(delay),
                            phase: ExecutionPhase::Submitted,
                        },
                    ),
                },
                ExecutionId(m.executions.len() as usize),
            ),
        ),
        Err(e) => Err(e),
    }
}

pub open spec fn with_phase(e: Execution, phase: ExecutionPhase) -> Execution {
    Execution { deployment: e.deployment, delay_seconds: e.delay_seconds, phase }
}

pub open spec fn set_phase(m: MutationView, k: int, phase: ExecutionPhase) -> Seq<Execution> {
    m.executions.update(k, with_phase(m.executions[k], phase))
}

/// One step of a background restart: a submitted one pauses its deployment
/// and waits, a waiting one resumes it; a failure ends the execution.
pub open spec fn advance_spec(m: MutationView, id: ExecutionId) -> (MutationView, NextStep) {
    let k = id.0 as int;
    if k >= m.executions.len() {
        (m, NextStep::Done)
    } else {
        let e = m.executions[k];
        match e.phase {
            ExecutionPhase::Submitted => match pause_at_spec(m.deployments, e.deployment as int) {
                Ok(v) => (
                    MutationView { deployments: v, executions: set_phase(m, k, ExecutionPhase::Waiting) },
                    NextStep::Wait(e.delay_seconds),
                ),
                Err(err) => (
                    MutationView {
                        deployments: m.deployments,
                        executions: set_phase(m, k, ExecutionPhase::Failed(err)),
                    },
                    NextStep::Done,
                ),
            },
            ExecutionPhase::Waiting => match resume_at_spec(m.deployments, e.deployment as int) {
                Ok(v) => (
                    MutationView { deployments: v, executions: set_phase(m, k, ExecutionPhase::Completed) },
                    NextStep::Done,
                ),
                Err(err) => (
                    MutationView {
                        deployments: m.deployments,
                        executions: set_phase(m, k, ExecutionPhase::Failed(err)),
                    },
                    NextStep::Done,
                ),
            },
            _ => (m, NextStep::Done),
        }
    }
}

/// Builds the warning for a reassignment to `node`, which now holds `count` deployments.
pub fn reassign_warning(count: usize, node: &NodeId) -> (r: Option<String>)
    ensures
        warning_view(r) == warning_spec(count as nat, node@),
{
    if count == 1 {
        let mut s = String::from_str("warning: this is the only deployment assigned to '");
        s.append(node.as_str());
        s.append("'. Are you sure it is spelled correctly?");
        Some(s)
    } else {
        None
    }
}

/// Operator commands on deployments, over the store and the execution table.
pub struct DeploymentMutation {
    store: AssignmentStore,
    executions: Vec<Execution>,
}

impl View for DeploymentMutation {
    type V = MutationView;

    closed spec fn view(&self) -> MutationView {
        MutationView { deployments: self.store@, executions: self.executions@ }
    }
}

impl DeploymentMutation {
    pub closed spec fn wf(&self) -> bool {
        &&& self.store.wf()
        &&& forall|k: int| 0 <= k < self.executions@.len() ==> (#[trigger] self.executions@[k]).deployment < self.store@.len()
    }

    /// An engine over `store`, with no executions.
    pub fn new(store: AssignmentStore) -> (r: DeploymentMutation)
        requires
            store.wf(),
        ensures
            r.wf(),
            r@.deployments == store@,
            r@.executions == Seq::<Execution>::empty(),
    {
        DeploymentMutation { store, executions: Vec::new() }
    }

    /// The store of deployments.
    pub fn store(&self) -> (r: &AssignmentStore)
        requires
            self.wf(),
        ensures
            r.wf(),
            r@ == self@.deployments,
    {
        &self.store
    }

    /// The execution with identity `id`, if there is one.
    pub fn execution(&self, id: ExecutionId) -> (r: Option<&Execution>)
        ensures
            match r {
                Some(e) => id.0 < self@.executions.len() && *e == self@.executions[id.0 as int],
                None => id.0 >= self@.executions.len(),
            },
    {
        if id.0 < self.executions.len() {
            Some(&self.executions[id.0])
        } else {
            None
        }
    }

    /// Pauses a deployment that is not already paused.
    pub fn pause(&mut self, deployment: &DeploymentSelector) -> (r: Result<EmptyResponse, MutationError>)
        requires
            old(self).wf(),
        ensures
            final(self).wf(),
            final(self)@.executions == old(self)@.executions,
            match pause_spec(old(self)@.deployments, *deployment) {
                Ok(v) => r matches Ok(resp) && resp.warning is None && final(self)@.deployments == v,
                Err(e) => r matches Err(x) && x == e && final(self)@.deployments == old(self)@.deployments,
            },
    {
        let i = match self.store.resolve(deployment) {
            Ok(i) => i,
            Err(e) => {
                return Err(e);
            },
        };
        if let Err(e) = self.store.pause_at(i) {
            return Err(e);
        }
        Ok(EmptyResponse::new(None))
    }

    /// Resumes a deployment that has been paused.
    pub fn resume(&mut self, deployment: &DeploymentSelector) -> (r: Result<EmptyResponse, MutationError>)
        requires
            old(self).wf(),
        ensures
            final(self).wf(),
            final(self)@.executions == old(self)@.executions,
            match resume_spec(old(self)@.deployments, *deployment) {
                Ok(v) => r matches Ok(resp) && resp.warning is None && final(self)@.deployments == v,
                Err(e) => r matches Err(x) && x == e && final(self)@.deployments == old(self)@.deployments,
            },
    {
        let i = match self.store.resolve(deployment) {
            Ok(i) => i,
            Err(e) => {
                return Err(e);
            },
        };
        if let Err(e) = self.store.resume_at(i) {
            return Err(e);
        }
        Ok(EmptyResponse::new(None))
    }

    /// Clears the assignment of a deployment; an unassigned one stays so.
    pub fn unassign(&mut self, deployment: &DeploymentSelector) -> (r: Result<EmptyResponse, MutationError>)
        requires
            old(self).wf(),
        ensures
            final(self).wf(),
            final(self)@.executions == old(self)@.executions,
            match unassign_spec(old(self)@.deployments, *deployment) {
                Ok(v) => r matches Ok(resp) && resp.warning is None && final(self)@.deployments == v,
                Err(e) => r matches Err(x) && x == e && final(self)@.deployments == old(self)@.deployments,
            },
    {
        let i = match self.store.resolve(deployment) {
            Ok(i) => i,
            Err(e) => {
                return Err(e);
            },
        };
        self.store.unassign_at(i);
        Ok(EmptyResponse::new(None))
    }

    /// Assigns a deployment to `node`, which must be a well-formed token. The
    /// response warns when the node now holds this deployment alone.
    pub fn reassign(&mut self, deployment: &DeploymentSelector, node: String) -> (r: Result<EmptyResponse, MutationError>)
        requires
            old(self).wf(),
        ensures
            final(self).wf(),
            final(self)@.executions == old(self)@.executions,
            match reassign_spec(old(self)@.deployments, *deployment, node) {
                Ok((v, w)) => r matches Ok(resp) && warning_view(resp.warning) == w && final(self)@.deployments == v,
                Err(e) => r matches Err(x) && x == e && final(self)@.deployments == old(self)@.deployments,
            },
    {
        let node_id = match NodeId::new(node.clone()) {
            Ok(n) => n,
            Err(()) => {
                return Err(MutationError::InvalidNodeId(node));
            },
        };
        let i = match self.store.resolve(deployment) {
            Ok(i) => i,
            Err(e) => {
                return Err(e);
            },
        };
        let target = node_id.duplicate();
        self.store.reassign_at(i, node_id);
        let count = self.store.assignments(&target);
        Ok(EmptyResponse::new(reassign_warning(count, &target)))
    }

    /// Accepts a restart of a deployment for background execution and returns
    /// its identity; the pause and the resume happen in later steps.
    pub fn restart(&mut self, deployment: &DeploymentSelector, delay_seconds: Option<u64>) -> (r: Result<ExecutionId, MutationError>)
        requires
            old(self).wf(),
        ensures
            final(self).wf(),
            match restart_spec(old(self)@, *deployment, delay_seconds) {
                Ok((m, id)) => r == Ok::<ExecutionId, MutationError>(id) && final(self)@ == m,
                Err(e) => r matches Err(x) && x == e && final(self)@ == old(self)@,
            },
    {
        let i = match self.store.resolve(deployment) {
            Ok(i) => i,
            Err(e) => {
                return Err(e);
            },
        };
        let delay = match delay_seconds {
            Some(d) => d,
            None => DEFAULT_RESTART_DELAY_SECONDS,
        };
        let id = ExecutionId(self.executions.len());
        self.executions.push(Execution { deployment: i, delay_seconds: delay, phase: ExecutionPhase::Submitted });
        Ok(id)
    }

    /// Takes one step of the execution `id`; an unknown or finished one is left as it is.
    pub fn advance(&mut self, id: ExecutionId) -> (r: NextStep)
        requires
            old(self).wf(),
        ensures
            final(self).wf(),
            (final(self)@, r) == advance_spec(old(self)@, id),
    {
        if id.0 >= self.executions.len() {
            return NextStep::Done;
        }
        let k = id.0;
        let d = self.executions[k].deployment;
        let delay = self.executions[k].delay_seconds;
        let stage: u8 = match &self.executions[k].phase {
            ExecutionPhase::Submitted => 0,
            ExecutionPhase::Waiting => 1,
            _ => 2,
        };
        if stage == 0 {
            match self.store.pause_at(d) {
                Ok(()) => {
                    self.executions.set(k, Execution { deployment: d, delay_seconds: delay, phase: ExecutionPhase::Waiting });
                    NextStep::Wait(delay)
                },
                Err(e) => {
                    self.executions.set(k, Execution { deployment: d, delay_seconds: delay, phase: ExecutionPhase::Failed(e) });
                    NextStep::Done
                },
            }
        } else if stage == 1 {
            match self.store.resume_at(d) {
                Ok(()) => {
                    self.executions.set(k, Execution { deployment: d, delay_seconds: delay, phase: ExecutionPhase::Completed });
                    NextStep::Done
                },
                Err(e) => {
                    self.executions.set(k, Execution { deployment: d, delay_seconds: delay, phase: ExecutionPhase::Failed(e) });
                    NextStep::Done
                },
            }
        } else {
            NextStep::Done
        }
    }
}

} // verus!
