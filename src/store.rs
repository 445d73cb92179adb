use vstd::prelude::*;
use crate::node::NodeId;

verus! {

/// The ways an operator may name a deployment.
#[derive(Clone, Debug)]
pub enum DeploymentSelector {
    /// The subgraph name the deployment serves.
    Name(String),
    /// The content hash of the deployed subgraph.
    Subgraph(String),
    /// The database namespace of the deployment.
    Schema(String),
}

/// Why a command on a deployment failed.
#[derive(Clone, Debug, PartialEq, Eq)]
pub enum MutationError {
    /// The selector names no deployment.
    NotFound,
    /// The selector names more than one deployment.
    Ambiguous,
    /// Pause was asked of a deployment that is paused.
    AlreadyPaused,
    /// Resume was asked of a deployment that is not paused.
    NotPaused,
    /// The node token is malformed; the token is carried along.
    InvalidNodeId(String),
}

/// What identifies a deployment to a selector.
pub struct DeploymentKeys {
    pub name: String,
    pub hash: String,
    pub namespace: String,
}

/// The abstract state of one deployment.
pub struct DeploymentView {
    pub name: Seq<char>,
    pub hash: Seq<char>,
    pub namespace: Seq<char>,
    pub node: Option<Seq<char>>,
    pub paused: bool,
}

pub open spec fn node_view(n: Option<NodeId>) -> Option<Seq<char>> {
    match n {
        Some(x) => Some(x@),
        None => None,
    }
}

pub open spec fn with_paused(d: DeploymentView, paused: bool) -> DeploymentView {
    DeploymentView { name: d.name, hash: d.hash, namespace: d.namespace, node: d.node, paused }
}

pub open spec fn with_node(d: DeploymentView, node: Option<Seq<char>>) -> DeploymentView {
    DeploymentView { name: d.name, hash: d.hash, namespace: d.namespace, node, paused: d.paused }
}

/// Whether `sel` names deployment `d`.
pub open spec fn selects(sel: DeploymentSelector, d: DeploymentView) -> bool {
    match sel {
        DeploymentSelector::Name(s) => d.name == s@,
        DeploymentSelector::Subgraph(s) => d.hash == s@,
        DeploymentSelector::Schema(s) => d.namespace == s@,
    }
}

/// The positions among the first `n` deployments that `sel` names, in order.
pub open spec fn matches_upto(v: Seq<DeploymentView>, sel: DeploymentSelector, n: int) -> Seq<int>
    decreases n,
{
    if n <= 0 {
        Seq::empty()
    } else {
        let prev = matches_upto(v, sel, n - 1);
        if selects(sel, v[n - 1]) {
            prev.push(n - 1)
        } else {
            prev
        }
    }
}

/// The one deployment that `sel` names, or why there is none.
pub open spec fn resolve_spec(v: Seq<DeploymentView>, sel: DeploymentSelector) -> Result<int, MutationError> {
    let m = matches_upto(v, sel, v.len() as int);
    if m.len() == 0 {
        Err(MutationError::NotFound)
    } else if m.len() == 1 {
        Ok(m[0])
    } else {
        Err(MutationError::Ambiguous)
    }
}

/// How many of the first `n` deployments are assigned to `node`.
pub open spec fn count_upto(v: Seq<DeploymentView>, node: Seq<char>, n: int) -> nat
    decreases n,
{
    if n <= 0 {
        0
    } else {
        count_upto(v, node, n - 1) + if v[n - 1].node == Some(node) { 1nat } else { 0nat }
    }
}

/// How many deployments are assigned to `node`.
pub open spec fn assigned_count(v: Seq<DeploymentView>, node: Seq<char>) -> nat {
    count_upto(v, node, v.len() as int)
}

pub open spec fn pause_at_spec(v: Seq<DeploymentView>, i: int) -> Result<Seq<DeploymentView>, MutationError> {
    if v[i].paused {
        Err(MutationError::AlreadyPaused)
    } else {
        Ok(v.update(i, with_paused(v[i], true)))
    }
}

pub open spec fn resume_at_spec(v: Seq<DeploymentView>, i: int) -> Result<Seq<DeploymentView>, MutationError> {
    if !v[i].paused {
        Err(MutationError::NotPaused)
    } else {
        Ok(v.update(i, with_paused(v[i], false)))
    }
}

/// Unassigning clears the node and, with the assignment, its paused flag.
pub open spec fn unassign_at_spec(v: Seq<DeploymentView>, i: int) -> Seq<DeploymentView> {
    v.update(i, with_paused(with_node(v[i], None), false))
}

pub open spec fn reassign_at_spec(v: Seq<DeploymentView>, i: int, node: Seq<char>) -> Seq<DeploymentView> {
    v.update(i, with_node(v[i], Some(node)))
}

/// The pause command: the deployment's new state, or why it failed.
pub open spec fn pause_spec(v: Seq<DeploymentView>, sel: DeploymentSelector) -> Result<Seq<DeploymentView>, MutationError> {
    match resolve_spec(v, sel) {
        Ok(i) => pause_at_spec(v, i),
        Err(e) => Err(e),
    }
}

/// The resume command: the deployment's new state, or why it failed.
pub open spec fn resume_spec(v: Seq<DeploymentView>, sel: DeploymentSelector) -> Result<Seq<DeploymentView>, MutationError> {
    match resolve_spec(v, sel) {
        Ok(i) => resume_at_spec(v, i),
        Err(e) => Err(e),
    }
}

/// The unassign command: the deployment's new state, or why it failed.
pub open spec fn unassign_spec(v: Seq<DeploymentView>, sel: DeploymentSelector) -> Result<Seq<DeploymentView>, MutationError> {
    match resolve_spec(v, sel) {
        Ok(i) => Ok(unassign_at_spec(v, i)),
        Err(e) => Err(e),
    }
}

/// Two views that differ at most in assignments and paused flags.
pub open spec fn same_keys(v: Seq<DeploymentView>, w: Seq<DeploymentView>) -> bool {
    &&& v.len() == w.len()
    &&& forall|i: int| 0 <= i < v.len() ==> {
        &&& (#[trigger] v[i]).name == w[i].name
        &&& v[i].hash == w[i].hash
        &&& v[i].namespace == w[i].namespace
    }
}

pub proof fn lemma_matches_same_keys(v: Seq<DeploymentView>, w: Seq<DeploymentView>, sel: DeploymentSelector, n: int)
    requires
        same_keys(v, w),
        n <= v.len(),
    ensures
        matches_upto(v, sel, n) == matches_upto(w, sel, n),
    decreases n,
{
    if n > 0 {
        lemma_matches_same_keys(v, w, sel, n - 1);
        assert(v[n - 1].name == w[n - 1].name);
    }
}

pub proof fn lemma_resolve_same_keys(v: Seq<DeploymentView>, w: Seq<DeploymentView>, sel: DeploymentSelector)
    requires
        same_keys(v, w),
    ensures
        resolve_spec(v, sel) == resolve_spec(w, sel),
{
    lemma_matches_same_keys(v, w, sel, v.len() as int);
}

/// What `resolve_spec` picks is a position of the store.
pub proof fn lemma_resolve_bounded(v: Seq<DeploymentView>, sel: DeploymentSelector)
    ensures
        resolve_spec(v, sel) matches Ok(i) ==> 0 <= i < v.len(),
{
    lemma_matches_bounded(v, sel, v.len() as int);
    if matches_upto(v, sel, v.len() as int).len() == 1 {
        assert(0 <= matches_upto(v, sel, v.len() as int)[0] < v.len());
    }
}

pub proof fn lemma_matches_bounded(v: Seq<DeploymentView>, sel: DeploymentSelector, n: int)
    requires
        0 <= n <= v.len(),
    ensures
        forall|k: int| 0 <= k < matches_upto(v, sel, n).len() ==> 0 <= #[trigger] matches_upto(v, sel, n)[k] < n,
    decreases n,
{
    if n > 0 {
        lemma_matches_bounded(v, sel, n - 1);
        let prev = matches_upto(v, sel, n - 1);
        assert forall|k: int| 0 <= k < matches_upto(v, sel, n).len() implies 0 <= #[trigger] matches_upto(v, sel, n)[k] < n by {
            if k < prev.len() {
                assert(matches_upto(v, sel, n)[k] == prev[k]);
            }
        }
    }
}

/// The durable record of deployments, their assignments and paused flags.
pub struct AssignmentStore {
    keys: Vec<DeploymentKeys>,
    nodes: Vec<Option<NodeId>>,
    paused: Vec<bool>,
}

impl View for AssignmentStore {
    type V = Seq<DeploymentView>;

    closed spec fn view(&self) -> Seq<DeploymentView> {
        Seq::new(
            self.keys@.len(),
            |i: int|
                DeploymentView {
                    name: self.keys@[i].name@,
                    hash: self.keys@[i].hash@,
                    namespace: self.keys@[i].namespace@,
                    node: node_view(self.nodes@[i]),
                    paused: self.paused@[i],
                },
        )
    }
}

fn selector_matches(sel: &DeploymentSelector, k: &DeploymentKeys) -> (r: bool)
    ensures
        r == (match *sel {
            DeploymentSelector::Name(s) => k.name@ == s@,
            DeploymentSelector::Subgraph(s) => k.hash@ == s@,
            DeploymentSelector::Schema(s) => k.namespace@ == s@,
        }),
{
    match sel {
        DeploymentSelector::Name(s) => k.name == *s,
        DeploymentSelector::Subgraph(s) => k.hash == *s,
        DeploymentSelector::Schema(s) => k.namespace == *s,
    }
}

impl AssignmentStore {
    pub closed spec fn wf(&self) -> bool {
        &&& self.nodes@.len() == self.keys@.len()
        &&& self.paused@.len() == self.keys@.len()
    }

    /// A store with no deployments.
    pub fn new() -> (r: AssignmentStore)
        ensures
            r.wf(),
            r@ == Seq::<DeploymentView>::empty(),
    {
        let r = AssignmentStore { keys: Vec::new(), nodes: Vec::new(), paused: Vec::new() };
        assert(r@ =~= Seq::<DeploymentView>::empty());
        r
    }

    /// The number of deployments.
    pub fn len(&self) -> (r: usize)
        requires
            self.wf(),
        ensures
            r == self@.len(),
    {
        self.keys.len()
    }

    /// Registers a deployment, unassigned and not paused; returns its position.
    pub fn register(&mut self, name: String, hash: String, namespace: String) -> (r: usize)
        requires
            old(self).wf(),
        ensures
            final(self).wf(),
            r == old(self)@.len(),
            final(self)@ == old(self)@.push(
                DeploymentView { name: name@, hash: hash@, namespace: namespace@, node: None, paused: false },
            ),
    {
        let r = self.keys.len();
        let ghost d = DeploymentView { name: name@, hash: hash@, namespace: namespace@, node: None, paused: false };
        self.keys.push(DeploymentKeys { name, hash, namespace });
        self.nodes.push(None);
        self.paused.push(false);
        assert(self@ =~= old(self)@.push(d));
        r
    }

    /// Whether the deployment at `i` is paused.
    pub fn is_paused(&self, i: usize) -> (r: bool)
        requires
            self.wf(),
            i < self@.len(),
        ensures
            r == self@[i as int].paused,
    {
        self.paused[i]
    }

    /// The node the deployment at `i` is assigned to, if any.
    pub fn assigned_node(&self, i: usize) -> (r: Option<&NodeId>)
        requires
            self.wf(),
            i < self@.len(),
        ensures
            match r {
                Some(n) => self@[i as int].node == Some(n@),
                None => self@[i as int].node is None,
            },
    {
        match &self.nodes[i] {
            Some(n) => Some(n),
            None => None,
        }
    }

    /// Turns a selector into the position of the one deployment it names.
    pub fn resolve(&self, sel: &DeploymentSelector) -> (r: Result<usize, MutationError>)
        requires
            self.wf(),
        ensures
            match r {
                Ok(k) => resolve_spec(self@, *sel) == Ok::<int, MutationError>(k as int) && k < self@.len(),
                Err(e) => resolve_spec(self@, *sel) == Err::<int, MutationError>(e),
            },
    {
        let n = self.keys.len();
        let mut count: usize = 0;
        let mut found: usize = 0;
        let mut i: usize = 0;
        while i < n
            invariant
                self.wf(),
                n == self@.len(),
                i <= n,
                count <= 2,
                count == (if matches_upto(self@, *sel, i as int).len() >= 2 { 2 } else { matches_upto(self@, *sel, i as int).len() }),
                count >= 1 ==> found == matches_upto(self@, *sel, i as int)[0] && found < i,
            decreases n - i,
        {
            if selector_matches(sel, &self.keys[i]) {
                if count == 0 {
                    found = i;
                }
                if count < 2 {
                    count = count + 1;
                }
            }
            i = i + 1;
        }
        if count == 0 {
            Err(MutationError::NotFound)
        } else if count == 1 {
            Ok(found)
        } else {
            Err(MutationError::Ambiguous)
        }
    }

    /// Pauses the deployment at `i` unless it is paused already.
    pub fn pause_at(&mut self, i: usize) -> (r: Result<(), MutationError>)
        requires
            old(self).wf(),
            i < old(self)@.len(),
        ensures
            final(self).wf(),
            final(self)@.len() == old(self)@.len(),
            match pause_at_spec(old(self)@, i as int) {
                Ok(v) => r is Ok && final(self)@ == v,
                Err(e) => r == Err::<(), MutationError>(e) && final(self)@ == old(self)@,
            },
    {
        if self.paused[i] {
            return Err(MutationError::AlreadyPaused);
        }
        self.paused.set(i, true);
        assert(self@ =~= old(self)@.update(i as int, with_paused(old(self)@[i as int], true)));
        Ok(())
    }

    /// Resumes the deployment at `i` if it is paused.
    pub fn resume_at(&mut self, i: usize) -> (r: Result<(), MutationError>)
        requires
            old(self).wf(),
            i < old(self)@.len(),
        ensures
            final(self).wf(),
            final(self)@.len() == old(self)@.len(),
            match resume_at_spec(old(self)@, i as int) {
                Ok(v) => r is Ok && final(self)@ == v,
                Err(e) => r == Err::<(), MutationError>(e) && final(self)@ == old(self)@,
            },
    {
        if !self.paused[i] {
            return Err(MutationError::NotPaused);
        }
        self.paused.set(i, false);
        assert(self@ =~= old(self)@.update(i as int, with_paused(old(self)@[i as int], false)));
        Ok(())
    }

    /// Clears the assignment of the deployment at `i`.
    pub fn unassign_at(&mut self, i: usize)
        requires
            old(self).wf(),
            i < old(self)@.len(),
        ensures
            final(self).wf(),
            final(self)@.len() == old(self)@.len(),
            final(self)@ == unassign_at_spec(old(self)@, i as int),
    {
        self.nodes.set(i, None);
        self.paused.set(i, false);
        assert(self@ =~= unassign_at_spec(old(self)@, i as int));
    }

    /// Assigns the deployment at `i` to `node`, replacing any earlier node.
    pub fn reassign_at(&mut self, i: usize, node: NodeId)
        requires
            old(self).wf(),
            i < old(self)@.len(),
        ensures
            final(self).wf(),
            final(self)@.len() == old(self)@.len(),
            final(self)@ == reassign_at_spec(old(self)@, i as int, node@),
    {
        let ghost nv = node@;
        self.nodes.set(i, Some(node));
        assert(self@ =~= reassign_at_spec(old(self)@, i as int, nv));
    }

    /// How many deployments are assigned to `node`.
    pub fn assignments(&self, node: &NodeId) -> (r: usize)
        requires
            self.wf(),
        ensures
            r == assigned_count(self@, node@),
    {
        let n = self.nodes.len();
        let mut count: usize = 0;
        let mut i: usize = 0;
        while i < n
            invariant
                self.wf(),
                n == self@.len(),
                i <= n,
                count == count_upto(self@, node@, i as int),
                count <= i,
            decreases n - i,
        {
            let hit = match &self.nodes[i] {
                Some(m) => m.same_as(node),
                None => false,
            };
            if hit {
                count = count + 1;
            }
            i = i + 1;
        }
        count
    }
}

} // verus!
