//! Waiting for the cluster to converge, and what to do once it has or has not.
use vstd::prelude::*;

verus! {

/// How many times the gossip table is inspected before waiting stops.
pub const CONVERGE_ATTEMPTS: u32 = 30;

/// What follows one inspection of the gossip table.
#[derive(PartialEq, Eq, Structural, Clone, Copy, Debug)]
pub enum ConvergeAction {
    /// Enough nodes with valid addresses are known: stop waiting.
    Converged,
    /// Wait a second and look again; `report_count` asks to report how many
    /// nodes were found, which is known once the leader is.
    KeepWaiting { report_count: bool },
}

/// The inspections made so far.
pub struct ConvergeWatch {
    pub attempts: u32,
}

/// The action after an inspection that found the leader or not and
/// `valid_nodes` nodes with valid addresses, when `num_nodes` are wanted.
pub open spec fn converge_action(leader_known: bool, valid_nodes: int, num_nodes: int) -> ConvergeAction {
    if leader_known && valid_nodes >= num_nodes {
        ConvergeAction::Converged
    } else {
        ConvergeAction::KeepWaiting { report_count: leader_known }
    }
}

impl ConvergeWatch {
    /// No inspection made yet.
    pub fn new() -> (r: Self)
        ensures
            r.attempts == 0,
    {
        ConvergeWatch { attempts: 0 }
    }

    /// Whether the table may be inspected again.
    pub fn may_inspect(&self) -> (r: bool)
        ensures
            r == (self.attempts < CONVERGE_ATTEMPTS),
    {
        self.attempts < CONVERGE_ATTEMPTS
    }

    /// Takes in one inspection of the table.
    pub fn observe(&mut self, leader_known: bool, valid_nodes: usize, num_nodes: usize) -> (r:
        ConvergeAction)
        requires
            old(self).attempts < CONVERGE_ATTEMPTS,
        ensures
            final(self).attempts == old(self).attempts + 1,
            r == converge_action(leader_known, valid_nodes as int, num_nodes as int),
            leader_known && valid_nodes >= num_nodes ==> r == ConvergeAction::Converged,
            !(leader_known && valid_nodes >= num_nodes) ==> (r == (ConvergeAction::KeepWaiting {
                report_count: leader_known,
            })),
    {
        self.attempts = self.attempts + 1;
        if leader_known && valid_nodes >= num_nodes {
            ConvergeAction::Converged
        } else {
            ConvergeAction::KeepWaiting { report_count: leader_known }
        }
    }
}

/// Why the benchmark cannot start after waiting for the cluster.
#[derive(PartialEq, Eq, Structural, Clone, Copy, Debug)]
pub enum ConvergeError {
    /// Fewer nodes than wanted were found.
    InsufficientNodes,
    /// More nodes than wanted were found where exactly that many are required.
    ExtraNodes,
    /// No leader is known.
    NoLeader,
}

/// How the benchmark goes on once the cluster is usable.
#[derive(PartialEq, Eq, Structural, Clone, Copy, Debug)]
pub enum LaunchPlan {
    /// Only convergence was asked for: stop here.
    ConvergeOnly,
    /// Run the benchmark.
    Run,
}

/// The outcome of waiting, in the order in which its conditions are checked.
pub open spec fn launch_outcome(
    found: int,
    num_nodes: int,
    reject_extra_nodes: bool,
    leader_known: bool,
    converge_only: bool,
) -> Result<LaunchPlan, ConvergeError> {
    if found < num_nodes {
        Err(ConvergeError::InsufficientNodes)
    } else if reject_extra_nodes && found > num_nodes {
        Err(ConvergeError::ExtraNodes)
    } else if !leader_known {
        Err(ConvergeError::NoLeader)
    } else if converge_only {
        Ok(LaunchPlan::ConvergeOnly)
    } else {
        Ok(LaunchPlan::Run)
    }
}

/// Decides, after waiting for `num_nodes` nodes and finding `found`, whether
/// and how the benchmark goes on.
pub fn launch_plan(
    found: usize,
    num_nodes: usize,
    reject_extra_nodes: bool,
    leader_known: bool,
    converge_only: bool,
) -> (r: Result<LaunchPlan, ConvergeError>)
    ensures
        r == launch_outcome(
            found as int,
            num_nodes as int,
            reject_extra_nodes,
            leader_known,
            converge_only,
        ),
        (found < num_nodes) <==> (r matches Err(ConvergeError::InsufficientNodes)),
        (r is Ok) ==> ((r matches Ok(LaunchPlan::ConvergeOnly)) <==> converge_only),
        (r is Ok) <==> (found >= num_nodes && (reject_extra_nodes ==> found == num_nodes)
            && leader_known),
{
    if found < num_nodes {
        Err(ConvergeError::InsufficientNodes)
    } else if reject_extra_nodes && found > num_nodes {
        Err(ConvergeError::ExtraNodes)
    } else if !leader_known {
        Err(ConvergeError::NoLeader)
    } else if converge_only {
        Ok(LaunchPlan::ConvergeOnly)
    } else {
        Ok(LaunchPlan::Run)
    }
}

/// Waiting stops exactly when the leader is known and at least as many
/// nodes as wanted were found; otherwise the count is reported once the
/// leader is known.
pub proof fn lemma_converge_action(leader_known: bool, valid_nodes: int, num_nodes: int)
    ensures
        (converge_action(leader_known, valid_nodes, num_nodes) == ConvergeAction::Converged) <==> (
        leader_known && valid_nodes >= num_nodes),
        !(leader_known && valid_nodes >= num_nodes) ==> converge_action(
            leader_known,
            valid_nodes,
            num_nodes,
        ) == (ConvergeAction::KeepWaiting { report_count: leader_known }),
{
}

/// Finding more nodes never undoes convergence.
pub proof fn lemma_converge_monotone(leader_known: bool, valid_nodes: int, more: int, num_nodes: int)
    requires
        more >= valid_nodes,
        converge_action(leader_known, valid_nodes, num_nodes) == ConvergeAction::Converged,
    ensures
        converge_action(leader_known, more, num_nodes) == ConvergeAction::Converged,
{
}

/// Each error comes on exactly its inputs, checked in order: too few nodes,
/// then too many where exactly the wanted number is required, then no leader.
pub proof fn lemma_launch_errors(
    found: int,
    num_nodes: int,
    reject_extra_nodes: bool,
    leader_known: bool,
    converge_only: bool,
)
    ensures
        (launch_outcome(found, num_nodes, reject_extra_nodes, leader_known, converge_only) == Err::<
            LaunchPlan,
            ConvergeError,
        >(ConvergeError::InsufficientNodes)) <==> found < num_nodes,
        (launch_outcome(found, num_nodes, reject_extra_nodes, leader_known, converge_only) == Err::<
            LaunchPlan,
            ConvergeError,
        >(ConvergeError::ExtraNodes)) <==> (found >= num_nodes && reject_extra_nodes && found
            > num_nodes),
        (launch_outcome(found, num_nodes, reject_extra_nodes, leader_known, converge_only) == Err::<
            LaunchPlan,
            ConvergeError,
        >(ConvergeError::NoLeader)) <==> (found >= num_nodes && !(reject_extra_nodes && found
            > num_nodes) && !leader_known),
{
}

/// Asking only for convergence changes nothing but the last step: the same
/// inputs fail or succeed alike, and a success is converge-only exactly when
/// it was asked for.
pub proof fn lemma_converge_only_stops_after_converging(
    found: int,
    num_nodes: int,
    reject_extra_nodes: bool,
    leader_known: bool,
)
    ensures
        launch_outcome(found, num_nodes, reject_extra_nodes, leader_known, true) is Ok
            <==> launch_outcome(found, num_nodes, reject_extra_nodes, leader_known, false) is Ok,
        launch_outcome(found, num_nodes, reject_extra_nodes, leader_known, true) is Ok
            ==> launch_outcome(found, num_nodes, reject_extra_nodes, leader_known, true) == Ok::<
            LaunchPlan,
            ConvergeError,
        >(LaunchPlan::ConvergeOnly),
        launch_outcome(found, num_nodes, reject_extra_nodes, leader_known, false) is Ok
            ==> launch_outcome(found, num_nodes, reject_extra_nodes, leader_known, false) == Ok::<
            LaunchPlan,
            ConvergeError,
        >(LaunchPlan::Run),
        launch_outcome(found, num_nodes, reject_extra_nodes, leader_known, true) is Err
            ==> launch_outcome(found, num_nodes, reject_extra_nodes, leader_known, true)
            == launch_outcome(found, num_nodes, reject_extra_nodes, leader_known, false),
{
}

/// The benchmark runs exactly when the leader is known and the nodes found
/// are enough, and, where extra nodes are rejected, no more than wanted.
pub proof fn lemma_run_iff_usable(
    found: int,
    num_nodes: int,
    reject_extra_nodes: bool,
    leader_known: bool,
    converge_only: bool,
)
    ensures
        (launch_outcome(found, num_nodes, reject_extra_nodes, leader_known, converge_only) is Ok)
            <==> (found >= num_nodes && (reject_extra_nodes ==> found == num_nodes) && leader_known),
{
}

} // verus!
