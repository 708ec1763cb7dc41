//! In which order a node is built and started.
//!
//! [`NodeCluster::begin_run`] and [`NodeCluster::resume_run`] name one piece of
//! outside work after the other. The caller performs it, tells how it went, and
//! asks again, until the node has started or has failed to. What came of it all
//! is then filed with [`NodeCluster::run_node`].

use vstd::prelude::*;

use crate::cluster::{ClusterView, NodeCluster};
use crate::components::Components;

verus! {

/// A piece of outside work.
#[derive(Clone, Copy, Debug, PartialEq, Eq, Structural)]
pub enum RunAction {
    /// Validate the settings of the store, before anything is made for the node,
    /// and build the node from them.
    ValidateSettings,
    /// Make or reuse a snapshot manager, as
    /// [`plan_run_node`](NodeCluster::plan_run_node) says for `node_id`.
    ObtainSnapManager { node_id: u64 },
    /// Create the coprocessor host.
    CreateHost,
    /// Call the function that
    /// [`hook_to_call`](NodeCluster::hook_to_call) hands out on the host.
    CallHook { node_id: u64 },
    /// Make the concurrency manager and register its lock checker with the host.
    RegisterLockChecker,
    /// Make the importer.
    MakeImporter,
    /// Start the split checker and the task that keeps the disk figures.
    StartWorkers,
    /// Bootstrap the store.
    Bootstrap,
    /// Start the node.
    Start,
    /// Check that the store holds no trace of an unfinished bootstrap any more.
    CheckBootstrapped,
}

/// How far a run has come: which piece of outside work is under way.
#[derive(Clone, Copy, Debug, PartialEq, Eq, Structural)]
pub enum RunStage {
    ValidateSettings,
    ObtainSnapManager,
    CreateHost,
    CallHook,
    RegisterLockChecker,
    MakeImporter,
    StartWorkers,
    Bootstrap,
    Start,
    CheckBootstrapped,
}

/// A run for `node_id` that waits for a piece of outside work.
#[derive(Clone, Copy, Debug, PartialEq, Eq, Structural)]
pub struct NodeRun {
    pub node_id: u64,
    pub stage: RunStage,
}

/// What comes next in a run.
pub enum RunProgress<E> {
    /// The outside work that [`NodeRun::action`] names is to be done.
    Perform(NodeRun),
    /// The node has started, or has failed to.
    Done(Result<(), E>),
}

impl NodeRun {
    /// The piece of outside work that a stage waits for.
    pub open spec fn spec_action(self) -> RunAction {
        let node_id = self.node_id;
        match self.stage {
            RunStage::ValidateSettings => RunAction::ValidateSettings,
            RunStage::ObtainSnapManager => RunAction::ObtainSnapManager { node_id },
            RunStage::CreateHost => RunAction::CreateHost,
            RunStage::CallHook => RunAction::CallHook { node_id },
            RunStage::RegisterLockChecker => RunAction::RegisterLockChecker,
            RunStage::MakeImporter => RunAction::MakeImporter,
            RunStage::StartWorkers => RunAction::StartWorkers,
            RunStage::Bootstrap => RunAction::Bootstrap,
            RunStage::Start => RunAction::Start,
            RunStage::CheckBootstrapped => RunAction::CheckBootstrapped,
        }
    }

    /// The piece of outside work to do now.
    #[verifier::when_used_as_spec(spec_action)]
    pub fn action(self) -> (action: RunAction)
        ensures
            action == self.action(),
    {
        let node_id: u64 = self.node_id;
        match self.stage {
            RunStage::ValidateSettings => RunAction::ValidateSettings,
            RunStage::ObtainSnapManager => RunAction::ObtainSnapManager { node_id },
            RunStage::CreateHost => RunAction::CreateHost,
            RunStage::CallHook => RunAction::CallHook { node_id },
            RunStage::RegisterLockChecker => RunAction::RegisterLockChecker,
            RunStage::MakeImporter => RunAction::MakeImporter,
            RunStage::StartWorkers => RunAction::StartWorkers,
            RunStage::Bootstrap => RunAction::Bootstrap,
            RunStage::Start => RunAction::Start,
            RunStage::CheckBootstrapped => RunAction::CheckBootstrapped,
        }
    }

    /// Whether the outside work of this stage may fail: only bootstrapping the
    /// store and starting the node may. A run in which anything else fails is
    /// given up: it has no result, and nothing is filed.
    pub open spec fn spec_may_fail(self) -> bool {
        self.stage is Bootstrap || self.stage is Start
    }

    /// Whether the outside work of this stage may fail.
    #[verifier::when_used_as_spec(spec_may_fail)]
    pub fn may_fail(self) -> (b: bool)
        ensures
            b == self.may_fail(),
            b <==> self.stage is Bootstrap || self.stage is Start,
    {
        match self.stage {
            RunStage::Bootstrap => true,
            RunStage::Start => true,
            _ => false,
        }
    }
}

/// The run for `node_id` waits for the outside work of `stage`.
pub open spec fn perform_run<E>(node_id: u64, stage: RunStage) -> RunProgress<E> {
    RunProgress::Perform(NodeRun { node_id, stage })
}

impl<K: Components> ClusterView<K> {
    /// What follows the outside work of `run`, which ended with `outcome`: a
    /// failure ends the run, and the hook is called on a new host if one is set.
    pub open spec fn after_step<E>(self, run: NodeRun, outcome: Result<(), E>) -> RunProgress<E> {
        let id = run.node_id;
        if outcome is Err || run.stage is CheckBootstrapped {
            RunProgress::Done(outcome)
        } else {
            match run.stage {
                RunStage::ValidateSettings => perform_run(id, RunStage::ObtainSnapManager),
                RunStage::ObtainSnapManager => perform_run(id, RunStage::CreateHost),
                RunStage::CreateHost => if self.post_create_coprocessor_host is Some {
                    perform_run(id, RunStage::CallHook)
                } else {
                    perform_run(id, RunStage::RegisterLockChecker)
                },
                RunStage::CallHook => perform_run(id, RunStage::RegisterLockChecker),
                RunStage::RegisterLockChecker => perform_run(id, RunStage::MakeImporter),
                RunStage::MakeImporter => perform_run(id, RunStage::StartWorkers),
                RunStage::StartWorkers => perform_run(id, RunStage::Bootstrap),
                RunStage::Bootstrap => perform_run(id, RunStage::Start),
                _ => perform_run(id, RunStage::CheckBootstrapped),
            }
        }
    }

    /// The call of the coprocessor hook that `run` waits for: the id that the
    /// node is run for, and the hook that was set last.
    pub open spec fn hook_call(self, run: NodeRun) -> Option<(u64, K::CoprocessorHook)> {
        match self.post_create_coprocessor_host {
            Some(hook) if run.stage is CallHook => Some((run.node_id, hook)),
            _ => None,
        }
    }
}

impl<K: Components> NodeCluster<K> {
    /// Begins to run a node for `node_id`.
    pub fn begin_run<E>(&self, node_id: u64) -> (progress: RunProgress<E>)
        requires
            self@.can_run(node_id),
        ensures
            progress == perform_run::<E>(node_id, RunStage::ValidateSettings),
            progress == RunProgress::<E>::Perform(
                NodeRun { node_id, stage: RunStage::ValidateSettings },
            ),
    {
        RunProgress::Perform(NodeRun { node_id, stage: RunStage::ValidateSettings })
    }

    /// Goes on with a run whose outside work ended with `outcome`.
    pub fn resume_run<E>(&self, run: NodeRun, outcome: Result<(), E>) -> (progress: RunProgress<E>)
        requires
            outcome is Err ==> run.may_fail(),
        ensures
            progress == self@.after_step(run, outcome),
    {
        if outcome.is_err() {
            return RunProgress::Done(outcome);
        }
        let stage = match run.stage {
            RunStage::ValidateSettings => RunStage::ObtainSnapManager,
            RunStage::ObtainSnapManager => RunStage::CreateHost,
            RunStage::CreateHost => {
                if self.post_create_coprocessor_host.is_some() {
                    RunStage::CallHook
                } else {
                    RunStage::RegisterLockChecker
                }
            },
            RunStage::CallHook => RunStage::RegisterLockChecker,
            RunStage::RegisterLockChecker => RunStage::MakeImporter,
            RunStage::MakeImporter => RunStage::StartWorkers,
            RunStage::StartWorkers => RunStage::Bootstrap,
            RunStage::Bootstrap => RunStage::Start,
            RunStage::Start => RunStage::CheckBootstrapped,
            RunStage::CheckBootstrapped => {
                return RunProgress::Done(outcome);
            },
        };
        RunProgress::Perform(NodeRun { node_id: run.node_id, stage })
    }

    /// The call that is due on the coprocessor host: with which id, and of which
    /// function. There is none unless `run` waits for it.
    pub fn hook_to_call(&self, run: NodeRun) -> (call: Option<(u64, &K::CoprocessorHook)>)
        ensures
            match call {
                Some((node_id, hook)) => self@.hook_call(run) == Some((node_id, *hook)),
                None => self@.hook_call(run) is None,
            },
            call is Some <==> run.stage is CallHook && self@.post_create_coprocessor_host is Some,
            call matches Some((node_id, hook)) ==> node_id == run.node_id
                && self@.post_create_coprocessor_host == Some(*hook),
    {
        match run.stage {
            RunStage::CallHook => match &self.post_create_coprocessor_host {
                Some(hook) => Some((run.node_id, hook)),
                None => None,
            },
            _ => None,
        }
    }
}

} // verus!
