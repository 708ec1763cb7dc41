//! What a run of a node does from beginning to end.

use vstd::prelude::*;

use crate::cluster::ClusterView;
use crate::components::Components;
use crate::run_steps::{NodeRun, RunAction, RunProgress, RunStage};

verus! {

/// How the outside work of a run ends, where that is left open.
pub struct RunOutcomes<E> {
    /// Whether the settings are valid.
    pub settings: Result<(), E>,
    /// How bootstrapping the store ends.
    pub bootstrapped: Result<(), E>,
    /// How starting the node ends.
    pub started: Result<(), E>,
    /// Whether the store is found free of an unfinished bootstrap.
    pub checked: Result<(), E>,
}

/// What one run meets on its way: the cluster, which nothing else changes
/// meanwhile, and how the outside work ends.
pub struct RunCourse<K: Components, E> {
    pub cluster: ClusterView<K>,
    pub outcomes: RunOutcomes<E>,
}

/// What a run does.
#[verifier::ext_equal]
pub struct RunTrace<F, E> {
    /// The outside work, in order.
    pub actions: Seq<RunAction>,
    /// The calls of coprocessor hooks, in order: the id and the function.
    pub calls: Seq<(u64, F)>,
    /// How the run ends: none if it was given up over work that must not fail.
    pub result: Option<Result<(), E>>,
}

/// The number of pieces of outside work that can still follow.
pub open spec fn run_work_left<E>(progress: RunProgress<E>) -> nat {
    match progress {
        RunProgress::Done(_) => 0,
        RunProgress::Perform(run) => match run.stage {
            RunStage::ValidateSettings => 10,
            RunStage::ObtainSnapManager => 9,
            RunStage::CreateHost => 8,
            RunStage::CallHook => 7,
            RunStage::RegisterLockChecker => 6,
            RunStage::MakeImporter => 5,
            RunStage::StartWorkers => 4,
            RunStage::Bootstrap => 3,
            RunStage::Start => 2,
            RunStage::CheckBootstrapped => 1,
        },
    }
}

impl<K: Components, E> RunCourse<K, E> {
    /// How the outside work of a stage ends.
    pub open spec fn outcome(self, run: NodeRun) -> Result<(), E> {
        match run.stage {
            RunStage::ValidateSettings => self.outcomes.settings,
            RunStage::Bootstrap => self.outcomes.bootstrapped,
            RunStage::Start => self.outcomes.started,
            RunStage::CheckBootstrapped => self.outcomes.checked,
            _ => Ok(()),
        }
    }

    /// What is done from `progress` on.
    pub open spec fn trace_from(self, progress: RunProgress<E>) -> RunTrace<K::CoprocessorHook, E>
        decreases run_work_left(progress),
    {
        match progress {
            RunProgress::Done(result) => RunTrace {
                actions: Seq::empty(),
                calls: Seq::empty(),
                result: Some(result),
            },
            RunProgress::Perform(run) => {
                let outcome = self.outcome(run);
                let rest = if outcome is Err && !run.may_fail() {
                    RunTrace { actions: Seq::empty(), calls: Seq::empty(), result: None }
                } else {
                    self.trace_from(self.cluster.after_step(run, outcome))
                };
                RunTrace {
                    actions: seq![run.action()] + rest.actions,
                    calls: match self.cluster.hook_call(run) {
                        Some(call) => seq![call] + rest.calls,
                        None => rest.calls,
                    },
                    result: rest.result,
                }
            },
        }
    }

    /// What a run for `node_id` does.
    pub open spec fn trace(self, node_id: u64) -> RunTrace<K::CoprocessorHook, E> {
        self.trace_from(crate::run_steps::perform_run(node_id, RunStage::ValidateSettings))
    }
}

/// The calls that are due when a host is created for `node_id` while `hook` is
/// set.
pub open spec fn due_calls<F>(node_id: u64, hook: Option<F>) -> Seq<(u64, F)> {
    match hook {
        Some(f) => seq![(node_id, f)],
        None => Seq::empty(),
    }
}

/// The work of a run for `node_id` with valid settings, up to the bootstrap of the
/// store.
pub open spec fn work_before_start(node_id: u64, hook_is_set: bool) -> Seq<RunAction> {
    seq![
        RunAction::ValidateSettings,
        RunAction::ObtainSnapManager { node_id },
        RunAction::CreateHost,
    ] + (if hook_is_set {
        seq![RunAction::CallHook { node_id }]
    } else {
        Seq::empty()
    }) + seq![
        RunAction::RegisterLockChecker,
        RunAction::MakeImporter,
        RunAction::StartWorkers,
        RunAction::Bootstrap,
    ]
}

/// A run does the same work in the same order each time. Settings that are not
/// valid keep it from all other work, and from calling the hook. The call of the
/// hook depends on whether one is set. A store that does not bootstrap keeps the
/// node from starting, and only a node that started is checked. The run succeeds if
/// and only if all of it went well.
pub proof fn law_run_follows_plan<K: Components, E>(course: RunCourse<K, E>, node_id: u64)
    ensures
        course.trace(node_id).actions == (if course.outcomes.settings is Err {
            seq![RunAction::ValidateSettings]
        } else {
            work_before_start(node_id, course.cluster.post_create_coprocessor_host is Some) + (
            if course.outcomes.bootstrapped is Err {
                Seq::empty()
            } else if course.outcomes.started is Err {
                seq![RunAction::Start]
            } else {
                seq![RunAction::Start, RunAction::CheckBootstrapped]
            })
        }),
        course.trace(node_id).calls == (if course.outcomes.settings is Err {
            Seq::empty()
        } else {
            due_calls(node_id, course.cluster.post_create_coprocessor_host)
        }),
        course.trace(node_id).result == (if course.outcomes.settings is Err {
            None
        } else if course.outcomes.bootstrapped is Err {
            Some(course.outcomes.bootstrapped)
        } else if course.outcomes.started is Err {
            Some(course.outcomes.started)
        } else if course.outcomes.checked is Err {
            None
        } else {
            Some(course.outcomes.checked)
        }),
{
    reveal_with_fuel(RunCourse::trace_from, 11);
}

/// A run that succeeds has its settings validated before anything else, and the
/// store checked after everything else: a node is filed only after the check. A run
/// that is given up is given up over its very first or its very last piece of work.
pub proof fn law_run_is_checked_at_both_ends<K: Components, E>(
    course: RunCourse<K, E>,
    node_id: u64,
)
    ensures
        ({
            let trace = course.trace(node_id);
            &&& trace.actions.len() > 0
            &&& trace.actions[0] is ValidateSettings
            &&& trace.result matches Some(Ok(_)) ==> {
                &&& course.outcomes.settings is Ok
                &&& course.outcomes.checked is Ok
                &&& trace.actions.last() is CheckBootstrapped
            }
            &&& trace.result is None ==> {
                ||| course.outcomes.settings is Err && trace.actions.last() is ValidateSettings
                ||| course.outcomes.checked is Err && trace.actions.last() is CheckBootstrapped
            }
        }),
{
    law_run_follows_plan(course, node_id);
}

/// A run with valid settings calls the hook that was set last exactly once, with
/// the id that it is for (zero if that was left open), on the host that was just
/// created and before the lock checker is registered. However the run ends, it makes
/// no other call, and none at all if no hook is set or the settings are not valid.
pub proof fn law_run_calls_hook_once<K: Components, E>(course: RunCourse<K, E>, node_id: u64)
    ensures
        ({
            let trace = course.trace(node_id);
            match course.cluster.post_create_coprocessor_host {
                Some(hook) if course.outcomes.settings is Ok => {
                    &&& trace.calls == seq![(node_id, hook)]
                    &&& trace.actions.len() > 4
                    &&& trace.actions[2] is CreateHost
                    &&& trace.actions[3] == (RunAction::CallHook { node_id })
                    &&& trace.actions[4] is RegisterLockChecker
                    &&& forall|i: int|
                        0 <= i < trace.actions.len() && #[trigger] trace.actions[i] is CallHook
                            ==> i == 3
                },
                _ => {
                    &&& trace.calls == Seq::<(u64, K::CoprocessorHook)>::empty()
                    &&& forall|i: int|
                        0 <= i < trace.actions.len() ==> !(#[trigger] trace.actions[i] is CallHook)
                },
            }
        }),
{
    law_run_follows_plan(course, node_id);
}

/// The hook that was set last replaces every earlier one: it alone is called by
/// a run with valid settings that follows.
pub proof fn law_last_hook_is_called<K: Components, E>(
    c: ClusterView<K>,
    first: K::CoprocessorHook,
    last: K::CoprocessorHook,
    node_id: u64,
    outcomes: RunOutcomes<E>,
)
    requires
        outcomes.settings is Ok,
    ensures
        c.with_hook(first).with_hook(last) == c.with_hook(last),
        (RunCourse { cluster: c.with_hook(first).with_hook(last), outcomes }).trace(node_id).calls
            == seq![(node_id, last)],
{
    let cluster = c.with_hook(first).with_hook(last);
    law_run_calls_hook_once(RunCourse { cluster, outcomes }, node_id);
}

/// A run whose settings are valid and whose store bootstraps does ten pieces of work
/// if a hook is set and nine if not, always in the same order and whatever id it is
/// for; it leaves out the last of them if the node does not start.
pub proof fn law_run_in_full<K: Components, E>(course: RunCourse<K, E>, node_id: u64)
    requires
        course.outcomes.settings is Ok,
        course.outcomes.bootstrapped is Ok,
    ensures
        ({
            let begun = if course.cluster.post_create_coprocessor_host is Some {
                seq![
                    RunAction::ValidateSettings,
                    RunAction::ObtainSnapManager { node_id },
                    RunAction::CreateHost,
                    RunAction::CallHook { node_id },
                    RunAction::RegisterLockChecker,
                    RunAction::MakeImporter,
                    RunAction::StartWorkers,
                    RunAction::Bootstrap,
                    RunAction::Start,
                ]
            } else {
                seq![
                    RunAction::ValidateSettings,
                    RunAction::ObtainSnapManager { node_id },
                    RunAction::CreateHost,
                    RunAction::RegisterLockChecker,
                    RunAction::MakeImporter,
                    RunAction::StartWorkers,
                    RunAction::Bootstrap,
                    RunAction::Start,
                ]
            };
            let trace = course.trace(node_id);
            match course.outcomes.started {
                Err(e) => trace.actions == begun && trace.result == Some(Err::<(), E>(e)),
                Ok(_) => {
                    &&& trace.actions == begun.push(RunAction::CheckBootstrapped)
                    &&& trace.result is Some <==> course.outcomes.checked is Ok
                    &&& trace.result matches Some(result) ==> result is Ok
                },
            }
        }),
{
    reveal_with_fuel(RunCourse::trace_from, 11);
}

/// A store that does not bootstrap ends its run: the last piece of work is the
/// bootstrap, the node is never started, and the run ends with what went wrong.
pub proof fn law_failed_bootstrap_ends_the_run<K: Components, E>(
    course: RunCourse<K, E>,
    node_id: u64,
    error: E,
)
    requires
        course.outcomes.settings is Ok,
        course.outcomes.bootstrapped == Err::<(), E>(error),
    ensures
        ({
            let trace = course.trace(node_id);
            let calls: int = if course.cluster.post_create_coprocessor_host is Some {
                1
            } else {
                0
            };
            &&& trace.actions.len() == 7 + calls
            &&& trace.actions.last() is Bootstrap
            &&& !trace.actions.contains(RunAction::Start)
            &&& trace.result == Some(Err::<(), E>(error))
        }),
{
    law_run_follows_plan(course, node_id);
    reveal_with_fuel(RunCourse::trace_from, 11);
}

/// Settings that are not valid end a run at once: no other work is done, no hook is
/// called, and there is no result.
pub proof fn law_invalid_settings_leave_all_untouched<K: Components, E>(
    course: RunCourse<K, E>,
    node_id: u64,
)
    requires
        course.outcomes.settings is Err,
    ensures
        course.trace(node_id).actions == seq![RunAction::ValidateSettings],
        course.trace(node_id).calls.len() == 0,
        course.trace(node_id).result is None,
{
    reveal_with_fuel(RunCourse::trace_from, 2);
}

/// Of all the work of a run only the bootstrap of the store and the start of the node
/// may fail.
pub proof fn law_only_bootstrap_and_start_may_fail(run: NodeRun)
    ensures
        run.may_fail() <==> run.action() is Bootstrap || run.action() is Start,
{
}

/// A step leaves the id of a run as it is, a failure ends the run with that failure,
/// and the work that names an id names the id of the run.
pub proof fn law_steps_keep_to_the_run<K: Components, E>(
    c: ClusterView<K>,
    run: NodeRun,
    outcome: Result<(), E>,
)
    ensures
        match c.after_step(run, outcome) {
            RunProgress::Perform(next) => outcome is Ok && next.node_id == run.node_id,
            RunProgress::Done(result) => {
                &&& result == outcome
                &&& outcome is Err || run.action() is CheckBootstrapped
            },
        },
        match run.action() {
            RunAction::ObtainSnapManager { node_id } => node_id == run.node_id,
            RunAction::CallHook { node_id } => node_id == run.node_id,
            _ => true,
        },
{
}

/// A hook is due exactly while a run waits for its call and one is set: the one that
/// is set, with the id of the run, whatever that id is and whatever else the cluster
/// holds.
pub proof fn law_hook_is_due_iff<K: Components>(c: ClusterView<K>, run: NodeRun)
    ensures
        match c.post_create_coprocessor_host {
            Some(hook) if run.action() is CallHook => c.hook_call(run) == Some((run.node_id, hook)),
            _ => c.hook_call(run) is None,
        },
{
}

/// What each step of a run leads to, if it went well, and which work each stage waits
/// for. Only the cluster's hook makes a difference, and only once the host is created.
pub proof fn law_what_follows_each_step<K: Components, E>(c: ClusterView<K>, run: NodeRun)
    ensures
        match c.after_step(run, Ok::<(), E>(())) {
            RunProgress::Done(result) => run.stage is CheckBootstrapped && result is Ok,
            RunProgress::Perform(next) => match run.stage {
                RunStage::ValidateSettings => next.stage is ObtainSnapManager,
                RunStage::ObtainSnapManager => next.stage is CreateHost,
                RunStage::CreateHost => match c.post_create_coprocessor_host {
                    Some(_) => next.stage is CallHook,
                    None => next.stage is RegisterLockChecker,
                },
                RunStage::CallHook => next.stage is RegisterLockChecker,
                RunStage::RegisterLockChecker => next.stage is MakeImporter,
                RunStage::MakeImporter => next.stage is StartWorkers,
                RunStage::StartWorkers => next.stage is Bootstrap,
                RunStage::Bootstrap => next.stage is Start,
                RunStage::Start => next.stage is CheckBootstrapped,
                RunStage::CheckBootstrapped => false,
            },
        },
        run.stage is ValidateSettings <==> run.action() is ValidateSettings,
        run.stage is ObtainSnapManager <==> run.action() is ObtainSnapManager,
        run.stage is CreateHost <==> run.action() is CreateHost,
        run.stage is CallHook <==> run.action() is CallHook,
        run.stage is RegisterLockChecker <==> run.action() is RegisterLockChecker,
        run.stage is MakeImporter <==> run.action() is MakeImporter,
        run.stage is StartWorkers <==> run.action() is StartWorkers,
        run.stage is Bootstrap <==> run.action() is Bootstrap,
        run.stage is Start <==> run.action() is Start,
        run.stage is CheckBootstrapped <==> run.action() is CheckBootstrapped,
{
}

} // verus!
