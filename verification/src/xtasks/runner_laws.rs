//! What holds of every run of the task runner.
use crate::xtasks::runner::{
    model_wf, spec_action, spec_after, spec_issue, spec_probe, spec_step_result, ActionModel, Conclusion,
    Outcome, RunnerModel, Stage,
};
use crate::xtasks::{OpModel, Probe};
use vstd::prelude::*;

verus! {

/// Once a run has ended it stays ended: the runner asks for nothing but the
/// same `Stop`, and does not move.
pub proof fn lemma_stopped_is_final(m: RunnerModel, outcome: Outcome, c: Conclusion)
    requires
        m.stage == Stage::Stopped(c),
    ensures
        spec_after(m, outcome) == m,
        spec_action(m, outcome) == ActionModel::Stop(c),
{
}

/// A step that must succeed and did not ends the run at once, with the
/// reason; the current step stays the one that failed.
pub proof fn lemma_fail_fast(m: RunnerModel, outcome: Outcome)
    requires
        model_wf(m),
        m.stage == Stage::AwaitStep,
        spec_step_result(m.plan[m.pc as int], outcome) is Some,
    ensures
        spec_after(m, outcome).pc == m.pc,
        spec_after(m, outcome).stage == Stage::Stopped(
            spec_step_result(m.plan[m.pc as int], outcome)->0,
        ),
        spec_action(m, outcome) == ActionModel::Stop(
            spec_step_result(m.plan[m.pc as int], outcome)->0,
        ),
{
}

/// A checked command that exits unsuccessfully ends the run as a failed
/// command; one that cannot be started ends it as an I/O failure.
pub proof fn lemma_failed_command_stops(m: RunnerModel, cmd_exit: bool)
    requires
        model_wf(m),
        m.stage == Stage::AwaitStep,
        m.plan[m.pc as int] is Run,
    ensures
        !cmd_exit ==> spec_action(m, Outcome::Exited { success: cmd_exit }) == ActionModel::Stop(
            Conclusion::CommandFailed,
        ),
        spec_action(m, Outcome::CouldNotStart) == ActionModel::Stop(Conclusion::IoFailed),
{
}

/// A tool is installed only when its probe shows it missing: the notice
/// that starts an installation comes right after a probe that showed the
/// tool missing, and the installation itself right after that notice.
pub proof fn lemma_install_only_when_missing(m: RunnerModel, outcome: Outcome)
    requires
        model_wf(m),
    ensures
        spec_after(m, outcome).stage == Stage::AwaitNotice ==> {
            &&& m.stage == Stage::AwaitProbe
            &&& spec_after(m, outcome).pc == m.pc
            &&& m.plan[m.pc as int] matches OpModel::EnsureInstalled { how, notice, .. }
                && spec_probe(how, outcome) is Missing
                && spec_action(m, outcome) == ActionModel::Print(notice)
        },
        spec_after(m, outcome).stage == Stage::AwaitInstall ==> {
            &&& m.stage == Stage::AwaitNotice
            &&& m.plan[m.pc as int] matches OpModel::EnsureInstalled { install, .. }
                && spec_action(m, outcome) == ActionModel::Spawn(install)
        },
{
}

/// How far a runner is from the end of its run.
pub open spec fn remaining(m: RunnerModel) -> nat {
    match m.stage {
        Stage::Stopped(_) => 0,
        Stage::Issue => (4 * (m.plan.len() - m.pc) + 4) as nat,
        Stage::AwaitProbe => (4 * (m.plan.len() - m.pc) + 3) as nat,
        Stage::AwaitNotice => (4 * (m.plan.len() - m.pc) + 2) as nat,
        _ => (4 * (m.plan.len() - m.pc) + 1) as nat,
    }
}

/// Every move of a run that has not ended brings it closer to its end, so
/// every run ends.
pub proof fn lemma_progress(m: RunnerModel, outcome: Outcome)
    requires
        model_wf(m),
        !(m.stage is Stopped),
    ensures
        remaining(spec_after(m, outcome)) < remaining(m),
{
}

/// The outcome of an action when everything goes well: commands start and
/// exit successfully, file operations are done.
pub open spec fn happy_outcome(a: ActionModel) -> Outcome {
    match a {
        ActionModel::Spawn(_) => Outcome::Exited { success: true },
        ActionModel::Stop(_) => Outcome::Nothing,
        _ => Outcome::Done,
    }
}

/// The runner and its action after `k + 1` moves from the start of `plan`,
/// when every action goes well.
pub open spec fn happy_run(plan: Seq<OpModel>, k: nat) -> (RunnerModel, ActionModel)
    decreases k,
{
    if k == 0 {
        let m = RunnerModel { plan, pc: 0, stage: Stage::Issue };
        (spec_after(m, Outcome::Nothing), spec_action(m, Outcome::Nothing))
    } else {
        let (m, a) = happy_run(plan, (k - 1) as nat);
        (spec_after(m, happy_outcome(a)), spec_action(m, happy_outcome(a)))
    }
}

/// When every action goes well, the runner asks for the first action of
/// each step once, in the order of the plan, and then reports the run
/// complete: move `k` starts step `k`, and move `plan.len()` is the `Stop`.
pub proof fn lemma_happy_run(plan: Seq<OpModel>, k: nat)
    requires
        k <= plan.len(),
    ensures
        happy_run(plan, k).0.pc == k,
        happy_run(plan, k).0.plan == plan,
        (happy_run(plan, k).0.stage, happy_run(plan, k).1) == spec_issue(plan, k),
        k == plan.len() ==> happy_run(plan, k).1 == ActionModel::Stop(Conclusion::Completed),
    decreases k,
{
    if k > 0 {
        lemma_happy_run(plan, (k - 1) as nat);
    }
}

/// The runner about to start step `i` of `plan`.
pub open spec fn at_step(plan: Seq<OpModel>, i: nat) -> RunnerModel {
    RunnerModel { plan, pc: i, stage: Stage::Issue }
}

/// The move on `outcome` goes on to the next step: it does exactly what
/// starting that next step does.
pub open spec fn goes_on(m: RunnerModel, outcome: Outcome) -> bool {
    let next = at_step(m.plan, (m.pc + 1) as nat);
    &&& spec_after(m, outcome) == spec_after(next, Outcome::Nothing)
    &&& spec_action(m, outcome) == spec_action(next, Outcome::Nothing)
}

/// The move on `outcome` ends the run with `c`, at the current step.
pub open spec fn ends_with(m: RunnerModel, outcome: Outcome, c: Conclusion) -> bool {
    &&& spec_after(m, outcome).pc == m.pc
    &&& spec_after(m, outcome).stage == Stage::Stopped(c)
    &&& spec_action(m, outcome) == ActionModel::Stop(c)
}

/// Starting a step asks for its own action: a line to print, its command
/// (the probe, for a tool to install), or its file operation; past the
/// last step the run is complete.
pub proof fn lemma_start_of_step(plan: Seq<OpModel>, i: nat)
    requires
        i <= plan.len(),
    ensures
        i == plan.len() ==> spec_action(at_step(plan, i), Outcome::Nothing) == ActionModel::Stop(
            Conclusion::Completed,
        ),
        i < plan.len() ==> spec_after(at_step(plan, i), Outcome::Nothing).pc == i,
        i < plan.len() ==> match plan[i as int] {
            OpModel::Say(line) => spec_action(at_step(plan, i), Outcome::Nothing)
                == ActionModel::Print(line),
            OpModel::EnsureInstalled { probe, .. } => spec_action(at_step(plan, i), Outcome::Nothing)
                == ActionModel::Spawn(probe),
            OpModel::Run(cmd) => spec_action(at_step(plan, i), Outcome::Nothing)
                == ActionModel::Spawn(cmd),
            OpModel::RunIgnoringStatus(cmd) => spec_action(at_step(plan, i), Outcome::Nothing)
                == ActionModel::Spawn(cmd),
            OpModel::RemoveDirQuietly(path) => spec_action(at_step(plan, i), Outcome::Nothing)
                == ActionModel::RemoveDirAll(path),
            OpModel::CopyDir { from, to } => spec_action(at_step(plan, i), Outcome::Nothing)
                == ActionModel::CopyDirAll { from, to },
            OpModel::Rename { from, to } => spec_action(at_step(plan, i), Outcome::Nothing)
                == ActionModel::Rename { from, to },
        },
{
}

/// How each kind of step takes the outcome of its action: a printed line
/// and a quiet removal always go on; a checked command goes on only when it
/// exits successfully, ends the run as a failed command when it exits
/// unsuccessfully, and as an I/O failure when it cannot start; a command
/// whose status is ignored goes on whenever it ran; a copy or a rename goes
/// on when done and ends the run as an I/O failure otherwise.
pub proof fn lemma_step_outcomes(m: RunnerModel, success: bool)
    requires
        model_wf(m),
        m.stage == Stage::AwaitStep,
    ensures
        m.plan[m.pc as int] is Say ==> goes_on(m, Outcome::Done),
        m.plan[m.pc as int] is RemoveDirQuietly ==> goes_on(m, Outcome::Done) && goes_on(
            m,
            Outcome::Failed,
        ),
        m.plan[m.pc as int] is Run ==> {
            &&& goes_on(m, Outcome::Exited { success: true })
            &&& ends_with(m, Outcome::Exited { success: false }, Conclusion::CommandFailed)
            &&& ends_with(m, Outcome::CouldNotStart, Conclusion::IoFailed)
        },
        m.plan[m.pc as int] is RunIgnoringStatus ==> {
            &&& goes_on(m, Outcome::Exited { success })
            &&& ends_with(m, Outcome::CouldNotStart, Conclusion::IoFailed)
        },
        (m.plan[m.pc as int] is CopyDir || m.plan[m.pc as int] is Rename) ==> {
            &&& goes_on(m, Outcome::Done)
            &&& ends_with(m, Outcome::Failed, Conclusion::IoFailed)
        },
{
}

/// How a probe's outcome is taken: a tool that is there means no
/// installation and the run goes on; a missing tool means its notice is
/// printed next; a probe that must succeed but cannot start ends the run.
pub proof fn lemma_probe_outcomes(m: RunnerModel, success: bool)
    requires
        model_wf(m),
        m.stage == Stage::AwaitProbe,
    ensures
        m.plan[m.pc as int] matches OpModel::EnsureInstalled { how, notice, .. } ==> {
            let missing = |o: Outcome|
                {
                    &&& spec_after(m, o) == (RunnerModel {
                        plan: m.plan,
                        pc: m.pc,
                        stage: Stage::AwaitNotice,
                    })
                    &&& spec_action(m, o) == ActionModel::Print(notice)
                };
            &&& how == Probe::Starts ==> goes_on(m, Outcome::Exited { success }) && missing(
                Outcome::CouldNotStart,
            )
            &&& how == Probe::Succeeds ==> {
                &&& goes_on(m, Outcome::Exited { success: true })
                &&& missing(Outcome::Exited { success: false })
                &&& ends_with(m, Outcome::CouldNotStart, Conclusion::IoFailed)
            }
        },
{
}

/// After the notice, the installation command is run, whatever the outcome
/// of printing it.
pub proof fn lemma_notice_then_install(m: RunnerModel, outcome: Outcome)
    requires
        model_wf(m),
        m.stage == Stage::AwaitNotice,
    ensures
        m.plan[m.pc as int] matches OpModel::EnsureInstalled { install, .. } ==> {
            &&& spec_after(m, outcome) == (RunnerModel {
                plan: m.plan,
                pc: m.pc,
                stage: Stage::AwaitInstall,
            })
            &&& spec_action(m, outcome) == ActionModel::Spawn(install)
        },
{
}

/// An installation must succeed: when it does, the run goes on to the next
/// step; when it exits unsuccessfully the run ends as a failed command, and
/// when it cannot start, as an I/O failure.
pub proof fn lemma_install_outcomes(m: RunnerModel)
    requires
        model_wf(m),
        m.stage == Stage::AwaitInstall,
    ensures
        goes_on(m, Outcome::Exited { success: true }),
        ends_with(m, Outcome::Exited { success: false }, Conclusion::CommandFailed),
        ends_with(m, Outcome::CouldNotStart, Conclusion::IoFailed),
        ends_with(m, Outcome::Done, Conclusion::IoFailed),
{
}

} // verus!
