//! Walks a plan of steps. The caller performs each action the runner asks
//! for and reports how it went; the runner decides what comes next.
use crate::xtasks::{Cmd, CmdModel, Op, OpModel, Probe, plan_model};
use vstd::prelude::*;

verus! {

/// How the last action went, as the caller saw it.
#[derive(Clone, Copy, PartialEq, Eq, Structural)]
pub enum Outcome {
    /// No action was asked for yet.
    Nothing,
    /// The command ran and exited, successfully or not.
    Exited { success: bool },
    /// The command could not be started.
    CouldNotStart,
    /// The file operation or the printing was done.
    Done,
    /// The file operation failed.
    Failed,
}

/// How a run ended.
#[derive(Clone, Copy, PartialEq, Eq, Structural)]
pub enum Conclusion {
    /// Every step was done.
    Completed,
    /// A command that had to succeed exited unsuccessfully.
    CommandFailed,
    /// A command could not be started, or a file operation failed.
    IoFailed,
}

/// Where the runner is within the current step.
#[derive(Clone, Copy, PartialEq, Eq, Structural)]
pub enum Stage {
    /// The current step has not been started.
    Issue,
    /// The current step's action was asked for.
    AwaitStep,
    /// The probe of the current step was asked for.
    AwaitProbe,
    /// The notice that the tool is being installed was asked for.
    AwaitNotice,
    /// The installation was asked for.
    AwaitInstall,
    /// The run is over.
    Stopped(Conclusion),
}

/// What the caller is asked to do next.
pub enum Action {
    Print(String),
    Spawn(Cmd),
    RemoveDirAll(String),
    CopyDirAll { from: String, to: String },
    Rename { from: String, to: String },
    /// Nothing more: the run ended this way.
    Stop(Conclusion),
}

pub enum ActionModel {
    Print(Seq<char>),
    Spawn(CmdModel),
    RemoveDirAll(Seq<char>),
    CopyDirAll { from: Seq<char>, to: Seq<char> },
    Rename { from: Seq<char>, to: Seq<char> },
    Stop(Conclusion),
}

impl View for Action {
    type V = ActionModel;

    open spec fn view(&self) -> ActionModel {
        match self {
            Action::Print(line) => ActionModel::Print(line@),
            Action::Spawn(cmd) => ActionModel::Spawn(cmd@),
            Action::RemoveDirAll(path) => ActionModel::RemoveDirAll(path@),
            Action::CopyDirAll { from, to } => ActionModel::CopyDirAll { from: from@, to: to@ },
            Action::Rename { from, to } => ActionModel::Rename { from: from@, to: to@ },
            Action::Stop(c) => ActionModel::Stop(*c),
        }
    }
}

/// A runner: the plan, the index of the current step, and the stage.
pub struct Runner {
    plan: Vec<Op>,
    pc: usize,
    stage: Stage,
}

pub struct RunnerModel {
    pub plan: Seq<OpModel>,
    pub pc: nat,
    pub stage: Stage,
}

impl View for Runner {
    type V = RunnerModel;

    closed spec fn view(&self) -> RunnerModel {
        RunnerModel { plan: plan_model(self.plan@), pc: self.pc as nat, stage: self.stage }
    }
}

/// The stage at `pc` makes sense for the plan.
pub open spec fn model_wf(m: RunnerModel) -> bool {
    &&& m.pc <= m.plan.len()
    &&& match m.stage {
        Stage::Issue | Stage::Stopped(_) => true,
        Stage::AwaitStep => m.pc < m.plan.len() && !(m.plan[m.pc as int] is EnsureInstalled),
        _ => m.pc < m.plan.len() && m.plan[m.pc as int] is EnsureInstalled,
    }
}

/// Starting step `i`: the stage it leads to and the action it asks for.
/// Past the last step the run is complete.
pub open spec fn spec_issue(plan: Seq<OpModel>, i: nat) -> (Stage, ActionModel) {
    if i >= plan.len() {
        (Stage::Stopped(Conclusion::Completed), ActionModel::Stop(Conclusion::Completed))
    } else {
        match plan[i as int] {
            OpModel::Say(line) => (Stage::AwaitStep, ActionModel::Print(line)),
            OpModel::EnsureInstalled { probe, how: _, notice: _, install: _ } => (
                Stage::AwaitProbe,
                ActionModel::Spawn(probe),
            ),
            OpModel::Run(cmd) => (Stage::AwaitStep, ActionModel::Spawn(cmd)),
            OpModel::RunIgnoringStatus(cmd) => (Stage::AwaitStep, ActionModel::Spawn(cmd)),
            OpModel::RemoveDirQuietly(path) => (Stage::AwaitStep, ActionModel::RemoveDirAll(path)),
            OpModel::CopyDir { from, to } => (Stage::AwaitStep, ActionModel::CopyDirAll { from, to }),
            OpModel::Rename { from, to } => (Stage::AwaitStep, ActionModel::Rename { from, to }),
        }
    }
}

/// A command that must succeed: `None` when it did, else why the run stops.
pub open spec fn spec_checked_command(outcome: Outcome) -> Option<Conclusion> {
    match outcome {
        Outcome::Exited { success } => if success {
            None
        } else {
            Some(Conclusion::CommandFailed)
        },
        _ => Some(Conclusion::IoFailed),
    }
}

/// Whether the step whose action was asked for went well (`None`), or why
/// the run stops.
pub open spec fn spec_step_result(op: OpModel, outcome: Outcome) -> Option<Conclusion> {
    match op {
        OpModel::Run(_) => spec_checked_command(outcome),
        OpModel::RunIgnoringStatus(_) => if outcome is Exited {
            None
        } else {
            Some(Conclusion::IoFailed)
        },
        OpModel::CopyDir { .. } | OpModel::Rename { .. } => if outcome is Done {
            None
        } else {
            Some(Conclusion::IoFailed)
        },
        _ => None,
    }
}

/// What a probe shows.
pub enum ProbeVerdict {
    Present,
    Missing,
    Broken,
}

/// Reading a probe's outcome: a probe that must only start shows the tool
/// missing when it cannot start; one that must succeed shows it missing when
/// it exits unsuccessfully, and stops the run when it cannot start.
pub open spec fn spec_probe(how: Probe, outcome: Outcome) -> ProbeVerdict {
    match how {
        Probe::Starts => if outcome is Exited {
            ProbeVerdict::Present
        } else {
            ProbeVerdict::Missing
        },
        Probe::Succeeds => match outcome {
            Outcome::Exited { success } => if success {
                ProbeVerdict::Present
            } else {
                ProbeVerdict::Missing
            },
            _ => ProbeVerdict::Broken,
        },
    }
}

pub open spec fn spec_stop(c: Conclusion) -> (Stage, ActionModel) {
    (Stage::Stopped(c), ActionModel::Stop(c))
}

/// One move of the runner: from the model and the outcome of the last
/// action, the index of the current step, the new stage and the next action.
pub open spec fn spec_advance(m: RunnerModel, outcome: Outcome) -> (nat, Stage, ActionModel) {
    let pc = m.pc;
    let next = (pc + 1) as nat;
    match m.stage {
        Stage::Stopped(c) => (pc, Stage::Stopped(c), ActionModel::Stop(c)),
        Stage::Issue => {
            let (s, a) = spec_issue(m.plan, pc);
            (pc, s, a)
        },
        Stage::AwaitStep => match spec_step_result(m.plan[pc as int], outcome) {
            None => {
                let (s, a) = spec_issue(m.plan, next);
                (next, s, a)
            },
            Some(c) => (pc, Stage::Stopped(c), ActionModel::Stop(c)),
        },
        Stage::AwaitProbe => match m.plan[pc as int] {
            OpModel::EnsureInstalled { probe: _, how, notice, install: _ } => match spec_probe(
                how,
                outcome,
            ) {
                ProbeVerdict::Present => {
                    let (s, a) = spec_issue(m.plan, next);
                    (next, s, a)
                },
                ProbeVerdict::Missing => (pc, Stage::AwaitNotice, ActionModel::Print(notice)),
                ProbeVerdict::Broken => (
                    pc,
                    Stage::Stopped(Conclusion::IoFailed),
                    ActionModel::Stop(Conclusion::IoFailed),
                ),
            },
            _ => (pc, Stage::Stopped(Conclusion::IoFailed), ActionModel::Stop(Conclusion::IoFailed)),
        },
        Stage::AwaitNotice => match m.plan[pc as int] {
            OpModel::EnsureInstalled { probe: _, how: _, notice: _, install } => (
                pc,
                Stage::AwaitInstall,
                ActionModel::Spawn(install),
            ),
            _ => (pc, Stage::Stopped(Conclusion::IoFailed), ActionModel::Stop(Conclusion::IoFailed)),
        },
        Stage::AwaitInstall => match spec_checked_command(outcome) {
            None => {
                let (s, a) = spec_issue(m.plan, next);
                (next, s, a)
            },
            Some(c) => (pc, Stage::Stopped(c), ActionModel::Stop(c)),
        },
    }
}

/// The runner after one move.
pub open spec fn spec_after(m: RunnerModel, outcome: Outcome) -> RunnerModel {
    let (pc, stage, _) = spec_advance(m, outcome);
    RunnerModel { plan: m.plan, pc, stage }
}

/// The action of one move.
pub open spec fn spec_action(m: RunnerModel, outcome: Outcome) -> ActionModel {
    spec_advance(m, outcome).2
}

/// A move keeps the model sensible.
pub proof fn lemma_advance_wf(m: RunnerModel, outcome: Outcome)
    requires
        model_wf(m),
    ensures
        model_wf(spec_after(m, outcome)),
{
}

impl Runner {
    pub closed spec fn wf(&self) -> bool {
        &&& model_wf(self@)
        &&& self.plan@.len() < usize::MAX
    }

    /// A runner at the start of `plan`.
    pub fn new(plan: Vec<Op>) -> (r: Runner)
        requires
            plan_model(plan@).len() < usize::MAX,
        ensures
            r.wf(),
            r@ == (RunnerModel { plan: plan_model(plan@), pc: 0, stage: Stage::Issue }),
    {
        assert(plan_model(plan@).len() == plan@.len());
        Runner { plan, pc: 0, stage: Stage::Issue }
    }

    /// Starts step `i`.
    fn issue(&self, i: usize) -> (res: (Stage, Action))
        requires
            self.wf(),
            i <= self.plan@.len(),
        ensures
            (res.0, res.1@) == spec_issue(self@.plan, i as nat),
    {
        if i >= self.plan.len() {
            return (Stage::Stopped(Conclusion::Completed), Action::Stop(Conclusion::Completed));
        }
        let op = &self.plan[i];
        assert(self@.plan[i as int] == op@);
        match op {
            Op::Say(line) => (Stage::AwaitStep, Action::Print(line.clone())),
            Op::EnsureInstalled { probe, .. } => (Stage::AwaitProbe, Action::Spawn(probe.duplicate())),
            Op::Run(cmd) => (Stage::AwaitStep, Action::Spawn(cmd.duplicate())),
            Op::RunIgnoringStatus(cmd) => (Stage::AwaitStep, Action::Spawn(cmd.duplicate())),
            Op::RemoveDirQuietly(path) => (Stage::AwaitStep, Action::RemoveDirAll(path.clone())),
            Op::CopyDir { from, to } => (
                Stage::AwaitStep,
                Action::CopyDirAll { from: from.clone(), to: to.clone() },
            ),
            Op::Rename { from, to } => (
                Stage::AwaitStep,
                Action::Rename { from: from.clone(), to: to.clone() },
            ),
        }
    }

    /// Moves to the next step and starts it.
    fn issue_next(&mut self) -> (action: Action)
        requires
            old(self).wf(),
            old(self).pc < old(self).plan@.len(),
        ensures
            final(self).wf(),
            final(self).plan == old(self).plan,
            final(self).pc == old(self).pc + 1,
            (final(self).stage, action@) == spec_issue(old(self)@.plan, (old(self).pc + 1) as nat),
    {
        let next = self.pc + 1;
        let (stage, action) = self.issue(next);
        self.pc = next;
        self.stage = stage;
        action
    }

    /// Stops the run.
    fn stop(&mut self, c: Conclusion) -> (action: Action)
        ensures
            final(self).plan == old(self).plan,
            final(self).pc == old(self).pc,
            final(self).stage == Stage::Stopped(c),
            action@ == ActionModel::Stop(c),
    {
        self.stage = Stage::Stopped(c);
        Action::Stop(c)
    }

    /// One move: takes the outcome of the last action and returns the next
    /// action, as `spec_advance` says.
    pub fn advance(&mut self, outcome: Outcome) -> (action: Action)
        requires
            old(self).wf(),
        ensures
            final(self).wf(),
            final(self)@ == spec_after(old(self)@, outcome),
            action@ == spec_action(old(self)@, outcome),
    {
        proof {
            lemma_advance_wf(self@, outcome);
        }
        let pc = self.pc;
        match self.stage {
            Stage::Stopped(c) => Action::Stop(c),
            Stage::Issue => {
                let (stage, action) = self.issue(pc);
                self.stage = stage;
                action
            },
            Stage::AwaitStep => {
                let verdict = step_result(&self.plan[pc], outcome);
                assert(self@.plan[pc as int] == self.plan@[pc as int]@);
                match verdict {
                    None => self.issue_next(),
                    Some(c) => self.stop(c),
                }
            },
            Stage::AwaitProbe => {
                assert(self@.plan[pc as int] == self.plan@[pc as int]@);
                let (how, notice) = match &self.plan[pc] {
                    Op::EnsureInstalled { how, notice, .. } => (*how, notice.clone()),
                    _ => {
                        return self.stop(Conclusion::IoFailed);
                    },
                };
                match probe_verdict(how, outcome) {
                    ProbeVerdict::Present => self.issue_next(),
                    ProbeVerdict::Missing => {
                        self.stage = Stage::AwaitNotice;
                        Action::Print(notice)
                    },
                    ProbeVerdict::Broken => self.stop(Conclusion::IoFailed),
                }
            },
            Stage::AwaitNotice => {
                assert(self@.plan[pc as int] == self.plan@[pc as int]@);
                let install = match &self.plan[pc] {
                    Op::EnsureInstalled { install, .. } => install.duplicate(),
                    _ => {
                        return self.stop(Conclusion::IoFailed);
                    },
                };
                self.stage = Stage::AwaitInstall;
                Action::Spawn(install)
            },
            Stage::AwaitInstall => match checked_command(outcome) {
                None => self.issue_next(),
                Some(c) => self.stop(c),
            },
        }
    }
}

fn checked_command(outcome: Outcome) -> (res: Option<Conclusion>)
    ensures
        res == spec_checked_command(outcome),
{
    match outcome {
        Outcome::Exited { success } => if success {
            None
        } else {
            Some(Conclusion::CommandFailed)
        },
        _ => Some(Conclusion::IoFailed),
    }
}

fn step_result(op: &Op, outcome: Outcome) -> (res: Option<Conclusion>)
    ensures
        res == spec_step_result(op@, outcome),
{
    match op {
        Op::Run(_) => checked_command(outcome),
        Op::RunIgnoringStatus(_) => match outcome {
            Outcome::Exited { .. } => None,
            _ => Some(Conclusion::IoFailed),
        },
        Op::CopyDir { .. } | Op::Rename { .. } => match outcome {
            Outcome::Done => None,
            _ => Some(Conclusion::IoFailed),
        },
        _ => None,
    }
}

fn probe_verdict(how: Probe, outcome: Outcome) -> (res: ProbeVerdict)
    ensures
        res == spec_probe(how, outcome),
{
    match how {
        Probe::Starts => match outcome {
            Outcome::Exited { .. } => ProbeVerdict::Present,
            _ => ProbeVerdict::Missing,
        },
        Probe::Succeeds => match outcome {
            Outcome::Exited { success } => if success {
                ProbeVerdict::Present
            } else {
                ProbeVerdict::Missing
            },
            _ => ProbeVerdict::Broken,
        },
    }
}

} // verus!
