//! The developer tasks (building and serving the client and the registry,
//! watching sources) as plans of steps, and the runner that walks a plan:
//! it says which outside action to perform next and decides, from how the
//! last one went, whether to go on, install a missing tool, or stop.
pub mod clientie;
pub mod registrie;
pub mod runner;
pub mod plan_laws;
pub mod runner_laws;
pub mod utils;

use vstd::prelude::*;

verus! {

/// A command line: a program and its arguments.
pub struct Cmd {
    pub program: String,
    pub args: Vec<String>,
}

/// How to tell that a tool is installed.
#[derive(Clone, Copy, PartialEq, Eq, Structural)]
pub enum Probe {
    /// The probe command can be started.
    Starts,
    /// The probe command runs and exits successfully.
    Succeeds,
}

/// One step of a plan.
pub enum Op {
    /// Print a line.
    Say(String),
    /// Run `probe`; when it shows the tool missing, print `notice` and run
    /// `install`, which must succeed.
    EnsureInstalled { probe: Cmd, how: Probe, notice: String, install: Cmd },
    /// Run a command, which must start and exit successfully.
    Run(Cmd),
    /// Run a command, which must start; how it exits does not matter.
    RunIgnoringStatus(Cmd),
    /// Remove a directory tree, ignoring any error.
    RemoveDirQuietly(String),
    /// Copy a directory tree, which must succeed.
    CopyDir { from: String, to: String },
    /// Rename a file or directory, which must succeed.
    Rename { from: String, to: String },
}

/// How a command line reads, as text.
pub struct CmdModel {
    pub program: Seq<char>,
    pub args: Seq<Seq<char>>,
}

/// How a step reads, as text.
pub enum OpModel {
    Say(Seq<char>),
    EnsureInstalled { probe: CmdModel, how: Probe, notice: Seq<char>, install: CmdModel },
    Run(CmdModel),
    RunIgnoringStatus(CmdModel),
    RemoveDirQuietly(Seq<char>),
    CopyDir { from: Seq<char>, to: Seq<char> },
    Rename { from: Seq<char>, to: Seq<char> },
}

impl View for Cmd {
    type V = CmdModel;

    open spec fn view(&self) -> CmdModel {
        CmdModel { program: self.program@, args: self.args@.map_values(|a: String| a@) }
    }
}

impl View for Op {
    type V = OpModel;

    open spec fn view(&self) -> OpModel {
        match self {
            Op::Say(line) => OpModel::Say(line@),
            Op::EnsureInstalled { probe, how, notice, install } => OpModel::EnsureInstalled {
                probe: probe@,
                how: *how,
                notice: notice@,
                install: install@,
            },
            Op::Run(cmd) => OpModel::Run(cmd@),
            Op::RunIgnoringStatus(cmd) => OpModel::RunIgnoringStatus(cmd@),
            Op::RemoveDirQuietly(path) => OpModel::RemoveDirQuietly(path@),
            Op::CopyDir { from, to } => OpModel::CopyDir { from: from@, to: to@ },
            Op::Rename { from, to } => OpModel::Rename { from: from@, to: to@ },
        }
    }
}

/// The steps of a plan, as text.
pub open spec fn plan_model(plan: Seq<Op>) -> Seq<OpModel> {
    plan.map_values(|op: Op| op@)
}

/// Copies a list of strings.
fn clone_strings(v: &Vec<String>) -> (out: Vec<String>)
    ensures
        out@ == v@,
{
    let mut out: Vec<String> = Vec::new();
    let mut i: usize = 0;
    while i < v.len()
        invariant
            i <= v@.len(),
            out@ == v@.take(i as int),
        decreases v@.len() - i,
    {
        out.push(v[i].clone());
        i = i + 1;
        assert(out@ =~= v@.take(i as int));
    }
    assert(v@.take(v@.len() as int) =~= v@);
    out
}

impl Cmd {
    /// The command line of `program` with no arguments.
    pub fn new(program: &str) -> (cmd: Cmd)
        ensures
            cmd@ == (CmdModel { program: program@, args: seq![] }),
    {
        let cmd = Cmd { program: program.to_owned(), args: Vec::new() };
        assert(cmd@.args =~= Seq::<Seq<char>>::empty());
        cmd
    }

    /// The command line with `arg` added at the end.
    pub fn arg(self, arg: &str) -> (cmd: Cmd)
        ensures
            cmd@ == (CmdModel { program: self@.program, args: self@.args.push(arg@) }),
    {
        let ghost before = self@;
        let mut cmd = self;
        cmd.args.push(arg.to_owned());
        assert(cmd@.args =~= before.args.push(arg@));
        cmd
    }

    /// A copy of the command line.
    pub fn duplicate(&self) -> (cmd: Cmd)
        ensures
            cmd@ == self@,
    {
        Cmd { program: self.program.clone(), args: clone_strings(&self.args) }
    }
}

/// The model of a command line from its text.
pub open spec fn cmd_model(program: &str, args: Seq<Seq<char>>) -> CmdModel {
    CmdModel { program: program@, args }
}

/// Joins two plans: the steps of `first`, then those of `second`.
pub fn then(first: Vec<Op>, second: Vec<Op>) -> (plan: Vec<Op>)
    ensures
        plan_model(plan@) == plan_model(first@) + plan_model(second@),
{
    let mut plan = first;
    let mut rest = second;
    let ghost a = plan@;
    let ghost b = rest@;
    plan.append(&mut rest);
    assert(plan_model(plan@) =~= plan_model(a) + plan_model(b));
    plan
}

/// Where the client's web files are gathered.
pub const WEB_OUTPUT_DIR: &'static str = "target/web";

/// Making sure `tool` is installed, probing it with `tool --version`.
pub open spec fn spec_ensure_installed(tool: &str, notice: &str, crate_name: &str) -> OpModel {
    OpModel::EnsureInstalled {
        probe: cmd_model(tool, seq!["--version"@]),
        how: Probe::Starts,
        notice: notice@,
        install: cmd_model("cargo", seq!["install"@, crate_name@]),
    }
}

/// Makes sure `tool` is installed, probing it by starting `tool --version`
/// and installing `crate_name` with cargo when it cannot be started.
pub(crate) fn ensure_installed(tool: &str, notice: &str, crate_name: &str) -> (op: Op)
    ensures
        op@ == spec_ensure_installed(tool, notice, crate_name),
{
    let probe = Cmd::new(tool).arg("--version");
    let install = Cmd::new("cargo").arg("install").arg(crate_name);
    assert(probe@.args =~= seq!["--version"@]);
    assert(install@.args =~= seq!["install"@, crate_name@]);
    Op::EnsureInstalled { probe, how: Probe::Starts, notice: notice.to_owned(), install }
}

/// The steps of building the client with wasm-pack and gathering its web
/// files in `target/web`.
pub open spec fn spec_build_clientie() -> Seq<OpModel> {
    seq![
        spec_ensure_installed("wasm-pack", "[xtask]: Installing wasm-pack", "wasm-pack"),
        OpModel::Say("[xtask]: Building clientie"@),
        OpModel::Run(
            cmd_model(
                "wasm-pack",
                seq!["build"@, "--no-typescript"@, "--target"@, "web"@, "clientie"@],
            ),
        ),
        OpModel::Say("[xtask]: Moving clientie web files to target/web"@),
        OpModel::RemoveDirQuietly(WEB_OUTPUT_DIR@),
        OpModel::CopyDir { from: "clientie/web"@, to: WEB_OUTPUT_DIR@ },
        OpModel::Rename { from: "clientie/pkg"@, to: WEB_OUTPUT_DIR@ + "/pkg"@ },
    ]
}

pub fn build_clientie() -> (plan: Vec<Op>)
    ensures
        plan_model(plan@) == spec_build_clientie(),
{
    let install = ensure_installed("wasm-pack", "[xtask]: Installing wasm-pack", "wasm-pack");
    let build = Cmd::new("wasm-pack").arg("build").arg("--no-typescript").arg("--target").arg(
        "web",
    ).arg("clientie");
    assert(build@.args =~= seq!["build"@, "--no-typescript"@, "--target"@, "web"@, "clientie"@]);
    let mut pkg_dest = WEB_OUTPUT_DIR.to_owned();
    pkg_dest.append("/pkg");
    let plan = vec![
        install,
        Op::Say("[xtask]: Building clientie".to_owned()),
        Op::Run(build),
        Op::Say("[xtask]: Moving clientie web files to target/web".to_owned()),
        Op::RemoveDirQuietly(WEB_OUTPUT_DIR.to_owned()),
        Op::CopyDir { from: "clientie/web".to_owned(), to: WEB_OUTPUT_DIR.to_owned() },
        Op::Rename { from: "clientie/pkg".to_owned(), to: pkg_dest },
    ];
    assert(plan_model(plan@) =~= spec_build_clientie());
    plan
}

/// The steps of watching `dir` with cargo-watch, running `cargo
/// <run_command>` on every change; cargo-watch is installed when
/// `cargo watch --version` does not succeed.
pub open spec fn spec_watch(dir: Seq<char>, run_command: Seq<char>) -> Seq<OpModel> {
    seq![
        OpModel::EnsureInstalled {
            probe: cmd_model("cargo", seq!["watch"@, "--version"@]),
            how: Probe::Succeeds,
            notice: "[xtask]: Installing cargo-watch"@,
            install: cmd_model("cargo", seq!["install"@, "cargo-watch"@]),
        },
        OpModel::RunIgnoringStatus(
            cmd_model("cargo", seq!["watch"@, "-qc"@, "-w"@, dir, "-x"@, run_command]),
        ),
    ]
}

pub fn watch(dir: &str, run_command: &str) -> (plan: Vec<Op>)
    ensures
        plan_model(plan@) == spec_watch(dir@, run_command@),
{
    let probe = Cmd::new("cargo").arg("watch").arg("--version");
    let install = Cmd::new("cargo").arg("install").arg("cargo-watch");
    let run = Cmd::new("cargo").arg("watch").arg("-qc").arg("-w").arg(dir).arg("-x").arg(
        run_command,
    );
    assert(probe@.args =~= seq!["watch"@, "--version"@]);
    assert(install@.args =~= seq!["install"@, "cargo-watch"@]);
    assert(run@.args =~= seq!["watch"@, "-qc"@, "-w"@, dir@, "-x"@, run_command@]);
    let plan = vec![
        Op::EnsureInstalled {
            probe,
            how: Probe::Succeeds,
            notice: "[xtask]: Installing cargo-watch".to_owned(),
            install,
        },
        Op::RunIgnoringStatus(run),
    ];
    assert(plan_model(plan@) =~= spec_watch(dir@, run_command@));
    plan
}

/// The developer tasks.
#[derive(Clone, Copy, PartialEq, Eq, Structural)]
pub enum Xtask {
    Make,
    ServeClientie,
    ServeRegistrie,
    WatchClientie,
    WatchRegistrie,
    QuickDevRegistrie,
}

pub open spec fn spec_make_banner() -> OpModel {
    OpModel::Say("[xtask]: Making the Colabie project, finally ;)"@)
}

/// The steps of each task.
pub open spec fn spec_xtask_plan(task: Xtask) -> Seq<OpModel> {
    match task {
        Xtask::Make => seq![spec_make_banner()] + clientie::spec_build() + registrie::spec_build(),
        Xtask::ServeClientie => clientie::spec_build() + clientie::spec_serve(),
        Xtask::ServeRegistrie => registrie::spec_build() + registrie::spec_serve(),
        Xtask::WatchClientie => spec_watch("clientie/"@, "run --package xtasks serve-clientie"@),
        Xtask::WatchRegistrie => spec_watch(
            "registrie/src"@,
            "run --package xtasks serve-registrie"@,
        ),
        Xtask::QuickDevRegistrie => spec_watch(
            "registrie/tests"@,
            "test --package registrie -q quick_dev -- --nocapture"@,
        ),
    }
}

fn make_banner() -> (plan: Vec<Op>)
    ensures
        plan_model(plan@) == seq![spec_make_banner()],
{
    let plan = vec![Op::Say("[xtask]: Making the Colabie project, finally ;)".to_owned())];
    assert(plan_model(plan@) =~= seq![spec_make_banner()]);
    plan
}

impl Xtask {
    /// The steps of the task.
    pub fn plan(&self) -> (plan: Vec<Op>)
        ensures
            plan_model(plan@) == spec_xtask_plan(*self),
    {
        match self {
            Xtask::Make => then(then(make_banner(), clientie::build()), registrie::build()),
            Xtask::ServeClientie => then(clientie::build(), clientie::serve()),
            Xtask::ServeRegistrie => then(registrie::build(), registrie::serve()),
            Xtask::WatchClientie => watch("clientie/", "run --package xtasks serve-clientie"),
            Xtask::WatchRegistrie => watch("registrie/src", "run --package xtasks serve-registrie"),
            Xtask::QuickDevRegistrie => watch(
                "registrie/tests",
                "test --package registrie -q quick_dev -- --nocapture",
            ),
        }
    }
}

/// The steps of the `make` program: a banner, then building the client
/// with wasm-pack.
pub fn make_program() -> (plan: Vec<Op>)
    ensures
        plan_model(plan@) == seq![spec_make_banner()] + spec_build_clientie(),
{
    then(make_banner(), build_clientie())
}

/// The steps of the `serve` program: building the client with wasm-pack,
/// then serving it.
pub fn serve_program() -> (plan: Vec<Op>)
    ensures
        plan_model(plan@) == spec_build_clientie() + clientie::spec_serve(),
{
    then(build_clientie(), clientie::serve())
}

} // verus!
