//! What each developer task does, stated with the literal commands and
//! paths, and the order its steps must keep.
use crate::xtasks::{
    clientie, registrie, spec_build_clientie, spec_watch, spec_xtask_plan, CmdModel, OpModel, Probe, Xtask,
};
use vstd::prelude::*;

verus! {

/// A command line from its literal text.
pub open spec fn line(program: Seq<char>, args: Seq<Seq<char>>) -> CmdModel {
    CmdModel { program, args }
}

/// No step from index `from` on removes a directory.
pub open spec fn no_removal_from(plan: Seq<OpModel>, from: int) -> bool {
    forall|k: int| from <= k < plan.len() ==> !(#[trigger] plan[k] is RemoveDirQuietly)
}

/// Building the client for the web: wasm-bindgen is installed when missing,
/// the client is compiled for wasm32, `target/web` is cleared before
/// wasm-bindgen writes the bindings into `target/web/wasm`, nothing removes
/// `target/web` afterwards, and the client's web files are copied in last.
pub proof fn lemma_client_build(p: Seq<OpModel>)
    requires
        p == clientie::spec_build(),
    ensures
        p.len() == 8,
        p[0] == (OpModel::EnsureInstalled {
            probe: line("wasm-bindgen"@, seq!["--version"@]),
            how: Probe::Starts,
            notice: "[xtask]: Installing wasm-pack"@,
            install: line("cargo"@, seq!["install"@, "wasm-bindgen-cli"@]),
        }),
        p[1] == OpModel::Say("[xtask]: Building clientie"@),
        p[2] == OpModel::Run(
            line(
                "cargo"@,
                seq![
                    "build"@,
                    "--release"@,
                    "--package"@,
                    "clientie"@,
                    "--target"@,
                    "wasm32-unknown-unknown"@,
                ],
            ),
        ),
        p[3] == OpModel::RemoveDirQuietly("target/web"@),
        p[4] == OpModel::Say("[xtasks]: Building wasm files"@),
        p[5] == OpModel::Run(
            line(
                "wasm-bindgen"@,
                seq![
                    "target/wasm32-unknown-unknown/release/clientie.wasm"@,
                    "--no-typescript"@,
                    "--target"@,
                    "web"@,
                    "--out-dir"@,
                    "target/web/wasm"@,
                ],
            ),
        ),
        p[6] == OpModel::Say("[xtask]: Moving clientie web files to target/web"@),
        p[7] == (OpModel::CopyDir { from: "clientie/web"@, to: "target/web"@ }),
        no_removal_from(p, 4),
{
    reveal_strlit("target/web");
    reveal_strlit("/wasm");
    reveal_strlit("target/web/wasm");
    assert("target/web"@ + "/wasm"@ =~= "target/web/wasm"@);
}

/// Building the client with wasm-pack: wasm-pack is installed when missing,
/// the client is built, `target/web` is cleared before the web files are
/// copied in and the package is moved to `target/web/pkg`, and nothing
/// removes `target/web` afterwards.
pub proof fn lemma_build_clientie(p: Seq<OpModel>)
    requires
        p == spec_build_clientie(),
    ensures
        p.len() == 7,
        p[0] == (OpModel::EnsureInstalled {
            probe: line("wasm-pack"@, seq!["--version"@]),
            how: Probe::Starts,
            notice: "[xtask]: Installing wasm-pack"@,
            install: line("cargo"@, seq!["install"@, "wasm-pack"@]),
        }),
        p[1] == OpModel::Say("[xtask]: Building clientie"@),
        p[2] == OpModel::Run(
            line(
                "wasm-pack"@,
                seq!["build"@, "--no-typescript"@, "--target"@, "web"@, "clientie"@],
            ),
        ),
        p[3] == OpModel::Say("[xtask]: Moving clientie web files to target/web"@),
        p[4] == OpModel::RemoveDirQuietly("target/web"@),
        p[5] == (OpModel::CopyDir { from: "clientie/web"@, to: "target/web"@ }),
        p[6] == (OpModel::Rename { from: "clientie/pkg"@, to: "target/web/pkg"@ }),
        no_removal_from(p, 5),
{
    reveal_strlit("target/web");
    reveal_strlit("/pkg");
    reveal_strlit("target/web/pkg");
    assert("target/web"@ + "/pkg"@ =~= "target/web/pkg"@);
}

/// Serving the client: static-web-server is installed when missing, then
/// started on `target/web` at port 8080 on every address; how it exits does
/// not matter.
pub proof fn lemma_client_serve(p: Seq<OpModel>)
    requires
        p == clientie::spec_serve(),
    ensures
        p.len() == 3,
        p[0] == (OpModel::EnsureInstalled {
            probe: line("static-web-server"@, seq!["--version"@]),
            how: Probe::Starts,
            notice: "[xtask]: Installing static-web-server"@,
            install: line("cargo"@, seq!["install"@, "static-web-server"@]),
        }),
        p[1] == OpModel::Say("[xtask]: Starting static-web-server at http://localhost:8080"@),
        p[2] == OpModel::RunIgnoringStatus(
            line(
                "static-web-server"@,
                seq!["--host"@, "0.0.0.0"@, "--port"@, "8080"@, "--root"@, "./target/web"@],
            ),
        ),
{
}

/// Building the registry compiles it with `cargo build`; serving it runs it
/// with `cargo run`. Both must succeed.
pub proof fn lemma_registry_tasks(b: Seq<OpModel>, s: Seq<OpModel>)
    requires
        b == registrie::spec_build(),
        s == registrie::spec_serve(),
    ensures
        b == seq![
            OpModel::Say("[xtask]: Building registrie"@),
            OpModel::Run(line("cargo"@, seq!["build"@, "--package"@, "registrie"@])),
        ],
        s == seq![
            OpModel::Say("[xtask]: Serving registrie"@),
            OpModel::Run(line("cargo"@, seq!["run"@, "--package"@, "registrie"@])),
        ],
{
}

/// The steps of watching `dir` and rerunning `cargo <command>` on change,
/// with cargo-watch installed first when `cargo watch --version` fails.
pub open spec fn watching(dir: Seq<char>, command: Seq<char>) -> Seq<OpModel> {
    seq![
        OpModel::EnsureInstalled {
            probe: line("cargo"@, seq!["watch"@, "--version"@]),
            how: Probe::Succeeds,
            notice: "[xtask]: Installing cargo-watch"@,
            install: line("cargo"@, seq!["install"@, "cargo-watch"@]),
        },
        OpModel::RunIgnoringStatus(
            line("cargo"@, seq!["watch"@, "-qc"@, "-w"@, dir, "-x"@, command]),
        ),
    ]
}

/// Watching any directory with any command: cargo-watch is installed when
/// `cargo watch --version` fails, then `cargo watch -qc -w <dir> -x
/// <command>` runs.
pub proof fn lemma_watch(dir: Seq<char>, command: Seq<char>)
    ensures
        spec_watch(dir, command) == watching(dir, command),
{
}

/// What each task does: `make` prints its banner, builds the client and
/// then the registry; the serve tasks build and then serve their part; the
/// watch tasks watch their sources and rerun the matching task.
pub proof fn lemma_xtask_plans()
    ensures
        spec_xtask_plan(Xtask::Make) == seq![
            OpModel::Say("[xtask]: Making the Colabie project, finally ;)"@),
        ] + clientie::spec_build() + registrie::spec_build(),
        spec_xtask_plan(Xtask::Make).last() == OpModel::Run(
            line("cargo"@, seq!["build"@, "--package"@, "registrie"@]),
        ),
        spec_xtask_plan(Xtask::ServeClientie) == clientie::spec_build() + clientie::spec_serve(),
        spec_xtask_plan(Xtask::ServeRegistrie) == seq![
            OpModel::Say("[xtask]: Building registrie"@),
            OpModel::Run(line("cargo"@, seq!["build"@, "--package"@, "registrie"@])),
            OpModel::Say("[xtask]: Serving registrie"@),
            OpModel::Run(line("cargo"@, seq!["run"@, "--package"@, "registrie"@])),
        ],
        spec_xtask_plan(Xtask::WatchClientie) == watching(
            "clientie/"@,
            "run --package xtasks serve-clientie"@,
        ),
        spec_xtask_plan(Xtask::WatchRegistrie) == watching(
            "registrie/src"@,
            "run --package xtasks serve-registrie"@,
        ),
        spec_xtask_plan(Xtask::QuickDevRegistrie) == watching(
            "registrie/tests"@,
            "test --package registrie -q quick_dev -- --nocapture"@,
        ),
{
    let make = spec_xtask_plan(Xtask::Make);
    assert(make.last() == registrie::spec_build().last());
    assert(spec_xtask_plan(Xtask::ServeRegistrie) =~= seq![
        OpModel::Say("[xtask]: Building registrie"@),
        OpModel::Run(line("cargo"@, seq!["build"@, "--package"@, "registrie"@])),
        OpModel::Say("[xtask]: Serving registrie"@),
        OpModel::Run(line("cargo"@, seq!["run"@, "--package"@, "registrie"@])),
    ]);
}

} // verus!
