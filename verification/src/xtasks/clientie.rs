//! Building and serving the web client.
use crate::xtasks::{
    cmd_model, ensure_installed, plan_model, spec_ensure_installed, Cmd, Op, OpModel, WEB_OUTPUT_DIR,
};
use vstd::prelude::*;
use vstd::string::StringExecFns;

verus! {

/// The steps of building the client for the web with cargo and
/// wasm-bindgen, then gathering its web files in `target/web`.
pub open spec fn spec_build() -> Seq<OpModel> {
    seq![
        spec_ensure_installed("wasm-bindgen", "[xtask]: Installing wasm-pack", "wasm-bindgen-cli"),
        OpModel::Say("[xtask]: Building clientie"@),
        OpModel::Run(
            cmd_model(
                "cargo",
                seq![
                    "build"@,
                    "--release"@,
                    "--package"@,
                    "clientie"@,
                    "--target"@,
                    "wasm32-unknown-unknown"@,
                ],
            ),
        ),
        OpModel::RemoveDirQuietly(WEB_OUTPUT_DIR@),
        OpModel::Say("[xtasks]: Building wasm files"@),
        OpModel::Run(
            cmd_model(
                "wasm-bindgen",
                seq![
                    "target/wasm32-unknown-unknown/release/clientie.wasm"@,
                    "--no-typescript"@,
                    "--target"@,
                    "web"@,
                    "--out-dir"@,
                    WEB_OUTPUT_DIR@ + "/wasm"@,
                ],
            ),
        ),
        OpModel::Say("[xtask]: Moving clientie web files to target/web"@),
        OpModel::CopyDir { from: "clientie/web"@, to: WEB_OUTPUT_DIR@ },
    ]
}

pub fn build() -> (plan: Vec<Op>)
    ensures
        plan_model(plan@) == spec_build(),
{
    let install = ensure_installed(
        "wasm-bindgen",
        "[xtask]: Installing wasm-pack",
        "wasm-bindgen-cli",
    );
    let compile = Cmd::new("cargo").arg("build").arg("--release").arg("--package").arg(
        "clientie",
    ).arg("--target").arg("wasm32-unknown-unknown");
    assert(compile@.args =~= seq![
        "build"@,
        "--release"@,
        "--package"@,
        "clientie"@,
        "--target"@,
        "wasm32-unknown-unknown"@,
    ]);
    let mut out_dir = WEB_OUTPUT_DIR.to_owned();
    out_dir.append("/wasm");
    let bindgen = Cmd::new("wasm-bindgen").arg(
        "target/wasm32-unknown-unknown/release/clientie.wasm",
    ).arg("--no-typescript").arg("--target").arg("web").arg("--out-dir").arg(out_dir.as_str());
    assert(bindgen@.args =~= seq![
        "target/wasm32-unknown-unknown/release/clientie.wasm"@,
        "--no-typescript"@,
        "--target"@,
        "web"@,
        "--out-dir"@,
        WEB_OUTPUT_DIR@ + "/wasm"@,
    ]);
    let plan = vec![
        install,
        Op::Say("[xtask]: Building clientie".to_owned()),
        Op::Run(compile),
        Op::RemoveDirQuietly(WEB_OUTPUT_DIR.to_owned()),
        Op::Say("[xtasks]: Building wasm files".to_owned()),
        Op::Run(bindgen),
        Op::Say("[xtask]: Moving clientie web files to target/web".to_owned()),
        Op::CopyDir { from: "clientie/web".to_owned(), to: WEB_OUTPUT_DIR.to_owned() },
    ];
    assert(plan_model(plan@) =~= spec_build());
    plan
}

/// The steps of serving `target/web` on port 8080 with static-web-server,
/// installing it first when it cannot be started.
pub open spec fn spec_serve() -> Seq<OpModel> {
    seq![
        spec_ensure_installed(
            "static-web-server",
            "[xtask]: Installing static-web-server",
            "static-web-server",
        ),
        OpModel::Say("[xtask]: Starting static-web-server at http://localhost:8080"@),
        OpModel::RunIgnoringStatus(
            cmd_model(
                "static-web-server",
                seq!["--host"@, "0.0.0.0"@, "--port"@, "8080"@, "--root"@, "./target/web"@],
            ),
        ),
    ]
}

pub fn serve() -> (plan: Vec<Op>)
    ensures
        plan_model(plan@) == spec_serve(),
{
    let install = ensure_installed(
        "static-web-server",
        "[xtask]: Installing static-web-server",
        "static-web-server",
    );
    let server = Cmd::new("static-web-server").arg("--host").arg("0.0.0.0").arg("--port").arg(
        "8080",
    ).arg("--root").arg("./target/web");
    assert(server@.args =~= seq![
        "--host"@,
        "0.0.0.0"@,
        "--port"@,
        "8080"@,
        "--root"@,
        "./target/web"@,
    ]);
    let plan = vec![
        install,
        Op::Say("[xtask]: Starting static-web-server at http://localhost:8080".to_owned()),
        Op::RunIgnoringStatus(server),
    ];
    assert(plan_model(plan@) =~= spec_serve());
    plan
}

} // verus!
