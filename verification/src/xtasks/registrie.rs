//! Building and serving the registry.
use crate::xtasks::{cmd_model, plan_model, Cmd, Op, OpModel};
use vstd::prelude::*;

verus! {

/// The steps of building the registry with cargo.
pub open spec fn spec_build() -> Seq<OpModel> {
    seq![
        OpModel::Say("[xtask]: Building registrie"@),
        OpModel::Run(cmd_model("cargo", seq!["build"@, "--package"@, "registrie"@])),
    ]
}

pub fn build() -> (plan: Vec<Op>)
    ensures
        plan_model(plan@) == spec_build(),
{
    let cargo = Cmd::new("cargo").arg("build").arg("--package").arg("registrie");
    assert(cargo@.args =~= seq!["build"@, "--package"@, "registrie"@]);
    let plan = vec![Op::Say("[xtask]: Building registrie".to_owned()), Op::Run(cargo)];
    assert(plan_model(plan@) =~= spec_build());
    plan
}

/// The steps of running the registry with cargo.
pub open spec fn spec_serve() -> Seq<OpModel> {
    seq![
        OpModel::Say("[xtask]: Serving registrie"@),
        OpModel::Run(cmd_model("cargo", seq!["run"@, "--package"@, "registrie"@])),
    ]
}

pub fn serve() -> (plan: Vec<Op>)
    ensures
        plan_model(plan@) == spec_serve(),
{
    let cargo = Cmd::new("cargo").arg("run").arg("--package").arg("registrie");
    assert(cargo@.args =~= seq!["run"@, "--package"@, "registrie"@]);
    let plan = vec![Op::Say("[xtask]: Serving registrie".to_owned()), Op::Run(cargo)];
    assert(plan_model(plan@) =~= spec_serve());
    plan
}

} // verus!
