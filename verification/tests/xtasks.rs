use colabie::xtasks::runner::{Action, Conclusion, Outcome, Runner};
use colabie::xtasks::utils::{CommandFailed, CommandStatus, EarlyRet};
use colabie::xtasks::{build_clientie, clientie, registrie, watch, Op, Xtask};

fn describe(action: &Action) -> String {
    match action {
        Action::Print(line) => format!("print {line}"),
        Action::Spawn(cmd) => format!("run {} {}", cmd.program, cmd.args.join(" ")),
        Action::RemoveDirAll(path) => format!("rm {path}"),
        Action::CopyDirAll { from, to } => format!("cp {from} {to}"),
        Action::Rename { from, to } => format!("mv {from} {to}"),
        Action::Stop(c) => format!("stop {c:?}", c = conclusion(*c)),
    }
}

fn conclusion(c: Conclusion) -> &'static str {
    match c {
        Conclusion::Completed => "completed",
        Conclusion::CommandFailed => "command failed",
        Conclusion::IoFailed => "io failed",
    }
}

/// Runs `plan`, answering each action with what `answer` says.
fn run(plan: Vec<Op>, mut answer: impl FnMut(&Action) -> Outcome) -> Vec<String> {
    let mut runner = Runner::new(plan);
    let mut outcome = Outcome::Nothing;
    let mut log = vec![];
    loop {
        let action = runner.advance(outcome);
        log.push(describe(&action));
        if let Action::Stop(_) = action {
            return log;
        }
        outcome = answer(&action);
    }
}

fn all_well(action: &Action) -> Outcome {
    match action {
        Action::Spawn(_) => Outcome::Exited { success: true },
        _ => Outcome::Done,
    }
}

#[test]
fn build_clientie_when_all_goes_well() {
    let log = run(build_clientie(), all_well);
    assert_eq!(
        log,
        vec![
            "run wasm-pack --version",
            "print [xtask]: Building clientie",
            "run wasm-pack build --no-typescript --target web clientie",
            "print [xtask]: Moving clientie web files to target/web",
            "rm target/web",
            "cp clientie/web target/web",
            "mv clientie/pkg target/web/pkg",
            "stop \"completed\"",
        ]
    );
}

#[test]
fn missing_tool_is_installed_first() {
    let log = run(build_clientie(), |action| match action {
        Action::Spawn(cmd) if cmd.program == "wasm-pack" && cmd.args == ["--version"] => {
            Outcome::CouldNotStart
        }
        other => all_well(other),
    });
    assert_eq!(log[0], "run wasm-pack --version");
    assert_eq!(log[1], "print [xtask]: Installing wasm-pack");
    assert_eq!(log[2], "run cargo install wasm-pack");
    assert_eq!(log[3], "print [xtask]: Building clientie");
    assert_eq!(log.last().unwrap(), "stop \"completed\"");
}

#[test]
fn failed_install_stops_the_run() {
    let log = run(registrie::build(), |_| Outcome::Exited { success: false });
    assert_eq!(
        log,
        vec![
            "print [xtask]: Building registrie",
            "run cargo build --package registrie",
            "stop \"command failed\"",
        ]
    );
    let log = run(clientie::serve(), |action| match action {
        Action::Spawn(_) => Outcome::CouldNotStart,
        _ => Outcome::Done,
    });
    assert_eq!(log.len(), 4);
    assert_eq!(log[2], "run cargo install static-web-server");
    assert_eq!(log[3], "stop \"io failed\"");
}

#[test]
fn server_exit_status_is_ignored() {
    let log = run(clientie::serve(), |action| match action {
        Action::Spawn(_) => Outcome::Exited { success: false },
        _ => Outcome::Done,
    });
    assert_eq!(
        log,
        vec![
            "run static-web-server --version",
            "print [xtask]: Starting static-web-server at http://localhost:8080",
            "run static-web-server --host 0.0.0.0 --port 8080 --root ./target/web",
            "stop \"completed\"",
        ]
    );
}

#[test]
fn watch_probe_must_succeed() {
    let log = run(watch("registrie/src", "run"), |action| match action {
        Action::Spawn(cmd) if cmd.args == ["watch", "--version"] => Outcome::Exited { success: false },
        other => all_well(other),
    });
    assert_eq!(
        log,
        vec![
            "run cargo watch --version",
            "print [xtask]: Installing cargo-watch",
            "run cargo install cargo-watch",
            "run cargo watch -qc -w registrie/src -x run",
            "stop \"completed\"",
        ]
    );
    let log = run(watch("registrie/src", "run"), |_| Outcome::CouldNotStart);
    assert_eq!(log, vec!["run cargo watch --version", "stop \"io failed\""]);
}

#[test]
fn failed_copy_stops_the_run() {
    let log = run(clientie::build(), |action| match action {
        Action::CopyDirAll { .. } => Outcome::Failed,
        Action::RemoveDirAll(_) => Outcome::Failed,
        other => all_well(other),
    });
    assert!(log.contains(&"rm target/web".to_string()));
    assert!(log.contains(&"run wasm-bindgen target/wasm32-unknown-unknown/release/clientie.wasm --no-typescript --target web --out-dir target/web/wasm".to_string()));
    assert_eq!(log[log.len() - 2], "cp clientie/web target/web");
    assert_eq!(log.last().unwrap(), "stop \"io failed\"");
}

#[test]
fn stopped_runner_stays_stopped() {
    let mut runner = Runner::new(vec![]);
    for _ in 0..3 {
        assert!(matches!(runner.advance(Outcome::Done), Action::Stop(Conclusion::Completed)));
    }
}

#[test]
fn xtask_plans() {
    let make = run(Xtask::Make.plan(), all_well);
    assert_eq!(make[0], "print [xtask]: Making the Colabie project, finally ;)");
    assert_eq!(make[1], "run wasm-bindgen --version");
    assert!(make.contains(&"run cargo build --package registrie".to_string()));
    let quick = run(Xtask::QuickDevRegistrie.plan(), all_well);
    assert_eq!(
        quick[1],
        "run cargo watch -qc -w registrie/tests -x test --package registrie -q quick_dev -- --nocapture"
    );
    assert_eq!(Xtask::ServeRegistrie.plan().len(), 4);
    assert_eq!(Xtask::ServeClientie.plan().len(), 11);
    assert_eq!(Xtask::WatchClientie.plan().len(), 2);
}

#[test]
fn early_ret_on_status() {
    let ok = CommandStatus { success: true };
    assert!(ok.early_ret() == Ok(CommandStatus { success: true }));
    let failed = CommandStatus { success: false }.early_ret();
    assert!(failed == Err(CommandFailed));
    assert_eq!(CommandFailed.message(), "Command failed");
}
