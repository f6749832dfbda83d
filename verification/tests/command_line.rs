use jjs::build_ctx::{BuildCtx, BuildParams, BuildProfile};
use jjs::command::Command;
use jjs::decimal::append_i32;

#[test]
fn command_builder_and_pretty() {
    let mut cmd = Command::new("gcc");
    cmd.arg("-O2").arg("main.c");
    cmd.env("LANG", "C").env("X", "1");
    assert_eq!(cmd.to_string_pretty(), "LANG=C X=1 gcc -O2 main.c");
    cmd.current_dir("/tmp").current_dir("/src");
    assert_eq!(cmd.to_string_pretty(), "cd /src && LANG=C X=1 gcc -O2 main.c");
    assert_eq!(cmd.exe(), "gcc");
    assert_eq!(cmd.args(), &vec!["-O2".to_string(), "main.c".to_string()]);
    assert_eq!(cmd.working_dir(), Some("/src"));
    assert_eq!(cmd.envs().len(), 2);
    let copy = cmd.clone();
    assert_eq!(copy, cmd);
}

#[test]
fn bare_command_pretty() {
    assert_eq!(Command::new("ls").to_string_pretty(), "ls");
}

#[test]
fn failure_report_exit_code_and_signal() {
    let mut cmd = Command::new("testgen");
    cmd.arg("3");
    let report = cmd.failure_report(Some(2), None, "out", "err");
    assert_eq!(
        report,
        "error: child returned error\n\
         testgen did not finished successfully (exit code normal: 2)\n\
         command: `testgen 3`\n\
         child stdout:\nout\n\
         child stderr:\nerr\n"
    );
    let report = cmd.failure_report(None, Some(9), "", "");
    assert!(report.contains("(exit code signaled: 9)\n"));
    let report = cmd.failure_report(Some(-1), Some(3), "", "");
    assert!(report.contains("(exit code normal: -1)\n"));
}

#[test]
fn decimal_text_matches_display() {
    for n in [0, 7, 10, 42, 1000, -5, -120, i32::MAX, i32::MIN] {
        let mut s = String::from("x");
        append_i32(&mut s, n);
        assert_eq!(s, format!("x{}", n));
    }
}

fn params(target: Option<&str>, profile: BuildProfile) -> BuildParams {
    BuildParams {
        src: "/src/jjs".to_string(),
        build: "/build".to_string(),
        target: target.map(|t| t.to_string()),
        profile,
    }
}

#[test]
fn cargo_command() {
    let ctx = BuildCtx::new(params(None, BuildProfile::Debug));
    let cmd = ctx.cargo();
    assert_eq!(cmd.to_string_pretty(), "cd /src/jjs && CARGO_PROFILE_RELEASE_INCREMENTAL=false cargo");
}

#[test]
fn cargo_build_debug() {
    let ctx = BuildCtx::new(params(None, BuildProfile::Debug));
    let cmd = ctx.cargo_build();
    assert_eq!(
        cmd.to_string_pretty(),
        "cd /src/jjs && CARGO_PROFILE_RELEASE_INCREMENTAL=false cargo build -Zunstable-options --out-dir /build/jjs-out --locked"
    );
}

#[test]
fn cargo_build_release_with_target() {
    let ctx = BuildCtx::new(params(Some("x86_64-unknown-linux-musl"), BuildProfile::Release));
    let args: Vec<String> = ctx.cargo_build().args().clone();
    assert_eq!(
        args,
        vec![
            "build",
            "--target",
            "x86_64-unknown-linux-musl",
            "--release",
            "-Zunstable-options",
            "--out-dir",
            "/build/jjs-out",
            "--locked"
        ]
    );
    assert_eq!(ctx.cargo_build().envs().len(), 1);
}

#[test]
fn cargo_build_release_with_debug_info() {
    let ctx = BuildCtx::new(params(None, BuildProfile::RelWithDebInfo));
    let cmd = ctx.cargo_build();
    assert!(cmd.args().contains(&"--release".to_string()));
    assert_eq!(
        cmd.envs(),
        &vec![
            ("CARGO_PROFILE_RELEASE_INCREMENTAL".to_string(), "false".to_string()),
            ("CARGO_PROFILE_RELEASE_DEBUG".to_string(), "true".to_string())
        ]
    );
}

#[test]
fn out_dir_joins_with_trailing_slash() {
    let mut p = params(None, BuildProfile::Debug);
    p.build = "/build/".to_string();
    let cmd = BuildCtx::new(p).cargo_build();
    assert!(cmd.args().contains(&"/build/jjs-out".to_string()));
}
