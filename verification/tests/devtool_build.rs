use jjs::devtool_build::{BuildOpts, BuildType, DeployKind, RawBuildOpts};

fn raw() -> RawBuildOpts {
    RawBuildOpts { full: false, docker: false, setup: false, deb: false, configure: vec![], docs: false }
}

fn local() -> BuildType {
    BuildType { is_deploy: false, deploy_kind: None, is_pr_e2e: false }
}

fn args(opts: &BuildOpts) -> Vec<String> {
    opts.configure_command().args().clone()
}

#[test]
fn plain_local_build() {
    let opts = BuildOpts { raw: raw(), build_type: local() };
    let cmd = opts.configure_command();
    assert_eq!(cmd.to_string_pretty(), "cd target && ../configure --out=/opt/jjs --enable-json-schema --disable-man");
    assert!(!opts.full());
    assert!(!opts.should_build_deb());
    assert!(!opts.should_build_doc());
    assert!(!opts.should_build_docker());
}

#[test]
fn full_local_build_with_extra_options() {
    let mut r = raw();
    r.full = true;
    r.setup = true;
    r.configure = vec!["--x".to_string(), "--y".to_string()];
    let opts = BuildOpts { raw: r, build_type: local() };
    assert_eq!(
        args(&opts),
        vec![
            "--out=/opt/jjs",
            "--enable-json-schema",
            "--enable-deb",
            "--with-deb-opt=--uncompressed",
            "--enable-archive",
            "--enable-extras",
            "--disable-core",
            "--disable-tools",
            "--enable-api-doc",
            "--enable-rust-doc",
            "--enable-compile-trial-contest",
            "--x",
            "--y"
        ]
    );
}

#[test]
fn deploy_of_manual_and_of_docker() {
    let man = BuildOpts {
        raw: raw(),
        build_type: BuildType { is_deploy: true, deploy_kind: Some(DeployKind::Man), is_pr_e2e: false },
    };
    assert!(!man.full());
    assert!(man.should_build_doc());
    assert_eq!(
        args(&man),
        vec![
            "--out=/opt/jjs",
            "--enable-json-schema",
            "--optimize",
            "--disable-core",
            "--disable-tools",
            "--enable-api-doc",
            "--enable-rust-doc"
        ]
    );
    let docker = BuildOpts {
        raw: raw(),
        build_type: BuildType { is_deploy: true, deploy_kind: Some(DeployKind::Docker), is_pr_e2e: false },
    };
    assert!(docker.full());
    assert!(docker.should_build_docker());
    assert_eq!(
        args(&docker),
        vec![
            "--out=/opt/jjs",
            "--enable-json-schema",
            "--enable-deb",
            "--optimize",
            "--enable-docker",
            "--enable-archive",
            "--enable-extras",
            "--disable-man"
        ]
    );
    assert!(!docker.should_build_doc());
}

#[test]
fn pull_request_e2e_build() {
    let opts = BuildOpts {
        raw: raw(),
        build_type: BuildType { is_deploy: false, deploy_kind: None, is_pr_e2e: true },
    };
    assert!(opts.should_build_deb());
    assert_eq!(
        args(&opts),
        vec![
            "--out=/opt/jjs",
            "--enable-json-schema",
            "--enable-deb",
            "--with-deb-opt=--uncompressed",
            "--disable-man",
            "--enable-compile-trial-contest"
        ]
    );
}
