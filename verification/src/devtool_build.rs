use vstd::prelude::*;

use crate::command::{Command, CommandView};

verus! {

/// What a deploy build produces.
#[derive(Debug, PartialEq, Eq, Clone, Copy)]
pub enum DeployKind {
    Docker,
    Man,
    Deb,
}

/// The kind of build that continuous integration runs, as detected from its
/// environment.
#[derive(Debug, PartialEq, Eq, Clone, Copy)]
pub struct BuildType {
    pub is_deploy: bool,
    pub deploy_kind: Option<DeployKind>,
    pub is_pr_e2e: bool,
}

/// The options of the build task, as given on its command line.
#[derive(Debug, PartialEq, Eq)]
pub struct RawBuildOpts {
    /// enable things that are not required for running tests
    pub full: bool,
    /// Enable docker
    pub docker: bool,
    /// Setup (useful for development)
    pub setup: bool,
    /// Debian packages
    pub deb: bool,
    /// Additional options to pass to configure
    pub configure: Vec<String>,
    /// Build all docs
    pub docs: bool,
}

/// Whether everything is built: on request, or for a deploy of anything
/// but the manual.
pub open spec fn wants_full(o: RawBuildOpts, bt: BuildType) -> bool {
    (bt.is_deploy && bt.deploy_kind != Some(DeployKind::Man)) || o.full
}

/// Whether Debian packages are built.
pub open spec fn wants_deb(o: RawBuildOpts, bt: BuildType) -> bool {
    bt.is_pr_e2e || bt.deploy_kind == Some(DeployKind::Deb) || o.deb
}

/// Whether the documentation is built.
pub open spec fn wants_doc(o: RawBuildOpts, bt: BuildType) -> bool {
    bt.deploy_kind == Some(DeployKind::Man) || o.full || o.docs
}

/// Whether docker images are built.
pub open spec fn wants_docker(o: RawBuildOpts, bt: BuildType) -> bool {
    o.docker || bt.deploy_kind == Some(DeployKind::Docker)
}

/// Whether the trial contest is compiled.
pub open spec fn wants_trial_contest(o: RawBuildOpts, bt: BuildType) -> bool {
    o.setup || bt.is_pr_e2e
}

/// The Debian-package arguments of `../configure`.
pub open spec fn deb_args(o: RawBuildOpts, bt: BuildType) -> Seq<Seq<char>> {
    if wants_full(o, bt) || wants_deb(o, bt) {
        seq!["--enable-deb"@] + (if !bt.is_deploy {
            seq!["--with-deb-opt=--uncompressed"@]
        } else {
            Seq::empty()
        })
    } else {
        Seq::empty()
    }
}

/// The arguments of `../configure` that select optional parts.
pub open spec fn feature_args(o: RawBuildOpts, bt: BuildType) -> Seq<Seq<char>> {
    (if bt.is_deploy { seq!["--optimize"@] } else { Seq::empty() })
        + (if wants_docker(o, bt) { seq!["--enable-docker"@] } else { Seq::empty() })
        + (if wants_full(o, bt) { seq!["--enable-archive"@, "--enable-extras"@] } else { Seq::empty() })
}

/// The documentation arguments of `../configure`.
pub open spec fn doc_args(o: RawBuildOpts, bt: BuildType) -> Seq<Seq<char>> {
    (if wants_doc(o, bt) {
        seq!["--disable-core"@, "--disable-tools"@, "--enable-api-doc"@, "--enable-rust-doc"@]
    } else {
        seq!["--disable-man"@]
    }) + (if wants_trial_contest(o, bt) { seq!["--enable-compile-trial-contest"@] } else { Seq::empty() })
}

/// The arguments of `../configure` for the options and the build type.
pub open spec fn configure_args(o: RawBuildOpts, bt: BuildType) -> Seq<Seq<char>> {
    seq!["--out=/opt/jjs"@, "--enable-json-schema"@] + deb_args(o, bt) + feature_args(o, bt) + doc_args(o, bt)
        + o.configure.deep_view()
}

/// The options of the build task, with the build type they are judged in.
pub struct BuildOpts {
    pub raw: RawBuildOpts,
    pub build_type: BuildType,
}

impl BuildOpts {
    /// Whether everything is built.
    pub fn full(&self) -> (r: bool)
        ensures
            r == wants_full(self.raw, self.build_type),
    {
        let bt = self.build_type;
        let deploy_wants_full = bt.is_deploy && !matches!(bt.deploy_kind, Some(DeployKind::Man));
        deploy_wants_full || self.raw.full
    }

    /// Whether Debian packages are built.
    pub fn should_build_deb(&self) -> (r: bool)
        ensures
            r == wants_deb(self.raw, self.build_type),
    {
        let bt = self.build_type;
        bt.is_pr_e2e || matches!(bt.deploy_kind, Some(DeployKind::Deb)) || self.raw.deb
    }

    /// Whether the documentation is built.
    pub fn should_build_doc(&self) -> (r: bool)
        ensures
            r == wants_doc(self.raw, self.build_type),
    {
        let bt = self.build_type;
        matches!(bt.deploy_kind, Some(DeployKind::Man)) || self.raw.full || self.raw.docs
    }

    /// Whether docker images are built.
    pub fn should_build_docker(&self) -> (r: bool)
        ensures
            r == wants_docker(self.raw, self.build_type),
    {
        self.raw.docker || matches!(self.build_type.deploy_kind, Some(DeployKind::Docker))
    }

    /// The options as given.
    pub fn raw(&self) -> (r: &RawBuildOpts)
        ensures
            *r == self.raw,
    {
        &self.raw
    }

    fn add_deb_args(&self, cmd: &mut Command)
        ensures
            final(cmd)@ == (CommandView { argv: old(cmd)@.argv + deb_args(self.raw, self.build_type), ..old(cmd)@ }),
    {
        let ghost start = cmd@;
        if self.full() || self.should_build_deb() {
            cmd.arg("--enable-deb");
            if !self.build_type.is_deploy {
                cmd.arg("--with-deb-opt=--uncompressed");
            }
        }
        assert(cmd@.argv =~= start.argv + deb_args(self.raw, self.build_type));
    }

    fn add_feature_args(&self, cmd: &mut Command)
        ensures
            final(cmd)@ == (CommandView { argv: old(cmd)@.argv + feature_args(self.raw, self.build_type), ..old(cmd)@ }),
    {
        let ghost start = cmd@;
        if self.build_type.is_deploy {
            cmd.arg("--optimize");
        }
        if self.should_build_docker() {
            cmd.arg("--enable-docker");
        }
        if self.full() {
            cmd.arg("--enable-archive");
            cmd.arg("--enable-extras");
        }
        assert(cmd@.argv =~= start.argv + feature_args(self.raw, self.build_type));
    }

    fn add_doc_args(&self, cmd: &mut Command)
        ensures
            final(cmd)@ == (CommandView { argv: old(cmd)@.argv + doc_args(self.raw, self.build_type), ..old(cmd)@ }),
    {
        let ghost start = cmd@;
        if self.should_build_doc() {
            cmd.arg("--disable-core");
            cmd.arg("--disable-tools");
            cmd.arg("--enable-api-doc");
            cmd.arg("--enable-rust-doc");
        } else {
            cmd.arg("--disable-man");
        }
        if self.raw.setup || self.build_type.is_pr_e2e {
            cmd.arg("--enable-compile-trial-contest");
        }
        assert(cmd@.argv =~= start.argv + doc_args(self.raw, self.build_type));
    }

    /// `../configure`, run in `target`, with the arguments that the options
    /// and the build type call for, the extra configure options last.
    pub fn configure_command(&self) -> (r: Command)
        ensures
            r@ == (CommandView {
                argv: configure_args(self.raw, self.build_type),
                exe: "../configure"@,
                cwd: Some("target"@),
                env: Seq::empty(),
            }),
    {
        let mut cmd = Command::new("../configure");
        cmd.current_dir("target");
        cmd.arg("--out=/opt/jjs");
        cmd.arg("--enable-json-schema");
        self.add_deb_args(&mut cmd);
        self.add_feature_args(&mut cmd);
        self.add_doc_args(&mut cmd);
        let ghost fixed = cmd@.argv;
        assert(fixed =~= seq!["--out=/opt/jjs"@, "--enable-json-schema"@] + deb_args(self.raw, self.build_type)
            + feature_args(self.raw, self.build_type) + doc_args(self.raw, self.build_type));
        assert(cmd@.env =~= Seq::empty());
        assert(fixed + self.raw.configure.deep_view().take(0) =~= fixed);
        let mut i: usize = 0;
        while i < self.raw.configure.len()
            invariant
                i <= self.raw.configure.len(),
                cmd@ == (CommandView {
                    argv: fixed + self.raw.configure.deep_view().take(i as int),
                    exe: "../configure"@,
                    cwd: Some("target"@),
                    env: Seq::empty(),
                }),
            decreases self.raw.configure.len() - i,
        {
            cmd.arg(self.raw.configure[i].as_str());
            assert(fixed + self.raw.configure.deep_view().take(i + 1) =~= (fixed
                + self.raw.configure.deep_view().take(i as int)).push(self.raw.configure[i as int]@));
            i += 1;
        }
        assert(self.raw.configure.deep_view().take(i as int) =~= self.raw.configure.deep_view());
        assert(cmd@.argv =~= configure_args(self.raw, self.build_type));
        cmd
    }
}

} // verus!
