use vstd::prelude::*;

use crate::command::{Command, CommandView};

verus! {

/// How the project is compiled.
#[derive(Debug, PartialEq, Eq, Clone, Copy)]
pub enum BuildProfile {
    Debug,
    Release,
    RelWithDebInfo,
}

/// The parameters of a build: the source tree, the build directory, the
/// target triple (if not the host) and the profile.
#[derive(Debug, PartialEq, Eq)]
pub struct BuildParams {
    pub src: String,
    pub build: String,
    pub target: Option<String>,
    pub profile: BuildProfile,
}

/// The path `part` joined onto `base`, as `std::path::Path::join` gives it
/// on the platform the library is built for.
pub uninterp spec fn joined_path(base: Seq<char>, part: Seq<char>) -> Seq<char>;

/// Calls `std::path::Path::join` on `base` and `part` and takes the joined
/// path as text (`to_string_lossy`, which changes nothing in a path made of
/// two strings). The result is named, not described: the separator that
/// `join` inserts is the platform's.
#[verifier::external_body]
pub(crate) fn path_join(base: &str, part: &str) -> (r: String)
    ensures
        r@ == joined_path(base@, part@),
{
    std::path::Path::new(base).join(part).to_string_lossy().into_owned()
}

/// A build context: the parameters that the cargo commands are made from.
pub struct BuildCtx {
    params: BuildParams,
}

/// The command that `BuildCtx::cargo` makes: `cargo`, run in the source
/// tree, with incremental release builds switched off.
pub open spec fn cargo_view(p: BuildParams) -> CommandView {
    CommandView {
        argv: Seq::empty(),
        exe: "cargo"@,
        cwd: Some(p.src@),
        env: seq![("CARGO_PROFILE_RELEASE_INCREMENTAL"@, "false"@)],
    }
}

/// The arguments of `cargo build` for the given parameters.
pub open spec fn cargo_build_args(p: BuildParams) -> Seq<Seq<char>> {
    seq!["build"@] + (match p.target {
        Some(t) => seq!["--target"@, t@],
        None => Seq::empty(),
    }) + (if p.profile == BuildProfile::Release || p.profile == BuildProfile::RelWithDebInfo {
        seq!["--release"@]
    } else {
        Seq::empty()
    }) + seq!["-Zunstable-options"@, "--out-dir"@, joined_path(p.build@, "jjs-out"@), "--locked"@]
}

/// The command that `BuildCtx::cargo_build` makes.
pub open spec fn cargo_build_view(p: BuildParams) -> CommandView {
    CommandView {
        argv: cargo_build_args(p),
        env: cargo_view(p).env + (if p.profile == BuildProfile::RelWithDebInfo {
            seq![("CARGO_PROFILE_RELEASE_DEBUG"@, "true"@)]
        } else {
            Seq::empty()
        }),
        ..cargo_view(p)
    }
}

impl BuildCtx {
    /// A context for the given parameters.
    pub fn new(params: BuildParams) -> (r: BuildCtx)
        ensures
            r.params() == params,
    {
        BuildCtx { params }
    }

    /// The parameters of this context.
    pub closed spec fn params(&self) -> BuildParams {
        self.params
    }

    /// `cargo`, run in the source tree, with incremental release builds
    /// switched off.
    pub fn cargo(&self) -> (r: Command)
        ensures
            r@ == cargo_view(self.params()),
    {
        let mut cmd = Command::new("cargo");
        cmd.env("CARGO_PROFILE_RELEASE_INCREMENTAL", "false");
        cmd.current_dir(self.params.src.as_str());
        assert(cmd@.env =~= cargo_view(self.params()).env);
        assert(cmd@.argv =~= cargo_view(self.params()).argv);
        cmd
    }

    /// `cargo build` for the parameters: the target where one is given,
    /// `--release` for the release profiles, debug information for the
    /// release profile that keeps it, and the output copied to `jjs-out` in
    /// the build directory.
    pub fn cargo_build(&self) -> (r: Command)
        ensures
            r@ == cargo_build_view(self.params()),
    {
        let mut cmd = self.cargo();
        let ghost base = cmd@;
        cmd.arg("build");
        if let Some(target) = &self.params.target {
            cmd.arg("--target");
            cmd.arg(target.as_str());
        }
        let profile = self.params.profile;
        match profile {
            BuildProfile::Release | BuildProfile::RelWithDebInfo => {
                cmd.arg("--release");
            },
            BuildProfile::Debug => {},
        }
        match profile {
            BuildProfile::RelWithDebInfo => {
                cmd.env("CARGO_PROFILE_RELEASE_DEBUG", "true");
            },
            _ => {},
        }
        cmd.arg("-Zunstable-options");
        let out_dir = path_join(self.params.build.as_str(), "jjs-out");
        cmd.arg("--out-dir");
        cmd.arg(out_dir.as_str());
        cmd.arg("--locked");
        assert(cmd@.argv =~= cargo_build_args(self.params()));
        assert(cmd@.env =~= cargo_build_view(self.params()).env);
        cmd
    }
}

} // verus!
