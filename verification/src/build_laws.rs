use vstd::prelude::*;

use crate::build_ctx::{cargo_build_args, cargo_build_view, joined_path, BuildParams, BuildProfile};
use crate::devtool_build::{configure_args, deb_args, doc_args, feature_args, wants_docker, BuildType, DeployKind, RawBuildOpts};

verus! {

/// The `--docker` option alone turns docker on, whatever the build type:
/// docker is wanted and the configure command line holds `--enable-docker`.
pub proof fn law_docker_option_enables_docker(o: RawBuildOpts, bt: BuildType)
    requires
        o.docker,
    ensures
        wants_docker(o, bt),
        configure_args(o, bt).contains("--enable-docker"@),
{
    let args = configure_args(o, bt);
    let head = seq!["--out=/opt/jjs"@, "--enable-json-schema"@] + crate::devtool_build::deb_args(o, bt);
    let opt: Seq<Seq<char>> = if bt.is_deploy { seq!["--optimize"@] } else { Seq::empty() };
    let idx: int = head.len() + opt.len() as int;
    assert(args[idx] == "--enable-docker"@);
}

/// Where a target is given, the cargo build arguments start with `build`,
/// `--target` and the target, whatever the profile; without one they start
/// with `build` and hold no `--target`. The profile decides only whether
/// `--release` comes next (for the two release profiles) and whether the
/// debug-information variable is set (for the one that keeps it). The
/// arguments end with `-Zunstable-options`, `--out-dir`, the joined output
/// directory and `--locked`.
pub proof fn law_cargo_build_arguments(p: BuildParams)
    ensures
        ({
            let args = cargo_build_args(p);
            let t_len: int = if p.target is Some { 2 } else { 0 };
            let release = p.profile == BuildProfile::Release || p.profile == BuildProfile::RelWithDebInfo;
            &&& args[0] == "build"@
            &&& (p.target matches Some(t) ==> args[1] == "--target"@ && args[2] == t@)
            &&& args.len() == 1 + t_len + (if release { 1int } else { 0 }) + 4
            &&& (release ==> args[1 + t_len] == "--release"@)
            &&& args[args.len() - 4] == "-Zunstable-options"@
            &&& args[args.len() - 3] == "--out-dir"@
            &&& args[args.len() - 2] == joined_path(p.build@, "jjs-out"@)
            &&& args[args.len() - 1] == "--locked"@
        }),
        cargo_build_view(p).exe == "cargo"@,
        cargo_build_view(p).cwd == Some(p.src@),
        cargo_build_view(p).env[0] == ("CARGO_PROFILE_RELEASE_INCREMENTAL"@, "false"@),
        cargo_build_view(p).env.len() == (if p.profile == BuildProfile::RelWithDebInfo { 2int } else { 1 }),
        p.profile == BuildProfile::RelWithDebInfo ==> cargo_build_view(p).env[1] == (
            "CARGO_PROFILE_RELEASE_DEBUG"@,
            "true"@,
        ),
{
}


/// What holds in a sequence holds in any sequence that extends it on either
/// side.
proof fn lemma_contains_concat(a: Seq<Seq<char>>, b: Seq<Seq<char>>, x: Seq<char>)
    ensures
        a.contains(x) ==> (a + b).contains(x),
        b.contains(x) ==> (a + b).contains(x),
{
    if a.contains(x) {
        let i: int = choose|i: int| 0 <= i < a.len() && a[i] == x;
        assert((a + b)[i] == x);
    }
    if b.contains(x) {
        let i: int = choose|i: int| 0 <= i < b.len() && b[i] == x;
        assert((a + b)[a.len() + i] == x);
    }
}

/// What each option and build type puts on the configure command line: it
/// always starts with the install prefix and JSON schemas and ends with the
/// extra options, in order; `--full` brings Debian packages, the archive,
/// the extras and the documentation; `--deb` brings Debian packages;
/// `--docs` the documentation, which is otherwise left out as
/// `--disable-man` unless the manual is deployed; `--setup` the trial
/// contest; a deploy optimizes.
pub proof fn law_configure_options(o: RawBuildOpts, bt: BuildType)
    ensures
        ({
            let args = configure_args(o, bt);
            let extra = o.configure.deep_view();
            &&& args[0] == "--out=/opt/jjs"@
            &&& args[1] == "--enable-json-schema"@
            &&& args.len() >= 2 + extra.len()
            &&& args.subrange(args.len() - extra.len(), args.len() as int) == extra
            &&& (o.full ==> args.contains("--enable-deb"@) && args.contains("--enable-archive"@)
                && args.contains("--enable-extras"@) && args.contains("--enable-api-doc"@)
                && args.contains("--enable-rust-doc"@))
            &&& (o.deb ==> args.contains("--enable-deb"@))
            &&& (o.docs ==> args.contains("--enable-api-doc"@))
            &&& (!o.full && !o.docs && bt.deploy_kind != Some(DeployKind::Man) ==> args.contains("--disable-man"@))
            &&& (o.setup ==> args.contains("--enable-compile-trial-contest"@))
            &&& (bt.is_deploy ==> args.contains("--optimize"@))
        }),
{
    let head: Seq<Seq<char>> = seq!["--out=/opt/jjs"@, "--enable-json-schema"@];
    let deb = deb_args(o, bt);
    let feat = feature_args(o, bt);
    let doc = doc_args(o, bt);
    let extra = o.configure.deep_view();
    let args = configure_args(o, bt);
    assert(args == head + deb + feat + doc + extra);
    assert(args.subrange(args.len() - extra.len(), args.len() as int) =~= extra);
    let opt: Seq<Seq<char>> = if bt.is_deploy { seq!["--optimize"@] } else { Seq::empty() };
    let dock: Seq<Seq<char>> = if wants_docker(o, bt) { seq!["--enable-docker"@] } else { Seq::empty() };
    let full: Seq<Seq<char>> = if o.full || (bt.is_deploy && bt.deploy_kind != Some(DeployKind::Man)) {
        seq!["--enable-archive"@, "--enable-extras"@]
    } else {
        Seq::empty()
    };
    assert(feat == opt + dock + full);
    let docs: Seq<Seq<char>> = if bt.deploy_kind == Some(DeployKind::Man) || o.full || o.docs {
        seq!["--disable-core"@, "--disable-tools"@, "--enable-api-doc"@, "--enable-rust-doc"@]
    } else {
        seq!["--disable-man"@]
    };
    let trial: Seq<Seq<char>> = if o.setup || bt.is_pr_e2e { seq!["--enable-compile-trial-contest"@] } else { Seq::empty() };
    assert(doc == docs + trial);
    let words: Seq<Seq<char>> = seq![
        "--enable-deb"@,
        "--enable-archive"@,
        "--enable-extras"@,
        "--enable-api-doc"@,
        "--enable-rust-doc"@,
        "--disable-man"@,
        "--enable-compile-trial-contest"@,
        "--optimize"@
    ];
    assert forall|k: int| 0 <= k < words.len() implies {
        let x = #[trigger] words[k];
        &&& (deb.contains(x) || feat.contains(x) || doc.contains(x)) ==> args.contains(x)
    } by {
        let x = words[k];
        lemma_contains_concat(head, deb, x);
        lemma_contains_concat(head + deb, feat, x);
        lemma_contains_concat(head + deb + feat, doc, x);
        lemma_contains_concat(head + deb + feat + doc, extra, x);
    }
    if o.full || o.deb {
        assert(deb[0] == "--enable-deb"@);
        assert(words[0] == "--enable-deb"@);
    }
    if o.full {
        assert(full[0] == "--enable-archive"@ && full[1] == "--enable-extras"@);
        lemma_contains_concat(opt + dock, full, "--enable-archive"@);
        lemma_contains_concat(opt + dock, full, "--enable-extras"@);
        assert(full.contains("--enable-archive"@) && full.contains("--enable-extras"@)) by {
            assert(full[0] == "--enable-archive"@);
            assert(full[1] == "--enable-extras"@);
        }
        assert(words[1] == "--enable-archive"@ && words[2] == "--enable-extras"@);
    }
    if o.full || o.docs {
        assert(docs[2] == "--enable-api-doc"@ && docs[3] == "--enable-rust-doc"@);
        lemma_contains_concat(docs, trial, "--enable-api-doc"@);
        lemma_contains_concat(docs, trial, "--enable-rust-doc"@);
        assert(words[3] == "--enable-api-doc"@ && words[4] == "--enable-rust-doc"@);
    }
    if !o.full && !o.docs && bt.deploy_kind != Some(DeployKind::Man) {
        assert(docs[0] == "--disable-man"@);
        lemma_contains_concat(docs, trial, "--disable-man"@);
        assert(words[5] == "--disable-man"@);
    }
    if o.setup {
        assert(trial[0] == "--enable-compile-trial-contest"@);
        lemma_contains_concat(docs, trial, "--enable-compile-trial-contest"@);
        assert(words[6] == "--enable-compile-trial-contest"@);
    }
    if bt.is_deploy {
        assert(opt[0] == "--optimize"@);
        lemma_contains_concat(opt, dock, "--optimize"@);
        lemma_contains_concat(opt + dock, full, "--optimize"@);
        assert(words[7] == "--optimize"@);
    }
}

} // verus!
