use vstd::prelude::*;
use crate::features::Features;
use crate::repo::Repo;
use crate::text::{join, join_path};

verus! {

/// The directories of a build: all absolute and created before use.
#[derive(Clone, Debug)]
pub struct BuildEnv {
    pub work_dir: String,
    pub layer_dir: String,
    pub deploy_dir: String,
    pub conf_dir: String,
}

impl BuildEnv {
    /// The layout of a build under the work directory `work_dir`: layers,
    /// deployed images and configuration each in a directory of their own.
    pub fn under(work_dir: &str) -> (r: BuildEnv)
        ensures
            r.work_dir@ == work_dir@,
            r.layer_dir@ == join(work_dir@, "layers"@),
            r.deploy_dir@ == join(work_dir@, "deploy"@),
            r.conf_dir@ == join(work_dir@, "conf"@),
    {
        BuildEnv {
            work_dir: work_dir.to_string(),
            layer_dir: join_path(work_dir, "layers"),
            deploy_dir: join_path(work_dir, "deploy"),
            conf_dir: join_path(work_dir, "conf"),
        }
    }
}

/// The shell command that runs bitbake on `target` after sourcing the
/// build environment script `init_script`.
pub open spec fn bitbake_command(init_script: Seq<char>, extra_args: Seq<char>, dryrun: bool, target: Seq<char>) -> Seq<char> {
    "source \""@ + init_script + "\" > /dev/null && bitbake "@ + extra_args + " "@
        + (if dryrun { "--dry-run"@ } else { Seq::empty() }) + " -k "@ + target
}

/// Builds the shell command that runs the build of `target`.
pub fn build_command(init_script: &str, extra_args: &str, dryrun: bool, target: &str) -> (r: String)
    ensures
        r@ == bitbake_command(init_script@, extra_args@, dryrun, target@),
{
    let mut w = "source \"".to_string();
    w.append(init_script);
    w.append("\" > /dev/null && bitbake ");
    w.append(extra_args);
    w.append(" ");
    if dryrun {
        w.append("--dry-run");
    }
    w.append(" -k ");
    w.append(target);
    assert(w@ =~= bitbake_command(init_script@, extra_args@, dryrun, target@));
    w
}

/// A parsed build configuration.
#[derive(Clone, Debug)]
pub struct Config {
    pub target: String,
    pub machine: String,
    pub distro: String,
    pub thistle_features: Option<Features>,
    pub ccache: Option<bool>,
    pub repos: Vec<Repo>,
    /// Raw lines appended to the primary build configuration, each after a
    /// comment that names it.
    pub local_conf: Option<Vec<(String, String)>>,
    /// Raw lines put first in the layer list configuration.
    pub bblayers_conf: Option<Vec<(String, String)>>,
}

} // verus!
