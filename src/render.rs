use vstd::prelude::*;
use crate::config::{BuildEnv, Config};
use crate::features::{features_text, Features};
use crate::text::{decimal, decimal_string, views};

verus! {

/// A user added to debug images, with an already hashed and escaped password.
#[derive(Clone, Debug)]
pub struct ExtraUser {
    pub username: String,
    pub password_hash: String,
}

/// The user given by an optional reference.
pub open spec fn user_of(user: Option<&ExtraUser>) -> Option<ExtraUser> {
    match user {
        Some(u) => Some(*u),
        None => None,
    }
}

/// Relies on num_cpus::get: the number of logical CPUs available to this
/// process (the answer depends on the machine).
#[verifier::external_body]
fn detected_cpus() -> usize {
    num_cpus::get()
}

/// The views of a list of key and value pairs.
pub open spec fn pair_views(kv: Seq<(String, String)>) -> Seq<(Seq<char>, Seq<char>)> {
    kv.map_values(|p: (String, String)| (p.0@, p.1@))
}

/// Raw overrides: each value after a comment line naming its key.
pub open spec fn overrides_text(kv: Seq<(Seq<char>, Seq<char>)>) -> Seq<char>
    decreases kv.len(),
{
    if kv.len() == 0 {
        Seq::empty()
    } else {
        overrides_text(kv.drop_last()) + "# "@ + kv.last().0 + "\n"@ + kv.last().1 + "\n"@
    }
}

pub open spec fn optional_overrides_text(kv: Option<Vec<(String, String)>>) -> Seq<char> {
    match kv {
        Some(v) => overrides_text(pair_views(v@)),
        None => Seq::empty(),
    }
}

/// The pin lines for machine and distribution, and the build history block.
pub open spec fn local_conf_head(machine: Seq<char>, distro: Seq<char>) -> Seq<char> {
    "MACHINE ??= \""@ + machine + "\"\n"@
        + "DISTRO ??= \""@ + distro + "\"\n"@
        + "SDKMACHINE = \"x86_64\"\n"@
        + "\n"@
        + "INHERIT += \"buildhistory\"\n"@
        + "BUILDHISTORY_COMMIT = \"0\"\n"@
        + "BUILDHISTORY_FEATURES = \"image\"\n"@
        + "\n"@
}

pub open spec fn optional_features_text(f: Option<Features>) -> Seq<char> {
    match f {
        Some(f) => features_text(f),
        None => Seq::empty(),
    }
}

/// The debug block: an SSH server with pregenerated host keys and, given a
/// user, the directive that adds it.
pub open spec fn debug_text(debug: bool, user: Option<ExtraUser>) -> Seq<char> {
    if debug {
        "IMAGE_FEATURES:append = \" ssh-server-openssh\"\n"@
            + "IMAGE_INSTALL:append = \" ssh-pregen-hostkeys\"\n"@
            + match user {
                Some(u) => "INHERIT += \"extrausers\"\n"@
                    + "EXTRA_USERS_PARAMS = \"useradd -p '"@ + u.password_hash@ + "' -G sudo "@
                    + u.username@ + ";\"\n"@,
                None => Seq::empty(),
            }
    } else {
        Seq::empty()
    }
}

/// The ccache line, present unless ccache is switched off.
pub open spec fn ccache_text(ccache: Option<bool>) -> Seq<char> {
    if ccache != Some(false) { "INHERIT += \"ccache\"\n"@ } else { Seq::empty() }
}

pub open spec fn monitoring_text() -> Seq<char> {
    "# disk monitoring\nBB_DISKMON_DIRS = \"\\\n    STOPTASKS,${TMPDIR},1G,100K \\\n    STOPTASKS,${DL_DIR},1G,100K \\\n    STOPTASKS,${SSTATE_DIR},1G,100K \\\n    STOPTASKS,/tmp,100M,100K\"\n"@
}

/// The same parallelism for both tunables.
pub open spec fn threads_text(cpus: nat) -> Seq<char> {
    "BB_NUMBER_THREADS = \""@ + decimal(cpus) + "\"\n"@
        + "PARALLEL_MAKE = \"-j "@ + decimal(cpus) + "\"\n"@
}

/// The primary build configuration.
pub open spec fn local_conf(conf: Config, debug: bool, user: Option<ExtraUser>, cpus: nat) -> Seq<char> {
    local_conf_head(conf.machine@, conf.distro@)
        + optional_features_text(conf.thistle_features)
        + debug_text(debug, user)
        + ccache_text(conf.ccache)
        + "IMAGE_INSTALL:append = \" sudo\"\n"@
        + monitoring_text()
        + threads_text(cpus)
        + optional_overrides_text(conf.local_conf)
}

/// The items of `s` separated by `sep`.
pub open spec fn join_with(s: Seq<Seq<char>>, sep: Seq<char>) -> Seq<char>
    decreases s.len(),
{
    if s.len() == 0 {
        Seq::empty()
    } else if s.len() == 1 {
        s[0]
    } else {
        join_with(s.drop_last(), sep) + sep + s.last()
    }
}

/// The layer list configuration.
pub open spec fn bblayers_conf(overrides: Option<Vec<(String, String)>>, layers: Seq<Seq<char>>) -> Seq<char> {
    optional_overrides_text(overrides)
        + "BBLAYERS ?= \" \\\n    "@ + join_with(layers, " \\\n    "@) + "\"\n"@
        + "BBPATH ?= \"${TOPDIR}\"\n"@
        + "BBFILES ??= \"\"\n"@
}

/// The site configuration.
pub open spec fn site_conf(deploy_dir: Seq<char>) -> Seq<char> {
    "SCONF_VERSION = \"1\"\n"@ + "DEPLOY_DIR = \""@ + deploy_dir + "\"\n"@
}

fn overrides_string(kv: &Vec<(String, String)>) -> (r: String)
    ensures
        r@ == overrides_text(pair_views(kv@)),
{
    let mut out = String::new();
    let mut i: usize = 0;
    assert(pair_views(kv@).take(0) =~= Seq::<(Seq<char>, Seq<char>)>::empty());
    while i < kv.len()
        invariant
            i <= kv@.len(),
            out@ == overrides_text(pair_views(kv@).take(i as int)),
        decreases kv@.len() - i,
    {
        let (k, v) = &kv[i];
        out.append("# ");
        out.append(k.as_str());
        out.append("\n");
        out.append(v.as_str());
        out.append("\n");
        let ghost pv = pair_views(kv@);
        assert(pv.take(i + 1).drop_last() =~= pv.take(i as int));
        assert(pv.take(i + 1).last() == (k@, v@));
        i = i + 1;
    }
    assert(pair_views(kv@).take(i as int) =~= pair_views(kv@));
    out
}

fn optional_overrides_string(kv: &Option<Vec<(String, String)>>) -> (r: String)
    ensures
        r@ == optional_overrides_text(*kv),
{
    match kv {
        Some(v) => overrides_string(v),
        None => String::new(),
    }
}

fn layers_string(layers: &Vec<String>) -> (r: String)
    ensures
        r@ == join_with(views(layers@), " \\\n    "@),
{
    let mut out = String::new();
    let mut i: usize = 0;
    assert(views(layers@).take(0) =~= Seq::<Seq<char>>::empty());
    while i < layers.len()
        invariant
            i <= layers@.len(),
            out@ == join_with(views(layers@).take(i as int), " \\\n    "@),
        decreases layers@.len() - i,
    {
        let ghost vs = views(layers@);
        if i > 0 {
            out.append(" \\\n    ");
        }
        out.append(layers[i].as_str());
        assert(vs.take(i + 1).drop_last() =~= vs.take(i as int));
        assert(vs.take(i + 1).last() == layers@[i as int]@);
        if i == 0 {
            assert(out@ =~= vs.take(1)[0]);
        }
        i = i + 1;
    }
    assert(views(layers@).take(i as int) =~= views(layers@));
    out
}

/// Renders the primary build configuration for `cpus` parallel jobs.
pub fn render_local_conf(conf: &Config, debug: bool, user: Option<&ExtraUser>, cpus: usize) -> (r: String)
    ensures
        r@ == local_conf(*conf, debug, user_of(user), cpus as nat),
{
    let mut w = String::new();
    w.append("MACHINE ??= \"");
    w.append(conf.machine.as_str());
    w.append("\"\n");
    w.append("DISTRO ??= \"");
    w.append(conf.distro.as_str());
    w.append("\"\n");
    w.append("SDKMACHINE = \"x86_64\"\n");
    w.append("\n");
    w.append("INHERIT += \"buildhistory\"\n");
    w.append("BUILDHISTORY_COMMIT = \"0\"\n");
    w.append("BUILDHISTORY_FEATURES = \"image\"\n");
    w.append("\n");
    let ghost head = w@;
    assert(head =~= local_conf_head(conf.machine@, conf.distro@));
    match &conf.thistle_features {
        Some(f) => {
            let t = f.local_conf_text();
            w.append(t.as_str());
        },
        None => {},
    }
    let ghost with_features = w@;
    assert(with_features =~= head + optional_features_text(conf.thistle_features));
    if debug {
        w.append("IMAGE_FEATURES:append = \" ssh-server-openssh\"\n");
        w.append("IMAGE_INSTALL:append = \" ssh-pregen-hostkeys\"\n");
        match user {
            Some(u) => {
                w.append("INHERIT += \"extrausers\"\n");
                w.append("EXTRA_USERS_PARAMS = \"useradd -p '");
                w.append(u.password_hash.as_str());
                w.append("' -G sudo ");
                w.append(u.username.as_str());
                w.append(";\"\n");
            },
            None => {},
        }
    }
    let ghost with_debug = w@;
    assert(with_debug =~= with_features + debug_text(debug, user_of(user)));
    let ccache = match conf.ccache {
        Some(b) => b,
        None => true,
    };
    if ccache {
        w.append("INHERIT += \"ccache\"\n");
    }
    w.append("IMAGE_INSTALL:append = \" sudo\"\n");
    w.append("# disk monitoring\nBB_DISKMON_DIRS = \"\\\n    STOPTASKS,${TMPDIR},1G,100K \\\n    STOPTASKS,${DL_DIR},1G,100K \\\n    STOPTASKS,${SSTATE_DIR},1G,100K \\\n    STOPTASKS,/tmp,100M,100K\"\n");
    let ghost before_threads = w@;
    let n = decimal_string(cpus);
    w.append("BB_NUMBER_THREADS = \"");
    w.append(n.as_str());
    w.append("\"\n");
    w.append("PARALLEL_MAKE = \"-j ");
    w.append(n.as_str());
    w.append("\"\n");
    assert(w@ =~= before_threads + threads_text(cpus as nat));
    let o = optional_overrides_string(&conf.local_conf);
    w.append(o.as_str());
    assert(w@ =~= local_conf(*conf, debug, user_of(user), cpus as nat));
    w
}

/// Renders the primary build configuration for the CPUs of this machine.
pub fn local_conf_text(conf: &Config, debug: bool, user: Option<&ExtraUser>) -> (r: String)
    ensures
        exists|cpus: nat| r@ == #[trigger] local_conf(*conf, debug, user_of(user), cpus),
{
    let cpus = detected_cpus();
    let r = render_local_conf(conf, debug, user, cpus);
    assert(r@ == local_conf(*conf, debug, user_of(user), cpus as nat));
    r
}

/// Renders the layer list configuration for the given layer directories.
pub fn render_bblayers_conf(conf: &Config, layers: &Vec<String>) -> (r: String)
    ensures
        r@ == bblayers_conf(conf.bblayers_conf, views(layers@)),
{
    let mut w = optional_overrides_string(&conf.bblayers_conf);
    w.append("BBLAYERS ?= \" \\\n    ");
    let l = layers_string(layers);
    w.append(l.as_str());
    w.append("\"\n");
    w.append("BBPATH ?= \"${TOPDIR}\"\n");
    w.append("BBFILES ??= \"\"\n");
    assert(w@ =~= bblayers_conf(conf.bblayers_conf, views(layers@)));
    w
}

/// Renders the site configuration.
pub fn render_site_conf(env: &BuildEnv) -> (r: String)
    ensures
        r@ == site_conf(env.deploy_dir@),
{
    let mut w = "SCONF_VERSION = \"1\"\n".to_string();
    w.append("DEPLOY_DIR = \"");
    w.append(env.deploy_dir.as_str());
    w.append("\"\n");
    assert(w@ =~= site_conf(env.deploy_dir@));
    w
}

/// What rendering reads of an optional feature set.
pub open spec fn features_key(f: Option<Features>) -> Option<(bool, bool, Option<crate::libc::Libc>, Option<crate::curl::Curl>)> {
    match f {
        Some(f) => Some((f.updater, f.read_only_rootfs, f.libc, f.curl)),
        None => None,
    }
}

pub open spec fn overrides_key(kv: Option<Vec<(String, String)>>) -> Option<Seq<(Seq<char>, Seq<char>)>> {
    match kv {
        Some(v) => Some(pair_views(v@)),
        None => None,
    }
}

/// Two configurations that hold the same values for everything the
/// configuration files are made of.
pub open spec fn same_render_input(a: Config, b: Config) -> bool {
    &&& a.machine@ == b.machine@
    &&& a.distro@ == b.distro@
    &&& a.ccache == b.ccache
    &&& features_key(a.thistle_features) == features_key(b.thistle_features)
    &&& overrides_key(a.local_conf) == overrides_key(b.local_conf)
    &&& overrides_key(a.bblayers_conf) == overrides_key(b.bblayers_conf)
}

/// Rendering is reproducible: the same configuration and layer list give
/// the same text every time, whatever the identity of the values.
pub proof fn rendering_is_reproducible(
    a: Config,
    b: Config,
    debug: bool,
    user: Option<ExtraUser>,
    cpus: nat,
    layers: Seq<Seq<char>>,
)
    requires
        same_render_input(a, b),
    ensures
        local_conf(a, debug, user, cpus) == local_conf(b, debug, user, cpus),
        bblayers_conf(a.bblayers_conf, layers) == bblayers_conf(b.bblayers_conf, layers),
{
    match (a.thistle_features, b.thistle_features) {
        (Some(fa), Some(fb)) => {
            assert(features_text(fa) == features_text(fb));
        },
        _ => {},
    }
    match (a.local_conf, b.local_conf) {
        (Some(x), Some(y)) => {
            assert(pair_views(x@) == pair_views(y@));
        },
        _ => {},
    }
    match (a.bblayers_conf, b.bblayers_conf) {
        (Some(x), Some(y)) => {
            assert(pair_views(x@) == pair_views(y@));
        },
        _ => {},
    }
}

} // verus!
