use vstd::prelude::*;
use crate::config::BuildEnv;
use crate::text::{join, join_path, views};

verus! {

/// A declared source of layers: a local directory or a remote git repository.
#[derive(Clone, Debug)]
pub struct Repo {
    /// The key under which the source was declared.
    pub name: String,
    /// Layer directories relative to the checkout root; none means that the
    /// root itself is the one layer.
    pub layers: Vec<String>,
    /// A local path or a remote URL.
    pub location: String,
    /// The reference to check out; needed for remote sources only.
    pub refspec: Option<String>,
}

/// Relies on std's `Path::exists`: whether something is found at `p` (the
/// answer depends on the file system).
#[verifier::external_body]
fn path_exists(p: &str) -> bool {
    std::path::Path::new(p).exists()
}

/// Relies on std's `Path::canonicalize`: the canonical, absolute form of `p`
/// with links resolved, or `None` where that fails (the answer depends on the
/// file system). On Unix an absolute path starts at the root, `/`.
#[verifier::external_body]
fn canonical_path(p: &str) -> (r: Option<String>)
    ensures
        r matches Some(c) ==> is_absolute(c@),
{
    std::path::Path::new(p).canonicalize().ok().map(|c| c.to_string_lossy().into_owned())
}

/// Relies on std's `Path::is_dir`: whether `p` is a directory (the answer
/// depends on the file system).
#[verifier::external_body]
fn path_is_dir(p: &str) -> bool {
    std::path::Path::new(p).is_dir()
}

/// The path at which a source is found before symbolic links are resolved:
/// its location if it is local, else its name under the layer directory.
pub open spec fn unresolved_path(r: Repo, layer_dir: Seq<char>, local: bool) -> Seq<char> {
    if local { r.location@ } else { join(layer_dir, r.name@) }
}

/// The layer directories that one source contributes, given its checkout root.
pub open spec fn layer_paths(r: Repo, root: Seq<char>) -> Seq<Seq<char>> {
    if r.layers@.len() == 0 {
        seq![root]
    } else {
        r.layers@.map_values(|l: String| join(root, l@))
    }
}

/// The layer directories of a list of sources, in declaration order;
/// `roots[i]` is the checkout root of `repos[i]`.
pub open spec fn flatten(repos: Seq<Repo>, roots: Seq<Seq<char>>) -> Seq<Seq<char>>
    decreases repos.len(),
{
    if repos.len() == 0 {
        Seq::empty()
    } else {
        flatten(repos.drop_last(), roots) + layer_paths(repos.last(), roots[repos.len() - 1])
    }
}

/// A path with links resolved where that succeeded, else as it was given.
pub open spec fn resolved(unresolved: Seq<char>, canonical: Option<Seq<char>>) -> Seq<char> {
    match canonical {
        Some(c) => c,
        None => unresolved,
    }
}

/// A path that starts at the root of the file system.
pub open spec fn is_absolute(p: Seq<char>) -> bool {
    p.len() > 0 && p[0] == '/'
}

/// `p` may be the checkout root of `r`: its location as given, its cache
/// directory under the layer directory, or the absolute path that
/// resolving links gave.
pub open spec fn root_of(r: Repo, layer_dir: Seq<char>, p: Seq<char>) -> bool {
    p == r.location@ || p == join(layer_dir, r.name@) || is_absolute(p)
}

/// Takes the resolved form of a path where resolving succeeded, and the
/// path as it was given otherwise.
pub fn resolved_path(unresolved: String, canonical: Option<String>) -> (r: String)
    ensures
        r@ == match canonical {
            Some(c) => c@,
            None => unresolved@,
        },
{
    match canonical {
        Some(c) => c,
        None => unresolved,
    }
}

impl Repo {
    /// Whether the location names something on the file system; checked anew
    /// on every call.
    pub fn is_local_repo(&self) -> bool {
        path_exists(self.location.as_str())
    }

    /// The path of a source, before links are resolved, given whether it is local.
    pub fn unresolved_path(&self, env: &BuildEnv, local: bool) -> (r: String)
        ensures
            r@ == unresolved_path(*self, env.layer_dir@, local),
    {
        if local {
            self.location.clone()
        } else {
            join_path(env.layer_dir.as_str(), self.name.as_str())
        }
    }

    /// The checkout root of the source: the local directory, or the cache
    /// directory under the layer directory, with links resolved where possible.
    pub fn path(&self, env: &BuildEnv) -> (r: String)
        ensures
            root_of(*self, env.layer_dir@, r@),
    {
        let local = self.is_local_repo();
        let p = self.unresolved_path(env, local);
        let canonical = canonical_path(p.as_str());
        let ghost c = match &canonical {
            Some(c) => Some(c@),
            None => None,
        };
        let r = resolved_path(p, canonical);
        assert(resolved(unresolved_path(*self, env.layer_dir@, local), c) == r@);
        r
    }

    /// The layer directories of this source under the checkout root `root`.
    pub fn layer_paths(&self, root: &str) -> (r: Vec<String>)
        ensures
            views(r@) == layer_paths(*self, root@),
    {
        let mut out: Vec<String> = Vec::new();
        if self.layers.len() == 0 {
            out.push(root.to_string());
            assert(views(out@) =~= layer_paths(*self, root@));
            return out;
        }
        let mut i: usize = 0;
        while i < self.layers.len()
            invariant
                i <= self.layers@.len(),
                views(out@) =~= self.layers@.take(i as int).map_values(|l: String| join(root@, l@)),
            decreases self.layers@.len() - i,
        {
            let p = join_path(root, self.layers[i].as_str());
            let ghost before = out@;
            out.push(p);
            assert(out@ =~= before.push(p));
            assert(views(out@) =~= views(before).push(p@));
            assert(self.layers@.take(i + 1) =~= self.layers@.take(i as int).push(self.layers@[i as int]));
            assert(self.layers@.take(i + 1).map_values(|l: String| join(root@, l@))
                =~= self.layers@.take(i as int).map_values(|l: String| join(root@, l@)).push(
                join(root@, self.layers@[i as int]@)));
            i = i + 1;
        }
        assert(self.layers@.take(i as int) =~= self.layers@);
        out
    }
}

/// The layer directories of all sources, in declaration order, given the
/// checkout root of each.
pub fn flatten_layers(repos: &Vec<Repo>, roots: &Vec<String>) -> (r: Vec<String>)
    requires
        roots@.len() == repos@.len(),
    ensures
        views(r@) == flatten(repos@, views(roots@)),
{
    let mut out: Vec<String> = Vec::new();
    let mut i: usize = 0;
    while i < repos.len()
        invariant
            roots@.len() == repos@.len(),
            i <= repos@.len(),
            views(out@) == flatten(repos@.take(i as int), views(roots@)),
        decreases repos@.len() - i,
    {
        let mut more = repos[i].layer_paths(roots[i].as_str());
        let ghost before = out@;
        out.append(&mut more);
        assert(repos@.take(i + 1).drop_last() =~= repos@.take(i as int));
        assert(views(out@) =~= views(before) + layer_paths(repos@[i as int], roots@[i as int]@));
        i = i + 1;
    }
    assert(repos@.take(i as int) =~= repos@);
    out
}

/// Resolves the checkout roots of sources that have been synchronised, and
/// the layer directories they contribute, in declaration order.
pub fn fetch_repos(repos: &Vec<Repo>, env: &BuildEnv) -> (r: (Vec<String>, Vec<String>))
    ensures
        r.0@.len() == repos@.len(),
        forall|i: int| 0 <= i < repos@.len() ==> root_of(repos@[i], env.layer_dir@, #[trigger] r.0@[i]@),
        views(r.1@) == flatten(repos@, views(r.0@)),
{
    let mut roots: Vec<String> = Vec::new();
    let mut i: usize = 0;
    while i < repos.len()
        invariant
            i <= repos@.len(),
            roots@.len() == i,
            forall|j: int| 0 <= j < i ==> root_of(repos@[j], env.layer_dir@, #[trigger] roots@[j]@),
        decreases repos@.len() - i,
    {
        roots.push(repos[i].path(env));
        i = i + 1;
    }
    let layers = flatten_layers(repos, &roots);
    (roots, layers)
}

/// The first root that holds a bitbake directory, given for each root
/// whether `root/bitbake` is a directory; `None` when none does.
pub fn first_with_bitbake(roots: &Vec<String>, is_dir: &Vec<bool>) -> (r: Option<String>)
    requires
        is_dir@.len() == roots@.len(),
    ensures
        r is None <==> forall|i: int| 0 <= i < roots@.len() ==> !is_dir@[i],
        r is Some ==> exists|i: int|
            0 <= i < roots@.len() && is_dir@[i] && (forall|j: int| 0 <= j < i ==> !is_dir@[j])
                && r->Some_0@ == join(#[trigger] roots@[i]@, "bitbake"@),
{
    let mut i: usize = 0;
    while i < roots.len()
        invariant
            is_dir@.len() == roots@.len(),
            i <= roots@.len(),
            forall|j: int| 0 <= j < i ==> !is_dir@[j],
        decreases roots@.len() - i,
    {
        if is_dir[i] {
            let p = join_path(roots[i].as_str(), "bitbake");
            assert(0 <= i < roots@.len() && is_dir@[i as int] && (forall|j: int| 0 <= j < i ==> !is_dir@[j])
                && p@ == join(roots@[i as int]@, "bitbake"@));
            return Some(p);
        }
        i = i + 1;
    }
    None
}

/// Looks for a copy of bitbake at the top of the given checkout roots: the
/// first root, in order, that holds a `bitbake` directory.
pub fn find_bitbake_in_top_layers(roots: &Vec<String>) -> (r: Option<String>)
    ensures
        r is Some ==> exists|i: int| 0 <= i < roots@.len() && r->Some_0@ == join(#[trigger] roots@[i]@, "bitbake"@),
{
    let mut is_dir: Vec<bool> = Vec::new();
    let mut i: usize = 0;
    while i < roots.len()
        invariant
            i <= roots@.len(),
            is_dir@.len() == i,
        decreases roots@.len() - i,
    {
        let p = join_path(roots[i].as_str(), "bitbake");
        is_dir.push(path_is_dir(p.as_str()));
        i = i + 1;
    }
    first_with_bitbake(roots, &is_dir)
}

/// Names each declared source after the key it was declared under, keeping
/// the order of the declarations.
pub fn parse_repos(entries: Vec<(String, Repo)>) -> (r: Vec<Repo>)
    ensures
        r@.len() == entries@.len(),
        forall|i: int| 0 <= i < r@.len() ==> {
            &&& #[trigger] r@[i].name == entries@[i].0
            &&& r@[i].layers == entries@[i].1.layers
            &&& r@[i].location == entries@[i].1.location
            &&& r@[i].refspec == entries@[i].1.refspec
        },
{
    let ghost orig = entries@;
    let mut rest = entries;
    let mut out: Vec<Repo> = Vec::new();
    let n = rest.len();
    let mut i: usize = 0;
    while i < n
        invariant
            n == orig.len(),
            i <= n,
            rest@ == orig.skip(i as int),
            out@.len() == i,
            forall|j: int| 0 <= j < i ==> {
                &&& #[trigger] out@[j].name == orig[j].0
                &&& out@[j].layers == orig[j].1.layers
                &&& out@[j].location == orig[j].1.location
                &&& out@[j].refspec == orig[j].1.refspec
            },
        decreases n - i,
    {
        let (name, repo) = rest.remove(0);
        assert(rest@ =~= orig.skip(i + 1));
        out.push(Repo { name, ..repo });
        i = i + 1;
    }
    out
}

/// The source of the auxiliary feature layer, pinned to `hash`.
pub fn set_thistle(hash: &str) -> (r: Repo)
    ensures
        r.name@ == "meta-thistle"@,
        views(r.layers@) == seq![
            "meta-thistle-base"@,
            "meta-thistle-base-bsp"@,
            "meta-thistle-update-client"@,
            "meta-trust-m"@,
        ],
        r.location@ == "https://github.com/thistletech/meta-thistle.git"@,
        r.refspec is Some && r.refspec->Some_0@ == hash@,
{
    let mut layers: Vec<String> = Vec::new();
    layers.push("meta-thistle-base".to_string());
    layers.push("meta-thistle-base-bsp".to_string());
    layers.push("meta-thistle-update-client".to_string());
    layers.push("meta-trust-m".to_string());
    let r = Repo {
        name: "meta-thistle".to_string(),
        layers,
        location: "https://github.com/thistletech/meta-thistle.git".to_string(),
        refspec: Some(hash.to_string()),
    };
    assert(views(r.layers@) =~= seq![
        "meta-thistle-base"@,
        "meta-thistle-base-bsp"@,
        "meta-thistle-update-client"@,
        "meta-trust-m"@,
    ]);
    r
}

/// The upstream bitbake source, fetched when no declared source bundles it.
pub fn bitbake_repo() -> (r: Repo)
    ensures
        r.name@ == "bitbake"@,
        r.layers@.len() == 0,
        r.location@ == "git://git.openembedded.org/bitbake"@,
        r.refspec is Some && r.refspec->Some_0@ == "2022-04.6-kirkstone"@,
{
    Repo {
        name: "bitbake".to_string(),
        layers: Vec::new(),
        location: "git://git.openembedded.org/bitbake".to_string(),
        refspec: Some("2022-04.6-kirkstone".to_string()),
    }
}

/// A source with no declared layers contributes its root alone; one with
/// layers `[a, b]` contributes `root/a` and `root/b`, in that order.
pub proof fn layer_flattening(r: Repo, root: Seq<char>)
    ensures
        r.layers@.len() == 0 ==> layer_paths(r, root) == seq![root],
        r.layers@.len() == 2 ==> layer_paths(r, root) == seq![
            join(root, r.layers@[0]@),
            join(root, r.layers@[1]@),
        ],
{
    if r.layers@.len() == 2 {
        assert(layer_paths(r, root) =~= seq![join(root, r.layers@[0]@), join(root, r.layers@[1]@)]);
    }
}

/// The number of layer directories that one source contributes.
pub open spec fn layer_count(r: Repo) -> nat {
    if r.layers@.len() == 0 { 1 } else { r.layers@.len() }
}

/// The number of layer directories that a list of sources contributes.
pub open spec fn layers_of_all(repos: Seq<Repo>) -> nat
    decreases repos.len(),
{
    if repos.len() == 0 {
        0
    } else {
        layers_of_all(repos.drop_last()) + layer_count(repos.last())
    }
}

proof fn lemma_layer_paths_len(r: Repo, root: Seq<char>)
    ensures
        layer_paths(r, root).len() == layer_count(r),
{
}

proof fn lemma_flatten_len(repos: Seq<Repo>, roots: Seq<Seq<char>>)
    ensures
        flatten(repos, roots).len() == layers_of_all(repos),
    decreases repos.len(),
{
    if repos.len() > 0 {
        lemma_flatten_len(repos.drop_last(), roots);
        lemma_layer_paths_len(repos.last(), roots[repos.len() - 1]);
    }
}

/// In the flattened layer list, source `i` contributes its own layer
/// directories as one consecutive slice, right after those of the sources
/// declared before it.
pub proof fn flatten_slice(repos: Seq<Repo>, roots: Seq<Seq<char>>, i: int)
    requires
        0 <= i < repos.len(),
    ensures
        layers_of_all(repos.take(i)) + layer_count(repos[i]) <= flatten(repos, roots).len(),
        flatten(repos, roots).subrange(
            layers_of_all(repos.take(i)) as int,
            (layers_of_all(repos.take(i)) + layer_count(repos[i])) as int,
        ) == layer_paths(repos[i], roots[i]),
    decreases repos.len(),
{
    let n = repos.len();
    let front = repos.drop_last();
    lemma_flatten_len(front, roots);
    lemma_flatten_len(repos, roots);
    lemma_layer_paths_len(repos.last(), roots[n - 1]);
    lemma_layer_paths_len(repos[i], roots[i]);
    if i == n - 1 {
        assert(repos.take(i) =~= front);
        assert(flatten(repos, roots).subrange(
            layers_of_all(repos.take(i)) as int,
            (layers_of_all(repos.take(i)) + layer_count(repos[i])) as int,
        ) =~= layer_paths(repos[i], roots[i]));
    } else {
        flatten_slice(front, roots, i);
        assert(front.take(i) =~= repos.take(i));
        assert(front[i] == repos[i]);
        assert(flatten(repos, roots).subrange(
            layers_of_all(repos.take(i)) as int,
            (layers_of_all(repos.take(i)) + layer_count(repos[i])) as int,
        ) =~= flatten(front, roots).subrange(
            layers_of_all(repos.take(i)) as int,
            (layers_of_all(repos.take(i)) + layer_count(repos[i])) as int,
        ));
    }
}

/// Source `i` of the flattened layer list starts at the number of layers
/// of the sources before it. With no declared layers it contributes exactly
/// its root there; with layers `[a, b]` exactly `root/a` then `root/b`.
pub proof fn flattened_layer_positions(repos: Seq<Repo>, roots: Seq<Seq<char>>, i: int)
    requires
        0 <= i < repos.len(),
    ensures
        repos[i].layers@.len() == 0 ==> {
            let at = layers_of_all(repos.take(i)) as int;
            &&& at < flatten(repos, roots).len()
            &&& flatten(repos, roots)[at] == roots[i]
            &&& layers_of_all(repos.take(i + 1)) == at + 1
        },
        repos[i].layers@.len() == 2 ==> {
            let at = layers_of_all(repos.take(i)) as int;
            &&& at + 1 < flatten(repos, roots).len()
            &&& flatten(repos, roots)[at] == join(roots[i], repos[i].layers@[0]@)
            &&& flatten(repos, roots)[at + 1] == join(roots[i], repos[i].layers@[1]@)
            &&& layers_of_all(repos.take(i + 1)) == at + 2
        },
{
    flatten_slice(repos, roots, i);
    layer_flattening(repos[i], roots[i]);
    let at = layers_of_all(repos.take(i)) as int;
    let sl = flatten(repos, roots).subrange(at, (at + layer_count(repos[i])) as int);
    assert(repos.take(i + 1).drop_last() =~= repos.take(i));
    assert(repos.take(i + 1).last() == repos[i]);
    if repos[i].layers@.len() == 0 {
        assert(sl[0] == flatten(repos, roots)[at]);
    }
    if repos[i].layers@.len() == 2 {
        assert(sl[0] == flatten(repos, roots)[at]);
        assert(sl[1] == flatten(repos, roots)[at + 1]);
    }
}

} // verus!
