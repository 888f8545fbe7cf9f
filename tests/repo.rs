use thistle_yocto_build::config::BuildEnv;
use thistle_yocto_build::repo::{
    bitbake_repo, fetch_repos, find_bitbake_in_top_layers, first_with_bitbake, flatten_layers, parse_repos,
    resolved_path, set_thistle, Repo,
};
use thistle_yocto_build::sync::{next_source, SourcesStep, SyncAction, SyncError, SyncEvent, SyncState};

fn repo(name: &str, location: &str, layers: &[&str], refspec: Option<&str>) -> Repo {
    Repo {
        name: name.to_string(),
        layers: layers.iter().map(|l| l.to_string()).collect(),
        location: location.to_string(),
        refspec: refspec.map(|r| r.to_string()),
    }
}

fn env() -> BuildEnv {
    BuildEnv::under("/nonexistent-work/build")
}

fn git_args(a: &SyncAction) -> Vec<String> {
    match a {
        SyncAction::Git(v) => v.clone(),
        other => panic!("expected a git command, got {:?}", other),
    }
}

#[test]
fn local_source_is_not_touched() {
    let r = repo("base", "./vendor/base", &[], None);
    let (state, action) =
        r.sync_step("./vendor/base", SyncState::Start, &SyncEvent::Located { local: true, present: true });
    assert_eq!(state, SyncState::Finished);
    assert!(matches!(action, SyncAction::Done));
}

#[test]
fn remote_source_without_refspec_fails_first() {
    let r = repo("poky", "https://example.org/poky.git", &[], None);
    for present in [false, true] {
        let (state, action) = r.sync_step("/l/poky", SyncState::Start, &SyncEvent::Located { local: false, present });
        assert_eq!(state, SyncState::Failed);
        assert!(matches!(action, SyncAction::Abort(SyncError::MissingRefspec)));
    }
}

#[test]
fn fresh_remote_source_is_cloned_then_checked_out() {
    let r = repo("poky", "https://example.org/poky.git", &[], Some("kirkstone"));
    let (state, action) = r.sync_step("/l/poky", SyncState::Start, &SyncEvent::Located { local: false, present: false });
    assert_eq!(state, SyncState::Cloning);
    match action {
        SyncAction::Clone(v) => assert_eq!(v, vec!["clone", "https://example.org/poky.git", "/l/poky"]),
        other => panic!("unexpected {:?}", other),
    }
    let (state, action) = r.sync_step("/l/poky", state, &SyncEvent::GitDone(String::new()));
    assert_eq!(state, SyncState::CheckingOutRefspec);
    assert_eq!(git_args(&action), vec!["checkout", "kirkstone"]);
    let (state, action) = r.sync_step("/l/poky", state, &SyncEvent::GitDone(String::new()));
    assert_eq!(state, SyncState::Finished);
    assert!(matches!(action, SyncAction::Done));
}

#[test]
fn clean_checkout_follows_default_branch() {
    let r = repo("poky", "https://example.org/poky.git", &[], Some("v1.2"));
    let p = "/l/poky";
    let (state, action) = r.sync_step(p, SyncState::Start, &SyncEvent::Located { local: false, present: true });
    assert_eq!(state, SyncState::CheckingStatus);
    assert_eq!(git_args(&action), vec!["status", "--porcelain"]);
    let (state, action) = r.sync_step(p, state, &SyncEvent::GitDone(String::new()));
    assert_eq!(state, SyncState::ReadingDefaultBranch);
    assert_eq!(git_args(&action), vec!["symbolic-ref", "--short", "refs/remotes/origin/HEAD"]);
    let (state, action) = r.sync_step(p, state, &SyncEvent::GitDone("origin/main".to_string()));
    assert_eq!(state, SyncState::CheckingOutDefault);
    assert_eq!(git_args(&action), vec!["checkout", "main"]);
    let (state, action) = r.sync_step(p, state, &SyncEvent::GitDone(String::new()));
    assert_eq!(state, SyncState::Pulling);
    assert_eq!(git_args(&action), vec!["pull"]);
    let (state, action) = r.sync_step(p, state, &SyncEvent::GitDone("Already up to date.".to_string()));
    assert_eq!(state, SyncState::CheckingOutRefspec);
    assert_eq!(git_args(&action), vec!["checkout", "v1.2"]);
    let (state, action) = r.sync_step(p, state, &SyncEvent::GitDone(String::new()));
    assert_eq!(state, SyncState::Finished);
    assert!(matches!(action, SyncAction::Done));
}

#[test]
fn dirty_checkout_is_left_alone() {
    let r = repo("poky", "https://example.org/poky.git", &[], Some("v1.2"));
    let (state, action) =
        r.sync_step("/l/poky", SyncState::CheckingStatus, &SyncEvent::GitDone("M README".to_string()));
    assert_eq!(state, SyncState::Finished);
    assert!(matches!(action, SyncAction::DoneDirty));
}

#[test]
fn failing_git_aborts() {
    let r = repo("poky", "https://example.org/poky.git", &[], Some("v1.2"));
    let diag = "stdout: \nstderr: fatal: not a git repository".to_string();
    let (state, action) = r.sync_step("/l/poky", SyncState::Pulling, &SyncEvent::GitFailed(diag.clone()));
    assert_eq!(state, SyncState::Failed);
    match action {
        SyncAction::GitError(out) => assert_eq!(out, diag),
        other => panic!("unexpected {:?}", other),
    }
    let (state, action) = r.sync_step("/l/poky", SyncState::Finished, &SyncEvent::GitFailed(diag));
    assert_eq!(state, SyncState::Failed);
    assert!(matches!(action, SyncAction::Abort(SyncError::OutOfOrder)));
    let (_, action) =
        r.sync_step("/l/poky", SyncState::Pulling, &SyncEvent::Located { local: true, present: true });
    assert!(matches!(action, SyncAction::Abort(SyncError::OutOfOrder)));
}

#[test]
fn layers_of_one_source() {
    let root = "/l/meta";
    let none = repo("meta", "x", &[], None);
    assert_eq!(none.layer_paths(root), vec!["/l/meta"]);
    let two = repo("meta", "x", &["a", "b"], None);
    assert_eq!(two.layer_paths(root), vec!["/l/meta/a", "/l/meta/b"]);
}

#[test]
fn flattened_layers_of_local_and_remote_sources() {
    let repos = vec![
        repo("base", "./vendor/base", &[], None),
        repo("remote", "https://example.org/remote.git", &["core", "bsp"], Some("main")),
    ];
    let roots = vec!["./vendor/base".to_string(), "/cache/remote".to_string()];
    let layers = flatten_layers(&repos, &roots);
    assert_eq!(layers, vec!["./vendor/base", "/cache/remote/core", "/cache/remote/bsp"]);
}

#[test]
fn remote_sources_resolve_under_layer_dir() {
    let e = env();
    let r = repo("meta-x", "https://example.org/meta-x.git", &["meta-a"], Some("main"));
    assert!(!r.is_local_repo());
    assert_eq!(r.path(&e), "/nonexistent-work/build/layers/meta-x");
    let (top, layers) = fetch_repos(&vec![r], &e);
    assert_eq!(top, vec!["/nonexistent-work/build/layers/meta-x"]);
    assert_eq!(layers, vec!["/nonexistent-work/build/layers/meta-x/meta-a"]);
}

#[test]
fn local_source_is_classified_local() {
    let r = repo("here", ".", &[], None);
    assert!(r.is_local_repo());
    assert_eq!(r.unresolved_path(&env(), true), ".");
    assert_eq!(r.unresolved_path(&env(), false), "/nonexistent-work/build/layers/here");
}

#[test]
fn no_bitbake_in_missing_roots() {
    let roots = vec!["/nonexistent-a".to_string(), "/nonexistent-b".to_string()];
    assert_eq!(find_bitbake_in_top_layers(&roots), None);
    assert_eq!(find_bitbake_in_top_layers(&Vec::new()), None);
}

#[test]
fn declared_sources_take_their_keys_as_names() {
    let entries = vec![
        ("alpha".to_string(), repo("", "./a", &["x"], None)),
        ("beta".to_string(), repo("ignored", "https://b", &[], Some("v2"))),
    ];
    let repos = parse_repos(entries);
    assert_eq!(repos.len(), 2);
    assert_eq!(repos[0].name, "alpha");
    assert_eq!(repos[0].layers, vec!["x"]);
    assert_eq!(repos[1].name, "beta");
    assert_eq!(repos[1].location, "https://b");
    assert_eq!(repos[1].refspec.as_deref(), Some("v2"));
}

#[test]
fn injected_sources() {
    let t = set_thistle("deadbeef");
    assert_eq!(t.name, "meta-thistle");
    assert_eq!(
        t.layers,
        vec!["meta-thistle-base", "meta-thistle-base-bsp", "meta-thistle-update-client", "meta-trust-m"]
    );
    assert_eq!(t.location, "https://github.com/thistletech/meta-thistle.git");
    assert_eq!(t.refspec.as_deref(), Some("deadbeef"));
    let b = bitbake_repo();
    assert_eq!(b.name, "bitbake");
    assert!(b.layers.is_empty());
    assert_eq!(b.location, "git://git.openembedded.org/bitbake");
    assert_eq!(b.refspec.as_deref(), Some("2022-04.6-kirkstone"));
}

#[test]
fn sources_are_synchronised_in_order_until_a_failure() {
    assert_eq!(next_source(3, 0, false), SourcesStep::Synchronise(0));
    assert_eq!(next_source(3, 2, false), SourcesStep::Synchronise(2));
    assert_eq!(next_source(3, 3, false), SourcesStep::Resolve);
    assert_eq!(next_source(0, 0, false), SourcesStep::Resolve);
    assert_eq!(next_source(3, 1, true), SourcesStep::Stop(1));
}

#[test]
fn first_root_with_bitbake_wins() {
    let roots = vec!["/a".to_string(), "/b".to_string(), "/c".to_string()];
    assert_eq!(first_with_bitbake(&roots, &vec![false, true, true]), Some("/b/bitbake".to_string()));
    assert_eq!(first_with_bitbake(&roots, &vec![true, false, false]), Some("/a/bitbake".to_string()));
    assert_eq!(first_with_bitbake(&roots, &vec![false, false, false]), None);
}

#[test]
fn resolution_falls_back_to_the_given_path() {
    assert_eq!(resolved_path("./vendor/base".to_string(), None), "./vendor/base");
    assert_eq!(
        resolved_path("./vendor/base".to_string(), Some("/w/vendor/base".to_string())),
        "/w/vendor/base"
    );
}

#[test]
fn flattened_layers_keep_each_source_slice() {
    let repos = vec![
        repo("a", "x", &["one", "two", "three"], None),
        repo("b", "y", &[], None),
        repo("c", "z", &["p", "q"], None),
    ];
    let roots = vec!["/ra".to_string(), "/rb".to_string(), "/rc".to_string()];
    let layers = flatten_layers(&repos, &roots);
    assert_eq!(layers, vec!["/ra/one", "/ra/two", "/ra/three", "/rb", "/rc/p", "/rc/q"]);
}

#[test]
fn existing_local_root_is_resolved_to_an_absolute_path() {
    let r = repo("here", ".", &[], None);
    let p = r.path(&env());
    assert!(p.starts_with('/'));
    assert_ne!(p, ".");
}
