use simple_git::remote::{
    CALLBACKS_REUSE_MESSAGE, CRED_REUSE_MESSAGE, FETCH_OPTIONS_REUSE_MESSAGE,
    PROXY_OPTIONS_REUSE_MESSAGE,
};
use simple_git::{
    AutotagOption, CloneLocal, Cred, CredentialType, FetchOptions, FetchPrune, ProxyOptions,
    Remote, RemoteCallbacks, RemoteRedirect, RepoBuilder, RepoCache, Repository, Sort,
};

fn unique_dir(tag: &str) -> String {
    let nanos = std::time::SystemTime::now()
        .duration_since(std::time::UNIX_EPOCH)
        .unwrap()
        .as_nanos();
    format!("/tmp/simple_git_tests/{tag}-{nanos}")
}

fn write_tree(repo: &git2::Repository, files: &[(&str, &str)]) -> git2::Oid {
    let mut builder = repo.treebuilder(None).unwrap();
    for (name, content) in files {
        let blob = repo.blob(content.as_bytes()).unwrap();
        builder.insert(name, blob, 0o100644).unwrap();
    }
    builder.write().unwrap()
}

fn add_commit(
    repo: &git2::Repository,
    parents: &[&git2::Commit],
    files: &[(&str, &str)],
    message: &str,
    time: i64,
) -> git2::Oid {
    let tree = repo.find_tree(write_tree(repo, files)).unwrap();
    let sig =
        git2::Signature::new("Tester", "tester@example.com", &git2::Time::new(time, 0)).unwrap();
    repo.commit(Some("HEAD"), &sig, &sig, message, &tree, parents).unwrap()
}

/// A linear history: C0 adds `f.txt` (and `other.txt`), C1 modifies `f.txt`,
/// C2 modifies only `other.txt`.
fn linear_fixture(tag: &str) -> (String, git2::Oid, git2::Oid, git2::Oid) {
    let dir = unique_dir(tag);
    let fixture = git2::Repository::init(&dir).unwrap();
    let c0 = add_commit(
        &fixture,
        &[],
        &[("f.txt", "one"), ("other.txt", "x")],
        "adds f",
        1000,
    );
    let p0 = fixture.find_commit(c0).unwrap();
    let c1 = add_commit(
        &fixture,
        &[&p0],
        &[("f.txt", "two"), ("other.txt", "x")],
        "modifies f",
        2000,
    );
    let p1 = fixture.find_commit(c1).unwrap();
    let c2 = add_commit(
        &fixture,
        &[&p1],
        &[("f.txt", "two"), ("other.txt", "y")],
        "does not touch f",
        3000,
    );
    (dir, c0, c1, c2)
}

#[test]
fn query_returns_the_last_modifying_commit_time() {
    let (dir, _c0, _c1, _c2) = linear_fixture("query");
    let repo = Repository::new(dir).unwrap();
    let ms = repo
        .get_file_latest_modified_date(String::from("f.txt"))
        .unwrap();
    assert_eq!(ms, 2000 * 1000);
    let other = repo
        .get_file_latest_modified_date(String::from("other.txt"))
        .unwrap();
    assert_eq!(other, 3000 * 1000);
}

#[test]
fn query_reports_an_untouched_path_as_not_found() {
    let (dir, _c0, _c1, _c2) = linear_fixture("query-miss");
    let repo = Repository::new(dir).unwrap();
    let r = repo.get_file_latest_modified_date(String::from("nope.txt"));
    assert_eq!(r.err().unwrap().message().as_str(), "Failed to get commit for [nope.txt]");
}

#[test]
fn query_skips_merge_commits() {
    let (dir, c0, _c1, c2) = linear_fixture("query-merge");
    let fixture = git2::Repository::open(&dir).unwrap();
    let base = fixture.find_commit(c0).unwrap();
    // A side branch off C0 that does not change `f.txt`.
    let side_tree = fixture
        .find_tree(write_tree(
            &fixture,
            &[("f.txt", "one"), ("other.txt", "x"), ("side.txt", "s")],
        ))
        .unwrap();
    let sig =
        git2::Signature::new("Tester", "tester@example.com", &git2::Time::new(1500, 0)).unwrap();
    let side = fixture
        .commit(None, &sig, &sig, "side work", &side_tree, &[&base])
        .unwrap();
    // A merge commit that is the most recent touch to `f.txt`.
    let merge_tree = fixture
        .find_tree(write_tree(
            &fixture,
            &[("f.txt", "merged"), ("other.txt", "y"), ("side.txt", "s")],
        ))
        .unwrap();
    let merge_sig =
        git2::Signature::new("Tester", "tester@example.com", &git2::Time::new(4000, 0)).unwrap();
    let tip = fixture.find_commit(c2).unwrap();
    let side_commit = fixture.find_commit(side).unwrap();
    fixture
        .commit(
            Some("HEAD"),
            &merge_sig,
            &merge_sig,
            "merge",
            &merge_tree,
            &[&tip, &side_commit],
        )
        .unwrap();

    let repo = Repository::new(dir).unwrap();
    let ms = repo
        .get_file_latest_modified_date(String::from("f.txt"))
        .unwrap();
    // The merge is skipped; the next-older non-merge modification of `f.txt`
    // answers.
    assert_eq!(ms, 2000 * 1000);
}

#[test]
fn rev_walk_visits_every_commit_once() {
    let (dir, c0, c1, c2) = linear_fixture("walk");
    let repo = Repository::new(dir).unwrap();
    let mut walk = repo.rev_walk().unwrap();
    walk.push_head().unwrap();
    let mut seen: Vec<String> = Vec::new();
    while let Some(oid) = walk.next() {
        seen.push(oid);
    }
    assert_eq!(seen.len(), 3);
    assert!(seen.contains(&c0.to_string()));
    assert!(seen.contains(&c1.to_string()));
    assert!(seen.contains(&c2.to_string()));
    // Exhausted for good.
    assert!(walk.next().is_none());
    assert!(walk.next().is_none());
}

#[test]
fn rev_walk_reverse_sorting_starts_at_the_root() {
    let (dir, c0, _c1, _c2) = linear_fixture("walk-rev");
    let repo = Repository::new(dir).unwrap();
    let mut walk = repo.rev_walk().unwrap();
    walk.push_head().unwrap();
    walk.set_sorting(Sort::Reverse).unwrap();
    assert_eq!(walk.next(), Some(c0.to_string()));
}

#[test]
fn rev_walk_hide_excludes_ancestors() {
    let (dir, _c0, c1, c2) = linear_fixture("walk-hide");
    let repo = Repository::new(dir).unwrap();
    let mut walk = repo.rev_walk().unwrap();
    walk.push_head().unwrap();
    walk.hide_commit(c1.to_string()).unwrap();
    assert_eq!(walk.next(), Some(c2.to_string()));
    assert!(walk.next().is_none());
}

#[test]
fn rev_walk_push_and_range() {
    let (dir, c0, _c1, c2) = linear_fixture("walk-push");
    let repo = Repository::new(dir).unwrap();
    let mut walk = repo.rev_walk().unwrap();
    walk.push(c0.to_string()).unwrap();
    assert_eq!(walk.next(), Some(c0.to_string()));
    assert!(walk.next().is_none());
    let bad = walk.push(String::from("not-a-hex-id!"));
    assert!(bad.err().unwrap().message().starts_with("Invalid oid: "));
    let mut ranged = repo.rev_walk().unwrap();
    ranged
        .push_range(format!("{}..{}", c0, c2))
        .unwrap();
    let mut count = 0;
    while ranged.next().is_some() {
        count += 1;
    }
    assert_eq!(count, 2);
}

#[test]
fn cache_returns_the_same_instance_for_one_path() {
    let (dir, c0, _c1, _c2) = linear_fixture("cache");
    let mut cache = RepoCache::new();
    assert_eq!(cache.len(), 0);
    let first = cache.get_or_open(dir.clone()).unwrap();
    assert_eq!(cache.len(), 1);
    let second = cache.get_or_open(dir.clone()).unwrap();
    assert_eq!(cache.len(), 1);
    // Both handles reach the same opened repository.
    assert_eq!(
        first.find_commit(c0.to_string()).unwrap().id(),
        second.find_commit(c0.to_string()).unwrap().id()
    );
    let other_dir = unique_dir("cache-second");
    git2::Repository::init(&other_dir).unwrap();
    cache.get_or_open(other_dir).unwrap();
    assert_eq!(cache.len(), 2);
}

#[test]
fn cache_reports_a_failed_open_and_stays_unchanged() {
    let mut cache = RepoCache::new();
    let r = cache.get_or_open(String::from("/tmp/simple_git_tests/absent-repo"));
    let message = r.err().unwrap().message().clone();
    assert!(message.starts_with("Failed to open git repo: [/tmp/simple_git_tests/absent-repo], reason: "));
    assert_eq!(cache.len(), 0);
}

#[test]
fn remotes_are_configured_and_looked_up() {
    let (dir, _c0, _c1, _c2) = linear_fixture("remote");
    let repo = Repository::new(dir).unwrap();
    assert!(repo.remotes().unwrap().is_empty());
    let remote = repo
        .remote(String::from("origin"), String::from("https://example.com/a.git"))
        .unwrap();
    assert_eq!(remote.name(), Some(String::from("origin")));
    assert_eq!(remote.url(), Some(String::from("https://example.com/a.git")));
    assert!(remote.pushurl().is_none());
    assert_eq!(repo.remotes().unwrap(), vec![String::from("origin")]);

    repo.remote_set_url(String::from("origin"), String::from("https://example.com/b.git"))
        .unwrap();
    assert_eq!(remote.url(), Some(String::from("https://example.com/b.git")));
    repo.remote_set_pushurl(String::from("origin"), Some(String::from("https://example.com/p.git")))
        .unwrap();
    assert_eq!(remote.pushurl(), Some(String::from("https://example.com/p.git")));
    let found = repo.find_remote(String::from("origin")).unwrap();
    assert_eq!(found.name(), Some(String::from("origin")));
    assert!(repo.find_remote(String::from("missing")).is_none());

    let problems = repo
        .remote_rename(String::from("origin"), String::from("upstream"))
        .unwrap();
    assert!(problems.iter().all(|p| !p.is_empty()));
    assert_eq!(repo.remotes().unwrap(), vec![String::from("upstream")]);
    repo.remote_delete(String::from("upstream")).unwrap();
    assert!(repo.remotes().unwrap().is_empty());

    let second = repo
        .remote(String::from("mirror"), String::from("https://example.com/m.git"))
        .unwrap();
    repo.remote_add_fetch(String::from("mirror"), String::from("+refs/x/*:refs/x/*"))
        .unwrap();
    repo.remote_add_push(String::from("mirror"), String::from("refs/heads/*:refs/heads/*"))
        .unwrap();
    assert_eq!(second.name(), Some(String::from("mirror")));
}

#[test]
fn anonymous_remotes_carry_only_a_url() {
    let (dir, _c0, _c1, _c2) = linear_fixture("remote-anon");
    let repo = Repository::new(dir).unwrap();
    let mut remote = repo
        .remote_anonymous(String::from("https://example.com/x.git"))
        .unwrap();
    assert!(remote.name().is_none());
    assert_eq!(remote.url(), Some(String::from("https://example.com/x.git")));
    assert!(!remote.connected());
    assert!(Remote::is_valid_name(String::from("origin")));
    assert!(!Remote::is_valid_name(String::from("bad..name")));
}

#[test]
fn remote_with_fetch_records_the_refspec() {
    let (dir, _c0, _c1, _c2) = linear_fixture("remote-fetch");
    let repo = Repository::new(dir).unwrap();
    let remote = repo
        .remote_with_fetch(
            String::from("extra"),
            String::from("https://example.com/e.git"),
            String::from("+refs/heads/*:refs/remotes/extra/*"),
        )
        .unwrap();
    assert_eq!(remote.name(), Some(String::from("extra")));
}

#[test]
fn fetch_from_a_local_remote_updates_tracking_refs() {
    let (src, _c0, _c1, c2) = linear_fixture("fetch-src");
    let dest_dir = unique_dir("fetch-dest");
    git2::Repository::init(&dest_dir).unwrap();
    let repo = Repository::new(dest_dir).unwrap();
    let mut remote = repo.remote(String::from("origin"), src).unwrap();
    let mut options = FetchOptions::new();
    options.prune(FetchPrune::Off);
    options.update_fetchhead(true);
    options.depth(0);
    options.download_tags(AutotagOption::Unspecified);
    options.follow_redirects(RemoteRedirect::Initial);
    options.custom_headers(Vec::new());
    remote
        .fetch(
            vec![String::from("+refs/heads/*:refs/remotes/origin/*")],
            Some(options),
        )
        .unwrap();
    // The fetched tip is now visible locally.
    assert!(repo.find_commit(c2.to_string()).is_some());
    // Options spent by an earlier consuming operation are refused before any
    // native call.
    let mut spent = FetchOptions::new();
    let mut builder = RepoBuilder::new();
    builder.fetch_options(&mut spent).unwrap();
    let again = remote.fetch(
        vec![String::from("+refs/heads/*:refs/remotes/origin/*")],
        Some(spent),
    );
    assert_eq!(again.err().unwrap().message().as_str(), FETCH_OPTIONS_REUSE_MESSAGE);
}

#[test]
fn fetch_options_are_single_use_for_the_builder() {
    let mut options = FetchOptions::new();
    let mut builder = RepoBuilder::new();
    builder.fetch_options(&mut options).unwrap();
    let second = builder.fetch_options(&mut options);
    assert_eq!(second.err().unwrap().message().as_str(), FETCH_OPTIONS_REUSE_MESSAGE);
}

#[test]
fn remote_callbacks_are_single_use() {
    let mut callbacks = RemoteCallbacks::new();
    callbacks.credentials(String::from("user"), String::from("SECRET-REDACTED"));
    let mut options = FetchOptions::new();
    options.remote_callback(&mut callbacks).unwrap();
    let second = options.remote_callback(&mut callbacks);
    assert_eq!(second.err().unwrap().message().as_str(), CALLBACKS_REUSE_MESSAGE);
}

#[test]
fn proxy_options_are_single_use() {
    let mut proxy = ProxyOptions::new();
    proxy.auto();
    proxy.url(String::from("http://proxy.example.com"));
    let mut options = FetchOptions::new();
    options.proxy_options(&mut proxy).unwrap();
    let second = options.proxy_options(&mut proxy);
    assert_eq!(second.err().unwrap().message().as_str(), PROXY_OPTIONS_REUSE_MESSAGE);
}

#[test]
fn fetch_reports_progress_through_the_installed_callback() {
    let (src, _c0, _c1, c2) = linear_fixture("progress-src");
    let dest_dir = unique_dir("progress-dest");
    git2::Repository::init(&dest_dir).unwrap();
    let repo = Repository::new(dest_dir).unwrap();
    let mut remote = repo.remote(String::from("origin"), src).unwrap();
    let seen = std::sync::Arc::new(std::sync::atomic::AtomicU32::new(0));
    let seen_by_callback = seen.clone();
    let mut callbacks = RemoteCallbacks::new();
    callbacks.transfer_progress(move |progress| {
        seen_by_callback
            .fetch_max(progress.received_objects, std::sync::atomic::Ordering::SeqCst);
        true
    });
    callbacks.push_transfer_progress(|_progress| {});
    let mut options = FetchOptions::new();
    options.remote_callback(&mut callbacks).unwrap();
    remote
        .fetch(
            vec![String::from("+refs/heads/*:refs/remotes/origin/*")],
            Some(options),
        )
        .unwrap();
    assert!(repo.find_commit(c2.to_string()).is_some());
    // Three commits of three objects each were transferred.
    assert!(seen.load(std::sync::atomic::Ordering::SeqCst) > 0);
}

#[test]
fn credentials_are_single_use() {
    let mut cred = Cred::userpass_plaintext(String::from("user"), String::from("SECRET-REDACTED"))
        .unwrap();
    assert!(cred.has_username());
    assert_eq!(cred.credtype(), CredentialType::UserPassPlaintext);
    let first = cred.take_native();
    assert!(first.is_ok());
    let second = cred.take_native();
    assert_eq!(second.err().unwrap().message().as_str(), CRED_REUSE_MESSAGE);
}

#[test]
fn credential_constructors_report_their_type() {
    let named = Cred::username(String::from("user")).unwrap();
    assert_eq!(named.credtype(), CredentialType::Username);
    assert!(named.has_username());
    let agent = Cred::ssh_key_from_agent(String::from("git")).unwrap();
    assert_eq!(agent.credtype(), CredentialType::SshKey);
}

#[test]
fn clone_builder_copies_a_local_repository() {
    let (src, _c0, _c1, c2) = linear_fixture("clone-src");
    let mut builder = RepoBuilder::new();
    builder.bare(false);
    builder.clone_local(CloneLocal::Local);
    let dest = unique_dir("clone-dest");
    let cloned = builder.clone(src.clone(), dest).unwrap();
    assert!(cloned.find_commit(c2.to_string()).is_some());

    let bad = builder.clone(String::from("/tmp/simple_git_tests/absent-src"), unique_dir("clone-bad"));
    assert!(bad.err().unwrap().message().starts_with("Clone failed: "));

    let dest2 = unique_dir("clone-dest-plain");
    let direct = Repository::clone(src, dest2).unwrap();
    assert!(direct.find_commit(c2.to_string()).is_some());
}
