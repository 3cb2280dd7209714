use simple_git::remote::CALLBACKS_REUSE_MESSAGE;
use simple_git::{
    AutotagOption, RemoteCallbacks, RemoteUpdateFlags, Repository, Signature,
};

fn unique_dir(tag: &str) -> String {
    let nanos = std::time::SystemTime::now()
        .duration_since(std::time::UNIX_EPOCH)
        .unwrap()
        .as_nanos();
    format!("/tmp/simple_git_tests/{tag}-{nanos}")
}

fn write_tree(repo: &git2::Repository, files: &[(&str, &[u8])]) -> git2::Oid {
    let mut builder = repo.treebuilder(None).unwrap();
    for (name, content) in files {
        let blob = repo.blob(content).unwrap();
        builder.insert(name, blob, 0o100644).unwrap();
    }
    builder.write().unwrap()
}

fn single_commit_fixture(tag: &str) -> (String, git2::Oid) {
    let dir = unique_dir(tag);
    let fixture = git2::Repository::init(&dir).unwrap();
    let tree = fixture
        .find_tree(write_tree(&fixture, &[("data.bin", b"\x00\x01\x02"), ("text.txt", b"words")]))
        .unwrap();
    let sig =
        git2::Signature::new("Tester", "tester@example.com", &git2::Time::new(1000, 0)).unwrap();
    let c0 = fixture.commit(Some("HEAD"), &sig, &sig, "data", &tree, &[]).unwrap();
    (dir, c0)
}

#[test]
fn namespaces_are_set_and_removed() {
    let (dir, _c0) = single_commit_fixture("namespace");
    let repo = Repository::new(dir).unwrap();
    assert!(repo.namespace().is_none());
    repo.set_namespace(String::from("testspace")).unwrap();
    assert_eq!(repo.namespace(), Some(String::from("testspace")));
    repo.remove_namespace().unwrap();
    assert!(repo.namespace().is_none());
}

#[test]
fn removing_an_absent_merge_message_reports_the_native_reason() {
    let (dir, _c0) = single_commit_fixture("mergemsg");
    let repo = Repository::new(dir).unwrap();
    let message = repo.remove_message().err().unwrap().message().clone();
    assert!(message.starts_with("Remove the Git merge message failed: "));
}

#[test]
fn binary_blob_is_detected() {
    let (dir, c0) = single_commit_fixture("binary");
    let repo = Repository::new(dir).unwrap();
    let tree = repo.find_commit(c0.to_string()).unwrap().tree().unwrap();
    let data = repo
        .find_blob(tree.get_name(String::from("data.bin")).unwrap().id())
        .unwrap();
    assert!(data.is_binary().unwrap());
    assert_eq!(data.content().unwrap(), b"\x00\x01\x02".to_vec());
    let text = repo
        .find_blob(tree.get_name(String::from("text.txt")).unwrap().id())
        .unwrap();
    assert!(!text.is_binary().unwrap());
}

#[test]
fn rev_walk_configuration_calls_are_wired_through() {
    let (dir, c0) = single_commit_fixture("walkcfg");
    let repo = Repository::new(dir).unwrap();
    let branch = repo.head().unwrap().name().unwrap();

    let mut walk = repo.rev_walk().unwrap();
    walk.push_ref(branch.clone()).unwrap();
    walk.simplify_first_parent().unwrap();
    assert_eq!(walk.next(), Some(c0.to_string()));
    walk.reset().unwrap();

    let mut globbed = repo.rev_walk().unwrap();
    globbed.push_glob(String::from("heads/*")).unwrap();
    assert_eq!(globbed.next(), Some(c0.to_string()));

    let mut hidden = repo.rev_walk().unwrap();
    hidden.push_head().unwrap();
    hidden.hide_head().unwrap();
    assert!(hidden.next().is_none());

    let mut hidden_by_ref = repo.rev_walk().unwrap();
    hidden_by_ref.push_head().unwrap();
    hidden_by_ref.hide_ref(branch).unwrap();
    assert!(hidden_by_ref.next().is_none());

    let mut hidden_by_glob = repo.rev_walk().unwrap();
    hidden_by_glob.push_head().unwrap();
    hidden_by_glob.hide_glob(String::from("heads/*")).unwrap();
    assert!(hidden_by_glob.next().is_none());
}

#[test]
fn update_tips_refuses_spent_callbacks() {
    let (dir, _c0) = single_commit_fixture("tips");
    let repo = Repository::new(dir).unwrap();
    let mut remote = repo
        .remote(String::from("origin"), String::from("https://example.com/a.git"))
        .unwrap();
    let mut callbacks = RemoteCallbacks::new();
    let mut options = simple_git::FetchOptions::new();
    options.remote_callback(&mut callbacks).unwrap();
    let r = remote.update_tips(
        RemoteUpdateFlags::UpdateFetchHead,
        AutotagOption::Unspecified,
        Some(callbacks),
        Some(String::from("note")),
    );
    assert_eq!(r.err().unwrap().message().as_str(), CALLBACKS_REUSE_MESSAGE);
}

#[test]
fn nul_bearing_names_are_never_valid() {
    assert!(!simple_git::Tag::is_valid_name(String::from("v\01")));
    assert!(!simple_git::Remote::is_valid_name(String::from("ori\0gin")));
}

#[test]
fn nul_bearing_paths_find_nothing() {
    let (dir, c0) = single_commit_fixture("nul");
    let repo = Repository::new(dir).unwrap();
    let tree = repo.find_commit(c0.to_string()).unwrap().tree().unwrap();
    assert!(tree.get_name(String::from("text\0.txt")).is_none());
    let r = repo.get_file_latest_modified_date(String::from("text\0.txt"));
    assert_eq!(
        r.err().unwrap().message().as_str(),
        "Failed to get commit for [text\0.txt]"
    );
}

#[test]
fn tag_foreach_lists_every_tag() {
    let (dir, c0) = single_commit_fixture("foreach");
    let repo = Repository::new(dir).unwrap();
    let target = repo.find_commit(c0.to_string()).unwrap().as_object();
    repo.tag_lightweight(String::from("one"), &target, false).unwrap();
    repo.tag_lightweight(String::from("two"), &target, false).unwrap();
    let mut entries = repo.tag_foreach().unwrap();
    entries.sort();
    assert_eq!(entries.len(), 2);
    assert_eq!(entries[0].0, c0.to_string());
    assert_eq!(entries[0].1, b"refs/tags/one".to_vec());
    assert_eq!(entries[1].1, b"refs/tags/two".to_vec());
}

#[test]
fn credential_callback_answers_and_is_single_use() {
    let mut callbacks = simple_git::RemoteCallbacks::new();
    let mut cred =
        simple_git::Cred::userpass_plaintext(String::from("user"), String::from("SECRET-REDACTED"))
            .unwrap();
    callbacks.credentials_with(move |request| {
        assert_eq!(request.username, "git");
        cred.take_native().map_err(|e| git2::Error::from_str(e.message()))
    });
    // Consuming the callbacks into fetch options exercises the wiring; the
    // callback itself only runs when a transport asks for credentials.
    let mut options = simple_git::FetchOptions::new();
    options.remote_callback(&mut callbacks).unwrap();
}

#[test]
fn clone_recurse_copies_a_local_repository() {
    let (src, c0) = single_commit_fixture("recurse-src");
    let dest = unique_dir("recurse-dest");
    let cloned = Repository::clone_recurse(src, dest).unwrap();
    assert!(cloned.find_commit(c0.to_string()).is_some());
}

#[test]
fn commit_created_through_the_library_is_readable() {
    let dir = unique_dir("create");
    let fixture = git2::Repository::init(&dir).unwrap();
    let tree_oid = write_tree(&fixture, &[("new.txt", b"fresh")]);
    drop(fixture);

    let repo = Repository::new(dir).unwrap();
    let tree = repo.find_tree(tree_oid.to_string()).unwrap();
    let author = Signature::new(
        String::from("Author"),
        String::from("author@example.com"),
        1_600_000_000,
    )
    .unwrap();
    let committer = Signature::new(
        String::from("Committer"),
        String::from("committer@example.com"),
        1_600_000_001,
    )
    .unwrap();
    let oid = repo
        .commit(
            Some(String::from("HEAD")),
            &author,
            &committer,
            String::from("made by the library"),
            &tree,
        )
        .unwrap();
    let commit = repo.find_commit(oid).unwrap();
    assert_eq!(commit.message(), Some(String::from("made by the library")));
    assert_eq!(commit.author().unwrap().name(), Some("Author"));
    assert_eq!(commit.committer().unwrap().email(), Some("committer@example.com"));
    assert_eq!(commit.time().unwrap(), 1_600_000_001);
    assert_eq!(commit.parent_count().unwrap(), 0);
}
