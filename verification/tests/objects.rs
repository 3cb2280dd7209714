use simple_git::{Delta, ObjectType, Reference, Repository, Tag};

fn unique_dir(tag: &str) -> String {
    let nanos = std::time::SystemTime::now()
        .duration_since(std::time::UNIX_EPOCH)
        .unwrap()
        .as_nanos();
    format!("/tmp/simple_git_tests/{tag}-{nanos}")
}

fn write_tree(repo: &git2::Repository, files: &[(&str, &str)]) -> git2::Oid {
    let mut builder = repo.treebuilder(None).unwrap();
    for (name, content) in files {
        let blob = repo.blob(content.as_bytes()).unwrap();
        builder.insert(name, blob, 0o100644).unwrap();
    }
    builder.write().unwrap()
}

fn add_commit(
    repo: &git2::Repository,
    parents: &[&git2::Commit],
    files: &[(&str, &str)],
    message: &str,
    time: i64,
) -> git2::Oid {
    let tree = repo.find_tree(write_tree(repo, files)).unwrap();
    let sig =
        git2::Signature::new("Tester", "tester@example.com", &git2::Time::new(time, 0)).unwrap();
    repo.commit(Some("HEAD"), &sig, &sig, message, &tree, parents).unwrap()
}

/// A repository with one commit holding `a.txt` and `b.txt`.
fn simple_fixture(tag: &str) -> (String, git2::Oid) {
    let dir = unique_dir(tag);
    let fixture = git2::Repository::init(&dir).unwrap();
    let c0 = add_commit(
        &fixture,
        &[],
        &[("a.txt", "alpha"), ("b.txt", "beta")],
        "subject line\n\nbody text\n",
        1_600_000_000,
    );
    (dir, c0)
}

#[test]
fn repository_init_open_and_state() {
    let dir = unique_dir("init");
    let repo = Repository::init(dir.clone()).unwrap();
    assert!(repo.is_empty().unwrap());
    assert!(!repo.is_shallow());
    assert!(!repo.is_worktree());
    assert!(repo.path().contains(".git"));
    assert!(repo.workdir().is_some());
    let reopened = Repository::new(dir).unwrap();
    assert!(reopened.is_empty().unwrap());
}

#[test]
fn repository_open_reports_the_path_in_the_error() {
    let r = Repository::new(String::from("/tmp/simple_git_tests/no-such-repo"));
    let message = r.err().unwrap().message().clone();
    assert!(message.starts_with("Failed to open git repo: [/tmp/simple_git_tests/no-such-repo], reason: "));
}

#[test]
fn repository_init_bare_has_no_workdir() {
    let dir = unique_dir("bare");
    let repo = Repository::init_bare(dir).unwrap();
    assert!(repo.workdir().is_none());
}

#[test]
fn repository_discover_and_open_ext_find_the_repo() {
    let (dir, _) = simple_fixture("discover");
    let repo = Repository::discover(dir.clone()).unwrap();
    assert!(!repo.is_empty().unwrap());
    let repo2 = Repository::open_ext(
        dir,
        simple_git::RepositoryOpenFlags::NoSearch,
        Vec::new(),
    )
    .unwrap();
    assert!(!repo2.is_empty().unwrap());
}

#[test]
fn commit_accessors_read_back_the_commit() {
    let (dir, c0) = simple_fixture("commit");
    let repo = Repository::new(dir).unwrap();
    let commit = repo.find_commit(c0.to_string()).unwrap();
    assert_eq!(commit.id(), c0.to_string());
    assert_eq!(commit.message(), Some(String::from("subject line\n\nbody text\n")));
    assert_eq!(commit.summary(), Some(String::from("subject line")));
    assert_eq!(commit.body(), Some(String::from("body text")));
    assert_eq!(
        commit.message_bytes().unwrap(),
        b"subject line\n\nbody text\n".to_vec()
    );
    assert_eq!(commit.parent_count().unwrap(), 0);
    assert!(commit.parent_id(0).is_err());
    assert!(commit.raw_header().unwrap().starts_with("tree "));
    let tree_field = commit.header_field_bytes(String::from("tree")).unwrap();
    assert_eq!(tree_field, commit.tree_id().unwrap().into_bytes());
    assert_eq!(commit.time().unwrap(), 1_600_000_000);
    let author = commit.author().unwrap();
    assert_eq!(author.name(), Some("Tester"));
    assert_eq!(author.email(), Some("tester@example.com"));
    assert_eq!(author.when(), 1_600_000_000);
    let committer = commit.committer().unwrap();
    assert_eq!(committer.name(), Some("Tester"));
}

#[test]
fn commit_parent_is_promoted_to_its_own_handle() {
    let dir = unique_dir("parent");
    let fixture = git2::Repository::init(&dir).unwrap();
    let c0 = add_commit(&fixture, &[], &[("f.txt", "one")], "first", 1000);
    let p0 = fixture.find_commit(c0).unwrap();
    let c1 = add_commit(&fixture, &[&p0], &[("f.txt", "two")], "second", 2000);
    let repo = Repository::new(dir).unwrap();
    let tip = repo.find_commit(c1.to_string()).unwrap();
    assert_eq!(tip.parent_count().unwrap(), 1);
    assert_eq!(tip.parent_id(0).unwrap(), c0.to_string());
    let parent = tip.parent(0).unwrap();
    assert_eq!(parent.id(), c0.to_string());
    assert_eq!(parent.message(), Some(String::from("first")));
    assert!(tip.parent(1).is_err());
}

#[test]
fn commit_amend_rewrites_the_message() {
    let (dir, c0) = simple_fixture("amend");
    let repo = Repository::new(dir).unwrap();
    let commit = repo.find_commit(c0.to_string()).unwrap();
    let amended_id = commit
        .amend(
            Some(String::from("HEAD")),
            None,
            None,
            None,
            Some(String::from("amended message")),
            None,
        )
        .unwrap();
    let amended = repo.find_commit(amended_id).unwrap();
    assert_eq!(amended.message(), Some(String::from("amended message")));
    assert_eq!(amended.tree_id().unwrap(), commit.tree_id().unwrap());
}

#[test]
fn derived_handles_outlive_the_repository_handle() {
    let (dir, c0) = simple_fixture("retention");
    let repo = Repository::new(dir).unwrap();
    let commit = repo.find_commit(c0.to_string()).unwrap();
    drop(repo);
    assert_eq!(commit.summary(), Some(String::from("subject line")));
    let tree = commit.tree().unwrap();
    drop(commit);
    assert_eq!(tree.len().unwrap(), 2);
}

#[test]
fn tree_lookup_by_every_path_kind() {
    let (dir, c0) = simple_fixture("tree");
    let repo = Repository::new(dir).unwrap();
    let commit = repo.find_commit(c0.to_string()).unwrap();
    let tree = commit.tree().unwrap();
    assert_eq!(tree.id(), commit.tree_id().unwrap());
    assert_eq!(tree.len().unwrap(), 2);
    assert!(!tree.is_empty().unwrap());

    let by_name = tree.get_name(String::from("a.txt")).unwrap();
    assert_eq!(by_name.name().unwrap(), "a.txt");
    assert_eq!(by_name.name_bytes(), b"a.txt".to_vec());
    let by_index = tree.get(0).unwrap();
    assert_eq!(by_index.name().unwrap(), "a.txt");
    let by_path = tree.get_path(String::from("b.txt")).unwrap();
    assert_eq!(by_path.name().unwrap(), "b.txt");
    let by_id = tree.get_id(by_name.id()).unwrap();
    assert_eq!(by_id.id(), by_name.id());
    assert!(tree.get_name(String::from("missing.txt")).is_none());
    assert!(tree.get(9).is_none());

    let found = repo.find_tree(tree.id()).unwrap();
    assert_eq!(found.id(), tree.id());
    // The stored id is the canonical (lower-case) form of the id looked up.
    let shouted = repo.find_tree(tree.id().to_uppercase()).unwrap();
    assert_eq!(shouted.id(), tree.id());
    assert!(repo.find_tree(String::from("ff00ff00")).is_none());
}

#[test]
fn tree_iteration_is_single_pass() {
    let (dir, c0) = simple_fixture("iter");
    let repo = Repository::new(dir).unwrap();
    let tree = repo.find_commit(c0.to_string()).unwrap().tree().unwrap();
    let mut cursor = tree.iter();
    let first = cursor.next().unwrap();
    assert_eq!(first.name().unwrap(), "a.txt");
    let second = cursor.next().unwrap();
    assert_eq!(second.name().unwrap(), "b.txt");
    assert!(cursor.next().is_none());
    assert!(cursor.next().is_none());
    assert!(cursor.next().is_none());
}

#[test]
fn tree_entry_converts_back_to_an_object() {
    let (dir, c0) = simple_fixture("entry");
    let repo = Repository::new(dir).unwrap();
    let tree = repo.find_commit(c0.to_string()).unwrap().tree().unwrap();
    let entry = tree.get_name(String::from("a.txt")).unwrap();
    let object = entry.to_object(&repo).unwrap();
    assert_eq!(object.id(), entry.id());
    assert_eq!(object.kind(), Some(ObjectType::Blob));
    let again = repo.tree_entry_to_object(&entry).unwrap();
    assert_eq!(again.id(), entry.id());
}

#[test]
fn blob_content_reads_back() {
    let (dir, c0) = simple_fixture("blob");
    let repo = Repository::new(dir).unwrap();
    let tree = repo.find_commit(c0.to_string()).unwrap().tree().unwrap();
    let entry = tree.get_name(String::from("a.txt")).unwrap();
    let blob = repo.find_blob(entry.id()).unwrap();
    assert_eq!(blob.id(), entry.id());
    assert_eq!(blob.content().unwrap(), b"alpha".to_vec());
    assert_eq!(blob.size().unwrap(), 5);
    assert!(!blob.is_binary().unwrap());
    assert!(repo.find_blob(String::from("ff00ff00")).is_none());
}

#[test]
fn object_peel_reaches_the_tree() {
    let (dir, c0) = simple_fixture("peel");
    let repo = Repository::new(dir).unwrap();
    let commit = repo.find_commit(c0.to_string()).unwrap();
    let object = commit.as_object();
    assert_eq!(object.id(), commit.id());
    assert_eq!(object.kind(), Some(ObjectType::Commit));
    let tree_object = object.peel(ObjectType::Tree).unwrap();
    assert_eq!(tree_object.id(), commit.tree_id().unwrap());
    let bad = object.peel(ObjectType::Tag);
    assert!(bad.err().unwrap().message().starts_with("Peel object failed: "));
}

#[test]
fn head_reference_reports_the_tip() {
    let (dir, c0) = simple_fixture("head");
    let repo = Repository::new(dir).unwrap();
    let head = repo.head().unwrap();
    assert_eq!(head.target(), Some(c0.to_string()));
    assert!(head.is_branch().unwrap());
    assert!(!head.is_tag().unwrap());
    assert!(!head.is_note().unwrap());
    assert!(!head.is_remote().unwrap());
    assert_eq!(head.kind().unwrap(), simple_git::ReferenceType::Direct);
    assert!(head.name().unwrap().starts_with("refs/heads/"));
    assert!(head.symbolic_target().is_none());
    assert!(head.target_peel().is_none());
    let resolved = head.resolve().unwrap();
    assert_eq!(resolved.name(), head.name());
    let tree = head.peel_to_tree().unwrap();
    let commit = repo.find_commit(c0.to_string()).unwrap();
    assert_eq!(tree.id(), commit.tree_id().unwrap());
}

#[test]
fn reference_rename_yields_a_handle_to_the_new_name() {
    let (dir, _) = simple_fixture("rename");
    let repo = Repository::new(dir).unwrap();
    let mut head = repo.head().unwrap();
    let renamed = head
        .rename(String::from("refs/heads/renamed"), true, String::from("renaming"))
        .unwrap();
    assert_eq!(renamed.name(), Some(String::from("refs/heads/renamed")));
    assert!(renamed.is_branch().unwrap());
}

#[test]
fn reference_name_validation() {
    assert!(Reference::is_valid_name(String::from("HEAD")));
    assert!(Reference::is_valid_name(String::from("refs/heads/main")));
    assert!(!Reference::is_valid_name(String::from("main")));
    assert!(!Reference::is_valid_name(String::from("refs/heads/*")));
    assert!(!Reference::is_valid_name(String::from("foo//bar")));
}

#[test]
fn annotated_tag_round_trip() {
    let (dir, c0) = simple_fixture("tag");
    let repo = Repository::new(dir).unwrap();
    let commit = repo.find_commit(c0.to_string()).unwrap();
    let target = commit.as_object();
    let tagger = simple_git::Signature::new(
        String::from("Tagger"),
        String::from("tagger@example.com"),
        1_600_000_100,
    )
    .unwrap();
    let tag_id = repo
        .tag(String::from("v1"), &target, &tagger, String::from("first release"), false)
        .unwrap();
    let tag = repo.find_tag(tag_id.clone()).unwrap();
    assert_eq!(tag.id(), tag_id);
    assert_eq!(tag.name(), Some(String::from("v1")));
    assert_eq!(tag.name_bytes().unwrap(), b"v1".to_vec());
    assert_eq!(tag.message(), Some(String::from("first release")));
    assert_eq!(tag.message_bytes().unwrap(), b"first release".to_vec());
    let peeled = tag.peel().unwrap();
    assert_eq!(peeled.id(), commit.id());

    let by_prefix = repo.find_tag_by_prefix(tag_id[..10].to_string()).unwrap();
    assert_eq!(by_prefix.id(), tag_id);

    let missing = repo.find_tag(String::from("ff00ff00"));
    let message = missing.err().unwrap().message().clone();
    assert!(message.starts_with("Find tag from OID [ff00ff00] failed: "));
}

#[test]
fn lightweight_tags_and_tag_names() {
    let (dir, c0) = simple_fixture("tags");
    let repo = Repository::new(dir).unwrap();
    let commit = repo.find_commit(c0.to_string()).unwrap();
    let target = commit.as_object();
    let target_id = repo
        .tag_lightweight(String::from("light"), &target, false)
        .unwrap();
    assert_eq!(target_id, commit.id());
    let tagger = simple_git::Signature::new(
        String::from("Tagger"),
        String::from("tagger@example.com"),
        1_600_000_100,
    )
    .unwrap();
    let annotation = repo
        .tag_annotation_create(
            String::from("note"),
            &target,
            &tagger,
            String::from("unreferenced"),
        )
        .unwrap();
    assert_ne!(annotation, commit.id());
    let names = repo.tag_names(None).unwrap();
    assert_eq!(names, vec![String::from("light")]);
    repo.tag_delete(String::from("light")).unwrap();
    assert!(repo.tag_names(None).unwrap().is_empty());
    assert!(Tag::is_valid_name(String::from("v1")));
    assert!(!Tag::is_valid_name(String::from("-bad")));
}

#[test]
fn workdir_diff_reports_missing_files_as_deleted() {
    let (dir, c0) = simple_fixture("diff");
    let repo = Repository::new(dir).unwrap();
    let tree = repo.find_commit(c0.to_string()).unwrap().tree().unwrap();
    // The fixture never wrote the files into the working directory, so
    // against the workdir every committed file reads as deleted.
    let diff = repo.diff_tree_to_workdir(Some(&tree)).unwrap();
    let mut deltas = diff.deltas().unwrap();
    assert_eq!(deltas.len(), 2);
    let first = deltas.next().unwrap();
    assert_eq!(first.status(), Delta::Deleted);
    assert_eq!(first.num_files(), 1);
    assert_eq!(first.old_file().path(), Some(String::from("a.txt")));
    assert!(first.old_file().exists_on_side());
    assert!(!first.new_file().exists_on_side());
    let second = deltas.next().unwrap();
    assert_eq!(second.old_file().path(), Some(String::from("b.txt")));
    assert!(deltas.next().is_none());
    assert!(deltas.next().is_none());

    let with_index = repo.diff_tree_to_workdir_with_index(Some(&tree)).unwrap();
    assert_eq!(with_index.deltas().unwrap().len(), 2);
    let _ = diff.is_sorted_icase().unwrap();
}

#[test]
fn merging_a_diff_with_itself_keeps_its_records() {
    let (dir, c0) = simple_fixture("merge-diff");
    let repo = Repository::new(dir).unwrap();
    let tree = repo.find_commit(c0.to_string()).unwrap().tree().unwrap();
    let mut diff = repo.diff_tree_to_workdir(Some(&tree)).unwrap();
    let other = repo.diff_tree_to_workdir(Some(&tree)).unwrap();
    diff.merge(&other).unwrap();
    // The same records appear in both lists, so the merged diff holds each
    // once.
    assert_eq!(diff.deltas().unwrap().len(), 2);
}

#[test]
fn empty_tree_diff_sees_no_records() {
    let dir = unique_dir("nodiff");
    let _fixture = git2::Repository::init(&dir).unwrap();
    let repo = Repository::new(dir).unwrap();
    let diff = repo.diff_tree_to_workdir(None).unwrap();
    assert_eq!(diff.deltas().unwrap().len(), 0);
}
