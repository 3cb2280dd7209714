use simple_git::error::{GitError, expect_not_null};
use simple_git::history::{commit_answers, commit_time_millis};
use simple_git::remote::{CredentialType, cred_type_contains};
use simple_git::{DiffFlags, Signature, Sort};

#[test]
fn contextual_error_joins_context_and_reason() {
    let e = GitError::contextual("Failed to open git repo", "no such file");
    assert_eq!(e.message().as_str(), "Failed to open git repo: no such file");
}

#[test]
fn bare_error_uses_fixed_prefix() {
    let e = GitError::bare("boom");
    assert_eq!(e.message().as_str(), "libgit2 error: boom");
}

#[test]
fn expect_not_null_passes_values_through() {
    let r = expect_not_null(Some(41), String::from("missing"));
    assert_eq!(r.unwrap(), 41);
}

#[test]
fn expect_not_null_reports_the_given_message() {
    let r: Result<i32, GitError> = expect_not_null(None, String::from("missing thing"));
    assert_eq!(r.unwrap_err().message().as_str(), "missing thing");
}

#[test]
fn signature_round_trip_keeps_all_fields() {
    let s = Signature::new(
        String::from("Alice Example"),
        String::from("alice@example.com"),
        1_234_567_890,
    )
    .unwrap();
    assert_eq!(s.name(), Some("Alice Example"));
    assert_eq!(s.email(), Some("alice@example.com"));
    assert_eq!(s.when(), 1_234_567_890);
}

#[test]
fn signature_rejects_angle_bracket_in_name() {
    let r = Signature::new(String::from("Al<ce"), String::from("alice@example.com"), 0);
    assert_eq!(
        r.err().unwrap().message().as_str(),
        "libgit2 error: name or email contains angle brackets"
    );
}

#[test]
fn signature_rejects_angle_bracket_in_email() {
    let r = Signature::new(String::from("Alice"), String::from("alice>example.com"), 0);
    assert!(r.is_err());
}

#[test]
fn signature_now_keeps_name_and_email() {
    let s = Signature::now(String::from("Bob"), String::from("bob@example.com")).unwrap();
    assert_eq!(s.name(), Some("Bob"));
    assert_eq!(s.email(), Some("bob@example.com"));
    assert!(s.when() > 1_500_000_000);
}

#[test]
fn sort_flag_and_combination_is_empty() {
    assert_eq!(Sort::Time.bits() & Sort::Topological.bits(), Sort::Unsorted.bits());
    assert_eq!(Sort::Time.bits() & Sort::Topological.bits(), 0);
    assert_eq!(Sort::Time.bits() | Sort::Topological.bits(), 3);
    assert_eq!(Sort::Reverse.bits(), 4);
}

#[test]
fn cred_type_bits_match_the_native_layout() {
    assert_eq!(CredentialType::UserPassPlaintext.bits(), 1);
    assert_eq!(CredentialType::SshKey.bits(), 2);
    assert_eq!(CredentialType::SshCustom.bits(), 4);
    assert_eq!(CredentialType::Default.bits(), 8);
    assert_eq!(CredentialType::SshInteractive.bits(), 16);
    assert_eq!(CredentialType::Username.bits(), 32);
    assert_eq!(CredentialType::SshMemory.bits(), 64);
}

#[test]
fn cred_type_contains_checks_bit_inclusion() {
    assert!(cred_type_contains(
        CredentialType::SshKey,
        CredentialType::SshKey
    ));
    assert!(!cred_type_contains(
        CredentialType::Default,
        CredentialType::SshKey
    ));
}

#[test]
fn cred_type_from_bits_picks_the_matching_type() {
    assert!(matches!(CredentialType::from_bits(64), CredentialType::SshMemory));
    assert!(matches!(CredentialType::from_bits(32), CredentialType::Username));
    assert!(matches!(CredentialType::from_bits(3), CredentialType::Default));
}

#[test]
fn diff_flags_from_bits_falls_back_to_binary() {
    assert!(matches!(DiffFlags::from_bits(2), DiffFlags::NotBinary));
    assert!(matches!(DiffFlags::from_bits(4), DiffFlags::ValidId));
    assert!(matches!(DiffFlags::from_bits(8), DiffFlags::Exists));
    assert!(matches!(DiffFlags::from_bits(1), DiffFlags::Binary));
    assert!(matches!(DiffFlags::from_bits(5), DiffFlags::Binary));
}

#[test]
fn commit_time_millis_multiplies_by_a_thousand() {
    assert_eq!(commit_time_millis(1_234_567_890), Some(1_234_567_890_000));
    assert_eq!(commit_time_millis(-1), Some(-1000));
    assert_eq!(commit_time_millis(i64::MAX), None);
}

#[test]
fn commit_answers_matches_the_query_rule() {
    assert!(commit_answers(1, 1, false));
    assert!(!commit_answers(1, 0, false));
    assert!(commit_answers(0, 0, true));
    assert!(!commit_answers(0, 0, false));
    assert!(!commit_answers(2, 5, true));
}
