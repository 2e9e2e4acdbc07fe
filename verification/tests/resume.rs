use spt::resume::{ResumeDecision, ResumeMatcher};
use spt::syspass::{copy_accounts, Account};

fn account(login: &str) -> Account {
    Account {
        name: "n".to_string(),
        login: login.to_string(),
        category: "c".to_string(),
        client: "k".to_string(),
    }
}

#[test]
fn without_checkpoint_resumes_at_index_zero() {
    let mut matcher = ResumeMatcher::new(None);
    assert_eq!(matcher.should_resume(&account("a")), ResumeDecision::NotResuming);
    assert_eq!(matcher.should_resume(&account("b")), ResumeDecision::NotResuming);
}

#[test]
fn with_checkpoint_skips_through_the_match() {
    let mut matcher = ResumeMatcher::new(Some(account("c")));
    let candidates = ["a", "b", "c", "d", "c", "e"];
    let decisions: Vec<ResumeDecision> =
        candidates.iter().map(|login| matcher.should_resume(&account(login))).collect();
    assert_eq!(
        decisions,
        vec![
            ResumeDecision::Skip,
            ResumeDecision::Skip,
            ResumeDecision::Resume,
            ResumeDecision::NotResuming,
            ResumeDecision::NotResuming,
            ResumeDecision::NotResuming,
        ]
    );
}

#[test]
fn match_needs_all_four_fields() {
    let mut other = account("c");
    other.client = "other".to_string();
    let mut matcher = ResumeMatcher::new(Some(account("c")));
    assert_eq!(matcher.should_resume(&other), ResumeDecision::Skip);
    assert!(!account("c").same_as(&other));
    assert!(account("c").same_as(&account("c")));
}

#[test]
fn copies_are_equal() {
    let accounts = vec![account("a"), account("b")];
    assert_eq!(copy_accounts(&accounts), accounts);
    assert_eq!(account("a").clone(), account("a"));
}
