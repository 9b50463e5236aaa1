use gh::client::{
    head_commit_sha, plan_change, Change, ContentLookup, FileCommit, GitHubClientError, RefTarget,
    GITHUB_APP_EMAIL, GITHUB_APP_NAME,
};
use gh::credential::{AppState, GetOctocrabError};
use gh::routes::{branch_name, fresh_branch_name, CreateIssueBody, CreatePullRequestBody, File, PullRequest};
use gh::workflow::{Action, Event, IssuePhase, Phase, Workflow, WorkflowError};

fn change(path: &str, content: &str) -> Change {
    Change { path: path.to_string(), content: content.to_string() }
}

fn workflow(files: Vec<Change>) -> Workflow {
    Workflow::new(
        "octo".to_string(),
        "hello".to_string(),
        "Fix docs".to_string(),
        "Some fixes".to_string(),
        files,
        "feature/x".to_string(),
    )
}

fn found(sha: &str) -> Event {
    Event::ContentLooked { lookup: ContentLookup::Found { shas: vec![sha.to_string()] } }
}

fn missing() -> Event {
    Event::ContentLooked { lookup: ContentLookup::Missing }
}

/// Runs the workflow up to the creation of its branch, on a default branch
/// main at commit abc123, and returns the action that creates the branch.
fn up_to_branch(w: &mut Workflow) -> Action {
    assert!(matches!(w.first_action(), Action::ObtainCredential { ref owner, ref repo } if owner == "octo" && repo == "hello"));
    assert!(matches!(w.step(Event::CredentialObtained), Action::FetchRepository));
    let a = w.step(Event::RepositoryFetched { default_branch: Some("main".to_string()) });
    assert!(matches!(a, Action::ResolveBranch { ref branch } if branch == "main"));
    w.step(Event::DefaultRefResolved { target: RefTarget::Commit { sha: "abc123".to_string() } })
}

fn expect_commit(a: Action) -> FileCommit {
    match a {
        Action::CommitFile { commit } => commit,
        _ => panic!("expected a commit"),
    }
}

#[test]
fn branch_points_at_default_head() {
    let mut w = workflow(vec![]);
    match up_to_branch(&mut w) {
        Action::CreateBranch { name, sha } => {
            assert_eq!(name, "feature/x");
            assert_eq!(sha, "abc123");
        },
        _ => panic!("expected a branch"),
    }
    assert_eq!(w.phase(), Phase::AwaitBranch);
}

#[test]
fn missing_file_is_created() {
    let c = change("docs/readme.md", "hello");
    let commit = plan_change("feature/x", &c, &ContentLookup::Missing).ok().unwrap();
    assert_eq!(commit.message, "fix: created file docs/readme.md");
    assert_eq!(commit.sha, None);
    assert_eq!(commit.path, "docs/readme.md");
    assert_eq!(commit.content, "hello");
    assert_eq!(commit.branch, "feature/x");
    assert_eq!(commit.author_name, GITHUB_APP_NAME);
    assert_eq!(commit.author_email, GITHUB_APP_EMAIL);
}

#[test]
fn existing_file_is_updated_with_its_hash() {
    let c = change("docs/readme.md", "hello");
    let lookup = ContentLookup::Found { shas: vec!["sha1".to_string(), "sha2".to_string()] };
    let commit = plan_change("feature/x", &c, &lookup).ok().unwrap();
    assert_eq!(commit.message, "fix: updated file docs/readme.md");
    assert_eq!(commit.sha, Some("sha1".to_string()));
    assert_eq!(commit.content, "hello");
}

#[test]
fn found_without_entries_is_unknown() {
    let c = change("a.txt", "x");
    let r = plan_change("b", &c, &ContentLookup::Found { shas: vec![] });
    assert!(matches!(r, Err(GitHubClientError::Unknown)));
}

#[test]
fn no_default_branch_aborts_before_any_mutation() {
    let mut w = workflow(vec![change("a.txt", "x")]);
    assert!(matches!(w.step(Event::CredentialObtained), Action::FetchRepository));
    let a = w.step(Event::RepositoryFetched { default_branch: None });
    let expected = WorkflowError::Client(GitHubClientError::DefaultBranchNotFound);
    assert!(matches!(a, Action::Abort { error } if error == expected));
    assert_eq!(w.phase(), Phase::Failed(expected));
    assert_eq!(expected.status_code(), 404);
    // Nothing further is ever asked of the host.
    assert!(matches!(w.step(Event::BranchCreated), Action::Abort { error } if error == expected));
}

#[test]
fn failed_second_change_stops_the_workflow() {
    let mut w = workflow(vec![change("a.txt", "1"), change("b.txt", "2"), change("c.txt", "3")]);
    assert!(matches!(up_to_branch(&mut w), Action::CreateBranch { .. }));
    let a = w.step(Event::BranchCreated);
    assert!(matches!(a, Action::LookUpContent { ref path } if path == "a.txt"));
    let first = expect_commit(w.step(missing()));
    assert_eq!(first.path, "a.txt");
    let a = w.step(Event::FileCommitted);
    assert!(matches!(a, Action::LookUpContent { ref path } if path == "b.txt"));
    let second = expect_commit(w.step(found("stale")));
    assert_eq!(second.path, "b.txt");
    assert_eq!(second.sha, Some("stale".to_string()));
    let a = w.step(Event::HostFailed);
    let expected = WorkflowError::Client(GitHubClientError::CreateCommit);
    assert!(matches!(a, Action::Abort { error } if error == expected));
    assert_eq!(w.phase(), Phase::Failed(expected));
    // No pull request, and the third change is never attempted.
    assert!(matches!(w.step(Event::FileCommitted), Action::Abort { .. }));
    assert!(matches!(w.step(Event::PullRequestOpened), Action::Abort { .. }));
}

#[test]
fn full_run_commits_in_order_then_opens_pull_request() {
    let mut w = workflow(vec![change("a.txt", "1"), change("b.txt", "2")]);
    assert!(matches!(up_to_branch(&mut w), Action::CreateBranch { .. }));
    assert!(matches!(w.step(Event::BranchCreated), Action::LookUpContent { ref path } if path == "a.txt"));
    let first = expect_commit(w.step(found("s1")));
    assert_eq!((first.path.as_str(), first.message.as_str()), ("a.txt", "fix: updated file a.txt"));
    assert_eq!(w.phase(), Phase::AwaitCommit);
    assert!(matches!(w.step(Event::FileCommitted), Action::LookUpContent { ref path } if path == "b.txt"));
    let second = expect_commit(w.step(missing()));
    assert_eq!((second.path.as_str(), second.message.as_str()), ("b.txt", "fix: created file b.txt"));
    match w.step(Event::FileCommitted) {
        Action::OpenPullRequest { title, body, head, base, maintainer_can_modify } => {
            assert_eq!(title, "Fix docs");
            assert_eq!(body, "Some fixes");
            assert_eq!(head, "feature/x");
            assert_eq!(base, "main");
            assert!(maintainer_can_modify);
        },
        _ => panic!("expected a pull request"),
    }
    assert!(matches!(w.step(Event::PullRequestOpened), Action::Succeeded));
    assert_eq!(w.phase(), Phase::Opened);
}

#[test]
fn no_files_opens_pull_request_after_branch() {
    let mut w = workflow(vec![]);
    assert!(matches!(up_to_branch(&mut w), Action::CreateBranch { .. }));
    assert!(matches!(w.step(Event::BranchCreated), Action::OpenPullRequest { .. }));
}

#[test]
fn pull_request_failure_is_reported() {
    let mut w = workflow(vec![]);
    up_to_branch(&mut w);
    w.step(Event::BranchCreated);
    let a = w.step(Event::HostFailed);
    let expected = WorkflowError::Client(GitHubClientError::CreatePullRequest);
    assert!(matches!(a, Action::Abort { error } if error == expected));
    assert_eq!(expected.status_code(), 500);
}

#[test]
fn default_ref_without_commit_is_refused() {
    let mut w = workflow(vec![]);
    w.step(Event::CredentialObtained);
    w.step(Event::RepositoryFetched { default_branch: Some("main".to_string()) });
    let a = w.step(Event::DefaultRefResolved { target: RefTarget::Other });
    let expected = WorkflowError::Client(GitHubClientError::NoCommitInDefaultBranch);
    assert!(matches!(a, Action::Abort { error } if error == expected));
    assert_eq!(expected.status_code(), 404);
}

#[test]
fn branch_creation_failure_is_reported() {
    let mut w = workflow(vec![]);
    up_to_branch(&mut w);
    let a = w.step(Event::HostFailed);
    assert!(matches!(a, Action::Abort { error: WorkflowError::Client(GitHubClientError::CreateBranch) }));
}

#[test]
fn credential_failure_is_reported() {
    let mut w = workflow(vec![]);
    let a = w.step(Event::CredentialFailed { error: GetOctocrabError::OctocrabError });
    let expected = WorkflowError::Credential(GetOctocrabError::OctocrabError);
    assert!(matches!(a, Action::Abort { error } if error == expected));
    assert_eq!(expected.status_code(), 500);
    assert_eq!(WorkflowError::Credential(GetOctocrabError::InvalidJsonWebToken).status_code(), 400);
}

#[test]
fn unexpected_answer_is_unknown() {
    let mut w = workflow(vec![]);
    let a = w.step(Event::BranchCreated);
    assert!(matches!(a, Action::Abort { error: WorkflowError::Client(GitHubClientError::Unknown) }));
}

#[test]
fn head_sha_of_refs() {
    let r = head_commit_sha(&RefTarget::Commit { sha: "abc123".to_string() });
    assert_eq!(r.ok(), Some("abc123".to_string()));
    assert!(matches!(head_commit_sha(&RefTarget::Other), Err(GitHubClientError::NoCommitInDefaultBranch)));
}

#[test]
fn branch_names() {
    assert_eq!(branch_name("0190"), "fix/prof-tournesol/0190");
    let a = fresh_branch_name();
    let b = fresh_branch_name();
    assert!(a.starts_with("fix/prof-tournesol/"));
    assert_eq!(a.len(), "fix/prof-tournesol/".len() + 36);
    assert_ne!(a, b);
}

#[test]
fn pull_request_body_becomes_workflow() {
    let req = CreatePullRequestBody {
        owner: "octo".to_string(),
        repo: "hello".to_string(),
        pr: PullRequest {
            title: "T".to_string(),
            body: "B".to_string(),
            files: vec![File { path: "p.md".to_string(), content: "c".to_string() }],
        },
    };
    let mut w = req.to_workflow("fix/prof-tournesol/id".to_string());
    assert!(matches!(w.first_action(), Action::ObtainCredential { ref owner, .. } if owner == "octo"));
    up_to_branch(&mut w);
    assert!(matches!(w.step(Event::BranchCreated), Action::LookUpContent { ref path } if path == "p.md"));
    let commit = expect_commit(w.step(missing()));
    assert_eq!(commit.branch, "fix/prof-tournesol/id");
    assert_eq!(commit.content, "c");
    let started = req.start();
    assert_eq!(started.phase(), Phase::AwaitCredential);
}

fn issue_body() -> CreateIssueBody {
    CreateIssueBody {
        title: "Bug".to_string(),
        body: "It broke".to_string(),
        owner: "octo".to_string(),
        repo: "hello".to_string(),
    }
}

#[test]
fn repeated_issue_requests_each_create_an_issue() {
    for _ in 0..2 {
        let mut w = issue_body().to_workflow();
        assert!(matches!(w.first_action(), Action::ObtainCredential { .. }));
        match w.step(Event::CredentialObtained) {
            Action::CreateIssue { title, body } => {
                assert_eq!(title, "Bug");
                assert_eq!(body, "It broke");
            },
            _ => panic!("expected an issue"),
        }
        assert!(matches!(w.step(Event::IssueCreated), Action::Succeeded));
        assert_eq!(w.phase(), IssuePhase::Created);
    }
}

#[test]
fn issue_failure_is_reported() {
    let mut w = issue_body().to_workflow();
    w.step(Event::CredentialObtained);
    let a = w.step(Event::HostFailed);
    assert!(matches!(a, Action::Abort { error: WorkflowError::Client(GitHubClientError::CreateIssue) }));
}

/// A PKCS#1 PEM block whose body is well-formed DER (the sequence of the
/// integers 5 and 3): enough for the key reader, and no real key.
const TEST_KEY: &str = "-----BEGIN RSA PUBLIC KEY-----\nMAYCAQUCAQM=\n-----END RSA PUBLIC KEY-----\n";

#[test]
fn signing_key_accepts_rsa_pem() {
    let state = AppState { github_app_id: 1, github_app_private_key: TEST_KEY.to_string() };
    assert!(state.signing_key().is_ok());
}

#[test]
fn signing_key_refuses_other_text() {
    let state = AppState { github_app_id: 1, github_app_private_key: "not a key".to_string() };
    assert!(matches!(state.signing_key(), Err(GetOctocrabError::InvalidJsonWebToken)));
}
