use vstd::prelude::*;

use crate::client::{
    head_commit_sha, plan_change, Change, ChangeModel, ContentLookup, ContentLookupModel, FileCommit,
    FileCommitModel, GitHubClientError, RefTarget, RefTargetModel, planned_commit,
};
use crate::credential::GetOctocrabError;

verus! {

/// Why a workflow stopped.
#[derive(Debug, Clone, Copy, PartialEq, Eq, Structural)]
pub enum WorkflowError {
    Credential(GetOctocrabError),
    Client(GitHubClientError),
}

/// The HTTP status that reports `e`: 400 for a malformed private key, 404
/// for a default branch that cannot be resolved to a commit, 500 for every
/// other failure.
pub open spec fn status_of(e: WorkflowError) -> u16 {
    match e {
        WorkflowError::Credential(GetOctocrabError::InvalidJsonWebToken) => 400,
        WorkflowError::Client(GitHubClientError::DefaultBranchNotFound) => 404,
        WorkflowError::Client(GitHubClientError::NoCommitInDefaultBranch) => 404,
        _ => 500,
    }
}

impl WorkflowError {
    /// The HTTP status that reports this error.
    pub fn status_code(&self) -> (r: u16)
        ensures
            r == status_of(*self),
    {
        match self {
            WorkflowError::Credential(GetOctocrabError::InvalidJsonWebToken) => 400,
            WorkflowError::Client(GitHubClientError::DefaultBranchNotFound) => 404,
            WorkflowError::Client(GitHubClientError::NoCommitInDefaultBranch) => 404,
            _ => 500,
        }
    }
}

/// Where a branch-commit-pull-request workflow stands.
#[derive(Debug, Clone, Copy, PartialEq, Eq, Structural)]
pub enum Phase {
    /// Waiting for the installation credential.
    AwaitCredential,
    /// Waiting for the repository metadata.
    AwaitRepository,
    /// Waiting for the default branch's ref.
    AwaitDefaultRef,
    /// Waiting for the new branch to be created.
    AwaitBranch,
    /// Waiting for the read of the next file's path.
    AwaitContent,
    /// Waiting for the next file's commit.
    AwaitCommit,
    /// Waiting for the pull request to be opened.
    AwaitPullRequest,
    /// The pull request is open: done.
    Opened,
    /// Stopped on an error: done.
    Failed(WorkflowError),
}

/// What the host answered to the last action.
pub enum Event {
    CredentialObtained,
    CredentialFailed { error: GetOctocrabError },
    RepositoryFetched { default_branch: Option<String> },
    DefaultRefResolved { target: RefTarget },
    BranchCreated,
    ContentLooked { lookup: ContentLookup },
    FileCommitted,
    PullRequestOpened,
    IssueCreated,
    /// The host call of the last action failed.
    HostFailed,
}

pub enum EventModel {
    CredentialObtained,
    CredentialFailed { error: GetOctocrabError },
    RepositoryFetched { default_branch: Option<Seq<char>> },
    DefaultRefResolved { target: RefTargetModel },
    BranchCreated,
    ContentLooked { lookup: ContentLookupModel },
    FileCommitted,
    PullRequestOpened,
    IssueCreated,
    HostFailed,
}

impl View for Event {
    type V = EventModel;

    open spec fn view(&self) -> EventModel {
        match self {
            Event::CredentialObtained => EventModel::CredentialObtained,
            Event::CredentialFailed { error } => EventModel::CredentialFailed { error: *error },
            Event::RepositoryFetched { default_branch } => EventModel::RepositoryFetched {
                default_branch: match default_branch {
                    Some(b) => Some(b@),
                    None => None,
                },
            },
            Event::DefaultRefResolved { target } => EventModel::DefaultRefResolved {
                target: target@,
            },
            Event::BranchCreated => EventModel::BranchCreated,
            Event::ContentLooked { lookup } => EventModel::ContentLooked { lookup: lookup@ },
            Event::FileCommitted => EventModel::FileCommitted,
            Event::PullRequestOpened => EventModel::PullRequestOpened,
            Event::IssueCreated => EventModel::IssueCreated,
            Event::HostFailed => EventModel::HostFailed,
        }
    }
}

/// The next thing to do on the host.
pub enum Action {
    ObtainCredential { owner: String, repo: String },
    FetchRepository,
    ResolveBranch { branch: String },
    CreateBranch { name: String, sha: String },
    LookUpContent { path: String },
    CommitFile { commit: FileCommit },
    OpenPullRequest {
        title: String,
        body: String,
        head: String,
        base: String,
        maintainer_can_modify: bool,
    },
    CreateIssue { title: String, body: String },
    /// Nothing more: what was asked for is done.
    Succeeded,
    /// Nothing more: the workflow stopped on `error`.
    Abort { error: WorkflowError },
}

pub enum ActionModel {
    ObtainCredential { owner: Seq<char>, repo: Seq<char> },
    FetchRepository,
    ResolveBranch { branch: Seq<char> },
    CreateBranch { name: Seq<char>, sha: Seq<char> },
    LookUpContent { path: Seq<char> },
    CommitFile { commit: FileCommitModel },
    OpenPullRequest {
        title: Seq<char>,
        body: Seq<char>,
        head: Seq<char>,
        base: Seq<char>,
        maintainer_can_modify: bool,
    },
    CreateIssue { title: Seq<char>, body: Seq<char> },
    Succeeded,
    Abort { error: WorkflowError },
}

impl View for Action {
    type V = ActionModel;

    open spec fn view(&self) -> ActionModel {
        match self {
            Action::ObtainCredential { owner, repo } => ActionModel::ObtainCredential {
                owner: owner@,
                repo: repo@,
            },
            Action::FetchRepository => ActionModel::FetchRepository,
            Action::ResolveBranch { branch } => ActionModel::ResolveBranch { branch: branch@ },
            Action::CreateBranch { name, sha } => ActionModel::CreateBranch {
                name: name@,
                sha: sha@,
            },
            Action::LookUpContent { path } => ActionModel::LookUpContent { path: path@ },
            Action::CommitFile { commit } => ActionModel::CommitFile { commit: commit@ },
            Action::OpenPullRequest { title, body, head, base, maintainer_can_modify } =>
                ActionModel::OpenPullRequest {
                title: title@,
                body: body@,
                head: head@,
                base: base@,
                maintainer_can_modify: *maintainer_can_modify,
            },
            Action::CreateIssue { title, body } => ActionModel::CreateIssue {
                title: title@,
                body: body@,
            },
            Action::Succeeded => ActionModel::Succeeded,
            Action::Abort { error } => ActionModel::Abort { error: *error },
        }
    }
}

/// The state of a workflow: what was asked for, and how far it got.
pub struct WorkflowModel {
    pub owner: Seq<char>,
    pub repo: Seq<char>,
    pub title: Seq<char>,
    pub body: Seq<char>,
    pub files: Seq<ChangeModel>,
    pub new_branch: Seq<char>,
    /// The default branch, once the repository metadata named it.
    pub base: Seq<char>,
    /// How many file changes were committed.
    pub applied: nat,
    pub phase: Phase,
}

impl WorkflowModel {
    /// Every commit counted is one of the files, a file is read or committed
    /// only while one is left, and the pull request waits for all of them.
    pub open spec fn well_formed(self) -> bool {
        &&& self.applied <= self.files.len()
        &&& (self.phase == Phase::AwaitContent || self.phase == Phase::AwaitCommit)
            ==> self.applied < self.files.len()
        &&& (self.phase == Phase::AwaitPullRequest || self.phase == Phase::Opened)
            ==> self.applied == self.files.len()
        &&& (self.phase == Phase::AwaitCredential || self.phase == Phase::AwaitRepository
            || self.phase == Phase::AwaitDefaultRef || self.phase == Phase::AwaitBranch)
            ==> self.applied == 0
    }

    /// Both states were made for the same request.
    pub open spec fn same_request(self, other: WorkflowModel) -> bool {
        &&& self.owner == other.owner
        &&& self.repo == other.repo
        &&& self.title == other.title
        &&& self.body == other.body
        &&& self.files == other.files
        &&& self.new_branch == other.new_branch
    }
}

/// A workflow that has asked for nothing yet.
pub open spec fn initial(
    owner: Seq<char>,
    repo: Seq<char>,
    title: Seq<char>,
    body: Seq<char>,
    files: Seq<ChangeModel>,
    new_branch: Seq<char>,
) -> WorkflowModel {
    WorkflowModel {
        owner,
        repo,
        title,
        body,
        files,
        new_branch,
        base: Seq::empty(),
        applied: 0,
        phase: Phase::AwaitCredential,
    }
}

pub open spec fn is_initial(s: WorkflowModel) -> bool {
    s == initial(s.owner, s.repo, s.title, s.body, s.files, s.new_branch)
}

pub open spec fn stop(s: WorkflowModel, error: WorkflowError) -> (WorkflowModel, ActionModel) {
    (WorkflowModel { phase: Phase::Failed(error), ..s }, ActionModel::Abort { error })
}

pub open spec fn unexpected(s: WorkflowModel) -> (WorkflowModel, ActionModel) {
    stop(s, WorkflowError::Client(GitHubClientError::Unknown))
}

/// Opens the pull request of the new branch onto the default branch.
pub open spec fn open_pull_request(s: WorkflowModel) -> ActionModel {
    ActionModel::OpenPullRequest {
        title: s.title,
        body: s.body,
        head: s.new_branch,
        base: s.base,
        maintainer_can_modify: true,
    }
}

/// After the first `k` files: read the next one's path, or open the pull
/// request when none is left.
pub open spec fn after_files(s: WorkflowModel, k: nat) -> (WorkflowModel, ActionModel) {
    if k < s.files.len() {
        (
            WorkflowModel { applied: k, phase: Phase::AwaitContent, ..s },
            ActionModel::LookUpContent { path: s.files[k as int].path },
        )
    } else {
        (WorkflowModel { applied: k, phase: Phase::AwaitPullRequest, ..s }, open_pull_request(s))
    }
}

/// One transition: the state and the action that follow `e` in state `s`.
pub open spec fn next(s: WorkflowModel, e: EventModel) -> (WorkflowModel, ActionModel) {
    match s.phase {
        Phase::AwaitCredential => match e {
            EventModel::CredentialObtained => (
                WorkflowModel { phase: Phase::AwaitRepository, ..s },
                ActionModel::FetchRepository,
            ),
            EventModel::CredentialFailed { error } => stop(s, WorkflowError::Credential(error)),
            _ => unexpected(s),
        },
        Phase::AwaitRepository => match e {
            EventModel::RepositoryFetched { default_branch } => match default_branch {
                Some(name) => (
                    WorkflowModel { base: name, phase: Phase::AwaitDefaultRef, ..s },
                    ActionModel::ResolveBranch { branch: name },
                ),
                None => stop(s, WorkflowError::Client(GitHubClientError::DefaultBranchNotFound)),
            },
            _ => unexpected(s),
        },
        Phase::AwaitDefaultRef => match e {
            EventModel::DefaultRefResolved { target } => match target {
                RefTargetModel::Commit { sha } => (
                    WorkflowModel { phase: Phase::AwaitBranch, ..s },
                    ActionModel::CreateBranch { name: s.new_branch, sha },
                ),
                RefTargetModel::Other => stop(
                    s,
                    WorkflowError::Client(GitHubClientError::NoCommitInDefaultBranch),
                ),
            },
            _ => unexpected(s),
        },
        Phase::AwaitBranch => match e {
            EventModel::BranchCreated => after_files(s, 0),
            EventModel::HostFailed => stop(
                s,
                WorkflowError::Client(GitHubClientError::CreateBranch),
            ),
            _ => unexpected(s),
        },
        Phase::AwaitContent => match e {
            EventModel::ContentLooked { lookup } => match planned_commit(
                s.new_branch,
                s.files[s.applied as int],
                lookup,
            ) {
                Ok(commit) => (
                    WorkflowModel { phase: Phase::AwaitCommit, ..s },
                    ActionModel::CommitFile { commit },
                ),
                Err(error) => stop(s, WorkflowError::Client(error)),
            },
            _ => unexpected(s),
        },
        Phase::AwaitCommit => match e {
            EventModel::FileCommitted => after_files(s, s.applied + 1),
            EventModel::HostFailed => stop(
                s,
                WorkflowError::Client(GitHubClientError::CreateCommit),
            ),
            _ => unexpected(s),
        },
        Phase::AwaitPullRequest => match e {
            EventModel::PullRequestOpened => (
                WorkflowModel { phase: Phase::Opened, ..s },
                ActionModel::Succeeded,
            ),
            EventModel::HostFailed => stop(
                s,
                WorkflowError::Client(GitHubClientError::CreatePullRequest),
            ),
            _ => unexpected(s),
        },
        Phase::Opened => (s, ActionModel::Succeeded),
        Phase::Failed(error) => (s, ActionModel::Abort { error }),
    }
}

/// What changes as a workflow advances.
struct Progress {
    phase: Phase,
    applied: usize,
    base: String,
}

/// A branch-commit-pull-request workflow on one repository. Each call of
/// `step` takes the host's answer to the last action and gives the next one.
pub struct Workflow {
    owner: String,
    repo: String,
    title: String,
    body: String,
    files: Vec<Change>,
    new_branch: String,
    progress: Progress,
}

impl View for Workflow {
    type V = WorkflowModel;

    closed spec fn view(&self) -> WorkflowModel {
        WorkflowModel {
            owner: self.owner@,
            repo: self.repo@,
            title: self.title@,
            body: self.body@,
            files: self.files@.map_values(|c: Change| c@),
            new_branch: self.new_branch@,
            base: self.progress.base@,
            applied: self.progress.applied as nat,
            phase: self.progress.phase,
        }
    }
}

impl Workflow {
    #[verifier::type_invariant]
    spec fn inv(self) -> bool {
        self@.well_formed()
    }

    /// A workflow that will put `files` on a new branch `new_branch` of
    /// `owner`/`repo` and open a pull request titled `title`.
    pub fn new(
        owner: String,
        repo: String,
        title: String,
        body: String,
        files: Vec<Change>,
        new_branch: String,
    ) -> (w: Workflow)
        ensures
            w@ == initial(
                owner@,
                repo@,
                title@,
                body@,
                files@.map_values(|c: Change| c@),
                new_branch@,
            ),
    {
        Workflow {
            owner,
            repo,
            title,
            body,
            files,
            new_branch,
            progress: Progress { phase: Phase::AwaitCredential, applied: 0, base: String::new() },
        }
    }

    /// The state, with the invariant that every workflow keeps.
    pub fn phase(&self) -> (p: Phase)
        ensures
            p == self@.phase,
            self@.well_formed(),
    {
        proof {
            use_type_invariant(self);
        }
        self.progress.phase
    }

    /// The action that starts a workflow: a credential for its repository.
    pub fn first_action(&self) -> (a: Action)
        ensures
            a@ == (ActionModel::ObtainCredential { owner: self@.owner, repo: self@.repo }),
    {
        Action::ObtainCredential { owner: self.owner.clone(), repo: self.repo.clone() }
    }

    fn pull_request_action(&self) -> (a: Action)
        ensures
            a@ == open_pull_request(self@),
    {
        Action::OpenPullRequest {
            title: self.title.clone(),
            body: self.body.clone(),
            head: self.new_branch.clone(),
            base: self.progress.base.clone(),
            maintainer_can_modify: true,
        }
    }

    fn fail(&mut self, error: WorkflowError) -> (a: Action)
        ensures
            (final(self)@, a@) == stop(old(self)@, error),
    {
        proof {
            use_type_invariant(&*self);
        }
        self.progress.phase = Phase::Failed(error);
        Action::Abort { error }
    }

    fn advance_files(&mut self, k: usize) -> (a: Action)
        requires
            k <= old(self)@.files.len(),
        ensures
            (final(self)@, a@) == after_files(old(self)@, k as nat),
    {
        proof {
            use_type_invariant(&*self);
        }
        let mut base = String::new();
        std::mem::swap(&mut base, &mut self.progress.base);
        if k < self.files.len() {
            self.progress = Progress { phase: Phase::AwaitContent, applied: k, base };
            Action::LookUpContent { path: self.files[k].path.clone() }
        } else {
            self.progress = Progress { phase: Phase::AwaitPullRequest, applied: k, base };
            self.pull_request_action()
        }
    }

    /// Takes the host's answer to the last action and gives the next action.
    pub fn step(&mut self, e: Event) -> (a: Action)
        ensures
            (final(self)@, a@) == next(old(self)@, e@),
    {
        proof {
            use_type_invariant(&*self);
        }
        match self.progress.phase {
            Phase::AwaitCredential => match e {
                Event::CredentialObtained => {
                    self.progress.phase = Phase::AwaitRepository;
                    Action::FetchRepository
                },
                Event::CredentialFailed { error } => self.fail(WorkflowError::Credential(error)),
                _ => self.fail(WorkflowError::Client(GitHubClientError::Unknown)),
            },
            Phase::AwaitRepository => match e {
                Event::RepositoryFetched { default_branch } => match default_branch {
                    Some(name) => {
                        let branch = name.clone();
                        let applied = self.progress.applied;
                        self.progress = Progress { phase: Phase::AwaitDefaultRef, applied, base: name };
                        Action::ResolveBranch { branch }
                    },
                    None => self.fail(WorkflowError::Client(GitHubClientError::DefaultBranchNotFound)),
                },
                _ => self.fail(WorkflowError::Client(GitHubClientError::Unknown)),
            },
            Phase::AwaitDefaultRef => match e {
                Event::DefaultRefResolved { target } => match head_commit_sha(&target) {
                    Ok(sha) => {
                        self.progress.phase = Phase::AwaitBranch;
                        Action::CreateBranch { name: self.new_branch.clone(), sha }
                    },
                    Err(error) => self.fail(WorkflowError::Client(error)),
                },
                _ => self.fail(WorkflowError::Client(GitHubClientError::Unknown)),
            },
            Phase::AwaitBranch => match e {
                Event::BranchCreated => self.advance_files(0),
                Event::HostFailed => self.fail(WorkflowError::Client(GitHubClientError::CreateBranch)),
                _ => self.fail(WorkflowError::Client(GitHubClientError::Unknown)),
            },
            Phase::AwaitContent => match e {
                Event::ContentLooked { lookup } => {
                    let k = self.progress.applied;
                    match plan_change(self.new_branch.as_str(), &self.files[k], &lookup) {
                        Ok(commit) => {
                            self.progress.phase = Phase::AwaitCommit;
                            Action::CommitFile { commit }
                        },
                        Err(error) => self.fail(WorkflowError::Client(error)),
                    }
                },
                _ => self.fail(WorkflowError::Client(GitHubClientError::Unknown)),
            },
            Phase::AwaitCommit => match e {
                Event::FileCommitted => {
                    let n = self.files.len();
                    assert(self.progress.applied < n);
                    self.advance_files(self.progress.applied + 1)
                },
                Event::HostFailed => self.fail(WorkflowError::Client(GitHubClientError::CreateCommit)),
                _ => self.fail(WorkflowError::Client(GitHubClientError::Unknown)),
            },
            Phase::AwaitPullRequest => match e {
                Event::PullRequestOpened => {
                    self.progress.phase = Phase::Opened;
                    Action::Succeeded
                },
                Event::HostFailed => self.fail(
                    WorkflowError::Client(GitHubClientError::CreatePullRequest),
                ),
                _ => self.fail(WorkflowError::Client(GitHubClientError::Unknown)),
            },
            Phase::Opened => Action::Succeeded,
            Phase::Failed(error) => Action::Abort { error },
        }
    }
}

/// The state reached from `s` after the answers `events`, in order.
pub open spec fn run(s: WorkflowModel, events: Seq<EventModel>) -> WorkflowModel
    decreases events.len(),
{
    if events.len() == 0 {
        s
    } else {
        next(run(s, events.drop_last()), events.last()).0
    }
}

/// The action given in answer to `events[i]`.
pub open spec fn action_at(s: WorkflowModel, events: Seq<EventModel>, i: int) -> ActionModel {
    next(run(s, events.take(i)), events[i]).1
}

/// The file writes submitted along `events`, in the order they were asked for.
pub open spec fn commits(s: WorkflowModel, events: Seq<EventModel>) -> Seq<FileCommitModel>
    decreases events.len(),
{
    if events.len() == 0 {
        Seq::empty()
    } else {
        let before = commits(s, events.drop_last());
        match next(run(s, events.drop_last()), events.last()).1 {
            ActionModel::CommitFile { commit } => before.push(commit),
            _ => before,
        }
    }
}

/// `events[j]` is the host's success answer to the commit of file `k`.
pub open spec fn commit_completed(s: WorkflowModel, events: Seq<EventModel>, j: int, k: int) -> bool {
    &&& events[j] is FileCommitted
    &&& run(s, events.take(j)).phase == Phase::AwaitCommit
    &&& run(s, events.take(j)).applied == k
}

/// Some answer before `events[n]` reported the commit of file `k` as done.
pub open spec fn commit_completed_before(s: WorkflowModel, events: Seq<EventModel>, n: int, k: int) -> bool {
    exists|j: int| 0 <= j < n && #[trigger] commit_completed(s, events, j, k)
}

/// A transition keeps the request and the invariant.
pub proof fn lemma_next_well_formed(s: WorkflowModel, e: EventModel)
    requires
        s.well_formed(),
    ensures
        next(s, e).0.well_formed(),
        next(s, e).0.same_request(s),
{
}

/// Every state reached from a fresh workflow keeps its request and the invariant.
pub proof fn lemma_run_well_formed(s: WorkflowModel, events: Seq<EventModel>)
    requires
        s.well_formed(),
    ensures
        run(s, events).well_formed(),
        run(s, events).same_request(s),
    decreases events.len(),
{
    if events.len() > 0 {
        lemma_run_well_formed(s, events.drop_last());
        lemma_next_well_formed(run(s, events.drop_last()), events.last());
    }
}

proof fn lemma_take_step(events: Seq<EventModel>, n: int)
    requires
        0 <= n < events.len(),
    ensures
        events.take(n + 1).drop_last() == events.take(n),
        events.take(n + 1).last() == events[n],
        events.take(n + 1).len() == n + 1,
{
    assert(events.take(n + 1).drop_last() =~= events.take(n));
}

/// A new branch is created only in answer to the default branch's ref, when
/// that ref points at a commit, and the branch starts at exactly that commit.
pub proof fn lemma_branch_at_default_head(s: WorkflowModel, e: EventModel)
    requires
        next(s, e).1 is CreateBranch,
    ensures
        s.phase == Phase::AwaitDefaultRef,
        next(s, e).1 matches ActionModel::CreateBranch { name, sha } && name == s.new_branch
            && e == (EventModel::DefaultRefResolved { target: RefTargetModel::Commit { sha } }),
{
}

/// File changes are submitted one at a time, in the order of the request:
/// the writes asked for along any run are those of the first files, each on
/// the new branch, and a write is asked for only once the one before it was
/// committed, so at most one is ever outstanding.
pub proof fn lemma_files_committed_in_order(s: WorkflowModel, events: Seq<EventModel>)
    requires
        is_initial(s),
    ensures
        commits(s, events).len() <= s.files.len(),
        forall|m: int|
            0 <= m < commits(s, events).len() ==> {
                &&& #[trigger] commits(s, events)[m].path == s.files[m].path
                &&& commits(s, events)[m].content == s.files[m].content
                &&& commits(s, events)[m].branch == s.new_branch
            },
        run(s, events).phase == Phase::AwaitCommit ==> commits(s, events).len() == run(
            s,
            events,
        ).applied + 1,
        run(s, events).phase is Failed ==> commits(s, events).len() == run(s, events).applied
            || commits(s, events).len() == run(s, events).applied + 1,
        run(s, events).phase != Phase::AwaitCommit && run(s, events).phase !is Failed
            ==> commits(s, events).len() == run(s, events).applied,
    decreases events.len(),
{
    if events.len() > 0 {
        let before = events.drop_last();
        lemma_files_committed_in_order(s, before);
        lemma_run_well_formed(s, before);
        let t = run(s, before);
        let c = commits(s, before);
        let a = next(t, events.last()).1;
        if let ActionModel::CommitFile { commit } = a {
            assert(t.phase == Phase::AwaitContent);
            assert(commits(s, events) == c.push(commit));
            assert(commit.path == s.files[c.len() as int].path);
            assert forall|m: int| 0 <= m < commits(s, events).len() implies {
                &&& #[trigger] commits(s, events)[m].path == s.files[m].path
                &&& commits(s, events)[m].content == s.files[m].content
                &&& commits(s, events)[m].branch == s.new_branch
            } by {
                if m < c.len() {
                    assert(commits(s, events)[m] == c[m]);
                }
            }
        } else {
            assert(commits(s, events) == c);
        }
    }
}

/// Every file change counted as committed got its success answer earlier in the run.
proof fn lemma_commits_witnessed(s: WorkflowModel, events: Seq<EventModel>, n: int)
    requires
        is_initial(s),
        0 <= n <= events.len(),
    ensures
        forall|k: int|
            0 <= k < run(s, events.take(n)).applied ==> #[trigger] commit_completed_before(
                s,
                events,
                n,
                k,
            ),
    decreases n,
{
    if n > 0 {
        lemma_commits_witnessed(s, events, n - 1);
        lemma_take_step(events, n - 1);
        lemma_run_well_formed(s, events.take(n - 1));
        let t = run(s, events.take(n - 1));
        assert(run(s, events.take(n)) == next(t, events[n - 1]).0);
        assert forall|k: int| 0 <= k < run(s, events.take(n)).applied implies #[trigger] commit_completed_before(s, events, n, k) by {
            if k < t.applied {
                assert(commit_completed_before(s, events, n - 1, k));
                let j = choose|j: int| 0 <= j < n - 1 && #[trigger] commit_completed(s, events, j, k);
                assert(commit_completed(s, events, j, k));
            } else {
                assert(commit_completed(s, events, n - 1, k));
            }
        }
    } else {
        assert(events.take(0) =~= Seq::<EventModel>::empty());
    }
}

/// A pull request is opened only after every requested file change was
/// committed: for each file, an answer at or before the one that leads to the
/// pull request reported its commit as done.
pub proof fn lemma_pull_request_after_all_commits(
    s: WorkflowModel,
    events: Seq<EventModel>,
    i: int,
    k: int,
)
    requires
        is_initial(s),
        0 <= i < events.len(),
        action_at(s, events, i) is OpenPullRequest,
        0 <= k < s.files.len(),
    ensures
        exists|j: int| 0 <= j <= i && #[trigger] commit_completed(s, events, j, k),
{
    lemma_commits_witnessed(s, events, i);
    lemma_run_well_formed(s, events.take(i));
    let t = run(s, events.take(i));
    if k < t.applied {
        assert(commit_completed_before(s, events, i, k));
        let j = choose|j: int| 0 <= j < i && #[trigger] commit_completed(s, events, j, k);
        assert(commit_completed(s, events, j, k));
    } else {
        assert(commit_completed(s, events, i, k));
    }
}

/// A stopped workflow stays stopped: whatever answers follow, its state is
/// unchanged and every action it gives is to abort with the same error, so
/// no later file change or pull request is ever attempted.
pub proof fn lemma_failure_is_final(s: WorkflowModel, events: Seq<EventModel>, i: int)
    requires
        s.phase is Failed,
        0 <= i < events.len(),
    ensures
        run(s, events) == s,
        action_at(s, events, i) == (ActionModel::Abort { error: s.phase->Failed_0 }),
{
    lemma_failed_run_unchanged(s, events);
    lemma_failed_run_unchanged(s, events.take(i));
}

proof fn lemma_failed_run_unchanged(s: WorkflowModel, events: Seq<EventModel>)
    requires
        s.phase is Failed,
    ensures
        run(s, events) == s,
    decreases events.len(),
{
    if events.len() > 0 {
        lemma_failed_run_unchanged(s, events.drop_last());
    }
}

/// Where an issue workflow stands.
#[derive(Debug, Clone, Copy, PartialEq, Eq, Structural)]
pub enum IssuePhase {
    AwaitCredential,
    AwaitIssue,
    Created,
    Failed(WorkflowError),
}

pub struct IssueModel {
    pub owner: Seq<char>,
    pub repo: Seq<char>,
    pub title: Seq<char>,
    pub body: Seq<char>,
    pub phase: IssuePhase,
}

pub open spec fn issue_initial(
    owner: Seq<char>,
    repo: Seq<char>,
    title: Seq<char>,
    body: Seq<char>,
) -> IssueModel {
    IssueModel { owner, repo, title, body, phase: IssuePhase::AwaitCredential }
}

pub open spec fn issue_stop(s: IssueModel, error: WorkflowError) -> (IssueModel, ActionModel) {
    (IssueModel { phase: IssuePhase::Failed(error), ..s }, ActionModel::Abort { error })
}

/// One transition of an issue workflow.
pub open spec fn issue_next(s: IssueModel, e: EventModel) -> (IssueModel, ActionModel) {
    match s.phase {
        IssuePhase::AwaitCredential => match e {
            EventModel::CredentialObtained => (
                IssueModel { phase: IssuePhase::AwaitIssue, ..s },
                ActionModel::CreateIssue { title: s.title, body: s.body },
            ),
            EventModel::CredentialFailed { error } => issue_stop(s, WorkflowError::Credential(error)),
            _ => issue_stop(s, WorkflowError::Client(GitHubClientError::Unknown)),
        },
        IssuePhase::AwaitIssue => match e {
            EventModel::IssueCreated => (
                IssueModel { phase: IssuePhase::Created, ..s },
                ActionModel::Succeeded,
            ),
            EventModel::HostFailed => issue_stop(s, WorkflowError::Client(GitHubClientError::CreateIssue)),
            _ => issue_stop(s, WorkflowError::Client(GitHubClientError::Unknown)),
        },
        IssuePhase::Created => (s, ActionModel::Succeeded),
        IssuePhase::Failed(error) => (s, ActionModel::Abort { error }),
    }
}

/// Opens one issue on one repository: a credential, then the issue.
pub struct IssueWorkflow {
    owner: String,
    repo: String,
    title: String,
    body: String,
    phase: IssuePhase,
}

impl View for IssueWorkflow {
    type V = IssueModel;

    closed spec fn view(&self) -> IssueModel {
        IssueModel {
            owner: self.owner@,
            repo: self.repo@,
            title: self.title@,
            body: self.body@,
            phase: self.phase,
        }
    }
}

impl IssueWorkflow {
    pub fn new(owner: String, repo: String, title: String, body: String) -> (w: IssueWorkflow)
        ensures
            w@ == issue_initial(owner@, repo@, title@, body@),
    {
        IssueWorkflow { owner, repo, title, body, phase: IssuePhase::AwaitCredential }
    }

    pub fn phase(&self) -> (p: IssuePhase)
        ensures
            p == self@.phase,
    {
        self.phase
    }

    /// The action that starts the workflow: a credential for its repository.
    pub fn first_action(&self) -> (a: Action)
        ensures
            a@ == (ActionModel::ObtainCredential { owner: self@.owner, repo: self@.repo }),
    {
        Action::ObtainCredential { owner: self.owner.clone(), repo: self.repo.clone() }
    }

    /// Takes the host's answer to the last action and gives the next action.
    pub fn step(&mut self, e: Event) -> (a: Action)
        ensures
            (final(self)@, a@) == issue_next(old(self)@, e@),
    {
        match self.phase {
            IssuePhase::AwaitCredential => match e {
                Event::CredentialObtained => {
                    self.phase = IssuePhase::AwaitIssue;
                    Action::CreateIssue { title: self.title.clone(), body: self.body.clone() }
                },
                Event::CredentialFailed { error } => {
                    let error = WorkflowError::Credential(error);
                    self.phase = IssuePhase::Failed(error);
                    Action::Abort { error }
                },
                _ => {
                    let error = WorkflowError::Client(GitHubClientError::Unknown);
                    self.phase = IssuePhase::Failed(error);
                    Action::Abort { error }
                },
            },
            IssuePhase::AwaitIssue => match e {
                Event::IssueCreated => {
                    self.phase = IssuePhase::Created;
                    Action::Succeeded
                },
                Event::HostFailed => {
                    let error = WorkflowError::Client(GitHubClientError::CreateIssue);
                    self.phase = IssuePhase::Failed(error);
                    Action::Abort { error }
                },
                _ => {
                    let error = WorkflowError::Client(GitHubClientError::Unknown);
                    self.phase = IssuePhase::Failed(error);
                    Action::Abort { error }
                },
            },
            IssuePhase::Created => Action::Succeeded,
            IssuePhase::Failed(error) => Action::Abort { error },
        }
    }
}

} // verus!
