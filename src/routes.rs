use vstd::prelude::*;
use vstd::string::StringExecFns;

use crate::client::{Change, ChangeModel};
use crate::workflow::{initial, IssueWorkflow, Workflow, issue_initial};

verus! {

/// Route that opens an issue.
pub struct CreateIssuePath;

/// Route that opens a pull request with file changes.
pub struct CreatePullRequestPath;

/// Route that reports the service as up.
pub struct HealthPath;

/// Body of an issue request.
pub struct CreateIssueBody {
    pub title: String,
    pub body: String,
    pub owner: String,
    pub repo: String,
}

/// Body of a pull request request.
pub struct CreatePullRequestBody {
    pub owner: String,
    pub repo: String,
    pub pr: PullRequest,
}

/// The pull request asked for, with the files it changes, in order.
pub struct PullRequest {
    pub title: String,
    pub body: String,
    pub files: Vec<File>,
}

/// One file of a pull request request.
pub struct File {
    /// Path to the file in the repository
    pub path: String,
    /// Content of the file
    pub content: String,
}

pub open spec fn file_change(f: File) -> ChangeModel {
    ChangeModel { path: f.path@, content: f.content@ }
}

/// Name of the branch that carries the changes of one request.
pub open spec fn branch_name_for(id: Seq<char>) -> Seq<char> {
    "fix/prof-tournesol/"@ + id
}

pub open spec fn is_id_char(c: char) -> bool {
    ('0' <= c && c <= '9') || ('a' <= c && c <= 'f') || c == '-'
}

/// Relies on uuid::Uuid::now_v7 and its hyphenated lower-case text form:
/// 36 characters, hex digits and hyphens. Each call gives a new value,
/// ordered by creation time.
#[verifier::external_body]
fn time_ordered_id() -> (r: String)
    ensures
        r@.len() == 36,
        forall|i: int| 0 <= i < 36 ==> is_id_char(#[trigger] r@[i]),
{
    uuid::Uuid::now_v7().to_string()
}

/// The branch name for the identifier `id`.
pub fn branch_name(id: &str) -> (r: String)
    ensures
        r@ == branch_name_for(id@),
{
    String::from_str("fix/prof-tournesol/").concat(id)
}

/// A branch name that no other request gets.
pub fn fresh_branch_name() -> (r: String)
    ensures
        exists|id: Seq<char>|
            id.len() == 36 && (forall|i: int| 0 <= i < 36 ==> is_id_char(#[trigger] id[i]))
                && r@ == branch_name_for(id),
{
    let id = time_ordered_id();
    branch_name(id.as_str())
}

impl File {
    /// The change that writes this file.
    pub fn to_change(&self) -> (c: Change)
        ensures
            c@ == file_change(*self),
    {
        Change { path: self.path.clone(), content: self.content.clone() }
    }
}

impl CreatePullRequestBody {
    /// The workflow that carries out this request on a branch named `new_branch`.
    pub fn to_workflow(&self, new_branch: String) -> (w: Workflow)
        ensures
            w@ == initial(
                self.owner@,
                self.repo@,
                self.pr.title@,
                self.pr.body@,
                self.pr.files@.map_values(|f: File| file_change(f)),
                new_branch@,
            ),
    {
        let mut changes: Vec<Change> = Vec::new();
        let n = self.pr.files.len();
        let mut i: usize = 0;
        while i < n
            invariant
                n == self.pr.files@.len(),
                i <= n,
                changes@.len() == i,
                forall|j: int| 0 <= j < i ==> #[trigger] changes@[j]@ == file_change(self.pr.files@[j]),
            decreases n - i,
        {
            changes.push(self.pr.files[i].to_change());
            i = i + 1;
        }
        assert(changes@.map_values(|c: Change| c@) =~= self.pr.files@.map_values(|f: File| file_change(f)));
        Workflow::new(
            self.owner.clone(),
            self.repo.clone(),
            self.pr.title.clone(),
            self.pr.body.clone(),
            changes,
            new_branch,
        )
    }

    /// The workflow for this request, on a fresh branch.
    pub fn start(&self) -> (w: Workflow)
        ensures
            exists|id: Seq<char>|
                id.len() == 36 && w@ == initial(
                    self.owner@,
                    self.repo@,
                    self.pr.title@,
                    self.pr.body@,
                    self.pr.files@.map_values(|f: File| file_change(f)),
                    branch_name_for(id),
                ),
    {
        let name = fresh_branch_name();
        self.to_workflow(name)
    }
}

impl CreateIssueBody {
    /// The workflow that opens this issue.
    pub fn to_workflow(&self) -> (w: IssueWorkflow)
        ensures
            w@ == issue_initial(self.owner@, self.repo@, self.title@, self.body@),
    {
        IssueWorkflow::new(self.owner.clone(), self.repo.clone(), self.title.clone(), self.body.clone())
    }
}

} // verus!
