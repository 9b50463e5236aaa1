use vstd::prelude::*;
use vstd::string::StringExecFns;

verus! {

/// Name of the automation identity that authors every commit.
pub const GITHUB_APP_NAME: &'static str = "Prof. Tournesol";

/// No-reply email bound to the automation identity.
pub const GITHUB_APP_EMAIL: &'static str = "1299312+prof-tournesol[bot]@users.noreply.github.com";

/// Failure kinds of the repository operations.
#[derive(Debug, Clone, Copy, PartialEq, Eq, Structural)]
pub enum GitHubClientError {
    CreateIssue,
    DefaultBranchNotFound,
    NoCommitInDefaultBranch,
    CreateBranch,
    CreateCommit,
    CreatePullRequest,
    Unknown,
}

/// A file change: the full replacement text for one path of the repository.
pub struct Change {
    /// Path to the file in the repository.
    pub path: String,
    /// Content of the file.
    pub content: String,
}

pub struct ChangeModel {
    pub path: Seq<char>,
    pub content: Seq<char>,
}

impl View for Change {
    type V = ChangeModel;

    open spec fn view(&self) -> ChangeModel {
        ChangeModel { path: self.path@, content: self.content@ }
    }
}

/// What a ref of the repository points at.
pub enum RefTarget {
    /// A commit, with its sha.
    Commit { sha: String },
    /// Anything else (an annotated tag, for instance).
    Other,
}

pub enum RefTargetModel {
    Commit { sha: Seq<char> },
    Other,
}

impl View for RefTarget {
    type V = RefTargetModel;

    open spec fn view(&self) -> RefTargetModel {
        match self {
            RefTarget::Commit { sha } => RefTargetModel::Commit { sha: sha@ },
            RefTarget::Other => RefTargetModel::Other,
        }
    }
}

/// What reading a path on the repository's default view gave.
pub enum ContentLookup {
    /// The read failed: no file at that path.
    Missing,
    /// The read succeeded, with the content hash of each matching entry, in order.
    Found { shas: Vec<String> },
}

pub enum ContentLookupModel {
    Missing,
    Found { shas: Seq<Seq<char>> },
}

impl View for ContentLookup {
    type V = ContentLookupModel;

    open spec fn view(&self) -> ContentLookupModel {
        match self {
            ContentLookup::Missing => ContentLookupModel::Missing,
            ContentLookup::Found { shas } => ContentLookupModel::Found {
                shas: shas@.map_values(|s: String| s@),
            },
        }
    }
}

/// A file write ready to be submitted: a create when `sha` is `None`, an
/// update of the blob with that content hash otherwise.
pub struct FileCommit {
    pub branch: String,
    pub path: String,
    pub message: String,
    pub content: String,
    pub sha: Option<String>,
    pub author_name: String,
    pub author_email: String,
}

pub struct FileCommitModel {
    pub branch: Seq<char>,
    pub path: Seq<char>,
    pub message: Seq<char>,
    pub content: Seq<char>,
    pub sha: Option<Seq<char>>,
    pub author_name: Seq<char>,
    pub author_email: Seq<char>,
}

impl View for FileCommit {
    type V = FileCommitModel;

    open spec fn view(&self) -> FileCommitModel {
        FileCommitModel {
            branch: self.branch@,
            path: self.path@,
            message: self.message@,
            content: self.content@,
            sha: match self.sha {
                Some(s) => Some(s@),
                None => None,
            },
            author_name: self.author_name@,
            author_email: self.author_email@,
        }
    }
}

/// Commit message of a write to `path`: an update when the file already
/// exists, a create otherwise.
pub open spec fn commit_message(path: Seq<char>, exists: bool) -> Seq<char> {
    if exists {
        "fix: updated file "@ + path
    } else {
        "fix: created file "@ + path
    }
}

/// The write that puts `change` on `branch`, given what reading its path
/// gave: a create for a missing path, an update carrying the first entry's
/// content hash for a present one, and no write when a successful read
/// listed no entry.
pub open spec fn planned_commit(
    branch: Seq<char>,
    change: ChangeModel,
    lookup: ContentLookupModel,
) -> Result<FileCommitModel, GitHubClientError> {
    match lookup {
        ContentLookupModel::Missing => Ok(
            FileCommitModel {
                branch,
                path: change.path,
                message: commit_message(change.path, false),
                content: change.content,
                sha: None,
                author_name: GITHUB_APP_NAME@,
                author_email: GITHUB_APP_EMAIL@,
            },
        ),
        ContentLookupModel::Found { shas } => if shas.len() == 0 {
            Err(GitHubClientError::Unknown)
        } else {
            Ok(
                FileCommitModel {
                    branch,
                    path: change.path,
                    message: commit_message(change.path, true),
                    content: change.content,
                    sha: Some(shas[0]),
                    author_name: GITHUB_APP_NAME@,
                    author_email: GITHUB_APP_EMAIL@,
                },
            )
        },
    }
}

pub open spec fn result_view(r: Result<FileCommit, GitHubClientError>) -> Result<
    FileCommitModel,
    GitHubClientError,
> {
    match r {
        Ok(c) => Ok(c@),
        Err(e) => Err(e),
    }
}

/// Builds the write that applies `change` to `branch_name`.
pub fn plan_change(branch_name: &str, change: &Change, lookup: &ContentLookup) -> (r: Result<
    FileCommit,
    GitHubClientError,
>)
    ensures
        result_view(r) == planned_commit(branch_name@, change@, lookup@),
{
    let (exists, sha) = match lookup {
        ContentLookup::Missing => (false, None),
        ContentLookup::Found { shas } => {
            if shas.len() == 0 {
                return Err(GitHubClientError::Unknown);
            }
            (true, Some(shas[0].clone()))
        },
    };
    let message = if exists {
        String::from_str("fix: updated file ")
    } else {
        String::from_str("fix: created file ")
    };
    let message = message.concat(change.path.as_str());
    Ok(
        FileCommit {
            branch: String::from_str(branch_name),
            path: change.path.clone(),
            message,
            content: change.content.clone(),
            sha,
            author_name: String::from_str(GITHUB_APP_NAME),
            author_email: String::from_str(GITHUB_APP_EMAIL),
        },
    )
}

/// The head commit of a ref: its sha when it points at a commit.
pub fn head_commit_sha(target: &RefTarget) -> (r: Result<String, GitHubClientError>)
    ensures
        match target@ {
            RefTargetModel::Commit { sha } => r is Ok && r->Ok_0@ == sha,
            RefTargetModel::Other => r == Err::<String, _>(GitHubClientError::NoCommitInDefaultBranch),
        },
{
    match target {
        RefTarget::Commit { sha } => Ok(sha.clone()),
        RefTarget::Other => Err(GitHubClientError::NoCommitInDefaultBranch),
    }
}

} // verus!
