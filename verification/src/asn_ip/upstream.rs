//! The local mirror of the upstream repository: where it lives, how its
//! failures are classified, and which files an update reports as changed.

use crate::asn_ip::sync::{start, Goal, Run};
use crate::text::{decimal_string, decimal_text, lemma_decimal_text_is_one_to_one};
use vstd::prelude::*;
use vstd::string::*;

verus! {

/// The address the mirror is cloned from.
pub const REPO_URL: &'static str = "https://github.com/ipverse/asn-ip";

/// The name under which the mirror knows that address.
pub const REMOTE_NAME: &'static str = "origin";

/// The branch that is fetched.
pub const BRANCH: &'static str = "main";

/// Where the mirror lives, below the state directory of the platform.
pub const ASN_IP_SUBDIR: &'static str = "ipverse-mcp/asn-ip";

/// The reference that a fetch leaves behind.
pub const FETCH_MARKER: &'static str = "FETCH_HEAD";

/// The classes of failure that callers can tell apart.
#[derive(Clone, Copy, Debug, PartialEq, Eq, Structural)]
pub enum ErrorKind {
    /// The network, a clone or a fetch failed.
    Transport,
    /// The repository is not in the state that the last operation should have left.
    RepositoryState,
    /// The file system refused, or the platform names no state directory.
    Io,
    /// No file exists for the identifier asked for.
    NotFound,
    /// A file does not hold a record.
    Parse,
}

/// The version-control operations that can fail.
#[derive(Clone, Copy, Debug, PartialEq, Eq, Structural)]
pub enum GitOperation {
    Clone,
    Fetch,
    ResolveFetchHead,
    Diff,
    Merge,
}

/// A failure of one version-control operation, with the text it reported.
#[derive(Debug, PartialEq, Eq)]
pub struct GitFailure {
    pub operation: GitOperation,
    pub message: String,
}

/// What can go wrong while the mirror is located, provisioned or updated.
#[derive(Debug, PartialEq, Eq)]
pub enum UpstreamError {
    GitError(GitFailure),
    IoError(String),
    HomeDirNotFound,
}

/// An [`UpstreamError`] with its texts as sequences of characters.
pub enum UpstreamErrorView {
    GitError { operation: GitOperation, message: Seq<char> },
    IoError { message: Seq<char> },
    HomeDirNotFound,
}

impl View for UpstreamError {
    type V = UpstreamErrorView;

    open spec fn view(&self) -> UpstreamErrorView {
        match *self {
            UpstreamError::GitError(failure) => UpstreamErrorView::GitError {
                operation: failure.operation,
                message: failure.message@,
            },
            UpstreamError::IoError(message) => UpstreamErrorView::IoError { message: message@ },
            UpstreamError::HomeDirNotFound => UpstreamErrorView::HomeDirNotFound,
        }
    }
}

/// The class of a version-control failure: cloning and fetching reach the
/// network, every later operation works on what is already on disk.
pub open spec fn git_error_kind(operation: GitOperation) -> ErrorKind {
    match operation {
        GitOperation::Clone | GitOperation::Fetch => ErrorKind::Transport,
        GitOperation::ResolveFetchHead | GitOperation::Diff | GitOperation::Merge =>
            ErrorKind::RepositoryState,
    }
}

/// The class of an error.
pub open spec fn error_kind(error: UpstreamErrorView) -> ErrorKind {
    match error {
        UpstreamErrorView::GitError { operation, .. } => git_error_kind(operation),
        UpstreamErrorView::IoError { .. } => ErrorKind::Io,
        UpstreamErrorView::HomeDirNotFound => ErrorKind::Io,
    }
}

/// The text of an error.
pub open spec fn error_text(error: UpstreamErrorView) -> Seq<char> {
    match error {
        UpstreamErrorView::GitError { message, .. } => "Git operation failed: "@ + message,
        UpstreamErrorView::IoError { message } => "IO operation failed: "@ + message,
        UpstreamErrorView::HomeDirNotFound => "Home directory not found"@,
    }
}

impl UpstreamError {
    /// The class of this error.
    pub fn kind(&self) -> (kind: ErrorKind)
        ensures
            kind == error_kind(self@),
    {
        match self {
            UpstreamError::GitError(failure) => match failure.operation {
                GitOperation::Clone => ErrorKind::Transport,
                GitOperation::Fetch => ErrorKind::Transport,
                GitOperation::ResolveFetchHead => ErrorKind::RepositoryState,
                GitOperation::Diff => ErrorKind::RepositoryState,
                GitOperation::Merge => ErrorKind::RepositoryState,
            },
            UpstreamError::IoError(_) => ErrorKind::Io,
            UpstreamError::HomeDirNotFound => ErrorKind::Io,
        }
    }

    /// The text of this error, for a boundary that reports failures as text.
    pub fn message(&self) -> (text: String)
        ensures
            text@ == error_text(self@),
    {
        match self {
            UpstreamError::GitError(failure) => String::from_str("Git operation failed: ").concat(
                failure.message.as_str(),
            ),
            UpstreamError::IoError(message) => String::from_str("IO operation failed: ").concat(
                message.as_str(),
            ),
            UpstreamError::HomeDirNotFound => String::from_str("Home directory not found"),
        }
    }
}

/// Whether `path` starts at the root of the file system.
pub open spec fn is_absolute(path: Seq<char>) -> bool {
    path.len() > 0 && path[0] == '/'
}

/// `rel` below the directory `root`.
pub open spec fn join(root: Seq<char>, rel: Seq<char>) -> Seq<char> {
    root + seq!['/'] + rel
}

/// The root of the mirror below the state directory `state_dir`.
pub open spec fn mirror_root(state_dir: Seq<char>) -> Seq<char> {
    join(state_dir, ASN_IP_SUBDIR@)
}

/// The file that holds the record of `asn` in a mirror rooted at `root`.
pub open spec fn asn_file_path(root: Seq<char>, asn: u32) -> Seq<char> {
    root + "/as/"@ + decimal_text(asn as nat) + "/aggregated.json"@
}

/// The files that an update reports, given the new-side path of every entry
/// of the tree difference, in the order of the difference: each path is taken
/// below `root`, and a path that was reported already is not reported again.
pub open spec fn change_set(root: Seq<char>, new_paths: Seq<Option<Seq<char>>>) -> Seq<Seq<char>>
    decreases new_paths.len(),
{
    if new_paths.len() == 0 {
        Seq::empty()
    } else {
        let earlier = change_set(root, new_paths.drop_last());
        match new_paths.last() {
            Some(rel) => if earlier.contains(join(root, rel)) {
                earlier
            } else {
                earlier.push(join(root, rel))
            },
            None => earlier,
        }
    }
}

/// The mirror's place on disk.
#[derive(Debug)]
pub struct Upstream {
    repo_path: String,
}

impl Upstream {
    /// The path of the mirror's root.
    pub closed spec fn root(&self) -> Seq<char> {
        self.repo_path@
    }

    #[verifier::type_invariant]
    spec fn located(&self) -> bool {
        is_absolute(self.repo_path@)
    }

    /// The mirror below the state directory that the platform names for the
    /// current user. Which directory that is, and whether there is one, is for
    /// the platform to say; where the mirror lies below it is fixed.
    pub fn new() -> (result: Result<Self, UpstreamError>)
        ensures
            result matches Ok(upstream) ==> exists|dir: Seq<char>|
                is_absolute(dir) && upstream.root() == #[trigger] mirror_root(dir),
            result matches Ok(upstream) ==> is_absolute(upstream.root()),
            result matches Err(error) ==> error == UpstreamError::HomeDirNotFound,
    {
        Upstream::from_state_dir(state_dir())
    }

    /// The mirror below the state directory `state_dir`. A platform without
    /// a state directory, or one whose state directory is not an absolute
    /// path, has no place for a mirror.
    pub fn from_state_dir(state_dir: Option<String>) -> (result: Result<Self, UpstreamError>)
        ensures
            match state_dir {
                Some(dir) if is_absolute(dir@) => result matches Ok(upstream) && upstream.root()
                    == mirror_root(dir@),
                _ => result == Err::<Self, UpstreamError>(UpstreamError::HomeDirNotFound),
            },
    {
        match state_dir {
            Some(dir) => {
                if dir.as_str().is_empty() || dir.as_str().get_char(0) != '/' {
                    return Err(UpstreamError::HomeDirNotFound);
                }
                let repo_path = dir.concat("/").concat(ASN_IP_SUBDIR);
                proof {
                    reveal_strlit("/");
                    assert(repo_path@ =~= mirror_root(dir@));
                }
                Ok(Upstream { repo_path })
            },
            None => Err(UpstreamError::HomeDirNotFound),
        }
    }

    /// Begins a run that makes sure that the mirror exists: the root and the
    /// directories above it are created where they are missing, and the
    /// remote is cloned only where no repository opens at the root.
    pub fn provision(&self) -> (run: Run)
        ensures
            run@ == start(self.root(), Goal::Provision),
    {
        Run::new(self, Goal::Provision)
    }

    /// Begins a run that makes sure that the mirror exists, fetches the
    /// branch, and merges what was fetched over the working copy. The run
    /// ends with the files that changed.
    pub fn update(&self) -> (run: Run)
        ensures
            run@ == start(self.root(), Goal::Update),
    {
        Run::new(self, Goal::Update)
    }

    /// The path of the mirror's root.
    pub fn get_repo_path(&self) -> (path: &str)
        ensures
            path@ == self.root(),
            is_absolute(path@),
    {
        proof {
            use_type_invariant(self);
        }
        self.repo_path.as_str()
    }

    /// The path of the file that holds the record of `asn`.
    pub fn get_asn_file_path(&self, asn: u32) -> (path: String)
        ensures
            path@ == asn_file_path(self.root(), asn),
    {
        let number = decimal_string(asn);
        self.repo_path.clone().concat("/as/").concat(number.as_str()).concat("/aggregated.json")
    }

    /// The files that an update reports as changed, given the new-side path
    /// of every entry of the tree difference (`None` for an entry without
    /// one): each path below the mirror's root, in the order of the
    /// difference, none of them twice.
    pub fn changed_files(&self, new_paths: &Vec<Option<String>>) -> (changed: Vec<String>)
        ensures
            changed.deep_view() == change_set(self.root(), new_paths.deep_view()),
    {
        changed_below(&self.repo_path, new_paths)
    }
}

/// The change set of a mirror rooted at `root`.
pub(crate) fn changed_below(root: &String, new_paths: &Vec<Option<String>>) -> (changed: Vec<String>)
    ensures
        changed.deep_view() == change_set(root@, new_paths.deep_view()),
{
    let mut changed: Vec<String> = Vec::new();
    let mut i: usize = 0;
    assert(new_paths.deep_view().take(0) =~= Seq::empty());
    while i < new_paths.len()
        invariant
            i <= new_paths.len(),
            changed.deep_view() == change_set(root@, new_paths.deep_view().take(i as int)),
        decreases new_paths.len() - i,
    {
        let ghost before = changed.deep_view();
        let ghost seen = new_paths.deep_view().take(i as int);
        let ghost next = new_paths.deep_view().take(i + 1);
        proof {
            assert(next.drop_last() =~= seen);
            assert(next.last() == new_paths[i as int].deep_view());
        }
        match &new_paths[i] {
            Some(rel) => {
                let path = root.clone().concat("/").concat(rel.as_str());
                proof {
                    reveal_strlit("/");
                    assert(path@ =~= join(root@, rel@));
                }
                if !contains_path(&changed, &path) {
                    changed.push(path);
                    assert(changed.deep_view() =~= before.push(path@));
                }
            },
            None => {},
        }
        i += 1;
    }
    assert(new_paths.deep_view().take(i as int) =~= new_paths.deep_view());
    changed
}

/// Asks the platform for the state directory of the current user.
///
/// Calls `dirs::state_dir`. The answer depends on the platform and on the
/// environment of the process, so nothing is claimed of it. Paths are texts
/// in this crate, so a directory whose name is not valid Unicode cannot be
/// named here and is reported as absent.
#[verifier::external_body]
fn state_dir() -> (dir: Option<String>) {
    dirs::state_dir().and_then(|path| path.into_os_string().into_string().ok())
}

/// Whether `path` is one of `paths`.
fn contains_path(paths: &Vec<String>, path: &String) -> (found: bool)
    ensures
        found == paths.deep_view().contains(path@),
{
    let mut i: usize = 0;
    while i < paths.len()
        invariant
            i <= paths.len(),
            forall|j: int| 0 <= j < i ==> paths.deep_view()[j] != path@,
        decreases paths.len() - i,
    {
        if paths[i] == *path {
            assert(paths.deep_view()[i as int] == path@);
            return true;
        }
        i += 1;
    }
    false
}

/// No two identifiers share a file: in one mirror, the paths of two records
/// are the same only if the identifiers are.
pub proof fn lemma_asn_file_paths_differ(root: Seq<char>, a: u32, b: u32)
    requires
        asn_file_path(root, a) == asn_file_path(root, b),
    ensures
        a == b,
{
    let head = root + "/as/"@;
    let tail = "/aggregated.json"@;
    let text_a = decimal_text(a as nat);
    let text_b = decimal_text(b as nat);
    let path_a = asn_file_path(root, a);
    let path_b = asn_file_path(root, b);
    assert(path_a.len() == head.len() + text_a.len() + tail.len());
    assert(path_b.len() == head.len() + text_b.len() + tail.len());
    assert(text_a =~= path_a.subrange(head.len() as int, (head.len() + text_a.len()) as int));
    assert(text_b =~= path_b.subrange(head.len() as int, (head.len() + text_b.len()) as int));
    lemma_decimal_text_is_one_to_one(a as nat, b as nat);
}

/// What [`change_set`] reports, said without reference to how it is
/// computed: no path twice, and a path exactly when some entry of the
/// difference has its new side there.
pub proof fn lemma_change_set_exact(root: Seq<char>, new_paths: Seq<Option<Seq<char>>>)
    ensures
        change_set(root, new_paths).no_duplicates(),
        forall|path: Seq<char>| #[trigger]
            change_set(root, new_paths).contains(path) <==> exists|rel: Seq<char>| #[trigger]
                new_paths.contains(Some(rel)) && path == join(root, rel),
    decreases new_paths.len(),
{
    let changed = change_set(root, new_paths);
    if new_paths.len() > 0 {
        let init = new_paths.drop_last();
        let last = new_paths.len() - 1;
        let earlier = change_set(root, init);
        lemma_change_set_exact(root, init);
        assert forall|path: Seq<char>| #[trigger]
            changed.contains(path) <==> exists|rel: Seq<char>| #[trigger]
                new_paths.contains(Some(rel)) && path == join(root, rel) by {
            if earlier.contains(path) {
                let rel = choose|rel: Seq<char>| #[trigger]
                    init.contains(Some(rel)) && path == join(root, rel);
                let j = init.index_of(Some(rel));
                assert(new_paths[j] == Some(rel));
                assert(new_paths.contains(Some(rel)));
                assert(changed[earlier.index_of(path)] == path);
            } else if changed.contains(path) {
                let rel = new_paths.last()->Some_0;
                assert(changed =~= earlier.push(join(root, rel)));
                assert(new_paths[last] == Some(rel));
                assert(new_paths.contains(Some(rel)));
            }
            if exists|rel: Seq<char>| #[trigger]
                new_paths.contains(Some(rel)) && path == join(root, rel) {
                let rel = choose|rel: Seq<char>| #[trigger]
                    new_paths.contains(Some(rel)) && path == join(root, rel);
                let j = new_paths.index_of(Some(rel));
                if j < last {
                    assert(init[j] == Some(rel));
                    assert(init.contains(Some(rel)));
                } else if !earlier.contains(path) {
                    assert(changed =~= earlier.push(path));
                    assert(changed[earlier.len() as int] == path);
                }
            }
        }
    }
}

/// Every reported path lies below the mirror's root, and is absolute when
/// the root is.
pub proof fn lemma_change_set_below_root(root: Seq<char>, new_paths: Seq<Option<Seq<char>>>)
    ensures
        forall|i: int|
            0 <= i < change_set(root, new_paths).len() ==> {
                let path = #[trigger] change_set(root, new_paths)[i];
                &&& (exists|rel: Seq<char>| path == #[trigger] join(root, rel))
                &&& (is_absolute(root) ==> is_absolute(path))
            },
{
    lemma_change_set_exact(root, new_paths);
    let changed = change_set(root, new_paths);
    assert forall|i: int| 0 <= i < changed.len() implies {
        let path = #[trigger] changed[i];
        &&& (exists|rel: Seq<char>| path == #[trigger] join(root, rel))
        &&& (is_absolute(root) ==> is_absolute(path))
    } by {
        let path = changed[i];
        assert(changed.contains(path));
        let rel = choose|rel: Seq<char>| #[trigger]
            new_paths.contains(Some(rel)) && path == join(root, rel);
        assert(path == join(root, rel));
    }
}

/// Paths are reported in the order in which the difference first names
/// them: what the first `k` entries report stands, unchanged, at the front of
/// what all entries report.
pub proof fn lemma_change_set_keeps_order(
    root: Seq<char>,
    new_paths: Seq<Option<Seq<char>>>,
    k: int,
)
    requires
        0 <= k <= new_paths.len(),
    ensures
        change_set(root, new_paths.take(k)).is_prefix_of(change_set(root, new_paths)),
    decreases new_paths.len(),
{
    if k == new_paths.len() {
        assert(new_paths.take(k) =~= new_paths);
    } else {
        let init = new_paths.drop_last();
        lemma_change_set_keeps_order(root, init, k);
        assert(init.take(k) =~= new_paths.take(k));
    }
}

} // verus!
