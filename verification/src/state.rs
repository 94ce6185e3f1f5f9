//! Reviewed-state bookkeeping: where the state of a pull request lives, what
//! each file's reviewed state starts from, and how accepting content updates
//! the session.
use vstd::prelude::*;
use crate::github::{content_hash, hash_content, PrFile, PrMeta};
use crate::text::{
    chars_from, chars_of, concat, copy_opt, decimal, eq_ignore_case, equal_ignoring_ascii_case,
    find_first, first_occurrence_from, lemma_first_occurrence_occurs, opt_view, owned,
    push_decimal, push_str, split_chars, split_on, str_eq, string_from_chars,
};

verus! {

/// The most files fetched at the same time.
pub const DEFAULT_FETCH_CONCURRENCY: usize = 8;

/// What precedes the owner and name of the repository in a pull request URL.
pub const GITHUB_MARKER: &'static str = "github.com/";

/// Stands for an owner or a repository name that could not be found.
pub const UNKNOWN: &'static str = "unknown";

/// Stands for a repository that could not be found.
pub const UNKNOWN_REPO: &'static str = "unknown/unknown";

// ---------------------------------------------------------------------------
// Paths
// ---------------------------------------------------------------------------

/// `base` joined with `part` as `Path::join` does on Unix: an absolute `part`
/// replaces `base`; otherwise a separator is put between them unless `base`
/// is empty or already ends with one.
pub open spec fn path_join(base: Seq<char>, part: Seq<char>) -> Seq<char> {
    if part.len() > 0 && part[0] == '/' {
        part
    } else if base.len() == 0 || base.last() == '/' {
        base + part
    } else {
        base + seq!['/'] + part
    }
}

/// `base` joined with `part`.
pub fn join_path(base: &str, part: &str) -> (joined: String)
    ensures
        joined@ == path_join(base@, part@),
{
    let b = chars_of(base);
    let p = chars_of(part);
    if p.len() > 0 && p[0] == '/' {
        return owned(part);
    }
    if b.len() == 0 || b[b.len() - 1] == '/' {
        return concat(base, part);
    }
    let mut out = b;
    out.push('/');
    push_str(&mut out, part);
    string_from_chars(out.as_slice())
}

// ---------------------------------------------------------------------------
// Repositories and where a pull request's state lives
// ---------------------------------------------------------------------------

/// The owner and name of the repository that a pull request URL points
/// into: the first two `/`-separated pieces after the first `github.com/`.
pub open spec fn url_owner_and_name(url: Seq<char>) -> Option<(Seq<char>, Seq<char>)> {
    match first_occurrence_from(url, GITHUB_MARKER@, 0) {
        Some(i) => {
            let pieces = split_on(url.skip(i + GITHUB_MARKER@.len()), '/');
            if pieces.len() >= 2 {
                Some((pieces[0], pieces[1]))
            } else {
                None
            }
        },
        None => None,
    }
}

/// `OWNER/NAME` of the base repository, as read from the pull request URL.
pub open spec fn base_repo_of(url: Seq<char>) -> Option<Seq<char>> {
    match url_owner_and_name(url) {
        Some((owner, name)) => Some(owner + "/"@ + name),
        None => None,
    }
}

fn url_owner_and_name_exec(url: &str) -> (found: Option<(String, String)>)
    ensures
        match found {
            Some((owner, name)) => url_owner_and_name(url@) == Some((owner@, name@)),
            None => url_owner_and_name(url@) is None,
        },
{
    let u = chars_of(url);
    let m = chars_of(GITHUB_MARKER);
    match find_first(u.as_slice(), m.as_slice()) {
        None => None,
        Some(i) => {
            proof {
                lemma_first_occurrence_occurs(u@, m@, 0);
            }
            let mlen = m.len();
            assert(i + mlen <= u.len());
            let rest = chars_from(u.as_slice(), i + mlen);
            let pieces = split_chars(rest.as_slice(), '/');
            if pieces.len() >= 2 {
                let owner = string_from_chars(pieces[0].as_slice());
                let name = string_from_chars(pieces[1].as_slice());
                Some((owner, name))
            } else {
                None
            }
        },
    }
}

/// `OWNER/NAME` of the base repository of `pr`, when its URL names one.
pub fn base_repo_name(pr: &PrMeta) -> (repo: Option<String>)
    ensures
        match repo {
            Some(r) => base_repo_of(pr.url@) == Some(r@),
            None => base_repo_of(pr.url@) is None,
        },
{
    match url_owner_and_name_exec(pr.url.as_str()) {
        Some((owner, name)) => {
            let with_slash = concat(owner.as_str(), "/");
            let repo = concat(with_slash.as_str(), name.as_str());
            Some(repo)
        },
        None => None,
    }
}

/// The repository the head of `pr` lives in: the head repository when the
/// pull request reports one, else the base repository, else
/// `unknown/unknown`.
pub open spec fn head_repo_of(pr: PrMeta) -> Seq<char> {
    match pr.head_repository {
        Some(head) => head.name_with_owner@,
        None => match base_repo_of(pr.url@) {
            Some(r) => r,
            None => UNKNOWN_REPO@,
        },
    }
}

/// `OWNER/NAME` of the repository the head of `pr` lives in.
pub fn head_repo_name(pr: &PrMeta) -> (repo: String)
    ensures
        repo@ == head_repo_of(*pr),
{
    match &pr.head_repository {
        Some(head) => head.name_with_owner.clone(),
        None => match base_repo_name(pr) {
            Some(r) => r,
            None => owned(UNKNOWN_REPO),
        },
    }
}

/// The directory that holds the state of pull request `number` whose URL is
/// `url`, under `root`: `root/github.com/OWNER/NAME/pr-NUMBER`, with
/// `unknown` for an owner and a name that the URL does not give.
pub open spec fn session_root_of(root: Seq<char>, url: Seq<char>, number: u64) -> Seq<char> {
    let (owner, name) = match url_owner_and_name(url) {
        Some(pair) => pair,
        None => (UNKNOWN@, UNKNOWN@),
    };
    path_join(
        path_join(path_join(path_join(root, "github.com"@), owner), name),
        "pr-"@ + decimal(number as nat),
    )
}

/// The directory that holds the state of `pr` under `root`.
pub fn session_root(root: &str, pr: &PrMeta) -> (dir: String)
    ensures
        dir@ == session_root_of(root@, pr.url@, pr.number),
{
    let (owner, name) = match url_owner_and_name_exec(pr.url.as_str()) {
        Some(pair) => pair,
        None => (owned(UNKNOWN), owned(UNKNOWN)),
    };
    let host = join_path(root, "github.com");
    let with_owner = join_path(host.as_str(), owner.as_str());
    let with_name = join_path(with_owner.as_str(), name.as_str());
    let mut leaf = chars_of("pr-");
    push_decimal(&mut leaf, pr.number);
    let leaf = string_from_chars(leaf.as_slice());
    join_path(with_name.as_str(), leaf.as_str())
}

/// Where the reviewed state of the file at `path` of `pr` is stored.
pub open spec fn reviewed_path_of(root: Seq<char>, url: Seq<char>, number: u64, path: Seq<char>) -> Seq<
    char,
> {
    path_join(path_join(session_root_of(root, url, number), "reviewed"@), path)
}

/// Where the reviewed state of the file at `path` of `pr` is stored under
/// `root`.
pub fn reviewed_path(root: &str, pr: &PrMeta, path: &str) -> (file: String)
    ensures
        file@ == reviewed_path_of(root@, pr.url@, pr.number, path@),
{
    let dir = session_root(root, pr);
    let reviewed = join_path(dir.as_str(), "reviewed");
    join_path(reviewed.as_str(), path)
}

// ---------------------------------------------------------------------------
// Reviewed state
// ---------------------------------------------------------------------------

/// What is recorded of one file of a pull request.
#[derive(Debug, Clone)]
pub struct FileState {
    pub path: String,
    pub previous_path: Option<String>,
    pub change_type: String,
    pub reviewed_hash: String,
    pub current_hash: Option<String>,
    pub base_path_used: Option<String>,
    pub base_ref_oid_used: Option<String>,
    pub initial_reviewed_hash: Option<String>,
    pub unsupported: bool,
}

/// One file under review: its record, the reviewed state and the latest
/// content of the pull request.
#[derive(Debug, Clone)]
pub struct ReviewFile {
    pub meta: FileState,
    pub reviewed: String,
    pub current: String,
}

/// What is stored for a pull request: its description and its file records.
#[derive(Debug, Clone)]
pub struct Manifest {
    pub pr: PrMeta,
    pub files: Vec<FileState>,
}

/// The review of one pull request: where its state is stored, the stored
/// records and the files under review.
#[derive(Debug, Clone)]
pub struct ReviewSession {
    pub root: String,
    pub manifest: Manifest,
    pub files: Vec<ReviewFile>,
}

/// What accepting content into a file's reviewed state came to: the file's
/// path, and whether the file has caught up with the pull request and is to
/// be marked viewed.
#[derive(Debug, Clone, PartialEq, Eq)]
pub struct AcceptedFileOutcome {
    pub path: String,
    pub should_mark_viewed: bool,
}

/// A copy of a file record.
pub fn copy_file_state(s: &FileState) -> (c: FileState)
    ensures
        c == *s,
{
    FileState {
        path: s.path.clone(),
        previous_path: copy_opt(&s.previous_path),
        change_type: s.change_type.clone(),
        reviewed_hash: s.reviewed_hash.clone(),
        current_hash: copy_opt(&s.current_hash),
        base_path_used: copy_opt(&s.base_path_used),
        base_ref_oid_used: copy_opt(&s.base_ref_oid_used),
        initial_reviewed_hash: copy_opt(&s.initial_reviewed_hash),
        unsupported: s.unsupported,
    }
}

/// The records of `files`, in order.
pub open spec fn metas_of(files: Seq<ReviewFile>) -> Seq<FileState> {
    files.map_values(|f: ReviewFile| f.meta)
}

fn copy_metas(files: &Vec<ReviewFile>) -> (metas: Vec<FileState>)
    ensures
        metas@ == metas_of(files@),
{
    let mut metas: Vec<FileState> = Vec::new();
    let n = files.len();
    let mut i: usize = 0;
    while i < n
        invariant
            n == files@.len(),
            i <= n,
            metas@ == metas_of(files@).take(i as int),
        decreases n - i,
    {
        let m = copy_file_state(&files[i].meta);
        metas.push(m);
        i += 1;
    }
    metas
}

/// `after` is `before` with `content` accepted as the reviewed state of the
/// file at `index`: that file's reviewed state and its hash change, nothing
/// else of the files does, the records follow the files, and the pull request
/// and the storage root stay.
pub open spec fn accepted_content(
    before: ReviewSession,
    after: ReviewSession,
    index: int,
    content: Seq<char>,
) -> bool {
    &&& 0 <= index < before.files@.len()
    &&& after.files@.len() == before.files@.len()
    &&& forall|j: int|
        0 <= j < before.files@.len() && j != index ==> after.files@[j] == before.files@[j]
    &&& after.files@[index].reviewed@ == content
    &&& after.files@[index].current == before.files@[index].current
    &&& after.files@[index].meta.reviewed_hash@ == content_hash(content)
    &&& after.files@[index].meta == (FileState {
        reviewed_hash: after.files@[index].meta.reviewed_hash,
        ..before.files@[index].meta
    })
    &&& after.manifest.files@ == metas_of(after.files@)
    &&& after.manifest.pr == before.manifest.pr
    &&& after.root == before.root
}

impl ReviewSession {
    /// A session for `pr` with its state under `root`. The stored records, if
    /// a manifest was stored before, are kept; the stored description of the
    /// pull request gives way to `pr`. No file is under review yet.
    pub fn load(root: String, pr: PrMeta, stored: Option<Manifest>) -> (session: ReviewSession)
        ensures
            session.root == root,
            session.manifest.pr == pr,
            session.manifest.files@ == match stored {
                Some(m) => m.files@,
                None => Seq::<FileState>::empty(),
            },
            session.files@ == Seq::<ReviewFile>::empty(),
    {
        let files = match stored {
            Some(m) => m.files,
            None => Vec::new(),
        };
        ReviewSession { root, manifest: Manifest { pr, files }, files: Vec::new() }
    }

    /// The directory under which all review state is stored.
    pub fn root(&self) -> (root: &str)
        ensures
            root@ == self.root@,
    {
        self.root.as_str()
    }

    /// Where the reviewed state of the file at `path` is stored.
    pub fn reviewed_path(&self, path: &str) -> (file: String)
        ensures
            file@ == reviewed_path_of(
                self.root@,
                self.manifest.pr.url@,
                self.manifest.pr.number,
                path@,
            ),
    {
        reviewed_path(self.root.as_str(), &self.manifest.pr, path)
    }

    /// Puts freshly loaded files under review and records them.
    pub fn apply_refreshed_files(&mut self, files: Vec<ReviewFile>)
        ensures
            final(self).files == files,
            final(self).manifest.files@ == metas_of(files@),
            final(self).manifest.pr == old(self).manifest.pr,
            final(self).root == old(self).root,
    {
        self.manifest.files = copy_metas(&files);
        self.files = files;
    }

    /// Makes `content` the reviewed state of the file at `index`: the
    /// reviewed state and its hash change, nothing else of the files does, and
    /// the records follow the files. The outcome names the file and says
    /// whether the reviewed state now equals the latest content.
    pub fn accept_file_content_local(&mut self, index: usize, content: String) -> (outcome:
        AcceptedFileOutcome)
        requires
            index < old(self).files@.len(),
        ensures
            accepted_content(*old(self), *final(self), index as int, content@),
            final(self).files@[index as int].reviewed == content,
            outcome.path == old(self).files@[index as int].meta.path,
            outcome.should_mark_viewed == (content@ == old(self).files@[index as int].current@),
    {
        let old_file = &self.files[index];
        let path = old_file.meta.path.clone();
        let mut meta = copy_file_state(&old_file.meta);
        meta.reviewed_hash = hash_content(content.as_str());
        let current = old_file.current.clone();
        let should_mark_viewed = content == current;
        let updated = ReviewFile { meta, reviewed: content, current };
        self.files.set(index, updated);
        self.manifest.files = copy_metas(&self.files);
        AcceptedFileOutcome { path, should_mark_viewed }
    }
}

// ---------------------------------------------------------------------------
// Loading the files of a pull request
// ---------------------------------------------------------------------------

/// The path whose base content starts the reviewed state of `file`: the path
/// it had before a rename, else its own.
pub open spec fn initial_base_path_of(file: PrFile) -> Seq<char> {
    match file.previous_path {
        Some(p) => p@,
        None => file.path@,
    }
}

/// The path whose base content starts the reviewed state of `file`.
pub fn initial_base_path(file: &PrFile) -> (path: String)
    ensures
        path@ == initial_base_path_of(*file),
{
    match &file.previous_path {
        Some(p) => p.clone(),
        None => file.path.clone(),
    }
}

/// Whether the change type, compared without regard to ASCII case, is `kind`.
pub open spec fn change_is(change_type: Seq<char>, kind: Seq<char>) -> bool {
    equal_ignoring_ascii_case(change_type, kind)
}

/// Whether `file` was renamed or moved.
pub open spec fn is_renamed_spec(file: PrFile) -> bool {
    change_is(file.change_type@, "RENAMED"@) || change_is(file.change_type@, "MOVED"@)
}

/// Whether `file` was renamed or moved.
pub fn is_renamed(file: &PrFile) -> (renamed: bool)
    ensures
        renamed == is_renamed_spec(*file),
{
    eq_ignore_case(file.change_type.as_str(), "RENAMED") || eq_ignore_case(
        file.change_type.as_str(),
        "MOVED",
    )
}

/// A file to fetch: `path` at revision `oid` of repository `repo`.
#[derive(Debug, Clone)]
pub struct BlobRequest {
    pub repo: String,
    pub oid: String,
    pub path: String,
}

/// Where the content that starts the reviewed state of `file` comes from:
/// nothing for an added file, which starts empty; else its base path at the
/// base revision of the base repository (`unknown/unknown` when the URL names
/// none). A file that the fetch does not find starts empty too.
pub open spec fn initial_request_of(pr: PrMeta, file: PrFile) -> Option<(Seq<char>, Seq<char>, Seq<char>)> {
    if change_is(file.change_type@, "ADDED"@) {
        None
    } else {
        Some(
            (
                match base_repo_of(pr.url@) {
                    Some(r) => r,
                    None => UNKNOWN_REPO@,
                },
                pr.base_ref_oid@,
                initial_base_path_of(file),
            ),
        )
    }
}

/// The view of a request.
pub open spec fn request_view(r: Option<BlobRequest>) -> Option<(Seq<char>, Seq<char>, Seq<char>)> {
    match r {
        Some(b) => Some((b.repo@, b.oid@, b.path@)),
        None => None,
    }
}

/// Where the content that starts the reviewed state of `file` comes from.
pub fn initial_content_request(pr: &PrMeta, file: &PrFile) -> (request: Option<BlobRequest>)
    ensures
        request_view(request) == initial_request_of(*pr, *file),
{
    if eq_ignore_case(file.change_type.as_str(), "ADDED") {
        return None;
    }
    let repo = match base_repo_name(pr) {
        Some(r) => r,
        None => owned(UNKNOWN_REPO),
    };
    Some(BlobRequest { repo, oid: pr.base_ref_oid.clone(), path: initial_base_path(file) })
}

/// Where the latest content of `file` comes from: nothing for a deleted file,
/// whose latest content is empty; else its path at the head revision of the
/// head repository. A file that the fetch does not find is empty too.
pub open spec fn current_request_of(pr: PrMeta, file: PrFile) -> Option<(Seq<char>, Seq<char>, Seq<char>)> {
    if change_is(file.change_type@, "DELETED"@) {
        None
    } else {
        Some((head_repo_of(pr), pr.head_ref_oid@, file.path@))
    }
}

/// Where the latest content of `file` comes from.
pub fn current_content_request(pr: &PrMeta, file: &PrFile) -> (request: Option<BlobRequest>)
    ensures
        request_view(request) == current_request_of(*pr, *file),
{
    if eq_ignore_case(file.change_type.as_str(), "DELETED") {
        return None;
    }
    Some(BlobRequest { repo: head_repo_name(pr), oid: pr.head_ref_oid.clone(), path: file.path.clone() })
}

/// Whether the stored reviewed state of a renamed file is one that older
/// versions generated wrongly and is to be started again from the base
/// content: an empty state while both the base and the latest content are
/// not, or an untouched state that was started from the new path instead of
/// the old one.
pub open spec fn needs_repair(
    file: PrFile,
    reviewed: Seq<char>,
    current: Seq<char>,
    initial: Seq<char>,
    existing: Option<FileState>,
) -> bool {
    if !is_renamed_spec(file) || file.previous_path is None {
        false
    } else if reviewed.len() == 0 && current.len() > 0 && initial.len() > 0 {
        true
    } else {
        match existing {
            Some(e) => {
                &&& opt_view(e.base_path_used) == Some(file.path@)
                &&& opt_view(e.base_path_used) != Some(initial_base_path_of(file))
                &&& opt_view(e.initial_reviewed_hash) == Some(content_hash(reviewed))
            },
            None => false,
        }
    }
}

/// The reviewed state to go on with, and whether it was started again from
/// the base content and so is to be written back.
pub struct RepairOutcome {
    pub reviewed: String,
    pub rewritten: bool,
}

fn opt_is(o: &Option<String>, s: &str) -> (eq: bool)
    ensures
        eq == (opt_view(*o) == Some(s@)),
{
    match o {
        Some(v) => str_eq(v.as_str(), s),
        None => false,
    }
}

/// Starts the reviewed state of a renamed file again from `initial` where an
/// older version generated it wrongly (see [`needs_repair`]); else keeps it.
pub fn repair_renamed_reviewed_state_if_needed(
    file: &PrFile,
    reviewed: String,
    current: &str,
    initial: &str,
    existing_state: Option<&FileState>,
) -> (outcome: RepairOutcome)
    ensures
        outcome.rewritten == needs_repair(
            *file,
            reviewed@,
            current@,
            initial@,
            match existing_state {
                Some(e) => Some(*e),
                None => None,
            },
        ),
        outcome.reviewed@ == if outcome.rewritten {
            initial@
        } else {
            reviewed@
        },
{
    if !is_renamed(file) || file.previous_path.is_none() {
        return RepairOutcome { reviewed, rewritten: false };
    }
    if reviewed.as_str().is_empty() && !current.is_empty() && !initial.is_empty() {
        return RepairOutcome { reviewed: owned(initial), rewritten: true };
    }
    match existing_state {
        Some(e) => {
            let expected = initial_base_path(file);
            let from_wrong_path = opt_is(&e.base_path_used, file.path.as_str()) && !opt_is(
                &e.base_path_used,
                expected.as_str(),
            );
            let untouched = match &e.initial_reviewed_hash {
                Some(h) => {
                    let now = hash_content(reviewed.as_str());
                    str_eq(h.as_str(), now.as_str())
                },
                None => false,
            };
            if from_wrong_path && untouched {
                RepairOutcome { reviewed: owned(initial), rewritten: true }
            } else {
                RepairOutcome { reviewed, rewritten: false }
            }
        },
        None => RepairOutcome { reviewed, rewritten: false },
    }
}

/// The file under review built from what was loaded for `pr_file`: its
/// record holds the hashes of the reviewed, latest and starting content, the
/// base path and base revision it started from, and is not marked
/// unsupported.
pub fn build_review_file(
    pr: &PrMeta,
    pr_file: PrFile,
    reviewed: String,
    current: String,
    initial: &str,
) -> (file: ReviewFile)
    ensures
        file.reviewed == reviewed,
        file.current == current,
        file.meta.path == pr_file.path,
        file.meta.previous_path == pr_file.previous_path,
        file.meta.change_type == pr_file.change_type,
        file.meta.reviewed_hash@ == content_hash(reviewed@),
        opt_view(file.meta.current_hash) == Some(content_hash(current@)),
        opt_view(file.meta.base_path_used) == Some(initial_base_path_of(pr_file)),
        opt_view(file.meta.base_ref_oid_used) == Some(pr.base_ref_oid@),
        opt_view(file.meta.initial_reviewed_hash) == Some(content_hash(initial@)),
        !file.meta.unsupported,
{
    let base_path = initial_base_path(&pr_file);
    let reviewed_hash = hash_content(reviewed.as_str());
    let current_hash = hash_content(current.as_str());
    let initial_hash = hash_content(initial);
    ReviewFile {
        meta: FileState {
            path: pr_file.path,
            previous_path: pr_file.previous_path,
            change_type: pr_file.change_type,
            reviewed_hash,
            current_hash: Some(current_hash),
            base_path_used: Some(base_path),
            base_ref_oid_used: Some(pr.base_ref_oid.clone()),
            initial_reviewed_hash: Some(initial_hash),
            unsupported: false,
        },
        reviewed,
        current,
    }
}

/// The position of the last record in `states` for `path`, if any: a map
/// built from the records in order keeps the last one for each path.
pub open spec fn last_state_for(states: Seq<FileState>, path: Seq<char>) -> Option<int>
    decreases states.len(),
{
    if states.len() == 0 {
        None
    } else if states.last().path@ == path {
        Some(states.len() - 1)
    } else {
        last_state_for(states.drop_last(), path)
    }
}

/// The record kept for `path` among `existing`: the last one for that path.
pub fn existing_state_for(existing: &[FileState], path: &str) -> (found: Option<FileState>)
    ensures
        match last_state_for(existing@, path@) {
            Some(i) => found == Some(existing@[i]),
            None => found is None,
        },
{
    let n = existing.len();
    let mut k: usize = n;
    assert(existing@.take(n as int) =~= existing@);
    while k > 0
        invariant
            n == existing@.len(),
            k <= n,
            last_state_for(existing@, path@) == last_state_for(existing@.take(k as int), path@),
        decreases k,
    {
        let ghost pre = existing@.take(k as int);
        if str_eq(existing[k - 1].path.as_str(), path) {
            return Some(copy_file_state(&existing[k - 1]));
        }
        k -= 1;
        assert(pre.drop_last() =~= existing@.take(k as int));
    }
    None
}

/// How many files are fetched at the same time: at most
/// [`DEFAULT_FETCH_CONCURRENCY`], and no more than there are files.
pub fn fetch_worker_count(file_count: usize) -> (workers: usize)
    ensures
        workers == if file_count < DEFAULT_FETCH_CONCURRENCY {
            file_count
        } else {
            DEFAULT_FETCH_CONCURRENCY
        },
{
    if file_count < DEFAULT_FETCH_CONCURRENCY {
        file_count
    } else {
        DEFAULT_FETCH_CONCURRENCY
    }
}

/// The progress message that announces loading `count` files with
/// `workers` workers.
pub fn loading_files_message(count: usize, workers: usize) -> (message: String)
    ensures
        message@ == "loading "@ + decimal(count as nat) + " files with "@ + decimal(workers as nat)
            + " workers"@,
{
    let mut out = chars_of("loading ");
    push_decimal(&mut out, count as u64);
    push_str(&mut out, " files with ");
    push_decimal(&mut out, workers as u64);
    push_str(&mut out, " workers");
    string_from_chars(out.as_slice())
}

/// How loading `file_count` files goes: nothing to do for no files; else
/// how many files are fetched at once and the message that announces it.
pub fn loading_plan(file_count: usize) -> (plan: Option<(usize, String)>)
    ensures
        match plan {
            None => file_count == 0,
            Some((workers, message)) => {
                &&& file_count > 0
                &&& workers == if file_count < DEFAULT_FETCH_CONCURRENCY {
                    file_count
                } else {
                    DEFAULT_FETCH_CONCURRENCY
                }
                &&& message@ == "loading "@ + decimal(file_count as nat) + " files with "@
                    + decimal(workers as nat) + " workers"@
            },
        },
{
    if file_count == 0 {
        return None;
    }
    let workers = fetch_worker_count(file_count);
    Some((workers, loading_files_message(file_count, workers)))
}

/// The content a fetch gives a file: the fetched text, or empty text when
/// nothing was fetched or the blob was missing or binary.
pub fn loaded_content(fetched: Option<String>) -> (content: String)
    ensures
        content@ == match fetched {
            Some(t) => t@,
            None => Seq::<char>::empty(),
        },
{
    match fetched {
        Some(t) => t,
        None => String::new(),
    }
}

/// The progress message that announces loading file `index` (counted from
/// zero, shown from one) of `total`, at `path`.
pub fn loading_file_message(index: usize, total: usize, path: &str) -> (message: String)
    requires
        index < total,
    ensures
        message@ == "loading file "@ + decimal(index as nat + 1) + "/"@ + decimal(total as nat)
            + ": "@ + path@,
{
    let mut out = chars_of("loading file ");
    push_decimal(&mut out, (index + 1) as u64);
    push_str(&mut out, "/");
    push_decimal(&mut out, total as u64);
    push_str(&mut out, ": ");
    push_str(&mut out, path);
    string_from_chars(out.as_slice())
}

/// What a worker reports for one file: its position among the files of the
/// pull request, and the loaded file or the reason it could not be loaded.
pub type LoadedFile = (usize, Result<ReviewFile, String>);

/// The first failure among the reports, in the order they arrived.
pub open spec fn first_failure(reports: Seq<LoadedFile>) -> Option<Seq<char>>
    decreases reports.len(),
{
    if reports.len() == 0 {
        None
    } else {
        match first_failure(reports.drop_last()) {
            Some(e) => Some(e),
            None => match reports.last().1 {
                Err(e) => Some(e@),
                Ok(_) => None,
            },
        }
    }
}

/// The file loaded for position `i`: the last one reported for it.
pub open spec fn loaded_at(reports: Seq<LoadedFile>, i: int) -> Option<ReviewFile>
    decreases reports.len(),
{
    if reports.len() == 0 {
        None
    } else if reports.last().0 == i && reports.last().1 is Ok {
        Some(reports.last().1->Ok_0)
    } else {
        loaded_at(reports.drop_last(), i)
    }
}

/// The error for a position that no worker returned a file for.
pub open spec fn missing_file_message(i: nat) -> Seq<char> {
    "worker did not return file at index "@ + decimal(i)
}

/// Puts the files that the workers reported, in any order, back in the order
/// of the pull request. The first failure reported wins; else a position
/// without a file is an error, the first such position; else the files come
/// in order, the last one reported for each position.
pub fn collect_loaded_files(total: usize, reports: Vec<LoadedFile>) -> (files: Result<
    Vec<ReviewFile>,
    String,
>)
    requires
        forall|k: int| 0 <= k < reports@.len() ==> reports@[k].0 < total,
    ensures
        match first_failure(reports@) {
            Some(e) => files is Err && files->Err_0@ == e,
            None => match files {
                Ok(fs) => {
                    &&& fs@.len() == total
                    &&& forall|i: int| 0 <= i < total ==> loaded_at(reports@, i) == Some(fs@[i])
                },
                Err(e) => exists|i: int|
                    #![trigger loaded_at(reports@, i)]
                    {
                        &&& 0 <= i < total
                        &&& loaded_at(reports@, i) is None
                        &&& forall|j: int| 0 <= j < i ==> loaded_at(reports@, j) is Some
                        &&& e@ == missing_file_message(i as nat)
                    },
            },
        },
{
    let mut slots: Vec<Option<ReviewFile>> = Vec::new();
    let mut i: usize = 0;
    while i < total
        invariant
            i <= total,
            slots@.len() == i,
            forall|j: int| 0 <= j < i ==> slots@[j] is None,
        decreases total - i,
    {
        slots.push(None);
        i += 1;
    }
    let ghost all = reports@;
    let mut failure: Option<String> = None;
    for report in it: reports.into_iter()
        invariant
            it.seq() == all,
            forall|k: int| 0 <= k < all.len() ==> all[k].0 < total,
            slots@.len() == total,
            forall|j: int| 0 <= j < total ==> slots@[j] == loaded_at(all.take(it.index() as int), j),
            opt_view(failure) == first_failure(all.take(it.index() as int)),
    {
        let ghost k = it.index() as int;
        proof {
            assert(all.take(k + 1).drop_last() =~= all.take(k));
        }
        let (idx, result) = report;
        match result {
            Ok(file) => {
                slots.set(idx, Some(file));
            },
            Err(e) => {
                if failure.is_none() {
                    failure = Some(e);
                }
            },
        }
    }
    proof {
        assert(all.take(all.len() as int) =~= all);
    }
    if let Some(e) = failure {
        return Err(e);
    }
    let mut files: Vec<ReviewFile> = Vec::new();
    let ghost sv = slots@;
    for slot in st: slots.into_iter()
        invariant
            st.seq() == sv,
            all == reports@,
            first_failure(all) is None,
            sv.len() == total,
            forall|j: int| 0 <= j < total ==> sv[j] == loaded_at(all, j),
            files@.len() == st.index(),
            forall|j: int| 0 <= j < st.index() ==> loaded_at(all, j) == Some(files@[j]),
    {
        match slot {
            Some(file) => {
                files.push(file);
            },
            None => {
                let mut out = chars_of("worker did not return file at index ");
                let pos = files.len();
                push_decimal(&mut out, pos as u64);
                let message = string_from_chars(out.as_slice());
                return Err(message);
            },
        }
    }
    Ok(files)
}

proof fn lemma_decimal_ends_in_digit(n: nat)
    ensures
        decimal(n).len() > 0,
        decimal(n).last() != '/',
    decreases n,
{
    if n >= 10 {
        lemma_decimal_ends_in_digit(n / 10);
    }
}

/// Reviewed states are stored under the session's directory: for a file path
/// that is not absolute, the reviewed state of `path` is stored at
/// `SESSION/reviewed/path`, where `SESSION` is the session's directory.
pub proof fn lemma_reviewed_path_in_session(root: Seq<char>, url: Seq<char>, number: u64, path: Seq<char>)
    requires
        path.len() == 0 || path[0] != '/',
    ensures
        reviewed_path_of(root, url, number, path) == session_root_of(root, url, number)
            + "/reviewed/"@ + path,
{
    reveal_strlit("/reviewed/");
    reveal_strlit("reviewed");
    reveal_strlit("pr-");
    lemma_decimal_ends_in_digit(number as nat);
}

} // verus!
