//! The pull request data that the GitHub CLI reports, the content hash kept
//! for reviewed files, and the `gh` invocations the review needs.
use vstd::prelude::*;
use crate::text::{chars_of, concat, opt_view, owned, split_chars, split_on, string_from_chars, strings_view};

verus! {

/// A pull request as `gh pr view` describes it.
#[derive(Debug, Clone)]
pub struct PrMeta {
    pub id: String,
    pub number: u64,
    pub url: String,
    pub base_ref_oid: String,
    pub head_ref_oid: String,
    pub files: Vec<PrFile>,
    pub head_repository: Option<RepoRef>,
}

/// The repository a pull request's head lives in.
#[derive(Debug, Clone)]
pub struct RepoRef {
    pub name_with_owner: String,
}

/// One file changed by a pull request.
#[derive(Debug, Clone)]
pub struct PrFile {
    pub path: String,
    pub additions: u64,
    pub deletions: u64,
    pub change_type: String,
    pub previous_path: Option<String>,
}

/// Access to GitHub through the `gh` command-line tool, optionally pinned to
/// one repository.
#[derive(Debug, Clone)]
pub struct Gh {
    repo: Option<String>,
}

// ---------------------------------------------------------------------------
// Content hashes
// ---------------------------------------------------------------------------

/// The SHA-256 digest of the UTF-8 encoding of `text`.
pub uninterp spec fn sha256_of_text(text: Seq<char>) -> Seq<u8>;

/// Calls `sha2::Sha256::digest` on the bytes of `text`. The contract names the
/// digest, which depends on the text alone, and states its length, 32 bytes.
#[verifier::external_body]
fn sha256_digest(text: &str) -> (digest: Vec<u8>)
    ensures
        digest@ == sha256_of_text(text@),
        digest@.len() == 32,
{
    <sha2::Sha256 as sha2::Digest>::digest(text.as_bytes()).to_vec()
}

/// The symbol for a six-bit value in the URL-safe base64 alphabet.
pub open spec fn url_safe_symbol(v: u8) -> char {
    if v < 26 {
        (65 + v) as char
    } else if v < 52 {
        (97 + (v - 26)) as char
    } else if v < 62 {
        (48 + (v - 52)) as char
    } else if v == 62 {
        '-'
    } else {
        '_'
    }
}

/// The URL-safe base64 encoding of `b` without padding (RFC 4648, section 5):
/// each group of three bytes becomes four symbols, a final group of one or
/// two bytes becomes two or three.
pub open spec fn base64_url_no_pad(b: Seq<u8>) -> Seq<char>
    decreases b.len(),
{
    if b.len() == 0 {
        seq![]
    } else if b.len() == 1 {
        seq![url_safe_symbol(b[0] >> 2), url_safe_symbol(((b[0] & 3) << 4) as u8)]
    } else if b.len() == 2 {
        seq![
            url_safe_symbol(b[0] >> 2),
            url_safe_symbol((((b[0] & 3) << 4) | (b[1] >> 4)) as u8),
            url_safe_symbol(((b[1] & 15) << 2) as u8),
        ]
    } else {
        seq![
            url_safe_symbol(b[0] >> 2),
            url_safe_symbol((((b[0] & 3) << 4) | (b[1] >> 4)) as u8),
            url_safe_symbol((((b[1] & 15) << 2) | (b[2] >> 6)) as u8),
            url_safe_symbol(b[2] & 63),
        ] + base64_url_no_pad(b.skip(3))
    }
}

/// Calls `base64::Engine::encode` with the `URL_SAFE_NO_PAD` engine, whose
/// documentation gives the RFC 4648 URL-safe alphabet without padding; the
/// contract states that encoding.
#[verifier::external_body]
fn encode_url_safe_no_pad(bytes: &[u8]) -> (encoded: String)
    ensures
        encoded@ == base64_url_no_pad(bytes@),
{
    base64::Engine::encode(&base64::engine::general_purpose::URL_SAFE_NO_PAD, bytes)
}

/// The hash recorded for file content: its SHA-256 digest in URL-safe base64
/// without padding.
pub open spec fn content_hash(content: Seq<char>) -> Seq<char> {
    base64_url_no_pad(sha256_of_text(content))
}

/// The hash recorded for `content`.
pub fn hash_content(content: &str) -> (hash: String)
    ensures
        hash@ == content_hash(content@),
{
    let digest = sha256_digest(content);
    encode_url_safe_no_pad(digest.as_slice())
}

// ---------------------------------------------------------------------------
// gh invocations
// ---------------------------------------------------------------------------

/// The GraphQL query that fetches a file blob at a revision.
pub const FILE_BLOB_QUERY: &'static str = r#"
query($owner: String!, $name: String!, $expr: String!) {
  repository(owner: $owner, name: $name) {
    object(expression: $expr) {
      ... on Blob {
        isBinary
        text
        byteSize
      }
    }
  }
}
"#;

/// The GraphQL mutation that marks a pull request file as viewed.
pub const MARK_VIEWED_MUTATION: &'static str = r#"
mutation($pullRequestId: ID!, $path: String!) {
  markFileAsViewed(input: {pullRequestId: $pullRequestId, path: $path}) {
    pullRequest { id }
  }
}
"#;

/// The fields `gh pr view` is asked for.
pub const PR_VIEW_FIELDS: &'static str = "id,number,url,baseRefOid,headRefOid,files,headRepository";

/// The message for a repository that is neither `OWNER/REPO` nor
/// `HOST/OWNER/REPO`.
pub const BAD_REPO_MESSAGE: &'static str = "repo must be OWNER/REPO or HOST/OWNER/REPO";

/// The leading `gh` arguments that pin a repository.
pub open spec fn repo_args(repo: Option<Seq<char>>) -> Seq<Seq<char>> {
    match repo {
        Some(r) => seq!["-R"@, r],
        None => seq![],
    }
}

/// The owner and name in `OWNER/REPO` or `HOST/OWNER/REPO`.
pub open spec fn owner_and_name(repo: Seq<char>) -> Option<(Seq<char>, Seq<char>)> {
    let parts = split_on(repo, '/');
    if parts.len() == 2 {
        Some((parts[0], parts[1]))
    } else if parts.len() == 3 {
        Some((parts[1], parts[2]))
    } else {
        None
    }
}

/// The arguments of `gh pr view` for `pr`, or for the current branch.
pub open spec fn pr_view_args(repo: Option<Seq<char>>, pr: Option<Seq<char>>) -> Seq<Seq<char>> {
    repo_args(repo) + seq!["pr"@, "view"@, "--json"@, PR_VIEW_FIELDS@] + match pr {
        Some(p) => seq![p],
        None => seq![],
    }
}

/// The arguments of the GraphQL call that fetches `path` at `oid` in the
/// repository `owner/name`.
pub open spec fn file_blob_args(
    repo: Option<Seq<char>>,
    owner: Seq<char>,
    name: Seq<char>,
    oid: Seq<char>,
    path: Seq<char>,
) -> Seq<Seq<char>> {
    repo_args(repo) + seq![
        "api"@,
        "graphql"@,
        "-f"@,
        "query="@ + FILE_BLOB_QUERY@,
        "-F"@,
        "owner="@ + owner,
        "-F"@,
        "name="@ + name,
        "-F"@,
        "expr="@ + oid + ":"@ + path,
    ]
}

/// The arguments of the GraphQL call that marks `path` viewed in the pull
/// request with node id `pull_request_id`.
pub open spec fn mark_viewed_args(
    repo: Option<Seq<char>>,
    pull_request_id: Seq<char>,
    path: Seq<char>,
) -> Seq<Seq<char>> {
    repo_args(repo) + seq![
        "api"@,
        "graphql"@,
        "-f"@,
        "query="@ + MARK_VIEWED_MUTATION@,
        "-F"@,
        "pullRequestId="@ + pull_request_id,
        "-F"@,
        "path="@ + path,
    ]
}

impl Gh {
    /// The repository this client is pinned to.
    pub closed spec fn pinned_repo(&self) -> Option<Seq<char>> {
        opt_view(self.repo)
    }

    /// A client, pinned to `repo` when one is given.
    pub fn new(repo: Option<String>) -> (gh: Gh)
        ensures
            gh.pinned_repo() == opt_view(repo),
    {
        Gh { repo }
    }

    fn base_args(&self) -> (args: Vec<String>)
        ensures
            strings_view(args@) == repo_args(self.pinned_repo()),
    {
        let mut args: Vec<String> = Vec::new();
        match &self.repo {
            Some(r) => {
                args.push(owned("-R"));
                args.push(r.clone());
            },
            None => {},
        }
        args
    }

    /// The `gh` arguments that describe the pull request `pr` (a number, URL or
    /// branch), or the one for the current branch, as JSON.
    pub fn pr_view(&self, pr: Option<&str>) -> (args: Vec<String>)
        ensures
            strings_view(args@) == pr_view_args(
                self.pinned_repo(),
                match pr {
                    Some(p) => Some(p@),
                    None => None,
                },
            ),
    {
        let mut args = self.base_args();
        let ghost base = strings_view(args@);
        args.push(owned("pr"));
        args.push(owned("view"));
        args.push(owned("--json"));
        args.push(owned(PR_VIEW_FIELDS));
        match pr {
            Some(p) => args.push(owned(p)),
            None => {},
        }
        proof {
            assert(strings_view(args@) =~= pr_view_args(
                self.pinned_repo(),
                match pr {
                    Some(p) => Some(p@),
                    None => None,
                },
            ));
        }
        args
    }

    /// The `gh` arguments that fetch `path` at revision `oid` of `repo`
    /// (`OWNER/REPO` or `HOST/OWNER/REPO`); an error for any other form of
    /// `repo`.
    pub fn file_at_ref(&self, repo: &str, oid: &str, path: &str) -> (args: Result<
        Vec<String>,
        String,
    >)
        ensures
            match owner_and_name(repo@) {
                Some((owner, name)) => args is Ok && strings_view(args->Ok_0@) == file_blob_args(
                    self.pinned_repo(),
                    owner,
                    name,
                    oid@,
                    path@,
                ),
                None => args is Err && args->Err_0@ == BAD_REPO_MESSAGE@,
            },
    {
        let repo_chars = chars_of(repo);
        let parts = split_chars(repo_chars.as_slice(), '/');
        let (owner, name) = if parts.len() == 2 {
            (string_from_chars(parts[0].as_slice()), string_from_chars(parts[1].as_slice()))
        } else if parts.len() == 3 {
            (string_from_chars(parts[1].as_slice()), string_from_chars(parts[2].as_slice()))
        } else {
            return Err(owned(BAD_REPO_MESSAGE));
        };
        let mut args = self.base_args();
        let ghost base = strings_view(args@);
        args.push(owned("api"));
        args.push(owned("graphql"));
        args.push(owned("-f"));
        args.push(concat("query=", FILE_BLOB_QUERY));
        args.push(owned("-F"));
        args.push(concat("owner=", owner.as_str()));
        args.push(owned("-F"));
        args.push(concat("name=", name.as_str()));
        args.push(owned("-F"));
        let expr = concat(oid, ":");
        let expr = concat(expr.as_str(), path);
        args.push(concat("expr=", expr.as_str()));
        proof {
            assert(("expr="@ + (oid@ + ":"@ + path@)) =~= ("expr="@ + oid@ + ":"@ + path@));
            assert(strings_view(args@) =~= base + seq![
                "api"@,
                "graphql"@,
                "-f"@,
                "query="@ + FILE_BLOB_QUERY@,
                "-F"@,
                "owner="@ + owner@,
                "-F"@,
                "name="@ + name@,
                "-F"@,
                "expr="@ + oid@ + ":"@ + path@,
            ]);
            assert(strings_view(args@) =~= file_blob_args(
                self.pinned_repo(),
                owner@,
                name@,
                oid@,
                path@,
            ));
        }
        Ok(args)
    }

    /// The `gh` arguments that mark `path` as viewed in the pull request with
    /// node id `pull_request_id`.
    pub fn mark_file_viewed(&self, pull_request_id: &str, path: &str) -> (args: Vec<String>)
        ensures
            strings_view(args@) == mark_viewed_args(self.pinned_repo(), pull_request_id@, path@),
    {
        let mut args = self.base_args();
        args.push(owned("api"));
        args.push(owned("graphql"));
        args.push(owned("-f"));
        args.push(concat("query=", MARK_VIEWED_MUTATION));
        args.push(owned("-F"));
        args.push(concat("pullRequestId=", pull_request_id));
        args.push(owned("-F"));
        args.push(concat("path=", path));
        proof {
            assert(strings_view(args@) =~= mark_viewed_args(
                self.pinned_repo(),
                pull_request_id@,
                path@,
            ));
        }
        args
    }
}

/// What the blob query answered for one file: whether an object was found,
/// its `isBinary` flag when that is a boolean, and its `text` when that is a
/// string.
pub struct BlobLookup {
    pub object_found: bool,
    pub is_binary: Option<bool>,
    pub text: Option<String>,
}

/// The fields of a [`BlobLookup`].
pub open spec fn lookup_view(lookup: BlobLookup) -> (bool, Option<bool>, Option<Seq<char>>) {
    (lookup.object_found, lookup.is_binary, opt_view(lookup.text))
}

/// The text that a looked-up blob gives: none when no object was found or the
/// object is binary, else its text when it has one.
pub open spec fn blob_text_of(fields: (bool, Option<bool>, Option<Seq<char>>)) -> Option<Seq<char>> {
    if !fields.0 || fields.1 == Some(true) {
        None
    } else {
        fields.2
    }
}

/// The text of a looked-up blob.
pub fn blob_text(lookup: BlobLookup) -> (text: Option<String>)
    ensures
        opt_view(text) == blob_text_of(lookup_view(lookup)),
        text == if !lookup.object_found || lookup.is_binary == Some(true) {
            None
        } else {
            lookup.text
        },
{
    if !lookup.object_found {
        return None;
    }
    let binary = match lookup.is_binary {
        Some(b) => b,
        None => false,
    };
    if binary {
        return None;
    }
    lookup.text
}

/// `serde_json::Error`, what a failed JSON parse reports.
#[verifier::external_type_specification]
#[verifier::external_body]
pub struct ExJsonError(serde_json::Error);

/// What `serde_json` reads from the answer `output` of the blob query: none
/// when it is not JSON; else whether `data.repository.object` is present and
/// not null, its `isBinary` when that is a boolean, and its `text` when that
/// is a string (a missing key reads as null).
pub uninterp spec fn blob_answer_fields(output: Seq<char>) -> Option<(bool, Option<bool>, Option<Seq<char>>)>;

/// Parses `output` with `serde_json::from_str` into a `serde_json::Value` and
/// reads `data.repository.object` with `Value`'s indexing, `is_null`,
/// `as_bool` and `as_str`. The contract names what is read, which depends on
/// the text alone, and hands a parse error back as it is.
#[verifier::external_body]
fn parse_blob_answer(output: &str) -> (answer: Result<BlobLookup, serde_json::Error>)
    ensures
        match answer {
            Ok(lookup) => blob_answer_fields(output@) == Some(lookup_view(lookup)),
            Err(_) => blob_answer_fields(output@) is None,
        },
{
    let value: serde_json::Value = serde_json::from_str(output)?;
    let object = &value["data"]["repository"]["object"];
    Ok(BlobLookup {
        object_found: !object.is_null(),
        is_binary: object["isBinary"].as_bool(),
        text: object["text"].as_str().map(ToOwned::to_owned),
    })
}

/// The message of a JSON parse error, from its `Display`. Nothing is claimed
/// of the message.
#[verifier::external_body]
fn json_error_message(error: &serde_json::Error) -> (message: String) {
    error.to_string()
}

/// The text of the file that the answer `output` of the blob query gives:
/// none for a missing or binary object; an error with the parser's message
/// when the answer is not JSON.
pub fn file_text_from_answer(output: &str) -> (text: Result<Option<String>, String>)
    ensures
        match blob_answer_fields(output@) {
            Some(fields) => text is Ok && opt_view(text->Ok_0) == blob_text_of(fields),
            None => text is Err,
        },
{
    match parse_blob_answer(output) {
        Ok(lookup) => Ok(blob_text(lookup)),
        Err(error) => Err(json_error_message(&error)),
    }
}

} // verus!
