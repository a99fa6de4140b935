//! Where a file's text comes from: the request that fetches it.
//!
//! The library never reads a file or opens a connection. It says which
//! file to read, or which request to send to the remote repository's
//! contents API, and is handed back what came of it.

use vstd::prelude::*;
use vstd::string::*;

verus! {

/// Why a fetch brought no text.
#[derive(Debug)]
pub enum FetchError {
    /// The local file does not exist or cannot be read.
    LocalFileNotFound,
    /// The remote request failed in transport or was answered with a status
    /// other than success; the text says how.
    RemoteFetchError(String),
}

/// One fetch for the caller to perform.
#[derive(Debug)]
pub enum FetchRequest {
    /// Read the file at `path` as text.
    Local { path: String },
    /// Send a GET to `url` with these three headers and take the body of the
    /// answer as the text.
    Remote { url: String, user_agent: String, accept: String, authorization: String },
}

pub enum FetchRequestView {
    Local { path: Seq<char> },
    Remote {
        url: Seq<char>,
        user_agent: Seq<char>,
        accept: Seq<char>,
        authorization: Seq<char>,
    },
}

impl View for FetchRequest {
    type V = FetchRequestView;

    open spec fn view(&self) -> FetchRequestView {
        match self {
            FetchRequest::Local { path } => FetchRequestView::Local { path: path@ },
            FetchRequest::Remote { url, user_agent, accept, authorization } => FetchRequestView::Remote {
                url: url@,
                user_agent: user_agent@,
                accept: accept@,
                authorization: authorization@,
            },
        }
    }
}

/// `suffix` is what `text` ends in.
pub open spec fn ends_with(text: Seq<char>, suffix: Seq<char>) -> bool {
    suffix.len() <= text.len() && text.subrange(text.len() - suffix.len(), text.len() as int) == suffix
}

/// The address of `path` within `project` in the contents API.
pub open spec fn github_url(project: Seq<char>, path: Seq<char>) -> Seq<char> {
    "https://api.github.com/repos/"@ + project + "/contents/"@ + path
}

/// The representation to ask for: a path that ends in `html` is taken as it
/// is stored, any other as rendered to HTML by the remote side.
pub open spec fn github_accept(path: Seq<char>) -> Seq<char> {
    if ends_with(path, "html"@) {
        "application/vnd.github.raw"@
    } else {
        "application/vnd.github.html"@
    }
}

/// The request for `path` within the remote `project`, authorized by the
/// bare credential `access_token` behind the scheme `Bearer`.
pub open spec fn github_request(project: Seq<char>, path: Seq<char>, access_token: Seq<char>) -> FetchRequestView {
    FetchRequestView::Remote {
        url: github_url(project, path),
        user_agent: "gitsite"@,
        accept: github_accept(path),
        authorization: "Bearer "@ + access_token,
    }
}

/// The request for `file_path` below the local root `local_files_dir`.
pub open spec fn local_request(local_files_dir: Seq<char>, file_path: Seq<char>) -> FetchRequestView {
    FetchRequestView::Local { path: local_files_dir + file_path }
}

/// The request that fetches a described file: remote where the descriptor
/// names a project, local otherwise.
pub open spec fn fetch_request(
    local_files_dir: Seq<char>,
    access_token: Seq<char>,
    file_path: Seq<char>,
    github_project: Option<Seq<char>>,
) -> FetchRequestView {
    match github_project {
        Some(project) => github_request(project, file_path, access_token),
        None => local_request(local_files_dir, file_path),
    }
}

/// Whether `text` ends in `suffix`, character by character from the end.
pub fn has_suffix(text: &str, suffix: &str) -> (found: bool)
    ensures
        found == ends_with(text@, suffix@),
{
    let text_len: usize = text.unicode_len();
    let suffix_len: usize = suffix.unicode_len();
    if suffix_len > text_len {
        return false;
    }
    let start: usize = text_len - suffix_len;
    let mut i: usize = 0;
    while i < suffix_len
        invariant
            text_len == text@.len(),
            suffix_len == suffix@.len(),
            suffix_len <= text_len,
            start == text_len - suffix_len,
            i <= suffix_len,
            forall|j: int| 0 <= j < i ==> text@[start + j] == suffix@[j],
        decreases suffix_len - i,
    {
        if text.get_char(start + i) != suffix.get_char(i) {
            assert(text@.subrange(start as int, text_len as int)[i as int] != suffix@[i as int]);
            return false;
        }
        i += 1;
    }
    assert(text@.subrange(start as int, text_len as int) =~= suffix@);
    true
}

/// Builds the request for `path` within the remote `project`.
///
/// `access_token` is the bare credential. The scheme is added here: the
/// request's authorization is `Bearer `, then the credential. A credential
/// that already starts with the scheme gets it a second time.
pub fn get_github_file_request(project: &str, path: &str, access_token: &str) -> (request: FetchRequest)
    ensures
        request@ == github_request(project@, path@, access_token@),
{
    let mut url = String::from_str("https://api.github.com/repos/");
    url.append(project);
    url.append("/contents/");
    url.append(path);
    let accept = if has_suffix(path, "html") {
        String::from_str("application/vnd.github.raw")
    } else {
        String::from_str("application/vnd.github.html")
    };
    let mut authorization = String::from_str("Bearer ");
    authorization.append(access_token);
    FetchRequest::Remote { url, user_agent: String::from_str("gitsite"), accept, authorization }
}

/// Builds the request for `file_path` below the local root.
pub fn get_local_file_request(local_files_dir: &str, file_path: &str) -> (request: FetchRequest)
    ensures
        request@ == local_request(local_files_dir@, file_path@),
{
    let mut path = String::from_str(local_files_dir);
    path.append(file_path);
    FetchRequest::Local { path }
}

/// Builds the request that fetches a described file.
pub fn get_file_request(
    local_files_dir: &str,
    access_token: &str,
    file_path: &str,
    github_project: &Option<String>,
) -> (request: FetchRequest)
    ensures
        request@ == fetch_request(local_files_dir@, access_token@, file_path@, crate::models::text_of(*github_project)),
{
    match github_project {
        Some(project) => get_github_file_request(project.as_str(), file_path, access_token),
        None => get_local_file_request(local_files_dir, file_path),
    }
}

} // verus!
