//! What the application does with its windows, its folders and its log
//! files: the decisions, without the windows and the disk.

use url::Url;
use vstd::prelude::*;
use vstd::string::*;

verus! {

/// What to do with the developer tools of a window.
#[derive(Debug, Clone, Copy, PartialEq, Eq, Structural)]
pub enum DevtoolsAction {
    Open,
    Close,
}

/// Toggling the developer tools opens them where they are closed and closes
/// them where they are open.
pub fn toggle_devtools(is_open: bool) -> (action: DevtoolsAction)
    ensures
        action == if is_open {
            DevtoolsAction::Close
        } else {
            DevtoolsAction::Open
        },
{
    if !is_open {
        DevtoolsAction::Open
    } else {
        DevtoolsAction::Close
    }
}

/// What to do when the user asks for a folder or a file: hand it to the
/// system's shell, or tell the user that it is missing.
#[derive(Debug, Clone, PartialEq, Eq)]
pub enum OpenRequest {
    Open { path: String },
    Report { title: String, message: String },
}

/// What an [`OpenRequest`] is in contracts.
pub enum OpenRequestView {
    Open { path: Seq<char> },
    Report { title: Seq<char>, message: Seq<char> },
}

impl View for OpenRequest {
    type V = OpenRequestView;

    open spec fn view(&self) -> OpenRequestView {
        match self {
            OpenRequest::Open { path } => OpenRequestView::Open { path: path@ },
            OpenRequest::Report { title, message } => OpenRequestView::Report {
                title: title@,
                message: message@,
            },
        }
    }
}

/// The request for a folder at `path`.
pub open spec fn directory_request(path: Seq<char>, exists: bool) -> OpenRequestView {
    if exists {
        OpenRequestView::Open { path }
    } else {
        OpenRequestView::Report {
            title: "Cannot Open Log Directory"@,
            message: "Directory "@ + path + " not found!"@,
        }
    }
}

/// The request for a log file at `path`.
pub open spec fn log_file_request(path: Seq<char>, exists: bool) -> OpenRequestView {
    if exists {
        OpenRequestView::Open { path }
    } else {
        OpenRequestView::Report {
            title: "Cannot Open Log File"@,
            message: "Log file not found: "@ + path,
        }
    }
}

/// The request for a folder: open it where it exists, else report it.
fn open_directory(path: &str, exists: bool) -> (request: OpenRequest)
    ensures
        request@ == directory_request(path@, exists),
{
    if exists {
        OpenRequest::Open { path: String::from_str(path) }
    } else {
        OpenRequest::Report {
            title: String::from_str("Cannot Open Log Directory"),
            message: String::from_str("Directory ").concat(path).concat(" not found!"),
        }
    }
}

/// The request for the data folder of the application, which is at `path`.
pub fn open_data_directory(path: &str, exists: bool) -> (request: OpenRequest)
    ensures
        request@ == directory_request(path@, exists),
{
    open_directory(path, exists)
}

/// The request for the log folder of the application, which is at `path`.
pub fn open_log_directory(path: &str, exists: bool) -> (request: OpenRequest)
    ensures
        request@ == directory_request(path@, exists),
{
    open_directory(path, exists)
}

/// The path of the log file named `path`, without its extension.
pub fn log_file_path(path: &str) -> (log_file: String)
    ensures
        log_file@ == path@ + ".log"@,
{
    String::from_str(path).concat(".log")
}

/// The request for the log file at `log_file`: open it where it exists, else
/// report it.
pub fn open_log_file(log_file: &str, exists: bool) -> (request: OpenRequest)
    ensures
        request@ == log_file_request(log_file@, exists),
{
    if exists {
        OpenRequest::Open { path: String::from_str(log_file) }
    } else {
        OpenRequest::Report {
            title: String::from_str("Cannot Open Log File"),
            message: String::from_str("Log file not found: ").concat(log_file),
        }
    }
}

/// `url::ParseError`: why a text is no URL. Opaque to the verifier.
#[verifier::external_type_specification]
#[verifier::external_body]
pub struct ExParseError(url::ParseError);

/// What `url::Url::join` gives for the URL that `base` is and the reference
/// `reference`: the joined URL as text, or `None` where `base` is no URL or
/// the reference cannot be resolved against it.
pub uninterp spec fn joined_url(base: Seq<char>, reference: Seq<char>) -> Option<Seq<char>>;

/// `url::Url::join` on the URL that `url::Url::parse` makes of `base`: the
/// joined URL as text.
#[verifier::external_body]
fn join_url(base: &str, reference: &str) -> (joined: Result<String, url::ParseError>)
    ensures
        match joined {
            Ok(target) => joined_url(base@, reference@) == Some(target@),
            Err(_) => joined_url(base@, reference@) is None,
        },
{
    Url::parse(base)?.join(reference).map(String::from)
}

/// Where a window that shows `current` goes for the URL `target`: nowhere
/// where it is there already.
pub fn navigation(current: &str, target: String) -> (go: Option<String>)
    ensures
        match go {
            Some(url) => url@ == target@ && target@ != current@,
            None => target@ == current@,
        },
{
    if target == String::from_str(current) {
        None
    } else {
        Some(target)
    }
}

/// Where a window that shows `current_url` goes for `url`, which may be
/// relative to `current_url`: to the joined URL, or nowhere where that is
/// the URL shown. Fails where the two cannot be joined.
pub fn navigate_to(current_url: &str, url: &str) -> (res: Result<Option<String>, String>)
    ensures
        match joined_url(current_url@, url@) {
            Some(target) => res matches Ok(go) && match go {
                Some(new_url) => new_url@ == target && target != current_url@,
                None => target == current_url@,
            },
            None => res is Err,
        },
{
    match join_url(current_url, url) {
        Ok(target) => Ok(navigation(current_url, target)),
        Err(error) => Err(error.to_string()),
    }
}

} // verus!
