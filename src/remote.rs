use vstd::prelude::*;

verus! {

/// The service's endpoint that issues upload tickets.
pub const TICKET_URL: &'static str = "https://api.gfycat.com/v1/gfycats";

/// The endpoint that receives the multipart upload.
pub const UPLOAD_URL: &'static str = "https://filedrop.gfycat.com";

/// The ticket request's one field: the server is told not to checksum.
pub const NO_MD5_FIELD: &'static str = "noMd5";

/// The value sent for `NO_MD5_FIELD`.
pub const NO_MD5_VALUE: &'static str = "false";

/// The upload form's text field holding the identifier.
pub const UPLOAD_KEY_FIELD: &'static str = "key";

/// The upload form's file field.
pub const UPLOAD_FILE_FIELD: &'static str = "file";

/// The task state that ends polling.
pub const TERMINAL_TASK: &'static str = "complete";

/// A ticket for one upload, as the service returns it.
#[derive(Debug, Clone)]
pub struct GfycatInfo {
    /// The identifier that correlates the upload and every status query.
    pub gfy_name: String,
    pub secret: String,
    /// Present and non-empty when the service refused the request.
    pub error: Option<String>,
}

/// One reply of the status endpoint.
#[derive(Debug, Clone)]
pub struct GfycatProgress {
    /// The job's state; absent while the service does not know it yet.
    pub task: Option<String>,
    pub gfy_name: Option<String>,
    pub time: Option<i32>,
}

/// Why a workflow run stopped without finishing.
#[derive(Debug, Clone)]
pub enum UploadError {
    /// The input path does not name a regular file.
    InputMissing { path: String },
    /// The encoder could not be started.
    EncoderUnavailable(String),
    /// The encoder ran and reported failure.
    EncoderFailed(String),
    /// Copying the input to the output failed.
    CopyFailed(String),
    /// The ticket reply carried a non-empty error message.
    RemoteRejected(String),
    /// A request did not complete or came back with a non-success status.
    Transport(String),
    /// A reply did not have the expected shape.
    Decode(String),
    /// The job was still not finished after the allowed number of polls.
    Timeout,
    /// An event arrived that the current stage does not expect.
    UnexpectedEvent,
}

/// Whether a ticket reply carries a rejection.
pub open spec fn rejection(info: GfycatInfo) -> Option<Seq<char>> {
    match info.error {
        Some(e) => if e@.len() > 0 {
            Some(e@)
        } else {
            None
        },
        None => None,
    }
}

/// Accepts a ticket reply, or turns the message of a rejected one into
/// `RemoteRejected`.
pub fn accept_ticket(info: GfycatInfo) -> (r: Result<GfycatInfo, UploadError>)
    ensures
        rejection(info) is None ==> r == Ok::<GfycatInfo, UploadError>(info),
        rejection(info) matches Some(m) ==> (r matches Err(UploadError::RemoteRejected(e))
            && e@ == m),
{
    let rejected = match &info.error {
        Some(e) => !e.as_str().is_empty(),
        None => false,
    };
    if rejected {
        match info.error {
            Some(e) => Err(UploadError::RemoteRejected(e)),
            None => Ok(info),
        }
    } else {
        Ok(info)
    }
}

/// Whether a status reply names the terminal task state.
pub open spec fn is_terminal(p: GfycatProgress) -> bool {
    p.task matches Some(t) && t@ == TERMINAL_TASK@
}

/// Tells whether the remote job has finished. An absent task state means
/// "not known yet", which is not terminal.
pub fn is_complete(p: &GfycatProgress) -> (r: bool)
    ensures
        r == is_terminal(*p),
{
    match &p.task {
        Some(t) => {
            let done = String::from_str(TERMINAL_TASK);
            *t == done
        },
        None => false,
    }
}

/// The status endpoint of one upload.
pub fn status_url(gfy_name: &str) -> (r: String)
    ensures
        r@ == "https://api.gfycat.com/v1/gfycats/fetch/status/"@ + gfy_name@,
{
    String::from_str("https://api.gfycat.com/v1/gfycats/fetch/status/").concat(gfy_name)
}

/// The page where an upload can be watched.
pub fn page_url(gfy_name: &str) -> (r: String)
    ensures
        r@ == "https://gfycat.com/"@ + gfy_name@,
{
    String::from_str("https://gfycat.com/").concat(gfy_name)
}

} // verus!
