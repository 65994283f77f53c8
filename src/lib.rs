//! Upload a local video to a hosting service, optionally trimming it first,
//! and follow the remote transcoding job until it finishes.
//!
//! Everything here is pure decision logic: which encoder arguments to use,
//! how a ticket or a status reply is judged, and the step function of the
//! upload workflow. Running processes and talking to the network is left to
//! the caller, which performs the actions the workflow asks for.

pub mod remote;
pub mod trim;
pub mod workflow;

pub use trim::{cut_file, encoder_args, CutPlan, ENCODER_PROGRAM};
pub use remote::{
    accept_ticket, is_complete, page_url, status_url, GfycatInfo, GfycatProgress, UploadError,
    NO_MD5_FIELD, NO_MD5_VALUE, TERMINAL_TASK, TICKET_URL, UPLOAD_FILE_FIELD, UPLOAD_KEY_FIELD,
    UPLOAD_URL,
};
pub use workflow::{Action, Args, Event, Limits, Stage, Step, Workflow, OUTPUT_FILE};
