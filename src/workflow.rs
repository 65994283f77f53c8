use vstd::prelude::*;
use crate::remote::{
    accept_ticket, is_complete, is_terminal, page_url, rejection, GfycatInfo, GfycatProgress,
    UploadError,
};
use crate::trim::{cut_file, encoder_args_spec, string_views, CutPlan};

verus! {

/// Where the file to upload is written, overwritten on every run.
pub const OUTPUT_FILE: &'static str = "out.mp4";

/// One upload job, as the caller describes it.
#[derive(Debug, Clone)]
pub struct Args {
    /// Where the clip starts; absent for the beginning of the input.
    pub start_time: Option<String>,
    /// Where the clip ends; absent for the end of the input.
    pub end_time: Option<String>,
    /// Whether the caller echoes every raw status reply.
    pub verbose: bool,
    /// The video to upload.
    pub input_file: String,
}

/// Bounds on the polling phase.
#[derive(Debug, Clone, Copy)]
pub struct Limits {
    /// Seconds to wait between two status queries.
    pub poll_interval_secs: u64,
    /// Status queries allowed in all before the run times out.
    pub max_polls: u64,
    /// Failed status queries in a row that are retried.
    pub max_poll_retries: u64,
}

impl Limits {
    /// Five seconds between queries, an hour in all, three retries.
    pub fn standard() -> (r: Limits)
        ensures
            r.poll_interval_secs == 5,
            r.max_polls == 720,
            r.max_poll_retries == 3,
    {
        Limits { poll_interval_secs: 5, max_polls: 720, max_poll_retries: 3 }
    }
}

/// Where a workflow run stands.
#[derive(Debug, Clone, Copy, PartialEq, Eq, Structural)]
pub enum Stage {
    /// Created, nothing asked yet.
    Ready,
    /// Waiting to learn whether the input is a regular file.
    CheckingInput,
    /// Waiting for the copy or the encoder run.
    Preparing,
    /// Waiting for the ticket.
    Ticketing,
    /// Waiting for the upload to finish.
    Uploading,
    /// Waiting for a status reply.
    Polling,
    /// The remote job finished.
    Done,
    /// The run stopped on an error.
    Failed,
}

/// What the caller reports back after performing an action.
pub enum Event {
    /// Start the run.
    Begin,
    /// Whether the input path names a regular file.
    InputChecked { is_file: bool },
    /// The outcome of the copy or the encoder run.
    Prepared(Result<(), UploadError>),
    /// The ticket reply, or why none came.
    TicketReceived(Result<GfycatInfo, UploadError>),
    /// The outcome of the upload.
    Uploaded(Result<(), UploadError>),
    /// A status reply, or why none came.
    Polled(Result<GfycatProgress, UploadError>),
}

/// What the caller is asked to do next.
pub enum Action {
    /// Find out whether `path` names a regular file.
    CheckInput { path: String },
    /// Produce `output` from `input` as `plan` says.
    Prepare { plan: CutPlan, input: String, output: String },
    /// Ask the service for a ticket.
    RequestTicket,
    /// Upload the file at `path` under `identifier`.
    Upload { identifier: String, path: String },
    /// Wait `delay_secs` seconds, then query the status of `identifier`.
    Poll { identifier: String, delay_secs: u64 },
    /// The job finished; nothing is left to do.
    Finish { identifier: String },
    /// The run failed; nothing is left to do.
    Abort { error: UploadError },
}

/// An action, with a progress line for the user where one is due.
pub struct Step {
    pub action: Action,
    pub notice: Option<String>,
}

/// One run of the upload workflow: trim, ticket, upload, poll.
pub struct Workflow {
    pub job: Args,
    pub output_file: String,
    pub limits: Limits,
    pub stage: Stage,
    /// The identifier of the ticket; empty until one was accepted.
    pub identifier: String,
    /// Status queries issued so far.
    pub polls: u64,
    /// Failed status queries since the last reply.
    pub failures: u64,
}

/// The view of an optional string.
pub open spec fn opt_string_view(o: Option<String>) -> Option<Seq<char>> {
    match o {
        Some(s) => Some(s@),
        None => None,
    }
}

/// The line shown when the upload starts.
pub open spec fn upload_started_notice(id: Seq<char>) -> Seq<char> {
    "Starting upload to "@ + ("https://gfycat.com/"@ + id)
}

/// The line shown when the upload is done.
pub open spec fn upload_finished_notice() -> Seq<char> {
    "Upload finished. Waiting for encoding to finish."@
}

/// The line shown when the remote job finished.
pub open spec fn encode_finished_notice(id: Seq<char>) -> Seq<char> {
    "Encoding finished! Finished gfycat at: "@ + ("https://gfycat.com/"@ + id)
}

/// Whether `ev` is what a run in `stage` waits for.
pub open spec fn fits(stage: Stage, ev: Event) -> bool {
    match ev {
        Event::Begin => stage == Stage::Ready,
        Event::InputChecked { .. } => stage == Stage::CheckingInput,
        Event::Prepared(_) => stage == Stage::Preparing,
        Event::TicketReceived(_) => stage == Stage::Ticketing,
        Event::Uploaded(_) => stage == Stage::Uploading,
        Event::Polled(_) => stage == Stage::Polling,
    }
}

/// The run stopped on `error`.
pub open spec fn aborted_with(after: Workflow, r: Step, error: UploadError) -> bool {
    &&& after.stage == Stage::Failed
    &&& r.action == (Action::Abort { error })
    &&& r.notice is None
}

/// The run issues one more status query for its identifier, after the
/// polling interval.
pub open spec fn polls_again(before: Workflow, after: Workflow, r: Step) -> bool {
    &&& after.stage == Stage::Polling
    &&& after.polls == before.polls + 1
    &&& r.action == (Action::Poll {
        identifier: before.identifier,
        delay_secs: before.limits.poll_interval_secs,
    })
    &&& r.notice is None
}

impl Workflow {
    /// The state of a run: no identifier before the ticket, and in the
    /// polling phase at least one and at most `max_polls` queries issued.
    pub open spec fn wf(&self) -> bool {
        &&& (self.stage == Stage::Ready || self.stage == Stage::CheckingInput || self.stage
            == Stage::Preparing || self.stage == Stage::Ticketing) ==> self.identifier@.len() == 0
        &&& self.stage == Stage::Polling ==> 1 <= self.polls <= self.limits.max_polls
        &&& self.failures <= self.limits.max_poll_retries
    }

    /// A run that has not started: no identifier, no query issued.
    pub open spec fn is_fresh(&self) -> bool {
        &&& self.stage == Stage::Ready
        &&& self.identifier@.len() == 0
        &&& self.polls == 0
        &&& self.failures == 0
    }

    /// Whether the run is over, either way.
    pub open spec fn is_over(&self) -> bool {
        self.stage == Stage::Done || self.stage == Stage::Failed
    }

    /// A run of `job` that writes its upload file to `output_file`.
    pub fn new(job: Args, output_file: &str, limits: Limits) -> (r: Workflow)
        ensures
            r.wf(),
            r.job == job,
            r.output_file@ == output_file@,
            r.limits == limits,
            r.is_fresh(),
    {
        Workflow {
            job,
            output_file: String::from_str(output_file),
            limits,
            stage: Stage::Ready,
            identifier: String::new(),
            polls: 0,
            failures: 0,
        }
    }

    fn fail(&mut self, error: UploadError) -> (r: Step)
        requires
            old(self).wf(),
        ensures
            final(self).wf(),
            *final(self) == (Workflow { stage: Stage::Failed, ..*old(self) }),
            r.action == (Action::Abort { error }),
            r.notice is None,
    {
        self.stage = Stage::Failed;
        Step { action: Action::Abort { error }, notice: None }
    }
    /// Advances the run by one event and says what to do next.
    ///
    /// The run goes through its stages in order: input check, copy or
    /// encoder run, ticket, upload, polling. An event that the stage does not
    /// wait for, and any failure reported back, ends the run with `Abort`.
    /// The input is checked before anything else is asked for, so a missing
    /// input ends the run before any request to the service. Polling stops on
    /// the terminal task state, after `max_poll_retries` failed queries in a
    /// row have been retried, or once `max_polls` queries were issued.
    pub fn step(&mut self, ev: Event) -> (r: Step)
        requires
            old(self).wf(),
        ensures
            final(self).wf(),
            final(self).job == old(self).job,
            final(self).output_file == old(self).output_file,
            final(self).limits == old(self).limits,
            final(self).is_over() <==> (r.action is Finish || r.action is Abort),
            old(self).stage != Stage::Ticketing ==> final(self).identifier == old(self).identifier,
            !fits(old(self).stage, ev) ==> aborted_with(
                *final(self),
                r,
                UploadError::UnexpectedEvent,
            ),
            // start
            old(self).stage == Stage::Ready && ev is Begin ==> final(self).stage
                == Stage::CheckingInput && r.action == (Action::CheckInput {
                path: old(self).job.input_file,
            }) && r.notice is None,
            // input check
            old(self).stage == Stage::CheckingInput && ev == (Event::InputChecked {
                is_file: false,
            }) ==> aborted_with(
                *final(self),
                r,
                UploadError::InputMissing { path: old(self).job.input_file },
            ),
            old(self).stage == Stage::CheckingInput && ev == (Event::InputChecked {
                is_file: true,
            }) ==> final(self).stage == Stage::Preparing && r.notice is None && (
            r.action matches Action::Prepare { plan, input, output } && input
                == old(self).job.input_file && output == old(self).output_file && ((plan is Copy)
                <==> (old(self).job.start_time is None && old(self).job.end_time is None)) && (
            plan matches CutPlan::Encode { args } ==> string_views(args@) == encoder_args_spec(
                input@,
                output@,
                opt_string_view(old(self).job.start_time),
                opt_string_view(old(self).job.end_time),
            ))),
            // copy or encoder run
            old(self).stage == Stage::Preparing ==> (ev matches Event::Prepared(Err(e))
                ==> aborted_with(*final(self), r, e)),
            old(self).stage == Stage::Preparing ==> (ev matches Event::Prepared(Ok(_))
                ==> final(self).stage == Stage::Ticketing && r.action is RequestTicket
                && r.notice is None),
            // ticket
            old(self).stage == Stage::Ticketing ==> (ev matches Event::TicketReceived(Err(e))
                ==> aborted_with(*final(self), r, e)),
            old(self).stage == Stage::Ticketing ==> (ev matches Event::TicketReceived(Ok(info))
                ==> (rejection(info) is Some ==> final(self).stage == Stage::Failed && (
            r.action matches Action::Abort { error: UploadError::RemoteRejected(msg) }
                && Some(msg@) == rejection(info)))),
            old(self).stage == Stage::Ticketing ==> (ev matches Event::TicketReceived(Ok(info))
                ==> (rejection(info) is None ==> {
                &&& final(self).stage == Stage::Uploading
                &&& final(self).identifier == info.gfy_name
                &&& r.action == (Action::Upload {
                    identifier: info.gfy_name,
                    path: old(self).output_file,
                })
                &&& r.notice matches Some(n) && n@ == upload_started_notice(info.gfy_name@)
            })),
            // upload
            old(self).stage == Stage::Uploading ==> (ev matches Event::Uploaded(Err(e))
                ==> aborted_with(*final(self), r, e)),
            old(self).stage == Stage::Uploading ==> (ev matches Event::Uploaded(Ok(_)) ==> (
            old(self).limits.max_polls == 0 ==> aborted_with(
                *final(self),
                r,
                UploadError::Timeout,
            ))),
            old(self).stage == Stage::Uploading ==> (ev matches Event::Uploaded(Ok(_)) ==> (
            old(self).limits.max_polls > 0 ==> {
                &&& final(self).stage == Stage::Polling
                &&& final(self).polls == 1
                &&& final(self).failures == 0
                &&& r.action == (Action::Poll { identifier: old(self).identifier, delay_secs: 0 })
                &&& r.notice matches Some(n) && n@ == upload_finished_notice()
            })),
            // polling
            old(self).stage == Stage::Polling ==> (ev matches Event::Polled(Ok(p)) ==> (
            is_terminal(p) ==> {
                &&& final(self).stage == Stage::Done
                &&& r.action == (Action::Finish { identifier: old(self).identifier })
                &&& r.notice matches Some(n) && n@ == encode_finished_notice(
                    old(self).identifier@,
                )
            })),
            old(self).stage == Stage::Polling ==> (ev matches Event::Polled(Ok(p)) ==> (
            !is_terminal(p) ==> if old(self).polls < old(self).limits.max_polls {
                polls_again(*old(self), *final(self), r) && final(self).failures == 0
            } else {
                aborted_with(*final(self), r, UploadError::Timeout)
            })),
            old(self).stage == Stage::Polling ==> (ev matches Event::Polled(Err(e)) ==> (
            old(self).failures >= old(self).limits.max_poll_retries ==> aborted_with(
                *final(self),
                r,
                e,
            ))),
            old(self).stage == Stage::Polling ==> (ev matches Event::Polled(Err(e)) ==> (
            old(self).failures < old(self).limits.max_poll_retries ==> if old(self).polls < old(
                self,
            ).limits.max_polls {
                polls_again(*old(self), *final(self), r) && final(self).failures == old(
                    self,
                ).failures + 1
            } else {
                aborted_with(*final(self), r, UploadError::Timeout)
            })),
    {
        match ev {
            Event::Begin => {
                if self.stage != Stage::Ready {
                    return self.fail(UploadError::UnexpectedEvent);
                }
                self.stage = Stage::CheckingInput;
                Step {
                    action: Action::CheckInput { path: self.job.input_file.clone() },
                    notice: None,
                }
            },
            Event::InputChecked { is_file } => {
                if self.stage != Stage::CheckingInput {
                    return self.fail(UploadError::UnexpectedEvent);
                }
                if !is_file {
                    let path = self.job.input_file.clone();
                    return self.fail(UploadError::InputMissing { path });
                }
                let start: Option<&String> = match &self.job.start_time {
                    Some(s) => Some(s),
                    None => None,
                };
                let end: Option<&String> = match &self.job.end_time {
                    Some(e) => Some(e),
                    None => None,
                };
                let plan = cut_file(
                    self.job.input_file.as_str(),
                    self.output_file.as_str(),
                    start,
                    end,
                );
                self.stage = Stage::Preparing;
                Step {
                    action: Action::Prepare {
                        plan,
                        input: self.job.input_file.clone(),
                        output: self.output_file.clone(),
                    },
                    notice: None,
                }
            },
            Event::Prepared(outcome) => {
                if self.stage != Stage::Preparing {
                    return self.fail(UploadError::UnexpectedEvent);
                }
                match outcome {
                    Err(e) => self.fail(e),
                    Ok(_) => {
                        self.stage = Stage::Ticketing;
                        Step { action: Action::RequestTicket, notice: None }
                    },
                }
            },
            Event::TicketReceived(reply) => {
                if self.stage != Stage::Ticketing {
                    return self.fail(UploadError::UnexpectedEvent);
                }
                let info = match reply {
                    Err(e) => {
                        return self.fail(e);
                    },
                    Ok(info) => info,
                };
                match accept_ticket(info) {
                    Err(e) => self.fail(e),
                    Ok(ticket) => {
                        let page = page_url(ticket.gfy_name.as_str());
                        let notice = String::from_str("Starting upload to ").concat(page.as_str());
                        self.identifier = ticket.gfy_name.clone();
                        self.stage = Stage::Uploading;
                        Step {
                            action: Action::Upload {
                                identifier: ticket.gfy_name,
                                path: self.output_file.clone(),
                            },
                            notice: Some(notice),
                        }
                    },
                }
            },
            Event::Uploaded(outcome) => {
                if self.stage != Stage::Uploading {
                    return self.fail(UploadError::UnexpectedEvent);
                }
                if let Err(e) = outcome {
                    return self.fail(e);
                }
                if self.limits.max_polls == 0 {
                    return self.fail(UploadError::Timeout);
                }
                self.stage = Stage::Polling;
                self.polls = 1;
                self.failures = 0;
                Step {
                    action: Action::Poll { identifier: self.identifier.clone(), delay_secs: 0 },
                    notice: Some(
                        String::from_str("Upload finished. Waiting for encoding to finish."),
                    ),
                }
            },
            Event::Polled(reply) => {
                if self.stage != Stage::Polling {
                    return self.fail(UploadError::UnexpectedEvent);
                }
                match reply {
                    Ok(progress) => {
                        if is_complete(&progress) {
                            let page = page_url(self.identifier.as_str());
                            let notice = String::from_str(
                                "Encoding finished! Finished gfycat at: ",
                            ).concat(page.as_str());
                            self.stage = Stage::Done;
                            return Step {
                                action: Action::Finish { identifier: self.identifier.clone() },
                                notice: Some(notice),
                            };
                        }
                        self.failures = 0;
                    },
                    Err(e) => {
                        if self.failures >= self.limits.max_poll_retries {
                            return self.fail(e);
                        }
                        self.failures = self.failures + 1;
                    },
                }
                if self.polls >= self.limits.max_polls {
                    return self.fail(UploadError::Timeout);
                }
                self.polls = self.polls + 1;
                Step {
                    action: Action::Poll {
                        identifier: self.identifier.clone(),
                        delay_secs: self.limits.poll_interval_secs,
                    },
                    notice: None,
                }
            },
        }
    }
}

/// Two runs of one job share nothing: each run made from the same job,
/// output path and limits starts in the same state, with no identifier and no
/// query issued, so the identifier a run uploads under, polls for and reports
/// is the one its own accepted ticket carried (the only step that sets it).
pub proof fn lemma_runs_independent(a: Workflow, b: Workflow)
    requires
        a.is_fresh(),
        b.is_fresh(),
        a.job == b.job,
        a.output_file@ == b.output_file@,
        a.limits == b.limits,
    ensures
        a.wf() && b.wf(),
        a.stage == b.stage,
        a.identifier@ == b.identifier@,
        a.identifier@ == Seq::<char>::empty(),
        a.polls == b.polls && a.failures == b.failures,
{
}

} // verus!