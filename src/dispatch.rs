use vstd::prelude::*;
use crate::fingerprint::{fingerprint_of, generate_job_id, generate_random_job_id};
use crate::request::PitchLakeJobRequest;
use crate::validate::{ValidationError, error_text, request_result, validate_request};

verus! {

/// The status of a stored job, owned and changed by the job pipeline.
#[derive(Clone, Copy, Debug, PartialEq, Eq, Structural)]
pub enum JobStatus {
    Pending,
    Completed,
    Failed,
}

/// The transport-level outcome of handling a request.
#[derive(Clone, Copy, Debug, PartialEq, Eq, Structural)]
pub enum HttpStatus {
    Success,
    BadRequest,
    InternalServerError,
}

/// The body of a reply: the job's identity (empty when the request was
/// refused), a message, and an optional error detail.
#[derive(Debug)]
pub struct JobResponse {
    pub job_id: String,
    pub message: Option<String>,
    pub error: Option<String>,
}

/// How a job's identity is made.
#[derive(Clone, Copy, Debug, PartialEq, Eq, Structural)]
pub enum JobIdPolicy {
    /// From the identifiers and ranges alone, so that equal requests meet.
    ContentAddressed,
    /// A fresh random identity on every call, so that every request is new.
    AlwaysNew,
}

/// What a request handler does next.
#[derive(Debug)]
pub enum Step {
    /// Reply at once, without a lookup.
    Respond(HttpStatus, JobResponse),
    /// Look the job up under this identity, then call `complete_lookup`.
    Lookup(String),
}

pub open spec fn http_code(s: HttpStatus) -> u16 {
    match s {
        HttpStatus::Success => 200,
        HttpStatus::BadRequest => 400,
        HttpStatus::InternalServerError => 500,
    }
}

impl HttpStatus {
    /// The numeric HTTP status code.
    pub fn code(&self) -> (r: u16)
        ensures
            r == http_code(*self),
    {
        match self {
            HttpStatus::Success => 200,
            HttpStatus::BadRequest => 400,
            HttpStatus::InternalServerError => 500,
        }
    }
}

/// The message that a reply carries for a job found with this status.
pub open spec fn status_text(s: JobStatus) -> Seq<char> {
    match s {
        JobStatus::Pending => "Job is pending."@,
        JobStatus::Completed => "Job has been completed."@,
        JobStatus::Failed => "Job found. Job has failed."@,
    }
}

pub open spec fn not_found_text() -> Seq<char> {
    "Job not found."@
}

/// The message of a reply to a failed lookup, with the failure's description.
pub open spec fn store_error_text(detail: Seq<char>) -> Seq<char> {
    "An error occurred: "@ + detail
}

/// `r` carries identity `id`, message `msg` and no error detail.
pub open spec fn response_is(r: JobResponse, id: Seq<char>, msg: Seq<char>) -> bool {
    &&& r.job_id@ == id
    &&& r.message is Some
    &&& r.message.unwrap()@ == msg
    &&& r.error is None
}

/// The status of the reply to a lookup's outcome.
pub open spec fn lookup_status(outcome: Result<Option<JobStatus>, String>) -> HttpStatus {
    match outcome {
        Err(_) => HttpStatus::InternalServerError,
        Ok(_) => HttpStatus::Success,
    }
}

/// The message of the reply to a lookup's outcome.
pub open spec fn lookup_text(outcome: Result<Option<JobStatus>, String>) -> Seq<char> {
    match outcome {
        Err(e) => store_error_text(e@),
        Ok(None) => not_found_text(),
        Ok(Some(s)) => status_text(s),
    }
}

impl JobResponse {
    pub fn new(job_id: String, message: Option<String>, error: Option<String>) -> (r: JobResponse)
        ensures
            r.job_id == job_id,
            r.message == message,
            r.error == error,
    {
        JobResponse { job_id, message, error }
    }
}

/// A reply with the given status, identity and message.
pub fn job_response(status: HttpStatus, job_id: String, message: &str) -> (r: (
    HttpStatus,
    JobResponse,
))
    ensures
        r.0 == status,
        response_is(r.1, job_id@, message@),
{
    (status, JobResponse::new(job_id, Some(String::from_str(message)), None))
}

/// The reply for a job that the lookup found, by its status.
pub fn handle_existing_job(status: JobStatus, job_id: String) -> (r: (HttpStatus, JobResponse))
    ensures
        r.0 == HttpStatus::Success,
        response_is(r.1, job_id@, status_text(status)),
{
    match status {
        JobStatus::Pending => job_response(HttpStatus::Success, job_id, "Job is pending."),
        JobStatus::Completed => job_response(HttpStatus::Success, job_id, "Job has been completed."),
        JobStatus::Failed => job_response(HttpStatus::Success, job_id, "Job found. Job has failed."),
    }
}

/// The reply for a lookup that failed: the identity is kept so that the
/// client can retry with it, and the failure's description is passed on.
pub fn internal_server_error(error: &str, job_id: String) -> (r: (HttpStatus, JobResponse))
    ensures
        r.0 == HttpStatus::InternalServerError,
        response_is(r.1, job_id@, store_error_text(error@)),
{
    let message = String::from_str("An error occurred: ").concat(error);
    (HttpStatus::InternalServerError, JobResponse::new(job_id, Some(message), None))
}

/// The reply for a refused request: no identity, and the error's text.
pub fn validation_failure(e: ValidationError) -> (r: (HttpStatus, JobResponse))
    ensures
        r.0 == HttpStatus::BadRequest,
        response_is(r.1, Seq::empty(), error_text(e)),
{
    (HttpStatus::BadRequest, JobResponse::new(String::new(), Some(e.message()), None))
}

/// The first part of handling a request: validate it, and when it is valid
/// make its identity under `policy` and ask for a lookup under it.
pub fn prepare_lookup(policy: JobIdPolicy, payload: &PitchLakeJobRequest) -> (r: Step)
    ensures
        match request_result(payload.identifiers_spec(), payload.params) {
            Err(e) => r matches Step::Respond(status, resp) && status == HttpStatus::BadRequest
                && response_is(resp, Seq::empty(), error_text(e)),
            Ok(_) => r matches Step::Lookup(id) && (policy == JobIdPolicy::ContentAddressed
                ==> id@ == fingerprint_of(payload.identifiers_spec(), payload.params)) && id@.len()
                == 36,
        },
{
    match validate_request(payload) {
        Err(e) => {
            let (status, resp) = validation_failure(e);
            Step::Respond(status, resp)
        },
        Ok(()) => {
            let id = match policy {
                JobIdPolicy::ContentAddressed => generate_job_id(
                    &payload.identifiers,
                    &payload.params,
                ),
                JobIdPolicy::AlwaysNew => generate_random_job_id(),
            };
            Step::Lookup(id)
        },
    }
}

/// The second part of handling a request: turn the lookup's outcome under
/// `job_id` into a reply. A missing job and each status are successful
/// replies; a failed lookup is an internal error.
pub fn complete_lookup(job_id: String, outcome: Result<Option<JobStatus>, String>) -> (r: (
    HttpStatus,
    JobResponse,
))
    ensures
        r.0 == lookup_status(outcome),
        response_is(r.1, job_id@, lookup_text(outcome)),
{
    match outcome {
        Ok(Some(status)) => handle_existing_job(status, job_id),
        Ok(None) => job_response(HttpStatus::Success, job_id, "Job not found."),
        Err(e) => internal_server_error(e.as_str(), job_id),
    }
}

} // verus!
