use std::collections::HashMap;

use job_dedup::dispatch::{
    complete_lookup, handle_existing_job, internal_server_error, job_response, prepare_lookup,
    validation_failure, HttpStatus, JobIdPolicy, JobResponse, JobStatus, Step,
};
use job_dedup::fingerprint::{canonical_bytes, generate_job_id, generate_random_job_id};
use job_dedup::request::{ClientInfo, PitchLakeJobRequest, PitchLakeJobRequestParams};
use job_dedup::validate::{
    validate_request, validate_time_ranges, RangeName, ValidationError,
};

/// A job store held in memory; `broken` makes every lookup fail.
struct TestContext {
    jobs: HashMap<String, JobStatus>,
    broken: bool,
}

impl TestContext {
    fn new() -> TestContext {
        TestContext { jobs: HashMap::new(), broken: false }
    }

    fn create_job(&mut self, job_id: &str, status: JobStatus) {
        self.jobs.insert(job_id.to_string(), status);
    }

    fn find_job_id(&self, payload: PitchLakeJobRequest) -> (HttpStatus, JobResponse) {
        match prepare_lookup(JobIdPolicy::ContentAddressed, &payload) {
            Step::Respond(status, response) => (status, response),
            Step::Lookup(job_id) => {
                let outcome = if self.broken {
                    Err("connection refused".to_string())
                } else {
                    Ok(self.jobs.get(&job_id).copied())
                };
                complete_lookup(job_id, outcome)
            }
        }
    }
}

fn params(twap: (i64, i64), volatility: (i64, i64), reserve_price: (i64, i64)) -> PitchLakeJobRequestParams {
    PitchLakeJobRequestParams { twap, volatility, reserve_price }
}

fn request(ids: &[&str], p: PitchLakeJobRequestParams) -> PitchLakeJobRequest {
    PitchLakeJobRequest {
        identifiers: ids.iter().map(|s| s.to_string()).collect(),
        params: p,
        client_info: ClientInfo {
            client_address: "0x123".to_string(),
            vault_address: "0x456".to_string(),
            timestamp: 0,
        },
    }
}

fn valid_params() -> PitchLakeJobRequestParams {
    params((0, 100), (0, 100), (0, 100))
}

#[test]
fn test_find_job_id_not_found_job() {
    let ctx = TestContext::new();
    let payload = request(&["test-id"], valid_params());
    let (status, response) = ctx.find_job_id(payload);
    assert_eq!(status, HttpStatus::Success);
    assert_eq!(response.message.unwrap(), "Job not found.");
}

#[test]
fn test_find_job_id_pending_job() {
    let mut ctx = TestContext::new();
    let payload = request(&["test-id"], valid_params());
    let job_id = generate_job_id(&payload.identifiers, &payload.params);
    ctx.create_job(&job_id, JobStatus::Pending);
    let (status, response) = ctx.find_job_id(payload);
    assert_eq!(status, HttpStatus::Success);
    assert_eq!(response.job_id, job_id);
    assert_eq!(response.message.unwrap_or_default(), "Job is pending.");
}

#[test]
fn test_find_job_id_completed_job() {
    let mut ctx = TestContext::new();
    let payload = request(&["test-id"], valid_params());
    let job_id = generate_job_id(&payload.identifiers, &payload.params);
    ctx.create_job(&job_id, JobStatus::Completed);
    let (status, response) = ctx.find_job_id(payload);
    assert_eq!(status, HttpStatus::Success);
    assert_eq!(response.job_id, job_id);
    assert_eq!(response.message.unwrap_or_default(), "Job has been completed.");
}

#[test]
fn test_find_job_id_failed_job() {
    let mut ctx = TestContext::new();
    let payload = request(&["test-id"], valid_params());
    let job_id = generate_job_id(&payload.identifiers, &payload.params);
    ctx.create_job(&job_id, JobStatus::Failed);
    let (status, response) = ctx.find_job_id(payload);
    assert_eq!(status, HttpStatus::Success);
    assert_eq!(response.job_id, job_id);
    assert_eq!(response.message.unwrap_or_default(), "Job found. Job has failed.");
}

#[test]
fn test_find_job_id_invalid_params() {
    let ctx = TestContext::new();
    let payload = request(&["test-id"], params((100, 0), (0, 100), (0, 100)));
    let (status, response) = ctx.find_job_id(payload);
    assert_eq!(status, HttpStatus::BadRequest);
    assert_eq!(
        response.message.unwrap_or_default(),
        "Invalid time range for TWAP calculation."
    );
}

#[test]
fn not_found_reply_carries_fingerprint() {
    let ctx = TestContext::new();
    let payload = request(&["id1"], valid_params());
    let expected = generate_job_id(&payload.identifiers, &payload.params);
    let (status, response) = ctx.find_job_id(payload);
    assert_eq!(status, HttpStatus::Success);
    assert_eq!(response.job_id, expected);
    assert_eq!(response.job_id, "fa206cab-9477-55cb-9ff0-33ff5481b348");
    assert_eq!(response.message.as_deref(), Some("Job not found."));
    assert!(response.error.is_none());
}

#[test]
fn reversed_range_reply_has_empty_identity() {
    let ctx = TestContext::new();
    let (status, response) = ctx.find_job_id(request(&["id1"], params((100, 0), (0, 100), (0, 100))));
    assert_eq!(status, HttpStatus::BadRequest);
    assert_eq!(status.code(), 400);
    assert_eq!(response.job_id, "");
    assert_eq!(response.message.as_deref(), Some("Invalid time range for TWAP calculation."));
}

#[test]
fn failed_lookup_is_internal_error_with_fingerprint() {
    let mut ctx = TestContext::new();
    ctx.broken = true;
    let payload = request(&["id1"], valid_params());
    let expected = generate_job_id(&payload.identifiers, &payload.params);
    let (status, response) = ctx.find_job_id(payload);
    assert_eq!(status, HttpStatus::InternalServerError);
    assert_eq!(status.code(), 500);
    assert_eq!(response.job_id, expected);
    assert_eq!(response.message.as_deref(), Some("An error occurred: connection refused"));
    assert_ne!(response.message.as_deref(), Some("Job not found."));
}

#[test]
fn complete_lookup_each_outcome() {
    let id = "abc".to_string();
    let (s, r) = complete_lookup(id.clone(), Ok(None));
    assert_eq!((s, r.job_id.as_str(), r.message.as_deref()), (HttpStatus::Success, "abc", Some("Job not found.")));
    let (s, r) = complete_lookup(id.clone(), Ok(Some(JobStatus::Pending)));
    assert_eq!((s, r.message.as_deref()), (HttpStatus::Success, Some("Job is pending.")));
    let (s, r) = complete_lookup(id.clone(), Ok(Some(JobStatus::Completed)));
    assert_eq!((s, r.message.as_deref()), (HttpStatus::Success, Some("Job has been completed.")));
    let (s, r) = complete_lookup(id.clone(), Ok(Some(JobStatus::Failed)));
    assert_eq!((s, r.message.as_deref()), (HttpStatus::Success, Some("Job found. Job has failed.")));
    let (s, r) = complete_lookup(id, Err("timeout".to_string()));
    assert_eq!((s, r.job_id.as_str(), r.message.as_deref()), (HttpStatus::InternalServerError, "abc", Some("An error occurred: timeout")));
    assert_eq!(HttpStatus::Success.code(), 200);
}

#[test]
fn helpers_build_replies() {
    let (s, r) = job_response(HttpStatus::Success, "x".to_string(), "hello");
    assert_eq!((s, r.job_id.as_str(), r.message.as_deref(), r.error.is_none()), (HttpStatus::Success, "x", Some("hello"), true));
    let (s, r) = handle_existing_job(JobStatus::Failed, "y".to_string());
    assert_eq!((s, r.job_id.as_str(), r.message.as_deref()), (HttpStatus::Success, "y", Some("Job found. Job has failed.")));
    let (s, r) = internal_server_error("disk full", "z".to_string());
    assert_eq!((s, r.job_id.as_str(), r.message.as_deref()), (HttpStatus::InternalServerError, "z", Some("An error occurred: disk full")));
    let (s, r) = validation_failure(ValidationError::EmptyIdentifiers);
    assert_eq!((s, r.job_id.as_str(), r.message.as_deref()), (HttpStatus::BadRequest, "", Some("Identifiers cannot be empty.")));
}

#[test]
fn fingerprint_ignores_client_context() {
    let a = request(&["id1", "id2"], valid_params());
    let mut b = request(&["id1", "id2"], valid_params());
    b.client_info.client_address = "0xabc".to_string();
    b.client_info.vault_address = "0xdef".to_string();
    b.client_info.timestamp = 1_700_000_000;
    let fa = generate_job_id(&a.identifiers, &a.params);
    assert_eq!(fa, generate_job_id(&b.identifiers, &b.params));
    assert_eq!(fa, generate_job_id(&a.identifiers, &a.params));
}

#[test]
fn fingerprint_is_order_sensitive() {
    let ab = vec!["a".to_string(), "b".to_string()];
    let ba = vec!["b".to_string(), "a".to_string()];
    let p = valid_params();
    assert_ne!(generate_job_id(&ab, &p), generate_job_id(&ba, &p));
    assert_eq!(generate_job_id(&ab, &p), "004f6d69-d255-5a90-a421-13786f738781");
    assert_eq!(generate_job_id(&ba, &p), "a08aa374-7fc9-5e43-b441-7f2007b5127b");
}

#[test]
fn fingerprint_depends_on_every_bound() {
    let ids = vec!["id1".to_string()];
    let base = generate_job_id(&ids, &valid_params());
    assert_ne!(base, generate_job_id(&ids, &params((-1, 100), (0, 100), (0, 100))));
    assert_eq!(
        generate_job_id(&ids, &params((-1, 100), (0, 100), (0, 100))),
        "4d81de77-5992-5570-8e62-e138fbf199d8"
    );
    assert_ne!(base, generate_job_id(&ids, &params((0, 101), (0, 100), (0, 100))));
    assert_ne!(base, generate_job_id(&ids, &params((0, 100), (1, 100), (0, 100))));
    assert_ne!(base, generate_job_id(&ids, &params((0, 100), (0, 99), (0, 100))));
    assert_ne!(base, generate_job_id(&ids, &params((0, 100), (0, 100), (2, 100))));
    assert_ne!(base, generate_job_id(&ids, &params((0, 100), (0, 100), (0, 200))));
}

#[test]
fn canonical_bytes_layout() {
    let ids = vec!["id1".to_string()];
    let bytes = canonical_bytes(&ids, &valid_params());
    let mut expected: Vec<u8> = vec![1, b'i', 1, b'd', 1, b'1', 0, 2];
    for _ in 0..3 {
        expected.extend_from_slice(&[0, 0, 0, 0, 0, 0, 0, 0]);
        expected.extend_from_slice(&[0, 0, 0, 0, 0, 0, 0, 100]);
    }
    assert_eq!(bytes, expected);
    let joined = canonical_bytes(&vec!["a-b".to_string()], &valid_params());
    let split = canonical_bytes(&vec!["a".to_string(), "b".to_string()], &valid_params());
    assert_ne!(joined, split);
}

#[test]
fn generated_id_is_a_v5_uuid() {
    let ids = vec!["test-id".to_string()];
    let id = generate_job_id(&ids, &valid_params());
    assert_eq!(id, "f7b667f8-dffd-5694-abf0-f3c5180264ab");
    assert_eq!(id.len(), 36);
    assert_eq!(id.as_bytes()[14], b'5');
}

#[test]
fn random_ids_differ() {
    let a = generate_random_job_id();
    let b = generate_random_job_id();
    assert_eq!(a.len(), 36);
    assert_eq!(a.as_bytes()[14], b'4');
    assert_ne!(a, b);
}

#[test]
fn always_new_policy_gives_fresh_ids() {
    let payload = request(&["id1"], valid_params());
    let first = match prepare_lookup(JobIdPolicy::AlwaysNew, &payload) {
        Step::Lookup(id) => id,
        Step::Respond(..) => panic!("valid request refused"),
    };
    let second = match prepare_lookup(JobIdPolicy::AlwaysNew, &payload) {
        Step::Lookup(id) => id,
        Step::Respond(..) => panic!("valid request refused"),
    };
    assert_ne!(first, second);
    assert_eq!(first.len(), 36);
}

#[test]
fn empty_identifiers_checked_before_ranges() {
    let payload = request(&[], params((100, 0), (5, 5), (0, -1)));
    assert_eq!(validate_request(&payload), Err(ValidationError::EmptyIdentifiers));
    match prepare_lookup(JobIdPolicy::ContentAddressed, &payload) {
        Step::Respond(status, response) => {
            assert_eq!(status, HttpStatus::BadRequest);
            assert_eq!(response.job_id, "");
            assert_eq!(response.message.as_deref(), Some("Identifiers cannot be empty."));
        }
        Step::Lookup(_) => panic!("request without identifiers accepted"),
    }
}

#[test]
fn equal_bounds_are_invalid_for_each_range() {
    assert_eq!(
        validate_time_ranges(&params((7, 7), (0, 100), (0, 100))),
        Err(ValidationError::InvalidRange(RangeName::Twap))
    );
    assert_eq!(
        validate_time_ranges(&params((0, 100), (7, 7), (0, 100))),
        Err(ValidationError::InvalidRange(RangeName::Volatility))
    );
    assert_eq!(
        validate_time_ranges(&params((0, 100), (0, 100), (7, 7))),
        Err(ValidationError::InvalidRange(RangeName::ReservePrice))
    );
    assert_eq!(validate_time_ranges(&params((6, 7), (6, 7), (6, 7))), Ok(()));
    assert_eq!(
        validate_time_ranges(&params((i64::MIN, i64::MAX), (-1, 0), (i64::MAX - 1, i64::MAX))),
        Ok(())
    );
}

#[test]
fn first_invalid_range_is_reported() {
    assert_eq!(
        validate_time_ranges(&params((0, 100), (9, 1), (9, 1))),
        Err(ValidationError::InvalidRange(RangeName::Volatility))
    );
    assert_eq!(
        ValidationError::InvalidRange(RangeName::Volatility).message(),
        "Invalid time range for Volatility calculation."
    );
    assert_eq!(
        ValidationError::InvalidRange(RangeName::ReservePrice).message(),
        "Invalid time range for Reserve Price calculation."
    );
    let (status, response) = TestContext::new().find_job_id(request(&["id1"], params((0, 100), (0, 100), (3, 2))));
    assert_eq!(status, HttpStatus::BadRequest);
    assert_eq!(
        response.message.as_deref(),
        Some("Invalid time range for Reserve Price calculation.")
    );
}
