//! Dispatch: from one request line to either an immediate reply or a
//! filesystem job for the front end.
//!
//! The front end reads one line, calls [`plan_request`], performs the
//! returned job's filesystem work if any, and serializes exactly one
//! [`Response`].  Every decision — parsing, payload decoding, identifier
//! generation, path construction, match verdicts, message texts — is
//! made and verified here; the front end only moves bytes.

use crate::hex::DecodeError;
use crate::protocol::{parse_spec, Request, RequestModel, Response};
use crate::storage::{create_job_ok, plan_create, Config, CreateJob};
use vstd::prelude::*;
use vstd::string::*;

verus! {

/// What the front end must do for one request line.
pub enum Plan {
    /// Nothing to execute: send this response.
    Reply(Response),
    /// Create the pile directory, write the plaintext, then reply with
    /// the identifier.
    DoCreate(CreateJob),
    /// Scan the pile directory for the first matching record.
    DoFind { dir_path: String, field: String, compare: String },
}

/// A failure reply carrying exit code 1 and exactly this message.
pub open spec fn is_failure_reply(p: Plan, msg: Seq<char>) -> bool {
    &&& p matches Plan::Reply(r)
    &&& r matches Response::Failure { exit_code, error } && exit_code == 1 && error@ == msg
}

/// The success reply of PING: exit code 0 and no message.
pub open spec fn is_empty_success_reply(p: Plan) -> bool {
    &&& p matches Plan::Reply(r)
    &&& r matches Response::Success { exit_code, message } && exit_code == 0 && message is None
}

/// The message a CREATE failure reports for a payload that failed to
/// decode.
pub open spec fn decode_error_msg(e: DecodeError) -> Seq<char> {
    match e {
        DecodeError::OddLength => "hex payload has odd length"@,
        DecodeError::InvalidDigit => "hex payload holds a non-hex digit"@,
        DecodeError::InvalidUtf8 => "hex payload does not decode to UTF-8 text"@,
    }
}

fn decode_error_str(e: DecodeError) -> (r: &'static str)
    ensures
        r@ == decode_error_msg(e),
{
    match e {
        DecodeError::OddLength => "hex payload has odd length",
        DecodeError::InvalidDigit => "hex payload holds a non-hex digit",
        DecodeError::InvalidUtf8 => "hex payload does not decode to UTF-8 text",
    }
}

/// Decides one request line.  A parse error or a PING is answered at
/// once; a CREATE with a sound payload becomes a write job; a FIND
/// becomes a scan job over `<root><pile>`.
pub fn plan_request(cfg: &Config, line: &str) -> (p: Plan)
    ensures
        match parse_spec(line@) {
            Err(m) => is_failure_reply(p, m),
            Ok(req) => match req {
                RequestModel::Ping => is_empty_success_reply(p),
                RequestModel::Create { pile, data } => match p {
                    Plan::DoCreate(job) => create_job_ok(job, *cfg, pile, data),
                    Plan::Reply(_) => crate::hex::hex_decode_spec(data) matches Err(e)
                        && is_failure_reply(
                        p,
                        "Error creating database entry: "@ + decode_error_msg(e),
                    ),
                    _ => false,
                },
                RequestModel::Find { pile, field, compare } => {
                    &&& p matches Plan::DoFind { dir_path, field: f, compare: c }
                    &&& dir_path@ == cfg.storage_root@ + pile
                    &&& f@ == field
                    &&& c@ == compare
                },
            },
        },
{
    let req = match Request::parse(line) {
        Err(e) => {
            return Plan::Reply(Response::Failure { exit_code: 1, error: e });
        },
        Ok(req) => req,
    };
    match req {
        Request::Ping {} => Plan::Reply(Response::Success { exit_code: 0, message: None }),
        Request::Create { pile, data } => match plan_create(cfg, pile.as_str(), data.as_str()) {
            Ok(job) => Plan::DoCreate(job),
            Err(e) => {
                let msg = String::from_str("Error creating database entry: ").concat(
                    decode_error_str(e),
                );
                Plan::Reply(Response::Failure { exit_code: 1, error: msg })
            },
        },
        Request::Find { pile, field, compare } => {
            let dir_path = cfg.storage_root.clone().concat(pile.as_str());
            Plan::DoFind { dir_path, field, compare }
        },
    }
}

/// The reply of a CREATE whose write succeeded: exit code 0 and the
/// fresh identifier.
pub fn create_success_response(job: CreateJob) -> (r: Response)
    ensures
        r matches Response::Success { exit_code, message } ==> exit_code == 0 && (message
            matches Some(m) && m@ == job.uuid@),
        r is Success,
{
    Response::Success { exit_code: 0, message: Some(job.uuid) }
}

/// The reply of a CREATE whose filesystem work failed, with the front
/// end's description of the fault.
pub fn create_failure_response(reason: &str) -> (r: Response)
    ensures
        r matches Response::Failure { exit_code, error } && exit_code == 1 && error@
            == "Error creating database entry: "@ + reason@,
{
    Response::Failure {
        exit_code: 1,
        error: String::from_str("Error creating database entry: ").concat(reason),
    }
}

/// The reply of a FIND that located a matching record: exit code 0 and
/// the record's hex rendering.
pub fn find_success_response(hex_data: String) -> (r: Response)
    ensures
        r matches Response::Success { exit_code, message } ==> exit_code == 0 && (message
            matches Some(m) && m@ == hex_data@),
        r is Success,
{
    Response::Success { exit_code: 0, message: Some(hex_data) }
}

/// The reply of a FIND that found nothing — also the reply when the
/// pile does not exist at all: success with an empty payload, never an
/// error.
pub fn find_empty_response() -> (r: Response)
    ensures
        r matches Response::Success { exit_code, message } ==> exit_code == 0 && (message
            matches Some(m) && m@ == Seq::<char>::empty()),
        r is Success,
{
    Response::Success { exit_code: 0, message: Some(String::new()) }
}

/// The reply of a FIND whose scan failed, with the front end's or the
/// scanner's description of the fault.
pub fn find_failure_response(reason: &str) -> (r: Response)
    ensures
        r matches Response::Failure { exit_code, error } && exit_code == 1 && error@
            == "Error finding database entry: "@ + reason@,
{
    Response::Failure {
        exit_code: 1,
        error: String::from_str("Error finding database entry: ").concat(reason),
    }
}

} // verus!
