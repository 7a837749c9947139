//! The storage engine's decisions: what CREATE writes and where, and
//! which record a FIND scan accepts.
//!
//! The engine maps `(pile, record id)` to one file under a configured
//! root: `<storage_root><pile>/<uuid>.<ext>`.  CREATE decodes the hex
//! payload and writes the plaintext; FIND reads each record of a pile in
//! turn and returns the hex rendering of the first one whose named field
//! equals the compare value exactly.  The filesystem itself is driven by
//! the unverified front end; everything decided here — paths, payloads,
//! identifiers, match verdicts — is verified.

use crate::hex::{
    decode_hex_to_utf8, encode_utf8_to_hex, hex_decode_spec, hex_of_bytes, DecodeError,
};
use crate::text::str_eq;
use crate::uuid::{generate_v4_uuid, is_uuid_v4};
use vstd::prelude::*;
use vstd::string::*;
use vstd::utf8::encode_utf8;

verus! {

/// Externally supplied configuration, built once at startup and passed
/// in; never read from ambient globals.
pub struct Config {
    /// Prefix of every pile directory, typically ending in `/`.
    pub storage_root: String,
    /// Extension given to every record file, without the dot.
    pub data_ext: String,
}

/// Why a storage operation failed, apart from the filesystem itself.
#[derive(Clone, Copy, Debug, PartialEq, Eq, Structural)]
pub enum StorageError {
    /// A CREATE payload failed to decode.
    InvalidPayload { reason: DecodeError },
    /// A stored record failed to parse as JSON during a scan.
    InvalidRecord,
}

/// Whether a record's text parses as JSON.  Stands for the success of
/// `serde_json::from_str`, a function of the text alone.
pub uninterp spec fn json_parses(text: Seq<char>) -> bool;

/// The string value under the named field of a record's JSON document:
/// `None` when the text is not a JSON object with that field or the
/// field's value is not a string.  A function of text and field alone.
pub uninterp spec fn json_str_field(text: Seq<char>, field: Seq<char>) -> Option<Seq<char>>;

#[verifier::external_type_specification]
#[verifier::external_body]
pub struct ExSerdeJsonError(serde_json::Error);

/// Relies on `serde_json::from_str`, `serde_json::Value::get` and
/// `serde_json::Value::as_str`: whether a record parses as JSON, and
/// which string value sits under a field of it, depend on the record's
/// text alone.
#[verifier::external_body]
fn json_field_string(text: &str, field: &str) -> (r: Result<Option<String>, serde_json::Error>)
    ensures
        r is Ok <==> json_parses(text@),
        r matches Ok(v) ==> match v {
            Some(s) => json_str_field(text@, field@) == Some(s@),
            None => json_str_field(text@, field@) is None,
        },
{
    match serde_json::from_str::<serde_json::Value>(text) {
        Err(e) => Err(e),
        Ok(doc) => match doc.get(field) {
            None => Ok(None),
            Some(value) => match value.as_str() {
                None => Ok(None),
                Some(s) => Ok(Some(s.to_string())),
            },
        },
    }
}

/// Whether a record's named field holds exactly this string value.  A
/// field that is missing or not a string never matches; the comparison
/// is case-sensitive and exact.
pub open spec fn record_matches(text: Seq<char>, field: Seq<char>, compare: Seq<char>) -> bool {
    json_str_field(text, field) == Some(compare)
}

/// One step of a FIND scan: decides whether this record matches, and on
/// a match returns the hex rendering of its full text.  A record that is
/// not valid JSON aborts the scan; a field that is missing or not a
/// string is no match, and the scan goes on.
pub fn scan_record(content: &str, field: &str, compare: &str) -> (r: Result<
    Option<String>,
    StorageError,
>)
    ensures
        r is Ok <==> json_parses(content@),
        r matches Ok(m) ==> (m is Some <==> record_matches(content@, field@, compare@)),
        r matches Ok(m) ==> (m matches Some(h) ==> h@ == hex_of_bytes(encode_utf8(content@))),
        r matches Err(e) ==> e == StorageError::InvalidRecord,
{
    match json_field_string(content, field) {
        Err(_) => Err(StorageError::InvalidRecord),
        Ok(None) => Ok(None),
        Ok(Some(v)) => if str_eq(v.as_str(), compare) {
            Ok(Some(encode_utf8_to_hex(content)))
        } else {
            Ok(None)
        },
    }
}

/// Law: the payload a successful FIND returns is faithful — decoding
/// the hex that [`scan_record`] hands back yields the matched record's
/// exact text.
pub proof fn lemma_found_payload_decodes(content: Seq<char>)
    ensures
        hex_decode_spec(hex_of_bytes(encode_utf8(content))) == Ok::<Seq<char>, DecodeError>(
            content,
        ),
{
    crate::hex::lemma_hex_round_trip(content);
}

/// Everything a CREATE decides before the filesystem is touched: the
/// fresh identifier, the decoded plaintext, the pile directory and the
/// record file path.
#[derive(Debug)]
pub struct CreateJob {
    pub uuid: String,
    pub plaintext: String,
    pub dir_path: String,
    pub file_path: String,
}

/// Well-formedness of a planned CREATE against its configuration, pile
/// and payload: the plaintext is the decoded payload, the identifier has
/// the UUID shape, and the paths are `<root><pile>` and
/// `<root><pile>/<uuid>.<ext>`.
pub open spec fn create_job_ok(job: CreateJob, cfg: Config, pile: Seq<char>, data: Seq<char>) -> bool {
    &&& Ok::<Seq<char>, DecodeError>(job.plaintext@) == hex_decode_spec(data)
    &&& is_uuid_v4(job.uuid@)
    &&& job.dir_path@ == cfg.storage_root@ + pile
    &&& job.file_path@ == job.dir_path@ + "/"@ + job.uuid@ + "."@ + cfg.data_ext@
}

fn slash_str() -> (r: &'static str)
    ensures
        r@ =~= "/"@,
{
    "/"
}

fn dot_str() -> (r: &'static str)
    ensures
        r@ =~= "."@,
{
    "."
}

/// Plans a CREATE: draws a fresh identifier, decodes the hex payload,
/// and fixes the paths the front end must write.  Fails exactly when the
/// payload fails to decode.
pub fn plan_create(cfg: &Config, pile: &str, data_hex: &str) -> (r: Result<CreateJob, DecodeError>)
    ensures
        r is Ok <==> hex_decode_spec(data_hex@) is Ok,
        r matches Ok(job) ==> create_job_ok(job, *cfg, pile@, data_hex@),
        r matches Err(e) ==> Err::<Seq<char>, DecodeError>(e) == hex_decode_spec(data_hex@),
{
    let plaintext = match decode_hex_to_utf8(data_hex) {
        Ok(t) => t,
        Err(e) => {
            return Err(e);
        },
    };
    let uuid = generate_v4_uuid();
    let dir_path = cfg.storage_root.clone().concat(pile);
    let file_path = dir_path.clone().concat(slash_str()).concat(uuid.as_str()).concat(
        dot_str(),
    ).concat(cfg.data_ext.as_str());
    let job = CreateJob { uuid, plaintext, dir_path, file_path };
    proof {
        assert(job.file_path@ =~= job.dir_path@ + "/"@ + job.uuid@ + "."@ + cfg.data_ext@);
    }
    Ok(job)
}

} // verus!
