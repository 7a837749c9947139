use dustdb::handler::{
    create_success_response, find_empty_response, find_success_response, plan_request, Plan,
};
use dustdb::hex::{encode_utf8_to_hex, DecodeError};
use dustdb::protocol::Response;
use dustdb::storage::{plan_create, scan_record, Config, StorageError};

fn test_config() -> Config {
    Config {
        storage_root: "/var/lib/dust/".to_string(),
        data_ext: "json".to_string(),
    }
}

#[test]
fn plan_create_decodes_and_places_record() {
    let cfg = test_config();
    let job = plan_create(&cfg, "users", "7b226e616d65223a22616c696365227d").unwrap();
    assert_eq!(job.plaintext, "{\"name\":\"alice\"}");
    assert_eq!(job.dir_path, "/var/lib/dust/users");
    assert_eq!(
        job.file_path,
        format!("/var/lib/dust/users/{}.json", job.uuid)
    );
    assert_eq!(job.uuid.len(), 36);
}

#[test]
fn plan_create_rejects_bad_payload() {
    let cfg = test_config();
    assert_eq!(
        plan_create(&cfg, "users", "abc").unwrap_err(),
        DecodeError::OddLength
    );
}

#[test]
fn scan_record_finds_exact_match() {
    let content = "{\"name\":\"alice\"}";
    let r = scan_record(content, "name", "alice").unwrap();
    assert_eq!(r.unwrap(), encode_utf8_to_hex(content));
}

#[test]
fn scan_record_rejects_different_value() {
    assert_eq!(
        scan_record("{\"name\":\"alice\"}", "name", "bob").unwrap(),
        None
    );
}

#[test]
fn scan_record_is_case_sensitive_on_values() {
    assert_eq!(
        scan_record("{\"name\":\"alice\"}", "name", "Alice").unwrap(),
        None
    );
}

#[test]
fn scan_record_skips_missing_field() {
    assert_eq!(
        scan_record("{\"name\":\"alice\"}", "email", "alice").unwrap(),
        None
    );
}

#[test]
fn scan_record_skips_non_string_field() {
    assert_eq!(scan_record("{\"age\": 7}", "age", "7").unwrap(), None);
}

#[test]
fn scan_record_rejects_invalid_json() {
    assert_eq!(
        scan_record("not a record", "name", "alice").unwrap_err(),
        StorageError::InvalidRecord
    );
}

#[test]
fn create_then_find_round_trip() {
    // CREATE decodes the payload to plaintext; FIND hands back the hex of
    // that exact record.
    let cfg = test_config();
    let hex = "7b226e616d65223a22616c696365227d";
    let job = plan_create(&cfg, "users", hex).unwrap();
    let found = scan_record(&job.plaintext, "name", "alice").unwrap();
    assert_eq!(found.unwrap(), hex);
}

#[test]
fn plan_request_create() {
    let cfg = test_config();
    match plan_request(&cfg, "CREATE users 7b226e616d65223a22616c696365227d") {
        Plan::DoCreate(job) => {
            assert_eq!(job.plaintext, "{\"name\":\"alice\"}");
            assert_eq!(job.dir_path, "/var/lib/dust/users");
        }
        _ => panic!("expected a create job"),
    }
}

#[test]
fn plan_request_create_bad_payload_replies_failure() {
    let cfg = test_config();
    match plan_request(&cfg, "CREATE users zz") {
        Plan::Reply(r) => assert_eq!(
            r.serialize(),
            "1 Error: Error creating database entry: hex payload holds a non-hex digit"
        ),
        _ => panic!("expected an immediate reply"),
    }
}

#[test]
fn plan_request_find() {
    let cfg = test_config();
    match plan_request(&cfg, "FIND users email matthew@saplink.io") {
        Plan::DoFind {
            dir_path,
            field,
            compare,
        } => {
            assert_eq!(dir_path, "/var/lib/dust/users");
            assert_eq!(field, "email");
            assert_eq!(compare, "matthew@saplink.io");
        }
        _ => panic!("expected a find job"),
    }
}

#[test]
fn plan_request_parse_error_replies_failure() {
    let cfg = test_config();
    match plan_request(&cfg, "") {
        Plan::Reply(r) => {
            assert_eq!(r.serialize(), "1 Error: Error parsing request, empty request")
        }
        _ => panic!("expected an immediate reply"),
    }
}

#[test]
fn ping_is_idempotent() {
    let cfg = test_config();
    for _ in 0..3 {
        match plan_request(&cfg, "PING") {
            Plan::Reply(r) => assert_eq!(r.serialize(), "0 "),
            _ => panic!("expected an immediate reply"),
        }
    }
}

#[test]
fn ping_unaffected_by_other_requests() {
    let cfg = test_config();
    let ping_line = |cfg: &Config| match plan_request(cfg, "PING") {
        Plan::Reply(r) => r.serialize(),
        _ => panic!("expected an immediate reply"),
    };
    assert_eq!(ping_line(&cfg), "0 ");
    let _ = plan_request(&cfg, "CREATE users 7b7d");
    let _ = plan_request(&cfg, "FIND users name alice");
    assert_eq!(ping_line(&cfg), "0 ");
}

#[test]
fn piles_differing_only_in_case_share_a_directory() {
    let cfg = test_config();
    let dir_of = |line: &str| match plan_request(&cfg, line) {
        Plan::DoCreate(job) => job.dir_path,
        _ => panic!("expected a create job"),
    };
    assert_eq!(
        dir_of("CREATE Users 7b7d"),
        dir_of("CREATE users 7b7d")
    );
}

#[test]
fn find_on_missing_pile_serializes_empty_success() {
    assert_eq!(find_empty_response().serialize(), "0 ");
}

#[test]
fn find_success_carries_hex_payload() {
    let r = find_success_response("7b7d".to_string());
    assert_eq!(r.serialize(), "0 7b7d");
}

#[test]
fn create_success_serializes_zero_and_identifier() {
    let cfg = test_config();
    let job = plan_create(&cfg, "users", "7b226e616d65223a22616c696365227d").unwrap();
    let uuid = job.uuid.clone();
    assert_eq!(
        create_success_response(job).serialize(),
        format!("0 {}", uuid)
    );
}

#[test]
fn create_success_carries_identifier() {
    let cfg = test_config();
    let job = plan_create(&cfg, "users", "7b7d").unwrap();
    let uuid = job.uuid.clone();
    let r = create_success_response(job);
    match r {
        Response::Success {
            exit_code,
            message,
        } => {
            assert_eq!(exit_code, 0);
            assert_eq!(message.unwrap(), uuid);
        }
        _ => panic!("expected success"),
    }
}
