use dustdb::protocol::{Request, Response};

fn parse_err(line: &str) -> String {
    match Request::parse(line) {
        Err(e) => e,
        Ok(_) => panic!("expected a parse error for {:?}", line),
    }
}

#[test]
fn parse_create_ok() {
    match Request::parse("CREATE users 7b226e616d65223a22616c696365227d") {
        Ok(Request::Create { pile, data }) => {
            assert_eq!(pile, "users");
            assert_eq!(data, "7b226e616d65223a22616c696365227d");
        }
        other => panic!("unexpected parse: {:?}", other),
    }
}

#[test]
fn parse_create_data_takes_remainder_verbatim() {
    match Request::parse("CREATE users some free form data") {
        Ok(Request::Create { pile, data }) => {
            assert_eq!(pile, "users");
            assert_eq!(data, "some free form data");
        }
        other => panic!("unexpected parse: {:?}", other),
    }
}

#[test]
fn parse_create_lowercases_pile() {
    match Request::parse("CREATE Users 7b7d") {
        Ok(Request::Create { pile, .. }) => assert_eq!(pile, "users"),
        other => panic!("unexpected parse: {:?}", other),
    }
}

#[test]
fn parse_create_double_space_gives_empty_pile() {
    match Request::parse("CREATE  payload") {
        Ok(Request::Create { pile, data }) => {
            assert_eq!(pile, "");
            assert_eq!(data, "payload");
        }
        other => panic!("unexpected parse: {:?}", other),
    }
}

#[test]
fn parse_create_missing_pile() {
    assert_eq!(parse_err("CREATE"), "CREATE must have a pile name specified");
}

#[test]
fn parse_create_missing_data() {
    assert_eq!(
        parse_err("CREATE users"),
        "CREATE must have data after the pile name"
    );
}

#[test]
fn parse_ping() {
    assert!(matches!(Request::parse("PING"), Ok(Request::Ping {})));
}

#[test]
fn parse_ping_ignores_arguments() {
    assert!(matches!(Request::parse("PING extra"), Ok(Request::Ping {})));
}

#[test]
fn parse_find_ok() {
    match Request::parse("FIND users email matthew@saplink.io") {
        Ok(Request::Find {
            pile,
            field,
            compare,
        }) => {
            assert_eq!(pile, "users");
            assert_eq!(field, "email");
            assert_eq!(compare, "matthew@saplink.io");
        }
        other => panic!("unexpected parse: {:?}", other),
    }
}

#[test]
fn parse_find_compare_takes_remainder() {
    match Request::parse("FIND users name two words") {
        Ok(Request::Find { compare, .. }) => assert_eq!(compare, "two words"),
        other => panic!("unexpected parse: {:?}", other),
    }
}

#[test]
fn parse_find_missing_pile() {
    assert_eq!(parse_err("FIND"), "FIND must have a pile name specified");
}

#[test]
fn parse_find_missing_field() {
    assert_eq!(
        parse_err("FIND users"),
        "FIND must have a field name after the pile name"
    );
}

#[test]
fn parse_find_missing_compare() {
    assert_eq!(
        parse_err("FIND users field"),
        "FIND must have a compare name after the field name"
    );
}

#[test]
fn parse_unknown_verb() {
    assert_eq!(
        parse_err("FOO bar"),
        "Error parsing request, unknown command: FOO"
    );
}

#[test]
fn parse_empty_line() {
    assert_eq!(parse_err(""), "Error parsing request, empty request");
}

#[test]
fn parse_verb_is_case_sensitive() {
    assert_eq!(
        parse_err("create users 7b7d"),
        "Error parsing request, unknown command: create"
    );
}

#[test]
fn serialize_success_without_message() {
    let r = Response::Success {
        exit_code: 0,
        message: None,
    };
    assert_eq!(r.serialize(), "0 ");
}

#[test]
fn serialize_success_with_message() {
    let r = Response::Success {
        exit_code: 0,
        message: Some("cd8abd45".to_string()),
    };
    assert_eq!(r.serialize(), "0 cd8abd45");
}

#[test]
fn serialize_two_digit_exit_code() {
    let r = Response::Success {
        exit_code: 42,
        message: Some("ok".to_string()),
    };
    assert_eq!(r.serialize(), "42 ok");
}

#[test]
fn serialize_three_digit_exit_code() {
    let r = Response::Failure {
        exit_code: 255,
        error: "x".to_string(),
    };
    assert_eq!(r.serialize(), "255 Error: x");
}

#[test]
fn serialize_failure() {
    let r = Response::Failure {
        exit_code: 1,
        error: "something broke".to_string(),
    };
    assert_eq!(r.serialize(), "1 Error: something broke");
}
