//! The request protocol: one line in, one line out.
//!
//! A request line is split on single spaces: a case-sensitive verb, then
//! the verb's arguments, with the final argument taking the remainder of
//! the line verbatim.  A response line is `<exit_code> <message>`, with
//! error messages prefixed by `Error: `.

use crate::hex::{hex_digit, hex_digit_str};
use crate::text::{head_token, lower, split_first, str_eq, tail_rest, to_lowercase_str};
use vstd::prelude::*;
use vstd::string::*;

verus! {

/// A parsed command.
#[derive(Debug)]
pub enum Request {
    /// Store a new record, hex-encoded, in the named pile.
    Create { pile: String, data: String },
    /// Liveness check; takes no arguments.
    Ping {},
    /// Scan the named pile for a record whose field equals `compare`.
    Find { pile: String, field: String, compare: String },
}

/// The mathematical shape of a parsed command.
#[verifier::ext_equal]
pub enum RequestModel {
    Create { pile: Seq<char>, data: Seq<char> },
    Ping,
    Find { pile: Seq<char>, field: Seq<char>, compare: Seq<char> },
}

impl View for Request {
    type V = RequestModel;

    open spec fn view(&self) -> RequestModel {
        match self {
            Request::Create { pile, data } => RequestModel::Create { pile: pile@, data: data@ },
            Request::Ping {} => RequestModel::Ping,
            Request::Find { pile, field, compare } => RequestModel::Find {
                pile: pile@,
                field: field@,
                compare: compare@,
            },
        }
    }
}

/// What parsing the arguments of `CREATE` yields.
pub open spec fn parse_create_spec(rest: Option<Seq<char>>) -> Result<RequestModel, Seq<char>> {
    match rest {
        None => Err("CREATE must have a pile name specified"@),
        Some(r) => match tail_rest(r) {
            None => Err("CREATE must have data after the pile name"@),
            Some(d) => Ok(RequestModel::Create { pile: lower(head_token(r)), data: d }),
        },
    }
}

/// What parsing the arguments of `FIND` yields.
pub open spec fn parse_find_spec(rest: Option<Seq<char>>) -> Result<RequestModel, Seq<char>> {
    match rest {
        None => Err("FIND must have a pile name specified"@),
        Some(r) => match tail_rest(r) {
            None => Err("FIND must have a field name after the pile name"@),
            Some(r2) => match tail_rest(r2) {
                None => Err("FIND must have a compare name after the field name"@),
                Some(c) => Ok(
                    RequestModel::Find {
                        pile: lower(head_token(r)),
                        field: head_token(r2),
                        compare: c,
                    },
                ),
            },
        },
    }
}

/// What parsing a request line yields: the command, or the exact error
/// message.  The verb is case-sensitive; pile names are folded to
/// lowercase; the last argument takes the remainder of the line.
pub open spec fn parse_spec(s: Seq<char>) -> Result<RequestModel, Seq<char>> {
    if s.len() == 0 {
        Err("Error parsing request, empty request"@)
    } else {
        let verb = head_token(s);
        if verb == "CREATE"@ {
            parse_create_spec(tail_rest(s))
        } else if verb == "PING"@ {
            Ok(RequestModel::Ping)
        } else if verb == "FIND"@ {
            parse_find_spec(tail_rest(s))
        } else {
            Err("Error parsing request, unknown command: "@ + verb)
        }
    }
}

impl Request {
    /// Parses one request line, with the exact outcome given by
    /// [`parse_spec`].
    pub fn parse(input: &str) -> (r: Result<Request, String>)
        ensures
            r is Ok <==> parse_spec(input@) is Ok,
            r matches Ok(req) ==> parse_spec(input@) == Ok::<RequestModel, Seq<char>>(req@),
            r matches Err(e) ==> parse_spec(input@) == Err::<RequestModel, Seq<char>>(e@),
    {
        let n = input.unicode_len();
        if n == 0 {
            return Err(String::from_str("Error parsing request, empty request"));
        }
        let (verb, rest) = split_first(input);
        if str_eq(verb, "CREATE") {
            match rest {
                None => Err(String::from_str("CREATE must have a pile name specified")),
                Some(r) => {
                    let (pile, rest2) = split_first(r);
                    match rest2 {
                        None => Err(String::from_str("CREATE must have data after the pile name")),
                        Some(d) => Ok(
                            Request::Create {
                                pile: to_lowercase_str(pile),
                                data: String::from_str(d),
                            },
                        ),
                    }
                },
            }
        } else if str_eq(verb, "PING") {
            Ok(Request::Ping {})
        } else if str_eq(verb, "FIND") {
            match rest {
                None => Err(String::from_str("FIND must have a pile name specified")),
                Some(r) => {
                    let (pile, rest2) = split_first(r);
                    match rest2 {
                        None => Err(
                            String::from_str("FIND must have a field name after the pile name"),
                        ),
                        Some(r2) => {
                            let (field, rest3) = split_first(r2);
                            match rest3 {
                                None => Err(
                                    String::from_str(
                                        "FIND must have a compare name after the field name",
                                    ),
                                ),
                                Some(c) => Ok(
                                    Request::Find {
                                        pile: to_lowercase_str(pile),
                                        field: String::from_str(field),
                                        compare: String::from_str(c),
                                    },
                                ),
                            }
                        },
                    }
                },
            }
        } else {
            Err(String::from_str("Error parsing request, unknown command: ").concat(verb))
        }
    }
}

/// Law: pile name case-insensitivity.  Two well-formed CREATE lines
/// whose pile tokens fold to the same lowercase name parse to requests
/// that name the same pile, so their records land in the same
/// directory.
pub proof fn lemma_pile_case_insensitive(line1: Seq<char>, line2: Seq<char>, r1: Seq<char>, r2: Seq<char>)
    requires
        head_token(line1) == "CREATE"@,
        head_token(line2) == "CREATE"@,
        tail_rest(line1) == Some(r1),
        tail_rest(line2) == Some(r2),
        tail_rest(r1) is Some,
        tail_rest(r2) is Some,
        lower(head_token(r1)) == lower(head_token(r2)),
    ensures
        ({
            &&& parse_spec(line1) matches Ok(q1)
            &&& parse_spec(line2) matches Ok(q2)
            &&& q1 matches RequestModel::Create { pile: p1, .. }
            &&& q2 matches RequestModel::Create { pile: p2, .. }
            &&& p1 == p2
        }),
{
    reveal_strlit("CREATE");
    assert(line1.len() != 0) by {
        if line1.len() == 0 {
            assert(head_token(line1).len() == 0);
        }
    }
    assert(line2.len() != 0) by {
        if line2.len() == 0 {
            assert(head_token(line2).len() == 0);
        }
    }
}

/// Law: a PING answers `0 ` whatever came before.  Parsing the line
/// `PING` always yields the PING command — no configuration and no
/// stored state enters — and its reply serializes to exactly `0 `.
pub proof fn lemma_ping_stateless(line: Seq<char>)
    requires
        line == "PING"@,
    ensures
        parse_spec(line) == Ok::<RequestModel, Seq<char>>(RequestModel::Ping),
        serialize_spec(Response::Success { exit_code: 0u8, message: None }) == "0 "@,
{
    reveal_strlit("PING");
    reveal_strlit("CREATE");
    assert(line[0] != ' ' && line[1] != ' ' && line[2] != ' ' && line[3] != ' ');
    crate::text::lemma_first_space_at(line, line.len() as int);
    assert(head_token(line) =~= line);
    lemma_empty_success_line_none();
}

/// Law: an empty success serializes to the exact line `0 ` — the reply
/// of a PING.
pub proof fn lemma_empty_success_line_none()
    ensures
        serialize_spec(Response::Success { exit_code: 0u8, message: None }) == "0 "@,
{
    reveal_strlit("0 ");
    assert(hex_digit(0) as u32 == 0x30);
    assert(serialize_spec(Response::Success { exit_code: 0u8, message: None }) =~= "0 "@);
}

/// Law: a success whose message is the empty string also serializes to
/// the exact line `0 ` — the reply of a FIND on a pile that does not
/// exist or holds no matching record is success, never an error.
pub proof fn lemma_empty_success_line(m: String)
    requires
        m@ == Seq::<char>::empty(),
    ensures
        serialize_spec(Response::Success { exit_code: 0u8, message: Some(m) }) == "0 "@,
{
    reveal_strlit("0 ");
    assert(hex_digit(0) as u32 == 0x30);
    assert(serialize_spec(Response::Success { exit_code: 0u8, message: Some(m) }) =~= "0 "@);
}

/// A typed outcome, serialized to exactly one response line.
#[derive(Debug)]
pub enum Response {
    /// The command succeeded; `message` carries its result, if any.
    Success { exit_code: u8, message: Option<String> },
    /// The command failed; `error` says why.
    Failure { exit_code: u8, error: String },
}

/// The decimal rendering of an exit code.
pub open spec fn dec_chars(n: u8) -> Seq<char> {
    if n < 10 {
        seq![hex_digit(n)]
    } else if n < 100 {
        seq![hex_digit(n / 10), hex_digit(n % 10)]
    } else {
        seq![hex_digit(n / 100), hex_digit((n / 10) % 10), hex_digit(n % 10)]
    }
}

/// The one response line a typed outcome serializes to.
pub open spec fn serialize_spec(resp: Response) -> Seq<char> {
    match resp {
        Response::Success { exit_code, message } => dec_chars(exit_code) + seq![' '] + (
        match message {
            Some(m) => m@,
            None => Seq::<char>::empty(),
        }),
        Response::Failure { exit_code, error } => dec_chars(exit_code) + " Error: "@ + error@,
    }
}

/// Appends the decimal rendering of an exit code.
fn append_dec(out: &mut String, n: u8)
    ensures
        final(out)@ == old(out)@ + dec_chars(n),
{
    if n < 10 {
        out.append(hex_digit_str(n));
    } else if n < 100 {
        out.append(hex_digit_str(n / 10));
        out.append(hex_digit_str(n % 10));
    } else {
        out.append(hex_digit_str(n / 100));
        out.append(hex_digit_str((n / 10) % 10));
        out.append(hex_digit_str(n % 10));
    }
    proof {
        assert(out@ =~= old(out)@ + dec_chars(n));
    }
}

fn space_str() -> (r: &'static str)
    ensures
        r@ =~= seq![' '],
{
    proof {
        reveal_strlit(" ");
    }
    " "
}

impl Response {
    /// Renders the outcome as its one response line, `<exit_code>
    /// <message>`, with errors prefixed by `Error: `.
    pub fn serialize(&self) -> (r: String)
        ensures
            r@ == serialize_spec(*self),
    {
        let mut out = String::new();
        match self {
            Response::Success { exit_code, message } => {
                append_dec(&mut out, *exit_code);
                out.append(space_str());
                match message {
                    Some(m) => {
                        out.append(m.as_str());
                    },
                    None => {},
                }
                proof {
                    assert(out@ =~= serialize_spec(*self));
                }
            },
            Response::Failure { exit_code, error } => {
                append_dec(&mut out, *exit_code);
                out.append(" Error: ");
                out.append(error.as_str());
                proof {
                    assert(out@ =~= serialize_spec(*self));
                }
            },
        }
        out
    }
}

} // verus!
