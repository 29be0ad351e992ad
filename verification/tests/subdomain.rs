use wrangler::subdomain::{
    already_has_subdomain, subdomain, subdomain_addr, Error, Input, Output, Phase, Reply, Response,
    Subdomain, SubdomainResult,
};

const WARN: &str = "\u{26a0}\u{fe0f} ";

fn reply(success: bool, code: u16, status: &str, text: &str, parsed: Result<Response, String>) -> Reply {
    Reply { success, status_code: code, status: status.to_string(), text: text.to_string(), parsed }
}

fn errors(codes: &[u32]) -> Response {
    Response { errors: codes.iter().map(|c| Error { code: *c }).collect(), result: None }
}

fn current(name: &str) -> Response {
    Response { errors: vec![], result: Some(SubdomainResult { subdomain: name.to_string() }) }
}

#[test]
fn subdomain_endpoint() {
    assert_eq!(
        subdomain_addr("0123abcd"),
        "https://api.cloudflare.com/client/v4/accounts/0123abcd/workers/subdomain"
    );
}

#[test]
fn already_registered_code_is_found() {
    assert!(already_has_subdomain(vec![Error { code: 10000 }, Error { code: 10036 }]));
    assert!(!already_has_subdomain(vec![Error { code: 10000 }]));
    assert!(!already_has_subdomain(vec![]));
}

#[test]
fn no_account_no_request() {
    let (p, o) = subdomain("mine", "", Phase::Start, Input::Begin);
    assert!(matches!(p, Phase::Done));
    match o {
        Output::Failed(m) => assert_eq!(
            m,
            format!("{} You must provide an account_id in your wrangler.toml before creating a subdomain!", WARN)
        ),
        _ => panic!("expected a failure"),
    }
}

#[test]
fn registration_request() {
    let (p, o) = subdomain("mine", "acc", Phase::Start, Input::Begin);
    assert!(matches!(p, Phase::Registering));
    match o {
        Output::Register { notice, addr, body } => {
            assert_eq!(notice, "Registering your subdomain, mine.workers.dev, this could take up to a minute.");
            assert_eq!(addr, "https://api.cloudflare.com/client/v4/accounts/acc/workers/subdomain");
            assert_eq!(body.subdomain, "mine");
        }
        _ => panic!("expected a registration request"),
    }
}

#[test]
fn registration_succeeds() {
    let r = reply(true, 200, "200 OK", "{}", Err("unread".to_string()));
    let (p, o) = subdomain("mine", "acc", Phase::Registering, Input::Registered(r));
    assert!(matches!(p, Phase::Done));
    match o {
        Output::Succeeded(m) => assert_eq!(m, "Success! You've registered mine."),
        _ => panic!("expected success"),
    }
}

#[test]
fn taken_name_is_unavailable() {
    let r = reply(false, 409, "409 Conflict", "body", Ok(errors(&[10000])));
    let (_, o) = subdomain("mine", "acc", Phase::Registering, Input::Registered(r));
    match o {
        Output::Failed(m) => assert_eq!(
            m,
            format!(
                "{} Your requested subdomain is not available. Please pick another one.\n Status Code: 409 Conflict\n Msg: body",
                WARN
            )
        ),
        _ => panic!("expected a failure"),
    }
}

#[test]
fn other_refusal_is_an_error() {
    let r = reply(false, 500, "500 Internal Server Error", "oops", Ok(errors(&[])));
    let (_, o) = subdomain("mine", "acc", Phase::Registering, Input::Registered(r));
    match o {
        Output::Failed(m) => assert_eq!(
            m,
            format!(
                "{} There was an error creating your requested subdomain.\n Status Code: 500 Internal Server Error\n Msg: oops",
                WARN
            )
        ),
        _ => panic!("expected a failure"),
    }
}

#[test]
fn unreadable_refusal_passes_the_reason() {
    let r = reply(false, 400, "400 Bad Request", "<html>", Err("expected value at line 1 column 1".to_string()));
    let (_, o) = subdomain("mine", "acc", Phase::Registering, Input::Registered(r));
    match o {
        Output::Failed(m) => assert_eq!(m, "expected value at line 1 column 1"),
        _ => panic!("expected a failure"),
    }
}

fn after_already_registered(current_reply: Reply) -> String {
    let r = reply(false, 400, "400 Bad Request", "taken", Ok(errors(&[10036])));
    let (p, o) = subdomain("mine", "acc", Phase::Registering, Input::Registered(r));
    match o {
        Output::FetchCurrent { addr } => {
            assert_eq!(addr, "https://api.cloudflare.com/client/v4/accounts/acc/workers/subdomain")
        }
        _ => panic!("expected a query of the current subdomain"),
    }
    let (p2, o2) = subdomain("mine", "acc", p, Input::Fetched(current_reply));
    assert!(matches!(p2, Phase::Done));
    match o2 {
        Output::Failed(m) => m,
        _ => panic!("expected a failure"),
    }
}

#[test]
fn same_subdomain_registered_before() {
    let m = after_already_registered(reply(true, 200, "200 OK", "{}", Ok(current("mine"))));
    assert_eq!(
        m,
        format!("{} You have previously registered mine.workers.dev \n Status Code: 400 Bad Request\n Msg: taken", WARN)
    );
}

#[test]
fn other_subdomain_registered() {
    let m = after_already_registered(reply(true, 200, "200 OK", "{}", Ok(current("theirs"))));
    assert_eq!(
        m,
        format!(
            "{} This account already has a registered subdomain. You can only register one subdomain per account. Your subdomain is theirs.workers.dev \n Status Code: 400 Bad Request\n Msg: taken",
            WARN
        )
    );
}

#[test]
fn failed_query_is_reported() {
    let m = after_already_registered(reply(false, 403, "403 Forbidden", "denied", Err("unread".to_string())));
    assert_eq!(
        m,
        format!("{} There was an error fetching your subdomain.\n Status Code: 403 Forbidden\n Msg: denied", WARN)
    );
}

#[test]
fn current_subdomain_is_read() {
    assert_eq!(Subdomain::get(&reply(true, 200, "200 OK", "{}", Ok(current("mine")))), Ok("mine".to_string()));
    assert_eq!(
        Subdomain::get(&reply(true, 200, "200 OK", "x", Err("bad json".to_string()))),
        Err("bad json".to_string())
    );
}
