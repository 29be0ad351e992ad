//! Registering a workers.dev subdomain for an account.
//!
//! The registration alternates requests to the Cloudflare API with
//! decisions. The decisions stand here as a state machine: `subdomain`
//! takes the phase the registration is in and what the last request gave
//! back, and answers with the next phase and what to do next. The caller
//! performs the requests.

use crate::text::{warn_mark, warn_text};
use vstd::prelude::*;

verus! {

/// The body of a registration request: the subdomain asked for.
pub struct Subdomain {
    pub subdomain: String,
}

/// One error entry of an API reply.
#[derive(PartialEq, Eq, Structural, Clone, Copy, Debug)]
pub struct Error {
    pub code: u32,
}

/// The result entry of a subdomain query.
pub struct SubdomainResult {
    pub subdomain: String,
}

/// An API reply's body, as far as the registration reads it.
pub struct Response {
    pub errors: Vec<Error>,
    pub result: Option<SubdomainResult>,
}

/// An API reply: whether its status is a success, the status code, how the
/// status reads (such as `409 Conflict`), the body, and the body read as a
/// `Response` (or why it could not be read so).
pub struct Reply {
    pub success: bool,
    pub status_code: u16,
    pub status: String,
    pub text: String,
    pub parsed: Result<Response, String>,
}

/// The model of a `Response`: the error codes in order, and the subdomain of
/// the result entry where there is one.
pub struct ResponseView {
    pub codes: Seq<u32>,
    pub result: Option<Seq<char>>,
}

/// The model of a `Reply`.
pub struct ReplyView {
    pub success: bool,
    pub status_code: u16,
    pub status: Seq<char>,
    pub text: Seq<char>,
    pub parsed: Result<ResponseView, Seq<char>>,
}

impl View for Response {
    type V = ResponseView;

    open spec fn view(&self) -> ResponseView {
        ResponseView {
            codes: self.errors@.map_values(|e: Error| e.code),
            result: match self.result {
                Some(r) => Some(r.subdomain@),
                None => None,
            },
        }
    }
}

impl View for Reply {
    type V = ReplyView;

    open spec fn view(&self) -> ReplyView {
        ReplyView {
            success: self.success,
            status_code: self.status_code,
            status: self.status@,
            text: self.text@,
            parsed: match self.parsed {
                Ok(r) => Ok(r@),
                Err(e) => Err(e@),
            },
        }
    }
}

/// The API code of the error "this account already has a subdomain".
pub open spec fn code_already_registered() -> u32 {
    10036
}

/// The API endpoint of an account's workers.dev subdomain.
pub open spec fn subdomain_addr_spec(account_id: Seq<char>) -> Seq<char> {
    "https://api.cloudflare.com/client/v4/accounts/"@ + account_id + "/workers/subdomain"@
}

/// The API endpoint of an account's workers.dev subdomain.
pub fn subdomain_addr(account_id: &str) -> (addr: String)
    ensures
        addr@ == subdomain_addr_spec(account_id@),
{
    String::from_str("https://api.cloudflare.com/client/v4/accounts/").concat(account_id).concat(
        "/workers/subdomain",
    )
}

/// Whether an error list reports that the account already has a subdomain.
pub open spec fn reports_already_registered(codes: Seq<u32>) -> bool {
    exists|i: int| 0 <= i < codes.len() && codes[i] == code_already_registered()
}

/// Whether one of the errors says that the account already has a subdomain.
pub fn already_has_subdomain(errors: Vec<Error>) -> (b: bool)
    ensures
        b == reports_already_registered(errors@.map_values(|e: Error| e.code)),
{
    let ghost codes = errors@.map_values(|e: Error| e.code);
    let mut i: usize = 0;
    while i < errors.len()
        invariant
            i <= errors.len(),
            codes == errors@.map_values(|e: Error| e.code),
            forall|j: int| 0 <= j < i ==> codes[j] != code_already_registered(),
        decreases errors.len() - i,
    {
        if errors[i].code == 10036 {
            assert(codes[i as int] == code_already_registered());
            return true;
        }
        i = i + 1;
    }
    false
}

/// The message for a subdomain query that the API refused.
pub open spec fn fetch_error_message(status: Seq<char>, text: Seq<char>) -> Seq<char> {
    warn_mark() + " There was an error fetching your subdomain.\n Status Code: "@ + status
        + "\n Msg: "@ + text
}

/// Whether a subdomain query's reply can be read off: where it succeeded and
/// its body is a `Response`, that response has a result entry.
pub open spec fn fetch_reply_complete(r: ReplyView) -> bool {
    r.success && r.parsed is Ok ==> r.parsed->Ok_0.result is Some
}

/// The account's subdomain as a query's reply gives it, or why it does not.
pub open spec fn fetched_subdomain(r: ReplyView) -> Result<Seq<char>, Seq<char>> {
    if !r.success {
        Err(fetch_error_message(r.status, r.text))
    } else {
        match r.parsed {
            Err(e) => Err(e),
            Ok(resp) => Ok(resp.result->0),
        }
    }
}

impl Subdomain {
    /// Reads the account's subdomain off the reply to a query of
    /// `subdomain_addr`.
    pub fn get(reply: &Reply) -> (r: Result<String, String>)
        requires
            fetch_reply_complete(reply@),
        ensures
            match (r, fetched_subdomain(reply@)) {
                (Ok(a), Ok(b)) => a@ == b,
                (Err(a), Err(b)) => a@ == b,
                _ => false,
            },
    {
        if !reply.success {
            return Err(
                warn_text().concat(" There was an error fetching your subdomain.\n Status Code: ").concat(
                    reply.status.as_str(),
                ).concat("\n Msg: ").concat(reply.text.as_str()),
            );
        }
        match &reply.parsed {
            Err(e) => Err(e.clone()),
            Ok(resp) => match &resp.result {
                Some(res) => Ok(res.subdomain.clone()),
                None => Err(String::new()),
            },
        }
    }
}

/// Where a registration stands.
pub enum Phase {
    /// Nothing was asked yet.
    Start,
    /// The registration request was sent.
    Registering,
    /// The account has a subdomain already, and it was asked for; the
    /// status and body of the refused registration are kept for the message.
    FetchingCurrent { put_status: String, put_text: String },
    /// The registration is over.
    Done,
}

/// What the registration is given at a step.
pub enum Input {
    /// Start the registration.
    Begin,
    /// The reply to the registration request.
    Registered(Reply),
    /// The reply to the query of the account's subdomain.
    Fetched(Reply),
}

/// What to do next.
pub enum Output {
    /// Show `notice`, then send `body` to `addr` as a registration request.
    Register { notice: String, addr: String, body: Subdomain },
    /// Query the account's subdomain at `addr`.
    FetchCurrent { addr: String },
    /// The registration succeeded; show the message.
    Succeeded(String),
    /// The registration failed, with this message.
    Failed(String),
}

/// The model of a `Phase`.
pub enum PhaseView {
    Start,
    Registering,
    FetchingCurrent { put_status: Seq<char>, put_text: Seq<char> },
    Done,
}

/// The model of an `Input`.
pub enum InputView {
    Begin,
    Registered(ReplyView),
    Fetched(ReplyView),
}

/// The model of an `Output`; a registration request by the subdomain it asks for.
pub enum OutputView {
    Register { notice: Seq<char>, addr: Seq<char>, name: Seq<char> },
    FetchCurrent { addr: Seq<char> },
    Succeeded(Seq<char>),
    Failed(Seq<char>),
}

impl View for Phase {
    type V = PhaseView;

    open spec fn view(&self) -> PhaseView {
        match self {
            Phase::Start => PhaseView::Start,
            Phase::Registering => PhaseView::Registering,
            Phase::FetchingCurrent { put_status, put_text } => PhaseView::FetchingCurrent {
                put_status: put_status@,
                put_text: put_text@,
            },
            Phase::Done => PhaseView::Done,
        }
    }
}

impl View for Input {
    type V = InputView;

    open spec fn view(&self) -> InputView {
        match self {
            Input::Begin => InputView::Begin,
            Input::Registered(r) => InputView::Registered(r@),
            Input::Fetched(r) => InputView::Fetched(r@),
        }
    }
}

impl View for Output {
    type V = OutputView;

    open spec fn view(&self) -> OutputView {
        match self {
            Output::Register { notice, addr, body } => OutputView::Register {
                notice: notice@,
                addr: addr@,
                name: body.subdomain@,
            },
            Output::FetchCurrent { addr } => OutputView::FetchCurrent { addr: addr@ },
            Output::Succeeded(m) => OutputView::Succeeded(m@),
            Output::Failed(m) => OutputView::Failed(m@),
        }
    }
}

/// The refusal when the target names no account.
pub open spec fn no_account_message() -> Seq<char> {
    warn_mark()
        + " You must provide an account_id in your wrangler.toml before creating a subdomain!"@
}

/// The notice shown while the registration request is under way.
pub open spec fn registering_notice(name: Seq<char>) -> Seq<char> {
    "Registering your subdomain, "@ + name + ".workers.dev, this could take up to a minute."@
}

/// The message after a successful registration.
pub open spec fn success_message(name: Seq<char>) -> Seq<char> {
    "Success! You've registered "@ + name + "."@
}

/// The message when the account had registered this very subdomain before.
pub open spec fn previously_registered_message(sd: Seq<char>, status: Seq<char>, text: Seq<char>) -> Seq<char> {
    warn_mark() + " You have previously registered "@ + sd + ".workers.dev \n Status Code: "@ + status
        + "\n Msg: "@ + text
}

/// The message when the account has another subdomain already.
pub open spec fn other_registered_message(sd: Seq<char>, status: Seq<char>, text: Seq<char>) -> Seq<char> {
    warn_mark()
        + " This account already has a registered subdomain. You can only register one subdomain per account. Your subdomain is "@
        + sd + ".workers.dev \n Status Code: "@ + status + "\n Msg: "@ + text
}

/// The message when the subdomain is taken (status 409).
pub open spec fn unavailable_message(status: Seq<char>, text: Seq<char>) -> Seq<char> {
    warn_mark() + " Your requested subdomain is not available. Please pick another one.\n Status Code: "@
        + status + "\n Msg: "@ + text
}

/// The message for any other refused registration.
pub open spec fn create_error_message(status: Seq<char>, text: Seq<char>) -> Seq<char> {
    warn_mark() + " There was an error creating your requested subdomain.\n Status Code: "@ + status
        + "\n Msg: "@ + text
}

/// Which inputs each phase takes: the start takes `Begin`, a sent
/// registration its reply, a sent query its reply, which must be complete.
pub open spec fn accepts(phase: PhaseView, input: InputView) -> bool {
    match (phase, input) {
        (PhaseView::Start, InputView::Begin) => true,
        (PhaseView::Registering, InputView::Registered(_)) => true,
        (PhaseView::FetchingCurrent { .. }, InputView::Fetched(r)) => fetch_reply_complete(r),
        _ => false,
    }
}

/// One step of a registration of `name` for the account `account_id`.
pub open spec fn subdomain_spec(
    name: Seq<char>,
    account_id: Seq<char>,
    phase: PhaseView,
    input: InputView,
) -> (PhaseView, OutputView) {
    match (phase, input) {
        (PhaseView::Start, InputView::Begin) => if account_id.len() == 0 {
            (PhaseView::Done, OutputView::Failed(no_account_message()))
        } else {
            (
                PhaseView::Registering,
                OutputView::Register {
                    notice: registering_notice(name),
                    addr: subdomain_addr_spec(account_id),
                    name,
                },
            )
        },
        (PhaseView::Registering, InputView::Registered(r)) => if r.success {
            (PhaseView::Done, OutputView::Succeeded(success_message(name)))
        } else {
            match r.parsed {
                Err(e) => (PhaseView::Done, OutputView::Failed(e)),
                Ok(resp) => if reports_already_registered(resp.codes) {
                    (
                        PhaseView::FetchingCurrent { put_status: r.status, put_text: r.text },
                        OutputView::FetchCurrent { addr: subdomain_addr_spec(account_id) },
                    )
                } else if r.status_code == 409 {
                    (PhaseView::Done, OutputView::Failed(unavailable_message(r.status, r.text)))
                } else {
                    (PhaseView::Done, OutputView::Failed(create_error_message(r.status, r.text)))
                },
            }
        },
        (PhaseView::FetchingCurrent { put_status, put_text }, InputView::Fetched(r)) => match fetched_subdomain(r) {
            Err(e) => (PhaseView::Done, OutputView::Failed(e)),
            Ok(sd) => if sd == name {
                (PhaseView::Done, OutputView::Failed(previously_registered_message(sd, put_status, put_text)))
            } else {
                (PhaseView::Done, OutputView::Failed(other_registered_message(sd, put_status, put_text)))
            },
        },
        _ => (PhaseView::Done, OutputView::Failed(Seq::empty())),
    }
}

/// One step of the registration of the subdomain `name` for the account
/// `account_id`: given the phase and what the last request gave back, the
/// next phase and what to do.
pub fn subdomain(name: &str, account_id: &str, phase: Phase, input: Input) -> (r: (Phase, Output))
    requires
        accepts(phase@, input@),
    ensures
        (r.0@, r.1@) == subdomain_spec(name@, account_id@, phase@, input@),
{
    match (phase, input) {
        (Phase::Start, Input::Begin) => {
            if account_id.is_empty() {
                (
                    Phase::Done,
                    Output::Failed(
                        warn_text().concat(
                            " You must provide an account_id in your wrangler.toml before creating a subdomain!",
                        ),
                    ),
                )
            } else {
                let notice = String::from_str("Registering your subdomain, ").concat(name).concat(
                    ".workers.dev, this could take up to a minute.",
                );
                (
                    Phase::Registering,
                    Output::Register {
                        notice,
                        addr: subdomain_addr(account_id),
                        body: Subdomain { subdomain: String::from_str(name) },
                    },
                )
            }
        },
        (Phase::Registering, Input::Registered(reply)) => {
            if reply.success {
                return (
                    Phase::Done,
                    Output::Succeeded(
                        String::from_str("Success! You've registered ").concat(name).concat("."),
                    ),
                );
            }
            let Reply { success: _, status_code, status, text, parsed } = reply;
            match parsed {
                Err(e) => (Phase::Done, Output::Failed(e)),
                Ok(resp) => {
                    if already_has_subdomain(resp.errors) {
                        (
                            Phase::FetchingCurrent { put_status: status, put_text: text },
                            Output::FetchCurrent { addr: subdomain_addr(account_id) },
                        )
                    } else if status_code == 409 {
                        let m = warn_text().concat(
                            " Your requested subdomain is not available. Please pick another one.\n Status Code: ",
                        ).concat(status.as_str()).concat("\n Msg: ").concat(text.as_str());
                        (Phase::Done, Output::Failed(m))
                    } else {
                        let m = warn_text().concat(
                            " There was an error creating your requested subdomain.\n Status Code: ",
                        ).concat(status.as_str()).concat("\n Msg: ").concat(text.as_str());
                        (Phase::Done, Output::Failed(m))
                    }
                },
            }
        },
        (Phase::FetchingCurrent { put_status, put_text }, Input::Fetched(reply)) => {
            match Subdomain::get(&reply) {
                Err(e) => (Phase::Done, Output::Failed(e)),
                Ok(sd) => {
                    let requested = String::from_str(name);
                    if sd == requested {
                        let m = warn_text().concat(" You have previously registered ").concat(
                            sd.as_str(),
                        ).concat(".workers.dev \n Status Code: ").concat(put_status.as_str()).concat(
                            "\n Msg: ",
                        ).concat(put_text.as_str());
                        (Phase::Done, Output::Failed(m))
                    } else {
                        let m = warn_text().concat(
                            " This account already has a registered subdomain. You can only register one subdomain per account. Your subdomain is ",
                        ).concat(sd.as_str()).concat(".workers.dev \n Status Code: ").concat(
                            put_status.as_str(),
                        ).concat("\n Msg: ").concat(put_text.as_str());
                        (Phase::Done, Output::Failed(m))
                    }
                },
            }
        },
        (_, _) => (Phase::Done, Output::Failed(String::new())),
    }
}

/// Whether an output ends the registration.
pub open spec fn is_final(o: OutputView) -> bool {
    o is Succeeded || o is Failed
}

/// How far a registration has come: start, registering, querying, done.
pub open spec fn progress(p: PhaseView) -> nat {
    match p {
        PhaseView::Start => 0,
        PhaseView::Registering => 1,
        PhaseView::FetchingCurrent { .. } => 2,
        PhaseView::Done => 3,
    }
}

/// Without an account nothing is sent: the registration fails at once with
/// the message that asks for an `account_id`.
pub proof fn law_no_request_without_account(name: Seq<char>, account_id: Seq<char>)
    requires
        account_id.len() == 0,
    ensures
        subdomain_spec(name, account_id, PhaseView::Start, InputView::Begin) == (
            PhaseView::Done,
            OutputView::Failed(no_account_message()),
        ),
{
}

/// With an account, the registration asks the account's subdomain endpoint
/// for exactly the requested name.
pub proof fn law_register_asks_for_name(name: Seq<char>, account_id: Seq<char>)
    requires
        account_id.len() > 0,
    ensures
        subdomain_spec(name, account_id, PhaseView::Start, InputView::Begin).1 == (OutputView::Register {
            notice: registering_notice(name),
            addr: subdomain_addr_spec(account_id),
            name,
        }),
{
}

/// A registration succeeds exactly when the registration request's reply has
/// a success status, and then it says so with the name.
pub proof fn law_success_iff_registration_accepted(name: Seq<char>, account_id: Seq<char>, r: ReplyView)
    ensures
        ({
            let (p, o) = subdomain_spec(name, account_id, PhaseView::Registering, InputView::Registered(r));
            &&& o is Succeeded <==> r.success
            &&& r.success ==> o == OutputView::Succeeded(success_message(name)) && p == PhaseView::Done
        }),
{
}

/// The account's current subdomain is queried only when the registration
/// was refused with the "already has a subdomain" code, and then from the
/// account's own endpoint.
pub proof fn law_query_only_when_already_registered(name: Seq<char>, account_id: Seq<char>, r: ReplyView)
    ensures
        ({
            let (p, o) = subdomain_spec(name, account_id, PhaseView::Registering, InputView::Registered(r));
            &&& o is FetchCurrent <==> (!r.success && r.parsed is Ok && reports_already_registered(
                r.parsed->Ok_0.codes,
            ))
            &&& o is FetchCurrent ==> o == OutputView::FetchCurrent { addr: subdomain_addr_spec(account_id) }
                && p == PhaseView::FetchingCurrent { put_status: r.status, put_text: r.text }
        }),
{
}

/// A refused registration that is not about an existing subdomain reports
/// an unavailable name exactly on status 409.
pub proof fn law_conflict_means_unavailable(name: Seq<char>, account_id: Seq<char>, r: ReplyView)
    requires
        !r.success,
        r.parsed is Ok,
        !reports_already_registered(r.parsed->Ok_0.codes),
    ensures
        subdomain_spec(name, account_id, PhaseView::Registering, InputView::Registered(r)).1 == (if r.status_code
            == 409 {
            OutputView::Failed(unavailable_message(r.status, r.text))
        } else {
            OutputView::Failed(create_error_message(r.status, r.text))
        }),
{
}

/// After the query, the registration fails in every case; it tells that the
/// name was registered before exactly when the account's subdomain is the
/// requested name, and else names the account's subdomain.
pub proof fn law_existing_subdomain_reported(
    name: Seq<char>,
    account_id: Seq<char>,
    put_status: Seq<char>,
    put_text: Seq<char>,
    r: ReplyView,
)
    requires
        fetch_reply_complete(r),
    ensures
        ({
            let (p, o) = subdomain_spec(
                name,
                account_id,
                PhaseView::FetchingCurrent { put_status, put_text },
                InputView::Fetched(r),
            );
            &&& p == PhaseView::Done
            &&& o is Failed
            &&& fetched_subdomain(r) matches Ok(sd) ==> o == (if sd == name {
                OutputView::Failed(previously_registered_message(sd, put_status, put_text))
            } else {
                OutputView::Failed(other_registered_message(sd, put_status, put_text))
            })
        }),
{
}

/// Every step moves the registration forward, and a step ends it exactly
/// when its output is final; so a registration takes at most three steps.
pub proof fn law_registration_progresses(name: Seq<char>, account_id: Seq<char>, phase: PhaseView, input: InputView)
    requires
        accepts(phase, input),
    ensures
        ({
            let (p, o) = subdomain_spec(name, account_id, phase, input);
            &&& progress(p) > progress(phase)
            &&& (p == PhaseView::Done <==> is_final(o))
        }),
{
}

/// The subdomain endpoint holds the whole account id between the fixed API
/// prefix and the fixed `/workers/subdomain` suffix, so that the address,
/// less those, is the account id itself, and different accounts never share
/// an endpoint.
pub proof fn law_subdomain_addr_holds_account(a: Seq<char>, b: Seq<char>)
    ensures
        subdomain_addr_spec(a).len() == a.len() + 64,
        subdomain_addr_spec(a).subrange(0, 46) == "https://api.cloudflare.com/client/v4/accounts/"@,
        subdomain_addr_spec(a).subrange(46, 46 + a.len() as int) == a,
        subdomain_addr_spec(a).subrange(46 + a.len() as int, a.len() as int + 64) == "/workers/subdomain"@,
        a != b ==> subdomain_addr_spec(a) != subdomain_addr_spec(b),
{
    reveal_strlit("https://api.cloudflare.com/client/v4/accounts/");
    reveal_strlit("/workers/subdomain");
    let x = subdomain_addr_spec(a);
    let y = subdomain_addr_spec(b);
    assert(x.subrange(0, 46) =~= "https://api.cloudflare.com/client/v4/accounts/"@);
    assert(x.subrange(46, 46 + a.len() as int) =~= a);
    assert(x.subrange(46 + a.len() as int, a.len() as int + 64) =~= "/workers/subdomain"@);
    if a != b && x == y {
        assert(y.subrange(46, 46 + b.len() as int) =~= b);
        assert(a.len() == b.len());
        assert(false);
    }
}

} // verus!
