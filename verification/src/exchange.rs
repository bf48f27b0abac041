//! One request for a proof, from building the HTTP client to the final answer.
//!
//! Nothing here does I/O. An [`Exchange`] is the work that is due next: whoever drives it performs
//! that work and hands the result to the `resume` of the step it holds, until it is
//! [`Exchange::Done`].
use vstd::prelude::*;
use vstd::string::*;

use crate::address::Ipv4Addr;
use crate::error::{IpProofError, IpProofErrorView};
use crate::wire::{classify_failure, is_success, read_success};
use crate::wire::{ErrorResponse, ErrorResponseView, IpOwnershipProof, IpOwnershipProofView};
use crate::wire::{ProofResponse, ProofResponseView};

verus! {

/// How long to wait on one attempt before giving up and letting the program decide, in
/// milliseconds. Short on purpose: `connect` is interactive, and the fallback is a working
/// connection while the feature flag is clear. [`MAX_ATTEMPTS`] of these plus the delay between
/// them is the whole budget.
pub const REQUEST_TIMEOUT_MS: u64 = 2500;

/// Abandon one address this fast, in milliseconds, so a second DNS answer is actually reached.
/// Without a connect timeout a blackholed address burns the entire request budget and its siblings
/// are never tried.
pub const CONNECT_TIMEOUT_MS: u64 = 1000;

/// Attempts before giving up. Asking for a proof is idempotent, so a retry cannot double anything,
/// and a second attempt may resolve to a healthy host behind the same name. Only a transport error
/// or a 5xx is retried: a decline (`rate_limited` above all) and a malformed body are answers that
/// will not change.
pub const MAX_ATTEMPTS: u32 = 2;

/// The pause between attempts, in milliseconds. Short, for the same reason the timeout is.
pub const RETRY_DELAY_MS: u64 = 250;

/// The body of a request. There is no client address in it: the service signs the source address
/// it observes.
#[derive(Debug)]
pub struct RequestBody {
    pub payer: String,
    pub user_type: u8,
}

/// What is sent, and where. It stays the same through every attempt.
#[derive(Debug)]
pub struct ProofRequest {
    pub url: String,
    pub body: RequestBody,
}

/// Due: build the HTTP client, bound to `local_address` when there is one.
#[derive(Debug)]
pub struct ClientBuild {
    pub request: ProofRequest,
    pub local_address: Option<Ipv4Addr>,
}

/// How the HTTP client is to be built.
#[derive(Clone, Copy, Debug, PartialEq, Eq)]
pub struct ClientOptions {
    pub local_address: Option<Ipv4Addr>,
    pub timeout_ms: u64,
    pub connect_timeout_ms: u64,
}

/// Due: post `request.body` to `request.url`. `bound` tells whether the client that was built is
/// bound to the tunnel's address; `number` counts the attempts from 1.
#[derive(Debug)]
pub struct Attempt {
    pub request: ProofRequest,
    pub bound: bool,
    pub number: u32,
}

/// An HTTP answer.
#[derive(Debug)]
pub struct HttpReply {
    pub status: u16,
    pub body: String,
}

/// Due: read `body`, the body of a non-success answer, as an [`ErrorResponse`].
#[derive(Debug)]
pub struct Refusal {
    pub attempt: Attempt,
    pub status: u16,
    pub body: String,
}

/// Due: read `body`, the body of a success answer, as a [`ProofResponse`].
#[derive(Debug)]
pub struct Answer {
    pub attempt: Attempt,
    pub body: String,
}

/// Due: let [`RETRY_DELAY_MS`] pass before the attempt `next`. `cause` is why the one before it
/// failed.
#[derive(Debug)]
pub struct Pause {
    pub cause: IpProofError,
    pub next: Attempt,
}

/// The work that is due next in a request for a proof.
#[derive(Debug)]
pub enum Exchange {
    BuildClient(ClientBuild),
    Send(Attempt),
    ReadRefusal(Refusal),
    ReadAnswer(Answer),
    Pause(Pause),
    Done(Result<IpOwnershipProof, IpProofError>),
}

/// The contents of a [`ProofRequest`].
pub struct ProofRequestView {
    pub url: Seq<char>,
    pub payer: Seq<char>,
    pub user_type: u8,
}

/// The contents of an [`Attempt`].
pub struct AttemptView {
    pub request: ProofRequestView,
    pub bound: bool,
    pub number: u32,
}

/// The contents of an [`HttpReply`].
pub struct HttpReplyView {
    pub status: u16,
    pub body: Seq<char>,
}

/// The contents of an [`Exchange`].
pub enum ExchangeView {
    BuildClient { request: ProofRequestView, local_address: Option<Ipv4Addr> },
    Send(AttemptView),
    ReadRefusal { attempt: AttemptView, status: u16, body: Seq<char> },
    ReadAnswer { attempt: AttemptView, body: Seq<char> },
    Pause { cause: IpProofErrorView, next: AttemptView },
    Done(Result<IpOwnershipProofView, IpProofErrorView>),
}

impl View for ProofRequest {
    type V = ProofRequestView;

    open spec fn view(&self) -> ProofRequestView {
        ProofRequestView {
            url: self.url@,
            payer: self.body.payer@,
            user_type: self.body.user_type,
        }
    }
}

impl View for Attempt {
    type V = AttemptView;

    open spec fn view(&self) -> AttemptView {
        AttemptView { request: self.request@, bound: self.bound, number: self.number }
    }
}

impl View for HttpReply {
    type V = HttpReplyView;

    open spec fn view(&self) -> HttpReplyView {
        HttpReplyView { status: self.status, body: self.body@ }
    }
}

impl View for Exchange {
    type V = ExchangeView;

    open spec fn view(&self) -> ExchangeView {
        match self {
            Exchange::BuildClient(build) => ExchangeView::BuildClient {
                request: build.request@,
                local_address: build.local_address,
            },
            Exchange::Send(attempt) => ExchangeView::Send(attempt@),
            Exchange::ReadRefusal(refusal) => ExchangeView::ReadRefusal {
                attempt: refusal.attempt@,
                status: refusal.status,
                body: refusal.body@,
            },
            Exchange::ReadAnswer(answer) => ExchangeView::ReadAnswer {
                attempt: answer.attempt@,
                body: answer.body@,
            },
            Exchange::Pause(pause) => ExchangeView::Pause { cause: pause.cause@, next: pause.next@ },
            Exchange::Done(outcome) => ExchangeView::Done(crate::wire::outcome_view(*outcome)),
        }
    }
}

/// The contents of the result of building a client.
pub open spec fn built_view(built: Result<(), String>) -> Result<(), Seq<char>> {
    match built {
        Ok(_) => Ok(()),
        Err(detail) => Err(detail@),
    }
}

/// The contents of an answer or of the transport's complaint.
pub open spec fn reply_view(reply: Result<HttpReply, String>) -> Result<HttpReplyView, Seq<char>> {
    match reply {
        Ok(reply) => Ok(reply@),
        Err(detail) => Err(detail@),
    }
}

/// What follows the building of a client. A bound client that cannot be built gives way to an
/// unbound one; an unbound one that cannot be built ends the exchange.
pub open spec fn after_build(
    request: ProofRequestView,
    local_address: Option<Ipv4Addr>,
    built: Result<(), Seq<char>>,
) -> ExchangeView {
    match built {
        Ok(_) => ExchangeView::Send(
            AttemptView { request, bound: local_address is Some, number: 1 },
        ),
        Err(detail) => if local_address is Some {
            ExchangeView::BuildClient { request, local_address: None }
        } else {
            ExchangeView::Done(
                Err(
                    IpProofErrorView::Unreachable {
                        url: request.url,
                        detail: "could not build an HTTP client: "@ + detail,
                    },
                ),
            )
        },
    }
}

/// What follows the result of an attempt: a failure worth another attempt is followed by one while
/// there are attempts left, and anything else is final.
pub open spec fn after_attempt(
    attempt: AttemptView,
    outcome: Result<IpOwnershipProofView, (IpProofErrorView, bool)>,
) -> ExchangeView {
    match outcome {
        Ok(proof) => ExchangeView::Done(Ok(proof)),
        Err((e, retryable)) => if retryable && attempt.number < MAX_ATTEMPTS {
            ExchangeView::Pause {
                cause: e,
                next: AttemptView { number: (attempt.number + 1) as u32, ..attempt },
            }
        } else {
            ExchangeView::Done(Err(e))
        },
    }
}

/// The failure of an attempt that got no answer, which is worth another attempt.
pub open spec fn no_answer(url: Seq<char>, detail: Seq<char>) -> Result<
    IpOwnershipProofView,
    (IpProofErrorView, bool),
> {
    Err((IpProofErrorView::Unreachable { url, detail }, true))
}

/// What follows a request that was sent.
pub open spec fn after_send(
    attempt: AttemptView,
    reply: Result<HttpReplyView, Seq<char>>,
) -> ExchangeView {
    match reply {
        Err(detail) => after_attempt(attempt, no_answer(attempt.request.url, detail)),
        Ok(reply) => if crate::wire::success_status(reply.status) {
            ExchangeView::ReadAnswer { attempt, body: reply.body }
        } else {
            ExchangeView::ReadRefusal { attempt, status: reply.status, body: reply.body }
        },
    }
}

/// What follows the reading of a refusal.
pub open spec fn after_refusal(
    attempt: AttemptView,
    status: u16,
    body: Seq<char>,
    parsed: Option<ErrorResponseView>,
) -> ExchangeView {
    after_attempt(
        attempt,
        Err(
            (
                crate::wire::decline_for(status, body, parsed),
                crate::wire::server_error_status(status),
            ),
        ),
    )
}

/// What follows the reading of a success answer.
pub open spec fn after_answer(
    attempt: AttemptView,
    body: Seq<char>,
    parsed: Result<ProofResponseView, Seq<char>>,
) -> ExchangeView {
    after_attempt(attempt, crate::wire::success_for(body, parsed))
}

impl ClientBuild {
    /// How the client is to be built. The timeouts are the same whether or not it is bound.
    pub fn options(&self) -> (r: ClientOptions)
        ensures
            r == (ClientOptions {
                local_address: self.local_address,
                timeout_ms: REQUEST_TIMEOUT_MS,
                connect_timeout_ms: CONNECT_TIMEOUT_MS,
            }),
            r.timeout_ms == 2500,
            r.connect_timeout_ms == 1000,
    {
        ClientOptions {
            local_address: self.local_address,
            timeout_ms: REQUEST_TIMEOUT_MS,
            connect_timeout_ms: CONNECT_TIMEOUT_MS,
        }
    }

    /// Goes on with the result of building the client: nothing, or the complaint of the builder or
    /// of the bind.
    ///
    /// The request is bound to the address the tunnel will use, so a multi-homed host proves the
    /// right one. On a NATed host that address is not assigned to any local interface and the bind
    /// fails, which is expected: the fallback is an unbound request, where the service observes
    /// the NAT's public address.
    pub fn resume(self, built: Result<(), String>) -> (r: Exchange)
        ensures
            r@ == after_build(self.request@, self.local_address, built_view(built)),
            built is Ok ==> {
                &&& r is Send
                &&& r->Send_0.request@ == self.request@
                &&& r->Send_0.bound == (self.local_address is Some)
                &&& r->Send_0.number == 1
            },
            built is Err && self.local_address is Some ==> {
                &&& r is BuildClient
                &&& r->BuildClient_0.request@ == self.request@
                &&& r->BuildClient_0.local_address is None
            },
            built is Err && self.local_address is None ==> {
                &&& r is Done
                &&& r->Done_0 is Err
                &&& r->Done_0->Err_0 is Unreachable
                &&& r->Done_0->Err_0->url@ == self.request.url@
                &&& r->Done_0->Err_0->detail@ == "could not build an HTTP client: "@
                    + built->Err_0@
            },
    {
        let bound = self.local_address.is_some();
        match built {
            Ok(_) => Exchange::Send(Attempt { request: self.request, bound, number: 1 }),
            Err(detail) => {
                if bound {
                    Exchange::BuildClient(
                        ClientBuild { request: self.request, local_address: None },
                    )
                } else {
                    Exchange::Done(
                        Err(
                            IpProofError::Unreachable {
                                url: self.request.url,
                                detail: "could not build an HTTP client: ".to_owned().concat(
                                    detail.as_str(),
                                ),
                            },
                        ),
                    )
                }
            },
        }
    }
}

impl Attempt {
    /// Goes on with the result of this attempt.
    fn conclude(self, outcome: Result<IpOwnershipProof, (IpProofError, bool)>) -> (r: Exchange)
        ensures
            r@ == after_attempt(self@, crate::wire::attempt_view(outcome)),
            outcome matches Ok(proof) ==> r == Exchange::Done(Ok(proof)),
            outcome matches Err((e, retryable)) ==> retryable && self.number < 2 ==> {
                &&& r is Pause
                &&& r->Pause_0.cause == e
                &&& r->Pause_0.next.request == self.request
                &&& r->Pause_0.next.bound == self.bound
                &&& r->Pause_0.next.number == self.number + 1
            },
            outcome matches Err((e, retryable)) ==> !(retryable && self.number < 2) ==> r
                == Exchange::Done(Err(e)),
    {
        match outcome {
            Ok(proof) => Exchange::Done(Ok(proof)),
            Err((e, retryable)) => {
                if retryable && self.number < MAX_ATTEMPTS {
                    Exchange::Pause(
                        Pause {
                            cause: e,
                            next: Attempt {
                                request: self.request,
                                bound: self.bound,
                                number: self.number + 1,
                            },
                        },
                    )
                } else {
                    Exchange::Done(Err(e))
                }
            },
        }
    }

    /// Goes on with the answer to this attempt, or with the transport's complaint when there was
    /// none or its body could not be received.
    pub fn resume(self, reply: Result<HttpReply, String>) -> (r: Exchange)
        ensures
            r@ == after_send(self@, reply_view(reply)),
            reply matches Ok(reply) ==> 200 <= reply.status <= 299 ==> r == Exchange::ReadAnswer(
                Answer { attempt: self, body: reply.body },
            ),
            reply matches Ok(reply) ==> !(200 <= reply.status <= 299) ==> r
                == Exchange::ReadRefusal(
                Refusal { attempt: self, status: reply.status, body: reply.body },
            ),
            reply matches Err(detail) ==> self.number < 2 ==> {
                &&& r is Pause
                &&& r->Pause_0.cause is Unreachable
                &&& r->Pause_0.cause->url@ == self.request.url@
                &&& r->Pause_0.cause->detail@ == detail@
                &&& r->Pause_0.next.request == self.request
                &&& r->Pause_0.next.bound == self.bound
                &&& r->Pause_0.next.number == self.number + 1
            },
            reply matches Err(detail) ==> self.number >= 2 ==> {
                &&& r is Done
                &&& r->Done_0 is Err
                &&& r->Done_0->Err_0 is Unreachable
                &&& r->Done_0->Err_0->url@ == self.request.url@
                &&& r->Done_0->Err_0->detail@ == detail@
            },
    {
        match reply {
            Err(detail) => {
                let url = self.request.url.clone();
                self.conclude(Err((IpProofError::Unreachable { url, detail }, true)))
            },
            Ok(reply) => {
                if is_success(reply.status) {
                    Exchange::ReadAnswer(Answer { attempt: self, body: reply.body })
                } else {
                    Exchange::ReadRefusal(
                        Refusal { attempt: self, status: reply.status, body: reply.body },
                    )
                }
            },
        }
    }
}

impl Refusal {
    /// Goes on with what the body reads as.
    pub fn resume(self, parsed: Option<ErrorResponse>) -> (r: Exchange)
        ensures
            r@ == after_refusal(
                self.attempt@,
                self.status,
                self.body@,
                crate::wire::refusal_view(parsed),
            ),
            500 <= self.status <= 599 && self.attempt.number < 2 ==> {
                &&& r is Pause
                &&& r->Pause_0.cause is Declined
                &&& parsed matches Some(refusal) ==> r->Pause_0.cause->reason@ == refusal.error@
                    && r->Pause_0.cause->message@ == refusal.message@
                &&& r->Pause_0.next.request == self.attempt.request
                &&& r->Pause_0.next.bound == self.attempt.bound
                &&& r->Pause_0.next.number == self.attempt.number + 1
            },
            !(500 <= self.status <= 599 && self.attempt.number < 2) ==> {
                &&& r is Done
                &&& r->Done_0 is Err
                &&& r->Done_0->Err_0 is Declined
                &&& parsed matches Some(refusal) ==> r->Done_0->Err_0->reason@ == refusal.error@
                    && r->Done_0->Err_0->message@ == refusal.message@
            },
    {
        let failure = classify_failure(self.status, self.body.as_str(), parsed);
        self.attempt.conclude(Err(failure))
    }
}

impl Answer {
    /// Goes on with what the body reads as, or with the parser's complaint.
    pub fn resume(self, parsed: Result<ProofResponse, String>) -> (r: Exchange)
        ensures
            r@ == after_answer(
                self.attempt@,
                self.body@,
                crate::wire::parsed_proof_view(parsed),
            ),
            r is Done,
            r->Done_0 is Ok <==> {
                &&& parsed is Ok
                &&& crate::keys::pubkey_of_text(parsed->Ok_0.payer@) is Ok
                &&& crate::keys::signature_of_text(parsed->Ok_0.signature@) is Ok
            },
            r->Done_0 is Err ==> r->Done_0->Err_0 is Malformed,
            r->Done_0 is Ok ==> {
                &&& r->Done_0->Ok_0.version == parsed->Ok_0.version
                &&& r->Done_0->Ok_0.payer.bytes@ == crate::keys::pubkey_of_text(
                    parsed->Ok_0.payer@,
                )->Ok_0
                &&& r->Done_0->Ok_0.client_ip == parsed->Ok_0.client_ip
                &&& r->Done_0->Ok_0.epoch == parsed->Ok_0.epoch
                &&& r->Done_0->Ok_0.user_type == parsed->Ok_0.user_type
                &&& r->Done_0->Ok_0.signature@ == crate::keys::signature_of_text(
                    parsed->Ok_0.signature@,
                )->Ok_0
            },
    {
        let outcome = read_success(self.body.as_str(), parsed);
        self.attempt.conclude(outcome)
    }
}

impl Pause {
    /// Goes on once the pause is over.
    pub fn resume(self) -> (r: Exchange)
        ensures
            r@ == ExchangeView::Send(self.next@),
            r == Exchange::Send(self.next),
    {
        Exchange::Send(self.next)
    }
}

} // verus!
