//! What holds of the whole: of every exchange, whatever the world answers, and of every access-pass
//! check.
use vstd::prelude::*;

use crate::access_pass::{any_is_due, epoch_is_due, next_of, nothing_read, usable, verdict};
use crate::access_pass::{AccessPass, LedgerAnswers, LookupAnswer, NextRead};
use crate::address::{unspecified_addr, Ipv4Addr};
use crate::client::{begun, proof_url};
use crate::error::IpProofErrorView;
use crate::exchange::{after_answer, after_build, after_refusal, after_send, no_answer};
use crate::exchange::{AttemptView, ExchangeView, HttpReplyView, ProofRequestView};
use crate::exchange::{MAX_ATTEMPTS, REQUEST_TIMEOUT_MS, RETRY_DELAY_MS};
use crate::keys::{pubkey_of_text, signature_of_text};
use crate::text::trimmed;
use crate::wire::{decline_for, proof_from, server_error_status, success_for, success_status};
use crate::wire::wire_form_of;
use crate::wire::{ErrorResponseView, IpOwnershipProofView, ProofResponseView, MESSAGE_CHARS};

verus! {

/// Everything that the outside answers in the course of an exchange.
pub struct World {
    /// The result of building a client bound to an address.
    pub bound_client: Result<(), Seq<char>>,
    /// The result of building an unbound client.
    pub unbound_client: Result<(), Seq<char>>,
    /// The answer to each attempt, by its number.
    pub reply: spec_fn(u32) -> Result<HttpReplyView, Seq<char>>,
    /// What a body reads as where a refusal is expected.
    pub refusal: spec_fn(Seq<char>) -> Option<ErrorResponseView>,
    /// What a body reads as where a proof is expected.
    pub proof: spec_fn(Seq<char>) -> Result<ProofResponseView, Seq<char>>,
}

/// One step of an exchange in this world.
pub open spec fn step(exchange: ExchangeView, world: World) -> ExchangeView {
    match exchange {
        ExchangeView::BuildClient { request, local_address } => after_build(
            request,
            local_address,
            if local_address is Some {
                world.bound_client
            } else {
                world.unbound_client
            },
        ),
        ExchangeView::Send(attempt) => after_send(attempt, (world.reply)(attempt.number)),
        ExchangeView::ReadRefusal { attempt, status, body } => after_refusal(
            attempt,
            status,
            body,
            (world.refusal)(body),
        ),
        ExchangeView::ReadAnswer { attempt, body } => after_answer(
            attempt,
            body,
            (world.proof)(body),
        ),
        ExchangeView::Pause { next, .. } => ExchangeView::Send(next),
        ExchangeView::Done(_) => exchange,
    }
}

/// Where an exchange stands after `n` steps in this world.
pub open spec fn run(exchange: ExchangeView, world: World, n: nat) -> ExchangeView
    decreases n,
{
    if n == 0 {
        exchange
    } else {
        run(step(exchange, world), world, (n - 1) as nat)
    }
}

/// How many requests are sent in the first `n` steps.
pub open spec fn sends(exchange: ExchangeView, world: World, n: nat) -> nat
    decreases n,
{
    if n == 0 {
        0
    } else {
        (if exchange is Send {
            1nat
        } else {
            0nat
        }) + sends(step(exchange, world), world, (n - 1) as nat)
    }
}

/// How many pauses are made in the first `n` steps.
pub open spec fn pauses(exchange: ExchangeView, world: World, n: nat) -> nat
    decreases n,
{
    if n == 0 {
        0
    } else {
        (if exchange is Pause {
            1nat
        } else {
            0nat
        }) + pauses(step(exchange, world), world, (n - 1) as nat)
    }
}

/// How long the first `n` steps may take, in milliseconds: every request up to its timeout, every
/// pause its length.
pub open spec fn time_allowed(exchange: ExchangeView, world: World, n: nat) -> nat
    decreases n,
{
    if n == 0 {
        0
    } else {
        (if exchange is Send {
            REQUEST_TIMEOUT_MS as nat
        } else if exchange is Pause {
            RETRY_DELAY_MS as nat
        } else {
            0nat
        }) + time_allowed(step(exchange, world), world, (n - 1) as nat)
    }
}

/// How many steps an exchange still takes at most.
pub open spec fn steps_left(exchange: ExchangeView) -> nat {
    match exchange {
        ExchangeView::BuildClient { local_address, .. } => (3 * MAX_ATTEMPTS + if local_address is Some {
            1int
        } else {
            0int
        }) as nat,
        ExchangeView::Send(attempt) => (3 * (MAX_ATTEMPTS - attempt.number) + 2) as nat,
        ExchangeView::ReadRefusal { attempt, .. } => (3 * (MAX_ATTEMPTS - attempt.number) + 1) as nat,
        ExchangeView::ReadAnswer { attempt, .. } => (3 * (MAX_ATTEMPTS - attempt.number) + 1) as nat,
        ExchangeView::Pause { next, .. } => (3 * (MAX_ATTEMPTS - next.number) + 3) as nat,
        ExchangeView::Done(_) => 0,
    }
}

/// The attempts of an exchange are numbered from 1 to [`MAX_ATTEMPTS`], and a pause comes only
/// after the first.
pub open spec fn numbered(exchange: ExchangeView) -> bool {
    match exchange {
        ExchangeView::BuildClient { .. } => true,
        ExchangeView::Send(attempt) => 1 <= attempt.number <= MAX_ATTEMPTS,
        ExchangeView::ReadRefusal { attempt, .. } => 1 <= attempt.number <= MAX_ATTEMPTS,
        ExchangeView::ReadAnswer { attempt, .. } => 1 <= attempt.number <= MAX_ATTEMPTS,
        ExchangeView::Pause { next, .. } => 2 <= next.number <= MAX_ATTEMPTS,
        ExchangeView::Done(_) => true,
    }
}

/// The request that an exchange is about, while it is going on.
pub open spec fn request_of(exchange: ExchangeView) -> Option<ProofRequestView> {
    match exchange {
        ExchangeView::BuildClient { request, .. } => Some(request),
        ExchangeView::Send(attempt) => Some(attempt.request),
        ExchangeView::ReadRefusal { attempt, .. } => Some(attempt.request),
        ExchangeView::ReadAnswer { attempt, .. } => Some(attempt.request),
        ExchangeView::Pause { next, .. } => Some(next.request),
        ExchangeView::Done(_) => None,
    }
}

/// What the attempt with this number comes to in this world.
pub open spec fn attempt_outcome(url: Seq<char>, world: World, number: u32) -> Result<
    IpOwnershipProofView,
    (IpProofErrorView, bool),
> {
    match (world.reply)(number) {
        Err(detail) => no_answer(url, detail),
        Ok(reply) => if success_status(reply.status) {
            success_for(reply.body, (world.proof)(reply.body))
        } else {
            Err(
                (
                    decline_for(reply.status, reply.body, (world.refusal)(reply.body)),
                    server_error_status(reply.status),
                ),
            )
        },
    }
}

/// Whether an attempt failed in a way that another one could change.
pub open spec fn worth_retrying(
    outcome: Result<IpOwnershipProofView, (IpProofErrorView, bool)>,
) -> bool {
    outcome matches Err((_, retryable)) && retryable
}

/// An attempt's outcome without the advice on retrying.
pub open spec fn reported(
    outcome: Result<IpOwnershipProofView, (IpProofErrorView, bool)>,
) -> Result<IpOwnershipProofView, IpProofErrorView> {
    match outcome {
        Ok(proof) => Ok(proof),
        Err((e, _)) => Err(e),
    }
}

/// A step of a numbered exchange leaves it numbered and brings it closer to its end, so every
/// exchange ends; and once a request was sent, no client is built again.
pub proof fn law_every_step_leads_to_the_end(exchange: ExchangeView, world: World)
    requires
        numbered(exchange),
    ensures
        numbered(step(exchange, world)),
        exchange is Done || steps_left(step(exchange, world)) < steps_left(exchange),
        exchange !is BuildClient ==> step(exchange, world) !is BuildClient,
{
}

/// Every exchange ends within the steps that [`steps_left`] names.
pub proof fn law_every_exchange_ends(exchange: ExchangeView, world: World, n: nat)
    requires
        numbered(exchange),
        steps_left(exchange) <= n,
    ensures
        run(exchange, world, n) is Done,
    decreases n,
{
    law_every_step_leads_to_the_end(exchange, world);
    if n > 0 {
        law_every_exchange_ends(step(exchange, world), world, (n - 1) as nat);
    }
}

/// Every attempt sends the same body to the same place: the request never changes.
pub proof fn law_the_request_never_changes(exchange: ExchangeView, world: World, n: nat)
    ensures
        run(exchange, world, n) is Done || request_of(run(exchange, world, n)) == request_of(
            exchange,
        ),
    decreases n,
{
    if n > 0 {
        law_the_request_never_changes(step(exchange, world), world, (n - 1) as nat);
        law_done_stays_done(step(exchange, world), world, (n - 1) as nat);
    }
}

/// Whether the client is bound to the tunnel's address, once there is one and until the end.
pub open spec fn bound_of(exchange: ExchangeView) -> Option<bool> {
    match exchange {
        ExchangeView::BuildClient { .. } => None,
        ExchangeView::Send(attempt) => Some(attempt.bound),
        ExchangeView::ReadRefusal { attempt, .. } => Some(attempt.bound),
        ExchangeView::ReadAnswer { attempt, .. } => Some(attempt.bound),
        ExchangeView::Pause { next, .. } => Some(next.bound),
        ExchangeView::Done(_) => None,
    }
}

/// Every attempt is bound alike: once the client is built, whether it is bound never changes.
pub proof fn law_the_binding_never_changes(exchange: ExchangeView, world: World, n: nat)
    requires
        exchange !is BuildClient,
    ensures
        run(exchange, world, n) is Done || bound_of(run(exchange, world, n)) == bound_of(exchange),
    decreases n,
{
    if n > 0 {
        law_the_binding_never_changes(step(exchange, world), world, (n - 1) as nat);
        law_done_stays_done(step(exchange, world), world, (n - 1) as nat);
    }
}

/// The attempts of a request are bound to the tunnel's address if and only if a client bound to it
/// could be built.
pub proof fn law_attempts_are_bound_where_they_can_be(
    base_url: Option<Seq<char>>,
    payer: Seq<char>,
    user_type: u8,
    source_addr: Ipv4Addr,
    world: World,
    n: nat,
)
    ensures
        bound_of(run(begun(base_url, payer, user_type, source_addr), world, n)) matches Some(
            bound,
        ) ==> bound == (world.bound_client is Ok),
{
    let start = begun(base_url, payer, user_type, source_addr);
    if base_url is None {
        law_done_stays_done(start, world, n);
    } else if n > 0 {
        let second = step(start, world);
        if world.bound_client is Ok {
            law_the_binding_never_changes(second, world, (n - 1) as nat);
        } else if n > 1 {
            let third = step(second, world);
            reveal_with_fuel(run, 3);
            assert(run(start, world, n) == run(third, world, (n - 2) as nat));
            law_the_binding_never_changes(third, world, (n - 2) as nat);
            law_done_stays_done(third, world, (n - 2) as nat);
        } else {
            reveal_with_fuel(run, 3);
        }
    }
}

/// What is done stays as it is.
pub proof fn law_done_stays_done(exchange: ExchangeView, world: World, n: nat)
    ensures
        exchange is Done ==> run(exchange, world, n) == exchange,
    decreases n,
{
    if n > 0 && exchange is Done {
        law_done_stays_done(exchange, world, (n - 1) as nat);
    }
}

/// How many requests an exchange may still send.
pub open spec fn sends_left(exchange: ExchangeView) -> nat {
    match exchange {
        ExchangeView::BuildClient { .. } => MAX_ATTEMPTS as nat,
        ExchangeView::Send(attempt) => (MAX_ATTEMPTS - attempt.number + 1) as nat,
        ExchangeView::ReadRefusal { attempt, .. } => (MAX_ATTEMPTS - attempt.number) as nat,
        ExchangeView::ReadAnswer { attempt, .. } => (MAX_ATTEMPTS - attempt.number) as nat,
        ExchangeView::Pause { next, .. } => (MAX_ATTEMPTS - next.number + 1) as nat,
        ExchangeView::Done(_) => 0,
    }
}

/// Requests and pauses stay within what is left.
proof fn lemma_sends_and_time(exchange: ExchangeView, world: World, n: nat)
    requires
        numbered(exchange),
    ensures
        sends(exchange, world, n) <= sends_left(exchange),
        time_allowed(exchange, world, n) <= sends_left(exchange) * (REQUEST_TIMEOUT_MS
            + RETRY_DELAY_MS),
        exchange is BuildClient || exchange is Send ==> time_allowed(exchange, world, n)
            <= sends_left(exchange) * (REQUEST_TIMEOUT_MS + RETRY_DELAY_MS) - RETRY_DELAY_MS,
    decreases n,
{
    if n > 0 {
        law_every_step_leads_to_the_end(exchange, world);
        lemma_sends_and_time(step(exchange, world), world, (n - 1) as nat);
    }
}

/// No exchange sends more than [`MAX_ATTEMPTS`] requests, however long it is driven.
pub proof fn law_attempts_are_bounded(exchange: ExchangeView, world: World, n: nat)
    requires
        numbered(exchange),
    ensures
        sends(exchange, world, n) <= MAX_ATTEMPTS,
{
    lemma_sends_and_time(exchange, world, n);
}

/// The whole budget is [`MAX_ATTEMPTS`] request timeouts plus the delays between them.
pub proof fn law_time_is_bounded(
    base_url: Option<Seq<char>>,
    payer: Seq<char>,
    user_type: u8,
    source_addr: Ipv4Addr,
    world: World,
    n: nat,
)
    ensures
        time_allowed(begun(base_url, payer, user_type, source_addr), world, n) <= MAX_ATTEMPTS
            * REQUEST_TIMEOUT_MS + (MAX_ATTEMPTS - 1) * RETRY_DELAY_MS,
{
    lemma_sends_and_time(begun(base_url, payer, user_type, source_addr), world, n);
}

/// What a request for a proof comes to in this world: nothing is sent when no service is configured
/// or no client can be built; the first attempt's outcome is final unless another attempt could
/// change it; and then the second one's is.
pub open spec fn final_outcome(base_url: Option<Seq<char>>, world: World) -> Result<
    IpOwnershipProofView,
    IpProofErrorView,
> {
    match base_url {
        None => Err(IpProofErrorView::NotConfigured),
        Some(base_url) => {
            let url = proof_url(base_url);
            match (world.bound_client, world.unbound_client) {
                (Err(_), Err(detail)) => Err(
                    IpProofErrorView::Unreachable {
                        url,
                        detail: "could not build an HTTP client: "@ + detail,
                    },
                ),
                _ => {
                    let first = attempt_outcome(url, world, 1);
                    if worth_retrying(first) {
                        reported(attempt_outcome(url, world, 2))
                    } else {
                        reported(first)
                    }
                },
            }
        },
    }
}

/// How many requests are sent for a proof in this world.
pub open spec fn total_sends(base_url: Option<Seq<char>>, world: World) -> nat {
    if base_url is None || (world.bound_client is Err && world.unbound_client is Err) {
        0
    } else if worth_retrying(attempt_outcome(proof_url(base_url->0), world, 1)) {
        2
    } else {
        1
    }
}

/// Driven to its end, a request comes to [`final_outcome`], after [`total_sends`] requests: a
/// failure that another attempt could change is retried once, after one pause, and the second
/// attempt's outcome is used; and any other answer is reported from the first attempt, without a
/// pause.
pub proof fn law_a_request_comes_to_its_outcome(
    base_url: Option<Seq<char>>,
    payer: Seq<char>,
    user_type: u8,
    source_addr: Ipv4Addr,
    world: World,
    n: nat,
)
    requires
        n >= steps_left(begun(base_url, payer, user_type, source_addr)),
    ensures
        run(begun(base_url, payer, user_type, source_addr), world, n) == ExchangeView::Done(
            final_outcome(base_url, world),
        ),
        sends(begun(base_url, payer, user_type, source_addr), world, n) == total_sends(
            base_url,
            world,
        ),
        pauses(begun(base_url, payer, user_type, source_addr), world, n) == if total_sends(
            base_url,
            world,
        ) == 2 {
            1nat
        } else {
            0nat
        },
{
    let start = begun(base_url, payer, user_type, source_addr);
    if base_url is None {
        law_done_stays_done(start, world, n);
        lemma_done_sends_nothing(start, world, n);
    } else {
        let second = step(start, world);
        if world.bound_client is Ok {
            lemma_from_the_first_attempt(second->Send_0, world, (n - 1) as nat);
        } else if world.unbound_client is Ok {
            let third = step(second, world);
            lemma_one_step(second, world, (n - 1) as nat);
            lemma_from_the_first_attempt(third->Send_0, world, (n - 2) as nat);
        } else {
            let third = step(second, world);
            lemma_one_step(second, world, (n - 1) as nat);
            law_done_stays_done(third, world, (n - 2) as nat);
            lemma_done_sends_nothing(third, world, (n - 2) as nat);
        }
    }
}

/// Driving an exchange is taking one step and driving what comes of it.
proof fn lemma_one_step(exchange: ExchangeView, world: World, n: nat)
    requires
        n > 0,
    ensures
        run(exchange, world, n) == run(step(exchange, world), world, (n - 1) as nat),
        sends(exchange, world, n) == sends(step(exchange, world), world, (n - 1) as nat) + if exchange
            is Send {
            1nat
        } else {
            0nat
        },
        pauses(exchange, world, n) == pauses(step(exchange, world), world, (n - 1) as nat)
            + if exchange is Pause {
            1nat
        } else {
            0nat
        },
{
}

/// An attempt that is not followed by another ends, after one request, with its outcome; one that is
/// comes, after one request, to the pause before the second attempt.
proof fn lemma_through_an_attempt(attempt: AttemptView, world: World, n: nat) -> (steps: nat)
    requires
        1 <= attempt.number <= MAX_ATTEMPTS,
        n >= 2,
    ensures
        1 <= steps <= 2,
        ({
            let outcome = attempt_outcome(attempt.request.url, world, attempt.number);
            let then = if worth_retrying(outcome) && attempt.number < MAX_ATTEMPTS {
                ExchangeView::Pause {
                    cause: reported(outcome)->Err_0,
                    next: AttemptView { number: (attempt.number + 1) as u32, ..attempt },
                }
            } else {
                ExchangeView::Done(reported(outcome))
            };
            let start = ExchangeView::Send(attempt);
            &&& run(start, world, n) == run(then, world, (n - steps) as nat)
            &&& sends(start, world, n) == sends(then, world, (n - steps) as nat) + 1
            &&& pauses(start, world, n) == pauses(then, world, (n - steps) as nat)
        }),
{
    let start = ExchangeView::Send(attempt);
    let second = step(start, world);
    lemma_one_step(start, world, n);
    if (world.reply)(attempt.number) is Ok {
        lemma_one_step(second, world, (n - 1) as nat);
        2
    } else {
        1
    }
}

/// From the first attempt on, a request comes to the first attempt's outcome, or to the second's
/// where the first is worth retrying.
proof fn lemma_from_the_first_attempt(attempt: AttemptView, world: World, n: nat)
    requires
        attempt.number == 1,
        n >= 5,
    ensures
        ({
            let url = attempt.request.url;
            let start = ExchangeView::Send(attempt);
            let retried = worth_retrying(attempt_outcome(url, world, 1));
            &&& run(start, world, n) == ExchangeView::Done(
                reported(attempt_outcome(url, world, if retried { 2 } else { 1 })),
            )
            &&& sends(start, world, n) == if retried { 2nat } else { 1nat }
            &&& pauses(start, world, n) == if retried { 1nat } else { 0nat }
        }),
{
    let outcome = attempt_outcome(attempt.request.url, world, 1);
    let steps: nat = lemma_through_an_attempt(attempt, world, n);
    let left = (n - steps) as nat;
    if worth_retrying(outcome) {
        let next = AttemptView { number: 2, ..attempt };
        let pause = ExchangeView::Pause { cause: reported(outcome)->Err_0, next };
        lemma_one_step(pause, world, left);
        let more: nat = lemma_through_an_attempt(next, world, (left - 1) as nat);
        let end = ExchangeView::Done(reported(attempt_outcome(attempt.request.url, world, 2)));
        law_done_stays_done(end, world, (left - 1 - more) as nat);
        lemma_done_sends_nothing(end, world, (left - 1 - more) as nat);
    } else {
        law_done_stays_done(ExchangeView::Done(reported(outcome)), world, left);
        lemma_done_sends_nothing(ExchangeView::Done(reported(outcome)), world, left);
    }
}

/// An exchange that is done sends nothing more and pauses no more.
proof fn lemma_done_sends_nothing(exchange: ExchangeView, world: World, n: nat)
    requires
        exchange is Done,
    ensures
        sends(exchange, world, n) == 0,
        pauses(exchange, world, n) == 0,
    decreases n,
{
    if n > 0 {
        lemma_done_sends_nothing(exchange, world, (n - 1) as nat);
    }
}

/// An environment with no verifier is told apart from one whose verifier is down: the outcome is
/// that no service is configured if and only if none is.
pub proof fn law_not_configured_means_no_base_url(base_url: Option<Seq<char>>, world: World)
    ensures
        final_outcome(base_url, world) == Err::<IpOwnershipProofView, IpProofErrorView>(
            IpProofErrorView::NotConfigured,
        ) <==> base_url is None,
{
}

/// A decline is reported from the first attempt: a non-success answer that is no server error ends
/// the exchange with that answer's decline, after one request.
pub proof fn law_a_decline_is_not_retried(
    base_url: Seq<char>,
    world: World,
    reply: HttpReplyView,
)
    requires
        world.bound_client is Ok || world.unbound_client is Ok,
        (world.reply)(1) == Ok::<HttpReplyView, Seq<char>>(reply),
        !success_status(reply.status),
        !server_error_status(reply.status),
    ensures
        total_sends(Some(base_url), world) == 1,
        final_outcome(Some(base_url), world) == Err::<IpOwnershipProofView, IpProofErrorView>(
            decline_for(reply.status, reply.body, (world.refusal)(reply.body)),
        ),
{
}

/// A success answer is final, whether or not a proof can be read from it.
pub proof fn law_a_success_answer_is_not_retried(
    base_url: Seq<char>,
    world: World,
    reply: HttpReplyView,
)
    requires
        world.bound_client is Ok || world.unbound_client is Ok,
        (world.reply)(1) == Ok::<HttpReplyView, Seq<char>>(reply),
        success_status(reply.status),
    ensures
        total_sends(Some(base_url), world) == 1,
        final_outcome(Some(base_url), world) == reported(
            success_for(reply.body, (world.proof)(reply.body)),
        ),
{
}

/// A server error or a missing answer is followed by a second attempt, whose outcome is the one
/// that is reported.
pub proof fn law_a_server_error_is_retried_once(base_url: Seq<char>, world: World)
    requires
        world.bound_client is Ok || world.unbound_client is Ok,
        (world.reply)(1) is Err || server_error_status((world.reply)(1)->Ok_0.status),
    ensures
        total_sends(Some(base_url), world) == 2,
        final_outcome(Some(base_url), world) == reported(
            attempt_outcome(proof_url(base_url), world, 2),
        ),
{
}

/// A client that cannot be bound to the tunnel's address changes nothing but the binding: with an
/// unbound client the request comes to the same outcome.
pub proof fn law_an_unbound_client_does_as_well(
    base_url: Option<Seq<char>>,
    bound: World,
    unbound: World,
)
    requires
        bound.bound_client is Ok,
        unbound.bound_client is Err,
        unbound.unbound_client is Ok,
        bound.reply == unbound.reply,
        bound.refusal == unbound.refusal,
        bound.proof == unbound.proof,
    ensures
        final_outcome(base_url, bound) == final_outcome(base_url, unbound),
        total_sends(base_url, bound) == total_sends(base_url, unbound),
{
}

/// The service decides the address: a proof carries the version, the address, the epoch and the
/// user type that the service put in the answer to one of the attempts, and the key and the
/// signature that its texts read as.
pub proof fn law_a_proof_is_what_the_service_sent(base_url: Option<Seq<char>>, world: World) -> (r: (
    u32,
    ProofResponseView,
))
    requires
        final_outcome(base_url, world) is Ok,
    ensures
        1 <= r.0 <= MAX_ATTEMPTS,
        (world.reply)(r.0) is Ok,
        success_status((world.reply)(r.0)->Ok_0.status),
        (world.proof)((world.reply)(r.0)->Ok_0.body) == Ok::<ProofResponseView, Seq<char>>(r.1),
        ({
            let proof = final_outcome(base_url, world)->Ok_0;
            &&& proof.client_ip == r.1.client_ip
            &&& proof.version == r.1.version
            &&& proof.epoch == r.1.epoch
            &&& proof.user_type == r.1.user_type
            &&& pubkey_of_text(r.1.payer) == Ok::<Seq<u8>, Seq<char>>(proof.payer)
            &&& signature_of_text(r.1.signature) == Ok::<Seq<u8>, Seq<char>>(proof.signature)
        }),
{
    let number: u32 = if worth_retrying(attempt_outcome(proof_url(base_url->0), world, 1)) {
        2
    } else {
        1
    };
    (number, (world.proof)((world.reply)(number)->Ok_0.body)->Ok_0)
}

/// A response whose payer is the one that was sent yields a proof for that payer, as soon as its
/// signature can be read. That the text sent reads back as the payer is what beginning the request
/// promises.
pub proof fn law_an_echoed_payer_is_the_payer(
    request: ProofRequestView,
    payer: Seq<u8>,
    response: ProofResponseView,
)
    requires
        pubkey_of_text(request.payer) == Ok::<Seq<u8>, Seq<char>>(payer),
        response.payer == request.payer,
        signature_of_text(response.signature) is Ok,
    ensures
        proof_from(response) is Ok,
        proof_from(response)->Ok_0.payer == payer,
{
}

/// Turning a proof into its wire form and back loses nothing. That the two texts read back as the
/// bytes they stand for is what making the wire form promises.
pub proof fn law_the_wire_form_round_trips(proof: IpOwnershipProofView)
    requires
        pubkey_of_text(wire_form_of(proof).payer) == Ok::<Seq<u8>, Seq<char>>(proof.payer),
        signature_of_text(wire_form_of(proof).signature) == Ok::<Seq<u8>, Seq<char>>(
            proof.signature,
        ),
    ensures
        proof_from(wire_form_of(proof)) == Ok::<IpOwnershipProofView, IpProofErrorView>(proof),
{
}

/// Slashes at the end of the configured address make no difference.
pub proof fn law_trailing_slashes_do_not_matter(base_url: Seq<char>)
    ensures
        proof_url(base_url.push('/')) == proof_url(base_url),
{
    assert(base_url.push('/').drop_last() =~= base_url);
}

/// Without words of the service's own, the message is the start of the trimmed body, cut to
/// [`MESSAGE_CHARS`] characters.
pub proof fn law_a_fallback_message_is_a_short_start_of_the_body(status: u16, body: Seq<char>)
    ensures
        decline_for(status, body, None) is Declined,
        decline_for(status, body, None)->message.len() <= MESSAGE_CHARS,
        decline_for(status, body, None)->message.is_prefix_of(trimmed(body)),
        trimmed(body).len() <= MESSAGE_CHARS ==> decline_for(status, body, None)->message
            == trimmed(body),
{
}

/// What the ledger holds while a check is made: the pass stored at each address for the caller's
/// payer, and the epoch.
pub struct Ledger {
    pub pass_at: spec_fn(Ipv4Addr) -> Option<AccessPass>,
    pub now: u64,
}

/// What is known after one more reading of this ledger.
pub open spec fn learned(so_far: LedgerAnswers, read: NextRead, ledger: Ledger) -> LedgerAnswers {
    match read {
        NextRead::Lookup(ip) => so_far.looked_up((ledger.pass_at)(ip)),
        NextRead::Epoch => so_far.at_epoch(ledger.now),
        NextRead::Verdict(_) => so_far,
    }
}

/// What is known after `n` more readings of this ledger.
pub open spec fn known(
    client_ip: Ipv4Addr,
    enforce_epoch: bool,
    so_far: LedgerAnswers,
    ledger: Ledger,
    n: nat,
) -> LedgerAnswers
    decreases n,
{
    if n == 0 {
        so_far
    } else {
        known(
            client_ip,
            enforce_epoch,
            learned(so_far, next_of(client_ip, enforce_epoch, so_far), ledger),
            ledger,
            (n - 1) as nat,
        )
    }
}

/// The first `n` readings that a check makes of this ledger, in order.
pub open spec fn reads(
    client_ip: Ipv4Addr,
    enforce_epoch: bool,
    so_far: LedgerAnswers,
    ledger: Ledger,
    n: nat,
) -> Seq<NextRead>
    decreases n,
{
    let next = next_of(client_ip, enforce_epoch, so_far);
    if n == 0 || next is Verdict {
        seq![]
    } else {
        seq![next] + reads(
            client_ip,
            enforce_epoch,
            learned(so_far, next, ledger),
            ledger,
            (n - 1) as nat,
        )
    }
}

/// Every reading that a check makes of this ledger, in order: the own address first; then, as far
/// as they are needed, the epoch and the pass for any address, the epoch first where there is an
/// own pass for it to be held against.
pub open spec fn all_reads(
    client_ip: Ipv4Addr,
    enforce_epoch: bool,
    ledger: Ledger,
) -> Seq<NextRead> {
    let own = (ledger.pass_at)(client_ip);
    let any = (ledger.pass_at)(unspecified_addr());
    let elsewhere = client_ip != unspecified_addr();
    if own is Some {
        if !enforce_epoch {
            seq![NextRead::Lookup(client_ip)]
        } else if elsewhere && own->0.last_access_epoch < ledger.now {
            seq![
                NextRead::Lookup(client_ip),
                NextRead::Epoch,
                NextRead::Lookup(unspecified_addr()),
            ]
        } else {
            seq![NextRead::Lookup(client_ip), NextRead::Epoch]
        }
    } else if !elsewhere {
        seq![NextRead::Lookup(client_ip)]
    } else if enforce_epoch && any is Some {
        seq![NextRead::Lookup(client_ip), NextRead::Lookup(unspecified_addr()), NextRead::Epoch]
    } else {
        seq![NextRead::Lookup(client_ip), NextRead::Lookup(unspecified_addr())]
    }
}

/// A check makes the readings of [`all_reads`] and no others, and then tells whether the pass at the
/// own address or the pass for any address is usable.
pub proof fn law_a_check_reads_what_it_needs(
    client_ip: Ipv4Addr,
    enforce_epoch: bool,
    ledger: Ledger,
    n: nat,
)
    requires
        n >= 3,
    ensures
        reads(client_ip, enforce_epoch, nothing_read(), ledger, n) == all_reads(
            client_ip,
            enforce_epoch,
            ledger,
        ),
        next_of(
            client_ip,
            enforce_epoch,
            known(client_ip, enforce_epoch, nothing_read(), ledger, n),
        ) == NextRead::Verdict(
            usable::<()>(enforce_epoch, (ledger.pass_at)(client_ip), Ok(ledger.now)) || usable::<()>(
                enforce_epoch,
                (ledger.pass_at)(unspecified_addr()),
                Ok(ledger.now),
            ),
        ),
{
    let k0 = nothing_read();
    let k1 = learned(k0, next_of(client_ip, enforce_epoch, k0), ledger);
    let k2 = learned(k1, next_of(client_ip, enforce_epoch, k1), ledger);
    let k3 = learned(k2, next_of(client_ip, enforce_epoch, k2), ledger);
    reveal_with_fuel(reads, 4);
    reveal_with_fuel(known, 4);
    assert(next_of(client_ip, enforce_epoch, k3) is Verdict);
    lemma_known_once_settled(client_ip, enforce_epoch, k3, ledger, (n - 3) as nat);
    assert(reads(client_ip, enforce_epoch, k3, ledger, (n - 3) as nat) =~= seq![]);
    assert(reads(client_ip, enforce_epoch, k0, ledger, n) =~= all_reads(
        client_ip,
        enforce_epoch,
        ledger,
    ));
}

/// Once a check is settled nothing more is learned.
proof fn lemma_known_once_settled(
    client_ip: Ipv4Addr,
    enforce_epoch: bool,
    so_far: LedgerAnswers,
    ledger: Ledger,
    n: nat,
)
    requires
        next_of(client_ip, enforce_epoch, so_far) is Verdict,
    ensures
        known(client_ip, enforce_epoch, so_far, ledger, n) == so_far,
    decreases n,
{
    if n > 0 {
        lemma_known_once_settled(client_ip, enforce_epoch, so_far, ledger, (n - 1) as nat);
    }
}

/// Nothing is asked twice, so a check takes at most three readings; the own address is asked first;
/// and a caller at `0.0.0.0` costs one lookup.
pub proof fn law_nothing_is_asked_twice(client_ip: Ipv4Addr, enforce_epoch: bool, ledger: Ledger, n: nat)
    ensures
        reads(client_ip, enforce_epoch, nothing_read(), ledger, n).no_duplicates(),
        reads(client_ip, enforce_epoch, nothing_read(), ledger, n).len() <= 3,
        n > 0 ==> reads(client_ip, enforce_epoch, nothing_read(), ledger, n).len() > 0 && reads(
            client_ip,
            enforce_epoch,
            nothing_read(),
            ledger,
            n,
        )[0] == NextRead::Lookup(client_ip),
        client_ip == unspecified_addr() ==> forall|i: int|
            0 < i < reads(client_ip, enforce_epoch, nothing_read(), ledger, n).len()
                ==> #[trigger] reads(client_ip, enforce_epoch, nothing_read(), ledger, n)[i]
                == NextRead::Epoch,
{
    if n >= 3 {
        law_a_check_reads_what_it_needs(client_ip, enforce_epoch, ledger, n);
    } else {
        reveal_with_fuel(reads, 4);
    }
}

/// The first `n` readings that a check makes of this ledger when the readings that `fails` picks out
/// fail: the first that does is the last.
pub open spec fn reads_until_failure(
    client_ip: Ipv4Addr,
    enforce_epoch: bool,
    so_far: LedgerAnswers,
    ledger: Ledger,
    fails: spec_fn(NextRead) -> bool,
    n: nat,
) -> Seq<NextRead>
    decreases n,
{
    let next = next_of(client_ip, enforce_epoch, so_far);
    if n == 0 || next is Verdict {
        seq![]
    } else if fails(next) {
        seq![next]
    } else {
        seq![next] + reads_until_failure(
            client_ip,
            enforce_epoch,
            learned(so_far, next, ledger),
            ledger,
            fails,
            (n - 1) as nat,
        )
    }
}

/// A reading that fails only cuts a check short: the readings up to it are the first ones that the
/// check would have made anyway, so nothing is asked twice then either.
pub proof fn law_a_failed_reading_cuts_the_check_short(
    client_ip: Ipv4Addr,
    enforce_epoch: bool,
    so_far: LedgerAnswers,
    ledger: Ledger,
    fails: spec_fn(NextRead) -> bool,
    n: nat,
)
    ensures
        reads_until_failure(client_ip, enforce_epoch, so_far, ledger, fails, n).is_prefix_of(
            reads(client_ip, enforce_epoch, so_far, ledger, n),
        ),
    decreases n,
{
    let next = next_of(client_ip, enforce_epoch, so_far);
    if n > 0 && next !is Verdict {
        let then = learned(so_far, next, ledger);
        law_a_failed_reading_cuts_the_check_short(
            client_ip,
            enforce_epoch,
            then,
            ledger,
            fails,
            (n - 1) as nat,
        );
        let cut = reads_until_failure(
            client_ip,
            enforce_epoch,
            then,
            ledger,
            fails,
            (n - 1) as nat,
        );
        let rest = reads(client_ip, enforce_epoch, then, ledger, (n - 1) as nat);
        assert(seq![next] =~= (seq![next] + rest).take(1));
        assert(seq![next] + cut =~= (seq![next] + rest).take(1 + cut.len() as int));
    }
}

/// The answers to lookups are taken down in order: the own address before any.
pub open spec fn in_order(so_far: LedgerAnswers) -> bool {
    so_far.any is Some ==> so_far.own is Some
}

/// What is known is not asked again, whatever the answers were and whichever reading failed after
/// them: at most the own address is asked for before its answer is known, the pass for any address
/// after that and before its own answer is known, and the epoch while it is not known. Taking down
/// an answer keeps the answers in order.
pub proof fn law_what_is_known_is_not_asked_again(
    client_ip: Ipv4Addr,
    enforce_epoch: bool,
    so_far: LedgerAnswers,
    found: Option<AccessPass>,
    now: u64,
)
    requires
        in_order(so_far),
    ensures
        so_far.own is None <==> next_of(client_ip, enforce_epoch, so_far) == NextRead::Lookup(
            client_ip,
        ),
        so_far.any is Some ==> next_of(client_ip, enforce_epoch, so_far) !is Lookup,
        so_far.epoch is Some ==> next_of(client_ip, enforce_epoch, so_far) !is Epoch,
        so_far.own is Some && next_of(client_ip, enforce_epoch, so_far) is Lookup ==> next_of(
            client_ip,
            enforce_epoch,
            so_far,
        ) == NextRead::Lookup(unspecified_addr()) && client_ip != unspecified_addr(),
        in_order(nothing_read()),
        in_order(so_far.looked_up(found)),
        in_order(so_far.at_epoch(now)),
{
}

/// The epoch is read only where it is enforced and there is a pass to hold it against.
pub proof fn law_the_epoch_is_read_for_a_pass(
    client_ip: Ipv4Addr,
    enforce_epoch: bool,
    ledger: Ledger,
    n: nat,
)
    requires
        reads(client_ip, enforce_epoch, nothing_read(), ledger, n).contains(NextRead::Epoch),
    ensures
        enforce_epoch,
        (ledger.pass_at)(client_ip) is Some || (ledger.pass_at)(unspecified_addr()) is Some,
{
    reveal_with_fuel(reads, 4);
    if n >= 3 {
        law_a_check_reads_what_it_needs(client_ip, enforce_epoch, ledger, n);
    }
}

/// The program accepts either pass: where the ledger can be read, a caller holds a usable pass if
/// and only if the one for their own address or the one for any address is usable.
pub proof fn law_either_pass_counts<X>(
    client_ip: Ipv4Addr,
    enforce_epoch: bool,
    own: Option<AccessPass>,
    any: Option<AccessPass>,
    now: u64,
)
    requires
        client_ip != unspecified_addr(),
    ensures
        verdict::<X>(client_ip, enforce_epoch, Ok(own), Ok(any), Ok(now)) == Ok::<bool, X>(
            usable::<X>(enforce_epoch, own, Ok(now)) || usable::<X>(enforce_epoch, any, Ok(now)),
        ),
{
}

/// A caller at `0.0.0.0` is answered by the one lookup there.
pub proof fn law_an_unspecified_address_needs_one_lookup<X>(
    enforce_epoch: bool,
    only: LookupAnswer<X>,
    unasked: LookupAnswer<X>,
    now: Result<u64, X>,
)
    ensures
        !any_is_due(unspecified_addr(), enforce_epoch, only, now),
        verdict(unspecified_addr(), enforce_epoch, only, unasked, now) == verdict(
            unspecified_addr(),
            enforce_epoch,
            only,
            Ok(None),
            now,
        ),
{
}

/// No pass under either address is not an error, and takes no reading of the epoch.
pub proof fn law_no_pass_is_not_an_error<X>(
    client_ip: Ipv4Addr,
    enforce_epoch: bool,
    now: Result<u64, X>,
)
    ensures
        verdict::<X>(client_ip, enforce_epoch, Ok(None), Ok(None), now) == Ok::<bool, X>(false),
        !epoch_is_due::<X>(client_ip, enforce_epoch, Ok(None), Ok(None)),
{
}

/// A usable pass for the own address settles the check: the pass for any address is not looked up.
pub proof fn law_a_usable_own_pass_is_enough<X>(
    client_ip: Ipv4Addr,
    enforce_epoch: bool,
    own: AccessPass,
    unasked: LookupAnswer<X>,
    now: Result<u64, X>,
)
    requires
        usable(enforce_epoch, Some(own), now),
    ensures
        !any_is_due::<X>(client_ip, enforce_epoch, Ok(Some(own)), now),
        verdict(client_ip, enforce_epoch, Ok(Some(own)), unasked, now) == Ok::<bool, X>(true),
{
}

/// A ledger that cannot be read where it has to be is an error, and that error.
pub proof fn law_a_failed_reading_is_reported<X>(
    client_ip: Ipv4Addr,
    enforce_epoch: bool,
    own: LookupAnswer<X>,
    any: LookupAnswer<X>,
    now: Result<u64, X>,
)
    ensures
        own matches Err(e) ==> verdict(client_ip, enforce_epoch, own, any, now) == Err::<bool, X>(
            e,
        ),
        any matches Err(e) ==> any_is_due(client_ip, enforce_epoch, own, now) ==> verdict(
            client_ip,
            enforce_epoch,
            own,
            any,
            now,
        ) == Err::<bool, X>(e),
        now matches Err(e) ==> epoch_is_due(client_ip, enforce_epoch, own, any) ==> verdict(
            client_ip,
            enforce_epoch,
            own,
            any,
            now,
        ) == Err::<bool, X>(e),
        verdict(client_ip, enforce_epoch, own, any, now) is Err ==> {
            ||| own is Err
            ||| any is Err && any_is_due(client_ip, enforce_epoch, own, now)
            ||| now is Err && epoch_is_due(client_ip, enforce_epoch, own, any)
        },
{
}

/// Where the epoch is not enforced it is not read, and a pass counts however old it is.
pub proof fn law_an_unenforced_epoch_is_not_read<X>(
    client_ip: Ipv4Addr,
    own: AccessPass,
    any: LookupAnswer<X>,
    now: Result<u64, X>,
)
    ensures
        !epoch_is_due::<X>(client_ip, false, Ok(Some(own)), any),
        verdict(client_ip, false, Ok(Some(own)), any, now) == Ok::<bool, X>(true),
        !epoch_is_due::<X>(client_ip, false, Ok(None), any),
        client_ip != unspecified_addr() ==> verdict::<X>(
            client_ip,
            false,
            Ok(None),
            Ok(Some(own)),
            now,
        ) == Ok::<bool, X>(true),
{
}

/// Whether `longer` is a pass that lasts at least as long as `pass`, or there is no `pass`.
pub open spec fn lasts_as_long(longer: Option<AccessPass>, pass: Option<AccessPass>) -> bool {
    pass is Some ==> longer is Some && pass->0.last_access_epoch <= longer->0.last_access_epoch
}

/// Enforcing the epoch never helps, passes that last longer never hurt, and a later epoch never
/// helps; whether the caller holds a pass for their own address, one for any, or both.
pub proof fn law_verdicts_follow_the_epoch<X>(
    client_ip: Ipv4Addr,
    own: Option<AccessPass>,
    any: Option<AccessPass>,
    longer_own: Option<AccessPass>,
    longer_any: Option<AccessPass>,
    now: u64,
    later: u64,
)
    requires
        lasts_as_long(longer_own, own),
        lasts_as_long(longer_any, any),
        now <= later,
        verdict::<X>(client_ip, true, Ok(own), Ok(any), Ok(later)) == Ok::<bool, X>(true),
    ensures
        verdict::<X>(client_ip, false, Ok(own), Ok(any), Ok(later)) == Ok::<bool, X>(true),
        verdict::<X>(client_ip, true, Ok(longer_own), Ok(longer_any), Ok(later)) == Ok::<bool, X>(
            true,
        ),
        verdict::<X>(client_ip, true, Ok(own), Ok(any), Ok(now)) == Ok::<bool, X>(true),
{
}

} // verus!
