//! What a request for a proof sends, and what it comes to, said of what goes in and what comes out.
use vstd::prelude::*;

use crate::address::Ipv4Addr;
use crate::client::{begun, optional_text, proof_url};
use crate::error::{IpProofError, IpProofErrorView};
use crate::exchange::{after_answer, after_attempt, after_build, after_refusal, after_send};
use crate::exchange::{built_view, no_answer, reply_view};
use crate::exchange::{Answer, Attempt, ClientBuild, Exchange, HttpReply, Pause, ProofRequest};
use crate::exchange::{AttemptView, ExchangeView, HttpReplyView, ProofRequestView, Refusal};
use crate::exchange::{CONNECT_TIMEOUT_MS, MAX_ATTEMPTS, REQUEST_TIMEOUT_MS, RETRY_DELAY_MS};
use crate::keys::{pubkey_of_text, signature_of_text};
use crate::laws::{pauses, run, sends, step, World};
use crate::text::trimmed;
use crate::wire::{decline_for, IpOwnershipProof, IpOwnershipProofView};
use crate::wire::{ErrorResponseView, ProofResponseView};

verus! {

/// Where a service is configured, a request begins with what it was given: the payer's text, the
/// user type and the address to bind to are in it unchanged, whatever they are.
pub proof fn law_a_request_begins_with_what_it_was_given(
    base_url: Seq<char>,
    payer: Seq<char>,
    user_type: u8,
    source_addr: Ipv4Addr,
)
    ensures
        ({
            let first = begun(Some(base_url), payer, user_type, source_addr);
            &&& first is BuildClient
            &&& first->request.payer == payer
            &&& first->request.user_type == user_type
            &&& first->local_address == Some(source_addr)
        }),
{
}

/// Requests to one service begin alike only if payer, user type and address are the same.
pub proof fn law_no_two_requests_begin_alike(
    base_url: Seq<char>,
    one_payer: Seq<char>,
    one_type: u8,
    one_addr: Ipv4Addr,
    other_payer: Seq<char>,
    other_type: u8,
    other_addr: Ipv4Addr,
)
    ensures
        begun(Some(base_url), one_payer, one_type, one_addr) == begun(
            Some(base_url),
            other_payer,
            other_type,
            other_addr,
        ) <==> one_payer == other_payer && one_type == other_type && one_addr == other_addr,
{
}

/// What a request carries as its payer reads as whatever the text it was given reads as: where that
/// is a key, as the bytes of that key.
pub proof fn law_the_payer_sent_reads_back(
    base_url: Seq<char>,
    text: Seq<char>,
    payer: Seq<u8>,
    user_type: u8,
    source_addr: Ipv4Addr,
)
    requires
        pubkey_of_text(text) == Ok::<Seq<u8>, Seq<char>>(payer),
    ensures
        pubkey_of_text(begun(Some(base_url), text, user_type, source_addr)->request.payer) is Ok,
        pubkey_of_text(begun(Some(base_url), text, user_type, source_addr)->request.payer)->Ok_0
            == payer,
{
}

/// Where no service is configured, a request is over before it begins, whatever it was given.
pub proof fn law_without_a_service_there_is_no_request(
    payer: Seq<char>,
    user_type: u8,
    source_addr: Ipv4Addr,
)
    ensures
        begun(None, payer, user_type, source_addr) is Done,
        begun(None, payer, user_type, source_addr)->Done_0 is Err,
        begun(None, payer, user_type, source_addr)->Done_0->Err_0 is NotConfigured,
{
}

/// The place that a request goes to is the start of the configured address up to the slashes at its
/// end, followed by `/v1/proof`.
pub proof fn law_where_a_request_goes(base_url: Seq<char>) -> (r: int)
    ensures
        0 <= r <= base_url.len(),
        proof_url(base_url).len() == r + 9,
        forall|i: int| 0 <= i < r ==> #[trigger] proof_url(base_url)[i] == base_url[i],
        forall|i: int| r <= i < base_url.len() ==> #[trigger] base_url[i] == '/',
        r > 0 ==> base_url[r - 1] != '/',
        proof_url(base_url)[r] == '/',
        proof_url(base_url)[r + 1] == 'v',
        proof_url(base_url)[r + 2] == '1',
        proof_url(base_url)[r + 3] == '/',
        proof_url(base_url)[r + 4] == 'p',
        proof_url(base_url)[r + 5] == 'r',
        proof_url(base_url)[r + 6] == 'o',
        proof_url(base_url)[r + 7] == 'o',
        proof_url(base_url)[r + 8] == 'f',
{
    reveal_strlit("/v1/proof");
    crate::text_laws::law_only_trailing_slashes_are_dropped(base_url);
    crate::text::without_trailing_slashes(base_url).len() as int
}

/// A request goes to the service that is configured.
pub proof fn law_a_request_goes_to_its_service(
    base_url: Seq<char>,
    payer: Seq<char>,
    user_type: u8,
    source_addr: Ipv4Addr,
)
    ensures
        begun(Some(base_url), payer, user_type, source_addr)->request.url == proof_url(base_url),
        base_url.len() > 0 && base_url.last() != '/' ==> proof_url(base_url) == base_url
            + "/v1/proof"@,
{
    crate::text_laws::law_only_trailing_slashes_are_dropped(base_url);
    if base_url.len() > 0 && base_url.last() != '/' {
        let stem = crate::text::without_trailing_slashes(base_url);
        assert(stem.len() == base_url.len());
        assert(stem =~= base_url);
    }
}

/// Before a client was built, only one without a bind is built in place of the first one; and once
/// one was built, none is built again.
proof fn lemma_later_clients_are_unbound(exchange: ExchangeView, world: World, n: nat)
    requires
        exchange is BuildClient ==> exchange->local_address is None,
    ensures
        run(exchange, world, n) is BuildClient ==> run(exchange, world, n)->local_address is None,
    decreases n,
{
    if n > 0 {
        lemma_later_clients_are_unbound(step(exchange, world), world, (n - 1) as nat);
    }
}

/// The first client that a request builds is bound to the address it was given, and every later one
/// is bound to none, whatever the world answers.
pub proof fn law_only_the_first_client_is_bound(
    base_url: Seq<char>,
    payer: Seq<char>,
    user_type: u8,
    source_addr: Ipv4Addr,
    world: World,
    n: nat,
)
    ensures
        ({
            let then = run(begun(Some(base_url), payer, user_type, source_addr), world, n);
            &&& n == 0 ==> then is BuildClient && then->local_address == Some(source_addr)
            &&& n > 0 && then is BuildClient ==> then->local_address is None
        }),
{
    if n > 0 {
        let second = step(begun(Some(base_url), payer, user_type, source_addr), world);
        lemma_later_clients_are_unbound(second, world, (n - 1) as nat);
    }
}

/// What is sent, whenever it is, is what the request was given: every attempt carries the payer's
/// text and the user type unchanged, to the configured service; it is the first or the second; and
/// it is bound where the first client could be built.
pub proof fn law_every_attempt_sends_what_was_given(
    base_url: Seq<char>,
    payer: Seq<char>,
    user_type: u8,
    source_addr: Ipv4Addr,
    world: World,
    n: nat,
)
    ensures
        run(begun(Some(base_url), payer, user_type, source_addr), world, n) matches ExchangeView::Send(
            attempt,
        ) ==> {
            &&& attempt.request.payer == payer
            &&& attempt.request.user_type == user_type
            &&& attempt.request.url == proof_url(base_url)
            &&& attempt.number == 1 || attempt.number == 2
            &&& attempt.bound == (world.bound_client is Ok)
        },
{
    let start = begun(Some(base_url), payer, user_type, source_addr);
    crate::laws::law_the_request_never_changes(start, world, n);
    crate::laws::law_attempts_are_bound_where_they_can_be(
        Some(base_url),
        payer,
        user_type,
        source_addr,
        world,
        n,
    );
    lemma_numbered(start, world, n);
}

/// However far an exchange has come, its attempts are the first and the second.
proof fn lemma_numbered(exchange: ExchangeView, world: World, n: nat)
    requires
        crate::laws::numbered(exchange),
    ensures
        crate::laws::numbered(run(exchange, world, n)),
    decreases n,
{
    if n > 0 {
        crate::laws::law_every_step_leads_to_the_end(exchange, world);
        lemma_numbered(step(exchange, world), world, (n - 1) as nat);
    }
}

/// The limits: two attempts of at most two and a half seconds each, with a quarter of a second
/// between them, and one second for a connection.
pub proof fn law_the_limits_are_short()
    ensures
        MAX_ATTEMPTS == 2,
        REQUEST_TIMEOUT_MS == 2500,
        CONNECT_TIMEOUT_MS == 1000,
        RETRY_DELAY_MS == 250,
        MAX_ATTEMPTS * REQUEST_TIMEOUT_MS + (MAX_ATTEMPTS - 1) * RETRY_DELAY_MS == 5250,
{
}

/// A client that was built is used for the first attempt; a bound one that was not gives way to an
/// unbound one; and an unbound one that was not ends the request, with the builder's complaint.
pub proof fn law_building_a_client(
    request: ProofRequestView,
    source_addr: Ipv4Addr,
    detail: Seq<char>,
)
    ensures
        after_build(request, Some(source_addr), Ok(())) == ExchangeView::Send(
            AttemptView { request, bound: true, number: 1 },
        ),
        after_build(request, None, Ok(())) == ExchangeView::Send(
            AttemptView { request, bound: false, number: 1 },
        ),
        after_build(request, Some(source_addr), Err(detail)) == (ExchangeView::BuildClient {
            request,
            local_address: None,
        }),
        after_build(request, None, Err(detail)) == ExchangeView::Done(
            Err(
                IpProofErrorView::Unreachable {
                    url: request.url,
                    detail: "could not build an HTTP client: "@ + detail,
                },
            ),
        ),
{
}

/// A proof ends the request; a failure that could change ends it too, but for the first attempt's,
/// which the second attempt follows, with the same request over the same client; and a failure that
/// could not change ends it at once.
pub proof fn law_concluding_an_attempt(
    request: ProofRequestView,
    bound: bool,
    number: u32,
    proof: IpOwnershipProofView,
    e: IpProofErrorView,
)
    ensures
        after_attempt(AttemptView { request, bound, number }, Ok(proof)) == ExchangeView::Done(
            Ok(proof),
        ),
        after_attempt(AttemptView { request, bound, number }, Err((e, false)))
            == ExchangeView::Done(Err(e)),
        after_attempt(AttemptView { request, bound, number: 1 }, Err((e, true)))
            == (ExchangeView::Pause { cause: e, next: AttemptView { request, bound, number: 2 } }),
        number >= 2 ==> after_attempt(AttemptView { request, bound, number }, Err((e, true)))
            == ExchangeView::Done(Err(e)),
{
}

/// No answer makes the service unreachable at the place that was asked, which another attempt could
/// change; and an answer is read as a proof if its status is from 200 to 299, as a refusal if not.
pub proof fn law_receiving_an_answer(
    attempt: AttemptView,
    status: u16,
    body: Seq<char>,
    detail: Seq<char>,
)
    ensures
        after_send(attempt, Ok(HttpReplyView { status, body })) == if 200 <= status <= 299 {
            ExchangeView::ReadAnswer { attempt, body }
        } else {
            ExchangeView::ReadRefusal { attempt, status, body }
        },
        attempt.number == 1 ==> after_send(attempt, Err(detail)) == (ExchangeView::Pause {
            cause: IpProofErrorView::Unreachable { url: attempt.request.url, detail },
            next: AttemptView { number: 2, ..attempt },
        }),
        attempt.number >= 2 ==> after_send(attempt, Err(detail)) == ExchangeView::Done(
            Err(IpProofErrorView::Unreachable { url: attempt.request.url, detail }),
        ),
        no_answer(attempt.request.url, detail) == Err::<
            IpOwnershipProofView,
            (IpProofErrorView, bool),
        >((IpProofErrorView::Unreachable { url: attempt.request.url, detail }, true)),
{
}

/// The service's words in a refusal end the request, unless it is the first attempt's and its status
/// is from 500 to 599; then the second attempt follows. So do the status and the start of the body,
/// where there are no such words.
pub proof fn law_reading_a_refusal(
    attempt: AttemptView,
    status: u16,
    body: Seq<char>,
    refusal: ErrorResponseView,
)
    requires
        attempt.number >= 1,
    ensures
        ({
            let decline = IpProofErrorView::Declined {
                reason: refusal.error,
                message: refusal.message,
            };
            after_refusal(attempt, status, body, Some(refusal)) == if 500 <= status <= 599
                && attempt.number == 1 {
                ExchangeView::Pause { cause: decline, next: AttemptView { number: 2, ..attempt } }
            } else {
                ExchangeView::Done(Err(decline))
            }
        }),
        500 <= status <= 599 && attempt.number == 1 ==> {
            &&& after_refusal(attempt, status, body, None) is Pause
            &&& after_refusal(attempt, status, body, None)->cause is Declined
            &&& after_refusal(attempt, status, body, None)->cause == decline_for(status, body, None)
            &&& after_refusal(attempt, status, body, None)->next == (AttemptView {
                number: 2,
                ..attempt
            })
        },
        !(500 <= status <= 599 && attempt.number == 1) ==> {
            &&& after_refusal(attempt, status, body, None) is Done
            &&& after_refusal(attempt, status, body, None)->Done_0 is Err
            &&& after_refusal(attempt, status, body, None)->Done_0->Err_0 is Declined
            &&& after_refusal(attempt, status, body, None)->Done_0->Err_0 == decline_for(
                status,
                body,
                None,
            )
        },
{
}

/// Reading a success answer ends the request, whatever attempt it is of: with the proof in it where
/// payer and signature can be read, and as malformed where anything in it cannot.
pub proof fn law_reading_an_answer(
    attempt: AttemptView,
    body: Seq<char>,
    response: ProofResponseView,
    detail: Seq<char>,
)
    ensures
        ({
            let end = after_answer(attempt, body, Ok(response));
            let readable = pubkey_of_text(response.payer) is Ok && signature_of_text(
                response.signature,
            ) is Ok;
            &&& end is Done
            &&& readable ==> end->Done_0 == Ok::<IpOwnershipProofView, IpProofErrorView>(
                IpOwnershipProofView {
                    version: response.version,
                    payer: pubkey_of_text(response.payer)->Ok_0,
                    client_ip: response.client_ip,
                    epoch: response.epoch,
                    user_type: response.user_type,
                    signature: signature_of_text(response.signature)->Ok_0,
                },
            )
            &&& !readable ==> end->Done_0 is Err && end->Done_0->Err_0 is Malformed
            &&& pubkey_of_text(response.payer) matches Err(why) ==> end->Done_0->Err_0
                == IpProofErrorView::Malformed(
                "payer"@ + " '"@ + response.payer + "': "@ + why,
            )
            &&& pubkey_of_text(response.payer) is Ok ==> (signature_of_text(
                response.signature,
            ) matches Err(why) ==> end->Done_0->Err_0 == IpProofErrorView::Malformed(
                "signature"@ + " '"@ + response.signature + "': "@ + why,
            ))
        }),
        after_answer(attempt, body, Err(detail)) is Done,
        after_answer(attempt, body, Err(detail))->Done_0 is Err,
        after_answer(attempt, body, Err(detail))->Done_0->Err_0 == IpProofErrorView::Malformed(
            detail + " (body: "@ + trimmed(body) + ")"@,
        ),
{
}

/// A request whose first answer is a success with a payer and a signature that can be read ends with
/// the proof in it: with exactly the bytes that these read as and the version, the address, the
/// epoch and the user type of the answer, after one request.
pub proof fn law_a_readable_first_answer_ends_in_its_proof(
    base_url: Seq<char>,
    payer: Seq<char>,
    user_type: u8,
    source_addr: Ipv4Addr,
    world: World,
    status: u16,
    body: Seq<char>,
    response: ProofResponseView,
    key: Seq<u8>,
    signature: Seq<u8>,
    n: nat,
)
    requires
        n >= 7,
        world.bound_client is Ok || world.unbound_client is Ok,
        (world.reply)(1) == Ok::<HttpReplyView, Seq<char>>(HttpReplyView { status, body }),
        200 <= status <= 299,
        (world.proof)(body) == Ok::<ProofResponseView, Seq<char>>(response),
        pubkey_of_text(response.payer) == Ok::<Seq<u8>, Seq<char>>(key),
        signature_of_text(response.signature) == Ok::<Seq<u8>, Seq<char>>(signature),
    ensures
        run(begun(Some(base_url), payer, user_type, source_addr), world, n) == ExchangeView::Done(
            Ok(
                IpOwnershipProofView {
                    version: response.version,
                    payer: key,
                    client_ip: response.client_ip,
                    epoch: response.epoch,
                    user_type: response.user_type,
                    signature,
                },
            ),
        ),
        sends(begun(Some(base_url), payer, user_type, source_addr), world, n) == 1,
        pauses(begun(Some(base_url), payer, user_type, source_addr), world, n) == 0,
{
    crate::laws::law_a_request_comes_to_its_outcome(
        Some(base_url),
        payer,
        user_type,
        source_addr,
        world,
        n,
    );
}

/// A request whose first attempt got no answer, or one with a status from 500 to 599, and whose
/// second answer is a success that can be read, ends with the proof in that one, after two requests
/// and one pause.
pub proof fn law_a_readable_second_answer_ends_in_its_proof(
    base_url: Seq<char>,
    payer: Seq<char>,
    user_type: u8,
    source_addr: Ipv4Addr,
    world: World,
    status: u16,
    body: Seq<char>,
    response: ProofResponseView,
    key: Seq<u8>,
    signature: Seq<u8>,
    n: nat,
)
    requires
        n >= 7,
        world.bound_client is Ok || world.unbound_client is Ok,
        (world.reply)(1) is Err || 500 <= (world.reply)(1)->Ok_0.status <= 599,
        (world.reply)(2) == Ok::<HttpReplyView, Seq<char>>(HttpReplyView { status, body }),
        200 <= status <= 299,
        (world.proof)(body) == Ok::<ProofResponseView, Seq<char>>(response),
        pubkey_of_text(response.payer) == Ok::<Seq<u8>, Seq<char>>(key),
        signature_of_text(response.signature) == Ok::<Seq<u8>, Seq<char>>(signature),
    ensures
        run(begun(Some(base_url), payer, user_type, source_addr), world, n) == ExchangeView::Done(
            Ok(
                IpOwnershipProofView {
                    version: response.version,
                    payer: key,
                    client_ip: response.client_ip,
                    epoch: response.epoch,
                    user_type: response.user_type,
                    signature,
                },
            ),
        ),
        sends(begun(Some(base_url), payer, user_type, source_addr), world, n) == 2,
        pauses(begun(Some(base_url), payer, user_type, source_addr), world, n) == 1,
{
    crate::laws::law_a_request_comes_to_its_outcome(
        Some(base_url),
        payer,
        user_type,
        source_addr,
        world,
        n,
    );
}

/// A request whose first answer is the service's refusal, with a status that is neither a success
/// nor a server error, ends in a decline with the refusal's own error and message, after one
/// request.
pub proof fn law_a_refused_request_ends_in_the_services_words(
    base_url: Seq<char>,
    payer: Seq<char>,
    user_type: u8,
    source_addr: Ipv4Addr,
    world: World,
    status: u16,
    body: Seq<char>,
    refusal: ErrorResponseView,
    n: nat,
)
    requires
        n >= 7,
        world.bound_client is Ok || world.unbound_client is Ok,
        (world.reply)(1) == Ok::<HttpReplyView, Seq<char>>(HttpReplyView { status, body }),
        !(200 <= status <= 299),
        !(500 <= status <= 599),
        (world.refusal)(body) == Some(refusal),
    ensures
        run(begun(Some(base_url), payer, user_type, source_addr), world, n) == ExchangeView::Done(
            Err(IpProofErrorView::Declined { reason: refusal.error, message: refusal.message }),
        ),
        sends(begun(Some(base_url), payer, user_type, source_addr), world, n) == 1,
{
    crate::laws::law_a_request_comes_to_its_outcome(
        Some(base_url),
        payer,
        user_type,
        source_addr,
        world,
        n,
    );
}

/// A request that is refused with a server error twice ends in a decline with the words of the
/// second refusal.
pub proof fn law_a_second_server_error_is_reported(
    base_url: Seq<char>,
    payer: Seq<char>,
    user_type: u8,
    source_addr: Ipv4Addr,
    world: World,
    status: u16,
    body: Seq<char>,
    refusal: ErrorResponseView,
    n: nat,
)
    requires
        n >= 7,
        world.bound_client is Ok || world.unbound_client is Ok,
        (world.reply)(1) is Err || 500 <= (world.reply)(1)->Ok_0.status <= 599,
        (world.reply)(2) == Ok::<HttpReplyView, Seq<char>>(HttpReplyView { status, body }),
        !(200 <= status <= 299),
        (world.refusal)(body) == Some(refusal),
    ensures
        run(begun(Some(base_url), payer, user_type, source_addr), world, n) == ExchangeView::Done(
            Err(IpProofErrorView::Declined { reason: refusal.error, message: refusal.message }),
        ),
        sends(begun(Some(base_url), payer, user_type, source_addr), world, n) == 2,
{
    crate::laws::law_a_request_comes_to_its_outcome(
        Some(base_url),
        payer,
        user_type,
        source_addr,
        world,
        n,
    );
}

/// A request that gets no answer twice ends with the service unreachable at the place that was asked,
/// for the reason that the second attempt got none; and one for which no client can be built ends
/// likewise, for the reason that the unbound one could not be, without sending anything.
pub proof fn law_a_service_that_does_not_answer_is_unreachable(
    base_url: Seq<char>,
    payer: Seq<char>,
    user_type: u8,
    source_addr: Ipv4Addr,
    world: World,
    detail: Seq<char>,
    n: nat,
)
    requires
        n >= 7,
    ensures
        ({
            let start = begun(Some(base_url), payer, user_type, source_addr);
            &&& (world.bound_client is Ok || world.unbound_client is Ok) && (world.reply)(1) is Err
                && (world.reply)(2) == Err::<HttpReplyView, Seq<char>>(detail) ==> {
                &&& run(start, world, n) == ExchangeView::Done(
                    Err(IpProofErrorView::Unreachable { url: proof_url(base_url), detail }),
                )
                &&& sends(start, world, n) == 2
            }
            &&& world.bound_client is Err && world.unbound_client == Err::<(), Seq<char>>(detail)
                ==> {
                &&& run(start, world, n) == ExchangeView::Done(
                    Err(
                        IpProofErrorView::Unreachable {
                            url: proof_url(base_url),
                            detail: "could not build an HTTP client: "@ + detail,
                        },
                    ),
                )
                &&& sends(start, world, n) == 0
            }
        }),
{
    crate::laws::law_a_request_comes_to_its_outcome(
        Some(base_url),
        payer,
        user_type,
        source_addr,
        world,
        n,
    );
}

/// Neither the payer nor the user type nor the address makes a difference to what the world's
/// answers come to.
pub proof fn law_the_answers_decide(
    base_url: Seq<char>,
    one_payer: Seq<char>,
    one_type: u8,
    one_addr: Ipv4Addr,
    other_payer: Seq<char>,
    other_type: u8,
    other_addr: Ipv4Addr,
    world: World,
    n: nat,
)
    requires
        n >= 7,
    ensures
        run(begun(Some(base_url), one_payer, one_type, one_addr), world, n) == run(
            begun(Some(base_url), other_payer, other_type, other_addr),
            world,
            n,
        ),
{
    crate::laws::law_a_request_comes_to_its_outcome(
        Some(base_url),
        one_payer,
        one_type,
        one_addr,
        world,
        n,
    );
    crate::laws::law_a_request_comes_to_its_outcome(
        Some(base_url),
        other_payer,
        other_type,
        other_addr,
        world,
        n,
    );
}

/// What contracts say of the work that is due is what is in it.
pub proof fn law_an_exchange_is_what_it_holds(
    build: ClientBuild,
    attempt: Attempt,
    refusal: Refusal,
    answer: Answer,
    pause: Pause,
    proof: IpOwnershipProof,
    e: IpProofError,
)
    ensures
        Exchange::BuildClient(build)@ == (ExchangeView::BuildClient {
            request: build.request@,
            local_address: build.local_address,
        }),
        Exchange::Send(attempt)@ == ExchangeView::Send(attempt@),
        Exchange::ReadRefusal(refusal)@ == (ExchangeView::ReadRefusal {
            attempt: refusal.attempt@,
            status: refusal.status,
            body: refusal.body@,
        }),
        Exchange::ReadAnswer(answer)@ == (ExchangeView::ReadAnswer {
            attempt: answer.attempt@,
            body: answer.body@,
        }),
        Exchange::Pause(pause)@ == (ExchangeView::Pause { cause: pause.cause@, next: pause.next@ }),
        Exchange::Done(Ok(proof))@ == ExchangeView::Done(Ok(proof@)),
        Exchange::Done(Err(e))@ == ExchangeView::Done(Err(e@)),
{
}

/// What contracts say of a request, of an attempt and of what comes back is what is in them.
pub proof fn law_an_attempt_is_what_it_holds(
    request: ProofRequest,
    attempt: Attempt,
    reply: HttpReply,
    text: String,
)
    ensures
        request@.url == request.url@,
        request@.payer == request.body.payer@,
        request@.user_type == request.body.user_type,
        attempt@.request == attempt.request@,
        attempt@.bound == attempt.bound,
        attempt@.number == attempt.number,
        reply@.status == reply.status,
        reply@.body == reply.body@,
        reply_view(Ok(reply)) == Ok::<HttpReplyView, Seq<char>>(reply@),
        reply_view(Err(text)) == Err::<HttpReplyView, Seq<char>>(text@),
        built_view(Ok(())) == Ok::<(), Seq<char>>(()),
        built_view(Err(text)) == Err::<(), Seq<char>>(text@),
        optional_text(Some(text)) == Some(text@),
        optional_text(None) == None::<Seq<char>>,
{
}

} // verus!
