//! What the service's answers and the failures mean, said of what is in them.
use vstd::prelude::*;

use crate::error::{IpProofError, IpProofErrorView};
use crate::keys::{base58_char, base58_text, parsed_view, pubkey_of_text, signature_of_text};
use crate::keys::{text_of_pubkey, text_of_signature, Pubkey};
use crate::text::{trimmed, white_space};
use crate::text_laws::number_of;
use crate::wire::{attempt_view, decline_for, outcome_view, parsed_proof_view, proof_for};
use crate::wire::{proof_from, refusal_view, server_error_status, success_for, success_status};
use crate::wire::{wire_form_of, ErrorResponse, ErrorResponseView, IpOwnershipProof};
use crate::wire::{IpOwnershipProofView, ProofResponse, ProofResponseView};

verus! {

/// Every answer without success is a decline, whatever its status, its body and what that reads as;
/// and where the body reads as the service's refusal, the decline carries the refusal's error and
/// message unchanged.
pub proof fn law_every_refusal_is_a_decline(
    status: u16,
    body: Seq<char>,
    parsed: Option<ErrorResponseView>,
)
    ensures
        decline_for(status, body, parsed) is Declined,
        parsed matches Some(refusal) ==> decline_for(status, body, parsed)->reason == refusal.error,
        parsed matches Some(refusal) ==> decline_for(status, body, parsed)->message
            == refusal.message,
{
}

/// The service's own words stand whatever status and body they came with.
pub proof fn law_the_services_words_stand_for_themselves(
    refusal: ErrorResponseView,
    one_status: u16,
    one_body: Seq<char>,
    other_status: u16,
    other_body: Seq<char>,
)
    ensures
        decline_for(one_status, one_body, Some(refusal)) == decline_for(
            other_status,
            other_body,
            Some(refusal),
        ),
{
}

/// Without words of the service's own, the reason is `http_` and the status in decimal digits, and
/// the message is what stands in the body from `r` on, where white space ends: at most 200
/// characters of it, cut short only where there are more before the white space at its end.
pub proof fn law_without_the_services_words_status_and_body_speak(
    status: u16,
    body: Seq<char>,
) -> (r: int)
    ensures
        ({
            let reason = decline_for(status, body, None)->reason;
            let message = decline_for(status, body, None)->message;
            let numeral = reason.skip(5);
            &&& decline_for(status, body, None) is Declined
            &&& reason.len() > 5
            &&& reason[0] == 'h' && reason[1] == 't' && reason[2] == 't' && reason[3] == 'p'
                && reason[4] == '_'
            &&& forall|i: int| 0 <= i < numeral.len() ==> '0' <= #[trigger] numeral[i] <= '9'
            &&& number_of(numeral) == status
            &&& status > 0 ==> numeral[0] != '0'
            &&& status == 0 ==> numeral.len() == 1
            &&& message.len() <= 200
            &&& 0 <= r && r + message.len() <= body.len()
            &&& message == body.subrange(r, r + message.len())
            &&& forall|i: int| 0 <= i < r ==> white_space(#[trigger] body[i])
            &&& message.len() > 0 ==> !white_space(message[0])
            &&& message.len() < 200 ==> forall|i: int|
                r + message.len() <= i < body.len() ==> white_space(#[trigger] body[i])
            &&& 0 < message.len() < 200 ==> !white_space(message.last())
        }),
{
    reveal_strlit("http_");
    crate::text_laws::law_a_numeral_stands_for_its_number(status as nat);
    let (start, end) = crate::text_laws::law_trimming_drops_the_white_space_around(body);
    let reason = decline_for(status, body, None)->reason;
    let message = decline_for(status, body, None)->message;
    assert(reason.skip(5) =~= crate::text::decimal(status as nat));
    crate::text_laws::law_the_first_characters_are_a_start(trimmed(body), 200);
    assert(message =~= body.subrange(start, start + message.len()));
    start
}

/// Only a status from 500 to 599 is a fault of the server's own, and only one from 200 to 299 means
/// success.
pub proof fn law_status_classes(status: u16)
    ensures
        server_error_status(status) <==> status / 100 == 5,
        success_status(status) <==> status / 100 == 2,
{
}

/// A success answer is complete: where its payer and its signature read as bytes, it amounts to the
/// proof with exactly those bytes and with the version, the address, the epoch and the user type
/// that it gives, whatever they are.
pub proof fn law_a_readable_success_is_its_proof(
    body: Seq<char>,
    response: ProofResponseView,
    payer: Seq<u8>,
    signature: Seq<u8>,
)
    requires
        pubkey_of_text(response.payer) == Ok::<Seq<u8>, Seq<char>>(payer),
        signature_of_text(response.signature) == Ok::<Seq<u8>, Seq<char>>(signature),
    ensures
        ({
            let outcome = success_for(body, Ok(response));
            &&& outcome is Ok
            &&& outcome->Ok_0.version == response.version
            &&& outcome->Ok_0.payer == payer
            &&& outcome->Ok_0.client_ip == response.client_ip
            &&& outcome->Ok_0.epoch == response.epoch
            &&& outcome->Ok_0.user_type == response.user_type
            &&& outcome->Ok_0.signature == signature
        }),
        proof_from(response) is Ok,
        proof_from(response)->Ok_0 == success_for(body, Ok(response))->Ok_0,
{
}

/// A success answer whose payer or signature does not read as bytes is no proof: it is malformed, it
/// is not worth another attempt, and the complaint names the field, its value and what is wrong
/// with it; the payer's before the signature's.
pub proof fn law_an_unreadable_field_is_named(body: Seq<char>, response: ProofResponseView)
    ensures
        pubkey_of_text(response.payer) matches Err(detail) ==> success_for(body, Ok(response))
            == Err::<IpOwnershipProofView, (IpProofErrorView, bool)>(
            (
                IpProofErrorView::Malformed("payer '"@ + response.payer + "': "@ + detail),
                false,
            ),
        ),
        pubkey_of_text(response.payer) is Ok ==> (signature_of_text(response.signature) matches Err(
            detail,
        ) ==> success_for(body, Ok(response)) == Err::<
            IpOwnershipProofView,
            (IpProofErrorView, bool),
        >(
            (
                IpProofErrorView::Malformed("signature '"@ + response.signature + "': "@ + detail),
                false,
            ),
        )),
{
    reveal_strlit("payer '");
    reveal_strlit("signature '");
    reveal_strlit("payer");
    reveal_strlit("signature");
    reveal_strlit(" '");
    assert("payer"@ + " '"@ =~= "payer '"@);
    assert("signature"@ + " '"@ =~= "signature '"@);
}

/// A success answer that does not parse is malformed, is not worth another attempt, and is reported
/// with the parser's complaint and the body.
pub proof fn law_an_unparsable_success_is_malformed(body: Seq<char>, detail: Seq<char>)
    ensures
        success_for(body, Err(detail)) == Err::<IpOwnershipProofView, (IpProofErrorView, bool)>(
            (IpProofErrorView::Malformed(detail + " (body: "@ + trimmed(body) + ")"@), false),
        ),
{
}

/// Putting a proof together takes the parts that were read over as they are: given both, there is a
/// proof of exactly these; without the payer it is the payer that is complained about, and without
/// the signature alone, the signature.
pub proof fn law_a_proof_is_put_together_from_its_parts(
    response: ProofResponseView,
    payer: Result<Seq<u8>, Seq<char>>,
    signature: Result<Seq<u8>, Seq<char>>,
)
    ensures
        proof_for(response, payer, signature) is Ok <==> payer is Ok && signature is Ok,
        payer is Ok && signature is Ok ==> {
            let proof = proof_for(response, payer, signature)->Ok_0;
            &&& proof.version == response.version
            &&& proof.payer == payer->Ok_0
            &&& proof.client_ip == response.client_ip
            &&& proof.epoch == response.epoch
            &&& proof.user_type == response.user_type
            &&& proof.signature == signature->Ok_0
        },
        payer matches Err(detail) ==> proof_for(response, payer, signature)->Err_0
            == IpProofErrorView::Malformed("payer"@ + " '"@ + response.payer + "': "@ + detail),
        payer is Ok ==> (signature matches Err(detail) ==> proof_for(
            response,
            payer,
            signature,
        )->Err_0 == IpProofErrorView::Malformed(
            "signature"@ + " '"@ + response.signature + "': "@ + detail,
        )),
{
}

/// Two answers that differ only in what does not depend on the texts differ in the same way as
/// proofs: a change of address, epoch, version or user type goes through to the proof.
pub proof fn law_fields_go_through_unchanged(
    one: ProofResponseView,
    other: ProofResponseView,
)
    requires
        one.payer == other.payer,
        one.signature == other.signature,
        proof_from(one) is Ok,
    ensures
        proof_from(other) is Ok,
        proof_from(one) == proof_from(other) <==> one == other,
{
}

/// The wire form of a proof gives every field, key and signature as the text they display as.
pub proof fn law_the_wire_form_gives_every_field(proof: IpOwnershipProofView)
    ensures
        wire_form_of(proof).version == proof.version,
        wire_form_of(proof).payer == text_of_pubkey(proof.payer),
        wire_form_of(proof).client_ip == proof.client_ip,
        wire_form_of(proof).epoch == proof.epoch,
        wire_form_of(proof).user_type == proof.user_type,
        wire_form_of(proof).signature == text_of_signature(proof.signature),
{
}

/// What the operator reads, for every failure.
pub proof fn law_failures_read_as_follows(
    url: Seq<char>,
    detail: Seq<char>,
    reason: Seq<char>,
    message: Seq<char>,
)
    ensures
        IpProofErrorView::NotConfigured.text()
            == "no IP ownership verification service is configured for this environment"@,
        (IpProofErrorView::Unreachable { url, detail }).text()
            == "could not reach the IP ownership verification service at "@ + url + ": "@ + detail,
        (IpProofErrorView::Declined { reason, message }).text()
            == "the IP ownership verification service declined to issue a proof ("@ + reason
            + "): "@ + message,
        IpProofErrorView::Malformed(detail).text()
            == "could not read the proof the verification service returned: "@ + detail,
{
}

/// What contracts say of a failure is what the failure holds.
pub proof fn law_a_failure_is_what_it_holds(
    url: String,
    detail: String,
    reason: String,
    message: String,
)
    ensures
        IpProofError::NotConfigured@ == IpProofErrorView::NotConfigured,
        (IpProofError::Unreachable { url, detail })@ == (IpProofErrorView::Unreachable {
            url: url@,
            detail: detail@,
        }),
        (IpProofError::Declined { reason, message })@ == (IpProofErrorView::Declined {
            reason: reason@,
            message: message@,
        }),
        IpProofError::Malformed(detail)@ == IpProofErrorView::Malformed(detail@),
{
}

/// What contracts say of a proof, of an answer and of a refusal is what they hold.
pub proof fn law_an_answer_is_what_it_holds(
    proof: IpOwnershipProof,
    response: ProofResponse,
    refusal: ErrorResponse,
    key: Pubkey,
)
    ensures
        key@ == key.bytes@,
        proof@.version == proof.version,
        proof@.payer == proof.payer.bytes@,
        proof@.client_ip == proof.client_ip,
        proof@.epoch == proof.epoch,
        proof@.user_type == proof.user_type,
        proof@.signature == proof.signature@,
        response@.version == response.version,
        response@.payer == response.payer@,
        response@.client_ip == response.client_ip,
        response@.epoch == response.epoch,
        response@.user_type == response.user_type,
        response@.signature == response.signature@,
        refusal@.error == refusal.error@,
        refusal@.message == refusal.message@,
{
}

/// What contracts say of a result is what the result holds.
pub proof fn law_a_result_is_what_it_holds(
    proof: IpOwnershipProof,
    e: IpProofError,
    retryable: bool,
    response: ProofResponse,
    refusal: ErrorResponse,
    detail: String,
    key: [u8; 32],
    signature: [u8; 64],
)
    ensures
        outcome_view(Ok(proof)) == Ok::<IpOwnershipProofView, IpProofErrorView>(proof@),
        outcome_view(Err(e)) == Err::<IpOwnershipProofView, IpProofErrorView>(e@),
        attempt_view(Ok(proof)) == Ok::<IpOwnershipProofView, (IpProofErrorView, bool)>(proof@),
        attempt_view(Err((e, retryable))) == Err::<IpOwnershipProofView, (IpProofErrorView, bool)>(
            (e@, retryable),
        ),
        parsed_proof_view(Ok(response)) == Ok::<ProofResponseView, Seq<char>>(response@),
        parsed_proof_view(Err(detail)) == Err::<ProofResponseView, Seq<char>>(detail@),
        refusal_view(Some(refusal)) == Some(refusal@),
        refusal_view(None) == None::<ErrorResponseView>,
        parsed_view(Ok::<[u8; 32], String>(key)) == Ok::<Seq<u8>, Seq<char>>(key@),
        parsed_view(Ok::<[u8; 64], String>(signature)) == Ok::<Seq<u8>, Seq<char>>(signature@),
        parsed_view(Err::<[u8; 32], String>(detail)) == Err::<Seq<u8>, Seq<char>>(detail@),
        parsed_view(Err::<[u8; 64], String>(detail)) == Err::<Seq<u8>, Seq<char>>(detail@),
{
}

/// The base58 alphabet has the digits from 1, the capitals without I and O, and the small letters
/// without l; and a text is base58 if and only if each of its characters is.
pub proof fn law_the_base58_alphabet(c: char, text: Seq<char>, i: int)
    ensures
        base58_char(c) <==> {
            let u = c as u32;
            ||| 49 <= u <= 57
            ||| 65 <= u <= 72
            ||| 74 <= u <= 78
            ||| 80 <= u <= 90
            ||| 97 <= u <= 107
            ||| 109 <= u <= 122
        },
        base58_text(text) && 0 <= i < text.len() ==> base58_char(text[i]),
        base58_text(Seq::<char>::empty()),
        base58_text(text.push(c)) <==> base58_text(text) && base58_char(c),
{
    if base58_text(text.push(c)) {
        assert(text.push(c)[text.len() as int] == c);
        assert forall|j: int| 0 <= j < text.len() implies base58_char(#[trigger] text[j]) by {
            assert(text.push(c)[j] == text[j]);
        }
    }
}

} // verus!
