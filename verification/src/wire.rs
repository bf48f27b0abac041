//! What goes over the wire to the verification service, what comes back, and what it means.
use vstd::prelude::*;
use vstd::string::*;

use crate::address::Ipv4Addr;
use crate::error::{IpProofError, IpProofErrorView};
use crate::keys::{base58_text, parsed_view, pubkey_of_text, signature_of_text};
use crate::keys::{parse_pubkey, parse_signature, signature_text, Pubkey};
use crate::keys::{text_of_pubkey, text_of_signature};
use crate::text::{decimal, first_chars, trimmed};
use crate::text::{decimal_text, take_chars, trim_white_space};

verus! {

/// How many characters of a refusal's body are kept when the service gave no message of its own.
pub const MESSAGE_CHARS: usize = 200;

/// The service's proof, as it travels: keys and signatures are base58 text. Deliberately a
/// separate type from [`IpOwnershipProof`].
#[derive(Debug)]
pub struct ProofResponse {
    pub version: u8,
    pub payer: String,
    pub client_ip: Ipv4Addr,
    pub epoch: u64,
    pub user_type: u8,
    pub signature: String,
}

/// The service's refusal, as it travels.
#[derive(Debug)]
pub struct ErrorResponse {
    pub error: String,
    pub message: String,
}

/// A proof that the holder of `payer` can originate traffic from `client_ip`, in the form the
/// instruction carries.
#[derive(Clone, Copy, Debug)]
pub struct IpOwnershipProof {
    pub version: u8,
    pub payer: Pubkey,
    pub client_ip: Ipv4Addr,
    pub epoch: u64,
    pub user_type: u8,
    pub signature: [u8; 64],
}

/// The contents of a [`ProofResponse`].
pub struct ProofResponseView {
    pub version: u8,
    pub payer: Seq<char>,
    pub client_ip: Ipv4Addr,
    pub epoch: u64,
    pub user_type: u8,
    pub signature: Seq<char>,
}

/// The contents of an [`ErrorResponse`].
pub struct ErrorResponseView {
    pub error: Seq<char>,
    pub message: Seq<char>,
}

/// The contents of an [`IpOwnershipProof`].
pub struct IpOwnershipProofView {
    pub version: u8,
    pub payer: Seq<u8>,
    pub client_ip: Ipv4Addr,
    pub epoch: u64,
    pub user_type: u8,
    pub signature: Seq<u8>,
}

impl View for ProofResponse {
    type V = ProofResponseView;

    open spec fn view(&self) -> ProofResponseView {
        ProofResponseView {
            version: self.version,
            payer: self.payer@,
            client_ip: self.client_ip,
            epoch: self.epoch,
            user_type: self.user_type,
            signature: self.signature@,
        }
    }
}

impl View for ErrorResponse {
    type V = ErrorResponseView;

    open spec fn view(&self) -> ErrorResponseView {
        ErrorResponseView { error: self.error@, message: self.message@ }
    }
}

impl View for IpOwnershipProof {
    type V = IpOwnershipProofView;

    open spec fn view(&self) -> IpOwnershipProofView {
        IpOwnershipProofView {
            version: self.version,
            payer: self.payer@,
            client_ip: self.client_ip,
            epoch: self.epoch,
            user_type: self.user_type,
            signature: self.signature@,
        }
    }
}

/// The contents of a proof or of the reason why there is none.
pub open spec fn outcome_view(r: Result<IpOwnershipProof, IpProofError>) -> Result<
    IpOwnershipProofView,
    IpProofErrorView,
> {
    match r {
        Ok(proof) => Ok(proof@),
        Err(e) => Err(e@),
    }
}

/// The contents of one attempt's result: a proof, or a failure and whether it is worth another
/// attempt.
pub open spec fn attempt_view(r: Result<IpOwnershipProof, (IpProofError, bool)>) -> Result<
    IpOwnershipProofView,
    (IpProofErrorView, bool),
> {
    match r {
        Ok(proof) => Ok(proof@),
        Err((e, retryable)) => Err((e@, retryable)),
    }
}

/// The contents of a refusal that may be absent.
pub open spec fn refusal_view(parsed: Option<ErrorResponse>) -> Option<ErrorResponseView> {
    match parsed {
        Some(refusal) => Some(refusal@),
        None => None,
    }
}

/// The contents of a parsed proof or of the parser's complaint.
pub open spec fn parsed_proof_view(parsed: Result<ProofResponse, String>) -> Result<
    ProofResponseView,
    Seq<char>,
> {
    match parsed {
        Ok(response) => Ok(response@),
        Err(detail) => Err(detail@),
    }
}

/// The status codes that mean success.
pub open spec fn success_status(status: u16) -> bool {
    200 <= status < 300
}

/// The status codes by which the server says that the fault is its own.
pub open spec fn server_error_status(status: u16) -> bool {
    500 <= status < 600
}

/// The decline that a non-success answer amounts to: the service's own words when it sent them,
/// and the status with the start of the body when it did not.
pub open spec fn decline_for(
    status: u16,
    body: Seq<char>,
    parsed: Option<ErrorResponseView>,
) -> IpProofErrorView {
    match parsed {
        Some(refusal) => IpProofErrorView::Declined {
            reason: refusal.error,
            message: refusal.message,
        },
        None => IpProofErrorView::Declined {
            reason: "http_"@ + decimal(status as nat),
            message: first_chars(trimmed(body), MESSAGE_CHARS as nat),
        },
    }
}

/// The complaint about one field of the wire form that could not be read.
pub open spec fn bad_field(name: Seq<char>, value: Seq<char>, detail: Seq<char>) -> IpProofErrorView {
    IpProofErrorView::Malformed(name + " '"@ + value + "': "@ + detail)
}

/// The proof that a response amounts to, given what its payer and its signature read as: every
/// other field is taken over as it is, and a bad payer is reported before a bad signature.
pub open spec fn proof_for(
    response: ProofResponseView,
    payer: Result<Seq<u8>, Seq<char>>,
    signature: Result<Seq<u8>, Seq<char>>,
) -> Result<IpOwnershipProofView, IpProofErrorView> {
    match (payer, signature) {
        (Err(detail), _) => Err(bad_field("payer"@, response.payer, detail)),
        (Ok(_), Err(detail)) => Err(bad_field("signature"@, response.signature, detail)),
        (Ok(payer), Ok(signature)) => Ok(
            IpOwnershipProofView {
                version: response.version,
                payer,
                client_ip: response.client_ip,
                epoch: response.epoch,
                user_type: response.user_type,
                signature,
            },
        ),
    }
}

/// The proof that a response amounts to.
pub open spec fn proof_from(response: ProofResponseView) -> Result<
    IpOwnershipProofView,
    IpProofErrorView,
> {
    proof_for(response, pubkey_of_text(response.payer), signature_of_text(response.signature))
}

/// How a proof travels: key and signature as the text they display as, the rest as it is.
pub open spec fn wire_form_of(proof: IpOwnershipProofView) -> ProofResponseView {
    ProofResponseView {
        version: proof.version,
        payer: text_of_pubkey(proof.payer),
        client_ip: proof.client_ip,
        epoch: proof.epoch,
        user_type: proof.user_type,
        signature: text_of_signature(proof.signature),
    }
}

/// What a success answer amounts to, given what its body parsed as. No failure here is worth
/// another attempt.
pub open spec fn success_for(
    body: Seq<char>,
    parsed: Result<ProofResponseView, Seq<char>>,
) -> Result<IpOwnershipProofView, (IpProofErrorView, bool)> {
    match parsed {
        Err(detail) => Err(
            (IpProofErrorView::Malformed(detail + " (body: "@ + trimmed(body) + ")"@), false),
        ),
        Ok(response) => match proof_from(response) {
            Ok(proof) => Ok(proof),
            Err(e) => Err((e, false)),
        },
    }
}

/// Tells whether `status` means success.
pub fn is_success(status: u16) -> (r: bool)
    ensures
        r == success_status(status),
        r <==> 200 <= status <= 299,
{
    200 <= status && status < 300
}

/// Tells whether `status` is a fault of the server's own.
pub fn is_server_error(status: u16) -> (r: bool)
    ensures
        r == server_error_status(status),
        r <==> 500 <= status <= 599,
{
    500 <= status && status < 600
}

/// Turns a non-success response into the reason the operator sees, and says whether another
/// attempt could change it. A 5xx could land on a healthy host behind the same name; a 4xx is the
/// service's considered answer, and retrying `rate_limited` would only make it worse.
///
/// `parsed` is what `body` reads as: the service's own refusal when it sent one. A proxy or captive
/// portal in the path will not have.
pub fn classify_failure(status: u16, body: &str, parsed: Option<ErrorResponse>) -> (r: (
    IpProofError,
    bool,
))
    ensures
        r.0@ == decline_for(status, body@, refusal_view(parsed)),
        r.1 == server_error_status(status),
        r.0 is Declined,
        parsed matches Some(refusal) ==> r.0->reason@ == refusal.error@,
        parsed matches Some(refusal) ==> r.0->message@ == refusal.message@,
        parsed is None ==> r.0->reason@ == "http_"@ + decimal(status as nat),
        parsed is None ==> r.0->message@ == first_chars(trimmed(body@), 200),
        r.1 <==> 500 <= status <= 599,
{
    let err = match parsed {
        Some(refusal) => IpProofError::Declined {
            reason: refusal.error,
            message: refusal.message,
        },
        None => IpProofError::Declined {
            reason: "http_".to_owned().concat(decimal_text(status).as_str()),
            message: take_chars(trim_white_space(body), MESSAGE_CHARS).to_owned(),
        },
    };
    (err, is_server_error(status))
}

/// The complaint about one field of the wire form that could not be read.
fn malformed_field(name: &str, value: &str, detail: &str) -> (r: IpProofError)
    ensures
        r@ == bad_field(name@, value@, detail@),
{
    IpProofError::Malformed(
        name.to_owned().concat(" '").concat(value).concat("': ").concat(detail),
    )
}

/// Puts a proof together from the wire form and from what its payer and its signature read as.
pub fn assemble_proof(
    parsed: ProofResponse,
    payer: Result<[u8; 32], String>,
    signature: Result<[u8; 64], String>,
) -> (r: Result<IpOwnershipProof, IpProofError>)
    ensures
        outcome_view(r) == proof_for(parsed@, parsed_view(payer), parsed_view(signature)),
        r is Ok <==> payer is Ok && signature is Ok,
        r matches Ok(proof) ==> {
            &&& proof.version == parsed.version
            &&& proof.payer.bytes == payer->Ok_0
            &&& proof.client_ip == parsed.client_ip
            &&& proof.epoch == parsed.epoch
            &&& proof.user_type == parsed.user_type
            &&& proof.signature == signature->Ok_0
        },
        r matches Err(e) ==> e is Malformed,
{
    let payer = match payer {
        Ok(bytes) => Pubkey { bytes },
        Err(detail) => {
            return Err(malformed_field("payer", parsed.payer.as_str(), detail.as_str()));
        },
    };
    let signature = match signature {
        Ok(bytes) => bytes,
        Err(detail) => {
            return Err(malformed_field("signature", parsed.signature.as_str(), detail.as_str()));
        },
    };
    Ok(
        IpOwnershipProof {
            version: parsed.version,
            payer,
            client_ip: parsed.client_ip,
            epoch: parsed.epoch,
            user_type: parsed.user_type,
            signature,
        },
    )
}

/// Converts the wire form into the struct the instruction carries, rejecting anything the program
/// would reject anyway: a payer or a signature that is not base58, or too short or too long for its
/// bytes, cannot be read, and such a payer is what is reported, whatever the signature. A proof's
/// own wire form is exactly what it was read from.
pub fn proof_from_response(parsed: ProofResponse) -> (r: Result<IpOwnershipProof, IpProofError>)
    ensures
        outcome_view(r) == proof_from(parsed@),
        r matches Ok(proof) ==> wire_form_of(proof@) == parsed@,
        r is Ok <==> pubkey_of_text(parsed.payer@) is Ok && signature_of_text(parsed.signature@) is Ok,
        r matches Ok(proof) ==> {
            &&& proof.version == parsed.version
            &&& proof.payer.bytes@ == pubkey_of_text(parsed.payer@)->Ok_0
            &&& proof.client_ip == parsed.client_ip
            &&& proof.epoch == parsed.epoch
            &&& proof.user_type == parsed.user_type
            &&& proof.signature@ == signature_of_text(parsed.signature@)->Ok_0
        },
        r matches Err(e) ==> e is Malformed,
        pubkey_of_text(parsed.payer@) is Ok ==> base58_text(parsed.payer@) && 32
            <= parsed.payer@.len() <= 44,
        signature_of_text(parsed.signature@) is Ok ==> base58_text(parsed.signature@) && 64
            <= parsed.signature@.len() <= 88,
{
    let payer = parse_pubkey(parsed.payer.as_str());
    let signature = parse_signature(parsed.signature.as_str());
    assemble_proof(parsed, payer, signature)
}

/// The wire form of a proof. Reading it gives the same proof back.
pub fn wire_form(proof: &IpOwnershipProof) -> (r: ProofResponse)
    ensures
        r@ == wire_form_of(proof@),
        r.version == proof.version,
        r.client_ip == proof.client_ip,
        r.epoch == proof.epoch,
        r.user_type == proof.user_type,
        pubkey_of_text(r.payer@) is Ok,
        pubkey_of_text(r.payer@)->Ok_0 == proof.payer.bytes@,
        signature_of_text(r.signature@) is Ok,
        signature_of_text(r.signature@)->Ok_0 == proof.signature@,
        proof_from(r@) is Ok,
        proof_from(r@)->Ok_0 == proof@,
{
    ProofResponse {
        version: proof.version,
        payer: proof.payer.to_string(),
        client_ip: proof.client_ip,
        epoch: proof.epoch,
        user_type: proof.user_type,
        signature: signature_text(&proof.signature),
    }
}

/// What a success answer amounts to: the proof in it, or why it could not be read. `parsed` is what
/// `body` parsed as, or the parser's complaint.
pub fn read_success(body: &str, parsed: Result<ProofResponse, String>) -> (r: Result<
    IpOwnershipProof,
    (IpProofError, bool),
>)
    ensures
        attempt_view(r) == success_for(body@, parsed_proof_view(parsed)),
        r is Ok <==> parsed is Ok && pubkey_of_text(parsed->Ok_0.payer@) is Ok && signature_of_text(
            parsed->Ok_0.signature@,
        ) is Ok,
        r matches Ok(proof) ==> {
            &&& proof.version == parsed->Ok_0.version
            &&& proof.payer.bytes@ == pubkey_of_text(parsed->Ok_0.payer@)->Ok_0
            &&& proof.client_ip == parsed->Ok_0.client_ip
            &&& proof.epoch == parsed->Ok_0.epoch
            &&& proof.user_type == parsed->Ok_0.user_type
            &&& proof.signature@ == signature_of_text(parsed->Ok_0.signature@)->Ok_0
        },
        r matches Err((e, retryable)) ==> e is Malformed && !retryable,
{
    match parsed {
        Err(detail) => {
            let text = detail.concat(" (body: ").concat(trim_white_space(body)).concat(")");
            Err((IpProofError::Malformed(text), false))
        },
        Ok(response) => match proof_from_response(response) {
            Ok(proof) => Ok(proof),
            Err(e) => Err((e, false)),
        },
    }
}

} // verus!
