//! The client of the verification service.
use vstd::prelude::*;
use vstd::string::*;

use crate::address::Ipv4Addr;
use crate::error::{IpProofError, IpProofErrorView};
use crate::exchange::{ClientBuild, Exchange, ProofRequest, RequestBody};
use crate::exchange::{ExchangeView, ProofRequestView};
use crate::keys::Pubkey;
use crate::text::trim_trailing_slashes;
use crate::wire::IpOwnershipProof;

verus! {

/// Obtains a proof for the calling host.
pub trait IpProofClient: Send + Sync {
    /// Request a proof binding `payer`, the address the service observes, and `user_type`.
    ///
    /// `source_addr` is the address the tunnel will use; the implementation binds the outbound
    /// request to it where it can, so a multi-homed host proves the address it will actually
    /// originate tunnel traffic from rather than whichever one the routing table prefers.
    fn request_proof(&self, payer: Pubkey, user_type: u8, source_addr: Ipv4Addr) -> Result<
        IpOwnershipProof,
        IpProofError,
    >;
}

/// The client that asks over HTTP. No `base_url` models an environment with no verifier, so the
/// caller does not have to special-case its own configuration.
pub struct HttpIpProofClient {
    base_url: Option<String>,
}

/// The contents of a text that may be absent.
pub open spec fn optional_text(text: Option<String>) -> Option<Seq<char>> {
    match text {
        Some(text) => Some(text@),
        None => None,
    }
}

impl View for HttpIpProofClient {
    type V = Option<Seq<char>>;

    closed spec fn view(&self) -> Option<Seq<char>> {
        optional_text(self.base_url)
    }
}

/// Where the service that answers at `base_url` takes requests for a proof, whether or not
/// `base_url` ends in slashes.
pub open spec fn proof_url(base_url: Seq<char>) -> Seq<char> {
    crate::text::without_trailing_slashes(base_url) + "/v1/proof"@
}

/// How a request begins: with the building of a client bound to `source_addr`, or, when no service
/// is configured, with the answer that there is none.
pub open spec fn begun(
    base_url: Option<Seq<char>>,
    payer: Seq<char>,
    user_type: u8,
    source_addr: Ipv4Addr,
) -> ExchangeView {
    match base_url {
        None => ExchangeView::Done(Err(IpProofErrorView::NotConfigured)),
        Some(base_url) => ExchangeView::BuildClient {
            request: ProofRequestView { url: proof_url(base_url), payer, user_type },
            local_address: Some(source_addr),
        },
    }
}

impl HttpIpProofClient {
    /// A client of the service at `base_url`.
    pub fn new(base_url: Option<String>) -> (r: HttpIpProofClient)
        ensures
            r@ == optional_text(base_url),
            base_url is None ==> r@ is None,
            base_url matches Some(text) ==> r@ == Some(text@),
    {
        HttpIpProofClient { base_url }
    }

    /// Begins a request for the payer whose text is `payer`: with a client to be built that is bound
    /// to `source_addr`, for a request with this payer and user type; or, without a service, with
    /// its end.
    pub fn begin(&self, payer: String, user_type: u8, source_addr: Ipv4Addr) -> (r: Exchange)
        ensures
            r@ == begun(self@, payer@, user_type, source_addr),
            self@ is None ==> {
                &&& r is Done
                &&& r->Done_0 is Err
                &&& r->Done_0->Err_0 is NotConfigured
            },
            self@ is Some ==> {
                &&& r is BuildClient
                &&& r->BuildClient_0.local_address == Some(source_addr)
                &&& r->BuildClient_0.request.url@ == proof_url(self@->0)
                &&& r->BuildClient_0.request.body.payer@ == payer@
                &&& r->BuildClient_0.request.body.user_type == user_type
            },
    {
        match &self.base_url {
            None => Exchange::Done(Err(IpProofError::NotConfigured)),
            Some(base_url) => {
                let url = trim_trailing_slashes(base_url.as_str()).to_owned().concat("/v1/proof");
                Exchange::BuildClient(
                    ClientBuild {
                        request: ProofRequest { url, body: RequestBody { payer, user_type } },
                        local_address: Some(source_addr),
                    },
                )
            },
        }
    }

    /// Begins a request binding `payer`, the address the service observes, and `user_type`. What is
    /// sent as the payer reads back as `payer`.
    pub fn request_proof(&self, payer: &Pubkey, user_type: u8, source_addr: Ipv4Addr) -> (r:
        Exchange)
        ensures
            r@ == begun(self@, crate::keys::text_of_pubkey(payer@), user_type, source_addr),
            crate::keys::pubkey_of_text(crate::keys::text_of_pubkey(payer@)) is Ok,
            crate::keys::pubkey_of_text(crate::keys::text_of_pubkey(payer@))->Ok_0 == payer@,
            self@ is None ==> {
                &&& r is Done
                &&& r->Done_0 is Err
                &&& r->Done_0->Err_0 is NotConfigured
            },
            self@ is Some ==> {
                &&& r is BuildClient
                &&& r->BuildClient_0.local_address == Some(source_addr)
                &&& r->BuildClient_0.request.url@ == proof_url(self@->0)
                &&& crate::keys::pubkey_of_text(r->BuildClient_0.request.body.payer@) is Ok
                &&& crate::keys::pubkey_of_text(r->BuildClient_0.request.body.payer@)->Ok_0
                    == payer.bytes@
                &&& r->BuildClient_0.request.body.user_type == user_type
            },
    {
        self.begin(payer.to_string(), user_type, source_addr)
    }
}

} // verus!
