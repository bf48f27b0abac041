//! Why no proof is available.
use vstd::prelude::*;
use vstd::string::*;

verus! {

/// Why no proof is available. Every variant is a reason to *continue* without one: the program is
/// the enforcement point, and refusing to connect here would break every host in an environment
/// whose flag is still clear. They are separated so the operator learns which one happened,
/// because the remedies are completely different.
#[derive(Debug)]
pub enum IpProofError {
    /// No verifier is deployed for this environment and none was configured.
    NotConfigured,
    /// The service could not be reached: DNS, connect, TLS, or timeout.
    Unreachable { url: String, detail: String },
    /// The service answered and declined. `reason` is its stable machine-readable code, notably
    /// `not_globally_routable` for a CGNAT or private source, and `rate_limited`.
    Declined { reason: String, message: String },
    /// The service answered with something this client cannot turn into a proof. A version skew
    /// or a captive portal in the path both land here.
    Malformed(String),
}

/// The contents of an [`IpProofError`].
pub enum IpProofErrorView {
    NotConfigured,
    Unreachable { url: Seq<char>, detail: Seq<char> },
    Declined { reason: Seq<char>, message: Seq<char> },
    Malformed(Seq<char>),
}

impl View for IpProofError {
    type V = IpProofErrorView;

    open spec fn view(&self) -> IpProofErrorView {
        match self {
            IpProofError::NotConfigured => IpProofErrorView::NotConfigured,
            IpProofError::Unreachable { url, detail } => IpProofErrorView::Unreachable {
                url: url@,
                detail: detail@,
            },
            IpProofError::Declined { reason, message } => IpProofErrorView::Declined {
                reason: reason@,
                message: message@,
            },
            IpProofError::Malformed(detail) => IpProofErrorView::Malformed(detail@),
        }
    }
}

impl IpProofErrorView {
    /// What the operator reads.
    pub open spec fn text(self) -> Seq<char> {
        match self {
            IpProofErrorView::NotConfigured =>
                "no IP ownership verification service is configured for this environment"@,
            IpProofErrorView::Unreachable { url, detail } =>
                "could not reach the IP ownership verification service at "@ + url + ": "@ + detail,
            IpProofErrorView::Declined { reason, message } =>
                "the IP ownership verification service declined to issue a proof ("@ + reason
                    + "): "@ + message,
            IpProofErrorView::Malformed(detail) =>
                "could not read the proof the verification service returned: "@ + detail,
        }
    }

    /// Whether the two are the same kind of failure, whatever they carry.
    pub open spec fn same_kind(self, other: IpProofErrorView) -> bool {
        match self {
            IpProofErrorView::NotConfigured => other is NotConfigured,
            IpProofErrorView::Unreachable { .. } => other is Unreachable,
            IpProofErrorView::Declined { .. } => other is Declined,
            IpProofErrorView::Malformed(_) => other is Malformed,
        }
    }
}

impl IpProofError {
    /// What the operator reads.
    pub fn to_string(&self) -> (r: String)
        ensures
            r@ == self@.text(),
            self matches IpProofError::Unreachable { url, detail } ==> r@
                == "could not reach the IP ownership verification service at "@ + url@ + ": "@
                + detail@,
            self matches IpProofError::Declined { reason, message } ==> r@
                == "the IP ownership verification service declined to issue a proof ("@ + reason@
                + "): "@ + message@,
            self matches IpProofError::Malformed(detail) ==> r@
                == "could not read the proof the verification service returned: "@ + detail@,
    {
        match self {
            IpProofError::NotConfigured =>
                "no IP ownership verification service is configured for this environment".to_owned(),
            IpProofError::Unreachable { url, detail } => {
                "could not reach the IP ownership verification service at ".to_owned().concat(
                    url.as_str(),
                ).concat(": ").concat(detail.as_str())
            },
            IpProofError::Declined { reason, message } => {
                "the IP ownership verification service declined to issue a proof (".to_owned().concat(
                    reason.as_str(),
                ).concat("): ").concat(message.as_str())
            },
            IpProofError::Malformed(detail) => {
                "could not read the proof the verification service returned: ".to_owned().concat(
                    detail.as_str(),
                )
            },
        }
    }
}

/// Two characters, the first and the fourteenth, tell the kinds of failure apart.
proof fn lemma_text_start(e: IpProofErrorView)
    ensures
        e is NotConfigured ==> e.text()[0] == 'n',
        e is Unreachable ==> e.text()[0] == 'c' && e.text()[13] == 'c',
        e is Declined ==> e.text()[0] == 't',
        e is Malformed ==> e.text()[0] == 'c' && e.text()[13] == 'd',
{
    reveal_strlit("no IP ownership verification service is configured for this environment");
    reveal_strlit("could not reach the IP ownership verification service at ");
    reveal_strlit("the IP ownership verification service declined to issue a proof (");
    reveal_strlit("could not read the proof the verification service returned: ");
}

/// The operator learns which failure happened: two failures of different kinds never read the
/// same, whatever they carry.
pub proof fn law_texts_tell_the_kinds_apart(a: IpProofErrorView, b: IpProofErrorView)
    requires
        a.text() == b.text(),
    ensures
        a.same_kind(b),
{
    lemma_text_start(a);
    lemma_text_start(b);
}

/// A decline's text carries the service's own reason: it stands in the text, between the opening
/// words and the message.
pub proof fn law_decline_text_carries_the_reason(reason: Seq<char>, message: Seq<char>)
    ensures
        exists|i: int|
            0 <= i && i + reason.len() <= (IpProofErrorView::Declined { reason, message }).text().len()
                && #[trigger] (IpProofErrorView::Declined { reason, message }).text().subrange(
                i,
                i + reason.len(),
            ) == reason,
{
    let text = (IpProofErrorView::Declined { reason, message }).text();
    let i = "the IP ownership verification service declined to issue a proof ("@.len() as int;
    assert(text.subrange(i, i + reason.len()) =~= reason);
}

} // verus!
