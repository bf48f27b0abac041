use connect_preflight::address::Ipv4Addr;
use connect_preflight::client::HttpIpProofClient;
use connect_preflight::error::IpProofError;
use connect_preflight::exchange::{
    Exchange, HttpReply, CONNECT_TIMEOUT_MS, MAX_ATTEMPTS, REQUEST_TIMEOUT_MS, RETRY_DELAY_MS,
};
use connect_preflight::keys::Pubkey;
use connect_preflight::wire::{
    assemble_proof, classify_failure, is_server_error, is_success, proof_from_response,
    read_success, wire_form, ErrorResponse, IpOwnershipProof, ProofResponse,
};
use solana_sdk::signature::Signature;

const IBRL: u8 = 0;

fn payer() -> Pubkey {
    Pubkey { bytes: [9u8; 32] }
}

fn response() -> ProofResponse {
    // A fixed payer, so a test can rebuild the same response and compare against it.
    ProofResponse {
        version: 1,
        payer: solana_sdk::pubkey::Pubkey::from([9u8; 32]).to_string(),
        client_ip: Ipv4Addr::new(203, 0, 113, 7),
        epoch: 931,
        user_type: IBRL,
        signature: Signature::from([7u8; 64]).to_string(),
    }
}

/// What a body reads as where a refusal is expected.
fn refusal(body: &str) -> Option<ErrorResponse> {
    let value = serde_json::from_str::<serde_json::Value>(body).ok()?;
    Some(ErrorResponse {
        error: value.get("error")?.as_str()?.to_string(),
        message: value.get("message")?.as_str()?.to_string(),
    })
}

/// What a body reads as where a proof is expected.
fn proof_response(body: &str) -> Result<ProofResponse, String> {
    let value = serde_json::from_str::<serde_json::Value>(body).map_err(|e| e.to_string())?;
    let text = |name: &str| value[name].as_str().map(str::to_string).ok_or(format!("no {name}"));
    let number = |name: &str| value[name].as_u64().ok_or(format!("no {name}"));
    let byte = |name: &str| u8::try_from(number(name)?).map_err(|e| e.to_string());
    let octets: Vec<u8> = text("client_ip")?
        .split('.')
        .map(|o| o.parse().unwrap())
        .collect();
    Ok(ProofResponse {
        version: byte("version")?,
        payer: text("payer")?,
        client_ip: Ipv4Addr::new(octets[0], octets[1], octets[2], octets[3]),
        epoch: number("epoch")?,
        user_type: byte("user_type")?,
        signature: text("signature")?,
    })
}

fn classify(status: u16, body: &str) -> (IpProofError, bool) {
    classify_failure(status, body, refusal(body))
}

/// What the outside did in the course of an exchange.
#[derive(Default)]
struct Seen {
    binds: Vec<Option<Ipv4Addr>>,
    sent: Vec<(String, String, u8, bool, u32)>,
    pauses: Vec<String>,
}

/// Drives an exchange to its end, giving one canned reply per attempt, in order.
fn drive(
    start: Exchange,
    builds: Vec<Result<(), &str>>,
    replies: Vec<Result<(u16, &str), &str>>,
) -> (Result<IpOwnershipProof, IpProofError>, Seen) {
    let mut builds = builds.into_iter();
    let mut replies = replies.into_iter();
    let mut seen = Seen::default();
    let mut exchange = start;
    loop {
        exchange = match exchange {
            Exchange::BuildClient(due) => {
                let options = due.options();
                assert_eq!(options.local_address, due.local_address);
                assert_eq!(options.timeout_ms, 2500);
                assert_eq!(options.connect_timeout_ms, 1000);
                seen.binds.push(due.local_address);
                let built = builds.next().expect("an unexpected build");
                due.resume(built.map_err(str::to_string))
            }
            Exchange::Send(attempt) => {
                seen.sent.push((
                    attempt.request.url.clone(),
                    attempt.request.body.payer.clone(),
                    attempt.request.body.user_type,
                    attempt.bound,
                    attempt.number,
                ));
                let reply = replies.next().expect("an unexpected request");
                attempt.resume(
                    reply
                        .map(|(status, body)| HttpReply {
                            status,
                            body: body.to_string(),
                        })
                        .map_err(str::to_string),
                )
            }
            Exchange::ReadRefusal(due) => {
                let parsed = refusal(&due.body);
                due.resume(parsed)
            }
            Exchange::ReadAnswer(due) => {
                let parsed = proof_response(&due.body);
                due.resume(parsed)
            }
            Exchange::Pause(due) => {
                seen.pauses.push(due.cause.to_string());
                due.resume()
            }
            Exchange::Done(outcome) => return (outcome, seen),
        };
    }
}

fn begin(url: &str) -> Exchange {
    HttpIpProofClient::new(Some(url.to_string())).request_proof(
        &payer(),
        IBRL,
        Ipv4Addr::new(127, 0, 0, 1),
    )
}

fn proof_body() -> String {
    let wire = response();
    format!(
        r#"{{"version":{},"payer":"{}","client_ip":"203.0.113.7","epoch":{},"user_type":{},"signature":"{}"}}"#,
        wire.version, wire.payer, wire.epoch, wire.user_type, wire.signature
    )
}

#[test]
fn test_proof_from_response_round_trips_the_wire_form() {
    let wire = response();
    let proof = proof_from_response(response()).expect("a well-formed response must parse");

    assert_eq!(proof.version, 1);
    assert_eq!(proof.payer.to_string(), wire.payer);
    assert_eq!(proof.client_ip, Ipv4Addr::new(203, 0, 113, 7));
    assert_eq!(proof.epoch, 931);
    assert_eq!(proof.user_type, IBRL);
    assert_eq!(proof.signature, [7u8; 64]);
}

#[test]
fn test_proof_from_response_rejects_a_bad_signature() {
    let err = proof_from_response(ProofResponse {
        signature: "not-base58!".to_string(),
        ..response()
    })
    .expect_err("a signature that is not base58 must not become a proof");
    assert!(matches!(err, IpProofError::Malformed(_)), "{err:?}");
}

#[test]
fn test_proof_from_response_rejects_a_bad_payer() {
    let err = proof_from_response(ProofResponse {
        payer: "nope".to_string(),
        ..response()
    })
    .expect_err("a payer that is not a pubkey must not become a proof");
    assert!(matches!(err, IpProofError::Malformed(_)), "{err:?}");
}

/// The retry has to actually happen: a verifier fleet behind one name is the reason it exists, and
/// a loop that gave up after the first 5xx would look identical in every other test.
#[test]
fn test_a_server_error_is_retried_and_the_second_attempt_is_used() {
    let wire = response();
    let body = proof_body();
    let (outcome, seen) = drive(
        begin("http://verifier"),
        vec![Ok(())],
        vec![
            Ok((503, r#"{"error":"unavailable","message":"restarting"}"#)),
            Ok((200, body.as_str())),
        ],
    );
    let proof = outcome.expect("the second attempt must produce the proof");

    assert_eq!(proof.client_ip, wire.client_ip);
    assert_eq!(proof.epoch, wire.epoch);
    assert_eq!(seen.sent.len(), 2);
    assert_eq!(
        seen.pauses,
        vec!["the IP ownership verification service declined to issue a proof (unavailable): restarting"]
    );
}

/// The mirror image: a decline must be reported from the first attempt, without a second request.
/// `rate_limited` is the case where a retry would do harm.
#[test]
fn test_a_decline_is_not_retried_over_the_wire() {
    let (outcome, seen) = drive(
        begin("http://verifier"),
        vec![Ok(())],
        vec![Ok((
            429,
            r#"{"error":"rate_limited","message":"try again in 60s"}"#,
        ))],
    );
    let err = outcome.expect_err("a rate-limited request cannot produce a proof");

    assert!(err.to_string().contains("rate_limited"), "{err:?}");
    assert_eq!(seen.sent.len(), 1);
}

/// A 5xx is worth a second attempt, because the name may resolve to more than one host and the next
/// one may be healthy.
#[test]
fn test_a_server_error_is_retryable() {
    let (err, retryable) = classify(503, "upstream is restarting");
    assert!(retryable, "{err:?}");
    assert!(matches!(err, IpProofError::Declined { .. }), "{err:?}");
}

/// Retrying a rate limit only makes it worse, and the operator needs the service's own reason rather
/// than a second identical refusal.
#[test]
fn test_a_decline_is_not_retryable() {
    let (err, retryable) = classify(
        429,
        r#"{"error":"rate_limited","message":"try again in 60s"}"#,
    );
    assert!(!retryable, "{err:?}");
    match err {
        IpProofError::Declined { reason, message } => {
            assert_eq!(reason, "rate_limited");
            assert_eq!(message, "try again in 60s");
        }
        other => panic!("expected a decline carrying the service's reason, got {other:?}"),
    }
}

/// A CGNAT source is the refusal operators will actually hit, and it must not be retried.
#[test]
fn test_a_non_routable_source_is_not_retryable() {
    let (err, retryable) = classify(
        400,
        r#"{"error":"not_globally_routable","message":"100.64.0.1 is not globally routable"}"#,
    );
    assert!(!retryable, "{err:?}");
    assert!(err.to_string().contains("not_globally_routable"), "{err:?}");
}

/// An environment with no verifier must be distinguishable from one whose verifier is down: the
/// first is expected during rollout, the second is worth investigating.
#[test]
fn test_no_configured_url_reports_not_configured() {
    let start = HttpIpProofClient::new(None).request_proof(
        &payer(),
        IBRL,
        Ipv4Addr::new(203, 0, 113, 7),
    );
    let (outcome, seen) = drive(start, vec![], vec![]);
    let err = outcome.expect_err("an unconfigured client cannot produce a proof");
    assert!(matches!(err, IpProofError::NotConfigured), "{err:?}");
    assert!(seen.binds.is_empty() && seen.sent.is_empty());
    assert_eq!(
        err.to_string(),
        "no IP ownership verification service is configured for this environment"
    );
}

#[test]
fn the_texts_of_bad_fields_name_the_field_and_the_complaint() {
    let bad_payer = proof_from_response(ProofResponse {
        payer: "nope".to_string(),
        signature: "not-base58!".to_string(),
        ..response()
    });
    match bad_payer {
        Err(IpProofError::Malformed(text)) => {
            assert_eq!(text, "payer 'nope': String is the wrong size")
        }
        other => panic!("{other:?}"),
    }
    let bad_signature = proof_from_response(ProofResponse {
        signature: "not-base58!".to_string(),
        ..response()
    });
    match bad_signature {
        Err(IpProofError::Malformed(text)) => assert_eq!(
            text,
            "signature 'not-base58!': failed to decode string to signature"
        ),
        other => panic!("{other:?}"),
    }
    let short_signature = proof_from_response(ProofResponse {
        signature: "1111".to_string(),
        ..response()
    });
    match short_signature {
        Err(IpProofError::Malformed(text)) => assert_eq!(
            text,
            "signature '1111': string decoded to wrong size for signature"
        ),
        other => panic!("{other:?}"),
    }
}

#[test]
fn a_key_reads_back_from_its_text() {
    for bytes in [[0u8; 32], [9u8; 32], [255u8; 32]] {
        let key = Pubkey { bytes };
        let text = key.to_string();
        assert_eq!(text, solana_sdk::pubkey::Pubkey::from(bytes).to_string());
        let proof = proof_from_response(ProofResponse {
            payer: text,
            ..response()
        })
        .unwrap();
        assert_eq!(proof.payer, key);
    }
    assert_eq!(
        Pubkey { bytes: [0u8; 32] }.to_string(),
        "11111111111111111111111111111111"
    );
}

#[test]
fn another_spelling_of_a_key_is_refused() {
    let text = Pubkey { bytes: [9u8; 32] }.to_string();
    for payer in [format!("1{text}"), format!(" {text}"), format!("{text}1")] {
        let refused = proof_from_response(ProofResponse {
            payer,
            ..response()
        });
        assert!(matches!(refused, Err(IpProofError::Malformed(_))));
    }
}

#[test]
fn a_proof_survives_its_wire_form() {
    for bytes in [[0u8; 64], [7u8; 64], [255u8; 64]] {
        let proof = IpOwnershipProof {
            version: 2,
            payer: payer(),
            client_ip: Ipv4Addr::new(198, 51, 100, 3),
            epoch: 77,
            user_type: 3,
            signature: bytes,
        };
        let wire = wire_form(&proof);
        assert_eq!(wire.payer, payer().to_string());
        assert_eq!(wire.signature, Signature::from(bytes).to_string());
        let back = proof_from_response(wire).unwrap();
        assert_eq!(back.version, 2);
        assert_eq!(back.payer, payer());
        assert_eq!(back.client_ip, Ipv4Addr::new(198, 51, 100, 3));
        assert_eq!(back.epoch, 77);
        assert_eq!(back.user_type, 3);
        assert_eq!(back.signature, bytes);
    }
}

#[test]
fn text_of_the_wrong_length_never_becomes_a_proof() {
    for payer in ["".to_string(), "1".repeat(31), "1".repeat(33), "2".repeat(45)] {
        assert!(proof_from_response(ProofResponse { payer, ..response() }).is_err());
    }
    for signature in ["1".repeat(32), "1".repeat(63), "1".repeat(65), "2".repeat(89)] {
        assert!(proof_from_response(ProofResponse { signature, ..response() }).is_err());
    }
}

#[test]
fn a_number_that_does_not_fit_is_malformed() {
    let body = proof_body().replace("\"version\":1", "\"version\":300");
    let (outcome, seen) = drive(
        begin("http://verifier"),
        vec![Ok(())],
        vec![Ok((200, body.as_str()))],
    );
    assert!(matches!(outcome, Err(IpProofError::Malformed(_))));
    assert_eq!(seen.sent.len(), 1);
}

#[test]
fn text_that_is_not_base58_never_becomes_a_proof() {
    for bad in ['0', 'I', 'O', 'l', '-', ' ', '\u{e9}'] {
        let mut payer = response().payer;
        payer.pop();
        payer.push(bad);
        assert!(proof_from_response(ProofResponse { payer, ..response() }).is_err());
        let mut signature = response().signature;
        signature.pop();
        signature.push(bad);
        assert!(proof_from_response(ProofResponse { signature, ..response() }).is_err());
    }
}

#[test]
fn a_proof_is_assembled_from_its_parts() {
    let proof = assemble_proof(response(), Ok([3u8; 32]), Ok([4u8; 64])).unwrap();
    assert_eq!(proof.payer, Pubkey { bytes: [3u8; 32] });
    assert_eq!(proof.signature, [4u8; 64]);
    assert_eq!(proof.epoch, 931);

    let payer = response().payer;
    let refused = assemble_proof(response(), Err("a".to_string()), Err("b".to_string()));
    match refused {
        Err(IpProofError::Malformed(text)) => assert_eq!(text, format!("payer '{payer}': a")),
        other => panic!("{other:?}"),
    }
}

#[test]
fn a_refusal_without_the_services_words_gives_the_status_and_the_body() {
    let (err, retryable) = classify(502, "\n  <html>bad gateway</html>\t ");
    assert!(retryable);
    match err {
        IpProofError::Declined { reason, message } => {
            assert_eq!(reason, "http_502");
            assert_eq!(message, "<html>bad gateway</html>");
        }
        other => panic!("{other:?}"),
    }
}

#[test]
fn a_refusal_keeps_two_hundred_characters_of_the_body() {
    let body = format!("  {}", "\u{e9}".repeat(300));
    let (err, retryable) = classify(404, &body);
    assert!(!retryable);
    match err {
        IpProofError::Declined { reason, message } => {
            assert_eq!(reason, "http_404");
            assert_eq!(message, "\u{e9}".repeat(200));
        }
        other => panic!("{other:?}"),
    }
}

#[test]
fn statuses_fall_into_their_classes() {
    for status in 100..1000u16 {
        let code = reqwest::StatusCode::from_u16(status).unwrap();
        assert_eq!(is_success(status), code.is_success());
        assert_eq!(is_server_error(status), code.is_server_error());
        assert_eq!(classify(status, "").1, code.is_server_error());
    }
}

#[test]
fn an_unreadable_success_answer_is_malformed_and_final() {
    let (outcome, seen) = drive(
        begin("http://verifier"),
        vec![Ok(())],
        vec![Ok((200, " not json \n"))],
    );
    match outcome {
        Err(IpProofError::Malformed(text)) => {
            assert!(text.ends_with(" (body: not json)"), "{text}")
        }
        other => panic!("{other:?}"),
    }
    assert_eq!(seen.sent.len(), 1);

    match read_success("x ", Err("expected value".to_string())) {
        Err((err, retryable)) => {
            assert!(!retryable);
            assert_eq!(
                err.to_string(),
                "could not read the proof the verification service returned: expected value (body: x)"
            );
        }
        Ok(proof) => panic!("{proof:?}"),
    }
}

#[test]
fn a_missing_answer_is_retried_and_the_last_complaint_is_reported() {
    let (outcome, seen) = drive(
        begin("http://verifier"),
        vec![Ok(())],
        vec![Err("connection refused"), Err("timed out")],
    );
    let err = outcome.unwrap_err();
    assert!(matches!(err, IpProofError::Unreachable { .. }));
    assert_eq!(
        err.to_string(),
        "could not reach the IP ownership verification service at http://verifier/v1/proof: timed out"
    );
    assert_eq!(seen.sent.len() as u32, MAX_ATTEMPTS);
    assert_eq!(seen.pauses.len(), 1);
}

#[test]
fn two_server_errors_report_the_second() {
    let (outcome, seen) = drive(
        begin("http://verifier"),
        vec![Ok(())],
        vec![Ok((503, "first")), Ok((500, "second"))],
    );
    match outcome {
        Err(IpProofError::Declined { reason, message }) => {
            assert_eq!(reason, "http_500");
            assert_eq!(message, "second");
        }
        other => panic!("{other:?}"),
    }
    assert_eq!(seen.sent.len(), 2);
}

#[test]
fn every_attempt_sends_the_same_request() {
    let (_, seen) = drive(
        begin("http://verifier//"),
        vec![Ok(())],
        vec![Err("reset"), Err("reset")],
    );
    let sent = |number: u32| {
        (
            "http://verifier/v1/proof".to_string(),
            payer().to_string(),
            IBRL,
            true,
            number,
        )
    };
    assert_eq!(seen.sent, vec![sent(1), sent(2)]);
    assert_eq!(seen.binds, vec![Some(Ipv4Addr::new(127, 0, 0, 1))]);
}

#[test]
fn a_failed_bind_falls_back_to_an_unbound_client() {
    let body = proof_body();
    let (outcome, seen) = drive(
        begin("http://verifier"),
        vec![Err("cannot assign requested address"), Ok(())],
        vec![Ok((200, body.as_str()))],
    );
    assert!(outcome.is_ok());
    assert_eq!(seen.binds, vec![Some(Ipv4Addr::new(127, 0, 0, 1)), None]);
    assert!(!seen.sent[0].3);
}

#[test]
fn a_retry_is_bound_as_the_first_attempt_was() {
    for (builds, bound) in [(vec![Ok(())], true), (vec![Err("no bind"), Ok(())], false)] {
        let (_, seen) = drive(
            begin("http://verifier"),
            builds,
            vec![Ok((500, "")), Ok((500, ""))],
        );
        assert_eq!(seen.sent.len(), 2);
        assert!(seen.sent.iter().all(|sent| sent.3 == bound));
        assert_eq!(seen.pauses.len(), 1);
    }
}

#[test]
fn a_client_that_cannot_be_built_at_all_is_unreachable() {
    let (outcome, seen) = drive(
        begin("http://verifier"),
        vec![Err("no bind"), Err("no tls")],
        vec![],
    );
    match outcome {
        Err(IpProofError::Unreachable { url, detail }) => {
            assert_eq!(url, "http://verifier/v1/proof");
            assert_eq!(detail, "could not build an HTTP client: no tls");
        }
        other => panic!("{other:?}"),
    }
    assert!(seen.sent.is_empty());
}

#[test]
fn slashes_at_the_end_of_the_base_url_are_dropped() {
    for base in ["http://verifier/x", "http://verifier/x/", "http://verifier/x///"] {
        let client = HttpIpProofClient::new(Some(base.to_string()));
        match client.begin("P".to_string(), 3, Ipv4Addr::new(1, 2, 3, 4)) {
            Exchange::BuildClient(due) => {
                assert_eq!(due.request.url, "http://verifier/x/v1/proof");
                assert_eq!(due.request.body.payer, "P");
                assert_eq!(due.request.body.user_type, 3);
                assert_eq!(due.local_address, Some(Ipv4Addr::new(1, 2, 3, 4)));
            }
            other => panic!("{other:?}"),
        }
    }
    let client = HttpIpProofClient::new(Some("///".to_string()));
    match client.begin("P".to_string(), 3, Ipv4Addr::new(1, 2, 3, 4)) {
        Exchange::BuildClient(due) => assert_eq!(due.request.url, "/v1/proof"),
        other => panic!("{other:?}"),
    }
}

#[test]
fn the_whole_budget_is_two_requests_and_a_pause() {
    assert_eq!(MAX_ATTEMPTS, 2);
    assert_eq!(REQUEST_TIMEOUT_MS, 2500);
    assert_eq!(CONNECT_TIMEOUT_MS, 1000);
    assert_eq!(RETRY_DELAY_MS, 250);
}
