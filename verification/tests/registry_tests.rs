use paylink::error::ErrorKind;
use paylink::error::LinkError;
use paylink::links::CancelPaymentLinkRequest;
use paylink::links::ClaimPaymentLinkRequest;
use paylink::links::CreatePaymentLinkRequest;
use paylink::links::GenerateClaimProofRequest;
use paylink::links::ListPaymentLinksQuery;
use paylink::links::PaymentLinkStatus;
use paylink::links::ValidatePaymentLinkRequest;
use paylink::registry::PaymentLinkRegistry;
use paylink::service::cancel_payment_link;
use paylink::service::claim_payment_link;
use paylink::service::create_payment_link;
use paylink::service::generate_claim_proof;
use paylink::service::get_payment_link;
use paylink::service::list_payment_links;
use paylink::service::validate_payment_link;
use paylink::validator::effective_status;
use paylink::validator::is_expired;
use paylink::validator::is_owner;
use paylink::validator::params_match;

const NOW: u64 = 1_700_000_000_000;

fn request(id: &str, amount: u64, recipient: &str, expires_at: u64) -> CreatePaymentLinkRequest {
    CreatePaymentLinkRequest {
        payment_id: id.to_string(),
        amount_cents: amount,
        currency: None,
        recipient: recipient.to_string(),
        recipient_name: None,
        note: None,
        expires_at,
        signature: "sig".to_string(),
        version: None,
    }
}

fn candidate(amount: u64, recipient: &str, expires_at: u64) -> ValidatePaymentLinkRequest {
    ValidatePaymentLinkRequest {
        amount_cents: amount,
        currency: None,
        recipient: recipient.to_string(),
        expires_at,
        signature: None,
    }
}

fn claim_by(who: &str) -> ClaimPaymentLinkRequest {
    ClaimPaymentLinkRequest {
        claimer_address: who.to_string(),
        claimer_public_key: None,
        proof: None,
    }
}

fn cancel_by(who: &str) -> CancelPaymentLinkRequest {
    CancelPaymentLinkRequest { signature: "sig".to_string(), recipient: who.to_string() }
}

fn query() -> ListPaymentLinksQuery {
    ListPaymentLinksQuery { address: None, status: None, link_type: None, limit: None, offset: None }
}

fn ids(links: &Vec<paylink::links::PaymentLink>) -> Vec<String> {
    links.iter().map(|l| l.payment_id.clone()).collect()
}

#[test]
fn link_life_from_creation_to_claim() {
    let mut registry = PaymentLinkRegistry::new();
    let expires_at = NOW + 3_600_000;

    let created = create_payment_link(&mut registry, request("pay-1", 500, "alice", expires_at), NOW);
    assert_eq!(created.status, 201);
    assert!(created.body.success);
    assert_eq!(created.body.payment_id, "pay-1");
    assert_eq!(created.body.message, "Payment link created successfully");
    let link = get_payment_link(&registry, "pay-1", NOW).unwrap();
    assert_eq!(link.status, PaymentLinkStatus::Pending);
    assert_eq!(link.amount_cents, 500);
    assert_eq!(link.recipient, "alice");
    assert_eq!(link.claimed_by, None);
    assert_eq!(link.claimed_at, None);

    let checked = validate_payment_link(&registry, "pay-1", &candidate(500, "alice", expires_at), NOW);
    assert_eq!(checked.status, 200);
    assert!(checked.body.valid);
    assert_eq!(checked.body.status, PaymentLinkStatus::Pending);
    assert!(!checked.body.is_expired);
    assert_eq!(checked.body.message, "Payment link is valid");

    let claimed = claim_payment_link(&mut registry, "pay-1", claim_by("bob"), NOW + 5);
    assert_eq!(claimed.status, 200);
    assert!(claimed.body.success);
    assert_eq!(claimed.body.amount_cents, 500);
    assert_eq!(claimed.body.transaction_id, Some("tx_pay-1".to_string()));
    assert_eq!(claimed.body.message, "Payment claimed successfully");
    let link = get_payment_link(&registry, "pay-1", NOW + 6).unwrap();
    assert_eq!(link.status, PaymentLinkStatus::Claimed);
    assert_eq!(link.claimed_by, Some("bob".to_string()));
    assert_eq!(link.claimed_at, Some(NOW + 5));

    let again = claim_payment_link(&mut registry, "pay-1", claim_by("carol"), NOW + 7);
    assert_eq!(again.status, 400);
    assert!(!again.body.success);
    assert_eq!(again.body.amount_cents, 500);
    assert_eq!(again.body.transaction_id, None);
    assert!(again.body.message.contains("Claimed"));
    assert_eq!(again.body.message, "Payment link is already Claimed");
    let link = get_payment_link(&registry, "pay-1", NOW + 8).unwrap();
    assert_eq!(link.claimed_by, Some("bob".to_string()));

    let cancelled = cancel_payment_link(&mut registry, "pay-1", &cancel_by("alice"));
    assert_eq!(cancelled.status, 400);
    assert!(!cancelled.body.success);
    assert_eq!(cancelled.body.message, "Cannot cancel a claimed payment link");
    let link = get_payment_link(&registry, "pay-1", NOW + 9).unwrap();
    assert_eq!(link.status, PaymentLinkStatus::Claimed);
}

#[test]
fn create_fills_in_defaults() {
    let mut registry = PaymentLinkRegistry::new();
    assert_eq!(registry.len(), 0);
    let id = registry.create(request("a", 1, "alice", NOW + 1), NOW).unwrap();
    assert_eq!(id, "a");
    assert_eq!(registry.len(), 1);
    assert!(registry.contains("a"));
    assert!(!registry.contains("b"));
    let link = registry.get("a", NOW).unwrap();
    assert_eq!(link.currency, "USD");
    assert_eq!(link.version, 1);
    assert_eq!(link.created_at, NOW);
    assert_eq!(link.expires_at, NOW + 1);
    assert_eq!(link.signature, "sig");
    assert_eq!(link.status, PaymentLinkStatus::Pending);
}

#[test]
fn create_keeps_what_the_request_names() {
    let mut registry = PaymentLinkRegistry::new();
    let req = CreatePaymentLinkRequest {
        payment_id: "a".to_string(),
        amount_cents: 42,
        currency: Some("EUR".to_string()),
        recipient: "alice".to_string(),
        recipient_name: Some("Alice".to_string()),
        note: Some("lunch".to_string()),
        expires_at: NOW + 10,
        signature: "s".to_string(),
        version: Some(3),
    };
    registry.create(req, NOW).unwrap();
    let link = registry.get("a", NOW).unwrap();
    assert_eq!(link.currency, "EUR");
    assert_eq!(link.recipient_name, Some("Alice".to_string()));
    assert_eq!(link.note, Some("lunch".to_string()));
    assert_eq!(link.version, 3);
    assert_eq!(registry.amount_of("a"), Some(42));
    assert_eq!(registry.amount_of("b"), None);
}

#[test]
fn create_rejects_expiry_not_in_the_future() {
    let mut registry = PaymentLinkRegistry::new();
    assert_eq!(registry.create(request("a", 1, "alice", NOW), NOW), Err(LinkError::AlreadyExpired));
    assert_eq!(
        registry.create(request("a", 1, "alice", NOW - 1), NOW),
        Err(LinkError::AlreadyExpired)
    );
    assert_eq!(registry.len(), 0);
    let reply = create_payment_link(&mut registry, request("a", 1, "alice", NOW), NOW);
    assert_eq!(reply.status, 400);
    assert!(!reply.body.success);
    assert_eq!(reply.body.payment_id, "a");
    assert_eq!(reply.body.message, "Payment link already expired");
    assert!(registry.create(request("a", 1, "alice", NOW + 1), NOW).is_ok());
}

#[test]
fn create_rejects_taken_identifier() {
    let mut registry = PaymentLinkRegistry::new();
    registry.create(request("a", 1, "alice", NOW + 10), NOW).unwrap();
    assert_eq!(
        registry.create(request("a", 2, "bob", NOW + 20), NOW),
        Err(LinkError::AlreadyExists)
    );
    let reply = create_payment_link(&mut registry, request("a", 2, "bob", NOW + 20), NOW);
    assert_eq!(reply.status, 409);
    assert!(!reply.body.success);
    assert_eq!(reply.body.message, "Payment link already exists");
    assert_eq!(registry.len(), 1);
    let link = registry.get("a", NOW).unwrap();
    assert_eq!(link.amount_cents, 1);
    assert_eq!(link.recipient, "alice");
}

#[test]
fn create_checks_expiry_before_identifier() {
    let mut registry = PaymentLinkRegistry::new();
    registry.create(request("a", 1, "alice", NOW + 10), NOW).unwrap();
    assert_eq!(registry.create(request("a", 1, "alice", NOW), NOW), Err(LinkError::AlreadyExpired));
}

#[test]
fn get_unknown_link_is_not_found() {
    let registry = PaymentLinkRegistry::new();
    assert_eq!(registry.get("nope", NOW).err(), Some(LinkError::NotFound));
    let report = get_payment_link(&registry, "nope", NOW).err().unwrap();
    assert_eq!(report.kind, ErrorKind::NotFound);
    assert_eq!(report.status, 404);
    assert_eq!(report.message, "Payment link not found");
}

#[test]
fn pending_link_reads_expired_after_its_time() {
    let mut registry = PaymentLinkRegistry::new();
    registry.create(request("a", 1, "alice", NOW + 10), NOW).unwrap();
    assert_eq!(registry.get("a", NOW + 10).unwrap().status, PaymentLinkStatus::Pending);
    assert_eq!(registry.get("a", NOW + 11).unwrap().status, PaymentLinkStatus::Expired);
    let late = registry.get("a", NOW + 11).unwrap();
    assert_eq!(late.claimed_by, None);
    assert_eq!(late.claimed_at, None);
    // Reading changes nothing: an earlier clock still sees the link pending.
    assert_eq!(registry.get("a", NOW + 5).unwrap().status, PaymentLinkStatus::Pending);
}

#[test]
fn claimed_link_stays_claimed_after_its_time() {
    let mut registry = PaymentLinkRegistry::new();
    registry.create(request("a", 1, "alice", NOW + 10), NOW).unwrap();
    registry.claim("a", "bob".to_string(), NOW + 1).unwrap();
    let link = registry.get("a", NOW + 100).unwrap();
    assert_eq!(link.status, PaymentLinkStatus::Claimed);
    assert_eq!(link.claimed_by, Some("bob".to_string()));
    assert_eq!(
        registry.claim("a", "carol".to_string(), NOW + 100).err(),
        Some(LinkError::NotPending(PaymentLinkStatus::Claimed))
    );
    assert_eq!(registry.get("a", NOW + 100).unwrap().claimed_by, Some("bob".to_string()));
}

#[test]
fn claim_of_expired_link_fails_and_changes_nothing() {
    let mut registry = PaymentLinkRegistry::new();
    registry.create(request("a", 9, "alice", NOW + 10), NOW).unwrap();
    assert_eq!(
        registry.claim("a", "bob".to_string(), NOW + 11).err(),
        Some(LinkError::NotPending(PaymentLinkStatus::Expired))
    );
    let reply = claim_payment_link(&mut registry, "a", claim_by("bob"), NOW + 11);
    assert_eq!(reply.status, 400);
    assert!(!reply.body.success);
    assert_eq!(reply.body.amount_cents, 9);
    assert_eq!(reply.body.message, "Payment link has expired");
    // The stored link is still pending: a claim at its last moment goes through.
    let receipt = registry.claim("a", "bob".to_string(), NOW + 10).unwrap();
    assert_eq!(receipt.amount_cents, 9);
    assert_eq!(receipt.transaction_id, "tx_a");
}

#[test]
fn claim_of_unknown_link_is_not_found() {
    let mut registry = PaymentLinkRegistry::new();
    assert_eq!(registry.claim("a", "bob".to_string(), NOW).err(), Some(LinkError::NotFound));
    let reply = claim_payment_link(&mut registry, "a", claim_by("bob"), NOW);
    assert_eq!(reply.status, 404);
    assert!(!reply.body.success);
    assert_eq!(reply.body.amount_cents, 0);
    assert_eq!(reply.body.transaction_id, None);
    assert_eq!(reply.body.message, "Payment link not found");
}

#[test]
fn of_many_claims_exactly_one_wins() {
    let mut registry = PaymentLinkRegistry::new();
    registry.create(request("a", 1, "alice", NOW + 10), NOW).unwrap();
    registry.create(request("b", 2, "alice", NOW + 10), NOW).unwrap();
    let claimers = ["bob", "carol", "dave", "erin"];
    let mut wins = 0;
    let mut conflicts = 0;
    for who in claimers {
        match registry.claim("a", who.to_string(), NOW + 1) {
            Ok(_) => wins += 1,
            Err(LinkError::NotPending(PaymentLinkStatus::Claimed)) => conflicts += 1,
            Err(other) => panic!("unexpected failure {:?}", other),
        }
    }
    assert_eq!(wins, 1);
    assert_eq!(conflicts, 3);
    let link = registry.get("a", NOW + 2).unwrap();
    assert_eq!(link.claimed_by, Some("bob".to_string()));
    assert_eq!(link.claimed_at, Some(NOW + 1));
    assert_eq!(registry.get("b", NOW + 2).unwrap().status, PaymentLinkStatus::Pending);
}

#[test]
fn cancel_by_another_identity_always_fails() {
    let mut registry = PaymentLinkRegistry::new();
    registry.create(request("pending", 1, "alice", NOW + 10), NOW).unwrap();
    registry.create(request("claimed", 1, "alice", NOW + 10), NOW).unwrap();
    registry.create(request("cancelled", 1, "alice", NOW + 10), NOW).unwrap();
    registry.claim("claimed", "bob".to_string(), NOW).unwrap();
    registry.cancel("cancelled", "alice").unwrap();
    for id in ["pending", "claimed", "cancelled"] {
        let before = registry.get(id, NOW).unwrap().status;
        assert_eq!(registry.cancel(id, "mallory"), Err(LinkError::NotRecipient));
        assert_eq!(registry.cancel(id, "bob"), Err(LinkError::NotRecipient));
        assert_eq!(registry.get(id, NOW).unwrap().status, before);
    }
    let reply = cancel_payment_link(&mut registry, "pending", &cancel_by("mallory"));
    assert_eq!(reply.status, 403);
    assert!(!reply.body.success);
    assert_eq!(reply.body.message, "Only the creator can cancel this payment link");
}

#[test]
fn cancel_by_recipient() {
    let mut registry = PaymentLinkRegistry::new();
    registry.create(request("a", 1, "alice", NOW + 10), NOW).unwrap();
    let reply = cancel_payment_link(&mut registry, "a", &cancel_by("alice"));
    assert_eq!(reply.status, 200);
    assert!(reply.body.success);
    assert_eq!(reply.body.message, "Payment link cancelled successfully");
    let link = registry.get("a", NOW).unwrap();
    assert_eq!(link.status, PaymentLinkStatus::Cancelled);
    assert_eq!(link.claimed_by, None);
    assert_eq!(
        registry.claim("a", "bob".to_string(), NOW).err(),
        Some(LinkError::NotPending(PaymentLinkStatus::Cancelled))
    );
    let reply = claim_payment_link(&mut registry, "a", claim_by("bob"), NOW);
    assert_eq!(reply.body.message, "Payment link is already Cancelled");
    assert_eq!(registry.cancel("a", "alice"), Ok(()));
    assert_eq!(registry.get("a", NOW).unwrap().status, PaymentLinkStatus::Cancelled);
}

#[test]
fn cancel_of_unknown_or_claimed_link() {
    let mut registry = PaymentLinkRegistry::new();
    assert_eq!(registry.cancel("a", "alice"), Err(LinkError::NotFound));
    let reply = cancel_payment_link(&mut registry, "a", &cancel_by("alice"));
    assert_eq!(reply.status, 404);
    registry.create(request("a", 1, "alice", NOW + 10), NOW).unwrap();
    registry.claim("a", "bob".to_string(), NOW).unwrap();
    assert_eq!(registry.cancel("a", "alice"), Err(LinkError::AlreadyClaimed));
}

#[test]
fn cancel_of_link_past_its_time() {
    let mut registry = PaymentLinkRegistry::new();
    registry.create(request("a", 1, "alice", NOW + 10), NOW).unwrap();
    assert_eq!(registry.get("a", NOW + 11).unwrap().status, PaymentLinkStatus::Expired);
    assert_eq!(registry.cancel("a", "alice"), Ok(()));
    assert_eq!(registry.get("a", NOW + 11).unwrap().status, PaymentLinkStatus::Cancelled);
}

#[test]
fn validate_reports_mismatch_first() {
    let mut registry = PaymentLinkRegistry::new();
    registry.create(request("a", 500, "alice", NOW + 10), NOW).unwrap();
    for wrong in [
        candidate(501, "alice", NOW + 10),
        candidate(500, "bob", NOW + 10),
        candidate(500, "alice", NOW + 11),
    ] {
        let reply = validate_payment_link(&registry, "a", &wrong, NOW + 20);
        assert_eq!(reply.status, 400);
        assert!(!reply.body.valid);
        assert!(reply.body.is_expired);
        assert_eq!(reply.body.status, PaymentLinkStatus::Expired);
        assert_eq!(reply.body.message, "Payment link parameters do not match");
    }
    let report = registry.validate("a", &candidate(501, "alice", NOW + 10), NOW).unwrap();
    assert!(!report.params_match);
    assert!(!report.is_expired);
    assert_eq!(report.status, PaymentLinkStatus::Pending);
    assert!(!report.valid());
}

#[test]
fn validate_reports_expiry_and_status() {
    let mut registry = PaymentLinkRegistry::new();
    registry.create(request("a", 500, "alice", NOW + 10), NOW).unwrap();
    let good = candidate(500, "alice", NOW + 10);

    let late = validate_payment_link(&registry, "a", &good, NOW + 11);
    assert_eq!(late.status, 200);
    assert!(!late.body.valid);
    assert!(late.body.is_expired);
    assert_eq!(late.body.status, PaymentLinkStatus::Expired);
    assert_eq!(late.body.message, "Payment link has expired");

    registry.claim("a", "bob".to_string(), NOW + 1).unwrap();
    let taken = validate_payment_link(&registry, "a", &good, NOW + 2);
    assert_eq!(taken.status, 200);
    assert!(!taken.body.valid);
    assert!(!taken.body.is_expired);
    assert_eq!(taken.body.status, PaymentLinkStatus::Claimed);
    assert_eq!(taken.body.message, "Payment link is Claimed");

    let taken_late = validate_payment_link(&registry, "a", &good, NOW + 11);
    assert!(!taken_late.body.valid);
    assert!(taken_late.body.is_expired);
    assert_eq!(taken_late.body.status, PaymentLinkStatus::Claimed);
    assert_eq!(taken_late.body.message, "Payment link has expired");
}

#[test]
fn validate_unknown_link() {
    let registry = PaymentLinkRegistry::new();
    assert_eq!(
        registry.validate("a", &candidate(1, "alice", NOW), NOW).err(),
        Some(LinkError::NotFound)
    );
    let reply = validate_payment_link(&registry, "a", &candidate(1, "alice", NOW), NOW);
    assert_eq!(reply.status, 404);
    assert!(!reply.body.valid);
    assert!(!reply.body.is_expired);
    assert_eq!(reply.body.status, PaymentLinkStatus::Failed);
    assert_eq!(reply.body.message, "Payment link not found");
}

#[test]
fn validator_checks() {
    let mut registry = PaymentLinkRegistry::new();
    registry.create(request("a", 500, "alice", NOW + 10), NOW).unwrap();
    let link = registry.get("a", NOW).unwrap();
    assert!(!is_expired(&link, NOW + 10));
    assert!(is_expired(&link, NOW + 11));
    assert_eq!(effective_status(&link, NOW + 10), PaymentLinkStatus::Pending);
    assert_eq!(effective_status(&link, NOW + 11), PaymentLinkStatus::Expired);
    assert!(is_owner(&link, "alice"));
    assert!(!is_owner(&link, "bob"));
    assert!(params_match(&link, &candidate(500, "alice", NOW + 10)));
    assert!(!params_match(&link, &candidate(500, "alice", NOW + 9)));
    let copy = link.duplicate();
    assert_eq!(copy.payment_id, "a");
    assert_eq!(copy.amount_cents, 500);
    assert_eq!(copy.recipient, "alice");
}

#[test]
fn status_names() {
    let all = [
        (PaymentLinkStatus::Pending, "pending", "Pending"),
        (PaymentLinkStatus::Claimed, "claimed", "Claimed"),
        (PaymentLinkStatus::Expired, "expired", "Expired"),
        (PaymentLinkStatus::Cancelled, "cancelled", "Cancelled"),
        (PaymentLinkStatus::Failed, "failed", "Failed"),
    ];
    for (status, wire, label) in all {
        assert_eq!(status.as_str(), wire);
        assert_eq!(status.debug_name(), label);
    }
}

#[test]
fn link_error_kinds_statuses_and_messages() {
    let cases = [
        (LinkError::NotFound, ErrorKind::NotFound, 404, "Payment link not found"),
        (LinkError::AlreadyExists, ErrorKind::StateConflict, 409, "Payment link already exists"),
        (LinkError::AlreadyExpired, ErrorKind::Validation, 400, "Payment link already expired"),
        (
            LinkError::NotPending(PaymentLinkStatus::Expired),
            ErrorKind::StateConflict,
            400,
            "Payment link has expired",
        ),
        (
            LinkError::NotPending(PaymentLinkStatus::Claimed),
            ErrorKind::StateConflict,
            400,
            "Payment link is already Claimed",
        ),
        (
            LinkError::NotRecipient,
            ErrorKind::Authorization,
            403,
            "Only the creator can cancel this payment link",
        ),
        (
            LinkError::AlreadyClaimed,
            ErrorKind::StateConflict,
            400,
            "Cannot cancel a claimed payment link",
        ),
    ];
    for (err, kind, status, message) in cases {
        assert_eq!(err.kind(), kind);
        assert_eq!(err.status_code(), status);
        assert_eq!(err.message(), message);
    }
}

#[test]
fn claim_proof_for_pending_link_only() {
    let mut registry = PaymentLinkRegistry::new();
    registry.create(request("a", 1, "alice", NOW + 10), NOW).unwrap();
    let req = GenerateClaimProofRequest {
        claimer_address: "bob".to_string(),
        claimer_secret_key: None,
        amount_cents: 1,
    };
    let reply = generate_claim_proof(&registry, "a", &req, NOW + 3);
    assert_eq!(reply.status, 200);
    assert!(reply.body.success);
    assert_eq!(reply.body.proof, Some(format!("zkproof_a_{}", NOW + 3)));
    assert_eq!(reply.body.message, "Proof generated successfully");

    let late = generate_claim_proof(&registry, "a", &req, NOW + 11);
    assert_eq!(late.status, 400);
    assert!(!late.body.success);
    assert_eq!(late.body.proof, None);
    assert_eq!(late.body.message, "Cannot generate proof for Expired payment link");

    registry.claim("a", "bob".to_string(), NOW + 4).unwrap();
    let taken = generate_claim_proof(&registry, "a", &req, NOW + 5);
    assert_eq!(taken.status, 400);
    assert_eq!(taken.body.message, "Cannot generate proof for Claimed payment link");
    assert_eq!(
        registry.claim_proof("a", NOW + 5).err(),
        Some(LinkError::NotPending(PaymentLinkStatus::Claimed))
    );

    let unknown = generate_claim_proof(&registry, "zz", &req, NOW);
    assert_eq!(unknown.status, 404);
    assert_eq!(unknown.body.proof, None);
    assert_eq!(unknown.body.message, "Payment link not found");
}

#[test]
fn list_orders_newest_first() {
    let mut registry = PaymentLinkRegistry::new();
    registry.create(request("old", 1, "alice", NOW + 100), NOW + 1).unwrap();
    registry.create(request("new", 1, "alice", NOW + 100), NOW + 3).unwrap();
    registry.create(request("mid-a", 1, "alice", NOW + 100), NOW + 2).unwrap();
    registry.create(request("mid-b", 1, "alice", NOW + 100), NOW + 2).unwrap();
    let all = list_payment_links(&registry, &query(), NOW + 4);
    assert_eq!(ids(&all), vec!["new", "mid-a", "mid-b", "old"]);
    let times: Vec<u64> = all.iter().map(|l| l.created_at).collect();
    assert_eq!(times, vec![NOW + 3, NOW + 2, NOW + 2, NOW + 1]);
}

#[test]
fn list_pages() {
    let mut registry = PaymentLinkRegistry::new();
    for i in 0..60u64 {
        registry.create(request(&format!("pay-{}", i), i, "alice", NOW + 1000), NOW + i).unwrap();
    }
    let first = registry.list(&query(), NOW + 100);
    assert_eq!(first.len(), 50);
    assert_eq!(first[0].payment_id, "pay-59");
    assert_eq!(first[49].payment_id, "pay-10");

    let mut q = query();
    q.offset = Some(50);
    let rest = registry.list(&q, NOW + 100);
    assert_eq!(rest.len(), 10);
    assert_eq!(rest[0].payment_id, "pay-9");
    assert_eq!(rest[9].payment_id, "pay-0");

    q.offset = Some(58);
    q.limit = Some(5);
    assert_eq!(ids(&registry.list(&q, NOW + 100)), vec!["pay-1", "pay-0"]);
    q.offset = Some(60);
    assert_eq!(registry.list(&q, NOW + 100).len(), 0);
    q.offset = Some(u32::MAX);
    q.limit = Some(u32::MAX);
    assert_eq!(registry.list(&q, NOW + 100).len(), 0);
    q.offset = Some(3);
    q.limit = Some(0);
    assert_eq!(registry.list(&q, NOW + 100).len(), 0);
    q.offset = None;
    q.limit = Some(2);
    assert_eq!(ids(&registry.list(&q, NOW + 100)), vec!["pay-59", "pay-58"]);
    q.limit = Some(u32::MAX);
    assert_eq!(registry.list(&q, NOW + 100).len(), 60);
}

#[test]
fn list_filters_by_address_status_and_role() {
    let mut registry = PaymentLinkRegistry::new();
    registry.create(request("a1", 1, "alice", NOW + 100), NOW + 1).unwrap();
    registry.create(request("a2", 1, "alice", NOW + 5), NOW + 2).unwrap();
    registry.create(request("b1", 1, "bob", NOW + 100), NOW + 3).unwrap();
    registry.create(request("c1", 1, "carol", NOW + 100), NOW + 4).unwrap();
    registry.claim("b1", "alice".to_string(), NOW + 4).unwrap();
    registry.cancel("c1", "carol").unwrap();
    let at = NOW + 10;

    let mut q = query();
    q.address = Some("alice".to_string());
    assert_eq!(ids(&registry.list(&q, at)), vec!["b1", "a2", "a1"]);

    q.link_type = Some("sent".to_string());
    assert_eq!(ids(&registry.list(&q, at)), vec!["a2", "a1"]);
    q.link_type = Some("received".to_string());
    assert_eq!(ids(&registry.list(&q, at)), vec!["b1"]);
    q.link_type = Some("other".to_string());
    assert_eq!(ids(&registry.list(&q, at)), vec!["b1", "a2", "a1"]);

    q.link_type = None;
    q.status = Some("expired".to_string());
    let expired = registry.list(&q, at);
    assert_eq!(ids(&expired), vec!["a2"]);
    assert_eq!(expired[0].status, PaymentLinkStatus::Expired);
    q.status = Some("pending".to_string());
    assert_eq!(ids(&registry.list(&q, at)), vec!["a1"]);
    q.status = Some("claimed".to_string());
    assert_eq!(ids(&registry.list(&q, at)), vec!["b1"]);
    q.status = Some("Pending".to_string());
    assert_eq!(registry.list(&q, at).len(), 0);

    let mut by_status = query();
    by_status.status = Some("cancelled".to_string());
    assert_eq!(ids(&registry.list(&by_status, at)), vec!["c1"]);
    by_status.status = Some("failed".to_string());
    assert_eq!(registry.list(&by_status, at).len(), 0);

    // A role without an address filters nothing.
    let mut role_only = query();
    role_only.link_type = Some("sent".to_string());
    assert_eq!(registry.list(&role_only, at).len(), 4);
}

#[test]
fn list_shows_links_as_they_read_now() {
    let mut registry = PaymentLinkRegistry::new();
    registry.create(request("a", 1, "alice", NOW + 5), NOW).unwrap();
    assert_eq!(registry.list(&query(), NOW + 5)[0].status, PaymentLinkStatus::Pending);
    assert_eq!(registry.list(&query(), NOW + 6)[0].status, PaymentLinkStatus::Expired);
    assert_eq!(registry.list(&query(), NOW + 5)[0].status, PaymentLinkStatus::Pending);
}

#[test]
fn claimer_recorded_exactly_on_claimed_links() {
    let mut registry = PaymentLinkRegistry::new();
    registry.create(request("pending", 1, "alice", NOW + 10), NOW).unwrap();
    registry.create(request("claimed", 1, "alice", NOW + 10), NOW).unwrap();
    registry.create(request("cancelled", 1, "alice", NOW + 10), NOW).unwrap();
    registry.create(request("expired", 1, "alice", NOW + 1), NOW).unwrap();
    registry.claim("claimed", "bob".to_string(), NOW).unwrap();
    registry.cancel("cancelled", "alice").unwrap();
    let _ = registry.claim("expired", "bob".to_string(), NOW + 5);
    let _ = registry.cancel("claimed", "alice");
    let mut q = query();
    q.limit = Some(10);
    let all = registry.list(&q, NOW + 5);
    assert_eq!(all.len(), 4);
    for link in all {
        let claimed = link.status == PaymentLinkStatus::Claimed;
        assert_eq!(link.claimed_by.is_some(), claimed);
        assert_eq!(link.claimed_at.is_some(), claimed);
    }
}

#[test]
fn list_agrees_with_a_stable_sort() {
    let mut registry = PaymentLinkRegistry::new();
    let mut expected: Vec<(String, u64)> = Vec::new();
    let mut seed: u64 = 12345;
    for i in 0..200u64 {
        seed = seed.wrapping_mul(6364136223846793005).wrapping_add(1442695040888963407);
        let created = NOW + (seed >> 33) % 17;
        let id = format!("link-{}", i);
        registry.create(request(&id, i, "alice", NOW + 1000), created).unwrap();
        expected.push((id, created));
    }
    expected.sort_by(|a, b| b.1.cmp(&a.1));
    let mut q = query();
    q.limit = Some(1000);
    let listed = registry.list(&q, NOW + 20);
    let got: Vec<(String, u64)> =
        listed.iter().map(|l| (l.payment_id.clone(), l.created_at)).collect();
    assert_eq!(got, expected);

    q.offset = Some(37);
    q.limit = Some(41);
    let window = registry.list(&q, NOW + 20);
    let got: Vec<String> = window.iter().map(|l| l.payment_id.clone()).collect();
    let want: Vec<String> = expected[37..78].iter().map(|e| e.0.clone()).collect();
    assert_eq!(got, want);
}

#[test]
fn list_of_empty_registry_is_empty() {
    let registry = PaymentLinkRegistry::new();
    assert!(registry.list(&query(), NOW).is_empty());
    assert!(list_payment_links(&registry, &query(), NOW).is_empty());
}
