//! The link operations as the node answers them: each takes the registry,
//! the request and the current time, and returns the HTTP status together
//! with the response record.

use vstd::prelude::*;
use vstd::string::*;
use crate::error::ApiError;
use crate::error::ErrorKind;
use crate::error::LinkError;
use crate::error::STATUS_BAD_REQUEST;
use crate::error::STATUS_CREATED;
use crate::error::STATUS_NOT_FOUND;
use crate::error::STATUS_OK;
use crate::links::CancelPaymentLinkRequest;
use crate::links::CancelPaymentLinkResponse;
use crate::links::ClaimPaymentLinkRequest;
use crate::links::ClaimPaymentLinkResponse;
use crate::links::CreatePaymentLinkRequest;
use crate::links::CreatePaymentLinkResponse;
use crate::links::GenerateClaimProofRequest;
use crate::links::GenerateClaimProofResponse;
use crate::links::ListPaymentLinksQuery;
use crate::links::PaymentLink;
use crate::links::PaymentLinkStatus;
use crate::links::ValidatePaymentLinkRequest;
use crate::links::ValidatePaymentLinkResponse;
use crate::listing::listing;
use crate::listing::views;
use crate::registry::after_cancel;
use crate::registry::after_claim;
use crate::registry::amount_at;
use crate::registry::cancel_check;
use crate::registry::claim_check;
use crate::registry::claim_proof_text;
use crate::registry::create_check;
use crate::registry::has_id;
use crate::registry::new_link;
use crate::registry::position;
use crate::registry::registry_ok;
use crate::registry::report_for;
use crate::registry::transaction_ref;
use crate::registry::PaymentLinkRegistry;
use crate::registry::ValidationReport;
use crate::text::opt_text;
use crate::validator::claim_fields_consistent;
use crate::validator::observed;

verus! {

/// An answer: the HTTP status and the response record.
#[derive(Debug)]
pub struct Reply<T> {
    pub status: u16,
    pub body: T,
}

/// The HTTP status of a validation: a mismatch of the parameters is a bad
/// request, everything else is answered with success.
pub open spec fn validation_status(report: ValidationReport) -> u16 {
    if !report.params_match {
        STATUS_BAD_REQUEST
    } else {
        STATUS_OK
    }
}

/// The message of a validation. A mismatch of the parameters is reported
/// before an expiry, and an expiry before any other status that keeps the
/// link from being paid.
pub open spec fn validation_text(report: ValidationReport) -> Seq<char> {
    if !report.params_match {
        "Payment link parameters do not match"@
    } else if report.is_expired {
        "Payment link has expired"@
    } else if report.status != PaymentLinkStatus::Pending {
        "Payment link is "@ + report.status.label()
    } else {
        "Payment link is valid"@
    }
}

/// The message that refuses a claim proof for a link of the given status.
pub open spec fn no_proof_text(status: PaymentLinkStatus) -> Seq<char> {
    "Cannot generate proof for "@ + status.label() + " payment link"@
}

/// Creates a payment link.
///
/// Answers 201 where the link was stored, 400 where its expiry time is not
/// in the future, and 409 where its identifier is taken.
pub fn create_payment_link(
    registry: &mut PaymentLinkRegistry,
    req: CreatePaymentLinkRequest,
    now: u64,
) -> (reply: Reply<CreatePaymentLinkResponse>)
    ensures
        registry_ok(final(registry)@),
        reply.body.payment_id@ == req.payment_id@,
        match create_check(old(registry)@, req.payment_id@, req.expires_at, now) {
            Ok(_) => {
                &&& final(registry)@ == old(registry)@.push(new_link(req, now))
                &&& reply.status == STATUS_CREATED
                &&& reply.body.success
                &&& reply.body.message@ == "Payment link created successfully"@
            },
            Err(e) => {
                &&& final(registry)@ == old(registry)@
                &&& reply.status == e.status_of()
                &&& !reply.body.success
                &&& reply.body.message@ == e.text_of()
            },
        },
{
    let payment_id = req.payment_id.clone();
    match registry.create(req, now) {
        Ok(_) => Reply {
            status: STATUS_CREATED,
            body: CreatePaymentLinkResponse {
                success: true,
                payment_id,
                message: "Payment link created successfully".to_string(),
            },
        },
        Err(e) => Reply {
            status: e.status_code(),
            body: CreatePaymentLinkResponse { success: false, payment_id, message: e.message() },
        },
    }
}

/// Reads a payment link as it stands at time `now`.
pub fn get_payment_link(registry: &PaymentLinkRegistry, payment_id: &str, now: u64) -> (r: Result<
    PaymentLink,
    ApiError,
>)
    ensures
        match r {
            Ok(link) => {
                &&& has_id(registry@, payment_id@)
                &&& link@ == observed(registry@[position(registry@, payment_id@)], now)
                &&& claim_fields_consistent(link@)
            },
            Err(report) => {
                &&& !has_id(registry@, payment_id@)
                &&& report.kind == ErrorKind::NotFound
                &&& report.status == STATUS_NOT_FOUND
                &&& report.message@ == LinkError::NotFound.text_of()
            },
        },
{
    match registry.get(payment_id, now) {
        Ok(link) => Ok(link),
        Err(e) => Err(ApiError::from_link_error(e)),
    }
}

/// Validates candidate parameters against a stored link.
///
/// Answers 404 for an unknown link, 400 where the parameters do not match,
/// and 200 otherwise, with `valid` set exactly where the link can be paid.
pub fn validate_payment_link(
    registry: &PaymentLinkRegistry,
    payment_id: &str,
    req: &ValidatePaymentLinkRequest,
    now: u64,
) -> (reply: Reply<ValidatePaymentLinkResponse>)
    ensures
        if has_id(registry@, payment_id@) {
            let report = report_for(
                registry@[position(registry@, payment_id@)],
                req.amount_cents,
                req.recipient@,
                req.expires_at,
                now,
            );
            &&& reply.status == validation_status(report)
            &&& reply.body.valid == report.is_valid()
            &&& reply.body.status == report.status
            &&& reply.body.is_expired == report.is_expired
            &&& reply.body.message@ == validation_text(report)
        } else {
            &&& reply.status == STATUS_NOT_FOUND
            &&& !reply.body.valid
            &&& reply.body.status == PaymentLinkStatus::Failed
            &&& !reply.body.is_expired
            &&& reply.body.message@ == LinkError::NotFound.text_of()
        },
{
    match registry.validate(payment_id, req, now) {
        Err(e) => Reply {
            status: STATUS_NOT_FOUND,
            body: ValidatePaymentLinkResponse {
                valid: false,
                status: PaymentLinkStatus::Failed,
                is_expired: false,
                message: LinkError::NotFound.message(),
            },
        },
        Ok(report) => {
            let status: u16 = if !report.params_match {
                STATUS_BAD_REQUEST
            } else {
                STATUS_OK
            };
            let message = if !report.params_match {
                "Payment link parameters do not match".to_string()
            } else if report.is_expired {
                "Payment link has expired".to_string()
            } else if report.status != PaymentLinkStatus::Pending {
                "Payment link is ".to_string().concat(report.status.debug_name())
            } else {
                "Payment link is valid".to_string()
            };
            Reply {
                status,
                body: ValidatePaymentLinkResponse {
                    valid: report.valid(),
                    status: report.status,
                    is_expired: report.is_expired,
                    message,
                },
            }
        },
    }
}

/// Claims a payment link for the address in the request.
///
/// Answers 200 where the claim went through, 404 for an unknown link, and
/// 400 where the link does not read as pending; a failed claim leaves the
/// registry as it was.
pub fn claim_payment_link(
    registry: &mut PaymentLinkRegistry,
    payment_id: &str,
    req: ClaimPaymentLinkRequest,
    now: u64,
) -> (reply: Reply<ClaimPaymentLinkResponse>)
    ensures
        registry_ok(final(registry)@),
        final(registry)@ == after_claim(old(registry)@, payment_id@, req.claimer_address@, now),
        match claim_check(old(registry)@, payment_id@, now) {
            Ok(at) => {
                &&& reply.status == STATUS_OK
                &&& reply.body.success
                &&& reply.body.amount_cents == old(registry)@[at].amount_cents
                &&& opt_text(reply.body.transaction_id) == Some(transaction_ref(payment_id@))
                &&& reply.body.message@ == "Payment claimed successfully"@
            },
            Err(e) => {
                &&& reply.status == e.status_of()
                &&& !reply.body.success
                &&& reply.body.amount_cents == match amount_at(old(registry)@, payment_id@) {
                    Some(amount) => amount,
                    None => 0,
                }
                &&& reply.body.transaction_id is None
                &&& reply.body.message@ == e.text_of()
            },
        },
{
    let amount_cents: u64 = match registry.amount_of(payment_id) {
        Some(amount) => amount,
        None => 0,
    };
    match registry.claim(payment_id, req.claimer_address, now) {
        Ok(receipt) => Reply {
            status: STATUS_OK,
            body: ClaimPaymentLinkResponse {
                success: true,
                amount_cents: receipt.amount_cents,
                transaction_id: Some(receipt.transaction_id),
                message: "Payment claimed successfully".to_string(),
            },
        },
        Err(e) => Reply {
            status: e.status_code(),
            body: ClaimPaymentLinkResponse {
                success: false,
                amount_cents,
                transaction_id: None,
                message: e.message(),
            },
        },
    }
}

/// Cancels a payment link on behalf of the recipient named in the request.
///
/// Answers 200 where the link was cancelled, 404 for an unknown link, 403
/// where the requester is not the link's recipient, and 400 where the link
/// has been claimed; a failed cancellation leaves the registry as it was.
pub fn cancel_payment_link(
    registry: &mut PaymentLinkRegistry,
    payment_id: &str,
    req: &CancelPaymentLinkRequest,
) -> (reply: Reply<CancelPaymentLinkResponse>)
    ensures
        registry_ok(final(registry)@),
        final(registry)@ == after_cancel(old(registry)@, payment_id@, req.recipient@),
        match cancel_check(old(registry)@, payment_id@, req.recipient@) {
            Ok(_) => {
                &&& reply.status == STATUS_OK
                &&& reply.body.success
                &&& reply.body.message@ == "Payment link cancelled successfully"@
            },
            Err(e) => {
                &&& reply.status == e.status_of()
                &&& !reply.body.success
                &&& reply.body.message@ == e.text_of()
            },
        },
{
    match registry.cancel(payment_id, req.recipient.as_str()) {
        Ok(_) => Reply {
            status: STATUS_OK,
            body: CancelPaymentLinkResponse {
                success: true,
                message: "Payment link cancelled successfully".to_string(),
            },
        },
        Err(e) => Reply {
            status: e.status_code(),
            body: CancelPaymentLinkResponse { success: false, message: e.message() },
        },
    }
}

/// Lists the payment links that a query selects at time `now`.
pub fn list_payment_links(
    registry: &PaymentLinkRegistry,
    query: &ListPaymentLinksQuery,
    now: u64,
) -> (out: Vec<PaymentLink>)
    ensures
        views(out@) == listing(registry@, *query, now),
{
    registry.list(query, now)
}

/// Prepares a claim proof for a link that reads as pending at time `now`.
///
/// Answers 200 with the proof text, 404 for an unknown link, and 400 where
/// the link does not read as pending.
pub fn generate_claim_proof(
    registry: &PaymentLinkRegistry,
    payment_id: &str,
    req: &GenerateClaimProofRequest,
    now: u64,
) -> (reply: Reply<GenerateClaimProofResponse>)
    ensures
        match claim_check(registry@, payment_id@, now) {
            Ok(_) => {
                &&& reply.status == STATUS_OK
                &&& reply.body.success
                &&& opt_text(reply.body.proof) == Some(claim_proof_text(payment_id@, now))
                &&& reply.body.message@ == "Proof generated successfully"@
            },
            Err(e) => {
                &&& reply.status == e.status_of()
                &&& !reply.body.success
                &&& reply.body.proof is None
                &&& reply.body.message@ == match e {
                    LinkError::NotPending(status) => no_proof_text(status),
                    _ => e.text_of(),
                }
            },
        },
{
    match registry.claim_proof(payment_id, now) {
        Ok(text) => Reply {
            status: STATUS_OK,
            body: GenerateClaimProofResponse {
                success: true,
                proof: Some(text),
                message: "Proof generated successfully".to_string(),
            },
        },
        Err(e) => {
            let message = match e {
                LinkError::NotPending(status) => "Cannot generate proof for ".to_string().concat(
                    status.debug_name(),
                ).concat(" payment link"),
                _ => e.message(),
            };
            Reply {
                status: e.status_code(),
                body: GenerateClaimProofResponse { success: false, proof: None, message },
            }
        },
    }
}

} // verus!
