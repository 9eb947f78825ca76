//! Pure checks on one payment link at one point in time.

use vstd::prelude::*;
use vstd::string::*;
use crate::links::LinkModel;
use crate::links::PaymentLink;
use crate::links::PaymentLinkStatus;
use crate::links::ValidatePaymentLinkRequest;
use crate::text::str_eq;

verus! {

/// A link is expired once the clock has passed its expiry time.
pub open spec fn expired_at(link: LinkModel, now: u64) -> bool {
    now > link.expires_at
}

/// The status a reader sees at time `now`: a pending link whose expiry time
/// has passed reads as expired, every other link as stored.
pub open spec fn derived_status(link: LinkModel, now: u64) -> PaymentLinkStatus {
    if link.status == PaymentLinkStatus::Pending && expired_at(link, now) {
        PaymentLinkStatus::Expired
    } else {
        link.status
    }
}

/// The link as a reader sees it at time `now`.
pub open spec fn observed(link: LinkModel, now: u64) -> LinkModel {
    LinkModel { status: derived_status(link, now), ..link }
}

/// The candidate amount, recipient and expiry time are those of the link.
pub open spec fn params_match_spec(
    link: LinkModel,
    amount_cents: u64,
    recipient: Seq<char>,
    expires_at: u64,
) -> bool {
    link.amount_cents == amount_cents && link.recipient == recipient && link.expires_at
        == expires_at
}

/// The requester is the recipient recorded in the link.
pub open spec fn owned_by(link: LinkModel, requester: Seq<char>) -> bool {
    link.recipient == requester
}

/// A claimer and a claim time are recorded exactly on claimed links.
pub open spec fn claim_fields_consistent(link: LinkModel) -> bool {
    &&& link.status == PaymentLinkStatus::Claimed <==> link.claimed_by is Some
    &&& link.status == PaymentLinkStatus::Claimed <==> link.claimed_at is Some
}

/// Whether the link's expiry time has passed.
pub fn is_expired(link: &PaymentLink, now: u64) -> (expired: bool)
    ensures
        expired == expired_at(link@, now),
{
    now > link.expires_at
}

/// The status of the link as read at time `now`.
pub fn effective_status(link: &PaymentLink, now: u64) -> (status: PaymentLinkStatus)
    ensures
        status == derived_status(link@, now),
{
    if link.status == PaymentLinkStatus::Pending && now > link.expires_at {
        PaymentLinkStatus::Expired
    } else {
        link.status
    }
}

/// Whether the request names the link's amount, recipient and expiry time.
pub fn params_match(link: &PaymentLink, req: &ValidatePaymentLinkRequest) -> (same: bool)
    ensures
        same == params_match_spec(link@, req.amount_cents, req.recipient@, req.expires_at),
{
    link.amount_cents == req.amount_cents && str_eq(link.recipient.as_str(), req.recipient.as_str())
        && link.expires_at == req.expires_at
}

/// Whether the requester is the link's recipient.
pub fn is_owner(link: &PaymentLink, requester: &str) -> (owner: bool)
    ensures
        owner == owned_by(link@, requester@),
{
    str_eq(link.recipient.as_str(), requester)
}

/// A pending link read after its expiry time is expired; the stored link is
/// not touched by reading.
pub proof fn lemma_pending_reads_expired(link: LinkModel, now: u64)
    requires
        link.status == PaymentLinkStatus::Pending,
        now > link.expires_at,
    ensures
        derived_status(link, now) == PaymentLinkStatus::Expired,
        observed(link, now).status == PaymentLinkStatus::Expired,
{
}

/// Reading never turns a link into a pending one, and changes nothing but
/// the status.
pub proof fn lemma_observed_keeps_fields(link: LinkModel, now: u64)
    ensures
        observed(link, now) == (LinkModel { status: observed(link, now).status, ..link }),
        observed(link, now).status == PaymentLinkStatus::Pending ==> link.status
            == PaymentLinkStatus::Pending,
        claim_fields_consistent(link) ==> claim_fields_consistent(observed(link, now)),
{
}

} // verus!
