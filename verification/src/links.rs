//! Payment links: shareable, claimable payment requests.

use vstd::prelude::*;
use vstd::string::*;
use crate::text::opt_text;

verus! {

/// The status of a payment link. `Pending` is the initial status; every
/// other status is final.
#[derive(Clone, Copy, Debug, PartialEq, Eq, Structural)]
pub enum PaymentLinkStatus {
    Pending,
    Claimed,
    Expired,
    Cancelled,
    Failed,
}

impl PaymentLinkStatus {
    /// The lowercase name used in filters and on the wire.
    pub open spec fn wire_name(self) -> Seq<char> {
        match self {
            PaymentLinkStatus::Pending => "pending"@,
            PaymentLinkStatus::Claimed => "claimed"@,
            PaymentLinkStatus::Expired => "expired"@,
            PaymentLinkStatus::Cancelled => "cancelled"@,
            PaymentLinkStatus::Failed => "failed"@,
        }
    }

    /// The capitalised name used in messages.
    pub open spec fn label(self) -> Seq<char> {
        match self {
            PaymentLinkStatus::Pending => "Pending"@,
            PaymentLinkStatus::Claimed => "Claimed"@,
            PaymentLinkStatus::Expired => "Expired"@,
            PaymentLinkStatus::Cancelled => "Cancelled"@,
            PaymentLinkStatus::Failed => "Failed"@,
        }
    }

    /// The lowercase name of the status.
    pub fn as_str(&self) -> (name: &'static str)
        ensures
            name@ == self.wire_name(),
    {
        match self {
            PaymentLinkStatus::Pending => "pending",
            PaymentLinkStatus::Claimed => "claimed",
            PaymentLinkStatus::Expired => "expired",
            PaymentLinkStatus::Cancelled => "cancelled",
            PaymentLinkStatus::Failed => "failed",
        }
    }

    /// The capitalised name of the status.
    pub fn debug_name(&self) -> (name: &'static str)
        ensures
            name@ == self.label(),
    {
        match self {
            PaymentLinkStatus::Pending => "Pending",
            PaymentLinkStatus::Claimed => "Claimed",
            PaymentLinkStatus::Expired => "Expired",
            PaymentLinkStatus::Cancelled => "Cancelled",
            PaymentLinkStatus::Failed => "Failed",
        }
    }
}

/// A payment link as the registry stores it.
#[derive(Clone, Debug)]
pub struct PaymentLink {
    pub payment_id: String,
    pub amount_cents: u64,
    pub currency: String,
    pub recipient: String,
    pub recipient_name: Option<String>,
    pub note: Option<String>,
    pub created_at: u64,
    pub expires_at: u64,
    pub signature: String,
    pub status: PaymentLinkStatus,
    pub claimed_by: Option<String>,
    pub claimed_at: Option<u64>,
    pub version: u32,
}

/// The mathematical value of a [`PaymentLink`]: its texts as character
/// sequences, the rest as it is.
pub struct LinkModel {
    pub payment_id: Seq<char>,
    pub amount_cents: u64,
    pub currency: Seq<char>,
    pub recipient: Seq<char>,
    pub recipient_name: Option<Seq<char>>,
    pub note: Option<Seq<char>>,
    pub created_at: u64,
    pub expires_at: u64,
    pub signature: Seq<char>,
    pub status: PaymentLinkStatus,
    pub claimed_by: Option<Seq<char>>,
    pub claimed_at: Option<u64>,
    pub version: u32,
}

impl View for PaymentLink {
    type V = LinkModel;

    open spec fn view(&self) -> LinkModel {
        LinkModel {
            payment_id: self.payment_id@,
            amount_cents: self.amount_cents,
            currency: self.currency@,
            recipient: self.recipient@,
            recipient_name: opt_text(self.recipient_name),
            note: opt_text(self.note),
            created_at: self.created_at,
            expires_at: self.expires_at,
            signature: self.signature@,
            status: self.status,
            claimed_by: opt_text(self.claimed_by),
            claimed_at: self.claimed_at,
            version: self.version,
        }
    }
}

impl PaymentLink {
    /// A copy of the link, field by field.
    pub fn duplicate(&self) -> (copy: PaymentLink)
        ensures
            copy@ == self@,
    {
        PaymentLink {
            payment_id: self.payment_id.clone(),
            amount_cents: self.amount_cents,
            currency: self.currency.clone(),
            recipient: self.recipient.clone(),
            recipient_name: self.recipient_name.clone(),
            note: self.note.clone(),
            created_at: self.created_at,
            expires_at: self.expires_at,
            signature: self.signature.clone(),
            status: self.status,
            claimed_by: self.claimed_by.clone(),
            claimed_at: self.claimed_at,
            version: self.version,
        }
    }
}

/// Request to create a payment link.
#[derive(Debug)]
pub struct CreatePaymentLinkRequest {
    pub payment_id: String,
    pub amount_cents: u64,
    pub currency: Option<String>,
    pub recipient: String,
    pub recipient_name: Option<String>,
    pub note: Option<String>,
    pub expires_at: u64,
    pub signature: String,
    pub version: Option<u32>,
}

/// Response after creating a payment link.
#[derive(Debug)]
pub struct CreatePaymentLinkResponse {
    pub success: bool,
    pub payment_id: String,
    pub message: String,
}

/// Request to validate a payment link against the parameters a payer holds.
#[derive(Debug)]
pub struct ValidatePaymentLinkRequest {
    pub amount_cents: u64,
    pub currency: Option<String>,
    pub recipient: String,
    pub expires_at: u64,
    pub signature: Option<String>,
}

/// Response to a validation.
#[derive(Debug)]
pub struct ValidatePaymentLinkResponse {
    pub valid: bool,
    pub status: PaymentLinkStatus,
    pub is_expired: bool,
    pub message: String,
}

/// Request to claim a payment link.
#[derive(Debug)]
pub struct ClaimPaymentLinkRequest {
    pub claimer_address: String,
    pub claimer_public_key: Option<String>,
    /// Proof that the claimer is authorised.
    pub proof: Option<String>,
}

/// Response after a claim.
#[derive(Debug)]
pub struct ClaimPaymentLinkResponse {
    pub success: bool,
    pub amount_cents: u64,
    pub transaction_id: Option<String>,
    pub message: String,
}

/// Request to cancel a payment link.
#[derive(Debug)]
pub struct CancelPaymentLinkRequest {
    pub signature: String,
    pub recipient: String,
}

/// Response after a cancellation.
#[derive(Debug)]
pub struct CancelPaymentLinkResponse {
    pub success: bool,
    pub message: String,
}

/// Request to generate a claim proof.
#[derive(Debug)]
pub struct GenerateClaimProofRequest {
    pub claimer_address: String,
    pub claimer_secret_key: Option<String>,
    pub amount_cents: u64,
}

/// Response that carries the claim proof.
#[derive(Debug)]
pub struct GenerateClaimProofResponse {
    pub success: bool,
    pub proof: Option<String>,
    pub message: String,
}

/// Query for listing payment links.
#[derive(Debug)]
pub struct ListPaymentLinksQuery {
    /// Keep links that this address created or claimed.
    pub address: Option<String>,
    /// Keep links whose status at the time of the query has this lowercase name.
    pub status: Option<String>,
    /// `sent` or `received`, relative to `address`.
    pub link_type: Option<String>,
    pub limit: Option<u32>,
    pub offset: Option<u32>,
}

} // verus!
