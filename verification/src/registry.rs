//! The registry of payment links: a keyed collection with the link state
//! machine on top.
//!
//! Every operation takes the current time as an argument. Operations that
//! change the registry take it by `&mut`, so no two of them overlap: of
//! several claims of one link, whichever runs first wins.

use vstd::prelude::*;
use vstd::hash_map::StringHashMap;
use vstd::string::*;
use crate::error::LinkError;
use crate::links::CreatePaymentLinkRequest;
use crate::links::ListPaymentLinksQuery;
use crate::listing::list_links;
use crate::listing::listing;
use crate::listing::views;
use crate::links::LinkModel;
use crate::links::PaymentLink;
use crate::links::PaymentLinkStatus;
use crate::links::ValidatePaymentLinkRequest;
use crate::text::decimal;
use crate::text::decimal_text;
use crate::text::opt_text;
use crate::validator::claim_fields_consistent;
use crate::validator::derived_status;
use crate::validator::effective_status;
use crate::validator::expired_at;
use crate::validator::is_expired;
use crate::validator::is_owner;
use crate::validator::observed;
use crate::validator::owned_by;
use crate::validator::params_match;
use crate::validator::params_match_spec;

verus! {

/// Some link of the sequence has the identifier `id`.
pub open spec fn has_id(links: Seq<LinkModel>, id: Seq<char>) -> bool {
    exists|i: int| 0 <= i < links.len() && (#[trigger] links[i]).payment_id == id
}

/// Where the link with identifier `id` stands in the sequence.
pub open spec fn position(links: Seq<LinkModel>, id: Seq<char>) -> int
    recommends
        has_id(links, id),
{
    choose|i: int| 0 <= i < links.len() && (#[trigger] links[i]).payment_id == id
}

/// No two links of the sequence share an identifier.
pub open spec fn distinct_ids(links: Seq<LinkModel>) -> bool {
    forall|i: int, j: int|
        0 <= i < j < links.len() ==> (#[trigger] links[i]).payment_id != (
        #[trigger] links[j]).payment_id
}

/// What holds of every stored link: it is pending, claimed or cancelled
/// (expiry is derived on reading, never stored), and it records a claimer
/// and a claim time exactly when it is claimed.
pub open spec fn stored_ok(link: LinkModel) -> bool {
    &&& link.status == PaymentLinkStatus::Pending || link.status == PaymentLinkStatus::Claimed
        || link.status == PaymentLinkStatus::Cancelled
    &&& claim_fields_consistent(link)
}

/// What holds of the links of every registry.
pub open spec fn registry_ok(links: Seq<LinkModel>) -> bool {
    &&& distinct_ids(links)
    &&& forall|i: int| 0 <= i < links.len() ==> stored_ok(#[trigger] links[i])
}

/// Among links with distinct identifiers, the link at place `at` is the one
/// that its identifier finds.
pub proof fn lemma_position(links: Seq<LinkModel>, at: int)
    requires
        distinct_ids(links),
        0 <= at < links.len(),
    ensures
        has_id(links, links[at].payment_id),
        position(links, links[at].payment_id) == at,
{
    let id = links[at].payment_id;
    assert(links[at].payment_id == id);
    let found = position(links, id);
    assert(links[found].payment_id == id);
    if found < at {
        assert(links[found].payment_id != links[at].payment_id);
    } else if at < found {
        assert(links[at].payment_id != links[found].payment_id);
    }
}

/// The amount of the link `id`, if there is one.
pub open spec fn amount_at(links: Seq<LinkModel>, id: Seq<char>) -> Option<u64> {
    if has_id(links, id) {
        Some(links[position(links, id)].amount_cents)
    } else {
        None
    }
}

/// Whether a link can be created: its expiry time must lie in the future,
/// and its identifier must be new.
pub open spec fn create_check(
    links: Seq<LinkModel>,
    id: Seq<char>,
    expires_at: u64,
    now: u64,
) -> Result<(), LinkError> {
    if expires_at <= now {
        Err(LinkError::AlreadyExpired)
    } else if has_id(links, id) {
        Err(LinkError::AlreadyExists)
    } else {
        Ok(())
    }
}

/// The link that a request creates at time `now`.
pub open spec fn new_link(req: CreatePaymentLinkRequest, now: u64) -> LinkModel {
    LinkModel {
        payment_id: req.payment_id@,
        amount_cents: req.amount_cents,
        currency: match req.currency {
            Some(c) => c@,
            None => "USD"@,
        },
        recipient: req.recipient@,
        recipient_name: opt_text(req.recipient_name),
        note: opt_text(req.note),
        created_at: now,
        expires_at: req.expires_at,
        signature: req.signature@,
        status: PaymentLinkStatus::Pending,
        claimed_by: None,
        claimed_at: None,
        version: match req.version {
            Some(v) => v,
            None => 1,
        },
    }
}

/// Whether the link `id` can be claimed at time `now`, and if so where it
/// stands: it must exist and read as pending.
pub open spec fn claim_check(links: Seq<LinkModel>, id: Seq<char>, now: u64) -> Result<
    int,
    LinkError,
> {
    if !has_id(links, id) {
        Err(LinkError::NotFound)
    } else {
        let at = position(links, id);
        let status = derived_status(links[at], now);
        if status != PaymentLinkStatus::Pending {
            Err(LinkError::NotPending(status))
        } else {
            Ok(at)
        }
    }
}

/// A link after `claimer` has claimed it at time `now`.
pub open spec fn claimed(link: LinkModel, claimer: Seq<char>, now: u64) -> LinkModel {
    LinkModel {
        status: PaymentLinkStatus::Claimed,
        claimed_by: Some(claimer),
        claimed_at: Some(now),
        ..link
    }
}

/// The links after an attempt to claim `id`: the claimed link replaces the
/// pending one where the claim is admitted, and nothing changes otherwise.
pub open spec fn after_claim(
    links: Seq<LinkModel>,
    id: Seq<char>,
    claimer: Seq<char>,
    now: u64,
) -> Seq<LinkModel> {
    match claim_check(links, id, now) {
        Ok(at) => links.update(at, claimed(links[at], claimer, now)),
        Err(_) => links,
    }
}

/// The reference of the transfer that settles a claim of `id`.
pub open spec fn transaction_ref(id: Seq<char>) -> Seq<char> {
    "tx_"@ + id
}

/// Whether `requester` can cancel the link `id`, and if so where it stands:
/// it must exist, the requester must be its recipient, and it must not be
/// claimed.
pub open spec fn cancel_check(links: Seq<LinkModel>, id: Seq<char>, requester: Seq<char>) -> Result<
    int,
    LinkError,
> {
    if !has_id(links, id) {
        Err(LinkError::NotFound)
    } else {
        let at = position(links, id);
        if !owned_by(links[at], requester) {
            Err(LinkError::NotRecipient)
        } else if links[at].status == PaymentLinkStatus::Claimed {
            Err(LinkError::AlreadyClaimed)
        } else {
            Ok(at)
        }
    }
}

/// A link after its cancellation.
pub open spec fn cancelled(link: LinkModel) -> LinkModel {
    LinkModel { status: PaymentLinkStatus::Cancelled, ..link }
}

/// The links after an attempt by `requester` to cancel `id`.
pub open spec fn after_cancel(links: Seq<LinkModel>, id: Seq<char>, requester: Seq<char>) -> Seq<
    LinkModel,
> {
    match cancel_check(links, id, requester) {
        Ok(at) => links.update(at, cancelled(links[at])),
        Err(_) => links,
    }
}

/// The placeholder proof text for a claim of `id` prepared at time `now`.
pub open spec fn claim_proof_text(id: Seq<char>, now: u64) -> Seq<char> {
    "zkproof_"@ + id + "_"@ + decimal_text(now as nat)
}

/// The links after a series of attempts to claim `id`, made one after the
/// other; each attempt names the claimer and the time.
pub open spec fn after_claims(
    links: Seq<LinkModel>,
    id: Seq<char>,
    attempts: Seq<(Seq<char>, u64)>,
) -> Seq<LinkModel>
    decreases attempts.len(),
{
    if attempts.len() == 0 {
        links
    } else {
        after_claim(
            after_claims(links, id, attempts.drop_last()),
            id,
            attempts.last().0,
            attempts.last().1,
        )
    }
}

/// How the attempt number `k` of a series ends: it meets the links as the
/// attempts before it have left them.
pub open spec fn claim_outcome(
    links: Seq<LinkModel>,
    id: Seq<char>,
    attempts: Seq<(Seq<char>, u64)>,
    k: int,
) -> Result<int, LinkError> {
    claim_check(after_claims(links, id, attempts.take(k)), id, attempts[k].1)
}

/// Creating a link keeps the registry in order: the new link is pending and
/// names no claimer, and its identifier was not in use.
pub proof fn lemma_create_step(links: Seq<LinkModel>, req: CreatePaymentLinkRequest, now: u64)
    requires
        registry_ok(links),
        create_check(links, req.payment_id@, req.expires_at, now) is Ok,
    ensures
        registry_ok(links.push(new_link(req, now))),
        has_id(links.push(new_link(req, now)), req.payment_id@),
        position(links.push(new_link(req, now)), req.payment_id@) == links.len(),
        new_link(req, now).status == PaymentLinkStatus::Pending,
        new_link(req, now).expires_at > now,
{
    let next = links.push(new_link(req, now));
    assert forall|i: int, j: int| 0 <= i < j < next.len() implies (#[trigger] next[i]).payment_id
        != (#[trigger] next[j]).payment_id by {
        assert(next[i] == links[i]);
        if j < links.len() {
            assert(next[j] == links[j]);
        }
    }
    assert forall|i: int| 0 <= i < next.len() implies stored_ok(#[trigger] next[i]) by {
        if i < links.len() {
            assert(next[i] == links[i]);
        }
    }
    lemma_position(next, links.len() as int);
}

/// A claim or a failed claim keeps the registry in order; it changes no
/// identifier, amount, recipient or expiry time, and it never makes a link
/// pending again.
pub proof fn lemma_claim_step(links: Seq<LinkModel>, id: Seq<char>, claimer: Seq<char>, now: u64)
    requires
        registry_ok(links),
    ensures
        registry_ok(after_claim(links, id, claimer, now)),
        after_claim(links, id, claimer, now).len() == links.len(),
        forall|i: int|
            0 <= i < links.len() ==> {
                let before = links[i];
                let after = #[trigger] after_claim(links, id, claimer, now)[i];
                &&& after.payment_id == before.payment_id
                &&& after.amount_cents == before.amount_cents
                &&& after.recipient == before.recipient
                &&& after.created_at == before.created_at
                &&& after.expires_at == before.expires_at
                &&& after.status == PaymentLinkStatus::Pending ==> after == before
                &&& before.status != PaymentLinkStatus::Pending ==> after == before
            },
{
    match claim_check(links, id, now) {
        Ok(at) => {
            lemma_replace(links, at, claimed(links[at], claimer, now));
        },
        Err(_) => {},
    }
}

/// A cancellation or a failed cancellation keeps the registry in order; it
/// changes no identifier, amount, recipient or expiry time, it never makes
/// a link pending again, and it leaves claimed links as they are.
pub proof fn lemma_cancel_step(links: Seq<LinkModel>, id: Seq<char>, requester: Seq<char>)
    requires
        registry_ok(links),
    ensures
        registry_ok(after_cancel(links, id, requester)),
        after_cancel(links, id, requester).len() == links.len(),
        forall|i: int|
            0 <= i < links.len() ==> {
                let before = links[i];
                let after = #[trigger] after_cancel(links, id, requester)[i];
                &&& after.payment_id == before.payment_id
                &&& after.amount_cents == before.amount_cents
                &&& after.recipient == before.recipient
                &&& after.created_at == before.created_at
                &&& after.expires_at == before.expires_at
                &&& after.status == PaymentLinkStatus::Pending ==> after == before
                &&& before.status == PaymentLinkStatus::Claimed ==> after == before
            },
{
    match cancel_check(links, id, requester) {
        Ok(at) => {
            lemma_replace(links, at, cancelled(links[at]));
        },
        Err(_) => {},
    }
}

/// Every stored link, and every link as it reads at any time, names a
/// claimer and a claim time if it is claimed, and none otherwise.
pub proof fn lemma_claimer_iff_claimed(links: Seq<LinkModel>, at: int, now: u64)
    requires
        registry_ok(links),
        0 <= at < links.len(),
    ensures
        claim_fields_consistent(links[at]),
        claim_fields_consistent(observed(links[at], now)),
{
}

/// Once a link is claimed, every further claim of it fails with a state
/// conflict that names the status `Claimed`, and changes nothing.
pub proof fn lemma_claimed_stays_claimed(
    links: Seq<LinkModel>,
    id: Seq<char>,
    claimer: Seq<char>,
    now: u64,
)
    requires
        registry_ok(links),
        has_id(links, id),
        links[position(links, id)].status == PaymentLinkStatus::Claimed,
    ensures
        claim_check(links, id, now) == Err::<int, LinkError>(
            LinkError::NotPending(PaymentLinkStatus::Claimed),
        ),
        after_claim(links, id, claimer, now) == links,
{
}

/// Of any number of claims of one pending link that has not expired when
/// the first of them runs, in whatever order they run, exactly the first
/// succeeds. Every other fails with a state conflict that names the status
/// `Claimed`, and in the end the link records the first claimer and no
/// other; no other link has changed.
pub proof fn lemma_exactly_one_claim_wins(
    links: Seq<LinkModel>,
    id: Seq<char>,
    attempts: Seq<(Seq<char>, u64)>,
)
    requires
        registry_ok(links),
        has_id(links, id),
        links[position(links, id)].status == PaymentLinkStatus::Pending,
        attempts.len() >= 1,
        attempts[0].1 <= links[position(links, id)].expires_at,
    ensures
        claim_outcome(links, id, attempts, 0) == Ok::<int, LinkError>(position(links, id)),
        forall|k: int|
            1 <= k < attempts.len() ==> #[trigger] claim_outcome(links, id, attempts, k) == Err::<
                int,
                LinkError,
            >(LinkError::NotPending(PaymentLinkStatus::Claimed)),
        after_claims(links, id, attempts) == links.update(
            position(links, id),
            claimed(links[position(links, id)], attempts[0].0, attempts[0].1),
        ),
    decreases attempts.len(),
{
    let at = position(links, id);
    let won = links.update(at, claimed(links[at], attempts[0].0, attempts[0].1));
    assert(attempts.take(0) =~= Seq::<(Seq<char>, u64)>::empty());
    assert(after_claims(links, id, attempts.take(0)) == links);
    lemma_claim_step(links, id, attempts[0].0, attempts[0].1);
    assert(won == after_claim(links, id, attempts[0].0, attempts[0].1));
    lemma_position(won, at);
    if attempts.len() == 1 {
        assert(attempts.drop_last() =~= Seq::<(Seq<char>, u64)>::empty());
        assert(after_claims(links, id, attempts.drop_last()) == links);
    } else {
        let front = attempts.drop_last();
        lemma_exactly_one_claim_wins(links, id, front);
        assert(front[0] == attempts[0]);
        assert(after_claims(links, id, front) == won);
        lemma_claimed_stays_claimed(won, id, attempts.last().0, attempts.last().1);
        assert forall|k: int| 1 <= k < attempts.len() implies #[trigger] claim_outcome(
            links,
            id,
            attempts,
            k,
        ) == Err::<int, LinkError>(LinkError::NotPending(PaymentLinkStatus::Claimed)) by {
            if k < attempts.len() - 1 {
                assert(attempts.take(k) =~= front.take(k));
                assert(claim_outcome(links, id, front, k) == claim_outcome(links, id, attempts, k));
            } else {
                assert(attempts.take(k) =~= front);
            }
        }
    }
}

/// A pending link whose expiry time has passed reads as expired wherever
/// it is read, though nothing was written to it: a reader is shown the
/// status `Expired`, a validation finds it expired and not valid, and a
/// claim fails on that status and changes nothing.
pub proof fn lemma_expired_wherever_read(
    links: Seq<LinkModel>,
    id: Seq<char>,
    now: u64,
    amount_cents: u64,
    recipient: Seq<char>,
    expires_at: u64,
    claimer: Seq<char>,
)
    requires
        has_id(links, id),
        links[position(links, id)].status == PaymentLinkStatus::Pending,
        now > links[position(links, id)].expires_at,
    ensures
        observed(links[position(links, id)], now).status == PaymentLinkStatus::Expired,
        report_for(links[position(links, id)], amount_cents, recipient, expires_at, now).status
            == PaymentLinkStatus::Expired,
        report_for(links[position(links, id)], amount_cents, recipient, expires_at, now).is_expired,
        !report_for(links[position(links, id)], amount_cents, recipient, expires_at, now).is_valid(),
        claim_check(links, id, now) == Err::<int, LinkError>(
            LinkError::NotPending(PaymentLinkStatus::Expired),
        ),
        after_claim(links, id, claimer, now) == links,
{
}

/// A requester who is not the recipient recorded in a link cannot cancel
/// it, whatever its status: the attempt fails and changes nothing.
pub proof fn lemma_cancel_needs_recipient(
    links: Seq<LinkModel>,
    id: Seq<char>,
    requester: Seq<char>,
)
    requires
        has_id(links, id) ==> links[position(links, id)].recipient != requester,
    ensures
        cancel_check(links, id, requester) is Err,
        has_id(links, id) ==> cancel_check(links, id, requester) == Err::<int, LinkError>(
            LinkError::NotRecipient,
        ),
        after_cancel(links, id, requester) == links,
{
}

/// A claimed link cannot be cancelled, not even by its recipient.
pub proof fn lemma_claimed_cannot_be_cancelled(
    links: Seq<LinkModel>,
    id: Seq<char>,
    requester: Seq<char>,
)
    requires
        has_id(links, id),
        links[position(links, id)].status == PaymentLinkStatus::Claimed,
    ensures
        cancel_check(links, id, requester) is Err,
        after_cancel(links, id, requester) == links,
{
}

/// What a validation finds out about a link.
#[derive(Clone, Copy, Debug, PartialEq, Eq, Structural)]
pub struct ValidationReport {
    /// The candidate amount, recipient and expiry time are the link's.
    pub params_match: bool,
    /// The link's expiry time has passed.
    pub is_expired: bool,
    /// The status of the link as read now.
    pub status: PaymentLinkStatus,
}

impl ValidationReport {
    /// The link can be paid as the candidate parameters say: they match,
    /// the link has not expired and it is pending.
    pub open spec fn is_valid(self) -> bool {
        self.params_match && !self.is_expired && self.status == PaymentLinkStatus::Pending
    }

    /// Whether the link can be paid as the candidate parameters say.
    pub fn valid(&self) -> (valid: bool)
        ensures
            valid == self.is_valid(),
    {
        self.params_match && !self.is_expired && self.status == PaymentLinkStatus::Pending
    }
}

/// What a validation of `link` against the candidate parameters finds at
/// time `now`.
pub open spec fn report_for(
    link: LinkModel,
    amount_cents: u64,
    recipient: Seq<char>,
    expires_at: u64,
    now: u64,
) -> ValidationReport {
    ValidationReport {
        params_match: params_match_spec(link, amount_cents, recipient, expires_at),
        is_expired: expired_at(link, now),
        status: derived_status(link, now),
    }
}

/// What a successful claim hands back.
#[derive(Debug)]
pub struct ClaimReceipt {
    /// The amount of the claimed link.
    pub amount_cents: u64,
    /// The reference of the transfer that settles the claim.
    pub transaction_id: String,
}

/// The links in the order of their creation, and an index from each
/// identifier to the place of its link.
struct Store {
    links: Vec<PaymentLink>,
    index: StringHashMap<usize>,
}

impl View for Store {
    type V = Seq<LinkModel>;

    closed spec fn view(&self) -> Seq<LinkModel> {
        views(self.links@)
    }
}

impl Store {
    /// The index maps each identifier to the place of its link.
    closed spec fn index_ok(&self) -> bool {
        &&& forall|k: Seq<char>| #[trigger]
            self.index@.contains_key(k) ==> self.index@[k] < self.links.len()
                && self.links@[self.index@[k] as int].payment_id@ == k
        &&& forall|i: int|
            0 <= i < self.links.len() ==> self.index@.contains_key(
                (#[trigger] self.links@[i]).payment_id@,
            ) && self.index@[self.links@[i].payment_id@] == i
    }

    /// Identifiers are unique, every stored link is in a storable state,
    /// and the index is in step.
    closed spec fn wf(&self) -> bool {
        &&& registry_ok(self@)
        &&& self.index_ok()
    }

    proof fn lemma_lookup(&self, id: Seq<char>)
        requires
            self.index_ok(),
        ensures
            has_id(self@, id) <==> self.index@.contains_key(id),
            has_id(self@, id) ==> position(self@, id) == self.index@[id] && 0 <= position(
                self@,
                id,
            ) < self.links.len(),
            self@.len() == self.links.len(),
            forall|i: int| 0 <= i < self.links.len() ==> (#[trigger] self@[i]) == self.links@[i]@,
    {
        if self.index@.contains_key(id) {
            let at = self.index@[id] as int;
            assert(self@[at].payment_id == id);
        }
        if has_id(self@, id) {
            let at = position(self@, id);
            assert(self.links@[at].payment_id@ == id);
        }
    }

    fn new() -> (store: Store)
        ensures
            store.wf(),
            store@ == Seq::<LinkModel>::empty(),
    {
        let store = Store { links: Vec::new(), index: StringHashMap::new() };
        assert(store@ =~= Seq::<LinkModel>::empty());
        store
    }

    /// The place of the link with the given identifier, if there is one.
    fn find(&self, payment_id: &str) -> (at: Option<usize>)
        requires
            self.wf(),
        ensures
            match at {
                Some(i) => has_id(self@, payment_id@) && i == position(self@, payment_id@) && i
                    < self.links.len() && self.links@[i as int]@ == self@[i as int],
                None => !has_id(self@, payment_id@),
            },
    {
        proof {
            self.lemma_lookup(payment_id@);
        }
        match self.index.get(payment_id) {
            Some(i) => Some(*i),
            None => None,
        }
    }

    /// Adds a link whose identifier is new.
    fn add(&mut self, link: PaymentLink)
        requires
            old(self).wf(),
            !has_id(old(self)@, link@.payment_id),
            stored_ok(link@),
        ensures
            final(self).wf(),
            final(self)@ == old(self)@.push(link@),
    {
        let key = link.payment_id.clone();
        let n: usize = self.links.len();
        proof {
            self.lemma_lookup(key@);
        }
        self.links.push(link);
        self.index.insert(key, n);
        proof {
            assert(self@ =~= old(self)@.push(link@));
            assert forall|i: int, j: int| 0 <= i < j < self@.len() implies (#[trigger] self@[i]).payment_id
                != (#[trigger] self@[j]).payment_id by {
                if j == n {
                    assert(old(self)@[i].payment_id == self@[i].payment_id);
                }
            }
        }
    }

    /// Marks the pending link at place `i` as claimed.
    fn mark_claimed(&mut self, i: usize, claimer: String, now: u64)
        requires
            old(self).wf(),
            i < old(self)@.len(),
            old(self)@[i as int].status == PaymentLinkStatus::Pending,
        ensures
            final(self).wf(),
            final(self)@ == old(self)@.update(
                i as int,
                claimed(old(self)@[i as int], claimer@, now),
            ),
    {
        proof {
            self.lemma_lookup(self@[i as int].payment_id);
        }
        self.links[i].status = PaymentLinkStatus::Claimed;
        self.links[i].claimed_by = Some(claimer);
        self.links[i].claimed_at = Some(now);
        proof {
            let at = i as int;
            assert(self@ =~= old(self)@.update(at, claimed(old(self)@[at], claimer@, now)));
            lemma_replace(old(self)@, at, self@[at]);
            assert forall|k: int| 0 <= k < self.links.len() implies (#[trigger] self.links@[k]).payment_id@
                == old(self).links@[k].payment_id@ by {}
        }
    }

    /// Marks the link at place `i`, which is not claimed, as cancelled.
    fn mark_cancelled(&mut self, i: usize)
        requires
            old(self).wf(),
            i < old(self)@.len(),
            old(self)@[i as int].status != PaymentLinkStatus::Claimed,
        ensures
            final(self).wf(),
            final(self)@ == old(self)@.update(i as int, cancelled(old(self)@[i as int])),
    {
        proof {
            self.lemma_lookup(self@[i as int].payment_id);
        }
        self.links[i].status = PaymentLinkStatus::Cancelled;
        proof {
            let at = i as int;
            assert(self@ =~= old(self)@.update(at, cancelled(old(self)@[at])));
            lemma_replace(old(self)@, at, self@[at]);
            assert forall|k: int| 0 <= k < self.links.len() implies (#[trigger] self.links@[k]).payment_id@
                == old(self).links@[k].payment_id@ by {}
        }
    }
}

/// Replacing a link by one with the same identifier that is in a storable
/// state keeps the links in order.
proof fn lemma_replace(links: Seq<LinkModel>, at: int, link: LinkModel)
    requires
        registry_ok(links),
        0 <= at < links.len(),
        link.payment_id == links[at].payment_id,
        stored_ok(link),
    ensures
        registry_ok(links.update(at, link)),
{
    let next = links.update(at, link);
    assert forall|i: int, j: int| 0 <= i < j < next.len() implies (#[trigger] next[i]).payment_id
        != (#[trigger] next[j]).payment_id by {
        assert(next[i].payment_id == links[i].payment_id);
        assert(next[j].payment_id == links[j].payment_id);
    }
    assert forall|i: int| 0 <= i < next.len() implies stored_ok(#[trigger] next[i]) by {
        if i != at {
            assert(next[i] == links[i]);
        }
    }
}

/// The payment links of a node, keyed by their identifier and kept in the
/// order of their creation.
///
/// In every registry the identifiers are unique and every stored link is
/// pending, claimed or cancelled, with a claimer and a claim time recorded
/// exactly on the claimed ones: see [`registry_ok`].
pub struct PaymentLinkRegistry {
    store: Store,
}

impl View for PaymentLinkRegistry {
    type V = Seq<LinkModel>;

    /// The stored links, oldest insertion first.
    closed spec fn view(&self) -> Seq<LinkModel> {
        self.store@
    }
}

impl PaymentLinkRegistry {
    #[verifier::type_invariant]
    spec fn well_formed(self) -> bool {
        self.store.wf()
    }

    /// An empty registry.
    pub fn new() -> (registry: PaymentLinkRegistry)
        ensures
            registry@ == Seq::<LinkModel>::empty(),
            registry_ok(registry@),
    {
        PaymentLinkRegistry { store: Store::new() }
    }

    /// The number of links ever created.
    pub fn len(&self) -> (n: usize)
        ensures
            n == self@.len(),
            registry_ok(self@),
    {
        proof {
            use_type_invariant(self);
            self.store.lemma_lookup(Seq::empty());
        }
        self.store.links.len()
    }

    /// Whether a link with this identifier exists.
    pub fn contains(&self, payment_id: &str) -> (found: bool)
        ensures
            found == has_id(self@, payment_id@),
    {
        proof {
            use_type_invariant(self);
        }
        self.store.find(payment_id).is_some()
    }

    /// The amount of a link, if it exists.
    pub fn amount_of(&self, payment_id: &str) -> (amount: Option<u64>)
        ensures
            amount == amount_at(self@, payment_id@),
    {
        proof {
            use_type_invariant(self);
        }
        match self.store.find(payment_id) {
            Some(i) => Some(self.store.links[i].amount_cents),
            None => None,
        }
    }

    /// Creates a pending link from a request. Fails if the expiry time is
    /// not strictly after `now`, or if the identifier is taken.
    pub fn create(&mut self, req: CreatePaymentLinkRequest, now: u64) -> (r: Result<
        String,
        LinkError,
    >)
        ensures
            registry_ok(final(self)@),
            match create_check(old(self)@, req.payment_id@, req.expires_at, now) {
                Ok(_) => r matches Ok(id) && id@ == req.payment_id@ && final(self)@ == old(
                    self,
                )@.push(new_link(req, now)),
                Err(e) => r == Err::<String, LinkError>(e) && final(self)@ == old(self)@,
            },
    {
        proof {
            use_type_invariant(&*self);
        }
        if req.expires_at <= now {
            return Err(LinkError::AlreadyExpired);
        }
        if self.store.find(req.payment_id.as_str()).is_some() {
            return Err(LinkError::AlreadyExists);
        }
        let id = req.payment_id.clone();
        let link = PaymentLink {
            payment_id: req.payment_id,
            amount_cents: req.amount_cents,
            currency: match req.currency {
                Some(c) => c,
                None => "USD".to_string(),
            },
            recipient: req.recipient,
            recipient_name: req.recipient_name,
            note: req.note,
            created_at: now,
            expires_at: req.expires_at,
            signature: req.signature,
            status: PaymentLinkStatus::Pending,
            claimed_by: None,
            claimed_at: None,
            version: match req.version {
                Some(v) => v,
                None => 1,
            },
        };
        assert(link@ == new_link(req, now));
        let mut store = Store::new();
        core::mem::swap(&mut self.store, &mut store);
        store.add(link);
        core::mem::swap(&mut self.store, &mut store);
        Ok(id)
    }

    /// Reads a link as it stands at time `now`.
    pub fn get(&self, payment_id: &str, now: u64) -> (r: Result<PaymentLink, LinkError>)
        ensures
            match r {
                Ok(link) => has_id(self@, payment_id@) && link@ == observed(
                    self@[position(self@, payment_id@)],
                    now,
                ) && claim_fields_consistent(link@),
                Err(e) => e == LinkError::NotFound && !has_id(self@, payment_id@),
            },
    {
        proof {
            use_type_invariant(self);
        }
        match self.store.find(payment_id) {
            None => Err(LinkError::NotFound),
            Some(i) => {
                let mut link = self.store.links[i].duplicate();
                link.status = effective_status(&self.store.links[i], now);
                Ok(link)
            },
        }
    }

    /// Compares candidate parameters with a stored link and reports whether
    /// they match, whether the link has expired, and its status as read at
    /// time `now`.
    pub fn validate(&self, payment_id: &str, req: &ValidatePaymentLinkRequest, now: u64) -> (r:
        Result<ValidationReport, LinkError>)
        ensures
            match r {
                Ok(report) => has_id(self@, payment_id@) && report == report_for(
                    self@[position(self@, payment_id@)],
                    req.amount_cents,
                    req.recipient@,
                    req.expires_at,
                    now,
                ),
                Err(e) => e == LinkError::NotFound && !has_id(self@, payment_id@),
            },
    {
        proof {
            use_type_invariant(self);
        }
        match self.store.find(payment_id) {
            None => Err(LinkError::NotFound),
            Some(i) => {
                let link = &self.store.links[i];
                Ok(
                    ValidationReport {
                        params_match: params_match(link, req),
                        is_expired: is_expired(link, now),
                        status: effective_status(link, now),
                    },
                )
            },
        }
    }

    /// Claims a link for `claimer` at time `now`. The link must exist and
    /// read as pending; it then becomes claimed and records the claimer and
    /// the time. A failed claim changes nothing.
    pub fn claim(&mut self, payment_id: &str, claimer: String, now: u64) -> (r: Result<
        ClaimReceipt,
        LinkError,
    >)
        ensures
            registry_ok(final(self)@),
            final(self)@ == after_claim(old(self)@, payment_id@, claimer@, now),
            match claim_check(old(self)@, payment_id@, now) {
                Ok(at) => r matches Ok(receipt) && receipt.amount_cents == old(
                    self,
                )@[at].amount_cents && receipt.transaction_id@ == transaction_ref(payment_id@),
                Err(e) => r matches Err(e2) && e2 == e,
            },
    {
        proof {
            use_type_invariant(&*self);
        }
        let i: usize = match self.store.find(payment_id) {
            None => {
                return Err(LinkError::NotFound);
            },
            Some(i) => i,
        };
        let status = effective_status(&self.store.links[i], now);
        if status != PaymentLinkStatus::Pending {
            return Err(LinkError::NotPending(status));
        }
        let amount_cents: u64 = self.store.links[i].amount_cents;
        let mut store = Store::new();
        core::mem::swap(&mut self.store, &mut store);
        store.mark_claimed(i, claimer, now);
        core::mem::swap(&mut self.store, &mut store);
        let transaction_id = "tx_".to_string().concat(payment_id);
        Ok(ClaimReceipt { amount_cents, transaction_id })
    }

    /// Cancels a link on behalf of `requester`, who must be its recipient.
    /// A claimed link cannot be cancelled. A failed cancellation changes
    /// nothing.
    pub fn cancel(&mut self, payment_id: &str, requester: &str) -> (r: Result<(), LinkError>)
        ensures
            registry_ok(final(self)@),
            final(self)@ == after_cancel(old(self)@, payment_id@, requester@),
            match cancel_check(old(self)@, payment_id@, requester@) {
                Ok(_) => r is Ok,
                Err(e) => r == Err::<(), LinkError>(e),
            },
    {
        proof {
            use_type_invariant(&*self);
        }
        let i: usize = match self.store.find(payment_id) {
            None => {
                return Err(LinkError::NotFound);
            },
            Some(i) => i,
        };
        if !is_owner(&self.store.links[i], requester) {
            return Err(LinkError::NotRecipient);
        }
        if self.store.links[i].status == PaymentLinkStatus::Claimed {
            return Err(LinkError::AlreadyClaimed);
        }
        let mut store = Store::new();
        core::mem::swap(&mut self.store, &mut store);
        store.mark_cancelled(i);
        core::mem::swap(&mut self.store, &mut store);
        Ok(())
    }

    /// Prepares the proof text for a claim of a link that reads as pending
    /// at time `now`.
    pub fn claim_proof(&self, payment_id: &str, now: u64) -> (r: Result<String, LinkError>)
        ensures
            match claim_check(self@, payment_id@, now) {
                Ok(_) => r matches Ok(text) && text@ == claim_proof_text(payment_id@, now),
                Err(e) => r == Err::<String, LinkError>(e),
            },
    {
        proof {
            use_type_invariant(self);
        }
        let i: usize = match self.store.find(payment_id) {
            None => {
                return Err(LinkError::NotFound);
            },
            Some(i) => i,
        };
        let status = effective_status(&self.store.links[i], now);
        if status != PaymentLinkStatus::Pending {
            return Err(LinkError::NotPending(status));
        }
        let stamp = decimal(now);
        let text = "zkproof_".to_string().concat(payment_id).concat("_").concat(stamp.as_str());
        Ok(text)
    }

    /// Lists the links that a query selects at time `now`: newest first,
    /// the requested page only, each link as it reads at that time.
    pub fn list(&self, query: &ListPaymentLinksQuery, now: u64) -> (out: Vec<PaymentLink>)
        ensures
            views(out@) == listing(self@, *query, now),
    {
        list_links(&self.store.links, query, now)
    }
}

} // verus!
