//! Listing payment links: which links a query selects, in which order they
//! are shown, and which page of them is returned.

use vstd::prelude::*;
use vstd::string::*;
use crate::links::LinkModel;
use crate::links::ListPaymentLinksQuery;
use crate::links::PaymentLink;
use crate::text::opt_str_is;
use crate::text::opt_text;
use crate::text::str_eq;
use crate::validator::derived_status;
use crate::validator::effective_status;
use crate::validator::observed;

verus! {

/// The number of links on a page where the query names none.
pub const DEFAULT_LIMIT: u32 = 50;

/// With an address in the query, the link was created for it or claimed by
/// it.
pub open spec fn matches_address(link: LinkModel, address: Option<Seq<char>>) -> bool {
    match address {
        Some(a) => link.recipient == a || link.claimed_by == Some(a),
        None => true,
    }
}

/// With a status in the query, the link reads at time `now` with the status
/// of that lowercase name.
pub open spec fn matches_status(link: LinkModel, status: Option<Seq<char>>, now: u64) -> bool {
    match status {
        Some(s) => derived_status(link, now).wire_name() == s,
        None => true,
    }
}

/// With an address and a role in the query: `sent` keeps the links created
/// for the address, `received` those it claimed, any other role all.
pub open spec fn matches_role(
    link: LinkModel,
    link_type: Option<Seq<char>>,
    address: Option<Seq<char>>,
) -> bool {
    match (link_type, address) {
        (Some(t), Some(a)) => {
            if t == "sent"@ {
                link.recipient == a
            } else if t == "received"@ {
                link.claimed_by == Some(a)
            } else {
                true
            }
        },
        _ => true,
    }
}

/// The query selects the link at time `now`.
pub open spec fn selected(link: LinkModel, query: ListPaymentLinksQuery, now: u64) -> bool {
    &&& matches_address(link, opt_text(query.address))
    &&& matches_status(link, opt_text(query.status), now)
    &&& matches_role(link, opt_text(query.link_type), opt_text(query.address))
}

/// `sorted` with `x` put behind every link that is at least as new.
pub open spec fn insert_by_age(sorted: Seq<LinkModel>, x: LinkModel) -> Seq<LinkModel>
    decreases sorted.len(),
{
    if sorted.len() == 0 || sorted.last().created_at >= x.created_at {
        sorted.push(x)
    } else {
        insert_by_age(sorted.drop_last(), x).push(sorted.last())
    }
}

/// The links ordered by creation time, newest first; links of the same
/// creation time keep the order they have in `links`.
pub open spec fn newest_first(links: Seq<LinkModel>) -> Seq<LinkModel>
    decreases links.len(),
{
    if links.len() == 0 {
        links
    } else {
        insert_by_age(newest_first(links.drop_last()), links.last())
    }
}

/// The part of `links` that starts behind the first `offset` links and has
/// at most `limit` links.
pub open spec fn page(links: Seq<LinkModel>, offset: nat, limit: nat) -> Seq<LinkModel> {
    let start = if offset < links.len() {
        offset
    } else {
        links.len()
    };
    let end = if start + limit < links.len() {
        start + limit
    } else {
        links.len()
    };
    links.subrange(start as int, end as int)
}

/// The offset of a query: 0 where it names none.
pub open spec fn offset_of(query: ListPaymentLinksQuery) -> nat {
    match query.offset {
        Some(n) => n as nat,
        None => 0,
    }
}

/// The limit of a query: [`DEFAULT_LIMIT`] where it names none.
pub open spec fn limit_of(query: ListPaymentLinksQuery) -> nat {
    match query.limit {
        Some(n) => n as nat,
        None => DEFAULT_LIMIT as nat,
    }
}

/// The test that the query makes of each link at time `now`.
pub open spec fn keeps(query: ListPaymentLinksQuery, now: u64) -> spec_fn(LinkModel) -> bool {
    |l: LinkModel| selected(l, query, now)
}

/// The reading of each link at time `now`.
pub open spec fn reads(now: u64) -> spec_fn(LinkModel) -> LinkModel {
    |l: LinkModel| observed(l, now)
}

/// The links that the query selects at time `now`, newest first.
pub open spec fn selection(links: Seq<LinkModel>, query: ListPaymentLinksQuery, now: u64) -> Seq<
    LinkModel,
> {
    newest_first(links.filter(keeps(query, now)))
}

/// The answer to a query at time `now`: the requested page of the selected
/// links, newest first, each as it reads at that time.
pub open spec fn listing(links: Seq<LinkModel>, query: ListPaymentLinksQuery, now: u64) -> Seq<
    LinkModel,
> {
    page(selection(links, query, now), offset_of(query), limit_of(query)).map_values(reads(now))
}

/// The values of a sequence of links.
pub open spec fn views(links: Seq<PaymentLink>) -> Seq<LinkModel> {
    links.map_values(|l: PaymentLink| l@)
}

/// The links that stand at the places `order` of `links`.
spec fn picked(links: Seq<LinkModel>, order: Seq<usize>) -> Seq<LinkModel> {
    order.map_values(|i: usize| links[i as int])
}

/// Whether the query selects the link at time `now`.
pub fn is_selected(link: &PaymentLink, query: &ListPaymentLinksQuery, now: u64) -> (keep: bool)
    ensures
        keep == selected(link@, *query, now),
{
    if let Some(addr) = &query.address {
        if !str_eq(link.recipient.as_str(), addr.as_str()) && !opt_str_is(
            &link.claimed_by,
            addr.as_str(),
        ) {
            return false;
        }
    }
    if let Some(status) = &query.status {
        if !str_eq(effective_status(link, now).as_str(), status.as_str()) {
            return false;
        }
    }
    if let Some(link_type) = &query.link_type {
        if let Some(addr) = &query.address {
            if str_eq(link_type.as_str(), "sent") {
                if !str_eq(link.recipient.as_str(), addr.as_str()) {
                    return false;
                }
            } else if str_eq(link_type.as_str(), "received") {
                if !opt_str_is(&link.claimed_by, addr.as_str()) {
                    return false;
                }
            }
        }
    }
    true
}

/// Inserting by age puts the link at the place behind which every link is
/// strictly older and before which the nearest link is at least as new.
proof fn lemma_insert_by_age_at(sorted: Seq<LinkModel>, x: LinkModel, p: int)
    requires
        0 <= p <= sorted.len(),
        forall|j: int| p <= j < sorted.len() ==> (#[trigger] sorted[j]).created_at < x.created_at,
        p > 0 ==> sorted[p - 1].created_at >= x.created_at,
    ensures
        insert_by_age(sorted, x) == sorted.insert(p, x),
    decreases sorted.len(),
{
    if sorted.len() == 0 || sorted.last().created_at >= x.created_at {
        if p < sorted.len() {
            assert(sorted[sorted.len() - 1].created_at < x.created_at);
        }
        assert(sorted.push(x) =~= sorted.insert(p, x));
    } else {
        let front = sorted.drop_last();
        assert(p < sorted.len());
        assert forall|j: int| p <= j < front.len() implies (#[trigger] front[j]).created_at
            < x.created_at by {
            assert(front[j] == sorted[j]);
        }
        lemma_insert_by_age_at(front, x, p);
        assert(front.insert(p, x).push(sorted.last()) =~= sorted.insert(p, x));
    }
}

/// Taking one link more of `links` adds it to the filtered links exactly
/// when the filter keeps it.
proof fn lemma_filter_step(links: Seq<LinkModel>, k: int, keep: spec_fn(LinkModel) -> bool)
    requires
        0 <= k < links.len(),
    ensures
        links.take(k + 1).filter(keep) == if keep(links[k]) {
            links.take(k).filter(keep).push(links[k])
        } else {
            links.take(k).filter(keep)
        },
{
    reveal(Seq::filter);
    assert(links.take(k + 1).drop_last() =~= links.take(k));
    assert(links.take(k + 1).last() == links[k]);
}

/// Lists links: selects those the query keeps at time `now`, orders them
/// newest first, and returns the requested page, each link as it reads at
/// that time.
pub fn list_links(links: &Vec<PaymentLink>, query: &ListPaymentLinksQuery, now: u64) -> (out: Vec<
    PaymentLink,
>)
    ensures
        views(out@) == listing(views(links@), *query, now),
{
    let ghost all = views(links@);
    let ghost keep = keeps(*query, now);
    let n: usize = links.len();
    let mut order: Vec<usize> = Vec::new();
    let mut k: usize = 0;
    proof {
        reveal(Seq::filter);
        assert(all.take(0).filter(keep) =~= Seq::<LinkModel>::empty());
        assert(picked(all, order@) =~= newest_first(all.take(0).filter(keep)));
    }
    while k < n
        invariant
            n == links.len(),
            all == views(links@),
            keep == keeps(*query, now),
            k <= n,
            forall|j: int| 0 <= j < order.len() ==> (#[trigger] order@[j]) < n,
            picked(all, order@) == newest_first(all.take(k as int).filter(keep)),
        decreases n - k,
    {
        proof {
            lemma_filter_step(all, k as int, keep);
        }
        if is_selected(&links[k], query, now) {
            let age: u64 = links[k].created_at;
            proof {
                lemma_newest_first(all.take(k as int).filter(keep));
            }
            // Binary search for the first link that is strictly older.
            let mut p: usize = 0;
            let mut end: usize = order.len();
            while p < end
                invariant
                    n == links.len(),
                    all == views(links@),
                    p <= end <= order.len(),
                    is_newest_first(picked(all, order@)),
                    forall|j: int| 0 <= j < order.len() ==> (#[trigger] order@[j]) < n,
                    forall|j: int|
                        0 <= j < p ==> (#[trigger] picked(all, order@)[j]).created_at >= age,
                    forall|j: int|
                        end <= j < order.len() ==> (#[trigger] picked(all, order@)[j]).created_at
                            < age,
                decreases end - p,
            {
                let mid: usize = p + (end - p) / 2;
                assert(picked(all, order@)[mid as int] == all[order@[mid as int] as int]);
                if links[order[mid]].created_at >= age {
                    p = mid + 1;
                } else {
                    end = mid;
                }
            }
            proof {
                let sorted = picked(all, order@);
                let before = all.take(k as int).filter(keep);
                assert(before.push(all[k as int]).drop_last() =~= before);
                assert(newest_first(before.push(all[k as int])) == insert_by_age(
                    newest_first(before),
                    all[k as int],
                ));
                lemma_insert_by_age_at(sorted, all[k as int], p as int);
                assert(picked(all, order@.insert(p as int, k)) =~= sorted.insert(
                    p as int,
                    all[k as int],
                ));
            }
            order.insert(p, k);
        }
        k = k + 1;
    }
    proof {
        assert(all.take(n as int) =~= all);
    }
    let ghost chosen = picked(all, order@);
    assert(chosen == selection(all, *query, now));
    let total: usize = order.len();
    let offset: usize = match query.offset {
        Some(o) => if (o as usize) < total {
            o as usize
        } else {
            total
        },
        None => 0,
    };
    let limit: u32 = match query.limit {
        Some(l) => l,
        None => DEFAULT_LIMIT,
    };
    let end: usize = if (limit as usize) < total - offset {
        offset + limit as usize
    } else {
        total
    };
    let mut out: Vec<PaymentLink> = Vec::new();
    let mut j: usize = offset;
    proof {
        assert(views(out@) =~= chosen.subrange(offset as int, j as int).map_values(reads(now)));
    }
    while j < end
        invariant
            n == links.len(),
            all == views(links@),
            chosen == picked(all, order@),
            total == order.len(),
            offset <= j <= end <= total,
            forall|i: int| 0 <= i < order.len() ==> (#[trigger] order@[i]) < n,
            views(out@) == chosen.subrange(offset as int, j as int).map_values(reads(now)),
        decreases end - j,
    {
        let at: usize = order[j];
        let mut link = links[at].duplicate();
        link.status = effective_status(&links[at], now);
        proof {
            assert(link@ == observed(chosen[j as int], now));
            let shown = chosen.subrange(offset as int, j as int);
            let more = chosen.subrange(offset as int, j + 1);
            assert(more =~= shown.push(chosen[j as int]));
            assert(more.map_values(reads(now)) =~= shown.map_values(reads(now)).push(link@));
            assert(views(out@.push(link)) =~= views(out@).push(link@));
        }
        out.push(link);
        j = j + 1;
    }
    proof {
        assert(chosen.subrange(offset as int, end as int) == page(
            chosen,
            offset_of(*query),
            limit_of(*query),
        ));
    }
    out
}

/// No link of the sequence is newer than a link before it.
pub open spec fn is_newest_first(links: Seq<LinkModel>) -> bool {
    forall|i: int, j: int|
        0 <= i < j < links.len() ==> (#[trigger] links[i]).created_at >= (
        #[trigger] links[j]).created_at
}

/// The place at which inserting by age puts `x`: behind the last link that
/// is at least as new.
spec fn place_by_age(sorted: Seq<LinkModel>, x: LinkModel) -> int
    decreases sorted.len(),
{
    if sorted.len() == 0 || sorted.last().created_at >= x.created_at {
        sorted.len() as int
    } else {
        place_by_age(sorted.drop_last(), x)
    }
}

proof fn lemma_place_by_age(sorted: Seq<LinkModel>, x: LinkModel)
    ensures
        0 <= place_by_age(sorted, x) <= sorted.len(),
        forall|j: int|
            place_by_age(sorted, x) <= j < sorted.len() ==> (#[trigger] sorted[j]).created_at
                < x.created_at,
        place_by_age(sorted, x) > 0 ==> sorted[place_by_age(sorted, x) - 1].created_at
            >= x.created_at,
        insert_by_age(sorted, x) == sorted.insert(place_by_age(sorted, x), x),
    decreases sorted.len(),
{
    if sorted.len() == 0 || sorted.last().created_at >= x.created_at {
    } else {
        let front = sorted.drop_last();
        lemma_place_by_age(front, x);
        let p = place_by_age(front, x);
        assert forall|j: int| p <= j < sorted.len() implies (#[trigger] sorted[j]).created_at
            < x.created_at by {
            if j < front.len() {
                assert(front[j] == sorted[j]);
            }
        }
        if p > 0 {
            assert(front[p - 1] == sorted[p - 1]);
        }
    }
    lemma_insert_by_age_at(sorted, x, place_by_age(sorted, x));
}

/// Inserting by age into links that are newest first leaves them newest
/// first, and adds the link to those that were there.
pub proof fn lemma_insert_by_age(sorted: Seq<LinkModel>, x: LinkModel)
    ensures
        insert_by_age(sorted, x).len() == sorted.len() + 1,
        insert_by_age(sorted, x).to_multiset() == sorted.to_multiset().insert(x),
        is_newest_first(sorted) ==> is_newest_first(insert_by_age(sorted, x)),
{
    lemma_place_by_age(sorted, x);
    let p = place_by_age(sorted, x);
    let next = sorted.insert(p, x);
    vstd::seq_lib::to_multiset_insert(sorted, p, x);
    if is_newest_first(sorted) {
        assert forall|i: int, j: int| 0 <= i < j < next.len() implies (#[trigger] next[i]).created_at
            >= (#[trigger] next[j]).created_at by {
            if j < p {
                assert(next[i] == sorted[i] && next[j] == sorted[j]);
            } else if j == p {
                assert(next[i] == sorted[i]);
                if i < p - 1 {
                    assert(sorted[i].created_at >= sorted[p - 1].created_at);
                }
            } else if i < p {
                assert(next[i] == sorted[i] && next[j] == sorted[j - 1]);
            } else if i == p {
                assert(next[j] == sorted[j - 1]);
            } else {
                assert(next[i] == sorted[i - 1] && next[j] == sorted[j - 1]);
            }
        }
    }
}

/// Ordering links newest first yields the same links, each as often as
/// before, and no link of the result is newer than one before it.
pub proof fn lemma_newest_first(links: Seq<LinkModel>)
    ensures
        newest_first(links).len() == links.len(),
        newest_first(links).to_multiset() == links.to_multiset(),
        is_newest_first(newest_first(links)),
    decreases links.len(),
{
    if links.len() > 0 {
        let front = links.drop_last();
        lemma_newest_first(front);
        lemma_insert_by_age(newest_first(front), links.last());
        vstd::seq_lib::to_multiset_build(front, links.last());
        assert(front.push(links.last()) =~= links);
    } else {
        assert(is_newest_first(links));
    }
}

/// The test whether a link was created at time `t`.
pub open spec fn created_at_time(t: u64) -> spec_fn(LinkModel) -> bool {
    |l: LinkModel| l.created_at == t
}

proof fn lemma_filter_push(links: Seq<LinkModel>, x: LinkModel, keep: spec_fn(LinkModel) -> bool)
    ensures
        links.push(x).filter(keep) == if keep(x) {
            links.filter(keep).push(x)
        } else {
            links.filter(keep)
        },
{
    reveal(Seq::filter);
    assert(links.push(x).drop_last() =~= links);
}

proof fn lemma_insert_by_age_stable(sorted: Seq<LinkModel>, x: LinkModel, t: u64)
    ensures
        insert_by_age(sorted, x).filter(created_at_time(t)) == if x.created_at == t {
            sorted.filter(created_at_time(t)).push(x)
        } else {
            sorted.filter(created_at_time(t))
        },
    decreases sorted.len(),
{
    let keep = created_at_time(t);
    if sorted.len() == 0 || sorted.last().created_at >= x.created_at {
        lemma_filter_push(sorted, x, keep);
    } else {
        let front = sorted.drop_last();
        lemma_insert_by_age_stable(front, x, t);
        lemma_filter_push(insert_by_age(front, x), sorted.last(), keep);
        lemma_filter_push(front, sorted.last(), keep);
        assert(front.push(sorted.last()) =~= sorted);
    }
}

/// Ordering is stable: the links of any one creation time stand in the
/// result in the order in which they stood before.
pub proof fn lemma_newest_first_stable(links: Seq<LinkModel>, t: u64)
    ensures
        newest_first(links).filter(created_at_time(t)) == links.filter(created_at_time(t)),
    decreases links.len(),
{
    if links.len() > 0 {
        let front = links.drop_last();
        lemma_newest_first_stable(front, t);
        lemma_insert_by_age_stable(newest_first(front), links.last(), t);
        lemma_filter_push(front, links.last(), created_at_time(t));
        assert(front.push(links.last()) =~= links);
    }
}

/// A listing holds at most as many links as the query's limit allows, and
/// never more than there are.
pub proof fn lemma_listing_bounded(links: Seq<LinkModel>, query: ListPaymentLinksQuery, now: u64)
    ensures
        listing(links, query, now).len() <= limit_of(query),
        listing(links, query, now).len() <= links.len(),
{
    let kept = links.filter(keeps(query, now));
    links.lemma_filter_len(keeps(query, now));
    lemma_newest_first(kept);
}

/// A listing is ordered by creation time, newest first.
pub proof fn lemma_listing_ordered(links: Seq<LinkModel>, query: ListPaymentLinksQuery, now: u64)
    ensures
        is_newest_first(listing(links, query, now)),
{
    let kept = links.filter(keeps(query, now));
    lemma_newest_first(kept);
    let chosen = selection(links, query, now);
    let part = page(chosen, offset_of(query), limit_of(query));
    let shown = listing(links, query, now);
    let start = if offset_of(query) < chosen.len() {
        offset_of(query) as int
    } else {
        chosen.len() as int
    };
    assert forall|i: int, j: int| 0 <= i < j < shown.len() implies (#[trigger] shown[i]).created_at
        >= (#[trigger] shown[j]).created_at by {
        assert(shown[i] == observed(part[i], now));
        assert(shown[j] == observed(part[j], now));
        assert(part[i] == chosen[start + i]);
        assert(part[j] == chosen[start + j]);
    }
}

/// Every link of a listing is a stored link that the query selects, as it
/// reads at the time of the query.
pub proof fn lemma_listing_sound(
    links: Seq<LinkModel>,
    query: ListPaymentLinksQuery,
    now: u64,
    i: int,
)
    requires
        0 <= i < listing(links, query, now).len(),
    ensures
        exists|k: int|
            0 <= k < links.len() && selected(#[trigger] links[k], query, now) && listing(
                links,
                query,
                now,
            )[i] == observed(links[k], now),
{
    let kept = links.filter(keeps(query, now));
    let chosen = selection(links, query, now);
    let part = page(chosen, offset_of(query), limit_of(query));
    let start = if offset_of(query) < chosen.len() {
        offset_of(query) as int
    } else {
        chosen.len() as int
    };
    let link = chosen[start + i];
    assert(part[i] == link);
    lemma_newest_first(kept);
    chosen.to_multiset_ensures();
    kept.to_multiset_ensures();
    assert(chosen.contains(link));
    assert(chosen.to_multiset().count(link) > 0);
    assert(kept.to_multiset().count(link) > 0);
    assert(kept.contains(link));
    let at = choose|at: int| 0 <= at < kept.len() && kept[at] == link;
    links.lemma_filter_pred(keeps(query, now), at);
    links.lemma_filter_contains_rev(keeps(query, now), link);
    let k = choose|k: int| 0 <= k < links.len() && links[k] == link;
    assert(selected(links[k], query, now));
}

/// Every stored link that the query selects is among the selected links,
/// of which a listing shows one page.
pub proof fn lemma_selection_complete(
    links: Seq<LinkModel>,
    query: ListPaymentLinksQuery,
    now: u64,
    k: int,
)
    requires
        0 <= k < links.len(),
        selected(links[k], query, now),
    ensures
        selection(links, query, now).contains(links[k]),
{
    let kept = links.filter(keeps(query, now));
    links.lemma_filter_contains(keeps(query, now), k);
    lemma_newest_first(kept);
    selection(links, query, now).to_multiset_ensures();
    kept.to_multiset_ensures();
    assert(kept.to_multiset().count(links[k]) > 0);
    assert(selection(links, query, now).to_multiset().count(links[k]) > 0);
}

} // verus!
