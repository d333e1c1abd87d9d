//! The rules on lists of orders that the apps share: which orders a view
//! shows, how a loaded list splits into live orders and history, and the
//! order of the history lists.

use vstd::prelude::*;
use crate::keyed::{deref_all, Selection, kept_by, select_refs};
use crate::sorting::{stably_sorted, strict_total_order, with_key, lemma_insert_sorted};
use crate::model::{OrderEntry, OrderStatus, OrderPaymentStatus, is_terminal, status_is_terminal};

verus! {

/// Seconds in a day.
pub const SECONDS_PER_DAY: u64 = 86400;

/// The UTC day (days since the Unix epoch) of a time in seconds.
pub open spec fn day_of(ts: u64) -> int {
    ts as int / SECONDS_PER_DAY as int
}

/// A choice of orders that a list or a count shows.
#[derive(Clone, Copy, Debug, PartialEq, Eq, Structural)]
pub enum OrderSelector {
    /// Orders with this status.
    Status(OrderStatus),
    /// Orders with this payment status.
    Payment(OrderPaymentStatus),
    /// Orders that are neither completed nor canceled.
    Open,
    /// Orders that are completed or canceled.
    Closed,
    /// Paid orders that are neither completed nor canceled: the packages a
    /// consumer can track.
    InTransit,
    /// Orders ready for delivery that no courier took yet.
    AwaitingCourier,
    /// Orders with this status placed on the given UTC day, or on any day.
    StatusOnDay(OrderStatus, Option<u64>),
}

/// Whether `sel` picks `e`.
pub open spec fn selects<T>(sel: OrderSelector, e: OrderEntry<T>) -> bool {
    match sel {
        OrderSelector::Status(s) => e.order_status == s,
        OrderSelector::Payment(p) => e.payment_status == p,
        OrderSelector::Open => !is_terminal(e.order_status),
        OrderSelector::Closed => is_terminal(e.order_status),
        OrderSelector::InTransit => !is_terminal(e.order_status) && e.payment_status
            == OrderPaymentStatus::PaymentSuccess,
        OrderSelector::AwaitingCourier => e.order_status == OrderStatus::ReadyForDelivery
            && e.courier is None,
        OrderSelector::StatusOnDay(s, day) => e.order_status == s && match day {
            Some(d) => day_of(e.timestamp) == d,
            None => true,
        },
    }
}

/// The test "`sel` picks the order".
pub open spec fn selected_by<T>(sel: OrderSelector) -> spec_fn(OrderEntry<T>) -> bool {
    |e: OrderEntry<T>| selects(sel, e)
}

/// Whether `sel` picks `e`.
pub fn order_matches<T>(sel: OrderSelector, e: &OrderEntry<T>) -> (r: bool)
    ensures
        r == selects(sel, *e),
{
    match sel {
        OrderSelector::Status(s) => e.order_status == s,
        OrderSelector::Payment(p) => e.payment_status == p,
        OrderSelector::Open => !status_is_terminal(e.order_status),
        OrderSelector::Closed => status_is_terminal(e.order_status),
        OrderSelector::InTransit => !status_is_terminal(e.order_status) && e.payment_status
            == OrderPaymentStatus::PaymentSuccess,
        OrderSelector::AwaitingCourier => e.order_status == OrderStatus::ReadyForDelivery
            && e.courier.is_none(),
        OrderSelector::StatusOnDay(s, day) => e.order_status == s && match day {
            Some(d) => e.timestamp / SECONDS_PER_DAY == d,
            None => true,
        },
    }
}

/// An order selector is a test on orders.
impl<T> Selection<OrderEntry<T>> for OrderSelector {
    open spec fn keeps(&self, e: OrderEntry<T>) -> bool {
        selects(*self, e)
    }

    fn picks(&self, e: &OrderEntry<T>) -> (b: bool) {
        order_matches(*self, e)
    }
}

/// The orders of `v` that `sel` picks, in their order.
pub fn select_orders<'a, T>(v: &'a Vec<OrderEntry<T>>, sel: OrderSelector) -> (r: Vec<&'a OrderEntry<T>>)
    ensures
        deref_all(r@) == v@.filter(selected_by::<T>(sel)),
        sel == OrderSelector::InTransit ==> forall|i: int| 0 <= i < r@.len() ==> {
            &&& (#[trigger] r@[i]).order_status != OrderStatus::Completed
            &&& r@[i].order_status != OrderStatus::Canceled
            &&& r@[i].payment_status == OrderPaymentStatus::PaymentSuccess
        },
        sel == OrderSelector::Open ==> forall|i: int| 0 <= i < r@.len() ==> {
            &&& (#[trigger] r@[i]).order_status != OrderStatus::Completed
            &&& r@[i].order_status != OrderStatus::Canceled
        },
        sel == OrderSelector::Closed ==> forall|i: int| 0 <= i < r@.len() ==>
            (#[trigger] r@[i]).order_status == OrderStatus::Completed || r@[i].order_status == OrderStatus::Canceled,
{
    let r = select_refs(v, &sel);
    assert(kept_by::<OrderEntry<T>, OrderSelector>(sel) =~= selected_by::<T>(sel));
    proof {
        v@.filter_lemma(selected_by::<T>(sel));
        assert forall|i: int| 0 <= i < r@.len() implies selects(sel, *#[trigger] r@[i]) by {
            assert(deref_all(r@)[i] == *r@[i]);
        }
        if sel == OrderSelector::InTransit || sel == OrderSelector::Open || sel == OrderSelector::Closed {
            assert forall|i: int| 0 <= i < r@.len() implies #[trigger] law_status_of(sel, *r@[i]) by {
                lemma_selection_meaning::<T>(*r@[i]);
            }
        }
    }
    r
}

/// What a selector's choice means for an order's status: true when the
/// order fits the selector's description.
pub open spec fn law_status_of<T>(sel: OrderSelector, e: OrderEntry<T>) -> bool {
    match sel {
        OrderSelector::InTransit => e.order_status != OrderStatus::Completed && e.order_status
            != OrderStatus::Canceled && e.payment_status == OrderPaymentStatus::PaymentSuccess,
        OrderSelector::Open => e.order_status != OrderStatus::Completed && e.order_status != OrderStatus::Canceled,
        OrderSelector::Closed => e.order_status == OrderStatus::Completed || e.order_status == OrderStatus::Canceled,
        _ => true,
    }
}

/// The open orders are those neither completed nor canceled, the closed ones
/// those completed or canceled; a package is in transit exactly when its
/// order is open and paid, so every package in transit is an open order;
/// an order awaits a courier exactly when it is ready and nobody took it.
pub proof fn lemma_selection_meaning<T>(e: OrderEntry<T>)
    ensures
        selects(OrderSelector::Open, e) == (e.order_status != OrderStatus::Completed && e.order_status
            != OrderStatus::Canceled),
        selects(OrderSelector::Closed, e) == (e.order_status == OrderStatus::Completed || e.order_status
            == OrderStatus::Canceled),
        selects(OrderSelector::InTransit, e) == (e.order_status != OrderStatus::Completed
            && e.order_status != OrderStatus::Canceled && e.payment_status
            == OrderPaymentStatus::PaymentSuccess),
        selects(OrderSelector::InTransit, e) ==> selects(OrderSelector::Open, e),
        selects(OrderSelector::AwaitingCourier, e) == (e.order_status == OrderStatus::ReadyForDelivery
            && e.courier is None),
        selects(OrderSelector::Open, e) != selects(OrderSelector::Closed, e),
        selects(OrderSelector::InTransit, e) ==> law_status_of(OrderSelector::InTransit, e),
        selects(OrderSelector::Open, e) ==> law_status_of(OrderSelector::Open, e),
        selects(OrderSelector::Closed, e) ==> law_status_of(OrderSelector::Closed, e),
{
}

/// Splitting orders into open ones and closed ones loses none and makes
/// none up: together the two lists hold each order as often as the whole.
pub proof fn lemma_open_closed_partition<T>(s: Seq<OrderEntry<T>>)
    ensures
        s.filter(selected_by::<T>(OrderSelector::Open)).to_multiset().add(
            s.filter(selected_by::<T>(OrderSelector::Closed)).to_multiset(),
        ) == s.to_multiset(),
    decreases s.len(),
{
    broadcast use vstd::seq_lib::group_to_multiset_ensures;
    let open = selected_by::<T>(OrderSelector::Open);
    let closed = selected_by::<T>(OrderSelector::Closed);
    if s.len() == 0 {
        reveal(Seq::filter);
        assert(s.filter(open) =~= Seq::<OrderEntry<T>>::empty());
        assert(s.filter(closed) =~= Seq::<OrderEntry<T>>::empty());
        assert(s.filter(open).to_multiset().add(s.filter(closed).to_multiset()) =~= s.to_multiset());
    } else {
        let p = s.drop_last();
        let x = s.last();
        lemma_open_closed_partition(p);
        assert(s == p.push(x));
        p.lemma_filter_push(x, open);
        p.lemma_filter_push(x, closed);
        assert(s.filter(open).to_multiset().add(s.filter(closed).to_multiset()) =~= s.to_multiset());
    }
}

/// Splits `v` into the orders that are still open and those that are
/// completed or canceled, each in its order.
pub fn split_open_closed<T>(v: Vec<OrderEntry<T>>) -> (r: (Vec<OrderEntry<T>>, Vec<OrderEntry<T>>))
    ensures
        r.0@ == v@.filter(selected_by::<T>(OrderSelector::Open)),
        r.1@ == v@.filter(selected_by::<T>(OrderSelector::Closed)),
        forall|i: int| 0 <= i < r.0@.len() ==> (#[trigger] r.0@[i]).order_status != OrderStatus::Completed
            && r.0@[i].order_status != OrderStatus::Canceled,
        forall|i: int| 0 <= i < r.1@.len() ==> (#[trigger] r.1@[i]).order_status == OrderStatus::Completed
            || r.1@[i].order_status == OrderStatus::Canceled,
        r.0@.len() + r.1@.len() == v@.len(),
{
    let ghost s = v@;
    let total = v.len();
    let mut rest = v;
    let mut open: Vec<OrderEntry<T>> = Vec::new();
    let mut closed: Vec<OrderEntry<T>> = Vec::new();
    let mut i: usize = 0;
    while rest.len() > 0
        invariant
            s.len() == total,
            i <= s.len(),
            rest@ == s.subrange(i as int, s.len() as int),
            open@ == s.subrange(0, i as int).filter(selected_by::<T>(OrderSelector::Open)),
            closed@ == s.subrange(0, i as int).filter(selected_by::<T>(OrderSelector::Closed)),
        decreases rest.len(),
    {
        proof {
            reveal(Seq::filter);
        }
        assert(s.subrange(0, i + 1).drop_last() == s.subrange(0, i as int));
        assert(s.subrange(0, i + 1).last() == s[i as int]);
        let e = rest.remove(0);
        if status_is_terminal(e.order_status) {
            closed.push(e);
        } else {
            open.push(e);
        }
        i += 1;
        assert(rest@ == s.subrange(i as int, s.len() as int));
    }
    assert(s.subrange(0, s.len() as int) == s);
    proof {
        broadcast use vstd::seq_lib::group_to_multiset_ensures;
        s.filter_lemma(selected_by::<T>(OrderSelector::Open));
        s.filter_lemma(selected_by::<T>(OrderSelector::Closed));
        assert forall|i: int| 0 <= i < open@.len() implies (#[trigger] open@[i]).order_status != OrderStatus::Completed
            && open@[i].order_status != OrderStatus::Canceled by {
            lemma_selection_meaning(open@[i]);
        }
        assert forall|i: int| 0 <= i < closed@.len() implies (#[trigger] closed@[i]).order_status == OrderStatus::Completed
            || closed@[i].order_status == OrderStatus::Canceled by {
            lemma_selection_meaning(closed@[i]);
        }
        lemma_open_closed_partition(s);
        assert(open@.to_multiset().add(closed@.to_multiset()).len() == open@.len() + closed@.len());
    }
    (open, closed)
}

/// A parsed order that is still open, and nothing for any other.
pub open spec fn open_parsed<T>() -> spec_fn(Option<OrderEntry<T>>) -> Option<OrderEntry<T>> {
    |o: Option<OrderEntry<T>>| match o {
        Some(e) => if !is_terminal(e.order_status) {
            Some(e)
        } else {
            None
        },
        None => None,
    }
}

/// A parsed order that is completed or canceled, and nothing for any other.
pub open spec fn closed_parsed<T>() -> spec_fn(Option<OrderEntry<T>>) -> Option<OrderEntry<T>> {
    |o: Option<OrderEntry<T>>| match o {
        Some(e) => if is_terminal(e.order_status) {
            Some(e)
        } else {
            None
        },
        None => None,
    }
}

/// How many of the stored orders were parsed.
pub open spec fn parsed_count<T>(s: Seq<Option<OrderEntry<T>>>) -> nat
    decreases s.len(),
{
    if s.len() == 0 {
        0
    } else {
        parsed_count(s.drop_last()) + if s.last() is Some { 1nat } else { 0nat }
    }
}

/// Each parsed order goes to exactly one side: to the open ones when it is
/// neither completed nor canceled, to the finished ones when it is; an
/// order that was not parsed goes to neither.
pub proof fn lemma_parsed_sides<T>(o: Option<OrderEntry<T>>)
    ensures
        match o {
            Some(e) => if e.order_status == OrderStatus::Completed || e.order_status == OrderStatus::Canceled {
                &&& (closed_parsed::<T>())(o) == Some(e)
                &&& (open_parsed::<T>())(o) is None
            } else {
                &&& (open_parsed::<T>())(o) == Some(e)
                &&& (closed_parsed::<T>())(o) is None
            },
            None => (open_parsed::<T>())(o) is None && (closed_parsed::<T>())(o) is None,
        },
{
}

/// Splits stored orders, each parsed or not, into the open ones and the
/// completed or canceled ones, each in its order; unparsed ones are dropped.
pub fn split_parsed<T>(v: Vec<Option<OrderEntry<T>>>) -> (r: (Vec<OrderEntry<T>>, Vec<OrderEntry<T>>))
    ensures
        r.0@ == v@.filter_map(open_parsed::<T>()),
        r.1@ == v@.filter_map(closed_parsed::<T>()),
        forall|i: int| 0 <= i < r.0@.len() ==> (#[trigger] r.0@[i]).order_status != OrderStatus::Completed
            && r.0@[i].order_status != OrderStatus::Canceled,
        forall|i: int| 0 <= i < r.1@.len() ==> (#[trigger] r.1@[i]).order_status == OrderStatus::Completed
            || r.1@[i].order_status == OrderStatus::Canceled,
        r.0@.len() + r.1@.len() == parsed_count(v@),
{
    let ghost s = v@;
    let total = v.len();
    let mut rest = v;
    let mut open: Vec<OrderEntry<T>> = Vec::new();
    let mut closed: Vec<OrderEntry<T>> = Vec::new();
    let mut i: usize = 0;
    while rest.len() > 0
        invariant
            s.len() == total,
            i <= s.len(),
            rest@ == s.subrange(i as int, s.len() as int),
            open@ == s.subrange(0, i as int).filter_map(open_parsed::<T>()),
            closed@ == s.subrange(0, i as int).filter_map(closed_parsed::<T>()),
            forall|j: int| 0 <= j < open@.len() ==> (#[trigger] open@[j]).order_status != OrderStatus::Completed
                && open@[j].order_status != OrderStatus::Canceled,
            forall|j: int| 0 <= j < closed@.len() ==> (#[trigger] closed@[j]).order_status == OrderStatus::Completed
                || closed@[j].order_status == OrderStatus::Canceled,
            open@.len() + closed@.len() == parsed_count(s.subrange(0, i as int)),
        decreases rest.len(),
    {
        let ghost o = open@;
        let ghost c = closed@;
        assert(s.subrange(0, i + 1).drop_last() == s.subrange(0, i as int));
        assert(s.subrange(0, i + 1).last() == s[i as int]);
        let item = rest.remove(0);
        match item {
            Some(e) => {
                if status_is_terminal(e.order_status) {
                    closed.push(e);
                    assert(closed@ == c + seq![s[i as int]->0]);
                } else {
                    open.push(e);
                    assert(open@ == o + seq![s[i as int]->0]);
                }
            },
            None => {},
        }
        i += 1;
        assert(rest@ == s.subrange(i as int, s.len() as int));
    }
    assert(s.subrange(0, s.len() as int) == s);
    (open, closed)
}

/// The time of an order, by which history lists are sorted.
pub open spec fn order_time<T>() -> spec_fn(OrderEntry<T>) -> u64 {
    |e: OrderEntry<T>| e.timestamp
}

/// The order of history lists: a later time comes first.
pub open spec fn later() -> spec_fn(u64, u64) -> bool {
    |a: u64, b: u64| a > b
}

/// `r` is `s` from the newest order to the oldest, orders of the same time
/// in the order they came in.
pub open spec fn newest_first<T>(r: Seq<OrderEntry<T>>, s: Seq<OrderEntry<T>>) -> bool {
    stably_sorted(r, s, order_time::<T>(), later())
}

/// Sorts orders from the newest to the oldest; orders of the same time keep
/// their order.
pub fn sort_newest_first<'a, T>(v: Vec<&'a OrderEntry<T>>) -> (r: Vec<&'a OrderEntry<T>>)
    ensures
        newest_first(deref_all(r@), deref_all(v@)),
{
    let ghost s = deref_all(v@);
    let ghost key = order_time::<T>();
    let ghost lt = later();
    let total = v.len();
    let mut rest = v;
    let mut out: Vec<&'a OrderEntry<T>> = Vec::new();
    let mut i: usize = 0;
    proof {
        broadcast use vstd::seq_lib::group_to_multiset_ensures;
        assert(strict_total_order(lt));
        assert(deref_all(out@) == s.subrange(0, 0));
        assert forall|k: u64| #[trigger] deref_all(out@).filter(with_key(key, k))
            == s.subrange(0, 0).filter(with_key(key, k)) by {
            reveal(Seq::filter);
            assert(deref_all(out@) == Seq::<OrderEntry<T>>::empty());
            assert(s.subrange(0, 0) == Seq::<OrderEntry<T>>::empty());
        }
    }
    while rest.len() > 0
        invariant
            s.len() == total,
            i <= s.len(),
            key == order_time::<T>(),
            lt == later(),
            strict_total_order(lt),
            deref_all(rest@) == s.subrange(i as int, s.len() as int),
            stably_sorted(deref_all(out@), s.subrange(0, i as int), key, lt),
        decreases rest.len(),
    {
        broadcast use vstd::seq_lib::group_to_multiset_ensures;
        let ghost rest_before = rest@;
        assert(deref_all(rest_before).len() == rest_before.len());
        assert(i < s.len());
        let e = rest.remove(0);
        assert(e == rest_before[0]);
        assert(deref_all(rest_before)[0] == *rest_before[0]);
        assert(deref_all(rest_before)[0] == s.subrange(i as int, s.len() as int)[0]);
        assert(*e == s[i as int]);
        let mut p: usize = 0;
        while p < out.len() && out[p].timestamp >= e.timestamp
            invariant
                p <= out.len(),
                key == order_time::<T>(),
                lt == later(),
                forall|q: int| 0 <= q < p ==> !lt(key(*e), key(#[trigger] deref_all(out@)[q])),
            decreases out.len() - p,
        {
            assert(deref_all(out@)[p as int] == *out@[p as int]);
            p += 1;
        }
        let ghost before = deref_all(out@);
        proof {
            if p < out.len() {
                assert(before[p as int] == *out@[p as int]);
                assert(lt(key(*e), key(before[p as int])));
            }
            lemma_insert_sorted(before, p as int, *e, key, lt);
        }
        out.insert(p, e);
        proof {
            let prev = s.subrange(0, i as int);
            vstd::seq_lib::to_multiset_insert(before, p as int, *e);
            assert(s.subrange(0, i + 1) == prev.push(*e));
            assert(deref_all(out@) == before.insert(p as int, *e));
            assert forall|k: u64| #[trigger] deref_all(out@).filter(with_key(key, k))
                == s.subrange(0, i + 1).filter(with_key(key, k)) by {
                prev.lemma_filter_push(*e, with_key(key, k));
                assert(before.filter(with_key(key, k)) == prev.filter(with_key(key, k)));
            }
        }
        assert(rest@ == rest_before.subrange(1, rest_before.len() as int));
        assert(deref_all(rest@) =~= deref_all(rest_before).subrange(1, rest_before.len() as int));
        i += 1;
        assert(deref_all(rest@) =~= s.subrange(i as int, s.len() as int));
    }
    assert(s.subrange(0, s.len() as int) == s);
    out
}

/// The two lists of an order history page: the completed and the canceled
/// orders of the chosen UTC day (or of every day), each from the newest to
/// the oldest.
pub fn history_lists<'a, T>(v: &'a Vec<OrderEntry<T>>, day: Option<u64>) -> (r: (Vec<&'a OrderEntry<T>>, Vec<&'a OrderEntry<T>>))
    ensures
        newest_first(deref_all(r.0@), v@.filter(
            selected_by::<T>(OrderSelector::StatusOnDay(OrderStatus::Completed, day)),
        )),
        newest_first(deref_all(r.1@), v@.filter(
            selected_by::<T>(OrderSelector::StatusOnDay(OrderStatus::Canceled, day)),
        )),
{
    let completed = select_orders(v, OrderSelector::StatusOnDay(OrderStatus::Completed, day));
    let canceled = select_orders(v, OrderSelector::StatusOnDay(OrderStatus::Canceled, day));
    let a = sort_newest_first(completed);
    let b = sort_newest_first(canceled);
    (a, b)
}

} // verus!
