//! The platform statistics the admin app shows: the registered users and the
//! last known status of every order.

use vstd::prelude::*;
use crate::keyed::{Keyed, lookup, is_first, lacks_key, replaced_or_pushed, replace_or_push,
    lemma_lookup, lemma_replaced_or_pushed};
use crate::model::{Note, OrderStatus};

verus! {

/// The last known status of one order.
#[derive(Clone, Debug)]
pub struct OrderStat {
    pub order_id: String,
    pub status: OrderStatus,
}

/// Order statistics are looked up by order id.
impl Keyed for OrderStat {
    open spec fn key_of(&self) -> Seq<char> {
        self.order_id@
    }

    fn key(&self) -> (k: &String) {
        &self.order_id
    }
}

/// No two entries of `s` share an order id: `s` is a map from order ids to
/// statuses.
pub open spec fn unique_ids(s: Seq<OrderStat>) -> bool {
    forall|i: int, j: int|
        0 <= i < s.len() && 0 <= j < s.len() && i != j ==> #[trigger] s[i].key_of() != #[trigger] s[j].key_of()
}

/// How many entries of `s` have status `st`.
pub open spec fn count_status(s: Seq<OrderStat>, st: OrderStatus) -> nat
    decreases s.len(),
{
    if s.len() == 0 {
        0
    } else {
        count_status(s.drop_last(), st) + if s.last().status == st {
            1nat
        } else {
            0nat
        }
    }
}

/// The entries after inserting every entry of `items`, in order, into
/// `base`, each one overwriting the status of its order.
pub open spec fn inserted_all(base: Seq<OrderStat>, items: Seq<OrderStat>) -> Seq<OrderStat>
    decreases items.len(),
{
    if items.len() == 0 {
        base
    } else {
        replaced_or_pushed(inserted_all(base, items.drop_last()), items.last())
    }
}

/// 1 when the order with `e`'s id had status `st` in `s`, else 0.
pub open spec fn had_status(s: Seq<OrderStat>, e: OrderStat, st: OrderStatus) -> nat {
    match lookup(s, e.key_of()) {
        Some(o) => if o.status == st {
            1nat
        } else {
            0nat
        },
        None => 0nat,
    }
}

/// The platform statistics.
#[derive(Clone, Debug)]
pub struct PlatformStats {
    loaded: bool,
    orders: Vec<OrderStat>,
    users: Vec<Note>,
}

/// The changes the statistics context receives. An order is given by its id
/// and by the status its note names, when that names one.
pub enum PlatformStatsAction {
    FinishLoading,
    LoadStats(Vec<Note>, Vec<OrderStat>),
    AddOrder(String, Option<OrderStatus>),
    AddUser(Note),
}

/// Counting an update in place: the count loses the old entry's status and
/// gains the new one's.
proof fn lemma_count_update(s: Seq<OrderStat>, i: int, e: OrderStat, st: OrderStatus)
    requires
        0 <= i < s.len(),
    ensures
        count_status(s.update(i, e), st) + (if s[i].status == st { 1nat } else { 0nat })
            == count_status(s, st) + (if e.status == st { 1nat } else { 0nat }),
    decreases s.len(),
{
    let u = s.update(i, e);
    if i == s.len() - 1 {
        assert(u.drop_last() == s.drop_last());
    } else {
        assert(u.drop_last() == s.drop_last().update(i, e));
        lemma_count_update(s.drop_last(), i, e, st);
    }
}

impl PlatformStats {
    /// The orders are a map: no order id occurs twice.
    pub closed spec fn wf(&self) -> bool {
        unique_ids(self.orders@)
    }

    /// The order entries.
    pub closed spec fn orders_view(&self) -> Seq<OrderStat> {
        self.orders@
    }

    /// The registered users' notes.
    pub closed spec fn users_view(&self) -> Seq<Note> {
        self.users@
    }

    /// Whether loading has finished.
    pub closed spec fn is_loaded(&self) -> bool {
        self.loaded
    }

    /// No statistics yet.
    pub fn new() -> (r: Self)
        ensures
            r.wf(),
            r.orders_view().len() == 0,
            r.users_view().len() == 0,
            !r.is_loaded(),
    {
        PlatformStats { loaded: false, orders: Vec::new(), users: Vec::new() }
    }

    /// How many orders have status `st`.
    fn count_with_status(&self, st: OrderStatus) -> (r: usize)
        ensures
            r == count_status(self.orders@, st),
    {
        let mut n: usize = 0;
        let mut i: usize = 0;
        while i < self.orders.len()
            invariant
                i <= self.orders.len(),
                n == count_status(self.orders@.subrange(0, i as int), st),
                n <= i,
            decreases self.orders.len() - i,
        {
            assert(self.orders@.subrange(0, i + 1).drop_last() == self.orders@.subrange(0, i as int));
            if self.orders[i].status == st {
                n += 1;
            }
            i += 1;
        }
        assert(self.orders@.subrange(0, self.orders@.len() as int) == self.orders@);
        n
    }

    /// How many orders are completed.
    pub fn count_completed_orders(&self) -> (r: usize)
        ensures
            r == count_status(self.orders_view(), OrderStatus::Completed),
    {
        self.count_with_status(OrderStatus::Completed)
    }

    /// The number the dashboard shows as pending orders: it counts the
    /// canceled orders.
    pub fn count_pending_orders(&self) -> (r: usize)
        ensures
            r == count_status(self.orders_view(), OrderStatus::Canceled),
    {
        self.count_with_status(OrderStatus::Canceled)
    }

    /// How many users registered.
    pub fn count_users(&self) -> (r: usize)
        ensures
            r == self.users_view().len(),
    {
        self.users.len()
    }

    /// Whether the statistics are still loading.
    pub fn loading(&self) -> (r: bool)
        ensures
            r == !self.is_loaded(),
    {
        !self.loaded
    }

    /// The status recorded for an order id, if any.
    pub fn order_status(&self, order_id: &str) -> (r: Option<OrderStatus>)
        ensures
            match lookup(self.orders_view(), order_id@) {
                Some(o) => r == Some(o.status),
                None => r is None,
            },
    {
        match crate::keyed::find_by_key(&self.orders, &order_id.to_owned()) {
            Some(o) => Some(o.status),
            None => None,
        }
    }

    /// Records `e`, overwriting the status of its order.
    fn insert_order(&mut self, e: OrderStat)
        requires
            old(self).wf(),
        ensures
            final(self).wf(),
            final(self).orders@ == replaced_or_pushed(old(self).orders@, e),
            final(self).users@ == old(self).users@,
            final(self).loaded == old(self).loaded,
    {
        let ghost s = self.orders@;
        proof {
            lemma_lookup(s, e.key_of());
        }
        replace_or_push(&mut self.orders, e);
        proof {
            let r = self.orders@;
            if exists|i: int| is_first(s, e.key_of(), i) {
                let i = choose|i: int| is_first(s, e.key_of(), i);
                assert forall|a: int, b: int| 0 <= a < r.len() && 0 <= b < r.len() && a != b
                    implies #[trigger] r[a].key_of() != #[trigger] r[b].key_of() by {
                    if a != i && b != i {
                        assert(s[a].key_of() != s[b].key_of());
                    } else if a == i {
                        assert(s[i].key_of() != s[b].key_of());
                    } else {
                        assert(s[a].key_of() != s[i].key_of());
                    }
                }
            } else {
                assert(lacks_key(s, e.key_of()));
                assert forall|a: int, b: int| 0 <= a < r.len() && 0 <= b < r.len() && a != b
                    implies #[trigger] r[a].key_of() != #[trigger] r[b].key_of() by {
                    if a < s.len() && b < s.len() {
                        assert(s[a].key_of() != s[b].key_of());
                    } else if a < s.len() {
                        assert(s[a].key_of() != e.key_of());
                    } else {
                        assert(s[b].key_of() != e.key_of());
                    }
                }
            }
        }
    }

    /// Applies one change to the statistics. An order's status overwrites
    /// the one recorded before for that order, and an order whose note names
    /// no status counts as pending; once loaded, the statistics stay loaded.
    pub fn reduce(&mut self, action: PlatformStatsAction)
        requires
            old(self).wf(),
        ensures
            final(self).wf(),
            old(self).is_loaded() ==> final(self).is_loaded(),
            match action {
                PlatformStatsAction::FinishLoading => {
                    &&& final(self).is_loaded()
                    &&& final(self).orders_view() == old(self).orders_view()
                    &&& final(self).users_view() == old(self).users_view()
                },
                PlatformStatsAction::LoadStats(users, orders) => {
                    &&& final(self).is_loaded() == old(self).is_loaded()
                    &&& final(self).orders_view() == inserted_all(Seq::empty(), orders@)
                    &&& final(self).users_view() == users@
                },
                PlatformStatsAction::AddOrder(id, st) => {
                    let e = OrderStat {
                        order_id: id,
                        status: match st {
                            Some(s) => s,
                            None => OrderStatus::Pending,
                        },
                    };
                    &&& final(self).is_loaded() == old(self).is_loaded()
                    &&& final(self).orders_view() == replaced_or_pushed(old(self).orders_view(), e)
                    &&& final(self).users_view() == old(self).users_view()
                },
                PlatformStatsAction::AddUser(n) => {
                    &&& final(self).is_loaded() == old(self).is_loaded()
                    &&& final(self).orders_view() == old(self).orders_view()
                    &&& final(self).users_view() == old(self).users_view().push(n)
                },
            },
    {
        match action {
            PlatformStatsAction::FinishLoading => {
                self.loaded = true;
            },
            PlatformStatsAction::LoadStats(users, orders) => {
                self.users = users;
                self.orders = Vec::new();
                let mut rest = orders;
                let ghost items = rest@;
                let total = rest.len();
                let mut i: usize = 0;
                while rest.len() > 0
                    invariant
                        self.wf(),
                        i <= items.len(),
                        items.len() == total,
                        rest@ == items.subrange(i as int, items.len() as int),
                        self.orders@ == inserted_all(Seq::empty(), items.subrange(0, i as int)),
                        self.loaded == old(self).loaded,
                        self.users@ == users@,
                    decreases rest.len(),
                {
                    let e = rest.remove(0);
                    assert(items.subrange(0, i + 1).drop_last() == items.subrange(0, i as int));
                    assert(items.subrange(0, i + 1).last() == e);
                    self.insert_order(e);
                    i += 1;
                    assert(rest@ == items.subrange(i as int, items.len() as int));
                }
                assert(items.subrange(0, items.len() as int) == items);
            },
            PlatformStatsAction::AddOrder(id, st) => {
                let status = match st {
                    Some(s) => s,
                    None => OrderStatus::Pending,
                };
                self.insert_order(OrderStat { order_id: id, status });
            },
            PlatformStatsAction::AddUser(n) => {
                self.users.push(n);
            },
        }
    }
}

/// Adding an order changes each status count by the order's old and new
/// status alone: the old status, if the order was known, loses one, and the
/// new status gains one; the status of that order is then the new one.
pub proof fn lemma_add_order_counts(s: Seq<OrderStat>, e: OrderStat, st: OrderStatus)
    requires
        unique_ids(s),
    ensures
        count_status(replaced_or_pushed(s, e), st) + had_status(s, e, st)
            == count_status(s, st) + (if e.status == st { 1nat } else { 0nat }),
        lookup(replaced_or_pushed(s, e), e.key_of()) == Some(e),
{
    lemma_lookup(s, e.key_of());
    lemma_replaced_or_pushed(s, e);
    if exists|i: int| is_first(s, e.key_of(), i) {
        let i = choose|i: int| is_first(s, e.key_of(), i);
        lemma_count_update(s, i, e, st);
    } else {
        assert(replaced_or_pushed(s, e).drop_last() == s);
    }
}

} // verus!
