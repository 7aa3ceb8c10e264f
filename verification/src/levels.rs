//! Multi-level quote grid: per-level order tracking for one coin.
//!
//! Each level holds at most one order; an order goes from Active to Filled
//! or Cancelled. `Q` is the type of prices and sizes, which the grid only
//! stores.

use vstd::prelude::*;

verus! {

/// State of a level order on the exchange.
#[derive(Debug, Clone, Copy, PartialEq, Eq, Structural)]
pub enum LevelState {
    /// No order placed yet
    Idle,
    /// Order is resting on the book
    Active,
    /// Order was filled
    Filled,
    /// Order was cancelled
    Cancelled,
}

/// Order placed at one level.
#[derive(Debug, Clone, Copy)]
pub struct LevelOrder<Q> {
    /// Exchange order id
    pub oid: u64,
    /// Current state
    pub state: LevelState,
    /// Price at which the order was placed
    pub placed_px: Q,
    /// Size at which the order was placed
    pub placed_sz: Q,
    /// Time of placement (ms since epoch)
    pub placed_at_ms: u64,
}

/// A level index with its order.
#[derive(Debug, Clone, Copy)]
pub struct LevelSlot<Q> {
    pub level: u32,
    pub order: LevelOrder<Q>,
}

/// Order ids of the active orders, in slot order.
pub open spec fn active_oids_of<Q>(s: Seq<LevelSlot<Q>>) -> Seq<u64>
    decreases s.len(),
{
    if s.len() == 0 {
        Seq::empty()
    } else if s.last().order.state == LevelState::Active {
        active_oids_of(s.drop_last()).push(s.last().order.oid)
    } else {
        active_oids_of(s.drop_last())
    }
}

/// Placed sizes of the active orders, in slot order.
pub open spec fn active_sizes_of<Q>(s: Seq<LevelSlot<Q>>) -> Seq<Q>
    decreases s.len(),
{
    if s.len() == 0 {
        Seq::empty()
    } else if s.last().order.state == LevelState::Active {
        active_sizes_of(s.drop_last()).push(s.last().order.placed_sz)
    } else {
        active_sizes_of(s.drop_last())
    }
}

/// Position `i` holds the slot of `level`.
pub open spec fn slot_of<Q>(s: Seq<LevelSlot<Q>>, level: u32, i: int) -> bool {
    0 <= i < s.len() && s[i].level == level
}

/// Order grid of one coin: at most one slot per level.
#[derive(Debug, Clone)]
pub struct LevelManager<Q> {
    orders: Vec<LevelSlot<Q>>,
}

impl<Q: Copy> LevelManager<Q> {
    /// The slots, in the order levels were first registered.
    pub closed spec fn slots(&self) -> Seq<LevelSlot<Q>> {
        self.orders@
    }

    /// No level has two slots.
    pub closed spec fn wf(&self) -> bool {
        forall|i: int, j: int|
            0 <= i < self.orders@.len() && 0 <= j < self.orders@.len() && i != j
                ==> #[trigger] self.orders@[i].level != #[trigger] self.orders@[j].level
    }

    /// An empty grid.
    pub fn new() -> (r: Self)
        ensures
            r.wf(),
            r.slots() == Seq::<LevelSlot<Q>>::empty(),
    {
        LevelManager { orders: Vec::new() }
    }

    /// Position of the slot of `level`, if any.
    fn find(&self, level: u32) -> (r: Option<usize>)
        ensures
            r matches Some(i) ==> slot_of(self.slots(), level, i as int),
            r is None ==> forall|i: int| 0 <= i < self.slots().len() ==> #[trigger] self.slots()[i].level
                != level,
    {
        let mut i: usize = 0;
        while i < self.orders.len()
            invariant
                i <= self.orders@.len(),
                forall|j: int| 0 <= j < i ==> #[trigger] self.orders@[j].level != level,
            decreases self.orders@.len() - i,
        {
            if self.orders[i].level == level {
                return Some(i);
            }
            i = i + 1;
        }
        None
    }

    /// Register an order placed at `level` as Active, replacing any earlier
    /// order of that level.
    pub fn register(&mut self, level: u32, oid: u64, px: Q, sz: Q, now_ms: u64)
        requires
            old(self).wf(),
        ensures
            final(self).wf(),
            ({
                let slot = LevelSlot {
                    level,
                    order: LevelOrder {
                        oid,
                        state: LevelState::Active,
                        placed_px: px,
                        placed_sz: sz,
                        placed_at_ms: now_ms,
                    },
                };
                if exists|i: int| slot_of(old(self).slots(), level, i) {
                    forall|i: int| #[trigger]
                        slot_of(old(self).slots(), level, i) ==> final(self).slots() == old(
                            self,
                        ).slots().update(i, slot)
                } else {
                    final(self).slots() == old(self).slots().push(slot)
                }
            }),
    {
        let slot = LevelSlot {
            level,
            order: LevelOrder {
                oid,
                state: LevelState::Active,
                placed_px: px,
                placed_sz: sz,
                placed_at_ms: now_ms,
            },
        };
        match self.find(level) {
            Some(i) => {
                self.orders.set(i, slot);
            },
            None => {
                self.orders.push(slot);
            },
        }
    }

    /// Set the state of the order at `level`, if there is one.
    fn set_state(&mut self, level: u32, state: LevelState)
        requires
            old(self).wf(),
        ensures
            final(self).wf(),
            forall|i: int| #[trigger]
                slot_of(old(self).slots(), level, i) ==> final(self).slots() == old(self).slots().update(
                    i,
                    LevelSlot {
                        level,
                        order: LevelOrder { state, ..old(self).slots()[i].order },
                    },
                ),
            (forall|i: int| !#[trigger] slot_of(old(self).slots(), level, i)) ==> final(self).slots()
                == old(self).slots(),
    {
        if let Some(i) = self.find(level) {
            let cur = self.orders[i];
            let updated = LevelSlot { level, order: LevelOrder { state, ..cur.order } };
            self.orders.set(i, updated);
        }
    }

    /// Mark the order at `level` as filled (no effect on an empty level).
    pub fn mark_filled(&mut self, level: u32)
        requires
            old(self).wf(),
        ensures
            final(self).wf(),
            forall|i: int| #[trigger]
                slot_of(old(self).slots(), level, i) ==> final(self).slots() == old(self).slots().update(
                    i,
                    LevelSlot {
                        level,
                        order: LevelOrder { state: LevelState::Filled, ..old(self).slots()[i].order },
                    },
                ),
            (forall|i: int| !#[trigger] slot_of(old(self).slots(), level, i)) ==> final(self).slots()
                == old(self).slots(),
    {
        self.set_state(level, LevelState::Filled)
    }

    /// Mark the order at `level` as cancelled (no effect on an empty level).
    pub fn mark_cancelled(&mut self, level: u32)
        requires
            old(self).wf(),
        ensures
            final(self).wf(),
            forall|i: int| #[trigger]
                slot_of(old(self).slots(), level, i) ==> final(self).slots() == old(self).slots().update(
                    i,
                    LevelSlot {
                        level,
                        order: LevelOrder { state: LevelState::Cancelled, ..old(self).slots()[i].order },
                    },
                ),
            (forall|i: int| !#[trigger] slot_of(old(self).slots(), level, i)) ==> final(self).slots()
                == old(self).slots(),
    {
        self.set_state(level, LevelState::Cancelled)
    }

    /// The order at `level`, if any.
    pub fn order_at(&self, level: u32) -> (r: Option<&LevelOrder<Q>>)
        requires
            self.wf(),
        ensures
            r is None <==> forall|i: int| !#[trigger] slot_of(self.slots(), level, i),
            r matches Some(o) ==> exists|i: int| #[trigger]
                slot_of(self.slots(), level, i) && *o == self.slots()[i].order,
    {
        match self.find(level) {
            Some(i) => Some(&self.orders[i].order),
            None => {
                assert forall|i: int| !#[trigger] slot_of(self.slots(), level, i) by {
                    if 0 <= i < self.slots().len() {
                        assert(self.slots()[i].level != level);
                    }
                }
                None
            },
        }
    }

    /// Whether `level` must be quoted again whatever the price: it has no
    /// order, or its order is idle, filled or cancelled rather than active.
    pub fn lacks_active_order(&self, level: u32) -> (r: bool)
        requires
            self.wf(),
        ensures
            r == !exists|i: int| #[trigger]
                slot_of(self.slots(), level, i) && self.slots()[i].order.state == LevelState::Active,
    {
        match self.find(level) {
            Some(i) => {
                let active = self.orders[i].order.state == LevelState::Active;
                proof {
                    assert forall|j: int| #[trigger] slot_of(self.slots(), level, j) implies j == i by {
                        if j != i as int {
                            assert(self.orders@[j].level != self.orders@[i as int].level);
                        }
                    }
                }
                !active
            },
            None => {
                assert forall|j: int| !#[trigger] slot_of(self.slots(), level, j) by {
                    if 0 <= j < self.slots().len() {
                        assert(self.slots()[j].level != level);
                    }
                }
                true
            },
        }
    }

    /// Order ids of all active orders (for cancellation at shutdown).
    pub fn active_oids(&self) -> (r: Vec<u64>)
        ensures
            r@ == active_oids_of(self.slots()),
    {
        let mut r: Vec<u64> = Vec::new();
        let mut i: usize = 0;
        while i < self.orders.len()
            invariant
                i <= self.orders@.len(),
                r@ == active_oids_of(self.orders@.take(i as int)),
            decreases self.orders@.len() - i,
        {
            if self.orders[i].order.state == LevelState::Active {
                r.push(self.orders[i].order.oid);
            }
            proof {
                assert(self.orders@.take(i + 1).drop_last() =~= self.orders@.take(i as int));
            }
            i = i + 1;
        }
        proof {
            assert(self.orders@.take(self.orders@.len() as int) =~= self.orders@);
        }
        r
    }

    /// Number of active orders.
    pub fn active_count(&self) -> (r: usize)
        ensures
            r == active_oids_of(self.slots()).len(),
    {
        let mut n: usize = 0;
        let mut i: usize = 0;
        while i < self.orders.len()
            invariant
                i <= self.orders@.len(),
                n == active_oids_of(self.orders@.take(i as int)).len(),
                n <= i,
            decreases self.orders@.len() - i,
        {
            proof {
                assert(self.orders@.take(i + 1).drop_last() =~= self.orders@.take(i as int));
            }
            if self.orders[i].order.state == LevelState::Active {
                n = n + 1;
            }
            i = i + 1;
        }
        proof {
            assert(self.orders@.take(self.orders@.len() as int) =~= self.orders@);
        }
        n
    }

    /// Placed sizes of all active orders (their sum is the active notional).
    pub fn active_sizes(&self) -> (r: Vec<Q>)
        ensures
            r@ == active_sizes_of(self.slots()),
    {
        let mut r: Vec<Q> = Vec::new();
        let mut i: usize = 0;
        while i < self.orders.len()
            invariant
                i <= self.orders@.len(),
                r@ == active_sizes_of(self.orders@.take(i as int)),
            decreases self.orders@.len() - i,
        {
            if self.orders[i].order.state == LevelState::Active {
                r.push(self.orders[i].order.placed_sz);
            }
            proof {
                assert(self.orders@.take(i + 1).drop_last() =~= self.orders@.take(i as int));
            }
            i = i + 1;
        }
        proof {
            assert(self.orders@.take(self.orders@.len() as int) =~= self.orders@);
        }
        r
    }
}

} // verus!
