//! Exchange order types and the interpretation of order responses.
//!
//! The response `statuses` of an order placement are read in order; the
//! functions here decide the outcome from them.

use crate::text::{chars_of, contains_text, seq_contains_seq};
use vstd::prelude::*;

verus! {

/// Timestamp in milliseconds since epoch.
pub type TimestampMs = u64;

/// Asset name (e.g. "PUMP").
pub type Asset = String;

/// Order id assigned by the exchange.
pub type Oid = u64;

/// Wire order type.
#[derive(Debug, Clone, Copy, PartialEq, Eq, Structural)]
pub enum OrderType {
    Limit,
    Market,
}

/// Order placement response.
#[derive(Debug, Clone)]
pub struct OrderResponse {
    pub status: String,
    pub response: ResponseData,
}

/// Body of an order placement response.
#[derive(Debug, Clone)]
pub struct ResponseData {
    pub response_type: String,
    pub data: Option<OrderData>,
}

/// Per-order statuses of a response.
#[derive(Debug, Clone)]
pub struct OrderData {
    pub statuses: Vec<OrderStatus>,
}

/// Status of one order in a response.
#[derive(Debug, Clone)]
pub struct OrderStatus {
    pub resting: Option<RestingOrder>,
    pub filled: Option<FilledOrder>,
    pub error: Option<String>,
}

/// An order resting on the book (`oid` 0 when the exchange sent none).
#[derive(Debug, Clone)]
pub struct RestingOrder {
    pub oid: Oid,
    pub cloid: Option<String>,
}

/// An order filled on placement.
#[derive(Debug, Clone)]
pub struct FilledOrder {
    pub oid: Oid,
    pub total_sz: String,
    pub avg_px: String,
}

/// Outcome of a limit order placement.
#[derive(Debug, Clone)]
pub enum OrderOutcome {
    /// Resting on the book with this order id.
    Rested(u64),
    /// Crossed the book and filled as taker.
    FilledTaker,
    /// Rejected, with the exchange's reason when it gave one.
    Rejected(Option<String>),
}

/// View of an optional text value.
pub open spec fn opt_chars(o: Option<String>) -> Option<Seq<char>> {
    match o {
        Some(s) => Some(s@),
        None => None,
    }
}

/// The status reports a resting order with a usable (non-zero) id.
pub open spec fn rests(st: OrderStatus) -> bool {
    st.resting is Some && st.resting->0.oid > 0
}

/// The status settles a placement: resting with an id, or filled.
pub open spec fn decisive(st: OrderStatus) -> bool {
    rests(st) || st.filled is Some
}

/// The last error reported in the statuses, if any.
pub open spec fn last_error(s: Seq<OrderStatus>) -> Option<Seq<char>>
    decreases s.len(),
{
    if s.len() == 0 {
        None
    } else {
        match s.last().error {
            Some(e) => Some(e@),
            None => last_error(s.drop_last()),
        }
    }
}

/// Position `k` holds the first decisive status.
pub open spec fn first_decisive_at(s: Seq<OrderStatus>, k: int) -> bool {
    0 <= k < s.len() && decisive(s[k]) && forall|j: int| 0 <= j < k ==> !decisive(#[trigger] s[j])
}

/// Outcome of a post-only or GTC placement read from its statuses: the
/// first status that rests with an id or is filled decides (resting wins
/// within one status); with no such status the order counts as rejected
/// with the last error reported (none when no error was reported).
pub fn limit_order_outcome(statuses: &Vec<OrderStatus>) -> (r: OrderOutcome)
    ensures
        r matches OrderOutcome::Rested(oid) ==> exists|k: int| #[trigger]
            first_decisive_at(statuses@, k) && rests(statuses@[k]) && statuses@[k].resting->0.oid
                == oid,
        r matches OrderOutcome::FilledTaker ==> exists|k: int| #[trigger]
            first_decisive_at(statuses@, k) && !rests(statuses@[k]),
        r matches OrderOutcome::Rejected(reason) ==> (forall|j: int|
            0 <= j < statuses@.len() ==> !decisive(#[trigger] statuses@[j])) && opt_chars(reason)
            == last_error(statuses@),
{
    let mut reason: Option<String> = None;
    let mut i: usize = 0;
    while i < statuses.len()
        invariant
            i <= statuses@.len(),
            forall|j: int| 0 <= j < i ==> !decisive(#[trigger] statuses@[j]),
            opt_chars(reason) == last_error(statuses@.take(i as int)),
        decreases statuses@.len() - i,
    {
        let st = &statuses[i];
        if let Some(resting) = &st.resting {
            if resting.oid > 0 {
                assert(first_decisive_at(statuses@, i as int));
                return OrderOutcome::Rested(resting.oid);
            }
        }
        if st.filled.is_some() {
            assert(first_decisive_at(statuses@, i as int));
            return OrderOutcome::FilledTaker;
        }
        if let Some(e) = &st.error {
            reason = Some(e.clone());
        }
        proof {
            assert(statuses@.take(i + 1).drop_last() =~= statuses@.take(i as int));
        }
        i = i + 1;
    }
    proof {
        assert(statuses@.take(statuses@.len() as int) =~= statuses@);
    }
    OrderOutcome::Rejected(reason)
}

/// Filled size reported by an IOC placement: the total size of the first
/// filled status, none when no status is filled.
pub fn ioc_filled_size(statuses: &Vec<OrderStatus>) -> (r: Option<String>)
    ensures
        r is None <==> (forall|j: int| 0 <= j < statuses@.len() ==> (#[trigger] statuses@[j]).filled is None),
        r matches Some(sz) ==> exists|k: int|
            0 <= k < statuses@.len() && (#[trigger] statuses@[k]).filled is Some && sz@
                == statuses@[k].filled->0.total_sz@ && forall|j: int|
                0 <= j < k ==> (#[trigger] statuses@[j]).filled is None,
{
    let mut i: usize = 0;
    while i < statuses.len()
        invariant
            i <= statuses@.len(),
            forall|j: int| 0 <= j < i ==> (#[trigger] statuses@[j]).filled is None,
        decreases statuses@.len() - i,
    {
        if let Some(f) = &statuses[i].filled {
            return Some(f.total_sz.clone());
        }
        i = i + 1;
    }
    None
}

/// Error text by which the exchange rejects a post-only order that would
/// cross the book.
pub open spec fn would_match_text() -> Seq<char> {
    seq![
        'w', 'o', 'u', 'l', 'd', ' ', 'h', 'a', 'v', 'e', ' ', 'i', 'm', 'm', 'e', 'd', 'i', 'a',
        't', 'e', 'l', 'y', ' ', 'm', 'a', 't', 'c', 'h', 'e', 'd',
    ]
}

/// Some status reports a would-cross rejection.
pub open spec fn reports_would_match(s: Seq<OrderStatus>) -> bool {
    exists|j: int|
        0 <= j < s.len() && (#[trigger] s[j]).error is Some && seq_contains_seq(
            s[j].error->0@,
            would_match_text(),
        )
}

/// Position `k` holds the last status resting with a usable id.
pub open spec fn last_resting_at(s: Seq<OrderStatus>, k: int) -> bool {
    0 <= k < s.len() && rests(s[k]) && forall|j: int| k < j < s.len() ==> !rests(#[trigger] s[j])
}

/// What to do after one post-only attempt with tick retreat.
#[derive(Debug, Clone, Copy, PartialEq, Eq, Structural)]
pub enum RetreatStep {
    /// The order rests with this id: done.
    Rested(u64),
    /// The order would have crossed: move one tick away and try again.
    Retreat,
    /// Stop trying; the placement counts as rejected.
    GiveUp,
}

/// Decide the next step of a post-only placement with tick retreat from the
/// statuses of attempt number `retreat` (counting from 0): a resting status
/// with an id (the last one) ends the placement; a would-cross rejection
/// retreats while fewer than `max_retreat` retreats were made; anything
/// else gives up.
pub fn tick_retreat_step(statuses: &Vec<OrderStatus>, retreat: u32, max_retreat: u32) -> (r:
    RetreatStep)
    ensures
        r matches RetreatStep::Rested(oid) ==> exists|k: int| #[trigger]
            last_resting_at(statuses@, k) && statuses@[k].resting->0.oid == oid,
        (r is Rested) <==> exists|k: int| 0 <= k < statuses@.len() && rests(#[trigger] statuses@[k]),
        (r is Retreat) <==> ((forall|k: int| 0 <= k < statuses@.len() ==> !rests(#[trigger] statuses@[k]))
            && reports_would_match(statuses@) && retreat < max_retreat),
{
    let pattern = chars_of("would have immediately matched");
    proof {
        reveal_strlit("would have immediately matched");
        assert(pattern@ =~= would_match_text());
    }
    let mut would_match = false;
    let mut rested: Option<u64> = None;
    let ghost mut rested_at: int = -1;
    let mut i: usize = 0;
    while i < statuses.len()
        invariant
            i <= statuses@.len(),
            pattern@ == would_match_text(),
            would_match == exists|j: int|
                0 <= j < i && (#[trigger] statuses@[j]).error is Some && seq_contains_seq(
                    statuses@[j].error->0@,
                    would_match_text(),
                ),
            rested is None <==> forall|j: int| 0 <= j < i ==> !rests(#[trigger] statuses@[j]),
            rested is Some ==> (0 <= rested_at < i && rests(statuses@[rested_at])
                && statuses@[rested_at].resting->0.oid == rested->0 && forall|j: int|
                rested_at < j < i ==> !rests(#[trigger] statuses@[j])),
        decreases statuses@.len() - i,
    {
        let st = &statuses[i];
        if let Some(e) = &st.error {
            let ec = chars_of(e.as_str());
            if contains_text(&ec, &pattern) {
                would_match = true;
            }
        }
        if let Some(resting) = &st.resting {
            if resting.oid > 0 {
                rested = Some(resting.oid);
                proof {
                    rested_at = i as int;
                }
            }
        }
        i = i + 1;
    }
    match rested {
        Some(oid) => {
            assert(last_resting_at(statuses@, rested_at));
            RetreatStep::Rested(oid)
        },
        None => {
            if would_match && retreat < max_retreat {
                RetreatStep::Retreat
            } else {
                RetreatStep::GiveUp
            }
        },
    }
}

} // verus!
