//! The catalog side: the fixed category vocabulary, the shapes of the remote
//! listing service's answers, and the page-draining state machine that turns
//! a paged result into one ordered event list.

use crate::text::str_eq;
use vstd::prelude::*;

verus! {

/// The closed category vocabulary.
pub const CATEGORIES: [&'static str; 7] = [
    "cinema",
    "concert",
    "theatre",
    "art",
    "standup",
    "show",
    "quest",
];

/// Membership in the category vocabulary.
pub open spec fn is_vocab(t: Seq<char>) -> bool {
    t == "cinema"@ || t == "concert"@ || t == "theatre"@ || t == "art"@ || t == "standup"@
        || t == "show"@ || t == "quest"@
}

/// Exact, case-sensitive vocabulary membership.
pub fn is_category(t: &str) -> (r: bool)
    ensures
        r == is_vocab(t@),
{
    str_eq(t, "cinema") || str_eq(t, "concert") || str_eq(t, "theatre") || str_eq(t, "art")
        || str_eq(t, "standup") || str_eq(t, "show") || str_eq(t, "quest")
}

/// One catalog item.
pub struct Event {
    pub id: String,
    pub url: String,
    pub title: String,
}

/// One entry of a result page.
pub struct Elements {
    pub event: Event,
}

/// One result page.
pub struct Resp {
    pub data: Vec<Elements>,
}

/// The paging header of the opening answer.
pub struct Smth {
    pub total: i64,
}

/// The opening answer: how many results there are in all.
pub struct Resp2 {
    pub paging: Smth,
}

/// The events of one page, in the page's order.
pub open spec fn page_events(d: Seq<Elements>) -> Seq<Event> {
    d.map_values(|el: Elements| el.event)
}

/// Drains a paged catalog answer: issues offsets until the cumulative count
/// reaches the reported total, flattening all pages into one ordered list.
pub struct EventsFetch {
    total: u64,
    events: Vec<Event>,
}

impl EventsFetch {
    /// The result count the remote reported.
    pub closed spec fn spec_total(self) -> u64 {
        self.total
    }

    /// Everything drained so far, in remote order.
    pub closed spec fn spec_events(self) -> Seq<Event> {
        self.events@
    }

    /// Starts a drain for a reported total; a negative report means nothing
    /// to fetch.
    pub fn new(reported_total: i64) -> (r: EventsFetch)
        ensures
            r.spec_events() == Seq::<Event>::empty(),
            reported_total >= 0 ==> r.spec_total() == reported_total,
            reported_total < 0 ==> r.spec_total() == 0,
    {
        let total: u64 = if reported_total >= 0 {
            reported_total as u64
        } else {
            0
        };
        EventsFetch { total, events: Vec::new() }
    }

    /// The offset the next page request must use: the count fetched so far.
    /// `None` once the drain is complete.
    pub fn next_offset(&self) -> (r: Option<u64>)
        ensures
            r is Some <==> self.spec_events().len() < self.spec_total(),
            r is Some ==> r->0 == self.spec_events().len(),
    {
        if (self.events.len() as u64) < self.total {
            Some(self.events.len() as u64)
        } else {
            None
        }
    }

    /// True once the cumulative count has reached the reported total.
    pub fn done(&self) -> (r: bool)
        ensures
            r == (self.spec_events().len() >= self.spec_total()),
    {
        (self.events.len() as u64) >= self.total
    }

    /// Takes one page in, after everything fetched before it and in the
    /// page's own order. Reports whether the page moved the drain forward:
    /// an empty page never will, and the caller must give the drain up.
    pub fn add_page(&mut self, page: Resp) -> (progressed: bool)
        ensures
            final(self).spec_total() == old(self).spec_total(),
            final(self).spec_events() == old(self).spec_events() + page_events(page.data@),
            progressed == (page.data@.len() > 0),
    {
        let progressed = page.data.len() > 0;
        let mut data = page.data;
        let ghost all = data@;
        let n = data.len();
        let mut k: usize = 0;
        while k < n
            invariant
                n == all.len(),
                0 <= k <= n,
                data@ == all.skip(k as int),
                self.total == old(self).spec_total(),
                self.events@ == old(self).spec_events() + page_events(all.take(k as int)),
            decreases n - k,
        {
            let el = data.remove(0);
            self.events.push(el.event);
            proof {
                assert(all.skip(k as int).drop_first() =~= all.skip(k as int + 1));
                assert(page_events(all.take(k as int + 1)) =~= page_events(
                    all.take(k as int),
                ).push(all[k as int].event));
            }
            k += 1;
        }
        proof {
            assert(all.take(n as int) =~= all);
        }
        progressed
    }

    /// Hands the drained events out, in the order they came.
    pub fn into_events(self) -> (r: Vec<Event>)
        ensures
            r@ == self.spec_events(),
    {
        self.events
    }
}

} // verus!
