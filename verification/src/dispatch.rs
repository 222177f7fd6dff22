//! The notification dispatcher's pure logic: cutting a fetched event list
//! into fixed-size outbound batches, order kept. (Whether a profile is due
//! at a tick is `time_of_day::eligible`.)

use crate::api::Event;
use vstd::math::min;
use vstd::prelude::*;

verus! {

/// Items per outbound message.
pub const BATCH_SIZE: usize = 10;

/// Cuts an event list into outbound batches: consecutive runs of items in
/// the original order, every batch full except possibly the last, none
/// empty.
pub fn make_batches(events: Vec<Event>) -> (r: Vec<Vec<Event>>)
    ensures
        events@.len() == 0 ==> r@.len() == 0,
        events@.len() > 0 ==> r@.len() >= 1 && (r@.len() - 1) * BATCH_SIZE < events@.len()
            <= r@.len() * BATCH_SIZE,
        forall|i: int|
            0 <= i < r@.len() ==> r@[i]@ == events@.subrange(
                i * BATCH_SIZE,
                min(events@.len() as int, (i + 1) * BATCH_SIZE),
            ),
{
    let ghost orig = events@;
    let mut events = events;
    let mut batches: Vec<Vec<Event>> = Vec::new();
    let mut current: Vec<Event> = Vec::new();
    let ghost mut current_start: int = 0;
    let n = events.len();
    let mut k: usize = 0;
    while k < n
        invariant
            n == orig.len(),
            0 <= k <= n,
            events@ == orig.skip(k as int),
            current_start == BATCH_SIZE * batches@.len(),
            current_start <= k,
            current@ == orig.subrange(current_start, k as int),
            k - current_start == current@.len(),
            current@.len() < BATCH_SIZE,
            forall|i: int|
                0 <= i < batches@.len() ==> batches@[i]@ == orig.subrange(
                    BATCH_SIZE * i,
                    BATCH_SIZE * i + BATCH_SIZE,
                ),
        decreases n - k,
    {
        let e = events.remove(0);
        proof {
            assert(orig.skip(k as int)[0] == orig[k as int]);
            assert(orig.skip(k as int).remove(0) =~= orig.skip(k as int + 1));
        }
        current.push(e);
        proof {
            assert(current@ =~= orig.subrange(current_start, k as int + 1));
        }
        k += 1;
        if current.len() == BATCH_SIZE {
            batches.push(current);
            current = Vec::new();
            proof {
                current_start = current_start + BATCH_SIZE;
                assert(current@ =~= orig.subrange(current_start, k as int));
            }
        }
    }
    if current.len() > 0 {
        batches.push(current);
    }
    proof {
        assert forall|i: int| 0 <= i < batches@.len() implies batches@[i]@ == orig.subrange(
            i * BATCH_SIZE,
            min(orig.len() as int, (i + 1) * BATCH_SIZE),
        ) by {
            assert(BATCH_SIZE * i == i * BATCH_SIZE);
            assert(BATCH_SIZE * i + BATCH_SIZE == (i + 1) * BATCH_SIZE);
        }
    }
    batches
}

} // verus!
