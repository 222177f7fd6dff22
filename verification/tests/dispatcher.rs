use afisha_bot::api::{Elements, Event, EventsFetch, Resp, Resp2, Smth};
use afisha_bot::dispatch::{make_batches, BATCH_SIZE};

fn event(n: usize) -> Event {
    Event { id: format!("id{n}"), url: format!("event/{n}"), title: format!("Event {n}") }
}

fn page(from: usize, count: usize) -> Resp {
    Resp { data: (from..from + count).map(|n| Elements { event: event(n) }).collect() }
}

#[test]
fn two_pages_flatten_in_order_and_batch_as_ten_plus_five() {
    let opening = Resp2 { paging: Smth { total: 15 } };
    let mut fetch = EventsFetch::new(opening.paging.total);

    assert_eq!(fetch.next_offset(), Some(0));
    assert!(fetch.add_page(page(0, 12)));
    assert_eq!(fetch.next_offset(), Some(12));
    assert!(fetch.add_page(page(12, 3)));
    assert_eq!(fetch.next_offset(), None);
    assert!(fetch.done());

    let events = fetch.into_events();
    assert_eq!(events.len(), 15);
    for (n, e) in events.iter().enumerate() {
        assert_eq!(e.title, format!("Event {n}"));
    }

    let batches = make_batches(events);
    assert_eq!(batches.len(), 2);
    assert_eq!(batches[0].len(), 10);
    assert_eq!(batches[1].len(), 5);
    assert_eq!(batches[0][0].title, "Event 0");
    assert_eq!(batches[0][9].title, "Event 9");
    assert_eq!(batches[1][0].title, "Event 10");
    assert_eq!(batches[1][4].title, "Event 14");
}

#[test]
fn drain_stops_exactly_at_the_reported_total() {
    let mut fetch = EventsFetch::new(4);
    assert!(!fetch.done());
    assert!(fetch.add_page(page(0, 4)));
    assert!(fetch.done());
    assert_eq!(fetch.next_offset(), None);
    assert_eq!(fetch.into_events().len(), 4);
}

#[test]
fn nothing_reported_means_nothing_fetched() {
    let fetch = EventsFetch::new(0);
    assert!(fetch.done());
    assert_eq!(fetch.next_offset(), None);
    assert!(fetch.into_events().is_empty());
}

#[test]
fn a_negative_report_is_treated_as_empty() {
    let fetch = EventsFetch::new(-3);
    assert!(fetch.done());
    assert!(fetch.into_events().is_empty());
}

#[test]
fn an_empty_page_reports_no_progress() {
    let mut fetch = EventsFetch::new(5);
    assert!(!fetch.add_page(Resp { data: Vec::new() }));
    assert!(!fetch.done());
    assert_eq!(fetch.next_offset(), Some(0));
}

#[test]
fn no_events_make_no_batches() {
    assert!(make_batches(Vec::new()).is_empty());
}

#[test]
fn a_full_batch_is_not_followed_by_an_empty_one() {
    let events: Vec<Event> = (0..BATCH_SIZE).map(event).collect();
    let batches = make_batches(events);
    assert_eq!(batches.len(), 1);
    assert_eq!(batches[0].len(), BATCH_SIZE);
}

#[test]
fn one_extra_event_starts_a_new_batch() {
    let events: Vec<Event> = (0..BATCH_SIZE + 1).map(event).collect();
    let batches = make_batches(events);
    assert_eq!(batches.len(), 2);
    assert_eq!(batches[0].len(), BATCH_SIZE);
    assert_eq!(batches[1].len(), 1);
    assert_eq!(batches[1][0].title, format!("Event {}", BATCH_SIZE));
}

#[test]
fn batching_keeps_every_event_in_order() {
    let events: Vec<Event> = (0..37).map(event).collect();
    let batches = make_batches(events);
    let flattened: Vec<&Event> = batches.iter().flatten().collect();
    assert_eq!(flattened.len(), 37);
    for (n, e) in flattened.iter().enumerate() {
        assert_eq!(e.id, format!("id{n}"));
    }
}
