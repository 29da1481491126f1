//! Behavior of the double-buffered event queue: idempotent polling, push
//! order, backpressure, and isolation of a polled batch from later pushes.

use ramen::buffer::EventBuffer;
use ramen::event::{CloseReason, Event};

#[test]
fn it_works() {
    assert_ne!(9 + 10, 21);
}

#[test]
fn poll_with_no_pushes_is_empty() {
    let mut buf: EventBuffer<4> = EventBuffer::new();
    buf.swap_events();
    assert_eq!(buf.events(), &[] as &[Event]);
    buf.swap_events();
    assert_eq!(buf.events(), &[] as &[Event]);
}

#[test]
fn poll_returns_events_in_push_order() {
    let mut buf: EventBuffer<4> = EventBuffer::new();
    let a = Event::Focus(true);
    let b = Event::CloseRequest(CloseReason::Unknown);
    assert!(buf.push_event(&a));
    assert!(buf.push_event(&b));
    buf.swap_events();
    assert_eq!(buf.events(), &[a, b]);
}

#[test]
fn full_buffer_refuses_push_and_loses_nothing() {
    let mut buf: EventBuffer<2> = EventBuffer::new();
    let a = Event::Focus(true);
    let b = Event::Focus(false);
    let c = Event::Maximize(true);
    assert!(buf.push_event(&a));
    assert!(buf.push_event(&b));
    // The buffer is full: one more event must be refused, not dropped.
    assert!(!buf.push_event(&c));
    buf.swap_events();
    let first_poll: Vec<Event> = buf.events().to_vec();
    assert_eq!(first_poll, vec![a, b]);
    // After the swap there is room again and the retried push succeeds.
    assert!(buf.push_event(&c));
    buf.swap_events();
    let second_poll: Vec<Event> = buf.events().to_vec();
    assert_eq!(second_poll, vec![c]);
    // All three events arrived, in order, across the two polls.
    let mut all = first_poll;
    all.extend(second_poll);
    assert_eq!(all, vec![a, b, c]);
}

#[test]
fn batch_push_is_all_or_nothing() {
    let mut buf: EventBuffer<3> = EventBuffer::new();
    let batch = [Event::Focus(true), Event::Focus(false)];
    assert!(buf.push_events(&batch));
    // Two more would exceed the capacity of three: nothing is appended.
    assert!(!buf.push_events(&batch));
    assert!(buf.push_event(&Event::Maximize(true)));
    buf.swap_events();
    assert_eq!(
        buf.events(),
        &[Event::Focus(true), Event::Focus(false), Event::Maximize(true)]
    );
}

#[test]
fn polled_batch_is_isolated_from_later_pushes() {
    let mut buf: EventBuffer<4> = EventBuffer::new();
    let a = Event::Minimize(true);
    let b = Event::Minimize(false);
    assert!(buf.push_event(&a));
    buf.swap_events();
    assert_eq!(buf.events(), &[a]);
    // An event pushed after the poll must not appear in the polled batch.
    assert!(buf.push_event(&b));
    assert_eq!(buf.events(), &[a]);
    buf.swap_events();
    assert_eq!(buf.events(), &[b]);
}
