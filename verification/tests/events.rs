//! Tests for the terminal event model.

use logistic_irls::events::InputEvent;
use logistic_irls::events::Key;
use logistic_irls::events::next_or_tick;
use logistic_irls::events::poll_cycle;

#[test]
fn poll_cycle_forwards_key_then_tick() {
    let out = poll_cycle(Some(Key::Char('q')));
    assert_eq!(out, vec![InputEvent::Input(Key::Char('q')), InputEvent::Tick]);
}

#[test]
fn poll_cycle_without_key_is_just_a_tick() {
    let out = poll_cycle(None);
    assert_eq!(out, vec![InputEvent::Tick]);
}

#[test]
fn next_or_tick_passes_events_through() {
    let e = InputEvent::Input(Key::Esc);
    assert_eq!(next_or_tick(Some(e)), e);
    assert_eq!(next_or_tick(Some(InputEvent::Tick)), InputEvent::Tick);
}

#[test]
fn next_or_tick_defaults_to_a_tick() {
    assert_eq!(next_or_tick(None), InputEvent::Tick);
}
