use peakmem::coordinator::{Action, Coordinator, Event};
use peakmem::peak::PeakTracker;

#[test]
fn peak_tracker_folds_to_running_maximum() {
    let mut t = PeakTracker::new();
    assert_eq!(t.peak_value(), 0);
    t.fold(5);
    assert_eq!(t.peak_value(), 5);
    t.fold(3);
    assert_eq!(t.peak_value(), 5);
    t.fold(7);
    assert_eq!(t.peak_value(), 7);
    t.fold(7);
    assert_eq!(t.peak_value(), 7);
    t.fold(2);
    assert_eq!(t.peak_value(), 7);
}

#[test]
fn coordinator_reports_largest_sample() {
    let mut c = Coordinator::new();
    assert_eq!(c.step(Event::DelayElapsed), Action::Continue);
    assert_eq!(c.step(Event::Sample(100)), Action::Continue);
    assert_eq!(c.step(Event::Sample(250)), Action::Continue);
    assert_eq!(c.step(Event::SampleUnavailable), Action::Continue);
    assert_eq!(c.step(Event::Sample(50)), Action::Continue);
    assert_eq!(c.step(Event::StopRequested), Action::Halt);
    assert_eq!(c.finish(), 250);
}

#[test]
fn stop_before_any_sample_reports_zero() {
    let mut c = Coordinator::new();
    assert_eq!(c.step(Event::StopRequested), Action::Halt);
    assert_eq!(c.finish(), 0);
}

#[test]
fn stop_is_idempotent() {
    let mut c = Coordinator::new();
    assert_eq!(c.step(Event::DelayElapsed), Action::Continue);
    assert_eq!(c.step(Event::Sample(42)), Action::Continue);
    assert_eq!(c.step(Event::StopRequested), Action::Halt);
    assert_eq!(c.step(Event::StopRequested), Action::Halt);
    assert_eq!(c.finish(), 42);
}

#[test]
fn samples_before_delay_elapsed_are_not_counted() {
    let mut c = Coordinator::new();
    assert_eq!(c.step(Event::Sample(999)), Action::Continue);
    assert_eq!(c.step(Event::DelayElapsed), Action::Continue);
    assert_eq!(c.step(Event::Sample(10)), Action::Continue);
    assert_eq!(c.step(Event::StopRequested), Action::Halt);
    assert_eq!(c.finish(), 10);
}

#[test]
fn events_after_stop_change_nothing() {
    let mut c = Coordinator::new();
    assert_eq!(c.step(Event::DelayElapsed), Action::Continue);
    assert_eq!(c.step(Event::Sample(7)), Action::Continue);
    assert_eq!(c.step(Event::StopRequested), Action::Halt);
    assert_eq!(c.step(Event::Sample(1000)), Action::Halt);
    assert_eq!(c.finish(), 7);
}
