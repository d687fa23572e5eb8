use hostsched::conditional_execution::DetectChanges;
use hostsched::init::{common_refresh_rate, frame_duration_from_millihertz, set_earlier, WaitMode};
use hostsched::norm_path::{norm_path, PathPart};
use hostsched::timer::{IntervalCounter, NormInterval, StepInterval};

fn part(s: &str) -> PathPart {
    PathPart::Normal(String::from(s))
}

#[test]
fn detect_changes_notices_new_state() {
    let mut d = DetectChanges::new(1u32);
    assert_eq!(*d.state(), 1);
    assert!(!d.changed(&1));
    assert!(d.changed(&2));
    assert!(d.note_change(&2));
    assert_eq!(*d.state(), 2);
    assert!(!d.note_change(&2));
    d.set_state(5);
    assert_eq!(*d.state(), 5);
}

#[test]
fn norm_path_drops_dots_and_resolves_parents() {
    let path = vec![part("a"), part("b"), PathPart::ParentDir, PathPart::CurDir, part("c")];
    assert_eq!(norm_path(&path), vec![part("a"), part("c")]);
}

#[test]
fn norm_path_keeps_leading_parents() {
    let path = vec![PathPart::ParentDir, PathPart::ParentDir, part("x")];
    assert_eq!(
        norm_path(&path),
        vec![PathPart::ParentDir, PathPart::ParentDir, part("x")]
    );
    let path = vec![part("a"), PathPart::ParentDir, PathPart::ParentDir];
    assert_eq!(norm_path(&path), vec![PathPart::ParentDir]);
}

#[test]
fn norm_path_of_empty_is_empty() {
    assert_eq!(norm_path(&Vec::new()), Vec::<PathPart>::new());
}

#[test]
fn step_interval_elapsed_counts_whole_periods() {
    let interval = StepInterval::new(10, 100);
    assert_eq!(interval.next, 110);
    assert_eq!(interval.elapsed(110), 1);
    assert_eq!(interval.elapsed(125), 2);
    assert_eq!(interval.elapsed(105), 0);
    assert_eq!(interval.elapsed(95), -1);
}

#[test]
fn step_interval_steps_forward() {
    let mut interval = StepInterval::new(10, 100);
    interval.step_by(2);
    assert_eq!(interval.next, 130);
    interval.step_by(0);
    assert_eq!(interval.next, 130);
    // the step width is applied for negative counts as well
    interval.step_by(-1);
    assert_eq!(interval.next, 140);
}

#[test]
fn step_interval_step_if_elapsed() {
    let mut interval = StepInterval::new(10, 100);
    assert_eq!(interval.step_if_elapsed(105), 0);
    assert_eq!(interval.next, 110);
    assert_eq!(interval.step_if_elapsed(125), 2);
    assert_eq!(interval.next, 130);
}

#[test]
fn interval_counter_reports_once_per_interval() {
    let mut counter = IntervalCounter::new(10, 0);
    counter.add();
    counter.add();
    counter.add();
    assert_eq!(counter.count(5), None);
    assert_eq!(counter.count, 3);
    assert_eq!(counter.count(15), Some(3));
    assert_eq!(counter.count, 0);
}

#[test]
fn norm_interval_records_anchor_and_duration() {
    let interval = NormInterval::new(250, 1_000);
    assert_eq!(interval.instant, 1_000);
    assert_eq!(interval.duration, 250);
}

#[test]
fn set_earlier_tightens_the_wait_mode() {
    assert_eq!(set_earlier(WaitMode::Poll, 5), WaitMode::Poll);
    assert_eq!(set_earlier(WaitMode::Wait, 5), WaitMode::WaitUntil(5));
    assert_eq!(set_earlier(WaitMode::WaitUntil(3), 5), WaitMode::WaitUntil(3));
    assert_eq!(set_earlier(WaitMode::WaitUntil(9), 5), WaitMode::WaitUntil(5));
}

#[test]
fn common_refresh_rate_needs_agreement() {
    assert_eq!(common_refresh_rate(&Vec::new()), None);
    assert_eq!(common_refresh_rate(&vec![Some(60_000)]), Some(60_000));
    assert_eq!(common_refresh_rate(&vec![Some(60_000), Some(60_000)]), Some(60_000));
    assert_eq!(common_refresh_rate(&vec![Some(60_000), None]), None);
    assert_eq!(common_refresh_rate(&vec![None, Some(60_000)]), None);
    assert_eq!(common_refresh_rate(&vec![Some(60_000), Some(59_000)]), None);
}

#[test]
fn frame_duration_from_rate() {
    assert_eq!(frame_duration_from_millihertz(60_000), 16_666_666);
    assert_eq!(frame_duration_from_millihertz(1_000), 1_000_000_000);
}
