use vector_dot_product::schedule::{Schedule, Step};

fn trace(count: usize) -> Vec<Step> {
    let mut schedule = Schedule::new(count);
    let mut steps = Vec::new();
    while !schedule.is_finished() {
        steps.push(schedule.step());
        schedule.advance();
    }
    assert_eq!(schedule.step(), Step::Finish);
    steps
}

#[test]
fn new_schedule_has_done_nothing() {
    let schedule = Schedule::new(5);
    assert_eq!(schedule.count(), 5);
    assert_eq!(schedule.generated(), 0);
    assert_eq!(schedule.accumulated(), 0);
    assert!(!schedule.is_finished());
    assert_eq!(schedule.step(), Step::Generate);
}

#[test]
fn empty_run_is_finished_at_once() {
    let mut schedule = Schedule::new(0);
    assert!(schedule.is_finished());
    assert_eq!(schedule.step(), Step::Finish);
    schedule.advance();
    assert!(schedule.is_finished());
    assert_eq!(schedule.generated(), 0);
    assert_eq!(schedule.accumulated(), 0);
    assert_eq!(trace(0), Vec::<Step>::new());
}

#[test]
fn run_of_three_generates_then_accumulates_in_order() {
    assert_eq!(
        trace(3),
        vec![
            Step::Generate,
            Step::Generate,
            Step::Generate,
            Step::Accumulate { index: 0 },
            Step::Accumulate { index: 1 },
            Step::Accumulate { index: 2 },
        ]
    );
}

#[test]
fn run_of_one() {
    assert_eq!(trace(1), vec![Step::Generate, Step::Accumulate { index: 0 }]);
}

#[test]
fn every_run_processes_exactly_its_count() {
    for count in [0usize, 1, 2, 10, 500, 1000] {
        let steps = trace(count);
        assert_eq!(steps.len(), 2 * count);
        let generated = steps.iter().filter(|s| **s == Step::Generate).count();
        assert_eq!(generated, count);
        for (k, step) in steps.iter().enumerate() {
            if k < count {
                assert_eq!(*step, Step::Generate);
            } else {
                assert_eq!(*step, Step::Accumulate { index: k - count });
            }
        }
    }
}

#[test]
fn counters_follow_the_steps() {
    let mut schedule = Schedule::new(2);
    schedule.advance();
    assert_eq!((schedule.generated(), schedule.accumulated()), (1, 0));
    schedule.advance();
    assert_eq!((schedule.generated(), schedule.accumulated()), (2, 0));
    assert_eq!(schedule.step(), Step::Accumulate { index: 0 });
    schedule.advance();
    assert_eq!((schedule.generated(), schedule.accumulated()), (2, 1));
    schedule.advance();
    assert_eq!((schedule.generated(), schedule.accumulated()), (2, 2));
    assert!(schedule.is_finished());
    schedule.advance();
    assert_eq!((schedule.generated(), schedule.accumulated()), (2, 2));
    assert_eq!(schedule.count(), 2);
}

#[test]
fn largest_count_does_not_overflow() {
    let schedule = Schedule::new(usize::MAX);
    assert_eq!(schedule.count(), usize::MAX);
    assert_eq!(schedule.step(), Step::Generate);
    assert!(!schedule.is_finished());
}
