use imgur_a::counters::{Counters, Ending, Figures};
use imgur_a::worker::Count;

#[test]
fn counters_start_at_zero() {
    let mut counters = Counters::new();
    assert_eq!(
        counters.figures(),
        Figures { worked: 0, found: 0, failed: 0, workers_failed: 0 }
    );
}

#[test]
fn responses_are_numbered_from_one() {
    let mut counters = Counters::new();
    assert_eq!(counters.count_response(), 1);
    assert_eq!(counters.count_response(), 2);
    assert_eq!(counters.figures().worked, 2);
}

#[test]
fn counts_are_kept_apart() {
    let mut counters = Counters::new();
    counters.raise(Count::Found);
    counters.raise(Count::Failed);
    counters.raise(Count::Failed);
    counters.raise(Count::WorkerFailed);
    counters.raise(Count::WorkerFailed);
    counters.raise(Count::WorkerFailed);
    assert_eq!(
        counters.figures(),
        Figures { worked: 0, found: 1, failed: 2, workers_failed: 3 }
    );
}

#[test]
fn a_run_without_working_workers_blocks() {
    let figures = Figures { worked: 5, found: 1, failed: 1, workers_failed: 3 };
    assert_eq!(
        figures.ending(3),
        Ending {
            notice: String::from(
                "All workers failed :(\nThis isn't a good sign, something is probably wrong, so we're blocking until manually killed"
            ),
            block: true,
        }
    );
    assert_eq!(figures.ending(4), Ending { notice: String::from("All done."), block: false });
}

#[test]
fn a_run_without_workers_blocks() {
    let figures = Figures { worked: 0, found: 0, failed: 0, workers_failed: 0 };
    assert!(figures.ending(0).block);
    assert!(!figures.ending(1).block);
}
