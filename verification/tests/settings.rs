use imgur_a::settings::{
    backlog_capacity, check_concurrency, task_capacity, DEFAULT_CONCURRENT, NO_PROXY_CONC_LIMIT,
};

#[test]
fn six_requests_per_second_are_allowed() {
    assert_eq!(NO_PROXY_CONC_LIMIT, 6);
    assert_eq!(DEFAULT_CONCURRENT, 3);
    assert_eq!(check_concurrency(6, false), Ok(()));
    assert_eq!(check_concurrency(0, false), Ok(()));
}

#[test]
fn seven_requests_per_second_are_refused() {
    assert_eq!(
        check_concurrency(7, false),
        Err(String::from(
            "Concurrency seems to be set too high for a single ip. (max. 6), refusing to start.\nIf you're really sure you want this, use --concurrent-unsafe and I'll do it."
        ))
    );
}

#[test]
fn the_check_can_be_bypassed() {
    assert_eq!(check_concurrency(7, true), Ok(()));
    assert_eq!(check_concurrency(1000, true), Ok(()));
}

#[test]
fn channel_sizes() {
    assert_eq!(task_capacity(3), 5);
    assert_eq!(backlog_capacity(3), 30);
}
