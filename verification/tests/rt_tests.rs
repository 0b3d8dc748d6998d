use rtmemlock::rt::{rss_megabytes, rt_stack_size, MY_STACK_SIZE, PRE_ALLOCATION_SIZE};

#[test]
fn constants_match_the_demo() {
    assert_eq!(PRE_ALLOCATION_SIZE, 104857600);
    assert_eq!(MY_STACK_SIZE, 102400);
}

#[test]
fn rt_stack_size_adds_fixed_headroom() {
    // A thread with a stack of PTHREAD_STACK_MIN + 100 KiB; with the common
    // 16 KiB minimum that is 118784 bytes.
    assert_eq!(rt_stack_size(16384), Some(16384 + 102400));
    assert_eq!(rt_stack_size(16384), Some(118784));
}

#[test]
fn rt_stack_size_overflow_is_refused() {
    assert_eq!(rt_stack_size(usize::MAX), None);
    assert_eq!(rt_stack_size(usize::MAX - 102400 + 1), None);
    assert_eq!(rt_stack_size(usize::MAX - 102400), Some(usize::MAX));
}

#[test]
fn resident_set_figure_in_mib() {
    assert_eq!(rss_megabytes(PRE_ALLOCATION_SIZE), 100);
    assert_eq!(rss_megabytes(1048575), 0);
}
