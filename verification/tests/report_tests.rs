use rtmemlock::report::{format_report_line, u64_digits, Checkpoint};

#[test]
fn report_line_format_exact() {
    let line = format_report_line("Initial count", 0, ">=0", 123, ">=0");
    assert_eq!(
        line,
        "Initial count                 : Pagefaults, Major:0 (Allowed >=0), Minor:123 (Allowed >=0)"
    );
}

#[test]
fn report_line_zero_expectation() {
    let line = format_report_line("Caused by using thread stack", 0, "0", 0, "0");
    assert_eq!(
        line,
        "Caused by using thread stack  : Pagefaults, Major:0 (Allowed 0), Minor:0 (Allowed 0)"
    );
}

#[test]
fn report_line_truncates_long_label() {
    let line = format_report_line("a label that is much longer than thirty characters", 1, ">=0", 2, ">=0");
    assert_eq!(
        line,
        "a label that is much longer th: Pagefaults, Major:1 (Allowed >=0), Minor:2 (Allowed >=0)"
    );
}

#[test]
fn u64_digits_exact() {
    assert_eq!(u64_digits(0), vec!['0']);
    assert_eq!(u64_digits(9), vec!['9']);
    assert_eq!(u64_digits(10), vec!['1', '0']);
    assert_eq!(
        u64_digits(104857600),
        vec!['1', '0', '4', '8', '5', '7', '6', '0', '0']
    );
    let max: String = u64_digits(u64::MAX).into_iter().collect();
    assert_eq!(max, "18446744073709551615");
}

#[test]
fn checkpoint_labels_match_report() {
    assert_eq!(Checkpoint::Initial.label(), "Initial count");
    assert_eq!(Checkpoint::AfterMemoryLock.label(), "mlockall() generated");
    assert_eq!(Checkpoint::FirstReservation.label(), "malloc() and touch generated");
    assert_eq!(Checkpoint::SecondReservation.label(), "2nd malloc() and use generated");
    assert_eq!(Checkpoint::ThreadCreation.label(), "Caused by creating thread");
    assert_eq!(Checkpoint::ThreadStackUse.label(), "Caused by using thread stack");
}

#[test]
fn checkpoint_allowed_annotations() {
    assert_eq!(Checkpoint::Initial.allowed(), ">=0");
    assert_eq!(Checkpoint::AfterMemoryLock.allowed(), ">=0");
    assert_eq!(Checkpoint::FirstReservation.allowed(), ">=0");
    assert_eq!(Checkpoint::SecondReservation.allowed(), "0");
    assert_eq!(Checkpoint::ThreadCreation.allowed(), ">=0");
    assert_eq!(Checkpoint::ThreadStackUse.allowed(), "0");
}
