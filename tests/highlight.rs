use dogmv::watch::ChangeFlag;

#[test]
fn test_example() {
    assert_eq!(2 + 2, 4);
}

#[test]
fn new_flag_reports_nothing() {
    let mut flag = ChangeFlag::new();
    assert!(!flag.poll_and_clear());
}
