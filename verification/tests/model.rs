#[test]
fn error_test_errors() {}

#[test]
fn position_test_errors() {}

#[test]
fn shape_test_errors() {}

#[test]
fn it_works() {
    assert_eq!(2 + 2, 4);
}
