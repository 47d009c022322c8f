use mavis_term::initialize;

#[test]
fn lib_test_initialize() {
    // This should not panic when called multiple times
    initialize();
    initialize();
    assert!(true);
}
