use hostbridge::probe::file_exists;

#[test]
fn existing_directory_is_reported() {
    assert!(file_exists("/"));
    assert!(file_exists("."));
}

#[test]
fn absent_path_is_reported_false() {
    assert!(!file_exists("/no/such/entry/anywhere-at-all-7f3c1"));
}

#[test]
fn malformed_path_yields_false_not_an_error() {
    assert!(!file_exists("bad\u{0}name"));
}
