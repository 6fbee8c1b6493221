use componentize_go::paths::get_test_filename;

#[test]
fn test_get_test_filename() {
    let tests = [
        ("./foo/bar/baz", "test_bar_baz.wasm"),
        ("./foo/bar", "test_foo_bar.wasm"),
        ("./bar", "test_bar.wasm"),
        ("/usr/bin/foo/bar/baz", "test_bar_baz.wasm"),
    ];

    for (input, expected) in tests.iter() {
        let input_string = input.to_string();
        let actual = get_test_filename(&input_string);
        assert_eq!(actual, expected.to_string());
    }
}

#[test]
fn test_filename_skips_dot_segments() {
    assert_eq!(get_test_filename("a/./b/../c/"), "test_b_c.wasm");
    assert_eq!(get_test_filename("//x//y"), "test_x_y.wasm");
}

#[test]
fn test_filename_of_no_segments() {
    assert_eq!(get_test_filename("."), "test_.wasm");
    assert_eq!(get_test_filename(""), "test_.wasm");
}
