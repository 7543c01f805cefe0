use raymarcher::naming::frame_file_name;

#[test]
fn frame_names_are_numbered_png_files() {
    assert_eq!(frame_file_name(0, 0), "0.png");
    assert_eq!(frame_file_name(7, 3), "10.png");
    assert_eq!(frame_file_name(41, 100), "141.png");
}

#[test]
fn negative_frame_numbers_keep_their_sign() {
    assert_eq!(frame_file_name(0, -12), "-12.png");
    assert_eq!(frame_file_name(5, -5), "0.png");
}

#[test]
fn extreme_frame_numbers() {
    assert_eq!(frame_file_name(i32::MAX, 0), "2147483647.png");
    assert_eq!(frame_file_name(i32::MIN, 0), "-2147483648.png");
    assert_eq!(frame_file_name(i32::MIN + 1, -1), "-2147483648.png");
}

#[test]
fn names_match_std_formatting() {
    for n in [-1000, -9, -1, 1, 9, 10, 99, 100, 12345, 1_000_000] {
        assert_eq!(frame_file_name(n, 1), format!("{}.png", n + 1));
    }
}
