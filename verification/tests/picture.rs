use raymarcher::picture::columns_to_image;

fn pixel(samples: &[u8], width: u32, x: u32, y: u32) -> (u8, u8, u8) {
    let i = 3 * (y as usize * width as usize + x as usize);
    (samples[i], samples[i + 1], samples[i + 2])
}

#[test]
fn columns_stand_upright() {
    // two columns of three pixels each
    let columns = vec![
        vec![(1, 2, 3), (4, 5, 6), (7, 8, 9)],
        vec![(10, 11, 12), (13, 14, 15), (16, 17, 18)],
    ];
    let image = columns_to_image(&columns);
    assert_eq!((image.width, image.height), (2, 3));
    assert_eq!(image.samples.len(), 18);
    // column x, entry j lands at (x, height - 1 - j)
    assert_eq!(pixel(&image.samples, 2, 0, 2), (1, 2, 3));
    assert_eq!(pixel(&image.samples, 2, 0, 1), (4, 5, 6));
    assert_eq!(pixel(&image.samples, 2, 0, 0), (7, 8, 9));
    assert_eq!(pixel(&image.samples, 2, 1, 2), (10, 11, 12));
    assert_eq!(pixel(&image.samples, 2, 1, 0), (16, 17, 18));
    assert_eq!(
        image.samples,
        vec![7, 8, 9, 16, 17, 18, 4, 5, 6, 13, 14, 15, 1, 2, 3, 10, 11, 12]
    );
}

#[test]
fn shorter_columns_leave_black_above() {
    let columns = vec![vec![(9, 9, 9), (8, 8, 8)], vec![(7, 7, 7)]];
    let image = columns_to_image(&columns);
    assert_eq!((image.width, image.height), (2, 2));
    assert_eq!(pixel(&image.samples, 2, 1, 1), (7, 7, 7));
    assert_eq!(pixel(&image.samples, 2, 1, 0), (0, 0, 0));
    assert_eq!(pixel(&image.samples, 2, 0, 0), (8, 8, 8));
}

#[test]
fn single_pixel_image() {
    let image = columns_to_image(&vec![vec![(200, 100, 50)]]);
    assert_eq!((image.width, image.height), (1, 1));
    assert_eq!(image.samples, vec![200, 100, 50]);
}

#[test]
fn empty_columns_give_zero_height_image() {
    let image = columns_to_image(&vec![vec![], vec![]]);
    assert_eq!((image.width, image.height), (2, 0));
    assert!(image.samples.is_empty());
}
