use experimenters::cifar_images::{cifar_item, items_from_folders, ImageFile};

fn png(width: u32, height: u32, pixels: Vec<u8>) -> Vec<u8> {
    let img = image::RgbImage::from_raw(width, height, pixels).unwrap();
    let mut bytes: Vec<u8> = Vec::new();
    img.write_to(&mut std::io::Cursor::new(&mut bytes), image::ImageFormat::Png).unwrap();
    bytes
}

fn file(bytes: Vec<u8>, extension: &str) -> ImageFile {
    ImageFile { bytes, extension: extension.to_string() }
}

#[test]
fn cifar_item_decodes_rgb_pixels_row_after_row() {
    let bytes = png(2, 1, vec![10, 20, 30, 40, 50, 60]);
    let item = cifar_item(&bytes, "png", 3).unwrap();
    assert_eq!(item.pixels, vec![10, 20, 30, 40, 50, 60]);
    assert_eq!(item.label, 3);
}

#[test]
fn cifar_item_reads_the_extension_in_any_case() {
    let bytes = png(1, 1, vec![1, 2, 3]);
    assert_eq!(cifar_item(&bytes, "PNG", 0).unwrap().pixels, vec![1, 2, 3]);
}

#[test]
fn cifar_item_refuses_unknown_extension_and_garbage() {
    let bytes = png(1, 1, vec![1, 2, 3]);
    assert!(cifar_item(&bytes, "txt", 0).is_none());
    assert!(cifar_item(&bytes, "", 0).is_none());
    assert!(cifar_item(&[1, 2, 3, 4], "png", 0).is_none());
}

#[test]
fn items_follow_folder_order_and_skip_bad_files() {
    let classes = vec![
        vec![file(png(1, 1, vec![1, 1, 1]), "png"), file(vec![0, 0], "png")],
        vec![],
        vec![file(png(1, 1, vec![3, 3, 3]), "png"), file(png(1, 1, vec![4, 4, 4]), "md")],
        vec![file(png(1, 1, vec![5, 5, 5]), "png")],
    ];
    let (items, failures) = items_from_folders(&classes);
    let got: Vec<(Vec<u8>, i64)> = items.into_iter().map(|it| (it.pixels, it.label)).collect();
    assert_eq!(got, vec![(vec![1, 1, 1], 0), (vec![3, 3, 3], 2), (vec![5, 5, 5], 3)]);
    assert_eq!(failures, vec![(0, 1), (2, 1)]);
}

#[test]
fn no_folders_no_items() {
    let (items, failures) = items_from_folders(&Vec::new());
    assert!(items.is_empty() && failures.is_empty());
}

#[test]
fn cifar_item_holds_three_values_per_pixel() {
    let pixels: Vec<u8> = (0..(3 * 4 * 2)).map(|v| v as u8).collect();
    let bytes = png(4, 2, pixels.clone());
    let item = cifar_item(&bytes, "png", 9).unwrap();
    assert_eq!(item.pixels.len(), 3 * 4 * 2);
    assert_eq!(item.pixels, pixels);
    assert_eq!(item.label, 9);
}
