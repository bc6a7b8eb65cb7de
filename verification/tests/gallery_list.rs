use esp32_s3_box3::applications::gallery::{gallery_image_at, gallery_image_count, index_after_load, open_gallery, png_images};
use esp32_s3_box3::applications::Page;

fn entries(list: &[(&str, bool)]) -> Vec<(String, bool)> {
    list.iter().map(|&(n, d)| (n.to_string(), d)).collect()
}

#[test]
fn png_files_are_filtered_and_sorted() {
    let e = entries(&[
        ("zebra.png", false),
        ("notes.txt", false),
        ("Album.PNG", false),
        ("dir.png", true),
        ("b.Png", false),
        ("a.png", false),
        ("png", false),
        (".png", false),
        ("a.png", false),
    ]);
    let imgs = png_images(&e);
    assert_eq!(imgs, vec![".png", "Album.PNG", "a.png", "a.png", "b.Png", "zebra.png"]);
    let mut expected: Vec<String> = e
        .iter()
        .filter(|(n, d)| !d && n.to_lowercase().ends_with(".png"))
        .map(|(n, _)| n.clone())
        .collect();
    expected.sort();
    assert_eq!(imgs, expected);
}

#[test]
fn png_order_matches_std_sort_on_unicode() {
    let e = entries(&[("\u{e4}.png", false), ("z.png", false), ("\u{1f986}.png", false), ("A.png", false)]);
    let mut expected: Vec<String> = e.iter().map(|(n, _)| n.clone()).collect();
    expected.sort();
    assert_eq!(png_images(&e), expected);
}

#[test]
fn empty_listing_gives_no_images() {
    assert!(png_images(&[]).is_empty());
    assert!(png_images(&entries(&[("a.jpg", false), ("b", true)])).is_empty());
}

#[test]
fn gallery_count_and_lookup() {
    let imgs: Vec<String> = vec!["a.png".into(), "b.png".into()];
    assert_eq!(gallery_image_count(&imgs), 2);
    assert_eq!(gallery_image_at(&imgs, 1).as_deref(), Some("b.png"));
    assert_eq!(gallery_image_at(&imgs, 2), None);
    let many: Vec<String> = (0..300).map(|i| format!("{}.png", i)).collect();
    assert_eq!(gallery_image_count(&many), 44);
}

#[test]
fn gallery_index_resets_past_the_end() {
    assert_eq!(index_after_load(5, 3), 0);
    assert_eq!(index_after_load(3, 3), 0);
    assert_eq!(index_after_load(2, 3), 2);
    assert_eq!(index_after_load(7, 0), 7);
}

#[test]
fn gallery_order_does_not_depend_on_listing_order() {
    let a = entries(&[("c.png", false), ("a.png", false), ("x.txt", false), ("b.PNG", false)]);
    let b = entries(&[("b.PNG", false), ("x.txt", false), ("c.png", false), ("a.png", false)]);
    assert_eq!(png_images(&a), png_images(&b));
}

#[test]
fn opening_the_gallery_loads_the_list_and_resets_a_stale_index() {
    let e = entries(&[("b.png", false), ("notes.txt", false), ("A.PNG", false), ("sub", true)]);
    let opened = open_gallery(Some(&e), Vec::new(), 5);
    assert!(opened.page == Page::Gallery);
    assert_eq!(opened.images, vec!["A.PNG", "b.png"]);
    assert_eq!(opened.index, 0);

    let opened = open_gallery(Some(&e), Vec::new(), 1);
    assert_eq!(opened.index, 1);

    let none: Vec<(String, bool)> = Vec::new();
    let opened = open_gallery(Some(&none), vec!["old.png".to_string()], 3);
    assert!(opened.images.is_empty());
    assert_eq!(opened.index, 3);

    let opened = open_gallery(None, vec!["old.png".to_string()], 7);
    assert!(opened.page == Page::Gallery);
    assert_eq!(opened.images, vec!["old.png"]);
    assert_eq!(opened.index, 7);
}
