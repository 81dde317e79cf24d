use wxdat::gallery::{
    deduplicate_images_by_hash, extract_hash_from_filename, folder_entry, get_image_priority,
    has_sns_length,
    is_image_filename, is_thumbnail_filename, is_valid_sns_filename, list_entry, page_range,
    priority_of_lowercase, sort_rule, take_page, ImageInfo, SortDirection, SortField,
};
use wxdat::keys::{aes_key_from_text, usable_aes_key};
use wxdat::text::ends_with_text;

fn image(name: &str) -> ImageInfo {
    ImageInfo {
        path: format!("folder/{}", name),
        name: name.to_string(),
        size: name.len() as u64,
        modified: 1_700_000_000,
        is_thumbnail: name.ends_with("_t.dat"),
    }
}

fn names(images: &[ImageInfo]) -> Vec<String> {
    images.iter().map(|image| image.name.clone()).collect()
}

#[test]
fn hash_of_file_names() {
    assert_eq!(extract_hash_from_filename("abc.dat"), "abc");
    assert_eq!(extract_hash_from_filename("abc_t.dat"), "abc");
    assert_eq!(extract_hash_from_filename("abc_h.dat"), "abc");
    assert_eq!(extract_hash_from_filename("abc"), "abc");
    assert_eq!(extract_hash_from_filename("abc_t"), "abc");
    assert_eq!(extract_hash_from_filename("abc_h"), "abc");
    assert_eq!(extract_hash_from_filename(""), "");
    assert_eq!(extract_hash_from_filename(".dat"), "");
    assert_eq!(extract_hash_from_filename("_t.dat"), "");
}

#[test]
fn hash_takes_repeated_suffixes() {
    assert_eq!(extract_hash_from_filename("abc.dat.dat"), "abc");
    assert_eq!(extract_hash_from_filename("abc_t_t.dat"), "abc");
    assert_eq!(extract_hash_from_filename("abc_h_h_t.dat"), "abc");
    // The marks are taken off in the order `.dat`, `_t`, `_h`.
    assert_eq!(extract_hash_from_filename("abc_t_h.dat"), "abc_t");
    assert_eq!(extract_hash_from_filename("abc.dat_t"), "abc.dat");
    assert_eq!(extract_hash_from_filename("abc.DAT"), "abc.DAT");
    assert_eq!(extract_hash_from_filename("abc_T.dat"), "abc_T");
}

#[test]
fn hash_of_names_beyond_ascii() {
    assert_eq!(extract_hash_from_filename("图片_t.dat"), "图片");
    assert_eq!(extract_hash_from_filename("é_h"), "é");
    assert_eq!(extract_hash_from_filename("😀.dat"), "😀");
}

#[test]
fn priority_of_versions() {
    assert_eq!(get_image_priority("abc_t.dat"), 0);
    assert_eq!(get_image_priority("abc_t"), 0);
    assert_eq!(get_image_priority("abc.dat"), 1);
    assert_eq!(get_image_priority("abc"), 1);
    assert_eq!(get_image_priority("abc_h.dat"), 2);
    assert_eq!(get_image_priority("abc_h"), 2);
    assert_eq!(get_image_priority("ABC_T.DAT"), 0);
    assert_eq!(get_image_priority("abc_H.dat"), 2);
    assert_eq!(get_image_priority("abc_H"), 2);
    assert_eq!(get_image_priority(""), 1);
    assert_eq!(get_image_priority("_t"), 0);
    assert_eq!(get_image_priority("_h.dat"), 2);
    assert_eq!(get_image_priority("abc_t.dat.bak"), 1);
}

#[test]
fn priority_of_lowercase_names() {
    assert_eq!(priority_of_lowercase("abc_t.dat"), 0);
    assert_eq!(priority_of_lowercase("abc_t"), 0);
    assert_eq!(priority_of_lowercase("abc_h.dat"), 2);
    assert_eq!(priority_of_lowercase("abc_h"), 2);
    assert_eq!(priority_of_lowercase("abc.dat"), 1);
    assert_eq!(priority_of_lowercase("ABC_T.DAT"), 1);
    assert_eq!(priority_of_lowercase("abc_H"), 1);
}

#[test]
fn text_ends_with() {
    assert!(ends_with_text("abc.dat", ".dat"));
    assert!(ends_with_text(".dat", ".dat"));
    assert!(ends_with_text("abc", ""));
    assert!(ends_with_text("", ""));
    assert!(!ends_with_text("dat", ".dat"));
    assert!(!ends_with_text("abc.dat ", ".dat"));
    assert!(!ends_with_text("abc.DAT", ".dat"));
    assert!(!ends_with_text("", "_t"));
    assert!(ends_with_text("图片_t", "_t"));
    assert!(ends_with_text("a图片", "图片"));
    assert!(!ends_with_text("a图片", "a图"));
}

#[test]
fn sns_file_names() {
    let thirty = "0123456789abcdefghijABCDEFGHIJ";
    let thirty_two = "0123456789abcdef0123456789ABCDEF";
    assert_eq!(thirty.len(), 30);
    assert_eq!(thirty_two.len(), 32);
    assert!(is_valid_sns_filename(thirty));
    assert!(is_valid_sns_filename(thirty_two));
    assert!(is_valid_sns_filename(&format!("{}_t", thirty)));
    assert!(is_valid_sns_filename(&format!("{}_t_t", thirty_two)));
    assert!(!is_valid_sns_filename(&thirty[..29]));
    assert!(!is_valid_sns_filename(&thirty_two[..31]));
    assert!(!is_valid_sns_filename(&format!("{}a", thirty_two)));
    assert!(!is_valid_sns_filename(&format!("{}_h", thirty)));
    assert!(!is_valid_sns_filename(&format!("{}.dat", thirty)));
    assert!(!is_valid_sns_filename("0123456789abcdef-123456789ABCDEF"));
    assert!(!is_valid_sns_filename("0123456789abcdef 123456789ABCDEF"));
    assert!(!is_valid_sns_filename(""));
    assert!(!is_valid_sns_filename("_t"));
}

#[test]
fn sns_file_names_are_measured_in_bytes() {
    // Ten letters of three bytes each.
    assert!(is_valid_sns_filename("图片图片图片图片图片"));
    // Thirty letters, ninety bytes.
    assert!(!is_valid_sns_filename(&"图".repeat(30)));
    // Sixteen letters of two bytes each.
    assert!(is_valid_sns_filename(&"é".repeat(16)));
}

#[test]
fn image_file_names() {
    assert!(is_image_filename("abc.dat"));
    assert!(is_image_filename("abc.DAT"));
    assert!(is_image_filename("abc_t.Dat"));
    assert!(is_image_filename(".dat"));
    assert!(is_image_filename("0123456789abcdef0123456789ABCDEF"));
    assert!(is_image_filename("0123456789abcdef0123456789ABCDEF_t"));
    assert!(!is_image_filename("abc.jpg"));
    assert!(!is_image_filename("abc.dat.bak"));
    assert!(!is_image_filename("config.json"));
    assert!(!is_image_filename(""));
}

#[test]
fn thumbnail_file_names() {
    assert!(is_thumbnail_filename("abc_t.dat"));
    assert!(is_thumbnail_filename("abc_T.DAT"));
    assert!(is_thumbnail_filename("abc_t"));
    assert!(!is_thumbnail_filename("abc_T"));
    assert!(!is_thumbnail_filename("abc.dat"));
    assert!(!is_thumbnail_filename("abc_h.dat"));
    assert!(!is_thumbnail_filename("abc_t.dat.bak"));
    assert!(!is_thumbnail_filename(""));
}

#[test]
fn deduplicate_keeps_the_best_version() {
    let kept = deduplicate_images_by_hash(vec![image("a_h.dat"), image("a.dat"), image("a_t.dat")]);
    assert_eq!(names(&kept), vec!["a_t.dat"]);
    let kept = deduplicate_images_by_hash(vec![image("a_t.dat"), image("a.dat"), image("a_h.dat")]);
    assert_eq!(names(&kept), vec!["a_t.dat"]);
    let kept = deduplicate_images_by_hash(vec![image("a_h.dat"), image("a.dat")]);
    assert_eq!(names(&kept), vec!["a.dat"]);
    let kept = deduplicate_images_by_hash(vec![image("a_h.dat")]);
    assert_eq!(names(&kept), vec!["a_h.dat"]);
    assert!(deduplicate_images_by_hash(vec![]).is_empty());
}

#[test]
fn deduplicate_keeps_the_first_of_equal_versions() {
    let mut first = image("a.dat");
    first.size = 1;
    let mut second = image("a");
    second.size = 2;
    let kept = deduplicate_images_by_hash(vec![first, second]);
    assert_eq!(kept.len(), 1);
    assert_eq!(kept[0].name, "a.dat");
    assert_eq!(kept[0].size, 1);

    let mut first = image("b_T.dat");
    first.size = 1;
    let mut second = image("b_T.dat");
    second.size = 2;
    let kept = deduplicate_images_by_hash(vec![first, second]);
    assert_eq!(kept.len(), 1);
    assert_eq!(kept[0].size, 1);
}

#[test]
fn deduplicate_keeps_pictures_in_order_of_first_occurrence() {
    let kept = deduplicate_images_by_hash(vec![
        image("b_h.dat"),
        image("a.dat"),
        image("c_t.dat"),
        image("a_t.dat"),
        image("b.dat"),
        image("d"),
        image("c_h.dat"),
        image("b_t.dat"),
    ]);
    assert_eq!(names(&kept), vec!["b_t.dat", "a_t.dat", "c_t.dat", "d"]);
    assert_eq!(kept[0].path, "folder/b_t.dat");
    assert_eq!(kept[3].size, 1);
}

#[test]
fn deduplicate_keeps_all_fields() {
    let picture = ImageInfo {
        path: "2024-01/x_t.dat".to_string(),
        name: "x_t.dat".to_string(),
        size: 4096,
        modified: 1_704_067_200,
        is_thumbnail: true,
    };
    let kept = deduplicate_images_by_hash(vec![image("x.dat"), picture]);
    assert_eq!(kept.len(), 1);
    assert_eq!(kept[0].path, "2024-01/x_t.dat");
    assert_eq!(kept[0].name, "x_t.dat");
    assert_eq!(kept[0].size, 4096);
    assert_eq!(kept[0].modified, 1_704_067_200);
    assert!(kept[0].is_thumbnail);
}

#[test]
fn deduplicate_many_pictures() {
    let mut images = Vec::new();
    for i in 0..500 {
        images.push(image(&format!("{:032x}_h.dat", i)));
        images.push(image(&format!("{:032x}.dat", i)));
    }
    for i in 0..500 {
        if i % 2 == 0 {
            images.push(image(&format!("{:032x}_t.dat", i)));
        }
    }
    let kept = deduplicate_images_by_hash(images);
    assert_eq!(kept.len(), 500);
    for (i, info) in kept.iter().enumerate() {
        let expected =
            if i % 2 == 0 { format!("{:032x}_t.dat", i) } else { format!("{:032x}.dat", i) };
        assert_eq!(info.name, expected);
    }
}

#[test]
fn page_ranges() {
    assert_eq!(page_range(10, 0, 3), (0, 3, true));
    assert_eq!(page_range(10, 1, 3), (3, 6, true));
    assert_eq!(page_range(10, 2, 3), (6, 9, true));
    assert_eq!(page_range(10, 3, 3), (9, 10, false));
    assert_eq!(page_range(10, 4, 3), (10, 10, false));
    assert_eq!(page_range(10, 0, 10), (0, 10, false));
    assert_eq!(page_range(10, 0, 11), (0, 10, false));
    assert_eq!(page_range(10, 0, 9), (0, 9, true));
    assert_eq!(page_range(10, 1, 10), (10, 10, false));
    assert_eq!(page_range(0, 0, 5), (0, 0, false));
    assert_eq!(page_range(10, 0, 0), (0, 0, true));
    assert_eq!(page_range(10, 7, 0), (0, 0, true));
}

#[test]
fn page_ranges_without_overflow() {
    assert_eq!(page_range(10, usize::MAX, usize::MAX), (10, 10, false));
    assert_eq!(page_range(10, usize::MAX, 2), (10, 10, false));
    assert_eq!(page_range(10, 2, usize::MAX), (10, 10, false));
    assert_eq!(page_range(10, 0, usize::MAX), (0, 10, false));
    assert_eq!(page_range(10, 1, usize::MAX), (10, 10, false));
    assert_eq!(page_range(usize::MAX, 1, usize::MAX - 1), (usize::MAX - 1, usize::MAX, false));
    assert_eq!(page_range(usize::MAX, 0, usize::MAX - 1), (0, usize::MAX - 1, true));
}

#[test]
fn pages_of_images() {
    let all: Vec<ImageInfo> = (0..7).map(|i| image(&format!("{}.dat", i))).collect();
    let (page, more) = take_page(all.clone(), 0, 3);
    assert_eq!(names(&page), vec!["0.dat", "1.dat", "2.dat"]);
    assert!(more);
    let (page, more) = take_page(all.clone(), 1, 3);
    assert_eq!(names(&page), vec!["3.dat", "4.dat", "5.dat"]);
    assert!(more);
    let (page, more) = take_page(all.clone(), 2, 3);
    assert_eq!(names(&page), vec!["6.dat"]);
    assert!(!more);
    let (page, more) = take_page(all.clone(), 3, 3);
    assert!(page.is_empty());
    assert!(!more);
    let (page, more) = take_page(all.clone(), 0, 7);
    assert_eq!(page.len(), 7);
    assert!(!more);
    let (page, more) = take_page(all, 0, 0);
    assert!(page.is_empty());
    assert!(more);
    let (page, more) = take_page(vec![], 0, 10);
    assert!(page.is_empty());
    assert!(!more);
}

#[test]
fn key_from_configured_text() {
    assert_eq!(aes_key_from_text("0123456789abcdef"), b"0123456789abcdef".to_vec());
    assert_eq!(aes_key_from_text("0123456789abcdefXYZ"), b"0123456789abcdef".to_vec());
    assert_eq!(aes_key_from_text("short"), b"short".to_vec());
    assert_eq!(aes_key_from_text("0123456789abcde"), b"0123456789abcde".to_vec());
    assert_eq!(aes_key_from_text(""), Vec::<u8>::new());
    // Six letters of three bytes each: the sixteenth byte is inside the last.
    assert_eq!(aes_key_from_text("密钥密钥密钥"), "密钥密钥密钥".as_bytes()[..16].to_vec());
}

#[test]
fn key_is_usable_with_sixteen_bytes() {
    assert_eq!(usable_aes_key(b"0123456789abcdef"), Some(&b"0123456789abcdef"[..]));
    assert_eq!(usable_aes_key(b"0123456789abcde"), None);
    assert_eq!(usable_aes_key(b"0123456789abcdefg"), None);
    assert_eq!(usable_aes_key(b""), None);
}

#[test]
fn entries_of_a_page() {
    assert_eq!(list_entry("abc.dat", false), Some(false));
    assert_eq!(list_entry("abc.dat", true), Some(false));
    assert_eq!(list_entry("abc_t.dat", false), Some(true));
    assert_eq!(list_entry("abc_t.dat", true), None);
    assert_eq!(list_entry("ABC_T.DAT", true), None);
    assert_eq!(list_entry("abc_h.dat", true), Some(false));
    assert_eq!(list_entry("0123456789abcdef0123456789ABCDEF_t", false), Some(true));
    assert_eq!(list_entry("0123456789abcdef0123456789ABCDEF_t", true), None);
    assert_eq!(list_entry("0123456789abcdef0123456789ABCDEF", true), Some(false));
    assert_eq!(list_entry("abc.jpg", false), None);
    assert_eq!(list_entry("abc_t", false), None);
    assert_eq!(list_entry("", false), None);
}

#[test]
fn entries_of_a_folder() {
    assert_eq!(folder_entry("abc.dat"), Some(false));
    assert_eq!(folder_entry("abc_t.dat"), Some(true));
    assert_eq!(folder_entry("ABC_T.DAT"), Some(true));
    assert_eq!(folder_entry("abc_h.dat"), Some(false));
    assert_eq!(folder_entry("0123456789abcdef0123456789ABCDEF_t"), Some(false));
    assert_eq!(folder_entry("0123456789abcdef0123456789ABCDEF"), Some(false));
    assert_eq!(folder_entry("abc.jpg"), None);
    assert_eq!(folder_entry(""), None);
}

#[test]
fn sort_rules() {
    assert_eq!(sort_rule("name", "asc"), Some((SortField::Name, SortDirection::Ascending)));
    assert_eq!(sort_rule("name", "desc"), Some((SortField::Name, SortDirection::Descending)));
    assert_eq!(sort_rule("time", "asc"), Some((SortField::Time, SortDirection::Ascending)));
    assert_eq!(sort_rule("time", "desc"), Some((SortField::Time, SortDirection::Descending)));
    assert_eq!(sort_rule("size", "asc"), Some((SortField::Size, SortDirection::Ascending)));
    assert_eq!(sort_rule("size", "desc"), Some((SortField::Size, SortDirection::Descending)));
    assert_eq!(sort_rule("name", ""), None);
    assert_eq!(sort_rule("name", "ASC"), None);
    assert_eq!(sort_rule("Name", "asc"), None);
    assert_eq!(sort_rule("date", "asc"), None);
    assert_eq!(sort_rule("", ""), None);
    assert_eq!(sort_rule("asc", "name"), None);
}

#[test]
fn sns_name_lengths() {
    assert!(has_sns_length("0123456789abcdefghijABCDEFGHIJ"));
    assert!(has_sns_length("0123456789abcdef0123456789ABCDEF"));
    assert!(has_sns_length("0123456789abcdef0123456789ABCDEF_t"));
    assert!(has_sns_length("0123456789abcdef-123456789ABCDEF"));
    assert!(has_sns_length("图片图片图片图片图片"));
    assert!(!has_sns_length("0123456789abcdef0123456789ABCDE"));
    assert!(!has_sns_length("0123456789abcdef0123456789ABCDEF_h"));
    assert!(!has_sns_length(""));
}
