use uplink::thumbnail::{file_extension, get_file_thumbnail_if_is_image, image_mime_for_filename};

#[test]
fn png_file_becomes_data_url() {
    let t = get_file_thumbnail_if_is_image(b"Man", "photo.png");
    assert_eq!(t, "data:image/png;base64,TWFu");
}

#[test]
fn jpg_and_jpeg_share_a_type() {
    assert_eq!(get_file_thumbnail_if_is_image(&[1, 2], "a.jpg"), "data:image/jpeg;base64,AQI=");
    assert_eq!(get_file_thumbnail_if_is_image(&[1], "b.jpeg"), "data:image/jpeg;base64,AQ==");
}

#[test]
fn svg_file_becomes_data_url() {
    assert_eq!(
        get_file_thumbnail_if_is_image(b"<svg/>", "icon.svg"),
        "data:image/svg+xml;base64,PHN2Zy8+"
    );
}

#[test]
fn longer_input_is_encoded_in_groups() {
    assert_eq!(
        get_file_thumbnail_if_is_image(b"hello world", "x.png"),
        "data:image/png;base64,aGVsbG8gd29ybGQ="
    );
}

#[test]
fn non_image_gives_no_thumbnail() {
    assert_eq!(get_file_thumbnail_if_is_image(b"abc", "notes.txt"), "");
    assert_eq!(get_file_thumbnail_if_is_image(b"abc", "photo.PNG"), "");
}

#[test]
fn empty_file_gives_no_thumbnail() {
    assert_eq!(get_file_thumbnail_if_is_image(&[], "photo.png"), "");
}

#[test]
fn name_without_dot_is_its_own_extension() {
    assert_eq!(get_file_thumbnail_if_is_image(b"Man", "png"), "data:image/png;base64,TWFu");
}

#[test]
fn extension_is_last_dot_part() {
    assert_eq!(file_extension("archive.tar.gz"), "gz");
    assert_eq!(file_extension("noext"), "noext");
    assert_eq!(file_extension("trailing."), "");
    assert_eq!(file_extension(""), "");
}

#[test]
fn mime_for_names() {
    assert_eq!(image_mime_for_filename("a.b.png"), "image/png");
    assert_eq!(image_mime_for_filename("a.svg"), "image/svg+xml");
    assert_eq!(image_mime_for_filename("a.gif"), "");
}
