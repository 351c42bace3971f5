use uplink::file_preview::{download_request, forward_slashes, preview_image_source, preview_path_text};

#[test]
fn backslashes_become_slashes() {
    assert_eq!(forward_slashes("C:\\Users\\me\\tmp\\a.png"), "C:/Users/me/tmp/a.png");
    assert_eq!(forward_slashes("already/ok"), "already/ok");
    assert_eq!(forward_slashes(""), "");
}

#[test]
fn path_text_rewritten_only_on_windows() {
    assert_eq!(preview_path_text("a\\b", true), "a/b");
    assert_eq!(preview_path_text("a\\b", false), "a\\b");
}

#[test]
fn download_only_when_missing() {
    let p = "/tmp/x.png".to_string();
    assert_eq!(download_request(&p, false), Some(p.clone()));
    assert_eq!(download_request(&p, true), None);
}

#[test]
fn image_source_prefers_copy() {
    assert_eq!(preview_image_source(true, "/tmp/x".to_string(), "thumb".to_string()), "/tmp/x");
    assert_eq!(preview_image_source(false, "/tmp/x".to_string(), "thumb".to_string()), "thumb");
}
