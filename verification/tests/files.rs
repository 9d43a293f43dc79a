use std::path::Path;
use clubsite::files::{files, images, join, upload_image};

#[test]
fn files_are_served_from_static() {
    assert_eq!(files("css/style.css"), "static/css/style.css");
    assert_eq!(files("css/style2.css"), "static/css/style2.css");
    assert_eq!(files(""), "static/");
}

#[test]
fn images_are_served_from_images() {
    assert_eq!(images("logo.png"), "images/logo.png");
    assert_eq!(images("2018/course.jpg"), "images/2018/course.jpg");
}

#[test]
fn join_follows_path_join() {
    for (base, rel) in [("static/", "a/b"), ("static", "a"), ("", "a"), ("x", "/abs"), ("x/", ""), ("x", "")] {
        let expected = Path::new(base).join(rel);
        assert_eq!(join(base, rel), expected.to_str().unwrap(), "{:?} {:?}", base, rel);
    }
}

#[test]
fn upload_image_places_file_in_images() {
    let up = upload_image("course.png");
    assert_eq!(up.path, "images/course.png");
    assert_eq!(up.url, "/images/course.png");
}

#[test]
fn upload_image_keeps_file_name_as_sent() {
    let up = upload_image("../x");
    assert_eq!(up.path, "images/../x");
    assert_eq!(up.url, "/images/../x");
}
