use mdr::images::{resolve_images_among, resolve_local_image_paths, resolve_local_images, ImageSyntax};

#[test]
fn missing_relative_image_is_left_as_is() {
    let md = "see ![pic](no/such/file.png) here";
    assert_eq!(resolve_local_image_paths(md, "."), md);
    let html = "<img src=\"no/such/file.png\" alt=\"x\">";
    assert_eq!(resolve_local_images(html, "."), html);
}

#[test]
fn existing_relative_image_is_made_absolute() {
    let md = "![scratch](tmp)";
    assert_eq!(resolve_local_image_paths(md, "/"), "![scratch](file:///tmp)");
    let html = "<img   src=\"tmp\" alt=\"m\">";
    assert_eq!(resolve_local_images(html, "/"), "<img src=\"file:///tmp\" alt=\"m\">");
}

#[test]
fn remote_and_embedded_images_are_skipped() {
    let md = "![a](http://x/a.png) ![b](https://x/b.png) ![c](data:image/png;base64,AA) ![d](file:///e.png)";
    assert_eq!(resolve_local_image_paths(md, "."), md);
}

#[test]
fn resolving_twice_equals_resolving_once() {
    let md = "![m](tmp) and ![n](missing.png)";
    let once = resolve_local_image_paths(md, "/");
    let twice = resolve_local_image_paths(&once, "/");
    assert_eq!(once, twice);
    assert_eq!(once, "![m](file:///tmp) and ![n](missing.png)");
}

#[test]
fn resolution_follows_the_given_existing_paths() {
    let present = vec!["/base/img/a.png".to_string()];
    let md = "![a](img/a.png) ![b](img/b.png)";
    assert_eq!(
        resolve_images_among(md, ImageSyntax::Markdown, "/base", &present),
        "![a](file:///base/img/a.png) ![b](img/b.png)"
    );
    let html = "<img src=\"img/a.png\"><img src=\"img/b.png\">";
    assert_eq!(
        resolve_images_among(html, ImageSyntax::Html, "/base", &present),
        "<img src=\"file:///base/img/a.png\"><img src=\"img/b.png\">"
    );
}
