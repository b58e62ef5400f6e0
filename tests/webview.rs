use mdr::toc::extract_toc;
use mdr::webview::{build_html, build_toc_html, reload_script, script_from_json, GITHUB_CSS};

#[test]
fn toc_html_lists_links() {
    let toc = extract_toc("# A\n## B c\n");
    assert_eq!(
        build_toc_html(&toc),
        "<li class=\"toc-h1\"><a href=\"#a\">A</a></li><li class=\"toc-h2\"><a href=\"#bc\">B c</a></li>"
    );
    assert_eq!(build_toc_html(&Vec::new()), "");
}

#[test]
fn page_holds_style_toc_and_body() {
    let toc = extract_toc("# A\n");
    let page = build_html("<p>body</p>", &toc);
    assert!(page.starts_with("<!DOCTYPE html>\n<html>\n<head>\n<meta charset=\"utf-8\">\n<style>"));
    assert!(page.contains(GITHUB_CSS));
    assert!(page.contains("<ul><li class=\"toc-h1\"><a href=\"#a\">A</a></li></ul>"));
    assert!(page.contains("<div class=\"content\">\n<p>body</p>\n</div>"));
    assert!(page.contains("el.scrollIntoView({ behavior: 'smooth', block: 'start' });"));
    assert!(page.ends_with("</script>\n</body>\n</html>"));
}

#[test]
fn reload_script_quotes_as_json() {
    assert_eq!(
        reload_script("<p class=\"x\">a\nb</p>", "<li>t</li>"),
        "document.querySelector('.content').innerHTML = \"<p class=\\\"x\\\">a\\nb</p>\"; document.querySelector('.sidebar ul').innerHTML = \"<li>t</li>\";"
    );
}

#[test]
fn script_from_json_places_both() {
    assert_eq!(
        script_from_json("1", "2"),
        "document.querySelector('.content').innerHTML = 1; document.querySelector('.sidebar ul').innerHTML = 2;"
    );
}

#[test]
fn initial_page_renders_body_and_toc() {
    let page = mdr::webview::initial_page("# Top\n\n![x](missing.png)\n", "/");
    assert!(page.contains("<ul><li class=\"toc-h1\"><a href=\"#top\">Top</a></li></ul>"), "{}", page);
    assert!(page.contains("<h1 id=\"top\">Top</h1>"), "{}", page);
    assert!(page.contains("<img src=\"missing.png\""), "{}", page);
}

#[test]
fn update_script_resolves_existing_images() {
    let js = mdr::webview::update_script("## Sub\n\n![d](tmp)\n", "/");
    assert!(js.starts_with("document.querySelector('.content').innerHTML = \"<h2 id=\\\"sub\\\">Sub</h2>"), "{}", js);
    assert!(js.contains("<img src=\\\"file:///tmp\\\""), "{}", js);
    assert!(js.ends_with("innerHTML = \"<li class=\\\"toc-h2\\\"><a href=\\\"#sub\\\">Sub</a></li>\";"), "{}", js);
}
