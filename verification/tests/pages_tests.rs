use server_control::pages::{content_type, template_rel_path, AssetKind};

#[test]
fn article_template_names() {
    assert_eq!(template_rel_path("linux", "article"), "linux/article.html.tera");
    assert_eq!(template_rel_path("cisco", "ios"), "cisco/ios.html.tera");
}

#[test]
fn empty_article_still_forms_a_name() {
    assert_eq!(template_rel_path("linux", ""), "linux/.html.tera");
}

#[test]
fn content_types_per_asset() {
    assert_eq!(content_type(AssetKind::Page), "text/html; charset=utf-8");
    assert_eq!(content_type(AssetKind::Stylesheet), "text/css; charset=utf-8");
    assert_eq!(content_type(AssetKind::Script), "text/javascript; charset=utf-8");
}
