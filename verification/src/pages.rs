//! The computed parts of the page routes.
//!
//! The article routes serve one template per article, named after the
//! article inside its section's directory; the static routes serve assets
//! under fixed content types. Rendering and the file system stay outside the
//! library; what the routes compute — the template name and the content type
//! header value — is verified here.

use vstd::prelude::*;

verus! {

/// What a route serves, deciding its `Content-Type` header.
#[derive(Clone, Copy, Debug, PartialEq, Eq, Structural)]
pub enum AssetKind {
    Page,
    Stylesheet,
    Script,
}

/// The template name of an article inside its section: the section's
/// directory, the article, and the template suffix.
pub fn template_rel_path(section: &str, article: &str) -> (r: String)
    ensures
        r@ == section@ + "/"@ + article@ + ".html.tera"@,
{
    let mut path = section.to_owned();
    path.append("/");
    path.append(article);
    path.append(".html.tera");
    path
}

/// The `Content-Type` header value for each kind of asset the routes serve.
pub fn content_type(kind: AssetKind) -> (r: &'static str)
    ensures
        kind is Page ==> r@ == "text/html; charset=utf-8"@,
        kind is Stylesheet ==> r@ == "text/css; charset=utf-8"@,
        kind is Script ==> r@ == "text/javascript; charset=utf-8"@,
{
    match kind {
        AssetKind::Page => "text/html; charset=utf-8",
        AssetKind::Stylesheet => "text/css; charset=utf-8",
        AssetKind::Script => "text/javascript; charset=utf-8",
    }
}

} // verus!
