//! Loading of the named configuration documents.
//!
//! Each document is a flat JSON object of string fields. A record is either
//! fully populated from its document or not produced at all: a document from
//! which any required field is missing loads to `Malformed`, never to a
//! partially filled record.

use vstd::prelude::*;

verus! {

/// The four named configuration documents a server instance is built from.
#[derive(Clone, Copy, Debug, PartialEq, Eq, Structural)]
pub enum ConfigKind {
    Content,
    App,
    Server,
    Ssl,
}

/// Page content: the fields handed to the template renderer.
#[derive(Clone, Debug, PartialEq, Eq)]
pub struct ContentConf {
    pub name: String,
    pub url: String,
    pub author: String,
    pub description: String,
    pub charset: String,
    pub lang: String,
    pub css: String,
    pub custom_css: String,
    pub js: String,
}

/// Application layout: template root and the static asset routes.
#[derive(Clone, Debug, PartialEq, Eq)]
pub struct AppConf {
    pub templates: String,
    pub css: String,
    pub custom_css: String,
    pub javascript: String,
}

/// Plain listener endpoint.
#[derive(Clone, Debug, PartialEq, Eq)]
pub struct ServerConf {
    pub socket: String,
    pub hostname: String,
}

/// TLS listener endpoint and the certificate and key files behind it.
#[derive(Clone, Debug, PartialEq, Eq)]
pub struct SslConf {
    pub certfile: String,
    pub keyfile: String,
    pub socket: String,
}

/// One fully populated configuration record, tagged by its kind.
#[derive(Clone, Debug, PartialEq, Eq)]
pub enum Context {
    Content(ContentConf),
    App(AppConf),
    Server(ServerConf),
    Ssl(SslConf),
}

/// Why a document failed to load: absent, present but unreadable, or not of
/// the shape its kind asks for.
#[derive(Clone, Copy, Debug, PartialEq, Eq, Structural)]
pub enum ConfigError {
    NotFound,
    Unreadable,
    Malformed,
}

/// What reading a document from its source of truth produced. The reading
/// itself is I/O and happens outside the library; the loader is handed its
/// outcome as a plain value.
#[derive(Clone, Debug, PartialEq, Eq)]
pub enum DocSource {
    Missing,
    Unreadable,
    Text(String),
}

/// The string field of a JSON document at a key: `Some` exactly when the
/// document is a JSON object whose entry at the key holds a string. A pure
/// function of the document text and the key.
pub uninterp spec fn doc_field(doc: Seq<char>, key: Seq<char>) -> Option<Seq<char>>;

/// Relies on serde_json: `from_str::<Value>` parses the document, `Value::get`
/// looks the key up in an object, `Value::as_str` accepts only a JSON string.
/// All three depend on their arguments alone.
#[verifier::external_body]
fn extract_field(doc: &str, key: &str) -> (r: Option<String>)
    ensures
        r is Some <==> doc_field(doc@, key@) is Some,
        r matches Some(s) ==> doc_field(doc@, key@) == Some(s@),
{
    match serde_json::from_str::<serde_json::Value>(doc) {
        Ok(v) => match v.get(key) {
            Some(f) => match f.as_str() {
                Some(s) => Some(s.to_owned()),
                None => None,
            },
            None => None,
        },
        Err(_) => None,
    }
}

/// The document holds every field a `ContentConf` needs.
pub open spec fn content_doc_complete(doc: Seq<char>) -> bool {
    &&& doc_field(doc, "name"@) is Some
    &&& doc_field(doc, "url"@) is Some
    &&& doc_field(doc, "author"@) is Some
    &&& doc_field(doc, "description"@) is Some
    &&& doc_field(doc, "charset"@) is Some
    &&& doc_field(doc, "lang"@) is Some
    &&& doc_field(doc, "css"@) is Some
    &&& doc_field(doc, "custom_css"@) is Some
    &&& doc_field(doc, "js"@) is Some
}

/// The record carries exactly the document's fields.
pub open spec fn content_conf_of(doc: Seq<char>, c: ContentConf) -> bool {
    &&& doc_field(doc, "name"@) == Some(c.name@)
    &&& doc_field(doc, "url"@) == Some(c.url@)
    &&& doc_field(doc, "author"@) == Some(c.author@)
    &&& doc_field(doc, "description"@) == Some(c.description@)
    &&& doc_field(doc, "charset"@) == Some(c.charset@)
    &&& doc_field(doc, "lang"@) == Some(c.lang@)
    &&& doc_field(doc, "css"@) == Some(c.css@)
    &&& doc_field(doc, "custom_css"@) == Some(c.custom_css@)
    &&& doc_field(doc, "js"@) == Some(c.js@)
}

pub open spec fn app_doc_complete(doc: Seq<char>) -> bool {
    &&& doc_field(doc, "templates"@) is Some
    &&& doc_field(doc, "css"@) is Some
    &&& doc_field(doc, "custom_css"@) is Some
    &&& doc_field(doc, "javascript"@) is Some
}

pub open spec fn app_conf_of(doc: Seq<char>, c: AppConf) -> bool {
    &&& doc_field(doc, "templates"@) == Some(c.templates@)
    &&& doc_field(doc, "css"@) == Some(c.css@)
    &&& doc_field(doc, "custom_css"@) == Some(c.custom_css@)
    &&& doc_field(doc, "javascript"@) == Some(c.javascript@)
}

pub open spec fn server_doc_complete(doc: Seq<char>) -> bool {
    &&& doc_field(doc, "socket"@) is Some
    &&& doc_field(doc, "hostname"@) is Some
}

pub open spec fn server_conf_of(doc: Seq<char>, c: ServerConf) -> bool {
    &&& doc_field(doc, "socket"@) == Some(c.socket@)
    &&& doc_field(doc, "hostname"@) == Some(c.hostname@)
}

pub open spec fn ssl_doc_complete(doc: Seq<char>) -> bool {
    &&& doc_field(doc, "certfile"@) is Some
    &&& doc_field(doc, "keyfile"@) is Some
    &&& doc_field(doc, "socket"@) is Some
}

pub open spec fn ssl_conf_of(doc: Seq<char>, c: SslConf) -> bool {
    &&& doc_field(doc, "certfile"@) == Some(c.certfile@)
    &&& doc_field(doc, "keyfile"@) == Some(c.keyfile@)
    &&& doc_field(doc, "socket"@) == Some(c.socket@)
}

/// The document holds every field its kind asks for.
pub open spec fn doc_complete(kind: ConfigKind, doc: Seq<char>) -> bool {
    match kind {
        ConfigKind::Content => content_doc_complete(doc),
        ConfigKind::App => app_doc_complete(doc),
        ConfigKind::Server => server_doc_complete(doc),
        ConfigKind::Ssl => ssl_doc_complete(doc),
    }
}

/// The record is of the requested kind and carries exactly the document's
/// fields.
pub open spec fn loaded_matches(kind: ConfigKind, doc: Seq<char>, ctx: Context) -> bool {
    match kind {
        ConfigKind::Content => ctx matches Context::Content(c) && content_conf_of(doc, c),
        ConfigKind::App => ctx matches Context::App(c) && app_conf_of(doc, c),
        ConfigKind::Server => ctx matches Context::Server(c) && server_conf_of(doc, c),
        ConfigKind::Ssl => ctx matches Context::Ssl(c) && ssl_conf_of(doc, c),
    }
}

fn parse_content(doc: &str) -> (r: Result<ContentConf, ConfigError>)
    ensures
        content_doc_complete(doc@) ==> (r matches Ok(c) && content_conf_of(doc@, c)),
        !content_doc_complete(doc@) ==> r == Err::<ContentConf, ConfigError>(
            ConfigError::Malformed,
        ),
{
    let name = extract_field(doc, "name");
    let url = extract_field(doc, "url");
    let author = extract_field(doc, "author");
    let description = extract_field(doc, "description");
    let charset = extract_field(doc, "charset");
    let lang = extract_field(doc, "lang");
    let css = extract_field(doc, "css");
    let custom_css = extract_field(doc, "custom_css");
    let js = extract_field(doc, "js");
    if name.is_none() || url.is_none() || author.is_none() || description.is_none()
        || charset.is_none() || lang.is_none() || css.is_none() || custom_css.is_none()
        || js.is_none() {
        return Err(ConfigError::Malformed);
    }
    Ok(ContentConf {
        name: name.unwrap(),
        url: url.unwrap(),
        author: author.unwrap(),
        description: description.unwrap(),
        charset: charset.unwrap(),
        lang: lang.unwrap(),
        css: css.unwrap(),
        custom_css: custom_css.unwrap(),
        js: js.unwrap(),
    })
}

fn parse_app(doc: &str) -> (r: Result<AppConf, ConfigError>)
    ensures
        app_doc_complete(doc@) ==> (r matches Ok(c) && app_conf_of(doc@, c)),
        !app_doc_complete(doc@) ==> r == Err::<AppConf, ConfigError>(ConfigError::Malformed),
{
    let templates = extract_field(doc, "templates");
    let css = extract_field(doc, "css");
    let custom_css = extract_field(doc, "custom_css");
    let javascript = extract_field(doc, "javascript");
    match (templates, css, custom_css, javascript) {
        (Some(t), Some(c), Some(cc), Some(j)) => Ok(AppConf {
            templates: t,
            css: c,
            custom_css: cc,
            javascript: j,
        }),
        _ => Err(ConfigError::Malformed),
    }
}

fn parse_server(doc: &str) -> (r: Result<ServerConf, ConfigError>)
    ensures
        server_doc_complete(doc@) ==> (r matches Ok(c) && server_conf_of(doc@, c)),
        !server_doc_complete(doc@) ==> r == Err::<ServerConf, ConfigError>(ConfigError::Malformed),
{
    let socket = extract_field(doc, "socket");
    let hostname = extract_field(doc, "hostname");
    match (socket, hostname) {
        (Some(s), Some(h)) => Ok(ServerConf { socket: s, hostname: h }),
        _ => Err(ConfigError::Malformed),
    }
}

fn parse_ssl(doc: &str) -> (r: Result<SslConf, ConfigError>)
    ensures
        ssl_doc_complete(doc@) ==> (r matches Ok(c) && ssl_conf_of(doc@, c)),
        !ssl_doc_complete(doc@) ==> r == Err::<SslConf, ConfigError>(ConfigError::Malformed),
{
    let certfile = extract_field(doc, "certfile");
    let keyfile = extract_field(doc, "keyfile");
    let socket = extract_field(doc, "socket");
    match (certfile, keyfile, socket) {
        (Some(c), Some(k), Some(s)) => Ok(SslConf { certfile: c, keyfile: k, socket: s }),
        _ => Err(ConfigError::Malformed),
    }
}

/// Load one configuration record of a kind from what reading its document
/// produced: a missing document is `NotFound`, an unreadable one `Unreadable`,
/// and a document that does not hold every field of the kind `Malformed`;
/// otherwise the record carries exactly the document's fields.
pub fn load(kind: ConfigKind, source: DocSource) -> (r: Result<Context, ConfigError>)
    ensures
        source is Missing ==> r == Err::<Context, ConfigError>(ConfigError::NotFound),
        source is Unreadable ==> r == Err::<Context, ConfigError>(ConfigError::Unreadable),
        source matches DocSource::Text(doc) ==> {
            &&& doc_complete(kind, doc@) ==> (r matches Ok(ctx) && loaded_matches(
                kind,
                doc@,
                ctx,
            ))
            &&& !doc_complete(kind, doc@) ==> r == Err::<Context, ConfigError>(
                ConfigError::Malformed,
            )
        },
{
    match source {
        DocSource::Missing => Err(ConfigError::NotFound),
        DocSource::Unreadable => Err(ConfigError::Unreadable),
        DocSource::Text(doc) => match kind {
            ConfigKind::Content => match parse_content(doc.as_str()) {
                Ok(c) => Ok(Context::Content(c)),
                Err(e) => Err(e),
            },
            ConfigKind::App => match parse_app(doc.as_str()) {
                Ok(c) => Ok(Context::App(c)),
                Err(e) => Err(e),
            },
            ConfigKind::Server => match parse_server(doc.as_str()) {
                Ok(c) => Ok(Context::Server(c)),
                Err(e) => Err(e),
            },
            ConfigKind::Ssl => match parse_ssl(doc.as_str()) {
                Ok(c) => Ok(Context::Ssl(c)),
                Err(e) => Err(e),
            },
        },
    }
}

/// Load the application record, or say exactly why it could not be had.
pub fn app_conf(source: DocSource) -> (r: Result<AppConf, ConfigError>)
    ensures
        source is Missing ==> r == Err::<AppConf, ConfigError>(ConfigError::NotFound),
        source is Unreadable ==> r == Err::<AppConf, ConfigError>(ConfigError::Unreadable),
        source matches DocSource::Text(doc) ==> {
            &&& app_doc_complete(doc@) ==> (r matches Ok(c) && app_conf_of(doc@, c))
            &&& !app_doc_complete(doc@) ==> r == Err::<AppConf, ConfigError>(
                ConfigError::Malformed,
            )
        },
{
    match source {
        DocSource::Missing => Err(ConfigError::NotFound),
        DocSource::Unreadable => Err(ConfigError::Unreadable),
        DocSource::Text(doc) => parse_app(doc.as_str()),
    }
}

/// Load the plain listener record, or say exactly why it could not be had.
pub fn server_conf(source: DocSource) -> (r: Result<ServerConf, ConfigError>)
    ensures
        source is Missing ==> r == Err::<ServerConf, ConfigError>(ConfigError::NotFound),
        source is Unreadable ==> r == Err::<ServerConf, ConfigError>(ConfigError::Unreadable),
        source matches DocSource::Text(doc) ==> {
            &&& server_doc_complete(doc@) ==> (r matches Ok(c) && server_conf_of(doc@, c))
            &&& !server_doc_complete(doc@) ==> r == Err::<ServerConf, ConfigError>(
                ConfigError::Malformed,
            )
        },
{
    match source {
        DocSource::Missing => Err(ConfigError::NotFound),
        DocSource::Unreadable => Err(ConfigError::Unreadable),
        DocSource::Text(doc) => parse_server(doc.as_str()),
    }
}

/// Load the TLS record, or say exactly why it could not be had.
pub fn ssl_conf(source: DocSource) -> (r: Result<SslConf, ConfigError>)
    ensures
        source is Missing ==> r == Err::<SslConf, ConfigError>(ConfigError::NotFound),
        source is Unreadable ==> r == Err::<SslConf, ConfigError>(ConfigError::Unreadable),
        source matches DocSource::Text(doc) ==> {
            &&& ssl_doc_complete(doc@) ==> (r matches Ok(c) && ssl_conf_of(doc@, c))
            &&& !ssl_doc_complete(doc@) ==> r == Err::<SslConf, ConfigError>(
                ConfigError::Malformed,
            )
        },
{
    match source {
        DocSource::Missing => Err(ConfigError::NotFound),
        DocSource::Unreadable => Err(ConfigError::Unreadable),
        DocSource::Text(doc) => parse_ssl(doc.as_str()),
    }
}

/// The two records carry the same fields, variant for variant.
pub open spec fn context_fields_equal(a: Context, b: Context) -> bool {
    match (a, b) {
        (Context::Content(x), Context::Content(y)) => {
            &&& x.name@ == y.name@
            &&& x.url@ == y.url@
            &&& x.author@ == y.author@
            &&& x.description@ == y.description@
            &&& x.charset@ == y.charset@
            &&& x.lang@ == y.lang@
            &&& x.css@ == y.css@
            &&& x.custom_css@ == y.custom_css@
            &&& x.js@ == y.js@
        },
        (Context::App(x), Context::App(y)) => {
            &&& x.templates@ == y.templates@
            &&& x.css@ == y.css@
            &&& x.custom_css@ == y.custom_css@
            &&& x.javascript@ == y.javascript@
        },
        (Context::Server(x), Context::Server(y)) => {
            &&& x.socket@ == y.socket@
            &&& x.hostname@ == y.hostname@
        },
        (Context::Ssl(x), Context::Ssl(y)) => {
            &&& x.certfile@ == y.certfile@
            &&& x.keyfile@ == y.keyfile@
            &&& x.socket@ == y.socket@
        },
        _ => false,
    }
}

/// Loading is deterministic, so it is idempotent: two records loaded from the
/// same document of the same kind are the same record, and a reload that
/// re-reads an unchanged document reproduces the configuration exactly.
pub proof fn lemma_load_deterministic(kind: ConfigKind, doc: Seq<char>, a: Context, b: Context)
    requires
        loaded_matches(kind, doc, a),
        loaded_matches(kind, doc, b),
    ensures
        context_fields_equal(a, b),
{
}

/// A document from which a required field of the kind is missing corresponds
/// to no record at all: there is no partially populated state the loader
/// could hand out.
pub proof fn lemma_malformed_never_partial(kind: ConfigKind, doc: Seq<char>, ctx: Context)
    requires
        !doc_complete(kind, doc),
    ensures
        !loaded_matches(kind, doc, ctx),
{
}

} // verus!
