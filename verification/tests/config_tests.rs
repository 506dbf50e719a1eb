use server_control::config::{
    app_conf, load, server_conf, ssl_conf, ConfigError, ConfigKind, Context, DocSource,
};

#[test]
fn missing_document_is_not_found() {
    let r = load(ConfigKind::Server, DocSource::Missing);
    assert!(matches!(r, Err(ConfigError::NotFound)));
}

#[test]
fn unreadable_document_is_unreadable() {
    let r = load(ConfigKind::App, DocSource::Unreadable);
    assert!(matches!(r, Err(ConfigError::Unreadable)));
}

#[test]
fn server_document_loads_fully() {
    let doc = String::from("{\"socket\":\"127.0.0.1:9443\",\"hostname\":\"test\"}");
    let r = load(ConfigKind::Server, DocSource::Text(doc));
    match r {
        Ok(Context::Server(c)) => {
            assert_eq!(c.socket, "127.0.0.1:9443");
            assert_eq!(c.hostname, "test");
        }
        other => panic!("expected a server record, got {:?}", other),
    }
}

#[test]
fn server_conf_loads_fully() {
    let doc = String::from("{\"hostname\":\"h\",\"socket\":\"0.0.0.0:80\"}");
    let c = server_conf(DocSource::Text(doc)).unwrap();
    assert_eq!(c.socket, "0.0.0.0:80");
    assert_eq!(c.hostname, "h");
}

#[test]
fn ssl_document_loads_fully() {
    let doc = String::from(
        "{\"certfile\":\"/ssl/cert.pem\",\"keyfile\":\"/ssl/key.pem\",\"socket\":\"127.0.0.1:9443\"}",
    );
    let c = ssl_conf(DocSource::Text(doc)).unwrap();
    assert_eq!(c.certfile, "/ssl/cert.pem");
    assert_eq!(c.keyfile, "/ssl/key.pem");
    assert_eq!(c.socket, "127.0.0.1:9443");
}

#[test]
fn app_document_loads_fully() {
    let doc = String::from(
        "{\"templates\":\"/templates/**/*\",\"css\":\"/css/picnic.min.css\",\
         \"custom_css\":\"/css/custom.css\",\"javascript\":\"/js/umbrella.min.js\"}",
    );
    let c = app_conf(DocSource::Text(doc)).unwrap();
    assert_eq!(c.templates, "/templates/**/*");
    assert_eq!(c.css, "/css/picnic.min.css");
    assert_eq!(c.custom_css, "/css/custom.css");
    assert_eq!(c.javascript, "/js/umbrella.min.js");
}

#[test]
fn content_document_loads_fully() {
    let doc = String::from(
        "{\"name\":\"site\",\"url\":\"https://example.test\",\"author\":\"a\",\
         \"description\":\"d\",\"charset\":\"utf-8\",\"lang\":\"en\",\
         \"css\":\"/s.css\",\"custom_css\":\"/c.css\",\"js\":\"/u.js\"}",
    );
    let r = load(ConfigKind::Content, DocSource::Text(doc));
    match r {
        Ok(Context::Content(c)) => {
            assert_eq!(c.name, "site");
            assert_eq!(c.url, "https://example.test");
            assert_eq!(c.author, "a");
            assert_eq!(c.description, "d");
            assert_eq!(c.charset, "utf-8");
            assert_eq!(c.lang, "en");
            assert_eq!(c.css, "/s.css");
            assert_eq!(c.custom_css, "/c.css");
            assert_eq!(c.js, "/u.js");
        }
        other => panic!("expected a content record, got {:?}", other),
    }
}

#[test]
fn missing_field_is_malformed() {
    let doc = String::from("{\"socket\":\"127.0.0.1:9443\"}");
    let r = load(ConfigKind::Server, DocSource::Text(doc));
    assert!(matches!(r, Err(ConfigError::Malformed)));
}

#[test]
fn non_string_field_is_malformed() {
    let doc = String::from("{\"socket\":\"127.0.0.1:9443\",\"hostname\":7}");
    let r = load(ConfigKind::Server, DocSource::Text(doc));
    assert!(matches!(r, Err(ConfigError::Malformed)));
}

#[test]
fn invalid_json_is_malformed() {
    let doc = String::from("{\"socket\": ");
    let r = load(ConfigKind::Server, DocSource::Text(doc));
    assert!(matches!(r, Err(ConfigError::Malformed)));
}

#[test]
fn empty_document_is_malformed() {
    let r = load(ConfigKind::Content, DocSource::Text(String::new()));
    assert!(matches!(r, Err(ConfigError::Malformed)));
}

#[test]
fn wrong_kind_document_is_malformed() {
    // A valid server document does not have the fields of an app record.
    let doc = String::from("{\"socket\":\"127.0.0.1:9443\",\"hostname\":\"test\"}");
    let r = load(ConfigKind::App, DocSource::Text(doc));
    assert!(matches!(r, Err(ConfigError::Malformed)));
}

#[test]
fn extra_fields_are_ignored() {
    let doc = String::from(
        "{\"socket\":\"127.0.0.1:9443\",\"hostname\":\"test\",\"comment\":\"ignored\"}",
    );
    let c = server_conf(DocSource::Text(doc)).unwrap();
    assert_eq!(c.socket, "127.0.0.1:9443");
    assert_eq!(c.hostname, "test");
}
