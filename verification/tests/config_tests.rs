use siredir::config::{Config, ConfigRedirectRecord};

#[test]
fn new_config_has_default_bind_address_and_no_redirects() {
    let c = Config::new();
    assert_eq!(c.get_bind_to().as_slice(), &["0.0.0.0:8080".to_owned()]);
    assert!(c.get_redirects().is_empty());
}

#[test]
fn default_config_equals_new_config() {
    let d = Config::default();
    let n = Config::new();
    assert_eq!(d.get_bind_to(), n.get_bind_to());
    assert_eq!(d.get_redirects().len(), n.get_redirects().len());
}

#[test]
fn from_parts_keeps_addresses_and_records() {
    let records = vec![
        ConfigRedirectRecord {
            re: "^a$".to_owned(),
            rewrite_rule: "https://a/".to_owned(),
            status_code: 301,
        },
        ConfigRedirectRecord {
            re: "^b$".to_owned(),
            rewrite_rule: "https://b/".to_owned(),
            status_code: 302,
        },
    ];
    let c = Config::from_parts(vec!["127.0.0.1:9000".to_owned()], records);
    assert_eq!(c.get_bind_to().as_slice(), &["127.0.0.1:9000".to_owned()]);
    let rs = c.get_redirects();
    assert_eq!(rs.len(), 2);
    assert_eq!(rs[0].re, "^a$");
    assert_eq!(rs[0].rewrite_rule, "https://a/");
    assert_eq!(rs[0].status_code, 301);
    assert_eq!(rs[1].re, "^b$");
    assert_eq!(rs[1].status_code, 302);
}
