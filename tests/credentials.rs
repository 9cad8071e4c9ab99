use lnaddress_phoenixd::phoenixd_client::{
    config_file_path, get_auth_config, invoice_request, lookup_config, parse_config,
    AuthCredentials, AuthError, PhoenixdSubOpts,
};
use lnaddress_phoenixd::text::{decimal_string, parse_decimal_u64};

fn opts(password: Option<&str>, username: Option<&str>, config: Option<&str>) -> PhoenixdSubOpts {
    PhoenixdSubOpts {
        phoenixd_config: config.map(|s| s.to_string()),
        phoenixd_url: None,
        phoenixd_port: None,
        phoenixd_username: username.map(|s| s.to_string()),
        phoenixd_password: password.map(|s| s.to_string()),
    }
}

#[test]
fn password_from_config_file() {
    let o = opts(None, None, None);
    let content = "http-password=secret123\nother=ignored=me";
    let c = get_auth_config(&o, Some("/home/u"), Some(content)).unwrap();
    assert_eq!(c.username, "http-password");
    assert_eq!(c.password, "secret123");
}

#[test]
fn explicit_password_wins() {
    let o = opts(Some("pw"), None, None);
    let c = get_auth_config(&o, None, None).unwrap();
    assert_eq!(c.username, "http-password");
    assert_eq!(c.password, "pw");
    let o = opts(Some("pw"), Some("me"), None);
    let c = get_auth_config(&o, None, Some("http-password=other")).unwrap();
    assert_eq!(c.username, "me");
    assert_eq!(c.password, "pw");
}

#[test]
fn resolution_errors() {
    let o = opts(None, None, None);
    assert_eq!(get_auth_config(&o, None, Some("http-password=x")).err(), Some(AuthError::MissingHome));
    assert_eq!(get_auth_config(&o, Some("/h"), None).err(), Some(AuthError::ConfigUnreadable));
    assert_eq!(
        get_auth_config(&o, Some("/h"), Some("http-password=a=b\nx=y")).err(),
        Some(AuthError::MissingPassword)
    );
}

#[test]
fn resolution_is_deterministic() {
    let o = opts(None, None, None);
    let content = "a=1\nhttp-password = s3\n";
    let first: AuthCredentials = get_auth_config(&o, Some("/h"), Some(content)).unwrap();
    let second: AuthCredentials = get_auth_config(&o, Some("/h"), Some(content)).unwrap();
    assert_eq!(first.username, second.username);
    assert_eq!(first.password, second.password);
    assert_eq!(first.password, "s3");
}

#[test]
fn config_lines_need_exactly_one_equals() {
    let entries = parse_config("  \n novalue \n k1 = v1 \na=b=c\n=\n\tk2=\u{a0}v2\u{3000}\n  ");
    let pairs: Vec<(&str, &str)> = entries.iter().map(|(k, v)| (k.as_str(), v.as_str())).collect();
    assert_eq!(pairs, vec![("k1", "v1"), ("", ""), ("k2", "v2")]);
}

#[test]
fn duplicate_keys_take_the_last_value() {
    let entries = parse_config("k=1\nj=2\nk=3\n");
    assert_eq!(lookup_config(&entries, "k"), Some("3".to_string()));
    assert_eq!(lookup_config(&entries, "j"), Some("2".to_string()));
    assert_eq!(lookup_config(&entries, "z"), None);
    let o = opts(None, None, None);
    let c = get_auth_config(&o, Some("/h"), Some("http-password=a\nhttp-password=b")).unwrap();
    assert_eq!(c.password, "b");
}

#[test]
fn config_path_defaults_under_home() {
    let o = opts(None, None, None);
    assert_eq!(config_file_path(&o, Some("/home/u")).unwrap(), "/home/u/.phoenix/phoenix.conf");
    let o = opts(None, None, Some("/etc/p.conf"));
    assert_eq!(config_file_path(&o, Some("/home/u")).unwrap(), "/etc/p.conf");
    assert_eq!(config_file_path(&o, None).err(), Some(AuthError::MissingHome));
}

#[test]
fn invoice_request_fields() {
    let o = opts(None, None, None);
    let creds = AuthCredentials { username: "u".to_string(), password: "p".to_string() };
    let req = invoice_request(&o, &creds, 5000, "coffee", "lnurl-pay");
    assert_eq!(req.url, "http://127.0.0.1:9740/createinvoice");
    assert_eq!(req.username, "u");
    assert_eq!(req.password, "p");
    let form: Vec<(&str, &str)> = req.form.iter().map(|(k, v)| (k.as_str(), v.as_str())).collect();
    assert_eq!(form, vec![("description", "coffee"), ("amountSat", "5000"), ("externalId", "lnurl-pay")]);
    let mut o = opts(None, None, None);
    o.phoenixd_url = Some("https://node".to_string());
    o.phoenixd_port = Some("1234".to_string());
    assert_eq!(invoice_request(&o, &creds, 0, "", "x").url, "https://node:1234/createinvoice");
}

#[test]
fn decimal_round_trip() {
    for n in [0u64, 7, 10, 1000, 5000, 18446744073709551615] {
        assert_eq!(decimal_string(n), n.to_string());
        assert_eq!(parse_decimal_u64(&n.to_string()), Some(n));
    }
    assert_eq!(parse_decimal_u64("+12"), Some(12));
    assert_eq!(parse_decimal_u64("007"), Some(7));
    assert_eq!(parse_decimal_u64(" 7"), None);
    assert_eq!(parse_decimal_u64("٣"), None);
}
