use lnaddress_phoenixd::cli_arguments::Cli;
use lnaddress_phoenixd::lnurl::{
    handle_lnurlp, is_authorized, lnurl_callback_handler, lnurl_callback_response, CallbackStep,
    LnurlSubOpts,
};
use lnaddress_phoenixd::phoenixd_client::{PhoenixInvoice, PhoenixdSubOpts};

fn config(names: &[&str], domain: Option<&str>) -> Cli {
    Cli {
        listen_host: Some("127.0.0.1".to_string()),
        listen_port: Some("3000".to_string()),
        domain_name: domain.map(|d| d.to_string()),
        accepted_username: Some(names.iter().map(|n| n.to_string()).collect()),
        phoenixd_opts: PhoenixdSubOpts {
            phoenixd_config: None,
            phoenixd_url: None,
            phoenixd_port: None,
            phoenixd_username: None,
            phoenixd_password: None,
        },
        lnurl_opts: LnurlSubOpts {
            lnurl_payment_identify: "Satoshi".to_string(),
            lnurl_payment_description: "Hello World".to_string(),
            lnurl_allow_note: 42,
            lnurl_greeting: Some("Thanks!".to_string()),
            lnurl_minimum_sendable_milisats: 1000,
            lnurl_maximum_sendable_milisats: 2100000000,
        },
        debug: false,
    }
}

#[test]
fn metadata_for_listed_user_is_ok() {
    let cli = config(&["alice"], None);
    let doc = handle_lnurlp(&cli, "alice", "pay.example.com", None);
    assert_eq!(doc.status, "ok");
    assert_eq!(doc.name, "Satoshi");
    assert_eq!(doc.description, "Hello World");
    assert_eq!(doc.min_sendable, 1000);
    assert_eq!(doc.max_sendable, 2100000000);
    assert_eq!(doc.comment_length, 42);
    assert_eq!(doc.callback_host, "pay.example.com");
    assert_eq!(doc.callback_proto, "http");
    assert_eq!(doc.error_message, "");
}

#[test]
fn metadata_for_unknown_user_is_error() {
    let cli = config(&["alice"], None);
    let doc = handle_lnurlp(&cli, "bob", "pay.example.com", Some("https"));
    assert_eq!(doc.status, "error");
    assert_eq!(doc.error_message, "User not found");
    assert_eq!(doc.name, "");
    assert_eq!(doc.description, "");
    assert_eq!(doc.min_sendable, 0);
    assert_eq!(doc.max_sendable, 0);
    assert_eq!(doc.comment_length, 0);
    assert_eq!(doc.callback_host, "");
    assert_eq!(doc.callback_proto, "");
}

#[test]
fn wildcard_accepts_every_name() {
    let cli = config(&["*"], None);
    for name in ["alice", "bob", "", "Alice"] {
        assert_eq!(handle_lnurlp(&cli, name, "h", None).status, "ok");
    }
}

#[test]
fn authorization_is_exact() {
    let names = vec!["alice".to_string(), "carol".to_string()];
    assert!(is_authorized(&names, "alice"));
    assert!(is_authorized(&names, "carol"));
    assert!(!is_authorized(&names, "Alice"));
    assert!(!is_authorized(&names, "alic"));
    assert!(!is_authorized(&Vec::new(), "alice"));
    assert!(!is_authorized(&names, "*"));
}

#[test]
fn forwarded_proto_is_used_when_present() {
    let cli = config(&["alice"], None);
    assert_eq!(handle_lnurlp(&cli, "alice", "h", Some("https")).callback_proto, "https");
    assert_eq!(handle_lnurlp(&cli, "alice", "h", None).callback_proto, "http");
}

#[test]
fn domain_override_wins_over_request_host() {
    let cli = config(&["alice"], Some("ln.example.org"));
    let doc = handle_lnurlp(&cli, "alice", "10.0.0.7:3000", None);
    assert_eq!(doc.callback_host, "ln.example.org");
    let cli = config(&["alice"], None);
    let doc = handle_lnurlp(&cli, "alice", "10.0.0.7:3000", None);
    assert_eq!(doc.callback_host, "10.0.0.7:3000");
}

#[test]
fn callback_orders_whole_satoshi() {
    let cli = config(&["*"], None);
    match lnurl_callback_handler(&cli, "anyone", Some("5000000"), None) {
        CallbackStep::CreateInvoice(o) => {
            assert_eq!(o.amount_sat, 5000);
            assert_eq!(o.description, "");
            assert_eq!(o.external_id, "lnurl-pay");
        }
        CallbackStep::Respond(_) => panic!("expected an invoice order"),
    }
}

#[test]
fn callback_amount_rounds_down() {
    let cli = config(&["*"], None);
    for (msat, sat) in [("0", 0u64), ("999", 0), ("1000", 1), ("1999", 1), ("+2500", 2),
        ("18446744073709551615", 18446744073709551)]
    {
        match lnurl_callback_handler(&cli, "x", Some(msat), Some("coffee")) {
            CallbackStep::CreateInvoice(o) => {
                assert_eq!(o.amount_sat, sat);
                assert_eq!(o.description, "coffee");
            }
            CallbackStep::Respond(_) => panic!("expected an invoice order for {msat}"),
        }
    }
}

#[test]
fn callback_with_invoice_answers_ok() {
    let cli = config(&["*"], None);
    let invoice = PhoenixInvoice {
        amountSat: 5000,
        paymentHash: "abc".to_string(),
        serialized: "lnbc50u1mock".to_string(),
    };
    let doc = lnurl_callback_response(&cli, &invoice);
    assert_eq!(doc.status, "ok");
    assert_eq!(doc.ln_data, "lnbc50u1mock");
    assert_eq!(doc.success_message, "Thanks!");
    assert_eq!(doc.error_message, "");
}

#[test]
fn callback_without_amount_is_error() {
    let cli = config(&["*"], None);
    for amount in [None, Some(""), Some("abc"), Some("-5"), Some("+"), Some("1.5"),
        Some("18446744073709551616")]
    {
        match lnurl_callback_handler(&cli, "anyone", amount, None) {
            CallbackStep::Respond(t) => {
                assert_eq!(t.status, "error");
                assert_eq!(t.error_message, "Invalid amount");
                assert_eq!(t.ln_data, "");
            }
            CallbackStep::CreateInvoice(_) => panic!("expected an error for {amount:?}"),
        }
    }
}

#[test]
fn callback_for_unknown_user_is_error() {
    let cli = config(&["alice"], None);
    match lnurl_callback_handler(&cli, "bob", Some("5000000"), None) {
        CallbackStep::Respond(t) => {
            assert_eq!(t.status, "error");
            assert_eq!(t.error_message, "User not found");
            assert_eq!(t.ln_data, "");
            assert_eq!(t.success_message, "");
        }
        CallbackStep::CreateInvoice(_) => panic!("no invoice for an unknown user"),
    }
}
