use lnurl_server::config::AppConfig;
use lnurl_server::network::ChosenNetwork;
use lnurl_server::page::{
    get_header, index_with_network, parse_timestamp, payment_line, payments_text,
    underscore_rule, PaymentRow,
};
use lnurl_server::pay::{get_ln_address, get_lnurl_pay_qr};
use lnurl_server::text::{decimal_string, join_strings, padded_left, padded_right, repeat_str, str_equal};
use lnurl_server::withdraw::{get_lnurl_withdraw_link, get_lnurl_withdraw_qr};

#[test]
fn decimal_rendering() {
    assert_eq!(decimal_string(0), "0");
    assert_eq!(decimal_string(7), "7");
    assert_eq!(decimal_string(10), "10");
    assert_eq!(decimal_string(1_700_000_000_123), "1700000000123");
    assert_eq!(decimal_string(u128::MAX), u128::MAX.to_string());
}

#[test]
fn padding_and_repetition() {
    assert_eq!(repeat_str("_", 0), "");
    assert_eq!(repeat_str("ab", 3), "ababab");
    assert_eq!(repeat_str("", 4), "");
    assert_eq!(underscore_rule(3), "___");
    assert_eq!(padded_right("Send", 8), "Send    ");
    assert_eq!(padded_right("Receive", 3), "Receive");
    assert_eq!(padded_left("21", 5), "   21");
    assert_eq!(padded_left("123456", 3), "123456");
    assert_eq!(padded_right("é", 3), "é  ");
}

#[test]
fn joining_and_comparing() {
    let parts = vec!["a".to_string(), "b".to_string(), "c".to_string()];
    assert_eq!(join_strings(&parts, "\n"), "a\nb\nc");
    assert_eq!(join_strings(&Vec::new(), "\n"), "");
    assert!(str_equal("abc", "abc"));
    assert!(!str_equal("abc", "abd"));
    assert!(!str_equal("abc", "ab"));
}

#[test]
fn timestamps_in_utc() {
    assert_eq!(parse_timestamp(0), "1970-01-01 00:00:00");
    assert_eq!(parse_timestamp(1431648000), "2015-05-15 00:00:00");
    assert_eq!(parse_timestamp(u32::MAX), "2106-02-07 06:28:15");
}

#[test]
fn headers_link_the_other_network() {
    assert_eq!(
        get_header(ChosenNetwork::Mainnet),
        "<pre><h3><a href=\"/testnet\">Testnet</a> | Mainnet</h3></pre>"
    );
    assert_eq!(
        get_header(ChosenNetwork::Testnet),
        "<pre><h3>Testnet | <a href=\"/mainnet\">Mainnet</a></h3></pre>"
    );
}

#[test]
fn payment_lines() {
    let with_time = PaymentRow { timestamp: Some(0), payment_type: "Send".to_string(), amount_sat: 21 };
    assert_eq!(
        payment_line(&with_time),
        format!("1970-01-01 00:00:00 | {:15} | {:10} sat", "Send", 21)
    );
    assert_eq!(payment_line(&with_time), "1970-01-01 00:00:00 | Send            |         21 sat");
    let without = PaymentRow { timestamp: None, payment_type: "Receive".to_string(), amount_sat: 5000 };
    assert_eq!(
        payment_line(&without),
        format!("(None) {} | {:15} | {:10} sat", " ".repeat(12), "Receive", 5000)
    );
    let rows = vec![with_time, without];
    let text = payments_text(&rows);
    assert_eq!(text.lines().count(), 2);
    assert!(text.starts_with("1970-01-01 00:00:00 | Send"));
    assert_eq!(payments_text(&Vec::new()), "");
}

#[test]
fn status_page_layout() {
    let c = AppConfig {
        ls_sdk_data_dir: "data".to_string(),
        mnemonic: "abandon".to_string(),
        domain: "example.com".to_string(),
        min_sendable_msat: 1000,
        max_sendable_msat: 100_000_000,
    };
    let rows = vec![PaymentRow { timestamp: Some(1431648000), payment_type: "Receive".to_string(), amount_sat: 1234 }];
    let page = index_with_network(&c, ChosenNetwork::Testnet, 1234, &rows).expect("links fit in QR codes");
    let net = ChosenNetwork::Testnet;
    let expected_pay = format!(
        "{} [Testnet] LNURL Pay & LN Address {}\n\n{}\n\n{}",
        "_".repeat(3),
        "_".repeat(41),
        get_lnurl_pay_qr(&c, net).unwrap(),
        get_ln_address(&c, net)
    );
    let expected_withdraw = format!(
        "{} [Testnet] LNURL Withdraw {}\n\n{}\n\n{}",
        "_".repeat(3),
        "_".repeat(49),
        get_lnurl_withdraw_qr(&c, net).unwrap(),
        get_lnurl_withdraw_link(&c, net)
    );
    let expected_balance = format!(
        "{} [Testnet] Balance {}\n\n1234 sat\n\n2015-05-15 00:00:00 | Receive         |       1234 sat",
        "_".repeat(3),
        "_".repeat(56)
    );
    let expected = format!(
        "{}\n\n<pre>{expected_pay}\n\n{expected_withdraw}\n\n{expected_balance}</pre>",
        get_header(net)
    );
    assert_eq!(page, expected);
    assert!(page.contains("testnet@example.com"));
}

#[test]
fn status_page_absent_when_links_do_not_fit() {
    let c = AppConfig {
        ls_sdk_data_dir: "data".to_string(),
        mnemonic: "abandon".to_string(),
        domain: "x".repeat(8000),
        min_sendable_msat: 1000,
        max_sendable_msat: 100_000_000,
    };
    assert!(index_with_network(&c, ChosenNetwork::Mainnet, 0, &Vec::new()).is_none());
    assert!(get_lnurl_withdraw_qr(&c, ChosenNetwork::Mainnet).is_none());
}
