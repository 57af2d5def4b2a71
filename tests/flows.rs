use lnurl_server::config::AppConfig;
use lnurl_server::envelope::build_lnurl_response_err;
use lnurl_server::network::ChosenNetwork;
use lnurl_server::pay::{
    get_ln_address, get_lnurl_params, get_lnurl_pay_qr, invoice_amount_sat, invoice_outcome,
};
use lnurl_server::withdraw::{
    get_lnurl_withdraw_link, get_lnurl_withdraw_params, get_lnurl_withdraw_qr,
    withdraw_outcome, withdraw_params_at, MAX_WITHDRAWABLE_MSAT, MIN_WITHDRAWABLE_MSAT,
};

fn config(domain: &str, min: u64, max: u64) -> AppConfig {
    AppConfig {
        ls_sdk_data_dir: "data".to_string(),
        mnemonic: "abandon".to_string(),
        domain: domain.to_string(),
        min_sendable_msat: min,
        max_sendable_msat: max,
    }
}

#[test]
fn resolve_ignores_case() {
    assert_eq!(ChosenNetwork::from_param("MainNet"), ChosenNetwork::Mainnet);
    assert_eq!(ChosenNetwork::from_param("mainnet"), ChosenNetwork::Mainnet);
    assert_eq!(ChosenNetwork::from_param("MAINNET"), ChosenNetwork::Mainnet);
}

#[test]
fn resolve_falls_back_to_testnet() {
    assert_eq!(ChosenNetwork::from_param("foo"), ChosenNetwork::Testnet);
    assert_eq!(ChosenNetwork::from_param(""), ChosenNetwork::Testnet);
    assert_eq!(ChosenNetwork::from_param("testnet"), ChosenNetwork::Testnet);
    assert_eq!(ChosenNetwork::from_param("mainnet "), ChosenNetwork::Testnet);
    assert_eq!(ChosenNetwork::from_param("main"), ChosenNetwork::Testnet);
}

#[test]
fn network_names() {
    assert_eq!(ChosenNetwork::Mainnet.name(), "Mainnet");
    assert_eq!(ChosenNetwork::Testnet.name(), "Testnet");
}

#[test]
fn pay_params_carry_configured_bounds() {
    let c = config("example.com", 1000, 100_000_000);
    let p = get_lnurl_params(&c, "alice");
    assert_eq!(p.min_sendable, 1000);
    assert_eq!(p.max_sendable, 100_000_000);
    assert!(p.min_sendable <= p.max_sendable);
    assert_eq!(p.tag, "payRequest");
    assert_eq!(p.callback, "https://example.com/alice/invoice");
    assert_eq!(p.metadata, "[[\"text/plain\",\"tbd-test-metadata\"]]");
}

#[test]
fn invoice_amount_floors_to_satoshis() {
    assert_eq!(invoice_amount_sat(21000), 21);
    assert_eq!(invoice_amount_sat(5000), 5);
    assert_eq!(invoice_amount_sat(21999), 21);
    assert_eq!(invoice_amount_sat(999), 0);
    assert_eq!(invoice_amount_sat(0), 0);
    assert_eq!(invoice_amount_sat(u64::MAX), u64::MAX / 1000);
}

#[test]
fn invoice_success_has_empty_routes() {
    let amount = invoice_amount_sat(5000);
    assert_eq!(amount, 5);
    let r = invoice_outcome(Ok("lnbc-stub-invoice".to_string()));
    match r {
        Ok(resp) => {
            assert_eq!(resp.pr, "lnbc-stub-invoice");
            assert!(resp.routes.is_empty());
        }
        Err(_) => panic!("expected an invoice"),
    }
}

#[test]
fn invoice_failure_is_error_envelope() {
    let r = invoice_outcome(Err("insufficient liquidity".to_string()));
    match r {
        Ok(_) => panic!("expected an error envelope"),
        Err(e) => {
            assert_eq!(e.status, "ERROR");
            assert_eq!(e.reason, "Failed to get invoice: insufficient liquidity");
            assert!(e.reason.contains("insufficient liquidity"));
        }
    }
}

#[test]
fn error_envelope_shape() {
    let e = build_lnurl_response_err("boom");
    assert_eq!(e.status, "ERROR");
    assert_eq!(e.reason, "boom");
}

#[test]
fn ln_address_is_lowercased() {
    let c = config("Example.COM", 1, 2);
    assert_eq!(get_ln_address(&c, ChosenNetwork::Mainnet), "mainnet@example.com");
    assert_eq!(get_ln_address(&c, ChosenNetwork::Testnet), "testnet@example.com");
}

#[test]
fn withdraw_link_is_lowercased() {
    let c = config("Example.COM", 1, 2);
    assert_eq!(
        get_lnurl_withdraw_link(&c, ChosenNetwork::Testnet),
        "https://example.com/.well-known/lnurlw/testnet"
    );
    assert_eq!(
        get_lnurl_withdraw_link(&c, ChosenNetwork::Mainnet),
        "https://example.com/.well-known/lnurlw/mainnet"
    );
}

#[test]
fn qr_codes_render_the_links() {
    let c = config("example.com", 1, 2);
    let pay = get_lnurl_pay_qr(&c, ChosenNetwork::Mainnet).expect("address fits");
    let withdraw = get_lnurl_withdraw_qr(&c, ChosenNetwork::Mainnet).expect("link fits");
    assert!(!pay.is_empty());
    assert_ne!(pay, get_ln_address(&c, ChosenNetwork::Mainnet));
    assert_ne!(withdraw, get_lnurl_withdraw_link(&c, ChosenNetwork::Mainnet));
    assert_ne!(pay, withdraw);
    assert!(pay.contains('\n'));
}

#[test]
fn qr_fails_on_oversized_data() {
    let c = config(&"x".repeat(8000), 1, 2);
    assert!(get_lnurl_pay_qr(&c, ChosenNetwork::Testnet).is_none());
}

#[test]
fn withdraw_params_from_clock_reading() {
    let r = withdraw_params_at("https://example.com/bob/withdraw", 5, 10, Some(1_700_000_000_123));
    match r {
        Ok(p) => {
            assert_eq!(p.tag, "withdrawRequest");
            assert_eq!(p.callback, "https://example.com/bob/withdraw");
            assert_eq!(p.k1, "1700000000123");
            assert_eq!(p.default_description, "tbd-test-withdraw-description");
            assert_eq!(p.min_withdrawable, 5);
            assert_eq!(p.max_withdrawable, 10);
        }
        Err(_) => panic!("expected parameters"),
    }
}

#[test]
fn withdraw_params_without_clock_is_error() {
    match withdraw_params_at("cb", 5, 10, None) {
        Ok(_) => panic!("expected an error envelope"),
        Err(e) => {
            assert_eq!(e.status, "ERROR");
            assert_eq!(e.reason, "SystemTime before UNIX EPOCH");
        }
    }
}

#[test]
fn k1_of_same_millisecond_may_repeat() {
    let a = withdraw_params_at("cb", 1, 2, Some(42)).ok().unwrap();
    let b = withdraw_params_at("cb", 1, 2, Some(42)).ok().unwrap();
    let c = withdraw_params_at("cb", 1, 2, Some(43)).ok().unwrap();
    assert_eq!(a.k1, b.k1);
    assert_ne!(a.k1, c.k1);
    let zero = withdraw_params_at("cb", 1, 2, Some(0)).ok().unwrap();
    assert_eq!(zero.k1, "0");
}

#[test]
fn withdraw_params_now() {
    let c = config("example.com", 1, 2);
    let p = get_lnurl_withdraw_params(&c, "bob").ok().expect("clock after epoch");
    assert_eq!(p.tag, "withdrawRequest");
    assert_eq!(p.callback, "https://example.com/bob/withdraw");
    assert_eq!(p.min_withdrawable, MIN_WITHDRAWABLE_MSAT);
    assert_eq!(p.max_withdrawable, MAX_WITHDRAWABLE_MSAT);
    assert_eq!(p.min_withdrawable, 5_000_000);
    assert_eq!(p.max_withdrawable, 100_000_000);
    assert!(!p.k1.is_empty());
    assert!(p.k1.chars().all(|ch| ch.is_ascii_digit()));
    assert!(p.k1.len() >= 13);
}

#[test]
fn settlement_ignores_k1() {
    for k1 in ["anything", "", "1700000000123"] {
        match withdraw_outcome(k1, Ok("txid-1".to_string())) {
            Ok(rc) => assert_eq!(rc.txid, "txid-1"),
            Err(_) => panic!("expected settlement"),
        }
    }
}

#[test]
fn settlement_failure_is_error_envelope() {
    match withdraw_outcome("k", Err("route not found".to_string())) {
        Ok(_) => panic!("expected an error envelope"),
        Err(e) => {
            assert_eq!(e.status, "ERROR");
            assert_eq!(e.reason, "Failed to pay invoice: route not found");
        }
    }
}
