//! The LNURL-withdraw flow: parameters with a `k1` token first, then settlement
//! of the invoice the wallet presents.
use vstd::prelude::*;
use vstd::string::*;

use crate::clock::millis_since_epoch;
use crate::config::AppConfig;
use crate::envelope::{build_lnurl_response_err, prefixed_error, ErrorEnvelope};
use crate::network::{lower_of, lowercase, network_name, ChosenNetwork};
use crate::pay::{build_service_url, service_url};
use crate::qr::{qr_fits, qr_text_of, render_qr};
use crate::text::{decimal_of, decimal_string, digit_char};

verus! {

/// The parameters a wallet fetches before presenting an invoice.
pub struct WithdrawParams {
    pub tag: String,
    pub callback: String,
    pub k1: String,
    pub default_description: String,
    pub min_withdrawable: u64,
    pub max_withdrawable: u64,
}

/// The settlement of a presented invoice.
pub struct WithdrawReceipt {
    pub txid: String,
}

/// The least amount offered for withdrawal, in millisatoshis.
pub const MIN_WITHDRAWABLE_MSAT: u64 = 5_000_000;

/// The greatest amount offered for withdrawal, in millisatoshis.
pub const MAX_WITHDRAWABLE_MSAT: u64 = 100_000_000;

pub open spec fn withdraw_tag() -> Seq<char> {
    "withdrawRequest"@
}

pub open spec fn withdraw_description() -> Seq<char> {
    "tbd-test-withdraw-description"@
}

/// The reason given when the clock reads earlier than the Unix epoch.
pub open spec fn clock_failure_reason() -> Seq<char> {
    "SystemTime before UNIX EPOCH"@
}

pub open spec fn settle_failure_prefix() -> Seq<char> {
    "Failed to pay invoice: "@
}

/// The callback a wallet calls to present its invoice.
pub open spec fn withdraw_callback(domain: Seq<char>, user: Seq<char>) -> Seq<char> {
    service_url(domain, user, "withdraw"@)
}

/// The withdraw link of a network's wallet, lowercased.
pub open spec fn withdraw_link_of(n: ChosenNetwork, domain: Seq<char>) -> Seq<char> {
    lower_of("https://"@ + domain + "/.well-known/lnurlw/"@ + network_name(n))
}

/// Holds of withdraw parameters with these fields.
pub open spec fn is_withdraw_params(p: WithdrawParams, callback: Seq<char>, k1: Seq<char>, min: u64, max: u64) -> bool {
    &&& p.tag@ == withdraw_tag()
    &&& p.callback@ == callback
    &&& p.k1@ == k1
    &&& p.default_description@ == withdraw_description()
    &&& p.min_withdrawable == min
    &&& p.max_withdrawable == max
}

/// The withdraw link of the network's wallet under the configured domain.
pub fn get_lnurl_withdraw_link(config: &AppConfig, network: ChosenNetwork) -> (r: String)
    ensures
        r@ == withdraw_link_of(network, config.domain@),
{
    let mut s = String::from_str("https://");
    s.append(config.domain.as_str());
    s.append("/.well-known/lnurlw/");
    s.append(network.name());
    lowercase(s.as_str())
}

/// The QR code of the withdraw link; `None` exactly where it does not fit in one.
pub fn get_lnurl_withdraw_qr(config: &AppConfig, network: ChosenNetwork) -> (r: Option<String>)
    ensures
        r is Some <==> qr_fits(withdraw_link_of(network, config.domain@)),
        r matches Some(t) ==> t@ == qr_text_of(withdraw_link_of(network, config.domain@)),
{
    let link = get_lnurl_withdraw_link(config, network);
    render_qr(link.as_str())
}

/// Withdraw parameters for a clock reading: `k1` is the reading in decimal
/// milliseconds; with no reading (a clock before the epoch) an error envelope.
pub fn withdraw_params_at(
    callback: &str,
    min_withdrawable_msat: u64,
    max_withdrawable_msat: u64,
    now_millis: Option<u128>,
) -> (r: Result<WithdrawParams, ErrorEnvelope>)
    ensures
        match now_millis {
            Some(ms) => r matches Ok(p) && is_withdraw_params(
                p,
                callback@,
                decimal_of(ms as nat),
                min_withdrawable_msat,
                max_withdrawable_msat,
            ),
            None => r matches Err(e) && e.is_error_with(clock_failure_reason()),
        },
{
    match now_millis {
        Some(ms) => Ok(WithdrawParams {
            tag: String::from_str("withdrawRequest"),
            callback: String::from_str(callback),
            k1: decimal_string(ms),
            default_description: String::from_str("tbd-test-withdraw-description"),
            min_withdrawable: min_withdrawable_msat,
            max_withdrawable: max_withdrawable_msat,
        }),
        None => Err(build_lnurl_response_err("SystemTime before UNIX EPOCH")),
    }
}

/// Withdraw parameters stamped with the current time.
pub fn build_withdraw_response_ok(callback: &str, min_withdrawable_msat: u64, max_withdrawable_msat: u64) -> (r: Result<WithdrawParams, ErrorEnvelope>)
    ensures
        r matches Ok(p) ==> exists|ms: nat| is_withdraw_params(
            p,
            callback@,
            #[trigger] decimal_of(ms),
            min_withdrawable_msat,
            max_withdrawable_msat,
        ),
        r matches Err(e) ==> e.is_error_with(clock_failure_reason()),
{
    let now = millis_since_epoch();
    let r = withdraw_params_at(callback, min_withdrawable_msat, max_withdrawable_msat, now);
    proof {
        if let Some(ms) = now {
            assert(is_withdraw_params(r->Ok_0, callback@, decimal_of(ms as nat), min_withdrawable_msat, max_withdrawable_msat));
        }
    }
    r
}

/// The first step of LNURL-withdraw: parameters with a fresh `k1`. No record of
/// issued tokens is kept.
pub fn get_lnurl_withdraw_params(config: &AppConfig, user: &str) -> (r: Result<WithdrawParams, ErrorEnvelope>)
    ensures
        r matches Ok(p) ==> exists|ms: nat| is_withdraw_params(
            p,
            withdraw_callback(config.domain@, user@),
            #[trigger] decimal_of(ms),
            MIN_WITHDRAWABLE_MSAT,
            MAX_WITHDRAWABLE_MSAT,
        ),
        r matches Err(e) ==> e.is_error_with(clock_failure_reason()),
{
    let callback = build_service_url(config.domain.as_str(), user, "withdraw");
    build_withdraw_response_ok(callback.as_str(), MIN_WITHDRAWABLE_MSAT, MAX_WITHDRAWABLE_MSAT)
}

/// The response for what the wallet did with a presented invoice. `k1` is not
/// checked against any issued token: an invoice the wallet paid settles whatever
/// `k1` holds.
pub fn withdraw_outcome(k1: &str, paid: Result<String, String>) -> (r: Result<WithdrawReceipt, ErrorEnvelope>)
    ensures
        paid is Ok <==> r is Ok,
        match paid {
            Ok(txid) => r matches Ok(rc) && rc.txid@ == txid@,
            Err(msg) => r matches Err(e) && e.is_error_with(settle_failure_prefix() + msg@),
        },
{
    match paid {
        Ok(txid) => Ok(WithdrawReceipt { txid }),
        Err(msg) => Err(prefixed_error("Failed to pay invoice: ", msg.as_str())),
    }
}

proof fn lemma_decimal_nonempty(n: nat)
    ensures
        decimal_of(n).len() >= 1,
    decreases n,
{
    if n >= 10 {
        lemma_decimal_nonempty(n / 10);
    }
}

proof fn lemma_digit_injective(x: nat, y: nat)
    requires
        x < 10,
        y < 10,
        digit_char(x) == digit_char(y),
    ensures
        x == y,
{
}

/// Two `k1` tokens are equal exactly when they were minted from the same clock
/// reading: tokens minted within one millisecond coincide, others differ.
pub proof fn lemma_k1_equal_iff_same_millisecond(a: nat, b: nat)
    ensures
        decimal_of(a) == decimal_of(b) <==> a == b,
    decreases a,
{
    if decimal_of(a) == decimal_of(b) {
        let da = decimal_of(a);
        let db = decimal_of(b);
        if a < 10 && b < 10 {
            assert(da[0] == digit_char(a));
            assert(db[0] == digit_char(b));
            lemma_digit_injective(a, b);
        } else if a < 10 {
            lemma_decimal_nonempty(b / 10);
            assert(db.len() >= 2);
        } else if b < 10 {
            lemma_decimal_nonempty(a / 10);
            assert(da.len() >= 2);
        } else {
            assert(da.drop_last() =~= decimal_of(a / 10));
            assert(db.drop_last() =~= decimal_of(b / 10));
            lemma_k1_equal_iff_same_millisecond(a / 10, b / 10);
            assert(da.last() == digit_char(a % 10));
            assert(db.last() == digit_char(b % 10));
            lemma_digit_injective(a % 10, b % 10);
            assert(a == 10 * (a / 10) + a % 10) by (nonlinear_arith);
            assert(b == 10 * (b / 10) + b % 10) by (nonlinear_arith);
        }
    }
}

} // verus!
