//! The plain-text status page of one network's wallet.
use vstd::prelude::*;
use vstd::string::*;

use crate::config::AppConfig;
use crate::network::{network_name, ChosenNetwork};
use crate::pay::{get_ln_address, get_lnurl_pay_qr, ln_address_of};
use crate::qr::{qr_fits, qr_text_of};
use crate::text::{
    decimal_of, decimal_string, join_strings, join_with, pad_left, pad_right, padded_left,
    padded_right, repeat_char, repeat_str,
};
use crate::withdraw::{get_lnurl_withdraw_link, get_lnurl_withdraw_qr, withdraw_link_of};

verus! {

/// One payment of the wallet's history as the page lists it.
pub struct PaymentRow {
    pub timestamp: Option<u32>,
    pub payment_type: String,
    pub amount_sat: u64,
}

/// What chrono prints for `ts` seconds after the epoch with `%Y-%m-%d %H:%M:%S`.
pub uninterp spec fn utc_text_of(ts: u32) -> Seq<char>;

/// Relies on chrono's `DateTime::from_timestamp` and `format`: the text depends on
/// `ts` alone, and every `u32` second count lies inside chrono's range of dates
/// (from_timestamp fails only for day counts beyond `i32`).
#[verifier::external_body]
fn format_utc(ts: u32) -> (r: Option<String>)
    ensures
        r is Some,
        r matches Some(t) ==> t@ == utc_text_of(ts),
{
    match chrono::DateTime::from_timestamp(ts as i64, 0) {
        Some(dt) => Some(dt.format("%Y-%m-%d %H:%M:%S").to_string()),
        None => None,
    }
}

/// The timestamp as `YYYY-MM-DD HH:MM:SS` in UTC.
pub fn parse_timestamp(ts: u32) -> (r: String)
    ensures
        r@ == utc_text_of(ts),
{
    match format_utc(ts) {
        Some(t) => t,
        None => String::new(),
    }
}

/// `i` underscores, the rule drawn beside each heading.
pub fn underscore_rule(i: usize) -> (r: String)
    ensures
        r@ == repeat_char('_', i as nat),
{
    proof {
        reveal_strlit("_");
    }
    repeat_str("_", i)
}

/// The navigation line: a link to the other network beside the current one's name.
pub open spec fn header_of(n: ChosenNetwork) -> Seq<char> {
    match n {
        ChosenNetwork::Mainnet => "<pre><h3><a href=\"/testnet\">Testnet</a> | Mainnet</h3></pre>"@,
        ChosenNetwork::Testnet => "<pre><h3>Testnet | <a href=\"/mainnet\">Mainnet</a></h3></pre>"@,
    }
}

/// The navigation line of the page.
pub fn get_header(network: ChosenNetwork) -> (r: String)
    ensures
        r@ == header_of(network),
{
    let links = match network {
        ChosenNetwork::Mainnet => "<a href=\"/testnet\">Testnet</a> | Mainnet",
        ChosenNetwork::Testnet => "Testnet | <a href=\"/mainnet\">Mainnet</a>",
    };
    let mut s = String::from_str("<pre><h3>");
    s.append(links);
    s.append("</h3></pre>");
    proof {
        reveal_strlit("<pre><h3>");
        reveal_strlit("</h3></pre>");
        reveal_strlit("<a href=\"/testnet\">Testnet</a> | Mainnet");
        reveal_strlit("Testnet | <a href=\"/mainnet\">Mainnet</a>");
        reveal_strlit("<pre><h3><a href=\"/testnet\">Testnet</a> | Mainnet</h3></pre>");
        reveal_strlit("<pre><h3>Testnet | <a href=\"/mainnet\">Mainnet</a></h3></pre>");
        assert(s@ =~= header_of(network));
    }
    s
}

/// The time column of a payment: the UTC time, or `(None)` padded with blanks.
pub open spec fn time_column(ts: Option<u32>) -> Seq<char> {
    match ts {
        Some(t) => utc_text_of(t),
        None => "(None) "@ + repeat_char(' ', 12),
    }
}

/// One line of the payment list: time, kind padded to 15, amount right-aligned in 10.
pub open spec fn payment_line_of(row: PaymentRow) -> Seq<char> {
    time_column(row.timestamp) + " | "@ + pad_right(row.payment_type@, 15) + " | "@
        + pad_left(decimal_of(row.amount_sat as nat), 10) + " sat"@
}

/// One line of the payment list.
pub fn payment_line(row: &PaymentRow) -> (r: String)
    ensures
        r@ == payment_line_of(*row),
{
    let mut s = match row.timestamp {
        Some(t) => parse_timestamp(t),
        None => {
            proof {
                reveal_strlit(" ");
            }
            let mut s = String::from_str("(None) ");
            let blanks = repeat_str(" ", 12);
            s.append(blanks.as_str());
            s
        },
    };
    s.append(" | ");
    let kind = padded_right(row.payment_type.as_str(), 15);
    s.append(kind.as_str());
    s.append(" | ");
    let digits = decimal_string(row.amount_sat as u128);
    let amount = padded_left(digits.as_str(), 10);
    s.append(amount.as_str());
    s.append(" sat");
    s
}

/// The lines of the payment list, one per row.
pub open spec fn payment_lines_of(rows: Seq<PaymentRow>) -> Seq<Seq<char>> {
    rows.map_values(|row: PaymentRow| payment_line_of(row))
}

/// The payment list, one line per payment in the given order.
pub fn payments_text(rows: &Vec<PaymentRow>) -> (r: String)
    ensures
        r@ == join_with(payment_lines_of(rows@), "\n"@),
{
    let mut lines: Vec<String> = Vec::new();
    let mut i: usize = 0;
    while i < rows.len()
        invariant
            i <= rows@.len(),
            lines@.len() == i,
            forall|j: int| 0 <= j < i ==> (#[trigger] lines@[j])@ == payment_line_of(rows@[j]),
        decreases rows.len() - i,
    {
        let line = payment_line(&rows[i]);
        lines.push(line);
        i = i + 1;
    }
    let r = join_strings(&lines, "\n");
    proof {
        assert(lines@.map_values(|p: String| p@) =~= payment_lines_of(rows@));
    }
    r
}

/// A section heading: a short rule, the network, the title and a long rule.
pub open spec fn heading_of(n: ChosenNetwork, title: Seq<char>, tail: nat) -> Seq<char> {
    repeat_char('_', 3) + " ["@ + network_name(n) + "] "@ + title + " "@ + repeat_char('_', tail)
}

fn heading(network: ChosenNetwork, title: &str, tail: usize) -> (r: String)
    ensures
        r@ == heading_of(network, title@, tail as nat),
{
    let mut s = underscore_rule(3);
    s.append(" [");
    s.append(network.name());
    s.append("] ");
    s.append(title);
    s.append(" ");
    let rule = underscore_rule(tail);
    s.append(rule.as_str());
    s
}

/// The page: navigation, then the pay, withdraw and balance sections in a `<pre>`.
pub open spec fn status_page_of(
    n: ChosenNetwork,
    domain: Seq<char>,
    pay_qr: Seq<char>,
    withdraw_qr: Seq<char>,
    balance_sat: u64,
    rows: Seq<PaymentRow>,
) -> Seq<char> {
    let pay = heading_of(n, "LNURL Pay & LN Address"@, 41) + "\n\n"@ + pay_qr + "\n\n"@
        + ln_address_of(n, domain);
    let withdraw = heading_of(n, "LNURL Withdraw"@, 49) + "\n\n"@ + withdraw_qr + "\n\n"@
        + withdraw_link_of(n, domain);
    let balance = heading_of(n, "Balance"@, 56) + "\n\n"@ + decimal_of(balance_sat as nat)
        + " sat\n\n"@ + join_with(payment_lines_of(rows), "\n"@);
    header_of(n) + "\n\n<pre>"@ + pay + "\n\n"@ + withdraw + "\n\n"@ + balance + "</pre>"@
}

/// The status page of a network's wallet, from its balance and payment history.
/// `None` exactly where the address or the withdraw link does not fit in a QR code.
pub fn index_with_network(config: &AppConfig, network: ChosenNetwork, balance_sat: u64, payments: &Vec<PaymentRow>) -> (r: Option<String>)
    ensures
        r is Some <==> (qr_fits(ln_address_of(network, config.domain@))
            && qr_fits(withdraw_link_of(network, config.domain@))),
        r matches Some(page) ==> page@ == status_page_of(
            network,
            config.domain@,
            qr_text_of(ln_address_of(network, config.domain@)),
            qr_text_of(withdraw_link_of(network, config.domain@)),
            balance_sat,
            payments@,
        ),
{
    let ln_address = get_ln_address(config, network);
    let pay_qr = match get_lnurl_pay_qr(config, network) {
        Some(q) => q,
        None => return None,
    };
    let withdraw_link = get_lnurl_withdraw_link(config, network);
    let withdraw_qr = match get_lnurl_withdraw_qr(config, network) {
        Some(q) => q,
        None => return None,
    };
    let payments_str = payments_text(payments);

    let mut page = get_header(network);
    page.append("\n\n<pre>");
    let pay_header = heading(network, "LNURL Pay & LN Address", 41);
    page.append(pay_header.as_str());
    page.append("\n\n");
    page.append(pay_qr.as_str());
    page.append("\n\n");
    page.append(ln_address.as_str());
    page.append("\n\n");
    let withdraw_header = heading(network, "LNURL Withdraw", 49);
    page.append(withdraw_header.as_str());
    page.append("\n\n");
    page.append(withdraw_qr.as_str());
    page.append("\n\n");
    page.append(withdraw_link.as_str());
    page.append("\n\n");
    let balance_header = heading(network, "Balance", 56);
    page.append(balance_header.as_str());
    page.append("\n\n");
    let balance = decimal_string(balance_sat as u128);
    page.append(balance.as_str());
    page.append(" sat\n\n");
    page.append(payments_str.as_str());
    page.append("</pre>");
    proof {
        assert(page@ =~= status_page_of(
            network,
            config.domain@,
            pay_qr@,
            withdraw_qr@,
            balance_sat,
            payments@,
        ));
    }
    Some(page)
}

} // verus!
