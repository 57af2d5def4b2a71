//! The LNURL-pay flow: parameters first, then an invoice for a chosen amount.
use vstd::prelude::*;
use vstd::string::*;

use crate::config::AppConfig;
use crate::envelope::{prefixed_error, ErrorEnvelope};
use crate::network::{lower_of, lowercase, network_name, ChosenNetwork};
use crate::qr::{qr_fits, qr_text_of, render_qr};
use crate::text::join_with;

verus! {

/// The parameters a wallet fetches before asking for an invoice.
pub struct PayParams {
    pub callback: String,
    pub min_sendable: u64,
    pub max_sendable: u64,
    pub metadata: String,
    pub tag: String,
}

/// The invoice handed back for a requested amount; `routes` is always empty.
pub struct InvoiceResponse {
    pub pr: String,
    pub routes: Vec<String>,
}

/// The characters of each string of each pair.
pub open spec fn pair_views(pairs: Seq<(String, String)>) -> Seq<(Seq<char>, Seq<char>)> {
    pairs.map_values(|p: (String, String)| (p.0@, p.1@))
}

/// What `serde_json::to_string` makes of a list of string pairs: a JSON array of
/// two-element arrays.
pub uninterp spec fn json_of_pairs(pairs: Seq<(Seq<char>, Seq<char>)>) -> Seq<char>;

/// A string that JSON writes as it stands: no control character, quote or backslash.
pub open spec fn json_plain(s: Seq<char>) -> bool {
    forall|i: int| 0 <= i < s.len() ==> (s[i] as u32) >= 0x20 && s[i] != '"' && s[i] != '\\'
}

/// Every string of every pair is plain.
pub open spec fn pairs_plain(pairs: Seq<(Seq<char>, Seq<char>)>) -> bool {
    forall|i: int| 0 <= i < pairs.len() ==> json_plain(#[trigger] pairs[i].0) && json_plain(pairs[i].1)
}

/// A plain string in quotes.
pub open spec fn json_quoted(s: Seq<char>) -> Seq<char> {
    seq!['"'] + s + seq!['"']
}

/// A pair as a two-element JSON array, without whitespace.
pub open spec fn json_pair(p: (Seq<char>, Seq<char>)) -> Seq<char> {
    seq!['['] + json_quoted(p.0) + seq![','] + json_quoted(p.1) + seq![']']
}

/// Plain string pairs as a compact JSON array of two-element arrays.
pub open spec fn json_plain_pairs(pairs: Seq<(Seq<char>, Seq<char>)>) -> Seq<char> {
    seq!['['] + join_with(pairs.map_values(|p: (Seq<char>, Seq<char>)| json_pair(p)), seq![',']) + seq![']']
}

/// Relies on `serde_json::to_string` (as re-exported by rocket): string pairs
/// serialise as a JSON array of two-string arrays with the compact formatter
/// (`[`, values split by `,`, `]`; strings quoted, escaping only control
/// characters, quotes and backslashes), and serialising strings and tuples into
/// memory does not fail.
#[verifier::external_body]
fn encode_pairs(pairs: &Vec<(String, String)>) -> (r: Option<String>)
    ensures
        r is Some,
        r matches Some(t) ==> t@ == json_of_pairs(pair_views(pairs@)),
        r matches Some(t) ==> (pairs_plain(pair_views(pairs@)) ==> t@ == json_plain_pairs(pair_views(pairs@))),
{
    rocket::serde::json::serde_json::to_string(pairs).ok()
}

pub open spec fn pay_tag() -> Seq<char> {
    "payRequest"@
}

/// The single metadata entry: its mime type and its text.
pub open spec fn metadata_entry() -> (Seq<char>, Seq<char>) {
    ("text/plain"@, "tbd-test-metadata"@)
}

/// The metadata string: the JSON text of an array holding the one entry,
/// `[["text/plain","tbd-test-metadata"]]`.
pub open spec fn pay_metadata() -> Seq<char> {
    json_plain_pairs(seq![metadata_entry()])
}

/// `https://{domain}/{user}/{leaf}`.
pub open spec fn service_url(domain: Seq<char>, user: Seq<char>, leaf: Seq<char>) -> Seq<char> {
    "https://"@ + domain + "/"@ + user + "/"@ + leaf
}

/// The callback a wallet calls for an invoice.
pub open spec fn pay_callback(domain: Seq<char>, user: Seq<char>) -> Seq<char> {
    service_url(domain, user, "invoice"@)
}

/// The Lightning address of a network's wallet: `{network}@{domain}`, lowercased.
pub open spec fn ln_address_of(n: ChosenNetwork, domain: Seq<char>) -> Seq<char> {
    lower_of(network_name(n) + "@"@ + domain)
}

/// Holds of pay parameters with these fields.
pub open spec fn is_pay_params(p: PayParams, callback: Seq<char>, min: u64, max: u64, metadata: Seq<char>) -> bool {
    &&& p.callback@ == callback
    &&& p.min_sendable == min
    &&& p.max_sendable == max
    &&& p.metadata@ == metadata
    &&& p.tag@ == pay_tag()
}

/// `https://{domain}/{user}/{leaf}`.
pub(crate) fn build_service_url(domain: &str, user: &str, leaf: &str) -> (r: String)
    ensures
        r@ == service_url(domain@, user@, leaf@),
{
    let mut s = String::from_str("https://");
    s.append(domain);
    s.append("/");
    s.append(user);
    s.append("/");
    s.append(leaf);
    s
}

/// The Lightning address of the network's wallet under the configured domain.
pub fn get_ln_address(config: &AppConfig, network: ChosenNetwork) -> (r: String)
    ensures
        r@ == ln_address_of(network, config.domain@),
{
    let mut s = String::from_str(network.name());
    s.append("@");
    s.append(config.domain.as_str());
    lowercase(s.as_str())
}

/// The QR code of the Lightning address; `None` exactly where it does not fit in one.
pub fn get_lnurl_pay_qr(config: &AppConfig, network: ChosenNetwork) -> (r: Option<String>)
    ensures
        r is Some <==> qr_fits(ln_address_of(network, config.domain@)),
        r matches Some(t) ==> t@ == qr_text_of(ln_address_of(network, config.domain@)),
{
    let address = get_ln_address(config, network);
    render_qr(address.as_str())
}

/// Pay parameters around an already encoded metadata string.
pub fn pay_params_with_metadata(callback: &str, min_sendable_msat: u64, max_sendable_msat: u64, metadata: String) -> (r: PayParams)
    ensures
        is_pay_params(r, callback@, min_sendable_msat, max_sendable_msat, metadata@),
{
    PayParams {
        callback: String::from_str(callback),
        min_sendable: min_sendable_msat,
        max_sendable: max_sendable_msat,
        metadata,
        tag: String::from_str("payRequest"),
    }
}

/// Pay parameters with the service's metadata.
pub fn build_pay_response_ok(callback: &str, min_sendable_msat: u64, max_sendable_msat: u64) -> (r: PayParams)
    ensures
        is_pay_params(r, callback@, min_sendable_msat, max_sendable_msat, pay_metadata()),
{
    let mut pairs: Vec<(String, String)> = Vec::new();
    pairs.push((String::from_str("text/plain"), String::from_str("tbd-test-metadata")));
    let encoded = encode_pairs(&pairs);
    proof {
        assert(pair_views(pairs@) =~= seq![metadata_entry()]);
        reveal_strlit("text/plain");
        reveal_strlit("tbd-test-metadata");
        let mime = metadata_entry().0;
        let text = metadata_entry().1;
        assert(mime =~= seq!['t', 'e', 'x', 't', '/', 'p', 'l', 'a', 'i', 'n']);
        assert(text =~= seq!['t', 'b', 'd', '-', 't', 'e', 's', 't', '-', 'm', 'e', 't', 'a', 'd', 'a', 't', 'a']);
        assert(json_plain(mime));
        assert(json_plain(text));
        assert(pairs_plain(seq![metadata_entry()]));
    }
    let metadata = match encoded {
        Some(t) => t,
        None => String::new(),
    };
    pay_params_with_metadata(callback, min_sendable_msat, max_sendable_msat, metadata)
}

/// The first step of LNURL-pay: parameters from the static configuration. It
/// makes no wallet call and cannot fail.
pub fn get_lnurl_params(config: &AppConfig, user: &str) -> (r: PayParams)
    ensures
        is_pay_params(
            r,
            pay_callback(config.domain@, user@),
            config.min_sendable_msat,
            config.max_sendable_msat,
            pay_metadata(),
        ),
{
    let callback = build_service_url(config.domain.as_str(), user, "invoice");
    build_pay_response_ok(callback.as_str(), config.min_sendable_msat, config.max_sendable_msat)
}

/// Whole satoshis in an amount of millisatoshis; the remainder below 1000 is dropped.
pub fn invoice_amount_sat(amount_msat: u64) -> (r: u64)
    ensures
        r == amount_msat / 1000,
{
    amount_msat / 1000
}

pub open spec fn invoice_failure_prefix() -> Seq<char> {
    "Failed to get invoice: "@
}

/// The response for what the wallet did with an invoice request: the invoice with
/// no routes, or an error envelope whose reason carries the wallet's message.
pub fn invoice_outcome(received: Result<String, String>) -> (r: Result<InvoiceResponse, ErrorEnvelope>)
    ensures
        match received {
            Ok(invoice) => r matches Ok(resp) && resp.pr@ == invoice@ && resp.routes@.len() == 0,
            Err(msg) => r matches Err(e) && e.is_error_with(invoice_failure_prefix() + msg@),
        },
{
    match received {
        Ok(invoice) => Ok(InvoiceResponse { pr: invoice, routes: Vec::new() }),
        Err(msg) => Err(prefixed_error("Failed to get invoice: ", msg.as_str())),
    }
}

/// The pay parameters advertise an ordered range and the `payRequest` tag,
/// whenever the configured bounds are ordered.
pub proof fn lemma_pay_params_ordered(config: AppConfig, user: Seq<char>, p: PayParams)
    requires
        config.min_sendable_msat <= config.max_sendable_msat,
        is_pay_params(
            p,
            pay_callback(config.domain@, user),
            config.min_sendable_msat,
            config.max_sendable_msat,
            pay_metadata(),
        ),
    ensures
        p.min_sendable <= p.max_sendable,
        p.tag@ == pay_tag(),
{
}

} // verus!
