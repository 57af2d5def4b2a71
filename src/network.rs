//! Resolution of the network path segment.
use vstd::prelude::*;
use vstd::string::*;

use crate::text::str_equal;

verus! {

/// The two wallet instances the service fronts.
#[derive(Debug, Clone, Copy, PartialEq, Eq, Structural)]
pub enum ChosenNetwork {
    Mainnet,
    Testnet,
}

/// What `str::to_lowercase` makes of a string.
pub uninterp spec fn lower_of(s: Seq<char>) -> Seq<char>;

/// Relies on `str::to_lowercase`: the lowercase form depends on the characters alone.
#[verifier::external_body]
pub(crate) fn lowercase(s: &str) -> (r: String)
    ensures
        r@ == lower_of(s@),
{
    s.to_lowercase()
}

/// The token that selects the production network, in lowercase.
pub open spec fn mainnet_token() -> Seq<char> {
    seq!['m', 'a', 'i', 'n', 'n', 'e', 't']
}

/// The network that an already lowercased token selects: only `mainnet` selects
/// production, everything else falls back to the test network.
pub open spec fn network_of(lowered: Seq<char>) -> ChosenNetwork {
    if lowered == mainnet_token() {
        ChosenNetwork::Mainnet
    } else {
        ChosenNetwork::Testnet
    }
}

/// The name of a network as its `Debug` form prints it.
pub open spec fn network_name(n: ChosenNetwork) -> Seq<char> {
    match n {
        ChosenNetwork::Mainnet => seq!['M', 'a', 'i', 'n', 'n', 'e', 't'],
        ChosenNetwork::Testnet => seq!['T', 'e', 's', 't', 'n', 'e', 't'],
    }
}

/// The network that an already lowercased token selects.
pub fn network_of_lowered(lowered: &str) -> (r: ChosenNetwork)
    ensures
        r == network_of(lowered@),
{
    proof {
        reveal_strlit("mainnet");
        assert("mainnet"@ =~= mainnet_token());
    }
    if str_equal(lowered, "mainnet") {
        ChosenNetwork::Mainnet
    } else {
        ChosenNetwork::Testnet
    }
}

impl ChosenNetwork {
    /// Resolves a path token, ignoring case. This never fails: a token other than
    /// `mainnet` selects the test network.
    pub fn from_param(param: &str) -> (r: ChosenNetwork)
        ensures
            r == network_of(lower_of(param@)),
            r == ChosenNetwork::Mainnet <==> lower_of(param@) == mainnet_token(),
            r == ChosenNetwork::Testnet <==> lower_of(param@) != mainnet_token(),
    {
        let lowered = lowercase(param);
        network_of_lowered(lowered.as_str())
    }

    /// The network's name as its `Debug` form prints it.
    pub fn name(&self) -> (r: &'static str)
        ensures
            r@ == network_name(*self),
    {
        proof {
            reveal_strlit("Mainnet");
            reveal_strlit("Testnet");
            assert("Mainnet"@ =~= network_name(ChosenNetwork::Mainnet));
            assert("Testnet"@ =~= network_name(ChosenNetwork::Testnet));
        }
        match self {
            ChosenNetwork::Mainnet => "Mainnet",
            ChosenNetwork::Testnet => "Testnet",
        }
    }
}

} // verus!
