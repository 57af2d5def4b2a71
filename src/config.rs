//! Static configuration, read once at startup.
use vstd::prelude::*;

verus! {

/// Where the wallets keep their data, their seed, the public domain and the
/// advertised pay bounds in millisatoshis.
pub struct AppConfig {
    pub ls_sdk_data_dir: String,
    pub mnemonic: String,
    pub domain: String,
    pub min_sendable_msat: u64,
    pub max_sendable_msat: u64,
}

} // verus!
